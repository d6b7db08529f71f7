use vxsuite::spiders::{cvedetails_url_join, has_prefix, quotes_url_join};

#[test]
fn cvedetails_protocol_relative_link() {
    assert_eq!(
        cvedetails_url_join("  //www.cvedetails.com/cve/CVE-2020-1/ "),
        "https://www.cvedetails.com/cve/CVE-2020-1/"
    );
}

#[test]
fn cvedetails_path_link() {
    assert_eq!(
        cvedetails_url_join("/vulnerability-list/page-2.html\n"),
        "https://www.cvedetails.com/vulnerability-list/page-2.html"
    );
}

#[test]
fn cvedetails_absolute_link_kept() {
    assert_eq!(cvedetails_url_join(" https://example.com/x "), "https://example.com/x");
}

#[test]
fn quotes_path_link() {
    assert_eq!(quotes_url_join(" /js/page/2/ "), "https://quotes.toscrape.com/js/page/2/");
}

#[test]
fn quotes_absolute_link_kept() {
    assert_eq!(quotes_url_join("https://quotes.toscrape.com/js/"), "https://quotes.toscrape.com/js/");
    assert_eq!(quotes_url_join("   "), "");
}

#[test]
fn prefix_checks() {
    assert!(has_prefix("/abc", "/"));
    assert!(has_prefix("abc", ""));
    assert!(!has_prefix("ab", "abc"));
    assert!(!has_prefix("xbc", "ab"));
}
