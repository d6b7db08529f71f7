//! The items of the bundled spiders and the logic that turns the links they
//! find into absolute URLs.

use vstd::prelude::*;

verus! {

/// A public member of a GitHub organisation.
#[derive(Debug, Clone)]
pub struct GitHubItem {
    pub login: String,
    pub id: u64,
    pub node_id: String,
    pub html_url: String,
    pub avatar_url: String,
}

/// A quotation and its author.
#[derive(Debug, Clone)]
pub struct QuotesItem {
    pub quote: String,
    pub author: String,
}

/// What `str::trim` leaves of a string.
pub uninterp spec fn trim_of(s: Seq<char>) -> Seq<char>;

/// Relies on `str::trim`: the slice without leading and trailing white
/// space, a function of the characters alone.
#[verifier::external_body]
fn trim(s: &str) -> (r: &str)
    ensures
        r@ == trim_of(s@),
{
    s.trim()
}

/// Whether `s` begins with `p`.
pub open spec fn starts_with(s: Seq<char>, p: Seq<char>) -> bool {
    p.len() <= s.len() && s.subrange(0, p.len() as int) == p
}

/// Whether `s` begins with `p`.
pub fn has_prefix(s: &str, p: &str) -> (r: bool)
    ensures
        r == starts_with(s@, p@),
{
    let n = p.unicode_len();
    if n > s.unicode_len() {
        return false;
    }
    let mut i: usize = 0;
    while i < n
        invariant
            n == p@.len(),
            n <= s@.len(),
            i <= n,
            forall|j: int| 0 <= j < i ==> s@[j] == p@[j],
        decreases n - i,
    {
        if s.get_char(i) != p.get_char(i) {
            assert(s@.subrange(0, n as int)[i as int] != p@[i as int]);
            return false;
        }
        i += 1;
    }
    assert(s@.subrange(0, n as int) =~= p@);
    true
}

/// The absolute form of a link found on cvedetails.com.
pub open spec fn cvedetails_link(url: Seq<char>) -> Seq<char> {
    let u = trim_of(url);
    if starts_with(u, "//www.cvedetails.com"@) {
        "https:"@ + u
    } else if starts_with(u, "/"@) {
        "https://www.cvedetails.com"@ + u
    } else {
        u
    }
}

/// The absolute form of a link found on quotes.toscrape.com.
pub open spec fn quotes_link(url: Seq<char>) -> Seq<char> {
    let u = trim_of(url);
    if starts_with(u, "/"@) {
        "https://quotes.toscrape.com"@ + u
    } else {
        u
    }
}

/// Makes a link found on cvedetails.com absolute: a protocol-relative link
/// gets the https scheme, a path gets the site's origin, anything else is
/// kept as it is; surrounding white space is dropped.
pub fn cvedetails_url_join(url: &str) -> (r: String)
    ensures
        r@ == cvedetails_link(url@),
{
    let u = trim(url);
    if has_prefix(u, "//www.cvedetails.com") {
        let mut r = String::from_str("https:");
        r.append(u);
        r
    } else if has_prefix(u, "/") {
        let mut r = String::from_str("https://www.cvedetails.com");
        r.append(u);
        r
    } else {
        String::from_str(u)
    }
}

/// Makes a link found on quotes.toscrape.com absolute: a path gets the site's
/// origin, anything else is kept as it is; surrounding white space is dropped.
pub fn quotes_url_join(url: &str) -> (r: String)
    ensures
        r@ == quotes_link(url@),
{
    let u = trim(url);
    if has_prefix(u, "/") {
        let mut r = String::from_str("https://quotes.toscrape.com");
        r.append(u);
        r
    } else {
        String::from_str(u)
    }
}

} // verus!
