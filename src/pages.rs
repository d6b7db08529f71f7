//! Pagination of the GitHub organisation-members listing: when a page comes
//! back full, the next page's URL is the current one with its page number
//! raised by one.

use vstd::prelude::*;
use crate::error::Error;
use crate::frontier::url_seq;

verus! {

#[verifier::external_type_specification]
#[verifier::external_body]
pub struct ExRegex(regex::Regex);

/// The pattern whose first group is the page number of a listing URL.
pub const PAGE_PATTERN: &'static str = ".*page=([0-9]*).*";

/// The listing returns at most this many members per page.
pub const MEMBERS_PER_PAGE: usize = 100;

/// What the first group of `PAGE_PATTERN` captures in `url`, if it matches.
pub uninterp spec fn page_group(url: Seq<char>) -> Option<Seq<char>>;

/// Whether `c` is one of the ASCII digits.
pub open spec fn is_digit(c: char) -> bool {
    '0' <= c && c <= '9'
}

/// Whether `s` is a non-empty run of ASCII digits.
pub open spec fn is_numeral(s: Seq<char>) -> bool {
    s.len() > 0 && forall|i: int| 0 <= i < s.len() ==> is_digit(#[trigger] s[i])
}

/// The number that a run of ASCII digits writes in decimal.
pub open spec fn numeral_value(s: Seq<char>) -> nat
    decreases s.len(),
{
    if s.len() == 0 {
        0
    } else {
        numeral_value(s.drop_last()) * 10 + (s.last() as nat - '0' as nat) as nat
    }
}

/// The decimal digit for `d`, below ten.
pub open spec fn digit_char(d: nat) -> char {
    seq!['0', '1', '2', '3', '4', '5', '6', '7', '8', '9'][d as int]
}

/// `n` written in decimal, without sign or leading zeros.
pub open spec fn decimal_of(n: nat) -> Seq<char>
    decreases n,
{
    if n < 10 {
        seq![digit_char(n)]
    } else {
        decimal_of(n / 10) + seq![digit_char(n % 10)]
    }
}

/// `s` with every occurrence of the non-empty `from` replaced by `to`,
/// scanning from the left without overlaps.
pub open spec fn replace_all(s: Seq<char>, from: Seq<char>, to: Seq<char>) -> Seq<char>
    decreases s.len(),
{
    if from.len() == 0 || s.len() < from.len() {
        s
    } else if s.subrange(0, from.len() as int) == from {
        to + replace_all(s.subrange(from.len() as int, s.len() as int), from, to)
    } else {
        seq![s[0]] + replace_all(s.drop_first(), from, to)
    }
}

/// The links to follow after a listing page at `url` that returned `count`
/// members out of `per_page`, where `page` is what the page pattern captured
/// in `url`. `None` stands for a failure: a full page whose URL holds no
/// page number, or one whose successor does not fit in a `usize`.
pub open spec fn next_pages(url: Seq<char>, page: Option<Seq<char>>, count: nat, per_page: nat) -> Option<Seq<Seq<char>>> {
    if count != per_page {
        Some(Seq::empty())
    } else {
        match page {
            Some(g) => if is_numeral(g) && numeral_value(g) + 1 <= usize::MAX {
                Some(seq![replace_all(url, "&page="@ + g, "&page="@ + decimal_of(numeral_value(g) + 1))])
            } else {
                None
            },
            None => None,
        }
    }
}

/// Relies on `regex::Regex::new`: compiles a pattern, or fails.
#[verifier::external_body]
fn compile(pattern: &str) -> (r: Option<regex::Regex>) {
    regex::Regex::new(pattern).ok()
}

/// Relies on `regex::Regex::captures` and `Captures::get`: the text of the
/// first group of `PAGE_PATTERN`, which every `PagePattern` holds compiled,
/// when it matches.
#[verifier::external_body]
fn capture_page(p: &PagePattern, url: &str) -> (r: Option<String>)
    ensures
        r matches Some(g) ==> page_group(url@) == Some(g@),
        r is None ==> page_group(url@) is None,
{
    p.re.captures(url).and_then(|c| c.get(1)).map(|m| m.as_str().to_string())
}

/// Relies on `str::parse::<usize>`: a non-empty run of ASCII digits parses to
/// the number it writes when that fits in a `usize`.
#[verifier::external_body]
fn parse_usize(s: &str) -> (r: Option<usize>)
    requires
        is_numeral(s@),
    ensures
        numeral_value(s@) <= usize::MAX ==> r == Some(numeral_value(s@) as usize),
        numeral_value(s@) > usize::MAX ==> r is None,
{
    s.parse::<usize>().ok()
}

/// Relies on `ToString` for `usize`: its decimal text.
#[verifier::external_body]
fn decimal_text(n: usize) -> (r: String)
    ensures
        r@ == decimal_of(n as nat),
{
    n.to_string()
}

/// Relies on `str::replace`: every match of the non-empty `from`, found from
/// the left without overlaps, replaced by `to`.
#[verifier::external_body]
fn replace(s: &str, from: &str, to: &str) -> (r: String)
    requires
        from@.len() > 0,
    ensures
        r@ == replace_all(s@, from@, to@),
{
    s.replace(from, to)
}

/// Whether `s` is a non-empty run of ASCII digits.
pub fn numeral(s: &str) -> (r: bool)
    ensures
        r == is_numeral(s@),
{
    let n = s.unicode_len();
    if n == 0 {
        return false;
    }
    let mut i: usize = 0;
    while i < n
        invariant
            n == s@.len(),
            i <= n,
            forall|j: int| 0 <= j < i ==> is_digit(#[trigger] s@[j]),
        decreases n - i,
    {
        let c = s.get_char(i);
        if !('0' <= c && c <= '9') {
            return false;
        }
        i += 1;
    }
    true
}

/// `PAGE_PATTERN`, compiled; no other pattern is ever stored here.
pub struct PagePattern {
    re: regex::Regex,
}

impl PagePattern {
    /// Compiles `PAGE_PATTERN`.
    pub fn new() -> (r: Result<PagePattern, Error>) {
        match compile(PAGE_PATTERN) {
            Some(re) => Ok(PagePattern { re }),
            None => Err(Error::Internal(String::from_str("spider/github: compiling page regex"))),
        }
    }

    /// The links to follow after the page at `url` returned `count` members
    /// out of `per_page`.
    pub fn next_links(&self, url: &str, count: usize, per_page: usize) -> (r: Result<Vec<String>, Error>)
        ensures
            match next_pages(url@, page_group(url@), count as nat, per_page as nat) {
                Some(links) => r matches Ok(v) && url_seq(v@) == links,
                None => r matches Err(Error::Internal(_)),
            },
    {
        if count != per_page {
            return next_page_links(url, None, count, per_page);
        }
        let page = capture_page(self, url);
        next_page_links(url, page, count, per_page)
    }
}

/// The links to follow after a listing page at `url` that returned `count`
/// members out of `per_page`, given what the page pattern captured in `url`.
pub fn next_page_links(url: &str, page: Option<String>, count: usize, per_page: usize) -> (r: Result<Vec<String>, Error>)
    ensures
        match next_pages(url@, match page { Some(g) => Some(g@), None => None }, count as nat, per_page as nat) {
            Some(links) => r matches Ok(v) && url_seq(v@) == links,
            None => r matches Err(Error::Internal(_)),
        },
{
    if count != per_page {
        let v: Vec<String> = Vec::new();
        assert(url_seq(v@) =~= Seq::<Seq<char>>::empty());
        return Ok(v);
    }
    let g = match page {
        Some(g) => g,
        None => {
            return Err(Error::Internal(String::from_str("spider/github: no page number")));
        },
    };
    if !numeral(g.as_str()) {
        return Err(Error::Internal(String::from_str("spider/github: parsing page number")));
    }
    let old_number = match parse_usize(g.as_str()) {
        Some(n) => n,
        None => {
            return Err(Error::Internal(String::from_str("spider/github: parsing page number")));
        },
    };
    if old_number == usize::MAX {
        return Err(Error::Internal(String::from_str("spider/github: page number too large")));
    }
    let new_number = old_number + 1;
    let mut from = String::from_str("&page=");
    from.append(g.as_str());
    let mut to = String::from_str("&page=");
    let digits = decimal_text(new_number);
    to.append(digits.as_str());
    let next = replace(url, from.as_str(), to.as_str());
    let mut v: Vec<String> = Vec::new();
    v.push(next);
    assert(url_seq(v@) =~= seq![next@]);
    Ok(v)
}

} // verus!
