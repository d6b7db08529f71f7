//! The fixed registry of spiders a user can pick by key.

use vstd::prelude::*;
use crate::error::Error;
use crate::text::same_chars;

verus! {

/// The bundled spiders.
#[derive(Debug, Clone, Copy, PartialEq, Eq, Structural)]
pub enum SpiderKind {
    Cve,
    GitHub,
    Quotes,
}

impl SpiderKind {
    /// The key a user selects this spider by.
    pub open spec fn key_of(&self) -> Seq<char> {
        match self {
            SpiderKind::Cve => "cve"@,
            SpiderKind::GitHub => "github"@,
            SpiderKind::Quotes => "quotes"@,
        }
    }

    /// The key a user selects this spider by.
    pub fn key(&self) -> (r: String)
        ensures
            r@ == self.key_of(),
    {
        match self {
            SpiderKind::Cve => String::from_str("cve"),
            SpiderKind::GitHub => String::from_str("github"),
            SpiderKind::Quotes => String::from_str("quotes"),
        }
    }

    /// Every spider, in the order they are listed.
    pub fn all() -> (r: Vec<SpiderKind>)
        ensures
            r@ == seq![SpiderKind::Cve, SpiderKind::GitHub, SpiderKind::Quotes],
    {
        let mut r: Vec<SpiderKind> = Vec::new();
        r.push(SpiderKind::Cve);
        r.push(SpiderKind::GitHub);
        r.push(SpiderKind::Quotes);
        r
    }

    /// The spider whose key is `key`; an unknown key is refused.
    pub fn select(key: &str) -> (r: Result<SpiderKind, Error>)
        ensures
            key@ == "cve"@ ==> r == Ok::<SpiderKind, Error>(SpiderKind::Cve),
            key@ == "github"@ ==> r == Ok::<SpiderKind, Error>(SpiderKind::GitHub),
            key@ == "quotes"@ ==> r == Ok::<SpiderKind, Error>(SpiderKind::Quotes),
            key@ != "cve"@ && key@ != "github"@ && key@ != "quotes"@
                ==> (r matches Err(Error::InvalidSpider(s)) && s@ == key@),
    {
        proof {
            reveal_strlit("cve");
            reveal_strlit("github");
            reveal_strlit("quotes");
            assert("cve"@.len() != "github"@.len());
            assert("cve"@.len() != "quotes"@.len());
            assert("github"@[0] != "quotes"@[0]);
        }
        if same_chars(key, "cve") {
            Ok(SpiderKind::Cve)
        } else if same_chars(key, "github") {
            Ok(SpiderKind::GitHub)
        } else if same_chars(key, "quotes") {
            Ok(SpiderKind::Quotes)
        } else {
            Err(Error::InvalidSpider(String::from_str(key)))
        }
    }
}

} // verus!
