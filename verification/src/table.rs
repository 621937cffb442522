//! The static interned-string table: a fixed, immutable set of identifier
//! strings that recur with high frequency in markup documents, together with
//! an exact-match lookup that hands out a canonical `'static` reference.
//!
//! The set is closed at build time; lookup is the table's only operation.

use vstd::prelude::*;
use crate::text::str_eq;

verus! {

/// Membership in the static table, as a predicate on the character sequence.
pub open spec fn in_table(s: Seq<char>) -> bool {
    ||| s == "a"@
    ||| s == "b"@
    ||| s == "body"@
    ||| s == "br"@
    ||| s == "class"@
    ||| s == "div"@
    ||| s == "head"@
    ||| s == "href"@
    ||| s == "html"@
    ||| s == "i"@
    ||| s == "id"@
    ||| s == "img"@
    ||| s == "li"@
    ||| s == "p"@
    ||| s == "span"@
    ||| s == "style"@
    ||| s == "table"@
    ||| s == "td"@
    ||| s == "title"@
    ||| s == "tr"@
}

/// Exact-match lookup: the canonical stable reference for `s` if the table
/// holds its content, and `None` otherwise.
pub fn lookup(s: &str) -> (r: Option<&'static str>)
    ensures
        match r {
            Some(k) => k@ == s@ && in_table(s@),
            None => !in_table(s@),
        },
{
    if str_eq(s, "a") {
        Some("a")
    } else if str_eq(s, "b") {
        Some("b")
    } else if str_eq(s, "body") {
        Some("body")
    } else if str_eq(s, "br") {
        Some("br")
    } else if str_eq(s, "class") {
        Some("class")
    } else if str_eq(s, "div") {
        Some("div")
    } else if str_eq(s, "head") {
        Some("head")
    } else if str_eq(s, "href") {
        Some("href")
    } else if str_eq(s, "html") {
        Some("html")
    } else if str_eq(s, "i") {
        Some("i")
    } else if str_eq(s, "id") {
        Some("id")
    } else if str_eq(s, "img") {
        Some("img")
    } else if str_eq(s, "li") {
        Some("li")
    } else if str_eq(s, "p") {
        Some("p")
    } else if str_eq(s, "span") {
        Some("span")
    } else if str_eq(s, "style") {
        Some("style")
    } else if str_eq(s, "table") {
        Some("table")
    } else if str_eq(s, "td") {
        Some("td")
    } else if str_eq(s, "title") {
        Some("title")
    } else if str_eq(s, "tr") {
        Some("tr")
    } else {
        None
    }
}

} // verus!
