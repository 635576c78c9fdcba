use vstd::prelude::*;
use vstd::string::*;

verus! {

/// `s` with every leading copy of `p` removed, one after another.
pub open spec fn trim_start_of(s: Seq<char>, p: Seq<char>) -> Seq<char>
    decreases s.len(),
{
    if p.len() > 0 && p.len() <= s.len() && s.subrange(0, p.len() as int) == p {
        trim_start_of(s.subrange(p.len() as int, s.len() as int), p)
    } else {
        s
    }
}

/// `s` with every trailing copy of `p` removed, one after another.
pub open spec fn trim_end_of(s: Seq<char>, p: Seq<char>) -> Seq<char>
    decreases s.len(),
{
    if p.len() > 0 && p.len() <= s.len() && s.subrange(s.len() - p.len(), s.len() as int) == p {
        trim_end_of(s.subrange(0, s.len() - p.len()), p)
    } else {
        s
    }
}

/// Relies on str::trim_start_matches with a string pattern: all prefixes
/// that match are removed, repeatedly.
#[verifier::external_body]
fn trim_start_matches<'a>(s: &'a str, p: &str) -> (r: &'a str)
    ensures
        r@ == trim_start_of(s@, p@),
{
    s.trim_start_matches(p)
}

/// Relies on str::trim_end_matches with a string pattern: all suffixes
/// that match are removed, repeatedly.
#[verifier::external_body]
fn trim_end_matches<'a>(s: &'a str, p: &str) -> (r: &'a str)
    ensures
        r@ == trim_end_of(s@, p@),
{
    s.trim_end_matches(p)
}

/// The address in a `Referer` header as it is shown for debugging
/// (`Referer("...")`): the wrapper and its quotes taken off.
pub open spec fn referer_of(shown: Seq<char>) -> Seq<char> {
    trim_end_of(trim_start_of(shown, "Referer(\""@), "\")"@)
}

/// The address of the request's `Referer` header, given the header as its
/// debug form shows it, or `None` where the request had no such header.
pub fn get_referer(header: Option<String>) -> (r: Option<String>)
    ensures
        header is None ==> r is None,
        header is Some ==> r is Some && r->Some_0@ == referer_of(header->Some_0@),
{
    match header {
        None => None,
        Some(shown) => {
            let start = trim_start_matches(shown.as_str(), "Referer(\"");
            let address = trim_end_matches(start, "\")");
            Some(address.to_owned())
        },
    }
}

} // verus!
