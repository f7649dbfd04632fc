//! Regular expressions from the `regex` crate, and what the library reads from them.
//!
//! Each operation compiles its pattern with `regex::Regex::new` and, when the pattern
//! compiles, runs one method of the compiled expression. What the method returns is
//! named by an uninterpreted function of the pattern and the text. A pattern that does
//! not compile is treated as one that matches nothing.

use vstd::prelude::*;

verus! {

/// Whether `regex::Regex::new` accepts the pattern.
pub uninterp spec fn regex_compiles(pattern: Seq<char>) -> bool;

/// What `Regex::replace_all(text, rep)` returns.
pub uninterp spec fn regex_replace_all_result(pattern: Seq<char>, text: Seq<char>, rep: Seq<char>) -> Seq<char>;

/// What `Regex::replace(text, rep)` (first match only) returns.
pub uninterp spec fn regex_replace_result(pattern: Seq<char>, text: Seq<char>, rep: Seq<char>) -> Seq<char>;

/// The pieces of `Regex::split(text)`.
pub uninterp spec fn regex_split_result(pattern: Seq<char>, text: Seq<char>) -> Seq<Seq<char>>;

/// The text of the leftmost-first match of `Regex::find(text)`, if any.
pub uninterp spec fn regex_find_result(pattern: Seq<char>, text: Seq<char>) -> Option<Seq<char>>;

/// What `Regex::is_match(text)` returns.
pub uninterp spec fn regex_is_match_result(pattern: Seq<char>, text: Seq<char>) -> bool;

/// The groups of `Regex::captures(text)` (index 0 is the whole match), if it matches.
pub uninterp spec fn regex_captures_result(pattern: Seq<char>, text: Seq<char>) -> Option<Seq<Option<Seq<char>>>>;

/// Compiles `pattern` and returns `Regex::replace_all(text, rep)` as an owned string,
/// or `None` when `Regex::new` rejects the pattern.
#[verifier::external_body]
fn regex_replace_all(pattern: &str, text: &str, rep: &str) -> (r: Option<String>)
    ensures
        r is Some <==> regex_compiles(pattern@),
        r matches Some(s) ==> s@ == regex_replace_all_result(pattern@, text@, rep@),
{
    match ::regex::Regex::new(pattern) {
        Ok(re) => Some(re.replace_all(text, rep).into_owned()),
        Err(_) => None,
    }
}

/// Compiles `pattern` and returns `Regex::replace(text, rep)` as an owned string, or
/// `None` when `Regex::new` rejects the pattern.
#[verifier::external_body]
fn regex_replace(pattern: &str, text: &str, rep: &str) -> (r: Option<String>)
    ensures
        r is Some <==> regex_compiles(pattern@),
        r matches Some(s) ==> s@ == regex_replace_result(pattern@, text@, rep@),
{
    match ::regex::Regex::new(pattern) {
        Ok(re) => Some(re.replace(text, rep).into_owned()),
        Err(_) => None,
    }
}

/// Compiles `pattern` and returns the pieces of `Regex::split(text)`, or `None` when
/// `Regex::new` rejects the pattern.
#[verifier::external_body]
fn regex_split(pattern: &str, text: &str) -> (r: Option<Vec<String>>)
    ensures
        r is Some <==> regex_compiles(pattern@),
        r matches Some(v) ==> v.deep_view() == regex_split_result(pattern@, text@),
{
    match ::regex::Regex::new(pattern) {
        Ok(re) => Some(re.split(text).map(|p| p.to_string()).collect()),
        Err(_) => None,
    }
}

/// Compiles `pattern` and returns the text of `Regex::find(text)`, or `None` when
/// `Regex::new` rejects the pattern.
#[verifier::external_body]
fn regex_find(pattern: &str, text: &str) -> (r: Option<Option<String>>)
    ensures
        r is Some <==> regex_compiles(pattern@),
        r matches Some(m) ==> m.deep_view() == regex_find_result(pattern@, text@),
{
    match ::regex::Regex::new(pattern) {
        Ok(re) => Some(re.find(text).map(|m| m.as_str().to_string())),
        Err(_) => None,
    }
}

/// Compiles `pattern` and returns `Regex::is_match(text)`, or `None` when `Regex::new`
/// rejects the pattern.
#[verifier::external_body]
fn regex_is_match(pattern: &str, text: &str) -> (r: Option<bool>)
    ensures
        r is Some <==> regex_compiles(pattern@),
        r matches Some(b) ==> b == regex_is_match_result(pattern@, text@),
{
    match ::regex::Regex::new(pattern) {
        Ok(re) => Some(re.is_match(text)),
        Err(_) => None,
    }
}

/// Compiles `pattern` and returns the groups of `Regex::captures(text)` as owned
/// strings, or `None` when `Regex::new` rejects the pattern.
#[verifier::external_body]
fn regex_captures(pattern: &str, text: &str) -> (r: Option<Option<Vec<Option<String>>>>)
    ensures
        r is Some <==> regex_compiles(pattern@),
        r matches Some(c) ==> c.deep_view() == regex_captures_result(pattern@, text@),
{
    match ::regex::Regex::new(pattern) {
        Ok(re) => Some(re.captures(text).map(|c| c.iter().map(|g| g.map(|m| m.as_str().to_string())).collect())),
        Err(_) => None,
    }
}

/// `text` with every match replaced, or `text` itself when the pattern does not compile.
pub open spec fn replaced_all(pattern: Seq<char>, text: Seq<char>, rep: Seq<char>) -> Seq<char> {
    if regex_compiles(pattern) {
        regex_replace_all_result(pattern, text, rep)
    } else {
        text
    }
}

/// `text` with its first match replaced, or `text` itself when the pattern does not compile.
pub open spec fn replaced_first(pattern: Seq<char>, text: Seq<char>, rep: Seq<char>) -> Seq<char> {
    if regex_compiles(pattern) {
        regex_replace_result(pattern, text, rep)
    } else {
        text
    }
}

/// The pieces of `text` between matches, or `text` as one piece when the pattern does not compile.
pub open spec fn split_pieces(pattern: Seq<char>, text: Seq<char>) -> Seq<Seq<char>> {
    if regex_compiles(pattern) {
        regex_split_result(pattern, text)
    } else {
        seq![text]
    }
}

pub open spec fn found(pattern: Seq<char>, text: Seq<char>) -> Option<Seq<char>> {
    if regex_compiles(pattern) {
        regex_find_result(pattern, text)
    } else {
        None
    }
}

pub open spec fn pattern_matches(pattern: Seq<char>, text: Seq<char>) -> bool {
    regex_compiles(pattern) && regex_is_match_result(pattern, text)
}

pub open spec fn captured(pattern: Seq<char>, text: Seq<char>) -> Option<Seq<Option<Seq<char>>>> {
    if regex_compiles(pattern) {
        regex_captures_result(pattern, text)
    } else {
        None
    }
}

pub fn replace_all_matches(pattern: &str, text: &str, rep: &str) -> (r: String)
    ensures
        r@ == replaced_all(pattern@, text@, rep@),
{
    match regex_replace_all(pattern, text, rep) {
        Some(s) => s,
        None => text.to_owned(),
    }
}

pub fn replace_first_match(pattern: &str, text: &str, rep: &str) -> (r: String)
    ensures
        r@ == replaced_first(pattern@, text@, rep@),
{
    match regex_replace(pattern, text, rep) {
        Some(s) => s,
        None => text.to_owned(),
    }
}

pub fn split_by(pattern: &str, text: &str) -> (r: Vec<String>)
    ensures
        r.deep_view() == split_pieces(pattern@, text@),
{
    match regex_split(pattern, text) {
        Some(v) => v,
        None => {
            let mut v = Vec::new();
            v.push(text.to_owned());
            assert(v.deep_view() =~= seq![text@]);
            v
        },
    }
}

pub fn find_match(pattern: &str, text: &str) -> (r: Option<String>)
    ensures
        r.deep_view() == found(pattern@, text@),
{
    match regex_find(pattern, text) {
        Some(m) => m,
        None => None,
    }
}

pub fn is_match(pattern: &str, text: &str) -> (r: bool)
    ensures
        r == pattern_matches(pattern@, text@),
{
    match regex_is_match(pattern, text) {
        Some(b) => b,
        None => false,
    }
}

pub fn capture_groups(pattern: &str, text: &str) -> (r: Option<Vec<Option<String>>>)
    ensures
        r.deep_view() == captured(pattern@, text@),
{
    match regex_captures(pattern, text) {
        Some(c) => c,
        None => None,
    }
}

} // verus!
