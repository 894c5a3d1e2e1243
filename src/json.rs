//! The JSON facilities the pipeline draws from serde_json: quoting a text as a
//! JSON string, and reading what a JSON Pointer reaches in a document.

use vstd::prelude::*;

verus! {

/// A lower-case hexadecimal digit.
pub open spec fn hex_digit(d: u32) -> char {
    if d == 0 { '0' }
    else if d == 1 { '1' }
    else if d == 2 { '2' }
    else if d == 3 { '3' }
    else if d == 4 { '4' }
    else if d == 5 { '5' }
    else if d == 6 { '6' }
    else if d == 7 { '7' }
    else if d == 8 { '8' }
    else if d == 9 { '9' }
    else if d == 10 { 'a' }
    else if d == 11 { 'b' }
    else if d == 12 { 'c' }
    else if d == 13 { 'd' }
    else if d == 14 { 'e' }
    else { 'f' }
}

/// How one character is written inside a JSON string: quote and backslash
/// behind a backslash, backspace, tab, line feed, form feed and carriage
/// return as `\b \t \n \f \r`, other control characters as `\u00xx`, and
/// everything else as itself.
pub open spec fn escape_char(c: char) -> Seq<char> {
    let n = c as u32;
    if n == 0x22 { seq!['\\', '"'] }
    else if n == 0x5C { seq!['\\', '\\'] }
    else if n == 0x08 { seq!['\\', 'b'] }
    else if n == 0x09 { seq!['\\', 't'] }
    else if n == 0x0A { seq!['\\', 'n'] }
    else if n == 0x0C { seq!['\\', 'f'] }
    else if n == 0x0D { seq!['\\', 'r'] }
    else if n < 0x20 { seq!['\\', 'u', '0', '0', hex_digit(n / 16), hex_digit(n % 16)] }
    else { seq![c] }
}

/// The characters of a text, each escaped for a JSON string.
pub open spec fn escaped(s: Seq<char>) -> Seq<char>
    decreases s.len(),
{
    if s.len() == 0 {
        Seq::empty()
    } else {
        escaped(s.drop_last()) + escape_char(s.last())
    }
}

/// The JSON string literal of a text, quotes included.
pub open spec fn json_quoted(s: Seq<char>) -> Seq<char> {
    seq!['"'] + escaped(s) + seq!['"']
}

/// What a JSON Pointer reaches in a document.
pub enum FoundView {
    /// A string.
    Text(Seq<char>),
    /// An array of this many elements.
    Array(usize),
    /// Nothing usable: the document does not parse, the pointer reaches
    /// nothing, or it reaches a value of another kind.
    Other,
}

/// What parsing a document with serde_json and looking up a JSON Pointer in it
/// yields.
pub uninterp spec fn json_found_at(doc: Seq<char>, pointer: Seq<char>) -> FoundView;

/// The string a JSON Pointer reaches in a document, if it reaches one.
pub open spec fn json_text_at(doc: Seq<char>, pointer: Seq<char>) -> Option<Seq<char>> {
    match json_found_at(doc, pointer) {
        FoundView::Text(t) => Some(t),
        _ => None,
    }
}

/// The length of the array a JSON Pointer reaches in a document, if it reaches one.
pub open spec fn json_array_len_at(doc: Seq<char>, pointer: Seq<char>) -> Option<usize> {
    match json_found_at(doc, pointer) {
        FoundView::Array(n) => Some(n),
        _ => None,
    }
}

pub(crate) enum Found {
    Text(String),
    Array(usize),
    Other,
}

impl Found {
    pub(crate) open spec fn view(&self) -> FoundView {
        match self {
            Found::Text(t) => FoundView::Text(t@),
            Found::Array(n) => FoundView::Array(*n),
            Found::Other => FoundView::Other,
        }
    }
}

/// The view of an optional owned text.
pub open spec fn opt_view(o: Option<String>) -> Option<Seq<char>> {
    match o {
        Some(s) => Some(s@),
        None => None,
    }
}

/// Relies on `serde_json::to_string` on a `str`: the text between quotes,
/// escaped character by character as serde_json's escape table does.
/// Serialising a `str` into memory cannot fail.
#[verifier::external_body]
pub(crate) fn quote_json(s: &str) -> (r: String)
    ensures
        r@ == json_quoted(s@),
{
    serde_json::to_string(s).unwrap_or_default()
}

/// Relies on `serde_json::from_str` into a `serde_json::Value`, then
/// `Value::pointer`: what the pointer reaches in the parsed document.
#[verifier::external_body]
fn value_at(doc: &str, pointer: &str) -> (r: Found)
    ensures
        r.view() == json_found_at(doc@, pointer@),
{
    let Ok(v) = serde_json::from_str::<serde_json::Value>(doc) else {
        return Found::Other;
    };
    match v.pointer(pointer) {
        Some(serde_json::Value::String(t)) => Found::Text(t.clone()),
        Some(serde_json::Value::Array(a)) => Found::Array(a.len()),
        _ => Found::Other,
    }
}

/// The string a JSON Pointer reaches in a document, if it reaches one.
pub fn text_at(doc: &str, pointer: &str) -> (r: Option<String>)
    ensures
        opt_view(r) == json_text_at(doc@, pointer@),
{
    match value_at(doc, pointer) {
        Found::Text(t) => Some(t),
        _ => None,
    }
}

/// The length of the array a JSON Pointer reaches in a document, if it reaches one.
pub fn array_len_at(doc: &str, pointer: &str) -> (r: Option<usize>)
    ensures
        r == json_array_len_at(doc@, pointer@),
{
    match value_at(doc, pointer) {
        Found::Array(n) => Some(n),
        _ => None,
    }
}

} // verus!
