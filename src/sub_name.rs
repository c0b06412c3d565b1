use unicode_segmentation::UnicodeSegmentation;
use vstd::prelude::*;

verus! {

/// The longest accepted name, counted in extended grapheme clusters.
pub const MAX_NAME_GRAPHEMES: usize = 256;

/// The number of extended grapheme clusters of a string.
pub uninterp spec fn grapheme_count(s: Seq<char>) -> nat;

/// Characters that a name must not contain.
pub open spec fn is_forbidden_char(c: char) -> bool {
    c == '/' || c == '(' || c == ')' || c == '"' || c == '<' || c == '>' || c == '\\' || c == '{'
        || c == '}'
}

/// Unicode's `White_Space` property.
pub open spec fn is_white_space(c: char) -> bool {
    ('\u{9}' <= c && c <= '\u{d}') || c == ' ' || c == '\u{85}' || c == '\u{a0}' || c
        == '\u{1680}' || ('\u{2000}' <= c && c <= '\u{200a}') || c == '\u{2028}' || c
        == '\u{2029}' || c == '\u{202f}' || c == '\u{205f}' || c == '\u{3000}'
}

/// Nothing is left of the string once surrounding whitespace is trimmed.
pub open spec fn is_blank(s: Seq<char>) -> bool {
    forall|i: int| 0 <= i < s.len() ==> is_white_space(#[trigger] s[i])
}

pub open spec fn has_forbidden_char(s: Seq<char>) -> bool {
    exists|i: int| 0 <= i < s.len() && is_forbidden_char(#[trigger] s[i])
}

/// A name is accepted when it is not blank, has at most 256 graphemes and
/// holds no forbidden character.
pub open spec fn is_valid_name_spec(s: Seq<char>) -> bool {
    &&& !is_blank(s)
    &&& grapheme_count(s) <= MAX_NAME_GRAPHEMES
    &&& !has_forbidden_char(s)
}

/// Relies on `char::is_whitespace`, documented as Unicode's `White_Space` property.
#[verifier::external_body]
fn char_is_whitespace(c: char) -> (r: bool)
    ensures
        r == is_white_space(c),
{
    c.is_whitespace()
}

/// Relies on `UnicodeSegmentation::graphemes` (extended clusters), counted.
#[verifier::external_body]
fn count_graphemes(s: &str) -> (r: usize)
    ensures
        r == grapheme_count(s@),
{
    s.graphemes(true).count()
}

/// A subscriber's display name; holding one means it passed validation.
pub struct SubscriberName {
    name: String,
}

impl View for SubscriberName {
    type V = Seq<char>;

    closed spec fn view(&self) -> Seq<char> {
        self.name@
    }
}

impl SubscriberName {
    #[verifier::type_invariant]
    spec fn inv(&self) -> bool {
        is_valid_name_spec(self.name@)
    }

    /// Accepts `name` exactly when it is valid, keeping it unchanged.
    pub fn parse(name: String) -> (r: Result<SubscriberName, String>)
        ensures
            r is Ok <==> is_valid_name_spec(name@),
            r matches Ok(n) ==> n@ == name@,
            r matches Err(e) ==> e@ == "bad name"@,
    {
        if !is_valid_name(name.as_str()) {
            Err(String::from_str("bad name"))
        } else {
            Ok(SubscriberName { name })
        }
    }

    /// The name as text; every held name is valid.
    pub fn as_ref(&self) -> (r: &str)
        ensures
            r@ == self@,
            is_valid_name_spec(self@),
    {
        proof {
            use_type_invariant(self);
        }
        self.name.as_str()
    }
}

fn is_blank_str(s: &str) -> (r: bool)
    ensures
        r == is_blank(s@),
{
    let n = s.unicode_len();
    let mut i: usize = 0;
    while i < n
        invariant
            n == s@.len(),
            i <= n,
            forall|j: int| 0 <= j < i ==> is_white_space(#[trigger] s@[j]),
        decreases n - i,
    {
        if !char_is_whitespace(s.get_char(i)) {
            return false;
        }
        i = i + 1;
    }
    true
}

fn has_forbidden_char_str(s: &str) -> (r: bool)
    ensures
        r == has_forbidden_char(s@),
{
    let n = s.unicode_len();
    let mut i: usize = 0;
    while i < n
        invariant
            n == s@.len(),
            i <= n,
            forall|j: int| 0 <= j < i ==> !is_forbidden_char(#[trigger] s@[j]),
        decreases n - i,
    {
        let c = s.get_char(i);
        if c == '/' || c == '(' || c == ')' || c == '"' || c == '<' || c == '>' || c == '\\'
            || c == '{' || c == '}' {
            return true;
        }
        i = i + 1;
    }
    false
}

/// Whether `name`, which has `graphemes` grapheme clusters, is acceptable.
pub fn is_acceptable_name(name: &str, graphemes: usize) -> (r: bool)
    ensures
        r == (!is_blank(name@) && graphemes <= MAX_NAME_GRAPHEMES && !has_forbidden_char(name@)),
{
    let is_empty = is_blank_str(name);
    let is_too_long = graphemes > MAX_NAME_GRAPHEMES;
    let has_bad_chars = has_forbidden_char_str(name);
    !(is_empty || is_too_long || has_bad_chars)
}

/// Whether `name` is acceptable as a subscriber name.
pub fn is_valid_name(name: &str) -> (r: bool)
    ensures
        r == is_valid_name_spec(name@),
{
    let graphemes = count_graphemes(name);
    is_acceptable_name(name, graphemes)
}

} // verus!
