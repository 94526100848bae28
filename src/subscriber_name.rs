use unicode_segmentation::UnicodeSegmentation;
use vstd::prelude::*;

use crate::text::{chars_of, is_blank, is_blank_str};

verus! {

/// The largest number of user-perceived characters a subscriber name may have.
pub const MAX_NAME_GRAPHEMES: usize = 256;

/// The number of extended grapheme clusters (user-perceived characters) in `s`.
pub uninterp spec fn grapheme_count(s: Seq<char>) -> nat;

/// Relies on unicode-segmentation's `str::graphemes(true)`: the number of
/// extended grapheme clusters of `s`.
#[verifier::external_body]
fn count_graphemes(s: &str) -> (r: usize)
    ensures
        r as nat == grapheme_count(s@),
{
    s.graphemes(true).count()
}

/// Characters that a name may not hold, as they could smuggle markup or paths.
pub open spec fn is_forbidden_name_char(c: char) -> bool {
    ||| c == '<'
    ||| c == '>'
    ||| c == '"'
    ||| c == '`'
    ||| c == '('
    ||| c == ')'
    ||| c == '{'
    ||| c == '}'
    ||| c == '\\'
    ||| c == '/'
}

pub open spec fn has_forbidden_name_char(s: Seq<char>) -> bool {
    exists|i: int| 0 <= i < s.len() && is_forbidden_name_char(#[trigger] s[i])
}

/// A name is accepted when it is not blank, has at most `MAX_NAME_GRAPHEMES`
/// user-perceived characters, and holds no forbidden character.
pub open spec fn is_valid_name(s: Seq<char>) -> bool {
    &&& !is_blank(s)
    &&& grapheme_count(s) <= MAX_NAME_GRAPHEMES
    &&& !has_forbidden_name_char(s)
}

fn is_forbidden_char(c: char) -> (r: bool)
    ensures
        r == is_forbidden_name_char(c),
{
    c == '<' || c == '>' || c == '"' || c == '`' || c == '(' || c == ')' || c == '{' || c
        == '}' || c == '\\' || c == '/'
}

fn contains_forbidden_char(s: &str) -> (r: bool)
    ensures
        r == has_forbidden_name_char(s@),
{
    let cs = chars_of(s);
    let mut i: usize = 0;
    while i < cs.len()
        invariant
            cs@ == s@,
            i <= cs@.len(),
            forall|j: int| 0 <= j < i ==> !is_forbidden_name_char(#[trigger] cs@[j]),
        decreases cs@.len() - i,
    {
        if is_forbidden_char(cs[i]) {
            assert(is_forbidden_name_char(s@[i as int]));
            return true;
        }
        i = i + 1;
    }
    false
}

/// Whether `s`, which has `graphemes` user-perceived characters, is a valid name.
pub fn name_is_valid(s: &str, graphemes: usize) -> (r: bool)
    ensures
        r == (!is_blank(s@) && graphemes <= MAX_NAME_GRAPHEMES && !has_forbidden_name_char(s@)),
{
    let is_empty_or_whitespace = is_blank_str(s);
    let is_too_long = graphemes > MAX_NAME_GRAPHEMES;
    let contains_forbidden_characters = contains_forbidden_char(s);
    !(is_empty_or_whitespace || is_too_long || contains_forbidden_characters)
}

/// A validated subscriber name, kept verbatim (it is not trimmed).
#[derive(Debug)]
pub struct SubscriberName(String);

impl View for SubscriberName {
    type V = Seq<char>;

    closed spec fn view(&self) -> Seq<char> {
        self.0@
    }
}

impl SubscriberName {
    #[verifier::type_invariant]
    closed spec fn inv(self) -> bool {
        is_valid_name(self.0@)
    }

    /// Accepts `s` exactly when it is a valid name.
    pub fn parse(s: String) -> (r: Result<Self, String>)
        ensures
            r is Ok <==> is_valid_name(s@),
            r matches Ok(n) ==> n@ == s@,
            r matches Err(e) ==> e@ == "invalid subscriber name"@,
    {
        let graphemes = count_graphemes(s.as_str());
        if name_is_valid(s.as_str(), graphemes) {
            Ok(SubscriberName(s))
        } else {
            Err(String::from_str("invalid subscriber name"))
        }
    }

    /// The name as text; it is always a valid name.
    pub fn as_str(&self) -> (r: &str)
        ensures
            r@ == self@,
            is_valid_name(r@),
    {
        proof {
            use_type_invariant(self);
        }
        self.0.as_str()
    }
}

} // verus!
