use vstd::prelude::*;

use crate::text::{chars_of, is_white_space, is_white_space_char};

verus! {

/// `at` is the position of the one and only `@` in `s`.
pub open spec fn is_sole_at_sign(s: Seq<char>, at: int) -> bool {
    &&& 0 <= at < s.len()
    &&& s[at] == '@'
    &&& forall|j: int| 0 <= j < s.len() && j != at ==> #[trigger] s[j] != '@'
}

/// The domain after position `at` has a dot with at least one character on each side.
pub open spec fn has_domain_dot(s: Seq<char>, at: int) -> bool {
    exists|k: int| at + 1 < k < s.len() - 1 && #[trigger] s[k] == '.'
}

pub open spec fn has_white_space(s: Seq<char>) -> bool {
    exists|i: int| 0 <= i < s.len() && is_white_space(#[trigger] s[i])
}

/// An address is `local-part@domain`: one `@` with a non-empty local part before
/// it, a domain after it that holds a dot with characters on both sides, and no
/// white space anywhere.
pub open spec fn is_valid_email(s: Seq<char>) -> bool {
    &&& !has_white_space(s)
    &&& exists|at: int| #[trigger] is_sole_at_sign(s, at) && 0 < at && has_domain_dot(s, at)
}

fn find_sole_at_sign(cs: &Vec<char>) -> (r: Option<usize>)
    ensures
        r matches Some(at) ==> is_sole_at_sign(cs@, at as int),
        r is None ==> forall|at: int| !is_sole_at_sign(cs@, at),
{
    let mut found: Option<usize> = None;
    let mut i: usize = 0;
    while i < cs.len()
        invariant
            i <= cs@.len(),
            found is None ==> forall|j: int| 0 <= j < i ==> #[trigger] cs@[j] != '@',
            found matches Some(f) ==> f < i && cs@[f as int] == '@' && forall|j: int|
                0 <= j < i && j != f ==> #[trigger] cs@[j] != '@',
        decreases cs@.len() - i,
    {
        if cs[i] == '@' {
            match found {
                Some(f) => {
                    assert forall|at: int| !is_sole_at_sign(cs@, at) by {
                        if is_sole_at_sign(cs@, at) {
                            if at == f {
                                assert(cs@[i as int] != '@');
                            } else {
                                assert(cs@[f as int] != '@');
                            }
                        }
                    }
                    return None;
                },
                None => {
                    found = Some(i);
                },
            }
        }
        i = i + 1;
    }
    proof {
        if found is None {
            assert forall|at: int| !is_sole_at_sign(cs@, at) by {
                if is_sole_at_sign(cs@, at) {
                    assert(cs@[at] != '@');
                }
            }
        }
    }
    found
}

fn contains_white_space(cs: &Vec<char>) -> (r: bool)
    ensures
        r == has_white_space(cs@),
{
    let mut i: usize = 0;
    while i < cs.len()
        invariant
            i <= cs@.len(),
            forall|j: int| 0 <= j < i ==> !is_white_space(#[trigger] cs@[j]),
        decreases cs@.len() - i,
    {
        if is_white_space_char(cs[i]) {
            return true;
        }
        i = i + 1;
    }
    false
}

fn domain_has_dot(cs: &Vec<char>, at: usize) -> (r: bool)
    requires
        at < cs.len(),
    ensures
        r == has_domain_dot(cs@, at as int),
{
    let mut k: usize = at + 1;
    while k < cs.len()
        invariant
            at < cs@.len(),
            at + 1 <= k <= cs@.len(),
            forall|j: int| at + 1 < j < k && j < cs@.len() - 1 ==> #[trigger] cs@[j] != '.',
        decreases cs@.len() - k,
    {
        if k > at + 1 && k + 1 < cs.len() && cs[k] == '.' {
            return true;
        }
        k = k + 1;
    }
    false
}

/// A validated email address.
#[derive(Debug)]
pub struct SubscriberEmail(String);

impl View for SubscriberEmail {
    type V = Seq<char>;

    closed spec fn view(&self) -> Seq<char> {
        self.0@
    }
}

impl SubscriberEmail {
    #[verifier::type_invariant]
    closed spec fn inv(self) -> bool {
        is_valid_email(self.0@)
    }

    /// Accepts `s` exactly when it is a valid address.
    pub fn parse(s: String) -> (r: Result<Self, String>)
        ensures
            r is Ok <==> is_valid_email(s@),
            r matches Ok(e) ==> e@ == s@,
            r matches Err(msg) ==> msg@ == "invalid subscriber email"@,
    {
        let cs = chars_of(s.as_str());
        let valid = if contains_white_space(&cs) {
            false
        } else {
            match find_sole_at_sign(&cs) {
                None => false,
                Some(at) => {
                    let ok = at > 0 && domain_has_dot(&cs, at);
                    if !ok {
                        assert forall|a: int| #[trigger]
                            is_sole_at_sign(cs@, a) implies !(0 < a && has_domain_dot(
                            cs@,
                            a,
                        )) by {
                            if a != at as int {
                                assert(cs@[a] != '@');
                            }
                        }
                    }
                    ok
                },
            }
        };
        if valid {
            Ok(SubscriberEmail(s))
        } else {
            Err(String::from_str("invalid subscriber email"))
        }
    }

    /// The address as text; it is always a valid address.
    pub fn as_str(&self) -> (r: &str)
        ensures
            r@ == self@,
            is_valid_email(r@),
    {
        proof {
            use_type_invariant(self);
        }
        self.0.as_str()
    }
}

} // verus!
