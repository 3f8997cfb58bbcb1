//! Query strings that hold something other than whitespace.

use vstd::prelude::*;

verus! {

/// Whether `c` has Unicode's White_Space property, as `char::is_whitespace`
/// reports it.
pub uninterp spec fn white_space(c: char) -> bool;

/// Relies on `char::is_whitespace`: the answer depends on the character alone.
#[verifier::external_body]
fn is_whitespace(c: char) -> (r: bool)
    ensures
        r == white_space(c),
{
    c.is_whitespace()
}

/// Non-empty and not made of whitespace alone.
pub open spec fn non_hollow(s: Seq<char>) -> bool {
    exists|i: int| 0 <= i < s.len() && !white_space(#[trigger] s[i])
}

pub const EMPTY_MESSAGE: &'static str = "passed string is empty";

pub const WHITESPACE_MESSAGE: &'static str = "passed string contains only whitespace";

/// A string with at least one character other than whitespace.
#[derive(Debug)]
pub struct NonHollowString(String);

impl View for NonHollowString {
    type V = Seq<char>;

    closed spec fn view(&self) -> Seq<char> {
        self.0@
    }
}

impl NonHollowString {
    #[verifier::type_invariant]
    spec fn inv(self) -> bool {
        non_hollow(self.0@)
    }

    /// Accepts `s` unless it is empty or holds only whitespace.
    pub fn new(s: &str) -> (r: Result<NonHollowString, &'static str>)
        ensures
            s@.len() == 0 ==> (r matches Err(m) && m@ == EMPTY_MESSAGE@),
            s@.len() > 0 && !non_hollow(s@) ==> (r matches Err(m) && m@ == WHITESPACE_MESSAGE@),
            non_hollow(s@) ==> (r matches Ok(n) && n@ == s@),
    {
        let len = s.unicode_len();
        if len == 0 {
            return Err(EMPTY_MESSAGE);
        }
        let mut i: usize = 0;
        while i < len
            invariant
                len == s@.len(),
                i <= len,
                forall|j: int| 0 <= j < i ==> white_space(#[trigger] s@[j]),
            decreases len - i,
        {
            if !is_whitespace(s.get_char(i)) {
                return Ok(NonHollowString(String::from_str(s)));
            }
            i = i + 1;
        }
        Err(WHITESPACE_MESSAGE)
    }

    /// The text, which is never hollow.
    pub fn as_str(&self) -> (r: &str)
        ensures
            r@ == self@,
            non_hollow(r@),
    {
        proof {
            use_type_invariant(self);
        }
        self.0.as_str()
    }
}

impl std::str::FromStr for NonHollowString {
    type Err = &'static str;

    fn from_str(s: &str) -> Result<NonHollowString, &'static str> {
        NonHollowString::new(s)
    }
}

} // verus!
