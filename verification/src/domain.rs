use vstd::prelude::*;
use crate::text::chars_of;

verus! {

/// What the address validator checks: the string has an `@` that is
/// neither its first nor its last character. Anything finer is the remote
/// API's business; the client itself never re-validates.
pub open spec fn is_valid_email(s: Seq<char>) -> bool {
    exists|i: int| 0 < i < s.len() - 1 && s[i] == '@'
}

/// A pre-validated email address. By construction its text always
/// satisfies [`is_valid_email`]; the delivery client takes that for
/// granted and never checks again.
pub struct SubscriberEmail {
    email: String,
}

impl View for SubscriberEmail {
    type V = Seq<char>;

    closed spec fn view(&self) -> Seq<char> {
        self.email@
    }
}

impl SubscriberEmail {
    /// Validates a raw string as an email address. Returns the address on
    /// success and hands the rejected string back on failure.
    pub fn parse(s: String) -> (r: Result<SubscriberEmail, String>)
        ensures
            r is Ok <==> is_valid_email(s@),
            r matches Ok(e) ==> e@ == s@,
            r matches Err(rejected) ==> rejected@ == s@,
    {
        let chars = chars_of(s.as_str());
        let n = chars.len();
        if n < 2 {
            assert(!is_valid_email(s@));
            return Err(s);
        }
        let mut i: usize = 1;
        while i < n - 1
            invariant
                2 <= n,
                n == s@.len(),
                chars@ == s@,
                1 <= i <= n - 1,
                forall|j: int| 0 < j < i ==> s@[j] != '@',
            decreases n - i,
        {
            if chars[i] == '@' {
                assert(is_valid_email(s@)) by {
                    assert(0 < i < s@.len() - 1 && s@[i as int] == '@');
                }
                return Ok(SubscriberEmail { email: s });
            }
            i = i + 1;
        }
        assert(!is_valid_email(s@));
        Err(s)
    }

    /// The address as text.
    pub fn as_str(&self) -> (r: &str)
        ensures
            r@ == self@,
    {
        self.email.as_str()
    }
}

} // verus!
