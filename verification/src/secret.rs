use vstd::prelude::*;
use vstd::string::StringExecFns;

verus! {

/// The placeholder that stands for the token wherever a client or a token
/// is rendered as text.
pub open spec fn redacted_marker() -> Seq<char> {
    "[REDACTED]"@
}

/// An opaque credential authorizing calls to the remote delivery API.
///
/// The wrapped token stays out of every textual representation of this
/// type: the only way to reach the plaintext is [`SecretToken::expose_secret`],
/// meant to be called at the single point where the token is written into
/// the provider's authorization header.
pub struct SecretToken {
    token: String,
}

impl View for SecretToken {
    type V = Seq<char>;

    closed spec fn view(&self) -> Seq<char> {
        self.token@
    }
}

impl SecretToken {
    pub fn new(token: String) -> (r: SecretToken)
        ensures
            r@ == token@,
    {
        SecretToken { token }
    }

    /// Hands out the plaintext token. The only intended caller is the code
    /// that places the token into the provider's authorization header.
    pub fn expose_secret(&self) -> (r: &str)
        ensures
            r@ == self@,
    {
        self.token.as_str()
    }

    /// What this token looks like in rendered text: a fixed marker that
    /// carries no information about the token itself.
    pub fn redacted(&self) -> (r: String)
        ensures
            r@ == redacted_marker(),
    {
        String::from_str("[REDACTED]")
    }
}

} // verus!
