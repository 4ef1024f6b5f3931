use vstd::prelude::*;

verus! {

/// The identity facts carried inside a signed access token.
#[derive(Debug, Clone)]
pub struct Claims {
    /// Identifier of the user the token speaks for.
    pub sub: String,
    /// Second, counted from the epoch, from which on the token is void.
    pub exp: u64,
    /// Second at which the token was issued.
    pub iat: u64,
    pub email: String,
}

/// Claims as plain values.
pub struct ClaimsView {
    pub sub: Seq<char>,
    pub exp: u64,
    pub iat: u64,
    pub email: Seq<char>,
}

impl View for Claims {
    type V = ClaimsView;

    open spec fn view(&self) -> ClaimsView {
        ClaimsView { sub: self.sub@, exp: self.exp, iat: self.iat, email: self.email@ }
    }
}

impl Claims {
    pub fn new(sub: String, exp: u64, iat: u64, email: String) -> (claims: Self)
        ensures
            claims@ == (ClaimsView { sub: sub@, exp, iat, email: email@ }),
    {
        Self { sub, exp, iat, email }
    }
}

} // verus!
