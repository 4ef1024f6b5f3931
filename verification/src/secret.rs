use vstd::prelude::*;

verus! {

/// Holder of the secret that tokens are signed with. It starts out empty,
/// takes a secret once, and keeps that secret from then on.
pub struct JwtSecret {
    value: Option<String>,
}

impl View for JwtSecret {
    type V = Option<Seq<char>>;

    closed spec fn view(&self) -> Option<Seq<char>> {
        match self.value {
            Some(secret) => Some(secret@),
            None => None,
        }
    }
}

impl JwtSecret {
    /// A holder without a secret.
    pub fn new() -> (holder: Self)
        ensures
            holder@ is None,
    {
        JwtSecret { value: None }
    }

    /// Installs the secret if none is installed yet. A second secret is
    /// handed back and changes nothing.
    pub fn set(&mut self, secret: String) -> (outcome: Result<(), String>)
        ensures
            old(self)@ is None ==> outcome is Ok && final(self)@ == Some(secret@),
            old(self)@ is Some ==> outcome == Err::<(), String>(secret) && final(self)@ == old(
                self,
            )@,
    {
        if self.value.is_some() {
            return Err(secret);
        }
        self.value = Some(secret);
        Ok(())
    }

    /// The secret, if one is installed.
    pub fn get(&self) -> (secret: Option<&str>)
        ensures
            match secret {
                Some(text) => self@ == Some(text@),
                None => self@ is None,
            },
    {
        match &self.value {
            Some(secret) => Some(secret.as_str()),
            None => None,
        }
    }
}

/// The installed secret.
pub fn get_jwt_secret(holder: &JwtSecret) -> (secret: &str)
    requires
        holder@ is Some,
    ensures
        holder@ == Some(secret@),
{
    match holder.get() {
        Some(secret) => secret,
        None => vstd::pervasive::unreached(),
    }
}

} // verus!
