use vstd::prelude::*;

verus! {

/// A bearer credential. It is handed on to the provider or to the mail
/// server and nowhere else; the type has no `Debug`, so that no formatting
/// can put the secret into a log.
pub struct AccessToken {
    secret: String,
}

impl View for AccessToken {
    type V = Seq<char>;

    closed spec fn view(&self) -> Seq<char> {
        self.secret@
    }
}

impl AccessToken {
    /// Wraps a secret.
    pub fn new(secret: String) -> (token: AccessToken)
        ensures
            token@ == secret@,
    {
        AccessToken { secret }
    }

    /// The secret itself.
    pub fn secret(&self) -> (secret: &String)
        ensures
            secret@ == self@,
    {
        &self.secret
    }
}

} // verus!
