use vstd::prelude::*;

verus! {

/// The secret that `verify_token` accepts.
pub open spec fn builtin_secret() -> Seq<char> {
    "my_password"@
}

/// Accepts exactly the token that equals the built-in secret.
pub fn verify_token(tok: &str) -> (r: Result<(), ()>)
    ensures
        r is Ok <==> tok@ == builtin_secret(),
{
    let given: String = tok.to_owned();
    let expected: String = "my_password".to_owned();
    proof { reveal_strlit("my_password"); }
    if given != expected {
        return Err(());
    }
    Ok(())
}

/// The reasons a request is refused before it reaches the document.
#[derive(Clone, Copy, Debug, PartialEq, Eq, Structural)]
pub enum GateError {
    MissingCredential,
    InvalidCredential,
}

/// The request guard: one process-wide shared secret.
pub struct AccessGate {
    pub secret: String,
}

impl AccessGate {
    /// A gate that admits requests carrying `secret`.
    pub fn new(secret: String) -> (r: AccessGate)
        ensures
            r.secret == secret,
    {
        AccessGate { secret }
    }

    /// Judges the credential header of a request (`None` when it is absent).
    pub fn check(&self, header: Option<&str>) -> (r: Result<(), GateError>)
        ensures
            header is None ==> r == Err::<(), GateError>(GateError::MissingCredential),
            header is Some && header->0@ == self.secret@ ==> r is Ok,
            header is Some && header->0@ != self.secret@ ==> r == Err::<(), GateError>(
                GateError::InvalidCredential,
            ),
    {
        match header {
            None => Err(GateError::MissingCredential),
            Some(tok) => {
                let given: String = tok.to_owned();
                if given.eq(&self.secret) {
                    Ok(())
                } else {
                    Err(GateError::InvalidCredential)
                }
            },
        }
    }
}

/// Judges a credential header against the built-in secret.
pub fn gate_request(header: Option<&str>) -> (r: Result<(), GateError>)
    ensures
        header is None ==> r == Err::<(), GateError>(GateError::MissingCredential),
        header is Some && header->0@ == builtin_secret() ==> r is Ok,
        header is Some && header->0@ != builtin_secret() ==> r == Err::<(), GateError>(
            GateError::InvalidCredential,
        ),
{
    match header {
        None => Err(GateError::MissingCredential),
        Some(tok) => match verify_token(tok) {
            Ok(()) => Ok(()),
            Err(()) => Err(GateError::InvalidCredential),
        },
    }
}

} // verus!
