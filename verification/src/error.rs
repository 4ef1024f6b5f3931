use vstd::prelude::*;
use vstd::string::StringExecFns;

verus! {

/// Everything that can go wrong while handling a user account.
///
/// `InvalidCredentials` is deliberately coarse: an unknown user, a wrong
/// password, a missing header and a forged or expired token all end in it.
#[derive(Debug)]
pub enum UserError {
    InvalidEmail(String),
    WeakPassword,
    InvalidName,
    EmailAlreadyExists,
    NotFound,
    InvalidCredentials,
    /// The storage layer failed; the text is its own description.
    DatabaseError(String),
    /// Hashing or signing failed for reasons the caller cannot mend.
    Internal,
}

/// Why a token was not issued or not accepted. The cause is for logs only:
/// towards a client every rejection is the same `InvalidCredentials`.
#[derive(Debug, Clone, Copy, PartialEq, Eq, Structural)]
pub enum TokenError {
    /// No signing secret has been installed.
    MissingSecret,
    /// The expiry does not fit in 64 bits.
    ClockOutOfRange,
    /// The signing backend refused to produce a token.
    Signing,
    /// The token is malformed or its signature does not match.
    Undecodable,
    /// The signed payload lacks one of the four claims, or one has the wrong type.
    IncompleteClaims,
    /// The token was presented at or after its expiry.
    Expired,
}

/// The hashing backend failed.
#[derive(Debug, Clone, Copy, PartialEq, Eq, Structural)]
pub enum HashingError {
    Backend,
}

impl UserError {
    /// The text shown to a person for this error.
    pub open spec fn message_spec(self) -> Seq<char> {
        match self {
            UserError::InvalidEmail(reason) => "Email inválido: "@ + reason@,
            UserError::WeakPassword =>
                "Senha deve ter pelo menos 8 caracteres, 1 maiúscula e 1 número"@,
            UserError::InvalidName => "Nome deve ter pelo menos 2 palavras"@,
            UserError::EmailAlreadyExists => "Email já existe no sistema"@,
            UserError::NotFound => "Usuário não encontrado"@,
            UserError::InvalidCredentials => "Credenciais inválidas"@,
            UserError::DatabaseError(cause) => "Erro no banco de dados: "@ + cause@,
            UserError::Internal => "Erro interno"@,
        }
    }

    /// Human-readable description of the error.
    pub fn message(&self) -> (text: String)
        ensures
            text@ == self.message_spec(),
    {
        match self {
            UserError::InvalidEmail(reason) => String::from_str("Email inválido: ").concat(
                reason.as_str(),
            ),
            UserError::WeakPassword => String::from_str(
                "Senha deve ter pelo menos 8 caracteres, 1 maiúscula e 1 número",
            ),
            UserError::InvalidName => String::from_str("Nome deve ter pelo menos 2 palavras"),
            UserError::EmailAlreadyExists => String::from_str("Email já existe no sistema"),
            UserError::NotFound => String::from_str("Usuário não encontrado"),
            UserError::InvalidCredentials => String::from_str("Credenciais inválidas"),
            UserError::DatabaseError(cause) => String::from_str(
                "Erro no banco de dados: ",
            ).concat(cause.as_str()),
            UserError::Internal => String::from_str("Erro interno"),
        }
    }

    /// True for `InvalidEmail` carrying exactly `reason`.
    pub open spec fn is_invalid_email(self, reason: Seq<char>) -> bool {
        self matches UserError::InvalidEmail(text) && text@ == reason
    }
}

} // verus!
