use vstd::prelude::*;
use crate::claims::Claims;
use crate::error::UserError;
use crate::responses::ApiResponse;
use crate::user::User;

verus! {

/// What the lookup of a user by e-mail address has brought.
#[derive(Debug)]
pub enum Lookup {
    Found(User),
    Missing,
    /// The store failed; the text is its own description.
    Failed(String),
}

/// An answer to a request: the HTTP status and the body.
#[derive(Debug)]
pub struct Reply {
    pub status: u16,
    pub body: ApiResponse<String>,
}

/// What comes next while an account is being deactivated.
#[derive(Debug)]
pub enum NextStep {
    /// Mark the user with this identifier as inactive, then report how it went.
    Deactivate(String),
    /// Answer the request; nothing is changed.
    Answer(Reply),
}

/// `reply` reports a failure with this status, message and error text.
pub open spec fn is_failure(
    reply: Reply,
    status: u16,
    message: Seq<char>,
    error: Seq<char>,
) -> bool {
    &&& reply.status == status
    &&& !reply.body.sucess
    &&& reply.body.data is None
    &&& reply.body.message@ == message
    &&& reply.body.error matches Some(text) && text@ == error
}

/// `reply` reports success with this status, message and identifier.
pub open spec fn is_success(reply: Reply, status: u16, message: Seq<char>, id: Seq<char>) -> bool {
    &&& reply.status == status
    &&& reply.body.sucess
    &&& reply.body.data matches Some(text) && text@ == id
    &&& reply.body.message@ == message
    &&& reply.body.error is None
}

/// What is owed after the lookup, for a request made with `claims`: only the
/// owner of an account, the user whose e-mail address the claims carry, may
/// deactivate it.
pub open spec fn step_after_lookup(claims: Claims, lookup: Lookup, step: NextStep) -> bool {
    match lookup {
        Lookup::Missing => step matches NextStep::Answer(reply) && is_failure(
            reply,
            204,
            "usuario nao encontrado"@,
            UserError::NotFound.message_spec(),
        ),
        Lookup::Failed(cause) => step matches NextStep::Answer(reply) && is_failure(
            reply,
            500,
            "database_error"@,
            cause@,
        ),
        Lookup::Found(user) => if claims.email@ == user.email@ {
            step matches NextStep::Deactivate(id) && id@ == user.id@
        } else {
            step matches NextStep::Answer(reply) && is_failure(
                reply,
                401,
                "NOT OWNER"@,
                UserError::InvalidCredentials.message_spec(),
            )
        },
    }
}

/// What is owed once the store has been asked to mark user `id` inactive.
pub open spec fn reply_after_deactivation(
    id: Seq<char>,
    done: Result<(), String>,
    reply: Reply,
) -> bool {
    match done {
        Ok(_) => is_success(reply, 200, "conta desativada com sucesso!"@, id),
        Err(cause) => is_failure(
            reply,
            500,
            "Erro ao desativar usuario"@,
            UserError::DatabaseError(cause).message_spec(),
        ),
    }
}

/// First decision of a deactivation: answer at once, or go on to mark the
/// user inactive.
pub fn after_lookup(claims: &Claims, lookup: Lookup) -> (step: NextStep)
    ensures
        step_after_lookup(*claims, lookup, step),
{
    match lookup {
        Lookup::Missing => NextStep::Answer(
            Reply {
                status: 204,
                body: ApiResponse::error(
                    "usuario nao encontrado",
                    UserError::NotFound.message().as_str(),
                ),
            },
        ),
        Lookup::Failed(cause) => NextStep::Answer(
            Reply { status: 500, body: ApiResponse::error("database_error", cause.as_str()) },
        ),
        Lookup::Found(user) => {
            if claims.email == user.email {
                NextStep::Deactivate(user.id)
            } else {
                NextStep::Answer(
                    Reply {
                        status: 401,
                        body: ApiResponse::error(
                            "NOT OWNER",
                            UserError::InvalidCredentials.message().as_str(),
                        ),
                    },
                )
            }
        },
    }
}

/// Last decision of a deactivation: the answer, given how marking the user
/// inactive went.
pub fn after_deactivation(id: String, done: Result<(), String>) -> (reply: Reply)
    ensures
        reply_after_deactivation(id@, done, reply),
{
    match done {
        Ok(_) => Reply {
            status: 200,
            body: ApiResponse::sucess(id, "conta desativada com sucesso!"),
        },
        Err(cause) => Reply {
            status: 500,
            body: ApiResponse::error(
                "Erro ao desativar usuario",
                UserError::DatabaseError(cause).message().as_str(),
            ),
        },
    }
}

} // verus!
