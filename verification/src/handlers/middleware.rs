//! What stands before every administrator's request, and the headers that
//! go out with every answer.

use vstd::prelude::*;
use crate::models::AdminUser;
use crate::protocol::{
    as_text, Answer, Caller, Fetched, Inquiry, Outcome, Query, INTERNAL_SERVER_ERROR,
    UNAUTHORIZED,
};
use crate::sessions::{
    cookie_value_of, extract_session_token, hash_token, token_hash, SESSION_COOKIE,
};
use crate::text::text_view;

verus! {

/// Whether a request is let through to an administrator's handler.
#[derive(Debug)]
pub enum Admission {
    /// It is, on behalf of this account.
    Admitted(AdminUser),
    /// It is not, and this is the answer.
    Denied(Outcome),
}

impl Admission {
    /// The request is turned away with the status and the message.
    pub open spec fn denies(self, status: u16, message: Seq<char>) -> bool {
        self matches Admission::Denied(outcome) && outcome.fails_with(status, message)
    }
}

/// How far the admission of a request has come.
#[derive(Debug)]
pub enum RequireAdminStage {
    /// The session was asked for.
    Session,
    /// The session was found and its account was asked for.
    Account,
}

fn deny(status: u16, message: &str) -> (step: Inquiry<RequireAdminStage, Admission>)
    ensures
        step matches Inquiry::Known(admission) && admission.denies(status, message@),
{
    Inquiry::Known(Admission::Denied(Outcome::failure(status, message)))
}

/// How admission begins: a request without a token in the cookie is not
/// authenticated; for any other, the live session stored under the token's
/// hash is asked for.
pub open spec fn require_admin_begins(
    cookie: Option<Seq<char>>,
    step: Inquiry<RequireAdminStage, Admission>,
) -> bool {
    let token = match cookie {
        Some(header) => cookie_value_of(header, SESSION_COOKIE@),
        None => None,
    };
    match token {
        None => step matches Inquiry::Known(admission) && admission.denies(
            UNAUTHORIZED,
            "Not authenticated"@,
        ),
        Some(t) => {
            &&& step matches Inquiry::Ask {
                query: Query::AdminSessionByHash { token_hash: hash, live_only },
                next: RequireAdminStage::Session,
            }
            &&& hash@ == token_hash(t)
            &&& live_only
        },
    }
}

/// Begins the admission of a request.
pub fn require_admin_start(caller: &Caller) -> (step: Inquiry<RequireAdminStage, Admission>)
    ensures
        require_admin_begins(text_view(caller.cookie), step),
{
    match extract_session_token(as_text(&caller.cookie)) {
        None => deny(UNAUTHORIZED, "Not authenticated"),
        Some(token) => {
            let token_hash = hash_token(token.as_str());
            Inquiry::Ask {
                query: Query::AdminSessionByHash { token_hash, live_only: true },
                next: RequireAdminStage::Session,
            }
        },
    }
}

/// How admission goes on: only a live session of an active account is let
/// through. Whoever is turned away gets the same answer, whether the token
/// is missing or unknown, the session has expired or the account is
/// deactivated: the answer does not tell why. Only a lookup that fails is
/// told apart, as an error of the server.
pub open spec fn require_admin_rule(
    stage: RequireAdminStage,
    answer: Answer,
    step: Inquiry<RequireAdminStage, Admission>,
) -> bool {
    match stage {
        RequireAdminStage::Session => match answer.admin_session() {
            Fetched::Found(session) => step == (Inquiry::<RequireAdminStage, Admission>::Ask {
                query: Query::ActiveAdminById { id: session.admin_user_id },
                next: RequireAdminStage::Account,
            }),
            Fetched::Missing => step matches Inquiry::Known(admission) && admission.denies(
                UNAUTHORIZED,
                "Not authenticated"@,
            ),
            Fetched::Failed => step matches Inquiry::Known(admission) && admission.denies(
                INTERNAL_SERVER_ERROR,
                "Authentication error"@,
            ),
        },
        RequireAdminStage::Account => match answer.admin() {
            Fetched::Found(user) => step == Inquiry::<RequireAdminStage, Admission>::Known(
                Admission::Admitted(user),
            ),
            Fetched::Missing => step matches Inquiry::Known(admission) && admission.denies(
                UNAUTHORIZED,
                "Not authenticated"@,
            ),
            Fetched::Failed => step matches Inquiry::Known(admission) && admission.denies(
                INTERNAL_SERVER_ERROR,
                "Authentication error"@,
            ),
        },
    }
}

/// The answer to whoever is turned away is the same at every stage: an
/// unknown or expired session and a missing or deactivated account cannot be
/// told apart by it, nor from a request without a token.
pub proof fn lemma_denial_is_uniform(
    cookie: Option<Seq<char>>,
    first: Inquiry<RequireAdminStage, Admission>,
    stage: RequireAdminStage,
    answer: Answer,
    step: Inquiry<RequireAdminStage, Admission>,
)
    requires
        require_admin_begins(cookie, first),
        require_admin_rule(stage, answer, step),
    ensures
        first matches Inquiry::Known(Admission::Denied(outcome)) ==> outcome.fails_with(
            UNAUTHORIZED,
            "Not authenticated"@,
        ),
        step matches Inquiry::Known(Admission::Denied(outcome)) ==> {
            ||| outcome.fails_with(UNAUTHORIZED, "Not authenticated"@)
            ||| (outcome.fails_with(INTERNAL_SERVER_ERROR, "Authentication error"@) && (
            answer.admin_session() is Failed || answer.admin() is Failed))
        },
        step matches Inquiry::Known(Admission::Admitted(user)) ==> stage is Account
            && answer.admin() == Fetched::Found(user),
{
}

/// Goes on with the admission of a request.
pub fn require_admin(stage: RequireAdminStage, answer: Answer) -> (step: Inquiry<
    RequireAdminStage,
    Admission,
>)
    ensures
        require_admin_rule(stage, answer, step),
{
    match stage {
        RequireAdminStage::Session => match answer.into_admin_session() {
            Fetched::Found(session) => Inquiry::Ask {
                query: Query::ActiveAdminById { id: session.admin_user_id },
                next: RequireAdminStage::Account,
            },
            Fetched::Missing => deny(UNAUTHORIZED, "Not authenticated"),
            Fetched::Failed => deny(INTERNAL_SERVER_ERROR, "Authentication error"),
        },
        RequireAdminStage::Account => match answer.into_admin() {
            Fetched::Found(user) => Inquiry::Known(Admission::Admitted(user)),
            Fetched::Missing => deny(UNAUTHORIZED, "Not authenticated"),
            Fetched::Failed => deny(INTERNAL_SERVER_ERROR, "Authentication error"),
        },
    }
}

/// The headers that go out with every answer, by name and value. In
/// production one more tells browsers to use TLS only.
pub open spec fn security_header_texts(is_production: bool) -> Seq<(Seq<char>, Seq<char>)> {
    let always = seq![
        ("X-Frame-Options"@, "DENY"@),
        ("X-Content-Type-Options"@, "nosniff"@),
        ("Referrer-Policy"@, "strict-origin-when-cross-origin"@),
        (
            "Content-Security-Policy"@,
            "default-src 'self'; script-src 'self' 'unsafe-inline'; style-src 'self' 'unsafe-inline'; img-src 'self' data:; font-src 'self'; form-action 'self'; base-uri 'self'; frame-ancestors 'none'"@,
        ),
    ];
    if is_production {
        always.push(("strict-transport-security"@, "max-age=63072000; includeSubDomains"@))
    } else {
        always
    }
}

/// The headers that go out with every answer.
pub fn security_headers(is_production: bool) -> (headers: Vec<(&'static str, &'static str)>)
    ensures
        headers@.len() == security_header_texts(is_production).len(),
        forall|i: int|
            0 <= i < headers@.len() ==> (#[trigger] headers@[i]).0@ == security_header_texts(
                is_production,
            )[i].0 && headers@[i].1@ == security_header_texts(is_production)[i].1,
{
    let mut headers: Vec<(&'static str, &'static str)> = Vec::new();
    headers.push(("X-Frame-Options", "DENY"));
    headers.push(("X-Content-Type-Options", "nosniff"));
    headers.push(("Referrer-Policy", "strict-origin-when-cross-origin"));
    headers.push(
        (
            "Content-Security-Policy",
            "default-src 'self'; script-src 'self' 'unsafe-inline'; style-src 'self' 'unsafe-inline'; img-src 'self' data:; font-src 'self'; form-action 'self'; base-uri 'self'; frame-ancestors 'none'",
        ),
    );
    if is_production {
        headers.push(("strict-transport-security", "max-age=63072000; includeSubDomains"));
    }
    headers
}

} // verus!
