//! Uploaders: logging in with a dossier's slug and e-mail address, logging
//! out, and finding the dossier that a session belongs to.
//!
//! The slug was handed to the applicant in private and serves as the secret.
//! An uploader's session is bound to one dossier and is no administrator's
//! session: the two kinds have their own cookies and their own tables.

use vstd::prelude::*;
use crate::models::{
    Id, Submission, Timestamp, UploaderLoginRequest, UploaderSession, UploaderSessionResponse,
};
use crate::protocol::{
    as_text, listed, shown, show_documents, Answer, AppState, AuditEntry, Caller, Fetched,
    Inquiry, NewSession, Outcome, Payload, Query, Step, BAD_REQUEST, INTERNAL_SERVER_ERROR, OK,
    TOO_MANY_REQUESTS, UNAUTHORIZED,
};
use crate::rate_limit::{allowed, check_rate_limit, client_ip, get_client_ip, MAX_LOGIN_ATTEMPTS};
use crate::sessions::{
    clip_user_agent, cookie_value_of, expiry, extract_uploader_session_token,
    generate_session_token, hash_token, is_token, session_cookie, session_cookie_text,
    session_expiry, token_hash, SessionKind, UPLOADER_SESSION_COOKIE,
};
use crate::text::{given, text_view, chars_of, string_of, texts_of, to_lowercase, trim, trimmed, lowercase};

verus! {

// ---------------------------------------------------------------------------
// Whose session is this?
// ---------------------------------------------------------------------------

/// How far the search for a session's dossier has come.
#[derive(Debug)]
pub enum SessionLookup {
    /// The session was asked for.
    Session,
    /// The session was found and its dossier was asked for.
    Dossier { session: UploaderSession },
}

/// What the search for a session's dossier does first: without a token in
/// the cookie there is no session; with one, the live session stored under
/// the token's hash is asked for.
pub open spec fn session_lookup_begins(
    cookie: Option<Seq<char>>,
    step: Inquiry<SessionLookup, Option<(Submission, UploaderSession)>>,
) -> bool {
    let token = match cookie {
        Some(header) => cookie_value_of(header, UPLOADER_SESSION_COOKIE@),
        None => None,
    };
    match token {
        None => step == Inquiry::<SessionLookup, Option<(Submission, UploaderSession)>>::Known(
            None,
        ),
        Some(t) => {
            &&& step matches Inquiry::Ask {
                query: Query::UploaderSessionByHash { token_hash: hash, live_only },
                next: SessionLookup::Session,
            }
            &&& hash@ == token_hash(t)
            &&& live_only
        },
    }
}

/// How the search for a session's dossier goes on: a session that was found
/// leads to its dossier, and the dossier ends the search. A session or a
/// dossier that was not found, for whatever reason, ends it without result:
/// an expired session and an unknown token look the same.
pub open spec fn session_lookup_step(state: SessionLookup, answer: Answer) -> Inquiry<
    SessionLookup,
    Option<(Submission, UploaderSession)>,
> {
    match state {
        SessionLookup::Session => match answer.uploader_session() {
            Fetched::Found(session) => Inquiry::Ask {
                query: Query::SubmissionById { id: session.submission_id },
                next: SessionLookup::Dossier { session },
            },
            _ => Inquiry::Known(None),
        },
        SessionLookup::Dossier { session } => match answer.submission() {
            Fetched::Found(submission) => Inquiry::Known(Some((submission, session))),
            _ => Inquiry::Known(None),
        },
    }
}

/// Begins the search for the dossier of the session in the request's cookie.
pub fn validate_uploader_session_start(cookie: Option<&str>) -> (step: Inquiry<
    SessionLookup,
    Option<(Submission, UploaderSession)>,
>)
    ensures
        session_lookup_begins(given(cookie), step),
{
    match extract_uploader_session_token(cookie) {
        None => Inquiry::Known(None),
        Some(token) => {
            let token_hash = hash_token(token.as_str());
            Inquiry::Ask {
                query: Query::UploaderSessionByHash { token_hash, live_only: true },
                next: SessionLookup::Session,
            }
        },
    }
}

/// Goes on with the search for a session's dossier.
pub fn validate_uploader_session(state: SessionLookup, answer: Answer) -> (step: Inquiry<
    SessionLookup,
    Option<(Submission, UploaderSession)>,
>)
    ensures
        step == session_lookup_step(state, answer),
{
    match state {
        SessionLookup::Session => match answer.into_uploader_session() {
            Fetched::Found(session) => Inquiry::Ask {
                query: Query::SubmissionById { id: session.submission_id },
                next: SessionLookup::Dossier { session },
            },
            _ => Inquiry::Known(None),
        },
        SessionLookup::Dossier { session } => match answer.into_submission() {
            Fetched::Found(submission) => Inquiry::Known(Some((submission, session))),
            _ => Inquiry::Known(None),
        },
    }
}

/// The dossier that a search ended with, if any.
pub open spec fn session_dossier(found: Option<(Submission, UploaderSession)>) -> Option<Id> {
    match found {
        Some((submission, _)) => Some(submission.id),
        None => None,
    }
}

/// Whether the session that was found belongs to the given dossier.
pub fn validate_uploader_session_for_submission(
    found: &Option<(Submission, UploaderSession)>,
    submission_id: Id,
) -> (r: bool)
    ensures
        r == (session_dossier(*found) == Some(submission_id)),
{
    match found {
        Some((submission, _)) => submission.id == submission_id,
        None => false,
    }
}

// ---------------------------------------------------------------------------
// Logging in
// ---------------------------------------------------------------------------

/// How far a login has come.
#[derive(Debug)]
pub enum UploaderLoginStage {
    /// The attempts of the address were asked for.
    Count { ip: String, input: UploaderLoginRequest },
    /// This attempt was noted.
    Recorded { ip: String, input: UploaderLoginRequest },
    /// The dossier was asked for.
    Find { ip: String, email: String },
    /// The session was handed over to be stored.
    Session { ip: String, submission: Submission, token: String, expires_at: Timestamp },
    /// The documents of the dossier were asked for.
    Documents { ip: String, submission: Submission, token: String, expires_at: Timestamp },
}

/// A text as it is compared at login: trimmed and in lower case.
pub open spec fn normalized(s: Seq<char>) -> Seq<char> {
    lowercase(trimmed(s))
}

fn normalize(s: &str) -> (r: String)
    ensures
        r@ == normalized(s@),
{
    let chars = chars_of(s);
    let kept = trim(chars.as_slice());
    let text = string_of(kept.as_slice());
    to_lowercase(text.as_str())
}

/// What is kept of the user agent of a request.
pub open spec fn kept_user_agent(user_agent: Option<String>) -> Option<Seq<char>> {
    match user_agent {
        Some(text) => Some(
            if text@.len() <= crate::sessions::MAX_USER_AGENT_CHARS {
                text@
            } else {
                text@.take(crate::sessions::MAX_USER_AGENT_CHARS as int)
            },
        ),
        None => None,
    }
}

/// What is kept of the user agent of a request.
pub fn keep_user_agent(user_agent: &Option<String>) -> (kept: Option<String>)
    ensures
        text_view(kept) == kept_user_agent(*user_agent),
{
    match user_agent {
        Some(text) => Some(clip_user_agent(text.as_str())),
        None => None,
    }
}

/// The session that is stored for a token made at `now`.
pub open spec fn stores_session(
    session: NewSession,
    token: Seq<char>,
    kind: SessionKind,
    now: Timestamp,
    ip: String,
    user_agent: Option<String>,
) -> bool {
    &&& is_token(token)
    &&& session.token_hash@ == token_hash(token)
    &&& session.expires_at == expiry(now, kind)
    &&& session.ip_address == ip
    &&& text_view(session.user_agent) == kept_user_agent(user_agent)
}

/// A fresh token and the session that is stored for it. The token itself is
/// not part of the session: only its hash is.
pub fn new_session(kind: SessionKind, now: Timestamp, ip: String, user_agent: &Option<String>) -> (r:
    (String, NewSession))
    ensures
        stores_session(r.1, r.0@, kind, now, ip, *user_agent),
{
    let token = generate_session_token();
    let token_hash = hash_token(token.as_str());
    let expires_at = session_expiry(now, kind);
    let session = NewSession {
        token_hash,
        expires_at,
        ip_address: ip,
        user_agent: keep_user_agent(user_agent),
    };
    (token, session)
}

/// Begins a login: the attempts of the caller's address are counted first.
pub fn uploader_login_start(state: &AppState, caller: &Caller, input: UploaderLoginRequest) -> (step:
    Step<UploaderLoginStage>)
    ensures
        step matches Step::Ask {
            query: Query::CountAttempts { ip, endpoint },
            next: UploaderLoginStage::Count { ip: kept, input: held },
        } && ip@ == client_ip(
            text_view(caller.peer),
            text_view(caller.forwarded_for),
            text_view(caller.real_ip),
            texts_of(state.trusted_proxies@),
        ) && kept@ == ip@ && endpoint@ == "uploader_login"@ && held == input,
{
    let ip = get_client_ip(
        as_text(&caller.peer),
        as_text(&caller.forwarded_for),
        as_text(&caller.real_ip),
        &state.trusted_proxies,
    );
    let kept = ip.clone();
    Step::Ask {
        query: Query::CountAttempts { ip, endpoint: "uploader_login".to_owned() },
        next: UploaderLoginStage::Count { ip: kept, input },
    }
}

/// What an uploader is shown of a dossier after login.
pub open spec fn shows_dossier(
    response: UploaderSessionResponse,
    submission: Submission,
    documents: Seq<crate::models::Document>,
    expires_at: Timestamp,
) -> bool {
    &&& response.submission_id == submission.id
    &&& response.slug == submission.slug
    &&& response.status == submission.status
    &&& response.documents@ == shown(documents)
    &&& response.session_expires_at == expires_at
}

fn dossier_for_uploader(
    submission: Submission,
    documents: Option<Vec<crate::models::Document>>,
    expires_at: Timestamp,
) -> (response: UploaderSessionResponse)
    ensures
        shows_dossier(
            response,
            submission,
            listed(documents),
            expires_at,
        ),
{
    let documents = match documents {
        Some(items) => items,
        None => Vec::new(),
    };
    UploaderSessionResponse {
        submission_id: submission.id,
        slug: submission.slug,
        status: submission.status,
        documents: show_documents(documents),
        session_expires_at: expires_at,
    }
}

/// How a login goes on.
///
/// An address that has tried ten times within the hour is turned away,
/// whatever it sends; a count that could not be had counts as none. Else the
/// attempt is noted. Slug and e-mail address are trimmed and compared in
/// lower case, and both are required. Whether the slug or the address was
/// wrong is not told. A fresh token is made, its hash is stored with the
/// moment it expires, and the token goes to the client in a cookie. The
/// answer shows the dossier without the submitter's name and organization.
pub open spec fn uploader_login_rule(
    state: AppState,
    caller: Caller,
    stage: UploaderLoginStage,
    answer: Answer,
    now: Timestamp,
    step: Step<UploaderLoginStage>,
) -> bool {
    match stage {
        UploaderLoginStage::Count { ip, input } => {
            if allowed(answer.count(), MAX_LOGIN_ATTEMPTS) {
                &&& step matches Step::Ask {
                    query: Query::RecordAttempt { ip: noted, endpoint },
                    next: UploaderLoginStage::Recorded { ip: kept, input: held },
                }
                &&& noted@ == ip@
                &&& kept == ip
                &&& endpoint@ == "uploader_login"@
                &&& held == input
            } else {
                step.refuses(
                    TOO_MANY_REQUESTS,
                    "Te veel inlogpogingen. Probeer het later opnieuw."@,
                )
            }
        },
        UploaderLoginStage::Recorded { ip, input } => if normalized(input.slug@).len() == 0
            || normalized(input.email@).len() == 0 {
            step.refuses(BAD_REQUEST, "Vul zowel referentiecode als e-mailadres in."@)
        } else {
            &&& step matches Step::Ask {
                query: Query::SubmissionByLogin { slug, email },
                next: UploaderLoginStage::Find { ip: kept, email: held },
            }
            &&& slug@ == normalized(input.slug@)
            &&& email@ == normalized(input.email@)
            &&& held@ == email@
            &&& kept == ip
        },
        UploaderLoginStage::Find { ip, email } => match answer.submission() {
            Fetched::Found(submission) => if submission.submitter_email is None {
                step.refuses(BAD_REQUEST, "Deze inzending heeft geen e-mailadres gekoppeld."@)
            } else {
                &&& step matches Step::Ask {
                    query: Query::InsertUploaderSession { submission_id, email: stored, session },
                    next: UploaderLoginStage::Session { ip: kept, submission: held, token, expires_at },
                }
                &&& submission_id == submission.id
                &&& stored == email
                &&& kept@ == ip@
                &&& held == submission
                &&& expires_at == session.expires_at
                &&& stores_session(
                    session,
                    token@,
                    SessionKind::Uploader,
                    now,
                    ip,
                    caller.user_agent,
                )
            },
            _ => step.refuses(UNAUTHORIZED, "Ongeldige referentiecode of e-mailadres."@),
        },
        UploaderLoginStage::Session { ip, submission, token, expires_at } => if answer.done() {
            step == (Step::Ask {
                query: Query::DocumentsOf { submission_id: submission.id },
                next: UploaderLoginStage::Documents { ip, submission, token, expires_at },
            })
        } else {
            step.refuses(INTERNAL_SERVER_ERROR, "Kon sessie niet aanmaken."@)
        },
        UploaderLoginStage::Documents { ip, submission, token, expires_at } => {
            &&& step matches Step::Finish(outcome)
            &&& outcome.status == OK
            &&& outcome.body.success
            &&& outcome.body.error is None
            &&& outcome.body.data matches Some(Payload::Uploader(response))
            &&& shows_dossier(
                response,
                submission,
                listed(answer.documents()),
                expires_at,
            )
            &&& outcome.set_cookie matches Some(cookie)
            &&& cookie@ == session_cookie_text(
                UPLOADER_SESSION_COOKIE@,
                token@,
                14400,
                state.is_production,
            )
            &&& outcome.attachment is None
            &&& outcome.effects@.len() == 1
            &&& outcome.effects@[0] matches Query::Audit { entry }
            &&& entry.names("uploader_login"@, "submission"@, Some(submission.id), "uploader"@, None)
            &&& entry.actor_ip == Some(ip)
            &&& entry.details is None
        },
    }
}

/// Goes on with a login.
pub fn uploader_login(
    state: &AppState,
    caller: &Caller,
    stage: UploaderLoginStage,
    answer: Answer,
    now: Timestamp,
) -> (step: Step<UploaderLoginStage>)
    ensures
        uploader_login_rule(*state, *caller, stage, answer, now, step),
{
    match stage {
        UploaderLoginStage::Count { ip, input } => {
            if !check_rate_limit(answer.into_count()) {
                return Step::refuse(
                    TOO_MANY_REQUESTS,
                    "Te veel inlogpogingen. Probeer het later opnieuw.",
                );
            }
            let noted = ip.clone();
            Step::Ask {
                query: Query::RecordAttempt { ip: noted, endpoint: "uploader_login".to_owned() },
                next: UploaderLoginStage::Recorded { ip, input },
            }
        },
        UploaderLoginStage::Recorded { ip, input } => {
            let slug = normalize(input.slug.as_str());
            let email = normalize(input.email.as_str());
            if slug.as_str().is_empty() || email.as_str().is_empty() {
                return Step::refuse(BAD_REQUEST, "Vul zowel referentiecode als e-mailadres in.");
            }
            let held = email.clone();
            Step::Ask {
                query: Query::SubmissionByLogin { slug, email },
                next: UploaderLoginStage::Find { ip, email: held },
            }
        },
        UploaderLoginStage::Find { ip, email } => match answer.into_submission() {
            Fetched::Found(submission) => {
                if submission.submitter_email.is_none() {
                    return Step::refuse(
                        BAD_REQUEST,
                        "Deze inzending heeft geen e-mailadres gekoppeld.",
                    );
                }
                let kept = ip.clone();
                let (token, session) = new_session(
                    SessionKind::Uploader,
                    now,
                    ip,
                    &caller.user_agent,
                );
                let expires_at = session.expires_at;
                Step::Ask {
                    query: Query::InsertUploaderSession {
                        submission_id: submission.id,
                        email,
                        session,
                    },
                    next: UploaderLoginStage::Session { ip: kept, submission, token, expires_at },
                }
            },
            _ => Step::refuse(UNAUTHORIZED, "Ongeldige referentiecode of e-mailadres."),
        },
        UploaderLoginStage::Session { ip, submission, token, expires_at } => {
            if !answer.is_done() {
                return Step::refuse(INTERNAL_SERVER_ERROR, "Kon sessie niet aanmaken.");
            }
            Step::Ask {
                query: Query::DocumentsOf { submission_id: submission.id },
                next: UploaderLoginStage::Documents { ip, submission, token, expires_at },
            }
        },
        UploaderLoginStage::Documents { ip, submission, token, expires_at } => {
            let id = submission.id;
            let response = dossier_for_uploader(submission, answer.into_documents(), expires_at);
            let kind = SessionKind::Uploader;
            let cookie = session_cookie(
                kind.cookie_name(),
                token.as_str(),
                kind.max_age_seconds(),
                state.is_production,
            );
            let entry = AuditEntry::from_address(
                "uploader_login",
                "submission",
                Some(id),
                "uploader",
                None,
                ip,
            );
            let outcome = Outcome::success(OK, Payload::Uploader(response)).with_cookie(
                cookie,
            ).and_then(Query::Audit { entry });
            Step::Finish(outcome)
        },
    }
}

// ---------------------------------------------------------------------------
// Logging out
// ---------------------------------------------------------------------------

/// How far a logout has come.
#[derive(Debug)]
pub enum UploaderLogoutStage {
    /// The session was asked for.
    Lookup { token_hash: String, ip: String },
}

/// The outcome of every logout: success, and a cookie that clears the
/// session's cookie at the client.
pub open spec fn logs_out(outcome: Outcome, kind: SessionKind, secure: bool) -> bool {
    &&& outcome.carries(OK, Payload::Empty)
    &&& outcome.set_cookie matches Some(cookie)
    &&& cookie@ == session_cookie_text(kind.cookie(), Seq::<char>::empty(), 0, secure)
    &&& outcome.attachment is None
}

/// The outcome of a logout, before any further work is added to it.
pub fn logged_out(kind: SessionKind, secure: bool) -> (outcome: Outcome)
    ensures
        logs_out(outcome, kind, secure),
        outcome.effects@.len() == 0,
{
    let cookie = session_cookie(kind.cookie_name(), "", 0, secure);
    proof {
        reveal_strlit("");
        assert(""@ =~= Seq::<char>::empty());
    }
    Outcome::success(OK, Payload::Empty).with_cookie(cookie)
}

/// How a logout begins: without a token in the cookie there is nothing to
/// end, else the session stored under the token's hash is asked for,
/// expired or not.
pub open spec fn uploader_logout_begins(
    state: AppState,
    caller: Caller,
    step: Step<UploaderLogoutStage>,
) -> bool {
    let token = match text_view(caller.cookie) {
        Some(header) => cookie_value_of(header, UPLOADER_SESSION_COOKIE@),
        None => None,
    };
    match token {
        None => {
            &&& step matches Step::Finish(outcome)
            &&& logs_out(outcome, SessionKind::Uploader, state.is_production)
            &&& outcome.effects@.len() == 0
        },
        Some(t) => {
            &&& step matches Step::Ask {
                query: Query::UploaderSessionByHash { token_hash: asked, live_only },
                next: UploaderLogoutStage::Lookup { token_hash: kept, ip },
            }
            &&& asked@ == token_hash(t)
            &&& kept@ == token_hash(t)
            &&& !live_only
            &&& ip@ == client_ip(
                text_view(caller.peer),
                text_view(caller.forwarded_for),
                text_view(caller.real_ip),
                texts_of(state.trusted_proxies@),
            )
        },
    }
}

/// Begins a logout.
pub fn uploader_logout_start(state: &AppState, caller: &Caller) -> (step: Step<UploaderLogoutStage>)
    ensures
        uploader_logout_begins(*state, *caller, step),
{
    match extract_uploader_session_token(as_text(&caller.cookie)) {
        None => Step::Finish(logged_out(SessionKind::Uploader, state.is_production)),
        Some(token) => {
            let ip = get_client_ip(
                as_text(&caller.peer),
                as_text(&caller.forwarded_for),
                as_text(&caller.real_ip),
                &state.trusted_proxies,
            );
            let token_hash = hash_token(token.as_str());
            let asked = token_hash.clone();
            Step::Ask {
                query: Query::UploaderSessionByHash { token_hash: asked, live_only: false },
                next: UploaderLogoutStage::Lookup { token_hash, ip },
            }
        },
    }
}

/// How a logout ends: the session is deleted, and where there was one the
/// logout is audited.
pub open spec fn uploader_logout_rule(
    state: AppState,
    stage: UploaderLogoutStage,
    answer: Answer,
    step: Step<UploaderLogoutStage>,
) -> bool {
    match stage {
        UploaderLogoutStage::Lookup { token_hash, ip } => {
            &&& step matches Step::Finish(outcome)
            &&& logs_out(outcome, SessionKind::Uploader, state.is_production)
            &&& outcome.effects@.len() >= 1
            &&& outcome.effects@[0] == (Query::DeleteUploaderSession { token_hash })
            &&& match answer.uploader_session() {
                Fetched::Found(session) => {
                    &&& outcome.effects@.len() == 2
                    &&& outcome.effects@[1] matches Query::Audit { entry }
                    &&& entry.names(
                        "uploader_logout"@,
                        "submission"@,
                        Some(session.submission_id),
                        "uploader"@,
                        None,
                    )
                    &&& entry.actor_ip == Some(ip)
                    &&& entry.details is None
                },
                _ => outcome.effects@.len() == 1,
            }
        },
    }
}

/// Ends a logout.
pub fn uploader_logout(state: &AppState, stage: UploaderLogoutStage, answer: Answer) -> (step: Step<
    UploaderLogoutStage,
>)
    ensures
        uploader_logout_rule(*state, stage, answer, step),
{
    match stage {
        UploaderLogoutStage::Lookup { token_hash, ip } => {
            let mut outcome = logged_out(SessionKind::Uploader, state.is_production).and_then(
                Query::DeleteUploaderSession { token_hash },
            );
            match answer.into_uploader_session() {
                Fetched::Found(session) => {
                    let entry = AuditEntry::from_address(
                        "uploader_logout",
                        "submission",
                        Some(session.submission_id),
                        "uploader",
                        None,
                        ip,
                    );
                    outcome = outcome.and_then(Query::Audit { entry });
                },
                _ => {},
            }
            Step::Finish(outcome)
        },
    }
}

// ---------------------------------------------------------------------------
// Who am I?
// ---------------------------------------------------------------------------

/// How far the showing of an uploader's dossier has come.
#[derive(Debug)]
pub enum CurrentUploaderStage {
    /// The session in the cookie is being looked up.
    Lookup { lookup: SessionLookup },
    /// The documents of the dossier were asked for.
    Documents { submission: Submission, expires_at: Timestamp },
}

/// What the showing of an uploader's dossier does with the state of the
/// search for the session.
pub open spec fn current_uploader_after(
    found: Inquiry<SessionLookup, Option<(Submission, UploaderSession)>>,
    step: Step<CurrentUploaderStage>,
) -> bool {
    match found {
        Inquiry::Ask { query, next } => step == (Step::Ask {
            query,
            next: CurrentUploaderStage::Lookup { lookup: next },
        }),
        Inquiry::Known(Some((submission, session))) => step == (Step::Ask {
            query: Query::DocumentsOf { submission_id: submission.id },
            next: CurrentUploaderStage::Documents { submission, expires_at: session.expires_at },
        }),
        Inquiry::Known(None) => step.fails_with(UNAUTHORIZED, "Niet ingelogd."@),
    }
}

fn current_uploader_next(found: Inquiry<SessionLookup, Option<(Submission, UploaderSession)>>) -> (step:
    Step<CurrentUploaderStage>)
    ensures
        current_uploader_after(found, step),
{
    match found {
        Inquiry::Ask { query, next } => Step::Ask {
            query,
            next: CurrentUploaderStage::Lookup { lookup: next },
        },
        Inquiry::Known(Some((submission, session))) => Step::Ask {
            query: Query::DocumentsOf { submission_id: submission.id },
            next: CurrentUploaderStage::Documents { submission, expires_at: session.expires_at },
        },
        Inquiry::Known(None) => Step::fail(UNAUTHORIZED, "Niet ingelogd."),
    }
}

/// Begins to show the dossier of the uploader that the request's cookie
/// names.
pub fn get_current_uploader_start(caller: &Caller) -> (step: Step<CurrentUploaderStage>)
    ensures
        exists|found: Inquiry<SessionLookup, Option<(Submission, UploaderSession)>>|
            session_lookup_begins(text_view(caller.cookie), found) && current_uploader_after(
                found,
                step,
            ),
{
    let found = validate_uploader_session_start(as_text(&caller.cookie));
    let ghost witness = found;
    let step = current_uploader_next(found);
    proof {
        assert(session_lookup_begins(text_view(caller.cookie), witness) && current_uploader_after(
            witness,
            step,
        ));
    }
    step
}

/// How the showing of an uploader's dossier goes on: whoever has a live
/// session is shown the dossier it belongs to; anybody else is told that
/// they are not logged in, and not why.
pub open spec fn current_uploader_rule(
    stage: CurrentUploaderStage,
    answer: Answer,
    step: Step<CurrentUploaderStage>,
) -> bool {
    match stage {
        CurrentUploaderStage::Lookup { lookup } => current_uploader_after(
            session_lookup_step(lookup, answer),
            step,
        ),
        CurrentUploaderStage::Documents { submission, expires_at } => {
            &&& step matches Step::Finish(outcome)
            &&& outcome.succeeds_with(OK, outcome.body.data->0)
            &&& outcome.body.data matches Some(Payload::Uploader(response))
            &&& shows_dossier(
                response,
                submission,
                listed(answer.documents()),
                expires_at,
            )
        },
    }
}

/// Goes on showing an uploader's dossier.
pub fn get_current_uploader(stage: CurrentUploaderStage, answer: Answer) -> (step: Step<
    CurrentUploaderStage,
>)
    ensures
        current_uploader_rule(stage, answer, step),
{
    match stage {
        CurrentUploaderStage::Lookup { lookup } => current_uploader_next(
            validate_uploader_session(lookup, answer),
        ),
        CurrentUploaderStage::Documents { submission, expires_at } => {
            let response = dossier_for_uploader(submission, answer.into_documents(), expires_at);
            Step::succeed(OK, Payload::Uploader(response))
        },
    }
}

} // verus!
