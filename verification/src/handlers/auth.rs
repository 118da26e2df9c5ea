//! Administrators: logging in with name and password, logging out, and
//! finding the account that a session belongs to.

use vstd::prelude::*;
use crate::credentials::{
    accepts, hash_password, hashed_with_some_salt, phc_parses, verify_password,
};
use crate::handlers::uploader_auth::{logged_out, logs_out, new_session, stores_session};
use crate::models::{AdminUser, AdminUserResponse, Id, LoginRequest, Timestamp};
use crate::protocol::{
    as_text, Answer, AppState, AuditEntry, Caller, Fetched, Inquiry, Outcome, Payload,
    Query, Step, INTERNAL_SERVER_ERROR, OK, TOO_MANY_REQUESTS, UNAUTHORIZED,
};
use crate::rate_limit::{allowed, check_rate_limit, client_ip, get_client_ip, MAX_LOGIN_ATTEMPTS};
use crate::sessions::{
    cookie_value_of, extract_session_token, hash_token, session_cookie, session_cookie_text,
    token_hash, SessionKind, SESSION_COOKIE,
};
use crate::text::{given, text_view, texts_of};

verus! {

// ---------------------------------------------------------------------------
// Whose session is this?
// ---------------------------------------------------------------------------

/// How far the search for a session's account has come.
#[derive(Debug)]
pub enum AdminLookup {
    /// The session was asked for.
    Session,
    /// The session was found and its account was asked for.
    Account,
}

/// What the search for a session's account does first: without a token in
/// the cookie there is no session; with one, the live session stored under
/// the token's hash is asked for.
pub open spec fn admin_lookup_begins(
    cookie: Option<Seq<char>>,
    step: Inquiry<AdminLookup, Option<AdminUser>>,
) -> bool {
    let token = match cookie {
        Some(header) => cookie_value_of(header, SESSION_COOKIE@),
        None => None,
    };
    match token {
        None => step == Inquiry::<AdminLookup, Option<AdminUser>>::Known(None),
        Some(t) => {
            &&& step matches Inquiry::Ask {
                query: Query::AdminSessionByHash { token_hash: hash, live_only },
                next: AdminLookup::Session,
            }
            &&& hash@ == token_hash(t)
            &&& live_only
        },
    }
}

/// How the search for a session's account goes on: a live session leads to
/// its account, and only an active account ends the search with a result.
/// An expired session, an unknown token and a deactivated account all end
/// it the same way.
pub open spec fn admin_lookup_step(state: AdminLookup, answer: Answer) -> Inquiry<
    AdminLookup,
    Option<AdminUser>,
> {
    match state {
        AdminLookup::Session => match answer.admin_session() {
            Fetched::Found(session) => Inquiry::Ask {
                query: Query::ActiveAdminById { id: session.admin_user_id },
                next: AdminLookup::Account,
            },
            _ => Inquiry::Known(None),
        },
        AdminLookup::Account => match answer.admin() {
            Fetched::Found(user) => Inquiry::Known(Some(user)),
            _ => Inquiry::Known(None),
        },
    }
}

/// Begins the search for the account of the session in the request's cookie.
pub fn validate_admin_session_start(cookie: Option<&str>) -> (step: Inquiry<
    AdminLookup,
    Option<AdminUser>,
>)
    ensures
        admin_lookup_begins(given(cookie), step),
{
    match extract_session_token(cookie) {
        None => Inquiry::Known(None),
        Some(token) => {
            let token_hash = hash_token(token.as_str());
            Inquiry::Ask {
                query: Query::AdminSessionByHash { token_hash, live_only: true },
                next: AdminLookup::Session,
            }
        },
    }
}

/// Goes on with the search for a session's account.
pub fn validate_admin_session(state: AdminLookup, answer: Answer) -> (step: Inquiry<
    AdminLookup,
    Option<AdminUser>,
>)
    ensures
        step == admin_lookup_step(state, answer),
{
    match state {
        AdminLookup::Session => match answer.into_admin_session() {
            Fetched::Found(session) => Inquiry::Ask {
                query: Query::ActiveAdminById { id: session.admin_user_id },
                next: AdminLookup::Account,
            },
            _ => Inquiry::Known(None),
        },
        AdminLookup::Account => match answer.into_admin() {
            Fetched::Found(user) => Inquiry::Known(Some(user)),
            _ => Inquiry::Known(None),
        },
    }
}

// ---------------------------------------------------------------------------
// Who am I?
// ---------------------------------------------------------------------------

/// What the showing of an administrator's account does with the state of
/// the search for the session.
pub open spec fn current_admin_after(
    found: Inquiry<AdminLookup, Option<AdminUser>>,
    step: Step<AdminLookup>,
) -> bool {
    match found {
        Inquiry::Ask { query, next } => step == (Step::Ask { query, next }),
        Inquiry::Known(Some(user)) => step.succeeds_with(
            OK,
            Payload::Admin(AdminUserResponse::shown(user)),
        ),
        Inquiry::Known(None) => step.fails_with(UNAUTHORIZED, "Not authenticated"@),
    }
}

fn current_admin_next(found: Inquiry<AdminLookup, Option<AdminUser>>) -> (step: Step<AdminLookup>)
    ensures
        current_admin_after(found, step),
{
    match found {
        Inquiry::Ask { query, next } => Step::Ask { query, next },
        Inquiry::Known(Some(user)) => Step::succeed(
            OK,
            Payload::Admin(AdminUserResponse::from(user)),
        ),
        Inquiry::Known(None) => Step::fail(UNAUTHORIZED, "Not authenticated"),
    }
}

/// Begins to show the account of the administrator that the request's
/// cookie names.
pub fn get_current_admin_start(caller: &Caller) -> (step: Step<AdminLookup>)
    ensures
        exists|found: Inquiry<AdminLookup, Option<AdminUser>>|
            admin_lookup_begins(text_view(caller.cookie), found) && current_admin_after(found, step),
{
    let found = validate_admin_session_start(as_text(&caller.cookie));
    let ghost witness = found;
    let step = current_admin_next(found);
    proof {
        assert(admin_lookup_begins(text_view(caller.cookie), witness) && current_admin_after(
            witness,
            step,
        ));
    }
    step
}

/// Goes on showing an administrator's account: whoever has a live session
/// of an active account is shown the account, without its password hash.
pub fn get_current_admin(stage: AdminLookup, answer: Answer) -> (step: Step<AdminLookup>)
    ensures
        current_admin_after(admin_lookup_step(stage, answer), step),
{
    current_admin_next(validate_admin_session(stage, answer))
}

// ---------------------------------------------------------------------------
// Logging in
// ---------------------------------------------------------------------------

/// How far a login has come.
#[derive(Debug)]
pub enum AdminLoginStage {
    /// The attempts of the address were asked for.
    Count { ip: String, input: LoginRequest },
    /// This attempt was noted.
    Recorded { ip: String, input: LoginRequest },
    /// The account was asked for.
    Find { ip: String, password: String },
    /// The session was handed over to be stored.
    Session { ip: String, user: AdminUser, token: String },
}

/// Begins a login: the attempts of the caller's address are counted first.
pub fn admin_login_start(state: &AppState, caller: &Caller, input: LoginRequest) -> (step: Step<
    AdminLoginStage,
>)
    ensures
        step matches Step::Ask {
            query: Query::CountAttempts { ip, endpoint },
            next: AdminLoginStage::Count { ip: kept, input: held },
        } && ip@ == client_ip(
            text_view(caller.peer),
            text_view(caller.forwarded_for),
            text_view(caller.real_ip),
            texts_of(state.trusted_proxies@),
        ) && kept@ == ip@ && endpoint@ == "login"@ && held == input,
{
    let ip = get_client_ip(
        as_text(&caller.peer),
        as_text(&caller.forwarded_for),
        as_text(&caller.real_ip),
        &state.trusted_proxies,
    );
    let kept = ip.clone();
    Step::Ask {
        query: Query::CountAttempts { ip, endpoint: "login".to_owned() },
        next: AdminLoginStage::Count { ip: kept, input },
    }
}

/// The work that follows a login: the moment of the login is noted at the
/// account, and the login is audited with the address it came from.
pub open spec fn notes_login(effects: Seq<Query>, user_id: Id, ip: String) -> bool {
    &&& effects.len() == 2
    &&& effects[0] == (Query::TouchLastLogin { id: user_id })
    &&& effects[1] matches Query::Audit { entry }
    &&& entry.names("admin_login"@, "admin_user"@, Some(user_id), "admin"@, Some(user_id))
    &&& entry.actor_ip == Some(ip)
    &&& entry.details is None
}

/// How a login goes on.
///
/// An address that has tried ten times within the hour is turned away
/// before its name and password are even looked at; a count that could not
/// be had counts as none. Else the attempt is noted. An unknown name, a
/// deactivated account and a wrong password get the same answer. A stored
/// hash that is no hash is an error of the server, not a wrong password. A
/// fresh token is made, its hash is stored with the moment it expires, and
/// the token goes to the client in a cookie.
pub open spec fn admin_login_rule(
    state: AppState,
    caller: Caller,
    stage: AdminLoginStage,
    answer: Answer,
    now: Timestamp,
    step: Step<AdminLoginStage>,
) -> bool {
    match stage {
        AdminLoginStage::Count { ip, input } => {
            if allowed(answer.count(), MAX_LOGIN_ATTEMPTS) {
                &&& step matches Step::Ask {
                    query: Query::RecordAttempt { ip: noted, endpoint },
                    next: AdminLoginStage::Recorded { ip: kept, input: held },
                }
                &&& noted@ == ip@
                &&& kept == ip
                &&& endpoint@ == "login"@
                &&& held == input
            } else {
                step.refuses(
                    TOO_MANY_REQUESTS,
                    "Too many login attempts. Please try again later."@,
                )
            }
        },
        AdminLoginStage::Recorded { ip, input } => step == (Step::Ask {
            query: Query::ActiveAdminByUsername { username: input.username },
            next: AdminLoginStage::Find { ip, password: input.password },
        }),
        AdminLoginStage::Find { ip, password } => match answer.admin() {
            Fetched::Found(user) => if !phc_parses(user.password_hash@) {
                step.refuses(INTERNAL_SERVER_ERROR, "Authentication error"@)
            } else if !accepts(user.password_hash@, password@) {
                step.refuses(UNAUTHORIZED, "Invalid username or password"@)
            } else {
                &&& step matches Step::Ask {
                    query: Query::InsertAdminSession { admin_user_id, session },
                    next: AdminLoginStage::Session { ip: kept, user: held, token },
                }
                &&& admin_user_id == user.id
                &&& kept@ == ip@
                &&& held == user
                &&& stores_session(session, token@, SessionKind::Admin, now, ip, caller.user_agent)
            },
            _ => step.refuses(UNAUTHORIZED, "Invalid username or password"@),
        },
        AdminLoginStage::Session { ip, user, token } => if answer.done() {
            &&& step matches Step::Finish(outcome)
            &&& outcome.carries(OK, Payload::Admin(AdminUserResponse::shown(user)))
            &&& outcome.set_cookie matches Some(cookie)
            &&& cookie@ == session_cookie_text(SESSION_COOKIE@, token@, 28800, state.is_production)
            &&& outcome.attachment is None
            &&& notes_login(outcome.effects@, user.id, ip)
        } else {
            step.refuses(INTERNAL_SERVER_ERROR, "Failed to create session"@)
        },
    }
}

/// Goes on with a login.
pub fn admin_login(
    state: &AppState,
    caller: &Caller,
    stage: AdminLoginStage,
    answer: Answer,
    now: Timestamp,
) -> (step: Step<AdminLoginStage>)
    ensures
        admin_login_rule(*state, *caller, stage, answer, now, step),
{
    match stage {
        AdminLoginStage::Count { ip, input } => {
            if !check_rate_limit(answer.into_count()) {
                return Step::refuse(
                    TOO_MANY_REQUESTS,
                    "Too many login attempts. Please try again later.",
                );
            }
            let noted = ip.clone();
            Step::Ask {
                query: Query::RecordAttempt { ip: noted, endpoint: "login".to_owned() },
                next: AdminLoginStage::Recorded { ip, input },
            }
        },
        AdminLoginStage::Recorded { ip, input } => Step::Ask {
            query: Query::ActiveAdminByUsername { username: input.username },
            next: AdminLoginStage::Find { ip, password: input.password },
        },
        AdminLoginStage::Find { ip, password } => match answer.into_admin() {
            Fetched::Found(user) => {
                match verify_password(password.as_str(), user.password_hash.as_str()) {
                    Err(_) => {
                        return Step::refuse(INTERNAL_SERVER_ERROR, "Authentication error");
                    },
                    Ok(matched) => {
                        if !matched {
                            return Step::refuse(UNAUTHORIZED, "Invalid username or password");
                        }
                    },
                }
                let kept = ip.clone();
                let (token, session) = new_session(SessionKind::Admin, now, ip, &caller.user_agent);
                Step::Ask {
                    query: Query::InsertAdminSession { admin_user_id: user.id, session },
                    next: AdminLoginStage::Session { ip: kept, user, token },
                }
            },
            _ => Step::refuse(UNAUTHORIZED, "Invalid username or password"),
        },
        AdminLoginStage::Session { ip, user, token } => {
            if !answer.is_done() {
                return Step::refuse(INTERNAL_SERVER_ERROR, "Failed to create session");
            }
            let id = user.id;
            let kind = SessionKind::Admin;
            let cookie = session_cookie(
                kind.cookie_name(),
                token.as_str(),
                kind.max_age_seconds(),
                state.is_production,
            );
            let entry = AuditEntry::from_address(
                "admin_login",
                "admin_user",
                Some(id),
                "admin",
                Some(id),
                ip,
            );
            let outcome = Outcome::success(OK, Payload::Admin(AdminUserResponse::from(user))).with_cookie(
                cookie,
            ).and_then(Query::TouchLastLogin { id }).and_then(Query::Audit { entry });
            Step::Finish(outcome)
        },
    }
}

// ---------------------------------------------------------------------------
// Logging out
// ---------------------------------------------------------------------------

/// How far a logout has come.
#[derive(Debug)]
pub enum AdminLogoutStage {
    /// The session was asked for.
    Lookup { token_hash: String },
}

/// How a logout begins: without a token in the cookie there is nothing to
/// end, else the session stored under the token's hash is asked for,
/// expired or not.
pub open spec fn admin_logout_begins(state: AppState, caller: Caller, step: Step<AdminLogoutStage>)
    -> bool {
    let token = match text_view(caller.cookie) {
        Some(header) => cookie_value_of(header, SESSION_COOKIE@),
        None => None,
    };
    match token {
        None => {
            &&& step matches Step::Finish(outcome)
            &&& logs_out(outcome, SessionKind::Admin, state.is_production)
            &&& outcome.effects@.len() == 0
        },
        Some(t) => {
            &&& step matches Step::Ask {
                query: Query::AdminSessionByHash { token_hash: asked, live_only },
                next: AdminLogoutStage::Lookup { token_hash: kept },
            }
            &&& asked@ == token_hash(t)
            &&& kept@ == token_hash(t)
            &&& !live_only
        },
    }
}

/// Begins a logout.
pub fn admin_logout_start(state: &AppState, caller: &Caller) -> (step: Step<AdminLogoutStage>)
    ensures
        admin_logout_begins(*state, *caller, step),
{
    match extract_session_token(as_text(&caller.cookie)) {
        None => Step::Finish(logged_out(SessionKind::Admin, state.is_production)),
        Some(token) => {
            let token_hash = hash_token(token.as_str());
            let asked = token_hash.clone();
            Step::Ask {
                query: Query::AdminSessionByHash { token_hash: asked, live_only: false },
                next: AdminLogoutStage::Lookup { token_hash },
            }
        },
    }
}

/// How a logout ends: the session is deleted, and where there was one the
/// logout is audited.
pub open spec fn admin_logout_rule(
    state: AppState,
    stage: AdminLogoutStage,
    answer: Answer,
    step: Step<AdminLogoutStage>,
) -> bool {
    match stage {
        AdminLogoutStage::Lookup { token_hash } => {
            &&& step matches Step::Finish(outcome)
            &&& logs_out(outcome, SessionKind::Admin, state.is_production)
            &&& outcome.effects@.len() >= 1
            &&& outcome.effects@[0] == (Query::DeleteAdminSession { token_hash })
            &&& match answer.admin_session() {
                Fetched::Found(session) => {
                    &&& outcome.effects@.len() == 2
                    &&& outcome.effects@[1] matches Query::Audit { entry }
                    &&& entry.records(
                        "admin_logout"@,
                        "admin_user"@,
                        Some(session.admin_user_id),
                        "admin"@,
                        Some(session.admin_user_id),
                    )
                },
                _ => outcome.effects@.len() == 1,
            }
        },
    }
}

/// Ends a logout.
pub fn admin_logout(state: &AppState, stage: AdminLogoutStage, answer: Answer) -> (step: Step<
    AdminLogoutStage,
>)
    ensures
        admin_logout_rule(*state, stage, answer, step),
{
    match stage {
        AdminLogoutStage::Lookup { token_hash } => {
            let mut outcome = logged_out(SessionKind::Admin, state.is_production).and_then(
                Query::DeleteAdminSession { token_hash },
            );
            match answer.into_admin_session() {
                Fetched::Found(session) => {
                    let entry = AuditEntry::new(
                        "admin_logout",
                        "admin_user",
                        Some(session.admin_user_id),
                        "admin",
                        Some(session.admin_user_id),
                    );
                    outcome = outcome.and_then(Query::Audit { entry });
                },
                _ => {},
            }
            Step::Finish(outcome)
        },
    }
}

// ---------------------------------------------------------------------------
// Making accounts
// ---------------------------------------------------------------------------

/// Why an account could not be made.
#[derive(Debug, Clone, Copy, PartialEq, Eq, Structural)]
pub enum CreateAdminError {
    /// The password could not be hashed.
    Hashing,
    /// The account could not be stored.
    Storing,
}

/// How far the making of an account has come.
#[derive(Debug)]
pub enum CreateAdminStage {
    /// The account was handed over to be stored.
    Insert,
}

/// Begins to make an account: the password is hashed, and the account is
/// handed over with the hash, never with the password. The hash accepts the
/// password. The making fails here only where Argon2 refuses the password
/// with the salt that was drawn.
pub fn create_admin_user_start(
    username: &str,
    email: &str,
    password: &str,
    display_name: Option<&str>,
) -> (step: Inquiry<CreateAdminStage, Result<AdminUser, CreateAdminError>>)
    ensures
        hashed_with_some_salt(password@, step is Ask),
        match step {
            Inquiry::Ask { query, next } => {
                &&& query matches Query::InsertAdmin {
                    username: name,
                    email: address,
                    password_hash,
                    display_name: shown,
                }
                &&& name@ == username@
                &&& address@ == email@
                &&& accepts(password_hash@, password@)
                &&& text_view(shown) == given(display_name)
            },
            Inquiry::Known(result) => result == Err::<AdminUser, CreateAdminError>(
                CreateAdminError::Hashing,
            ),
        },
{
    match hash_password(password) {
        Err(_) => Inquiry::Known(Err(CreateAdminError::Hashing)),
        Ok(password_hash) => {
            let display_name = match display_name {
                Some(name) => Some(name.to_owned()),
                None => None,
            };
            Inquiry::Ask {
                query: Query::InsertAdmin {
                    username: username.to_owned(),
                    email: email.to_owned(),
                    password_hash,
                    display_name,
                },
                next: CreateAdminStage::Insert,
            }
        },
    }
}

/// How the making of an account ends.
pub open spec fn create_admin_user_step(answer: Answer) -> Inquiry<
    CreateAdminStage,
    Result<AdminUser, CreateAdminError>,
> {
    match answer.admin() {
        Fetched::Found(user) => Inquiry::Known(Ok(user)),
        _ => Inquiry::Known(Err(CreateAdminError::Storing)),
    }
}

/// Ends the making of an account.
pub fn create_admin_user(stage: CreateAdminStage, answer: Answer) -> (step: Inquiry<
    CreateAdminStage,
    Result<AdminUser, CreateAdminError>,
>)
    ensures
        step == create_admin_user_step(answer),
{
    match answer.into_admin() {
        Fetched::Found(user) => Inquiry::Known(Ok(user)),
        _ => Inquiry::Known(Err(CreateAdminError::Storing)),
    }
}

/// How the seeding of the first account ended.
#[derive(Debug)]
pub enum Seeding {
    /// Name, address or password was not given.
    Skipped,
    /// There is an account of that name already.
    Exists,
    /// The account was made.
    Seeded(AdminUser),
    /// The account could not be made.
    Failed(CreateAdminError),
}

/// How far the seeding of the first account has come.
#[derive(Debug)]
pub enum SeedStage {
    /// An account of the name was asked for.
    Exists { username: String, email: String, password: String },
    /// The account was handed over to be stored.
    Insert,
}

/// A setting counts where it is given and not empty.
pub open spec fn is_set(value: Option<String>) -> bool {
    value matches Some(text) && text@.len() > 0
}

/// How the seeding begins: it is skipped unless name, address and password
/// are all set, else an account of the name is asked for.
pub open spec fn seed_admin_user_begins(
    username: Option<String>,
    email: Option<String>,
    password: Option<String>,
    step: Inquiry<SeedStage, Seeding>,
) -> bool {
    if is_set(username) && is_set(email) && is_set(password) {
        &&& step matches Inquiry::Ask {
            query: Query::AdminByUsername { username: asked },
            next: SeedStage::Exists { username: name, email: address, password: secret },
        }
        &&& asked@ == username->0@
        &&& name == username->0
        &&& address == email->0
        &&& secret == password->0
    } else {
        step is Known && step->Known_0 is Skipped
    }
}

/// Begins to seed the first account from the settings.
pub fn seed_admin_user_start(
    username: Option<String>,
    email: Option<String>,
    password: Option<String>,
) -> (step: Inquiry<SeedStage, Seeding>)
    ensures
        seed_admin_user_begins(username, email, password, step),
{
    let username = match username {
        Some(text) => text,
        None => {
            return Inquiry::Known(Seeding::Skipped);
        },
    };
    if username.as_str().is_empty() {
        return Inquiry::Known(Seeding::Skipped);
    }
    let email = match email {
        Some(text) => text,
        None => {
            return Inquiry::Known(Seeding::Skipped);
        },
    };
    if email.as_str().is_empty() {
        return Inquiry::Known(Seeding::Skipped);
    }
    let password = match password {
        Some(text) => text,
        None => {
            return Inquiry::Known(Seeding::Skipped);
        },
    };
    if password.as_str().is_empty() {
        return Inquiry::Known(Seeding::Skipped);
    }
    let asked = username.clone();
    Inquiry::Ask {
        query: Query::AdminByUsername { username: asked },
        next: SeedStage::Exists { username, email, password },
    }
}

/// How the seeding goes on: an account that exists is left alone, else one
/// is made with the name as the name that is shown.
pub open spec fn seed_admin_user_rule(
    stage: SeedStage,
    answer: Answer,
    step: Inquiry<SeedStage, Seeding>,
) -> bool {
    match stage {
        SeedStage::Exists { username, email, password } => match answer.admin() {
            Fetched::Found(_) => step is Known && step->Known_0 is Exists,
            _ => hashed_with_some_salt(password@, step is Ask) && match step {
                Inquiry::Ask { query, next } => {
                    &&& next is Insert
                    &&& query matches Query::InsertAdmin {
                        username: name,
                        email: address,
                        password_hash,
                        display_name,
                    }
                    &&& name@ == username@
                    &&& address@ == email@
                    &&& accepts(password_hash@, password@)
                    &&& text_view(display_name) == Some(username@)
                },
                Inquiry::Known(result) => result matches Seeding::Failed(e) && e
                    == CreateAdminError::Hashing,
            },
        },
        SeedStage::Insert => match answer.admin() {
            Fetched::Found(user) => step is Known && step->Known_0 == Seeding::Seeded(user),
            _ => step is Known && (step->Known_0 matches Seeding::Failed(e) && e
                == CreateAdminError::Storing),
        },
    }
}

/// Goes on seeding the first account.
pub fn seed_admin_user(stage: SeedStage, answer: Answer) -> (step: Inquiry<SeedStage, Seeding>)
    ensures
        seed_admin_user_rule(stage, answer, step),
{
    match stage {
        SeedStage::Exists { username, email, password } => match answer.into_admin() {
            Fetched::Found(_) => Inquiry::Known(Seeding::Exists),
            _ => {
                match create_admin_user_start(
                    username.as_str(),
                    email.as_str(),
                    password.as_str(),
                    Some(username.as_str()),
                ) {
                    Inquiry::Ask { query, next } => Inquiry::Ask { query, next: SeedStage::Insert },
                    Inquiry::Known(Ok(user)) => Inquiry::Known(Seeding::Seeded(user)),
                    Inquiry::Known(Err(e)) => Inquiry::Known(Seeding::Failed(e)),
                }
            },
        },
        SeedStage::Insert => match create_admin_user(CreateAdminStage::Insert, answer) {
            Inquiry::Known(Ok(user)) => Inquiry::Known(Seeding::Seeded(user)),
            Inquiry::Known(Err(e)) => Inquiry::Known(Seeding::Failed(e)),
            Inquiry::Ask { query, next } => Inquiry::Ask { query, next: SeedStage::Insert },
        },
    }
}

} // verus!
