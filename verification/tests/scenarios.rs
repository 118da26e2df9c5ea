use regelrecht_upload::calendar::{book_slot as book_row, cancel_booking as free_row, Calendar};
use regelrecht_upload::credentials::hash_password;
use regelrecht_upload::handlers::admin::{
    delete_submission, delete_submission_start, forward_submission, forward_submission_start,
    update_submission_status, update_submission_status_start, ForwardSubmissionRequest,
    UpdateStatusRequest,
};
use regelrecht_upload::handlers::auth::{
    admin_login, admin_login_start, admin_logout, admin_logout_start, get_current_admin,
    get_current_admin_start,
};
use regelrecht_upload::handlers::calendar::{
    book_slot, book_slot_start, cancel_booking, cancel_booking_start, delete_slot,
    delete_slot_start, BookSlotRequest,
};
use regelrecht_upload::handlers::middleware::{require_admin, require_admin_start, Admission};
use regelrecht_upload::handlers::submissions::{
    add_formal_law, add_formal_law_start, create_submission, create_submission_start,
    delete_document, delete_document_start, get_submission, get_submission_start,
    submit_submission, submit_submission_start, update_submission, update_submission_start,
    upload_document, upload_document_start, UploadDocumentQuery,
};
use regelrecht_upload::handlers::uploader_auth::{
    get_current_uploader, get_current_uploader_start, uploader_login, uploader_login_start,
    uploader_logout, uploader_logout_start,
};
use regelrecht_upload::lifecycle::{forward, new_submission, set_status, submit, update};
use regelrecht_upload::models::{
    AdminSession, AdminUser, CalendarSlot, CreateCalendarSlot, CreateFormalLaw, CreateSubmission,
    Document, DocumentCategory, DocumentClassification, LoginRequest, Submission,
    SubmissionStatus, UpdateSubmission, UploaderLoginRequest, UploaderSession,
};
use regelrecht_upload::protocol::{
    Answer, AppState, Caller, Fetched, Inquiry, Outcome, Payload, Query, Step, UploadField,
};
use regelrecht_upload::rate_limit::RateLimiter;
use regelrecht_upload::sessions::session_is_live;

const HOUR: i64 = 3_600_000_000;
const YEAR: i64 = 365 * 24 * HOUR;
const START: i64 = 1_704_067_200_000_000;

/// A stand-in for the database, the disk and the request's body.
struct Portal {
    now: i64,
    next_id: u128,
    submissions: Vec<Submission>,
    documents: Vec<Document>,
    calendar: Calendar,
    limiter: RateLimiter,
    admins: Vec<AdminUser>,
    admin_sessions: Vec<AdminSession>,
    uploader_sessions: Vec<UploaderSession>,
    audit: Vec<String>,
    files: Vec<String>,
    directories: Vec<String>,
    removed: Vec<String>,
    upload: Option<(Option<String>, Option<String>, usize)>,
    asked: Vec<String>,
}

fn state() -> AppState {
    AppState {
        upload_dir: "/app/uploads".to_string(),
        max_upload_size: 50 * 1024 * 1024,
        is_production: false,
        trusted_proxies: Vec::new(),
    }
}

fn caller(peer: &str, cookie: Option<&str>) -> Caller {
    Caller {
        peer: Some(peer.to_string()),
        forwarded_for: None,
        real_ip: None,
        user_agent: Some("tests".to_string()),
        cookie: cookie.map(|c| c.to_string()),
    }
}

impl Portal {
    fn new() -> Self {
        Portal {
            now: START,
            next_id: 1,
            submissions: Vec::new(),
            documents: Vec::new(),
            calendar: Calendar::new(),
            limiter: RateLimiter::new(),
            admins: Vec::new(),
            admin_sessions: Vec::new(),
            uploader_sessions: Vec::new(),
            audit: Vec::new(),
            files: Vec::new(),
            directories: Vec::new(),
            removed: Vec::new(),
            upload: None,
            asked: Vec::new(),
        }
    }

    fn id(&mut self) -> u128 {
        self.next_id += 1;
        self.next_id
    }

    fn found<T>(row: Option<T>) -> Fetched<T> {
        match row {
            Some(r) => Fetched::Found(r),
            None => Fetched::Missing,
        }
    }

    fn answer(&mut self, query: Query) -> Answer {
        let name = format!("{:?}", query);
        self.asked.push(name.split(|c: char| !c.is_alphanumeric()).next().unwrap().to_string());
        let now = self.now;
        match query {
            Query::CountAttempts { ip, endpoint } => {
                Answer::Count(Some(self.limiter.recent_attempts(&ip, &endpoint, now) as i64))
            }
            Query::RecordAttempt { ip, endpoint } => {
                self.limiter.record_attempt(&ip, &endpoint, now);
                Answer::Done(true)
            }
            Query::GenerateSlug => Answer::Text(None),
            Query::InsertSubmission { slug, input } => {
                let id = self.id();
                let row = new_submission(id, slug, input, now, YEAR);
                self.submissions.push(row.clone());
                Answer::Submission(Fetched::Found(row))
            }
            Query::SubmissionBySlug { slug } => Answer::Submission(Self::found(
                self.submissions.iter().find(|s| s.slug == slug).cloned(),
            )),
            Query::SubmissionById { id } => Answer::Submission(Self::found(
                self.submissions.iter().find(|s| s.id == id).cloned(),
            )),
            Query::SubmissionByLogin { slug, email } => Answer::Submission(Self::found(
                self.submissions
                    .iter()
                    .find(|s| {
                        s.slug.to_lowercase() == slug
                            && s.submitter_email.as_ref().map(|e| e.to_lowercase()) == Some(email.clone())
                    })
                    .cloned(),
            )),
            Query::UpdateSubmission { slug, changes } => {
                match self.submissions.iter_mut().find(|s| s.slug == slug) {
                    Some(row) => match update(row, changes, now) {
                        Ok(()) => Answer::Submission(Fetched::Found(row.clone())),
                        Err(_) => Answer::Submission(Fetched::Failed),
                    },
                    None => Answer::Submission(Fetched::Failed),
                }
            }
            Query::SubmitDraft { slug } => {
                match self.submissions.iter_mut().find(|s| s.slug == slug) {
                    Some(row) => match submit(row, now) {
                        Ok(()) => Answer::Submission(Fetched::Found(row.clone())),
                        Err(_) => Answer::Submission(Fetched::Missing),
                    },
                    None => Answer::Submission(Fetched::Missing),
                }
            }
            Query::SetStatus { id, status, notes } => {
                match self.submissions.iter_mut().find(|s| s.id == id) {
                    Some(row) => {
                        set_status(row, status, notes, now);
                        Answer::Submission(Fetched::Found(row.clone()))
                    }
                    None => Answer::Submission(Fetched::Missing),
                }
            }
            Query::ForwardSubmission { id, notes } => {
                match self.submissions.iter_mut().find(|s| s.id == id) {
                    Some(row) => match forward(row, notes, now) {
                        Ok(()) => Answer::Submission(Fetched::Found(row.clone())),
                        Err(_) => Answer::Submission(Fetched::Missing),
                    },
                    None => Answer::Submission(Fetched::Missing),
                }
            }
            Query::DeleteSubmission { id } => {
                self.submissions.retain(|s| s.id != id);
                self.documents.retain(|d| d.submission_id != id);
                self.uploader_sessions.retain(|s| s.submission_id != id);
                Answer::Done(true)
            }
            Query::DocumentsOf { submission_id } => Answer::Documents(Some(
                self.documents.iter().filter(|d| d.submission_id == submission_id).cloned().collect(),
            )),
            Query::DocumentOf { document_id, submission_id } => Answer::Document(Self::found(
                self.documents
                    .iter()
                    .find(|d| d.id == document_id && d.submission_id == submission_id)
                    .cloned(),
            )),
            Query::InsertFile { file } => {
                let row = Document {
                    id: file.id,
                    submission_id: file.submission_id,
                    category: file.category,
                    classification: file.classification,
                    external_url: None,
                    external_title: None,
                    filename: Some(file.filename),
                    original_filename: Some(file.original_filename),
                    file_path: Some(file.file_path),
                    file_size: Some(file.file_size),
                    mime_type: Some(file.mime_type),
                    description: file.description,
                    created_at: now,
                };
                self.documents.push(row.clone());
                Answer::Document(Fetched::Found(row))
            }
            Query::InsertLink {
                submission_id,
                category,
                classification,
                external_url,
                external_title,
                description,
            } => {
                let id = self.id();
                let row = Document {
                    id,
                    submission_id,
                    category,
                    classification,
                    external_url: Some(external_url),
                    external_title,
                    filename: None,
                    original_filename: None,
                    file_path: None,
                    file_size: None,
                    mime_type: None,
                    description,
                    created_at: now,
                };
                self.documents.push(row.clone());
                Answer::Document(Fetched::Found(row))
            }
            Query::DeleteDocument { document_id } => {
                self.documents.retain(|d| d.id != document_id);
                Answer::Done(true)
            }
            Query::ActiveAdminByUsername { username } => Answer::Admin(Self::found(
                self.admins.iter().find(|a| a.username == username && a.is_active).cloned(),
            )),
            Query::ActiveAdminById { id } => Answer::Admin(Self::found(
                self.admins.iter().find(|a| a.id == id && a.is_active).cloned(),
            )),
            Query::InsertAdminSession { admin_user_id, session } => {
                let id = self.id();
                self.admin_sessions.push(AdminSession {
                    id,
                    admin_user_id,
                    token_hash: session.token_hash,
                    expires_at: session.expires_at,
                    created_at: now,
                    ip_address: Some(session.ip_address),
                    user_agent: session.user_agent,
                });
                Answer::Done(true)
            }
            Query::AdminSessionByHash { token_hash, live_only } => Answer::AdminSession(Self::found(
                self.admin_sessions
                    .iter()
                    .find(|s| {
                        s.token_hash == token_hash && (!live_only || session_is_live(s.expires_at, now))
                    })
                    .cloned(),
            )),
            Query::DeleteAdminSession { token_hash } => {
                self.admin_sessions.retain(|s| s.token_hash != token_hash);
                Answer::Done(true)
            }
            Query::TouchLastLogin { id } => {
                if let Some(admin) = self.admins.iter_mut().find(|a| a.id == id) {
                    admin.last_login_at = Some(now);
                }
                Answer::Done(true)
            }
            Query::InsertUploaderSession { submission_id, email, session } => {
                let id = self.id();
                self.uploader_sessions.push(UploaderSession {
                    id,
                    submission_id,
                    email,
                    token_hash: session.token_hash,
                    expires_at: session.expires_at,
                    created_at: now,
                    ip_address: Some(session.ip_address),
                    user_agent: session.user_agent,
                });
                Answer::Done(true)
            }
            Query::UploaderSessionByHash { token_hash, live_only } => {
                Answer::UploaderSession(Self::found(
                    self.uploader_sessions
                        .iter()
                        .find(|s| {
                            s.token_hash == token_hash
                                && (!live_only || session_is_live(s.expires_at, now))
                        })
                        .cloned(),
                ))
            }
            Query::DeleteUploaderSession { token_hash } => {
                self.uploader_sessions.retain(|s| s.token_hash != token_hash);
                Answer::Done(true)
            }
            Query::BookingOf { submission_id } => Answer::Slot(Self::found(
                self.calendar
                    .slots
                    .iter()
                    .find(|s| s.booked_by_submission == Some(submission_id))
                    .cloned(),
            )),
            Query::BookSlot { submission_id, slot_id } => {
                match self.calendar.slots.iter_mut().find(|s| s.id == slot_id) {
                    Some(slot) => match book_row(slot, submission_id, now) {
                        Ok(()) => Answer::Slot(Fetched::Found(slot.clone())),
                        Err(_) => Answer::Slot(Fetched::Missing),
                    },
                    None => Answer::Slot(Fetched::Missing),
                }
            }
            Query::CancelBooking { submission_id } => {
                for slot in self.calendar.slots.iter_mut() {
                    if free_row(slot, submission_id).is_ok() {
                        return Answer::Slot(Fetched::Found(slot.clone()));
                    }
                }
                Answer::Slot(Fetched::Missing)
            }
            Query::SlotById { id } => Answer::Slot(Self::found(
                self.calendar.slots.iter().find(|s| s.id == id).cloned(),
            )),
            Query::DeleteSlot { id } => Answer::Done(self.calendar.delete(id).is_ok()),
            Query::Audit { entry } => {
                self.audit.push(entry.action);
                Answer::Done(true)
            }
            Query::NextUploadField => match &self.upload {
                Some((file_name, content_type, _)) => Answer::Field(Ok(Some(UploadField {
                    file_name: file_name.clone(),
                    content_type: content_type.clone(),
                }))),
                None => Answer::Field(Ok(None)),
            },
            Query::ReadUploadBytes => Answer::Size(Ok(self.upload.as_ref().unwrap().2)),
            Query::CreateDirectory { path } => {
                self.directories.push(path);
                Answer::Io(Ok(()))
            }
            Query::WriteUpload { path } => {
                self.files.push(path);
                Answer::Io(Ok(()))
            }
            Query::RemoveFile { path } => {
                self.files.retain(|f| *f != path);
                self.removed.push(path);
                Answer::Io(Ok(()))
            }
            Query::RemoveDirectory { path } => {
                let prefix = format!("{}/", path);
                self.files.retain(|f| !f.starts_with(&prefix));
                self.removed.push(path);
                Answer::Io(Ok(()))
            }
            other => panic!("not expected here: {:?}", other),
        }
    }

    fn finish(&mut self, outcome: Outcome) -> Outcome {
        let Outcome { status, body, set_cookie, attachment, effects } = outcome;
        for effect in effects {
            self.answer(effect);
        }
        Outcome { status, body, set_cookie, attachment, effects: Vec::new() }
    }

    fn drive<S>(&mut self, first: Step<S>, mut resume: impl FnMut(S, Answer) -> Step<S>) -> Outcome {
        let mut step = first;
        loop {
            match step {
                Step::Finish(outcome) => return self.finish(outcome),
                Step::Ask { query, next } => {
                    let answer = self.answer(query);
                    step = resume(next, answer);
                }
            }
        }
    }

    fn create(&mut self, peer: &str, name: &str, organization: &str, email: Option<&str>) -> Outcome {
        let now = self.now;
        let input = CreateSubmission {
            submitter_name: name.to_string(),
            submitter_email: email.map(|e| e.to_string()),
            organization: organization.to_string(),
            organization_department: None,
        };
        let first = create_submission_start(&state(), &caller(peer, None), input);
        self.drive(first, |stage, answer| create_submission(stage, answer, now))
    }

    fn submit(&mut self, slug: &str) -> Outcome {
        let first = submit_submission_start(slug);
        self.drive(first, submit_submission)
    }

    fn update(&mut self, slug: &str, changes: UpdateSubmission) -> Outcome {
        let first = update_submission_start(slug, changes);
        self.drive(first, update_submission)
    }

    fn upload(
        &mut self,
        slug: &str,
        cookie: Option<&str>,
        query: UploadDocumentQuery,
        name: &str,
        mime: &str,
        size: usize,
    ) -> Outcome {
        self.upload = Some((Some(name.to_string()), Some(mime.to_string()), size));
        let who = caller("198.51.100.1", cookie);
        let first = upload_document_start(slug, &query);
        self.drive(first, |stage, answer| {
            upload_document(&state(), &who, slug, &query, stage, answer)
        })
    }

    fn book(&mut self, slug: &str, slot_id: u128) -> Outcome {
        let first = book_slot_start(slug, &BookSlotRequest { slot_id });
        self.drive(first, book_slot)
    }

    fn login(&mut self, peer: &str, username: &str, password: &str) -> Outcome {
        let now = self.now;
        let who = caller(peer, None);
        let input = LoginRequest { username: username.to_string(), password: password.to_string() };
        let first = admin_login_start(&state(), &who, input);
        self.drive(first, |stage, answer| admin_login(&state(), &who, stage, answer, now))
    }

    fn uploader_login(&mut self, peer: &str, slug: &str, email: &str) -> Outcome {
        let now = self.now;
        let who = caller(peer, None);
        let input = UploaderLoginRequest { slug: slug.to_string(), email: email.to_string() };
        let first = uploader_login_start(&state(), &who, input);
        self.drive(first, |stage, answer| uploader_login(&state(), &who, stage, answer, now))
    }

    fn knock(&mut self, cookie: Option<&str>) -> Admission {
        let mut step = require_admin_start(&caller("198.51.100.1", cookie));
        loop {
            match step {
                Inquiry::Known(admission) => return admission,
                Inquiry::Ask { query, next } => {
                    let answer = self.answer(query);
                    step = require_admin(next, answer);
                }
            }
        }
    }

    fn add_admin(&mut self, username: &str, password: &str) -> u128 {
        let id = self.id();
        self.admins.push(AdminUser {
            id,
            username: username.to_string(),
            email: format!("{}@example.com", username),
            password_hash: hash_password(password).unwrap(),
            display_name: None,
            is_active: true,
            created_at: self.now,
            last_login_at: None,
        });
        id
    }

    fn add_slot(&mut self, start: i64) -> u128 {
        let id = self.id();
        let input = CreateCalendarSlot { slot_start: start, slot_end: start + HOUR, notes: None };
        self.calendar.create_slot(id, input, None, self.now).unwrap();
        id
    }
}

fn message(outcome: &Outcome) -> String {
    assert!(!outcome.body.success);
    assert!(outcome.body.data.is_none());
    outcome.body.error.clone().unwrap()
}

fn submission(outcome: &Outcome) -> &Submission {
    assert!(outcome.body.success);
    assert!(outcome.body.error.is_none());
    match outcome.body.data.as_ref().unwrap() {
        Payload::Submission(s) => s,
        other => panic!("{:?}", other),
    }
}

fn token_of(outcome: &Outcome, name: &str) -> String {
    let cookie = outcome.set_cookie.clone().unwrap();
    let rest = cookie.strip_prefix(&format!("{}=", name)).unwrap().to_string();
    rest.split(';').next().unwrap().to_string()
}

fn file_query() -> UploadDocumentQuery {
    UploadDocumentQuery {
        category: DocumentCategory::Circular,
        classification: DocumentClassification::Public,
        description: Some("d".to_string()),
    }
}

#[test]
fn scenario_create_submit_then_update_is_a_conflict() {
    let mut portal = Portal::new();
    let created = portal.create("198.51.100.1", "Jan", "Gemeente X", None);
    assert_eq!(created.status, 201);
    let slug = submission(&created).slug.clone();
    assert_eq!(submission(&created).status, SubmissionStatus::Draft);
    assert_eq!(submission(&created).submitted_at, None);
    assert_eq!(submission(&created).retention_expiry_date, START + YEAR);
    assert_eq!(slug.len(), "rr-20240101-".len() + 5);
    assert!(slug.starts_with("rr-20240101-"));

    portal.now += 1_000_000;
    let submitted = portal.submit(&slug);
    assert_eq!(submitted.status, 200);
    assert_eq!(submission(&submitted).status, SubmissionStatus::Submitted);
    assert_eq!(submission(&submitted).submitted_at, Some(START + 1_000_000));

    let changes = UpdateSubmission {
        submitter_name: Some("Piet".to_string()),
        submitter_email: None,
        organization: None,
        organization_department: None,
        notes: None,
    };
    let refused = portal.update(&slug, changes);
    assert_eq!(refused.status, 400);
    assert_eq!(message(&refused), "Cannot update submission that is not in draft status");
    assert_eq!(portal.submissions[0].submitter_name, "Jan");
    assert_eq!(
        portal.audit,
        vec!["submission_created".to_string(), "submission_submitted".to_string()]
    );

    let again = portal.submit(&slug);
    assert_eq!(again.status, 404);
    assert_eq!(message(&again), "Submission not found or not in draft status");
}

#[test]
fn a_draft_can_be_updated_and_shown() {
    let mut portal = Portal::new();
    let created = portal.create("198.51.100.1", "Jan", "Gemeente X", None);
    let slug = submission(&created).slug.clone();
    let changes = UpdateSubmission {
        submitter_name: None,
        submitter_email: None,
        organization: Some("Gemeente Y".to_string()),
        organization_department: None,
        notes: None,
    };
    let updated = portal.update(&slug, changes);
    assert_eq!(updated.status, 200);
    assert_eq!(submission(&updated).organization, "Gemeente Y");
    assert_eq!(submission(&updated).submitter_name, "Jan");
    let first = get_submission_start(&slug);
    let shown = portal.drive(first, get_submission);
    assert_eq!(shown.status, 200);
    match shown.body.data.unwrap() {
        Payload::SubmissionDetail(detail) => {
            assert_eq!(detail.slug, slug);
            assert_eq!(detail.organization, "Gemeente Y");
            assert!(detail.documents.is_empty());
        }
        other => panic!("{:?}", other),
    }
    let first = get_submission_start("no-such-slug");
    assert_eq!(portal.drive(first, get_submission).status, 404);
    let first = get_submission_start("Not A Slug");
    let bad = portal.drive(first, get_submission);
    assert_eq!(bad.status, 400);
    assert_eq!(message(&bad), "Invalid slug format (must be lowercase alphanumeric with hyphens)");
}

#[test]
fn scenario_upload_is_stored_under_the_dossier_and_php_is_refused() {
    let mut portal = Portal::new();
    let created = portal.create("198.51.100.1", "Jan", "Gemeente X", None);
    let slug = submission(&created).slug.clone();

    let stored = portal.upload(&slug, None, file_query(), "report.pdf", "application/pdf", 1024);
    assert_eq!(stored.status, 201);
    assert_eq!(portal.directories, vec![format!("/app/uploads/{}", slug)]);
    assert_eq!(portal.files.len(), 1);
    let path = portal.files[0].clone();
    let prefix = format!("/app/uploads/{}/", slug);
    assert!(path.starts_with(&prefix));
    assert!(path.ends_with("_report.pdf"));
    let id_text = &path[prefix.len()..path.len() - "_report.pdf".len()];
    assert_eq!(uuid::Uuid::parse_str(id_text).unwrap().to_string(), id_text);
    assert_eq!(portal.documents.len(), 1);
    let document = portal.documents[0].clone();
    assert_eq!(document.file_path, Some(path));
    assert_eq!(document.original_filename, Some("report.pdf".to_string()));
    assert_eq!(document.file_size, Some(1024));
    assert_eq!(document.mime_type, Some("application/pdf".to_string()));
    assert_eq!(document.description, Some("d".to_string()));
    assert_eq!(document.id.to_string().is_empty(), false);
    match stored.body.data.unwrap() {
        Payload::Document(shown) => {
            assert_eq!(shown.id, document.id);
            assert_eq!(shown.filename, Some("report.pdf".to_string()));
        }
        other => panic!("{:?}", other),
    }

    let refused = portal.upload(&slug, None, file_query(), "malware.php", "application/pdf", 1024);
    assert_eq!(refused.status, 400);
    assert_eq!(
        message(&refused),
        "Invalid file type: filename contains dangerous extension: .php"
    );
    assert_eq!(portal.files.len(), 1);
    assert_eq!(portal.documents.len(), 1);
}

#[test]
fn uploads_are_refused_for_size_type_and_missing_file() {
    let mut portal = Portal::new();
    let created = portal.create("198.51.100.1", "Jan", "Gemeente X", None);
    let slug = submission(&created).slug.clone();
    let large = portal.upload(&slug, None, file_query(), "a.pdf", "application/pdf", 51 * 1024 * 1024);
    assert_eq!((large.status, message(&large)), (400, "File too large (max 50 MB)".to_string()));
    let html = portal.upload(&slug, None, file_query(), "a.html", "text/html", 10);
    assert_eq!((html.status, message(&html)), (400, "Invalid file type: text/html".to_string()));
    portal.upload = None;
    let first = upload_document_start(&slug, &file_query());
    let who = caller("198.51.100.1", None);
    let none = portal.drive(first, |stage, answer| {
        upload_document(&state(), &who, &slug, &file_query(), stage, answer)
    });
    assert_eq!((none.status, message(&none)), (400, "No file provided".to_string()));
    let missing = portal.upload("no-such-slug", None, file_query(), "a.pdf", "application/pdf", 1);
    assert_eq!((missing.status, message(&missing)), (404, "Submission not found".to_string()));
    assert!(portal.files.is_empty());
    assert!(portal.documents.is_empty());
}

#[test]
fn restricted_documents_are_never_stored() {
    let mut portal = Portal::new();
    let created = portal.create("198.51.100.1", "Jan", "Gemeente X", None);
    let slug = submission(&created).slug.clone();
    for category in [
        DocumentCategory::Circular,
        DocumentCategory::ImplementationPolicy,
        DocumentCategory::WorkInstruction,
        DocumentCategory::FormalLaw,
    ] {
        let query = UploadDocumentQuery {
            category,
            classification: DocumentClassification::Restricted,
            description: None,
        };
        let asked_before = portal.asked.len();
        let refused = portal.upload(&slug, None, query, "report.pdf", "application/pdf", 1024);
        assert_eq!(refused.status, 400);
        assert_eq!(
            message(&refused),
            "Restricted documents cannot be uploaded. Documents marked as 'restricted' cannot be uploaded to this portal. Please only upload documents that may be used with AI tools."
        );
        assert_eq!(portal.asked.len(), asked_before);
    }
    assert!(portal.documents.is_empty());
    assert!(portal.files.is_empty());
}

#[test]
fn formal_laws_are_links_and_always_public() {
    let mut portal = Portal::new();
    let created = portal.create("198.51.100.1", "Jan", "Gemeente X", None);
    let slug = submission(&created).slug.clone();
    let as_file = UploadDocumentQuery {
        category: DocumentCategory::FormalLaw,
        classification: DocumentClassification::Public,
        description: None,
    };
    let refused = portal.upload(&slug, None, as_file, "wet.pdf", "application/pdf", 10);
    assert_eq!(refused.status, 400);
    assert_eq!(
        message(&refused),
        "Formal laws should be added as links, not file uploads. Use the /api/submissions/{slug}/formal-law endpoint instead."
    );
    let who = caller("198.51.100.1", None);
    let input = CreateFormalLaw {
        external_url: "https://wetten.overheid.nl/BWBR0001840/2024-01-01".to_string(),
        external_title: Some("Grondwet".to_string()),
        description: None,
    };
    let first = add_formal_law_start(&slug, input);
    let added = portal.drive(first, |stage, answer| add_formal_law(&who, stage, answer));
    assert_eq!(added.status, 201);
    assert_eq!(portal.documents.len(), 1);
    let link = &portal.documents[0];
    assert_eq!(link.category, DocumentCategory::FormalLaw);
    assert_eq!(link.classification, DocumentClassification::Public);
    assert_eq!(link.file_path, None);
    assert_eq!(link.filename, None);
    assert!(portal.files.is_empty());
    let bad = CreateFormalLaw {
        external_url: "wetten.overheid.nl/x".to_string(),
        external_title: None,
        description: None,
    };
    let first = add_formal_law_start(&slug, bad);
    let refused = portal.drive(first, |stage, answer| add_formal_law(&who, stage, answer));
    assert_eq!((refused.status, message(&refused)), (400, "Invalid URL format".to_string()));
}

#[test]
fn scenario_two_bookings_of_one_slot_exactly_one_succeeds() {
    let mut portal = Portal::new();
    let a = submission(&portal.create("198.51.100.1", "A", "Org", None)).slug.clone();
    let b = submission(&portal.create("198.51.100.2", "B", "Org", None)).slug.clone();
    assert_ne!(a, b);
    let slot = portal.add_slot(START + 24 * HOUR);
    let first = portal.book(&a, slot);
    let second = portal.book(&b, slot);
    assert_eq!(first.status, 200);
    assert_eq!(second.status, 400);
    assert_eq!(message(&second), "Slot not available or has already been booked");
    let winner = portal.submissions.iter().find(|s| s.slug == a).unwrap().id;
    let row: &CalendarSlot = &portal.calendar.slots[0];
    assert!(!row.is_available);
    assert_eq!(row.booked_by_submission, Some(winner));
    assert_eq!(portal.audit.iter().filter(|a| *a == "slot_booked").count(), 1);
    match first.body.data.unwrap() {
        Payload::Slot(shown) => {
            assert_eq!(shown.id, slot);
            assert!(!shown.is_available);
            assert_eq!(shown.booked_by_submission, Some(winner));
        }
        other => panic!("{:?}", other),
    }
}

#[test]
fn booking_rules_of_one_dossier() {
    let mut portal = Portal::new();
    let a = submission(&portal.create("198.51.100.1", "A", "Org", None)).slug.clone();
    let past = portal.add_slot(START - HOUR);
    let one = portal.add_slot(START + HOUR);
    let two = portal.add_slot(START + 2 * HOUR);
    let gone = portal.book(&a, past);
    assert_eq!((gone.status, message(&gone)), (400, "Slot not available or has already been booked".to_string()));
    assert_eq!(portal.book(&a, one).status, 200);
    let twice = portal.book(&a, two);
    assert_eq!((twice.status, message(&twice)), (400, "This submission already has a meeting booked".to_string()));
    let first = delete_slot_start(one);
    let kept = portal.drive(first, delete_slot);
    assert_eq!((kept.status, message(&kept)), (400, "Cannot delete a booked slot. Cancel the booking first.".to_string()));
    let first = cancel_booking_start(&a);
    assert_eq!(portal.drive(first, cancel_booking).status, 200);
    let first = cancel_booking_start(&a);
    let nothing = portal.drive(first, cancel_booking);
    assert_eq!((nothing.status, message(&nothing)), (404, "No booking found for this submission".to_string()));
    let first = delete_slot_start(one);
    assert_eq!(portal.drive(first, delete_slot).status, 200);
    assert_eq!(portal.calendar.slots.len(), 2);
    assert_eq!(portal.book("no-such-slug", two).status, 404);
}

#[test]
fn scenario_eleventh_login_within_the_hour_is_rate_limited() {
    let mut portal = Portal::new();
    portal.add_admin("beheer", "right-password");
    for attempt in 0..10 {
        portal.now += 1_000_000;
        let outcome = if attempt < 2 {
            portal.login("203.0.113.9", "beheer", "wrong-password")
        } else {
            portal.login("203.0.113.9", "nobody", "wrong-password")
        };
        assert_eq!(outcome.status, 401, "attempt {}", attempt + 1);
        assert_eq!(message(&outcome), "Invalid username or password");
        assert_eq!(outcome.set_cookie, Some(String::new()));
    }
    portal.now += 1_000_000;
    let eleventh = portal.login("203.0.113.9", "beheer", "right-password");
    assert_eq!(eleventh.status, 429);
    assert_eq!(message(&eleventh), "Too many login attempts. Please try again later.");
    assert!(portal.admin_sessions.is_empty());
    // Another address is not affected, and after an hour the first is let in again.
    assert_eq!(portal.login("203.0.113.10", "beheer", "right-password").status, 200);
    portal.now += HOUR;
    assert_eq!(portal.login("203.0.113.9", "beheer", "right-password").status, 200);
}

#[test]
fn admin_session_lives_eight_hours_and_ends_at_logout() {
    let mut portal = Portal::new();
    let admin = portal.add_admin("beheer", "pw");
    let logged_in = portal.login("203.0.113.9", "beheer", "pw");
    assert_eq!(logged_in.status, 200);
    match logged_in.body.data.as_ref().unwrap() {
        Payload::Admin(shown) => {
            assert_eq!(shown.id, admin);
            assert_eq!(shown.username, "beheer");
        }
        other => panic!("{:?}", other),
    }
    let cookie = logged_in.set_cookie.clone().unwrap();
    assert!(cookie.ends_with("; Path=/; HttpOnly; SameSite=Strict; Max-Age=28800"));
    let token = token_of(&logged_in, "rr_admin_session");
    assert_eq!(token.len(), 64);
    // Only the hash of the token is stored.
    assert_eq!(portal.admin_sessions.len(), 1);
    assert_ne!(portal.admin_sessions[0].token_hash, token);
    assert_eq!(portal.admin_sessions[0].expires_at, START + 8 * HOUR);
    assert_eq!(portal.admins[0].last_login_at, Some(START));
    assert_eq!(portal.audit, vec!["admin_login".to_string()]);

    let header = format!("rr_admin_session={}", token);
    assert!(matches!(portal.knock(Some(&header)), Admission::Admitted(user) if user.id == admin));
    let who = caller("203.0.113.9", Some(&header));
    let me = portal.drive(get_current_admin_start(&who), get_current_admin);
    assert_eq!(me.status, 200);

    portal.now = START + 8 * HOUR;
    match portal.knock(Some(&header)) {
        Admission::Denied(outcome) => {
            assert_eq!((outcome.status, message(&outcome)), (401, "Not authenticated".to_string()))
        }
        other => panic!("{:?}", other),
    }
    portal.now = START + HOUR;
    let out = portal.drive(admin_logout_start(&state(), &who), |stage, answer| {
        admin_logout(&state(), stage, answer)
    });
    assert_eq!(out.status, 200);
    assert_eq!(
        out.set_cookie,
        Some("rr_admin_session=; Path=/; HttpOnly; SameSite=Strict; Max-Age=0".to_string())
    );
    assert!(portal.admin_sessions.is_empty());
    assert_eq!(portal.audit, vec!["admin_login".to_string(), "admin_logout".to_string()]);
    assert!(matches!(portal.knock(Some(&header)), Admission::Denied(_)));
    let me = portal.drive(get_current_admin_start(&who), get_current_admin);
    assert_eq!((me.status, message(&me)), (401, "Not authenticated".to_string()));
}

#[test]
fn deactivated_accounts_are_turned_away_like_unknown_ones() {
    let mut portal = Portal::new();
    portal.add_admin("beheer", "pw");
    let logged_in = portal.login("203.0.113.9", "beheer", "pw");
    let header = format!("rr_admin_session={}", token_of(&logged_in, "rr_admin_session"));
    portal.admins[0].is_active = false;
    match portal.knock(Some(&header)) {
        Admission::Denied(outcome) => {
            assert_eq!((outcome.status, message(&outcome)), (401, "Not authenticated".to_string()))
        }
        other => panic!("{:?}", other),
    }
    let again = portal.login("203.0.113.9", "beheer", "pw");
    assert_eq!((again.status, message(&again)), (401, "Invalid username or password".to_string()));
    match portal.knock(None) {
        Admission::Denied(outcome) => {
            assert_eq!((outcome.status, message(&outcome)), (401, "Not authenticated".to_string()))
        }
        other => panic!("{:?}", other),
    }
}

#[test]
fn a_stored_hash_that_is_no_hash_is_a_server_error() {
    let mut portal = Portal::new();
    portal.add_admin("beheer", "pw");
    portal.admins[0].password_hash = "plaintext".to_string();
    let outcome = portal.login("203.0.113.9", "beheer", "pw");
    assert_eq!((outcome.status, message(&outcome)), (500, "Authentication error".to_string()));
}

#[test]
fn uploader_sessions_open_submitted_dossiers_and_nothing_else() {
    let mut portal = Portal::new();
    let mine = submission(&portal.create("198.51.100.1", "Jan", "X", Some("Jan@Example.com"))).slug.clone();
    let other = submission(&portal.create("198.51.100.2", "Piet", "Y", Some("piet@example.com"))).slug.clone();
    portal.submit(&mine);
    portal.submit(&other);

    // Without a session a submitted dossier takes no documents.
    let closed = portal.upload(&mine, None, file_query(), "a.pdf", "application/pdf", 1);
    assert_eq!(closed.status, 401);
    assert_eq!(
        message(&closed),
        "Inloggen vereist om documenten toe te voegen aan een ingediende inzending."
    );

    let wrong = portal.uploader_login("198.51.100.1", &mine, "piet@example.com");
    assert_eq!((wrong.status, message(&wrong)), (401, "Ongeldige referentiecode of e-mailadres.".to_string()));
    let empty = portal.uploader_login("198.51.100.1", "  ", "jan@example.com");
    assert_eq!((empty.status, message(&empty)), (400, "Vul zowel referentiecode als e-mailadres in.".to_string()));

    let logged_in = portal.uploader_login("198.51.100.1", &format!("  {} ", mine.to_uppercase()), " JAN@example.COM ");
    assert_eq!(logged_in.status, 200);
    match logged_in.body.data.as_ref().unwrap() {
        Payload::Uploader(shown) => {
            assert_eq!(shown.slug, mine);
            assert_eq!(shown.status, SubmissionStatus::Submitted);
            assert_eq!(shown.session_expires_at, START + 4 * HOUR);
        }
        other => panic!("{:?}", other),
    }
    assert!(logged_in.set_cookie.clone().unwrap().ends_with("; Max-Age=14400"));
    let token = token_of(&logged_in, "rr_uploader_session");
    let header = format!("rr_uploader_session={}", token);

    let stored = portal.upload(&mine, Some(&header), file_query(), "a.pdf", "application/pdf", 1);
    assert_eq!(stored.status, 201);
    // The session is bound to its own dossier.
    let foreign = portal.upload(&other, Some(&header), file_query(), "a.pdf", "application/pdf", 1);
    assert_eq!(foreign.status, 401);
    // An uploader's token is no administrator's token, under either cookie name.
    assert!(matches!(portal.knock(Some(&header)), Admission::Denied(_)));
    let disguised = format!("rr_admin_session={}", token);
    assert!(matches!(portal.knock(Some(&disguised)), Admission::Denied(_)));

    let who = caller("198.51.100.1", Some(&header));
    let me = portal.drive(get_current_uploader_start(&who), get_current_uploader);
    assert_eq!(me.status, 200);
    match me.body.data.unwrap() {
        Payload::Uploader(shown) => assert_eq!(shown.documents.len(), 1),
        other => panic!("{:?}", other),
    }

    // Removing a document needs the session too.
    let document_id = portal.documents[0].id;
    let nobody = caller("198.51.100.9", None);
    let first = delete_document_start(&mine, document_id);
    let refused = portal.drive(first, |stage, answer| delete_document(&nobody, stage, answer));
    assert_eq!(
        (refused.status, message(&refused)),
        (401, "Inloggen vereist om documenten te verwijderen van een ingediende inzending.".to_string())
    );
    let first = delete_document_start(&mine, document_id);
    let removed = portal.drive(first, |stage, answer| delete_document(&who, stage, answer));
    assert_eq!(removed.status, 200);
    assert!(portal.documents.is_empty());
    assert!(portal.files.is_empty());

    // After four hours the session is over.
    portal.now = START + 4 * HOUR;
    let late = portal.upload(&mine, Some(&header), file_query(), "a.pdf", "application/pdf", 1);
    assert_eq!(late.status, 401);
    let me = portal.drive(get_current_uploader_start(&who), get_current_uploader);
    assert_eq!((me.status, message(&me)), (401, "Niet ingelogd.".to_string()));

    portal.now = START + HOUR;
    let out = portal.drive(uploader_logout_start(&state(), &who), |stage, answer| {
        uploader_logout(&state(), stage, answer)
    });
    assert_eq!(out.status, 200);
    assert!(portal.uploader_sessions.is_empty());
}

#[test]
fn uploader_login_is_rate_limited_on_its_own_endpoint() {
    let mut portal = Portal::new();
    for _ in 0..10 {
        assert_eq!(portal.uploader_login("198.51.100.1", "x", "y@z.nl").status, 401);
    }
    let eleventh = portal.uploader_login("198.51.100.1", "x", "y@z.nl");
    assert_eq!(
        (eleventh.status, message(&eleventh)),
        (429, "Te veel inlogpogingen. Probeer het later opnieuw.".to_string())
    );
    // Attempts at one endpoint do not count at another.
    portal.add_admin("beheer", "pw");
    assert_eq!(portal.login("198.51.100.1", "beheer", "pw").status, 200);
}

#[test]
fn the_twenty_first_dossier_within_the_hour_is_refused() {
    let mut portal = Portal::new();
    for i in 0..20 {
        assert_eq!(portal.create("198.51.100.1", "Jan", "X", None).status, 201, "{}", i);
    }
    let refused = portal.create("198.51.100.1", "Jan", "X", None);
    assert_eq!(
        (refused.status, message(&refused)),
        (429, "Too many submissions. Please try again later.".to_string())
    );
    // An attempt counts even where the fields are refused.
    let mut other = Portal::new();
    let bad = other.create("198.51.100.1", " ", "X", None);
    assert_eq!((bad.status, message(&bad)), (400, "Field 'submitter_name' is required".to_string()));
    assert_eq!(other.limiter.attempts.len(), 1);
    assert!(other.submissions.is_empty());
}

#[test]
fn administrators_change_forward_and_delete() {
    let mut portal = Portal::new();
    let created = portal.create("198.51.100.1", "Jan", "Gemeente X", None);
    let id = submission(&created).id;
    let slug = submission(&created).slug.clone();
    portal.upload(&slug, None, file_query(), "a.pdf", "application/pdf", 1);

    // A draft cannot be forwarded.
    let request = ForwardSubmissionRequest { forward_to: "team".to_string(), notes: None };
    let refused = portal.drive(forward_submission_start(1, id, request), forward_submission);
    assert_eq!(
        (refused.status, message(&refused)),
        (400, "Submission is not in a forwardable status".to_string())
    );
    assert_eq!(portal.submissions[0].status, SubmissionStatus::Draft);
    // A dossier that is not there is not found.
    let request = ForwardSubmissionRequest { forward_to: "team".to_string(), notes: None };
    let absent = portal.drive(forward_submission_start(1, id + 1000, request), forward_submission);
    assert_eq!((absent.status, message(&absent)), (404, "Submission not found".to_string()));
    // Setting the status is not guarded.
    let request = UpdateStatusRequest { status: SubmissionStatus::Approved, notes: Some("ok".to_string()) };
    let changed = portal.drive(update_submission_status_start(1, id, request), update_submission_status);
    assert_eq!(submission(&changed).status, SubmissionStatus::Approved);
    let request = ForwardSubmissionRequest { forward_to: "team".to_string(), notes: None };
    let forwarded = portal.drive(forward_submission_start(1, id, request), forward_submission);
    assert_eq!(submission(&forwarded).status, SubmissionStatus::Forwarded);
    assert_eq!(submission(&forwarded).notes, Some("ok".to_string()));
    // A rejected dossier cannot be forwarded either.
    let request = UpdateStatusRequest { status: SubmissionStatus::Rejected, notes: None };
    portal.drive(update_submission_status_start(1, id, request), update_submission_status);
    let request = ForwardSubmissionRequest { forward_to: "team".to_string(), notes: None };
    let refused = portal.drive(forward_submission_start(1, id, request), forward_submission);
    assert_eq!(
        (refused.status, message(&refused)),
        (400, "Submission is not in a forwardable status".to_string())
    );
    assert_eq!(portal.submissions[0].status, SubmissionStatus::Rejected);

    let first = delete_submission_start(1, "beheer".to_string(), id);
    let deleted = portal.drive(first, |stage, answer| delete_submission(&state(), stage, answer));
    assert_eq!(deleted.status, 200);
    match deleted.body.data.unwrap() {
        Payload::Deleted { id: gone, slug: name } => {
            assert_eq!(gone, id);
            assert_eq!(name, slug);
        }
        other => panic!("{:?}", other),
    }
    assert!(portal.submissions.is_empty());
    assert!(portal.documents.is_empty());
    assert!(portal.files.is_empty());
    assert_eq!(portal.removed, vec![format!("/app/uploads/{}", slug)]);
    // The files go before the row.
    let files = portal.asked.iter().rposition(|q| q == "RemoveDirectory").unwrap();
    let row = portal.asked.iter().rposition(|q| q == "DeleteSubmission").unwrap();
    assert!(files < row);
    assert_eq!(portal.audit.last().unwrap(), "data_deleted");
    let first = delete_submission_start(1, "beheer".to_string(), id);
    let missing = portal.drive(first, |stage, answer| delete_submission(&state(), stage, answer));
    assert_eq!(missing.status, 404);
}
