//! The vocabulary between the portal's rules and the world around them.
//!
//! A request is handled in steps. Each step either asks for one piece of
//! outside work (a `Query`: a statement for the database, a file to write,
//! the next part of an upload) or finishes with an `Outcome`. Whoever runs
//! the steps performs the work and hands back the `Answer`. The rules never
//! wait, read a clock or touch a disk themselves.

use vstd::prelude::*;
use crate::text::{given, text_view};
use crate::models::{
    AdminSession, AdminUser, AdminUserResponse, ApiResponse, CalendarSlot, CalendarSlotResponse,
    CreateSubmission, Document, DocumentCategory, DocumentClassification, DocumentResponse, FaqItem,
    Id, PaginatedResponse, Submission, SubmissionResponse, SubmissionStatus, Timestamp,
    UpdateSubmission, UploaderSession, UploaderSessionResponse,
};

verus! {

// ---------------------------------------------------------------------------
// Status codes
// ---------------------------------------------------------------------------

pub const OK: u16 = 200;

pub const CREATED: u16 = 201;

pub const BAD_REQUEST: u16 = 400;

pub const UNAUTHORIZED: u16 = 401;

pub const NOT_FOUND: u16 = 404;

pub const TOO_MANY_REQUESTS: u16 = 429;

pub const INTERNAL_SERVER_ERROR: u16 = 500;

// ---------------------------------------------------------------------------
// Outside work
// ---------------------------------------------------------------------------

/// What a lookup of one row came back with.
#[derive(Debug)]
pub enum Fetched<T> {
    /// The row.
    Found(T),
    /// There is no such row.
    Missing,
    /// The lookup itself failed.
    Failed,
}

/// Which dossiers a list shows.
#[derive(Debug)]
pub enum ListFilter {
    /// All of them.
    All,
    /// Those in one status.
    Status(SubmissionStatus),
    /// Those whose submitter, organization or slug matches the pattern,
    /// whatever the case of the letters.
    Search(String),
}

/// What is noted beside an entry of the audit log.
#[derive(Debug)]
pub enum AuditDetails {
    /// An administrator set the status: what it was when the dossier was
    /// looked up, and what it was set to.
    StatusChanged { old_status: SubmissionStatus, new_status: SubmissionStatus, notes: Option<String> },
    /// The dossier was forwarded from the status in which it was found.
    Forwarded { old_status: SubmissionStatus, forward_to: String, notes: Option<String> },
    Deleted { slug: String, submitter_name: String, organization: String, deleted_by: String },
    SlotBooked { submission_slug: String, slot_start: Timestamp, slot_end: Timestamp },
}

/// One entry of the audit log: who did what to which entity. Entries are
/// only ever added.
#[derive(Debug)]
pub struct AuditEntry {
    pub action: String,
    pub entity_type: String,
    pub entity_id: Option<Id>,
    pub actor_type: String,
    pub actor_id: Option<Id>,
    pub actor_ip: Option<String>,
    pub details: Option<AuditDetails>,
}

impl AuditEntry {
    /// The entry names this action, entity and actor, and carries neither an
    /// address nor details.
    pub open spec fn records(
        self,
        action: Seq<char>,
        entity_type: Seq<char>,
        entity_id: Option<Id>,
        actor_type: Seq<char>,
        actor_id: Option<Id>,
    ) -> bool {
        &&& self.names(action, entity_type, entity_id, actor_type, actor_id)
        &&& self.actor_ip is None
        &&& self.details is None
    }

    /// The entry names this action, entity and actor.
    pub open spec fn names(
        self,
        action: Seq<char>,
        entity_type: Seq<char>,
        entity_id: Option<Id>,
        actor_type: Seq<char>,
        actor_id: Option<Id>,
    ) -> bool {
        &&& self.action@ == action
        &&& self.entity_type@ == entity_type
        &&& self.entity_id == entity_id
        &&& self.actor_type@ == actor_type
        &&& self.actor_id == actor_id
    }

    /// An entry with the address of the actor and without details.
    pub fn from_address(
        action: &str,
        entity_type: &str,
        entity_id: Option<Id>,
        actor_type: &str,
        actor_id: Option<Id>,
        actor_ip: String,
    ) -> (entry: Self)
        ensures
            entry.names(action@, entity_type@, entity_id, actor_type@, actor_id),
            entry.actor_ip == Some(actor_ip),
            entry.details is None,
    {
        AuditEntry {
            action: action.to_owned(),
            entity_type: entity_type.to_owned(),
            entity_id,
            actor_type: actor_type.to_owned(),
            actor_id,
            actor_ip: Some(actor_ip),
            details: None,
        }
    }

    /// An entry with details and without the address of the actor.
    pub fn with_details(
        action: &str,
        entity_type: &str,
        entity_id: Option<Id>,
        actor_type: &str,
        actor_id: Option<Id>,
        details: AuditDetails,
    ) -> (entry: Self)
        ensures
            entry.names(action@, entity_type@, entity_id, actor_type@, actor_id),
            entry.actor_ip is None,
            entry.details == Some(details),
    {
        AuditEntry {
            action: action.to_owned(),
            entity_type: entity_type.to_owned(),
            entity_id,
            actor_type: actor_type.to_owned(),
            actor_id,
            actor_ip: None,
            details: Some(details),
        }
    }

    /// An entry without address and details.
    pub fn new(
        action: &str,
        entity_type: &str,
        entity_id: Option<Id>,
        actor_type: &str,
        actor_id: Option<Id>,
    ) -> (entry: Self)
        ensures
            entry.records(action@, entity_type@, entity_id, actor_type@, actor_id),
    {
        AuditEntry {
            action: action.to_owned(),
            entity_type: entity_type.to_owned(),
            entity_id,
            actor_type: actor_type.to_owned(),
            actor_id,
            actor_ip: None,
            details: None,
        }
    }
}

/// A file stored for a dossier, as it is written to the documents table.
#[derive(Debug)]
pub struct StoredFile {
    pub id: Id,
    pub submission_id: Id,
    pub category: DocumentCategory,
    pub classification: DocumentClassification,
    pub filename: String,
    pub original_filename: String,
    pub file_path: String,
    pub file_size: i64,
    pub mime_type: String,
    pub description: Option<String>,
}

/// A session as it is written to one of the two session tables.
#[derive(Debug)]
pub struct NewSession {
    pub token_hash: String,
    pub expires_at: Timestamp,
    pub ip_address: String,
    pub user_agent: Option<String>,
}

/// One piece of outside work.
#[derive(Debug)]
pub enum Query {
    // Rate limiting
    /// Count the attempts from the address at the endpoint within the last
    /// hour.
    CountAttempts { ip: String, endpoint: String },
    /// Note an attempt.
    RecordAttempt { ip: String, endpoint: String },
    // Dossiers
    /// Let the database make a new slug.
    GenerateSlug,
    /// Store a new draft.
    InsertSubmission { slug: String, input: CreateSubmission },
    SubmissionBySlug { slug: String },
    SubmissionById { id: Id },
    /// The dossier with this slug and this e-mail address, both compared in
    /// lower case.
    SubmissionByLogin { slug: String, email: String },
    /// Change the given fields of the dossier with this slug.
    UpdateSubmission { slug: String, changes: UpdateSubmission },
    /// Turn the dossier with this slug from draft into submitted, if it is a
    /// draft.
    SubmitDraft { slug: String },
    /// Set the status of the dossier, whatever it is.
    SetStatus { id: Id, status: SubmissionStatus, notes: Option<String> },
    /// Turn the dossier into forwarded, if it is submitted, under review or
    /// approved.
    ForwardSubmission { id: Id, notes: Option<String> },
    DeleteSubmission { id: Id },
    /// Delete the drafts that are older than an hour and hand them back.
    DeleteAbandonedDrafts,
    /// One page of dossiers, the newest first.
    ListSubmissions { filter: ListFilter, limit: i64, offset: i64 },
    CountSubmissions { filter: ListFilter },
    /// The number of dossiers in each status.
    CountByStatus,
    // Documents
    /// The documents of one dossier, the oldest first.
    DocumentsOf { submission_id: Id },
    /// The documents of several dossiers, the oldest first.
    DocumentsOfAll { submission_ids: Vec<Id> },
    /// The document with this identifier in this dossier.
    DocumentOf { document_id: Id, submission_id: Id },
    InsertFile { file: StoredFile },
    /// Store a link to a document that is kept elsewhere, under this
    /// category and classification.
    InsertLink {
        submission_id: Id,
        category: DocumentCategory,
        classification: DocumentClassification,
        external_url: String,
        external_title: Option<String>,
        description: Option<String>,
    },
    DeleteDocument { document_id: Id },
    CountDocuments,
    // Administrators
    /// The active account with this name.
    ActiveAdminByUsername { username: String },
    /// The active account with this identifier.
    ActiveAdminById { id: Id },
    /// The account with this name, active or not.
    AdminByUsername { username: String },
    InsertAdmin { username: String, email: String, password_hash: String, display_name: Option<String> },
    InsertAdminSession { admin_user_id: Id, session: NewSession },
    /// The administrator's session with this token hash; where `live_only`
    /// is set, only one that has not expired.
    AdminSessionByHash { token_hash: String, live_only: bool },
    DeleteAdminSession { token_hash: String },
    DeleteExpiredAdminSessions,
    /// Note that the administrator has just logged in.
    TouchLastLogin { id: Id },
    // Uploaders
    InsertUploaderSession { submission_id: Id, email: String, session: NewSession },
    /// The uploader's session with this token hash; where `live_only` is
    /// set, only one that has not expired.
    UploaderSessionByHash { token_hash: String, live_only: bool },
    DeleteUploaderSession { token_hash: String },
    // Calendar
    /// The available slots that begin within the period, the earliest first.
    AvailableSlots { from: Timestamp, to: Timestamp },
    /// All slots that begin within the period, the earliest first.
    SlotsBetween { from: Timestamp, to: Timestamp },
    /// The slot that the dossier has booked.
    BookingOf { submission_id: Id },
    /// Book the slot for the dossier, if the slot is available and has not
    /// begun.
    BookSlot { submission_id: Id, slot_id: Id },
    /// Free the slot that the dossier has booked.
    CancelBooking { submission_id: Id },
    InsertSlot { slot_start: Timestamp, slot_end: Timestamp, created_by: Id, notes: Option<String> },
    SlotById { id: Id },
    DeleteSlot { id: Id },
    CountOpenSlots,
    // Housekeeping
    DeleteOldAttempts,
    Audit { entry: AuditEntry },
    // The upload in the request
    /// The next part of the upload.
    NextUploadField,
    /// The bytes of the part at hand.
    ReadUploadBytes,
    // Files
    CreateDirectory { path: String },
    /// Write the bytes of the upload to the path.
    WriteUpload { path: String },
    RemoveFile { path: String },
    /// Remove the directory and all in it, if it exists.
    RemoveDirectory { path: String },
    /// The bytes of the file, if it exists and can be read.
    ReadFile { path: String },
    // Writing things down
    /// The export written as text, for the description that goes into an
    /// archive.
    DescribeExport { export: SubmissionExport },
    // The schema
    /// Make the table that keeps track of migrations, unless it is there.
    EnsureMigrationsTable,
    /// Whether the public schema has a table of this name.
    TableExists { name: String },
    /// Whether the migration of this name was applied.
    MigrationApplied { name: String },
    /// Note that the migration was applied, unless that is noted already.
    MarkMigrationApplied { name: String },
    /// Note that the migration was applied.
    RecordMigration { name: String },
    /// Run one statement of a migration.
    Execute { statement: String },
}

/// What is known of one part of an upload before its bytes are read.
#[derive(Debug)]
pub struct UploadField {
    pub file_name: Option<String>,
    pub content_type: Option<String>,
}

/// How an operation on a file failed: the failure's own sentence and its
/// kind.
#[derive(Debug)]
pub struct IoFailure {
    pub message: String,
    pub kind: String,
}

/// What came back from a piece of outside work.
#[derive(Debug)]
pub enum Answer {
    Submission(Fetched<Submission>),
    /// The dossiers, or nothing where the statement failed.
    Submissions(Option<Vec<Submission>>),
    Document(Fetched<Document>),
    /// The documents, or nothing where the statement failed.
    Documents(Option<Vec<Document>>),
    Admin(Fetched<AdminUser>),
    AdminSession(Fetched<AdminSession>),
    UploaderSession(Fetched<UploaderSession>),
    Slot(Fetched<CalendarSlot>),
    /// The slots, or nothing where the statement failed.
    Slots(Option<Vec<CalendarSlot>>),
    /// The number, or nothing where the statement failed.
    Count(Option<i64>),
    /// The numbers by name, or nothing where the statement failed.
    Counts(Option<Vec<(String, i64)>>),
    /// The text, or nothing where the statement failed.
    Text(Option<String>),
    /// Whether the statement went through.
    Done(bool),
    /// The next part, nothing where there is no further part, or the
    /// failure's sentence.
    Field(Result<Option<UploadField>, String>),
    /// The number of bytes read, or the failure's sentence.
    Size(Result<usize, String>),
    /// Done, or how it failed.
    Io(Result<(), IoFailure>),
    /// The bytes, or nothing where the file is missing or unreadable.
    Bytes(Option<Vec<u8>>),
    /// Whether there is such a thing, or nothing where the statement failed.
    Exists(Option<bool>),
}

impl Answer {
    /// The answer as the outcome of a lookup of a dossier. An answer of
    /// another shape counts as a failed lookup.
    pub open spec fn submission(self) -> Fetched<Submission> {
        match self {
            Answer::Submission(f) => f,
            _ => Fetched::Failed,
        }
    }

    pub fn into_submission(self) -> (f: Fetched<Submission>)
        ensures
            f == self.submission(),
    {
        match self {
            Answer::Submission(f) => f,
            _ => Fetched::Failed,
        }
    }

    /// The answer as a list of dossiers; of another shape, as a failure.
    pub open spec fn submissions(self) -> Option<Vec<Submission>> {
        match self {
            Answer::Submissions(v) => v,
            _ => None,
        }
    }

    pub fn into_submissions(self) -> (v: Option<Vec<Submission>>)
        ensures
            v == self.submissions(),
    {
        match self {
            Answer::Submissions(v) => v,
            _ => None,
        }
    }

    /// The answer as the outcome of a lookup of a document.
    pub open spec fn document(self) -> Fetched<Document> {
        match self {
            Answer::Document(f) => f,
            _ => Fetched::Failed,
        }
    }

    pub fn into_document(self) -> (f: Fetched<Document>)
        ensures
            f == self.document(),
    {
        match self {
            Answer::Document(f) => f,
            _ => Fetched::Failed,
        }
    }

    /// The answer as a list of documents; of another shape, as a failure.
    pub open spec fn documents(self) -> Option<Vec<Document>> {
        match self {
            Answer::Documents(v) => v,
            _ => None,
        }
    }

    pub fn into_documents(self) -> (v: Option<Vec<Document>>)
        ensures
            v == self.documents(),
    {
        match self {
            Answer::Documents(v) => v,
            _ => None,
        }
    }

    /// The answer as the outcome of a lookup of an administrator.
    pub open spec fn admin(self) -> Fetched<AdminUser> {
        match self {
            Answer::Admin(f) => f,
            _ => Fetched::Failed,
        }
    }

    pub fn into_admin(self) -> (f: Fetched<AdminUser>)
        ensures
            f == self.admin(),
    {
        match self {
            Answer::Admin(f) => f,
            _ => Fetched::Failed,
        }
    }

    /// The answer as the outcome of a lookup of an administrator's session.
    pub open spec fn admin_session(self) -> Fetched<AdminSession> {
        match self {
            Answer::AdminSession(f) => f,
            _ => Fetched::Failed,
        }
    }

    pub fn into_admin_session(self) -> (f: Fetched<AdminSession>)
        ensures
            f == self.admin_session(),
    {
        match self {
            Answer::AdminSession(f) => f,
            _ => Fetched::Failed,
        }
    }

    /// The answer as the outcome of a lookup of an uploader's session.
    pub open spec fn uploader_session(self) -> Fetched<UploaderSession> {
        match self {
            Answer::UploaderSession(f) => f,
            _ => Fetched::Failed,
        }
    }

    pub fn into_uploader_session(self) -> (f: Fetched<UploaderSession>)
        ensures
            f == self.uploader_session(),
    {
        match self {
            Answer::UploaderSession(f) => f,
            _ => Fetched::Failed,
        }
    }

    /// The answer as the outcome of a lookup of a slot.
    pub open spec fn slot(self) -> Fetched<CalendarSlot> {
        match self {
            Answer::Slot(f) => f,
            _ => Fetched::Failed,
        }
    }

    pub fn into_slot(self) -> (f: Fetched<CalendarSlot>)
        ensures
            f == self.slot(),
    {
        match self {
            Answer::Slot(f) => f,
            _ => Fetched::Failed,
        }
    }

    /// The answer as a list of slots; of another shape, as a failure.
    pub open spec fn slots(self) -> Option<Vec<CalendarSlot>> {
        match self {
            Answer::Slots(v) => v,
            _ => None,
        }
    }

    pub fn into_slots(self) -> (v: Option<Vec<CalendarSlot>>)
        ensures
            v == self.slots(),
    {
        match self {
            Answer::Slots(v) => v,
            _ => None,
        }
    }

    /// The answer as a number; of another shape, as a failure.
    pub open spec fn count(self) -> Option<i64> {
        match self {
            Answer::Count(n) => n,
            _ => None,
        }
    }

    pub fn into_count(self) -> (n: Option<i64>)
        ensures
            n == self.count(),
    {
        match self {
            Answer::Count(n) => n,
            _ => None,
        }
    }

    /// The answer as numbers by name; of another shape, as a failure.
    pub open spec fn counts(self) -> Option<Vec<(String, i64)>> {
        match self {
            Answer::Counts(v) => v,
            _ => None,
        }
    }

    pub fn into_counts(self) -> (v: Option<Vec<(String, i64)>>)
        ensures
            v == self.counts(),
    {
        match self {
            Answer::Counts(v) => v,
            _ => None,
        }
    }

    /// The answer as a text; of another shape, as a failure.
    pub open spec fn text(self) -> Option<String> {
        match self {
            Answer::Text(t) => t,
            _ => None,
        }
    }

    pub fn into_text(self) -> (t: Option<String>)
        ensures
            t == self.text(),
    {
        match self {
            Answer::Text(t) => t,
            _ => None,
        }
    }

    /// Whether the statement went through; an answer of another shape says
    /// that it did not.
    pub open spec fn done(self) -> bool {
        match self {
            Answer::Done(ok) => ok,
            _ => false,
        }
    }

    pub fn is_done(&self) -> (ok: bool)
        ensures
            ok == self.done(),
    {
        match self {
            Answer::Done(ok) => *ok,
            _ => false,
        }
    }

    /// The answer as the next part of an upload. A failure is known by its
    /// sentence; an answer of another shape is a failure without words.
    pub open spec fn field(self) -> Result<Option<UploadField>, Seq<char>> {
        match self {
            Answer::Field(Ok(part)) => Ok(part),
            Answer::Field(Err(detail)) => Err(detail@),
            _ => Err(Seq::<char>::empty()),
        }
    }

    pub fn into_field(self) -> (r: Result<Option<UploadField>, String>)
        ensures
            match r {
                Ok(part) => self.field() == Ok::<Option<UploadField>, Seq<char>>(part),
                Err(detail) => self.field() == Err::<Option<UploadField>, Seq<char>>(detail@),
            },
    {
        match self {
            Answer::Field(Ok(part)) => Ok(part),
            Answer::Field(Err(detail)) => Err(detail),
            _ => Err(String::new()),
        }
    }

    /// The answer as the number of bytes read. A failure is known by its
    /// sentence; an answer of another shape is a failure without words.
    pub open spec fn size(self) -> Result<usize, Seq<char>> {
        match self {
            Answer::Size(Ok(n)) => Ok(n),
            Answer::Size(Err(detail)) => Err(detail@),
            _ => Err(Seq::<char>::empty()),
        }
    }

    pub fn into_size(self) -> (r: Result<usize, String>)
        ensures
            match r {
                Ok(n) => self.size() == Ok::<usize, Seq<char>>(n),
                Err(detail) => self.size() == Err::<usize, Seq<char>>(detail@),
            },
    {
        match self {
            Answer::Size(Ok(n)) => Ok(n),
            Answer::Size(Err(detail)) => Err(detail),
            _ => Err(String::new()),
        }
    }

    /// How an operation on a file failed, by sentence and kind, or nothing
    /// where it went well. An answer of another shape is a failure without
    /// words.
    pub open spec fn io_failure(self) -> Option<(Seq<char>, Seq<char>)> {
        match self {
            Answer::Io(Ok(_)) => None,
            Answer::Io(Err(failure)) => Some((failure.message@, failure.kind@)),
            _ => Some((Seq::<char>::empty(), Seq::<char>::empty())),
        }
    }

    pub fn into_io_failure(self) -> (r: Option<IoFailure>)
        ensures
            match r {
                None => self.io_failure() is None,
                Some(failure) => self.io_failure() == Some((failure.message@, failure.kind@)),
            },
    {
        match self {
            Answer::Io(Ok(_)) => None,
            Answer::Io(Err(failure)) => Some(failure),
            _ => Some(IoFailure { message: String::new(), kind: String::new() }),
        }
    }

    /// The answer as to whether there is such a thing; of another shape, as
    /// a failure.
    pub open spec fn presence(self) -> Option<bool> {
        match self {
            Answer::Exists(known) => known,
            _ => None,
        }
    }

    pub fn into_presence(self) -> (known: Option<bool>)
        ensures
            known == self.presence(),
    {
        match self {
            Answer::Exists(known) => known,
            _ => None,
        }
    }

    /// The answer as the bytes of a file; of another shape, as none.
    pub open spec fn bytes(self) -> Option<Vec<u8>> {
        match self {
            Answer::Bytes(b) => b,
            _ => None,
        }
    }

    pub fn into_bytes(self) -> (b: Option<Vec<u8>>)
        ensures
            b == self.bytes(),
    {
        match self {
            Answer::Bytes(b) => b,
            _ => None,
        }
    }
}

// ---------------------------------------------------------------------------
// Outcomes
// ---------------------------------------------------------------------------

/// The numbers on the administrators' dashboard.
#[derive(Debug)]
pub struct DashboardStats {
    pub submissions_by_status: Vec<(String, i64)>,
    pub total_documents: i64,
    pub available_meeting_slots: i64,
}

/// A dossier as it is exported.
#[derive(Debug)]
pub struct SubmissionExport {
    pub submission: SubmissionResponse,
    pub exported_at: Timestamp,
    pub exported_by: String,
}

/// The data of an answer.
#[derive(Debug)]
pub enum Payload {
    /// Nothing but the news of success.
    Empty,
    Submission(Submission),
    SubmissionDetail(SubmissionResponse),
    Document(DocumentResponse),
    Slot(CalendarSlotResponse),
    Slots(Vec<CalendarSlotResponse>),
    Admin(AdminUserResponse),
    Uploader(UploaderSessionResponse),
    Page(PaginatedResponse<SubmissionResponse>),
    Deleted { id: Id, slug: String },
    Stats(DashboardStats),
    Faq(Vec<FaqItem>),
    Export(SubmissionExport),
    /// The bytes of a zip archive, and whether every entry went into it.
    Archive { bytes: Vec<u8>, complete: bool },
}

/// How a request ends: the status, the envelope, a cookie to set, a file
/// name where the answer is a download, and work whose result nobody waits
/// for, in the order in which it is to be done.
#[derive(Debug)]
pub struct Outcome {
    pub status: u16,
    pub body: ApiResponse<Payload>,
    pub set_cookie: Option<String>,
    pub attachment: Option<String>,
    pub effects: Vec<Query>,
}

impl Outcome {
    /// The outcome is the given status with an error message and no data.
    pub open spec fn reports(self, status: u16, message: Seq<char>) -> bool {
        &&& self.status == status
        &&& !self.body.success
        &&& self.body.data is None
        &&& self.body.error matches Some(m) && m@ == message
    }

    /// The outcome is the given status with an error message, no data, no
    /// cookie, no file name and no further work.
    pub open spec fn fails_with(self, status: u16, message: Seq<char>) -> bool {
        &&& self.reports(status, message)
        &&& self.set_cookie is None
        &&& self.attachment is None
        &&& self.effects@.len() == 0
    }

    /// The outcome is the given status with the data and no error message.
    pub open spec fn carries(self, status: u16, data: Payload) -> bool {
        &&& self.status == status
        &&& self.body.success
        &&& self.body.data == Some(data)
        &&& self.body.error is None
    }

    /// The outcome is the given status with the data, no error message, no
    /// cookie, no file name and no further work.
    pub open spec fn succeeds_with(self, status: u16, data: Payload) -> bool {
        &&& self.carries(status, data)
        &&& self.set_cookie is None
        &&& self.attachment is None
        &&& self.effects@.len() == 0
    }

    /// A failure with its message.
    pub fn failure(status: u16, message: &str) -> (outcome: Self)
        ensures
            outcome.fails_with(status, message@),
    {
        Outcome {
            status,
            body: ApiResponse::error(message),
            set_cookie: None,
            attachment: None,
            effects: Vec::new(),
        }
    }

    /// A success with its data.
    pub fn success(status: u16, data: Payload) -> (outcome: Self)
        ensures
            outcome.succeeds_with(status, data),
    {
        Outcome {
            status,
            body: ApiResponse::success(data),
            set_cookie: None,
            attachment: None,
            effects: Vec::new(),
        }
    }

    /// The same outcome with one more piece of work after those it has.
    pub fn and_then(self, effect: Query) -> (outcome: Self)
        ensures
            outcome.status == self.status,
            outcome.body == self.body,
            outcome.set_cookie == self.set_cookie,
            outcome.attachment == self.attachment,
            outcome.effects@ == self.effects@.push(effect),
    {
        let mut outcome = self;
        outcome.effects.push(effect);
        outcome
    }

    /// The same outcome with a cookie to set.
    pub fn with_cookie(self, cookie: String) -> (outcome: Self)
        ensures
            outcome.status == self.status,
            outcome.body == self.body,
            outcome.set_cookie == Some(cookie),
            outcome.attachment == self.attachment,
            outcome.effects == self.effects,
    {
        let mut outcome = self;
        outcome.set_cookie = Some(cookie);
        outcome
    }

    /// The same outcome as a download under the given file name.
    pub fn with_attachment(self, filename: String) -> (outcome: Self)
        ensures
            outcome.status == self.status,
            outcome.body == self.body,
            outcome.set_cookie == self.set_cookie,
            outcome.attachment == Some(filename),
            outcome.effects == self.effects,
    {
        let mut outcome = self;
        outcome.attachment = Some(filename);
        outcome
    }
}

/// One step of handling a request: a piece of outside work and the state to
/// go on from with its answer, or the end.
#[derive(Debug)]
pub enum Step<S> {
    Ask { query: Query, next: S },
    Finish(Outcome),
}

impl<S> Step<S> {
    /// The step ends the request with an error message and nothing else.
    pub open spec fn fails_with(self, status: u16, message: Seq<char>) -> bool {
        self matches Step::Finish(outcome) && outcome.fails_with(status, message)
    }

    /// The step ends the request with the data and nothing else.
    pub open spec fn succeeds_with(self, status: u16, data: Payload) -> bool {
        self matches Step::Finish(outcome) && outcome.succeeds_with(status, data)
    }

    /// The step ends the request with the data and one piece of further
    /// work: an entry in the audit log.
    pub open spec fn succeeds_audited(
        self,
        status: u16,
        data: Payload,
        action: Seq<char>,
        entity_type: Seq<char>,
        entity_id: Option<Id>,
        actor_type: Seq<char>,
        actor_id: Option<Id>,
    ) -> bool {
        &&& self matches Step::Finish(outcome)
        &&& outcome.carries(status, data)
        &&& outcome.set_cookie is None
        &&& outcome.attachment is None
        &&& outcome.effects@.len() == 1
        &&& outcome.effects@[0] matches Query::Audit { entry }
        &&& entry.records(action, entity_type, entity_id, actor_type, actor_id)
    }

    /// The step ends the request with an error message and an empty
    /// cookie.
    pub open spec fn refuses(self, status: u16, message: Seq<char>) -> bool {
        &&& self matches Step::Finish(outcome)
        &&& outcome.reports(status, message)
        &&& outcome.set_cookie matches Some(cookie) && cookie@.len() == 0
        &&& outcome.attachment is None
        &&& outcome.effects@.len() == 0
    }

    /// A step that ends the request with an error message and an empty
    /// cookie.
    pub fn refuse(status: u16, message: &str) -> (step: Self)
        ensures
            step.refuses(status, message@),
    {
        Step::Finish(Outcome::failure(status, message).with_cookie(String::new()))
    }

    /// A step that ends the request with an error message.
    pub fn fail(status: u16, message: &str) -> (step: Self)
        ensures
            step.fails_with(status, message@),
    {
        Step::Finish(Outcome::failure(status, message))
    }

    /// A step that ends the request with the data.
    pub fn succeed(status: u16, data: Payload) -> (step: Self)
        ensures
            step.succeeds_with(status, data),
    {
        Step::Finish(Outcome::success(status, data))
    }

    /// A step that ends the request with the data and an entry in the audit
    /// log.
    pub fn succeed_audited(
        status: u16,
        data: Payload,
        action: &str,
        entity_type: &str,
        entity_id: Option<Id>,
        actor_type: &str,
        actor_id: Option<Id>,
    ) -> (step: Self)
        ensures
            step.succeeds_audited(
                status,
                data,
                action@,
                entity_type@,
                entity_id,
                actor_type@,
                actor_id,
            ),
    {
        let entry = AuditEntry::new(action, entity_type, entity_id, actor_type, actor_id);
        Step::Finish(Outcome::success(status, data).and_then(Query::Audit { entry }))
    }
}

/// One step of finding something out: a piece of outside work and the state
/// to go on from with its answer, or what was found out.
#[derive(Debug)]
pub enum Inquiry<S, T> {
    Ask { query: Query, next: S },
    Known(T),
}

/// What every handler is given: where uploads are kept, how large one may
/// be, whether the portal runs in production, and which peers are trusted to
/// say whom they forward for.
#[derive(Debug)]
pub struct AppState {
    pub upload_dir: String,
    pub max_upload_size: usize,
    pub is_production: bool,
    pub trusted_proxies: Vec<String>,
}

/// What a handler reads of the request's connection and headers.
#[derive(Debug)]
pub struct Caller {
    /// Address of the peer that the connection comes from.
    pub peer: Option<String>,
    /// The `X-Forwarded-For` header.
    pub forwarded_for: Option<String>,
    /// The `X-Real-IP` header.
    pub real_ip: Option<String>,
    /// The `User-Agent` header.
    pub user_agent: Option<String>,
    /// The `Cookie` header.
    pub cookie: Option<String>,
}

/// A borrowed view of a text that is given or not.
pub fn as_text(s: &Option<String>) -> (r: Option<&str>)
    ensures
        given(r) == text_view(*s),
{
    match s {
        Some(t) => Some(t.as_str()),
        None => None,
    }
}

/// A copy of a text that is given or not.
pub fn copy_text(s: &Option<String>) -> (r: Option<String>)
    ensures
        r == *s,
{
    match s {
        Some(t) => Some(t.clone()),
        None => None,
    }
}

/// The items that a list came back with; none where it did not come back.
pub open spec fn listed<T>(list: Option<Vec<T>>) -> Seq<T> {
    match list {
        Some(items) => items@,
        None => Seq::<T>::empty(),
    }
}

/// The documents as they are shown, in the same order.
pub open spec fn shown(documents: Seq<Document>) -> Seq<DocumentResponse> {
    Seq::new(documents.len(), |i: int| DocumentResponse::shown(documents[i]))
}

/// The documents as they are shown, in the same order.
pub fn show_documents(documents: Vec<Document>) -> (responses: Vec<DocumentResponse>)
    ensures
        responses@ == shown(documents@),
{
    let mut documents = documents;
    let ghost all = documents@;
    let mut reversed: Vec<DocumentResponse> = Vec::new();
    while documents.len() > 0
        invariant
            documents@ == all.take(documents@.len() as int),
            reversed@.len() + documents@.len() == all.len(),
            forall|k: int|
                0 <= k < reversed@.len() ==> #[trigger] reversed@[k] == DocumentResponse::shown(
                    all[all.len() - 1 - k],
                ),
        decreases documents.len(),
    {
        let ghost before = documents@;
        let document = documents.pop().unwrap();
        proof {
            assert(document == before.last());
            assert(documents@ =~= before.drop_last());
        }
        reversed.push(DocumentResponse::from(document));
    }
    let mut responses: Vec<DocumentResponse> = Vec::new();
    let ghost turned = reversed@;
    while reversed.len() > 0
        invariant
            turned.len() == all.len(),
            reversed@ == turned.take(reversed@.len() as int),
            responses@.len() + reversed@.len() == all.len(),
            forall|k: int|
                0 <= k < turned.len() ==> #[trigger] turned[k] == DocumentResponse::shown(
                    all[all.len() - 1 - k],
                ),
            forall|k: int|
                0 <= k < responses@.len() ==> #[trigger] responses@[k]
                    == DocumentResponse::shown(all[k]),
        decreases reversed.len(),
    {
        let ghost before = reversed@;
        let response = reversed.pop().unwrap();
        proof {
            assert(response == before.last());
            assert(reversed@ =~= before.drop_last());
            assert(response == turned[before.len() - 1]);
        }
        responses.push(response);
    }
    proof {
        assert(responses@ =~= shown(all));
    }
    responses
}

/// The slots as they are shown, in the same order.
pub open spec fn shown_slots(slots: Seq<CalendarSlot>) -> Seq<CalendarSlotResponse> {
    Seq::new(slots.len(), |i: int| CalendarSlotResponse::shown(slots[i]))
}

/// The slots as they are shown, in the same order.
pub fn show_slots(slots: Vec<CalendarSlot>) -> (responses: Vec<CalendarSlotResponse>)
    ensures
        responses@ == shown_slots(slots@),
{
    let mut slots = slots;
    let ghost all = slots@;
    let mut reversed: Vec<CalendarSlotResponse> = Vec::new();
    while slots.len() > 0
        invariant
            slots@ == all.take(slots@.len() as int),
            reversed@.len() + slots@.len() == all.len(),
            forall|k: int|
                0 <= k < reversed@.len() ==> #[trigger] reversed@[k] == CalendarSlotResponse::shown(
                    all[all.len() - 1 - k],
                ),
        decreases slots.len(),
    {
        let ghost before = slots@;
        let slot = slots.pop().unwrap();
        proof {
            assert(slot == before.last());
            assert(slots@ =~= before.drop_last());
        }
        reversed.push(CalendarSlotResponse::from(slot));
    }
    let mut responses: Vec<CalendarSlotResponse> = Vec::new();
    let ghost turned = reversed@;
    while reversed.len() > 0
        invariant
            turned.len() == all.len(),
            reversed@ == turned.take(reversed@.len() as int),
            responses@.len() + reversed@.len() == all.len(),
            forall|k: int|
                0 <= k < turned.len() ==> #[trigger] turned[k] == CalendarSlotResponse::shown(
                    all[all.len() - 1 - k],
                ),
            forall|k: int|
                0 <= k < responses@.len() ==> #[trigger] responses@[k]
                    == CalendarSlotResponse::shown(all[k]),
        decreases reversed.len(),
    {
        let ghost before = reversed@;
        let response = reversed.pop().unwrap();
        proof {
            assert(response == before.last());
            assert(reversed@ =~= before.drop_last());
            assert(response == turned[before.len() - 1]);
        }
        responses.push(response);
    }
    proof {
        assert(responses@ =~= shown_slots(all));
    }
    responses
}

} // verus!
