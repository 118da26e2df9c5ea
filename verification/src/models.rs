//! The portal's data: submissions, documents, accounts, sessions, meeting
//! slots and the envelopes that answers are sent in.
//!
//! Identifiers are 128-bit numbers and points in time are microseconds since
//! the Unix epoch, UTC.

use vstd::prelude::*;
use vstd::std_specs::convert::FromSpecImpl;

verus! {

/// An opaque 128-bit identifier.
pub type Id = u128;

/// Microseconds since 1970-01-01 00:00:00 UTC.
pub type Timestamp = i64;

// ---------------------------------------------------------------------------
// Enumerations
// ---------------------------------------------------------------------------

/// Where a submission stands in its lifecycle.
#[derive(Debug, Clone, Copy, PartialEq, Eq, Structural)]
pub enum SubmissionStatus {
    Draft,
    Submitted,
    UnderReview,
    Approved,
    Rejected,
    Forwarded,
    Completed,
}

/// The kind of a policy document.
#[derive(Debug, Clone, Copy, PartialEq, Eq, Structural)]
pub enum DocumentCategory {
    FormalLaw,
    Circular,
    ImplementationPolicy,
    WorkInstruction,
}

/// What a document may be used for.
#[derive(Debug, Clone, Copy, PartialEq, Eq, Structural)]
pub enum DocumentClassification {
    Public,
    ClaudeAllowed,
    Restricted,
}

// ---------------------------------------------------------------------------
// Submission
// ---------------------------------------------------------------------------

/// A dossier as it is stored.
#[derive(Debug, Clone)]
pub struct Submission {
    pub id: Id,
    pub slug: String,
    pub submitter_name: String,
    pub submitter_email: Option<String>,
    pub organization: String,
    pub organization_department: Option<String>,
    pub status: SubmissionStatus,
    pub notes: Option<String>,
    pub created_at: Timestamp,
    pub updated_at: Timestamp,
    pub submitted_at: Option<Timestamp>,
    pub retention_expiry_date: Timestamp,
}

/// What an applicant sends to open a dossier.
#[derive(Debug, Clone)]
pub struct CreateSubmission {
    pub submitter_name: String,
    pub submitter_email: Option<String>,
    pub organization: String,
    pub organization_department: Option<String>,
}

/// The fields an applicant may change while the dossier is a draft. A field
/// that is `None` is left as it is.
#[derive(Debug, Clone)]
pub struct UpdateSubmission {
    pub submitter_name: Option<String>,
    pub submitter_email: Option<String>,
    pub organization: Option<String>,
    pub organization_department: Option<String>,
    pub notes: Option<String>,
}

/// A dossier together with its documents, as it is shown.
#[derive(Debug, Clone)]
pub struct SubmissionResponse {
    pub id: Id,
    pub slug: String,
    pub submitter_name: String,
    pub submitter_email: Option<String>,
    pub organization: String,
    pub organization_department: Option<String>,
    pub status: SubmissionStatus,
    pub notes: Option<String>,
    pub created_at: Timestamp,
    pub updated_at: Timestamp,
    pub submitted_at: Option<Timestamp>,
    pub retention_expiry_date: Timestamp,
    pub documents: Vec<DocumentResponse>,
}

impl SubmissionResponse {
    /// The dossier shown with the given documents.
    pub fn new(submission: Submission, documents: Vec<DocumentResponse>) -> (r: Self)
        ensures
            r.id == submission.id,
            r.slug == submission.slug,
            r.submitter_name == submission.submitter_name,
            r.submitter_email == submission.submitter_email,
            r.organization == submission.organization,
            r.organization_department == submission.organization_department,
            r.status == submission.status,
            r.notes == submission.notes,
            r.created_at == submission.created_at,
            r.updated_at == submission.updated_at,
            r.submitted_at == submission.submitted_at,
            r.retention_expiry_date == submission.retention_expiry_date,
            r.documents == documents,
    {
        SubmissionResponse {
            id: submission.id,
            slug: submission.slug,
            submitter_name: submission.submitter_name,
            submitter_email: submission.submitter_email,
            organization: submission.organization,
            organization_department: submission.organization_department,
            status: submission.status,
            notes: submission.notes,
            created_at: submission.created_at,
            updated_at: submission.updated_at,
            submitted_at: submission.submitted_at,
            retention_expiry_date: submission.retention_expiry_date,
            documents,
        }
    }
}

// ---------------------------------------------------------------------------
// Document
// ---------------------------------------------------------------------------

/// A document as it is stored: either a link (`external_url`) or an uploaded
/// file (`filename` and the fields after it).
#[derive(Debug, Clone)]
pub struct Document {
    pub id: Id,
    pub submission_id: Id,
    pub category: DocumentCategory,
    pub classification: DocumentClassification,
    pub external_url: Option<String>,
    pub external_title: Option<String>,
    pub filename: Option<String>,
    pub original_filename: Option<String>,
    pub file_path: Option<String>,
    pub file_size: Option<i64>,
    pub mime_type: Option<String>,
    pub description: Option<String>,
    pub created_at: Timestamp,
}

/// What an applicant sends to add a link to a formal law.
#[derive(Debug, Clone)]
pub struct CreateFormalLaw {
    pub external_url: String,
    pub external_title: Option<String>,
    pub description: Option<String>,
}

/// A document as it is shown: the stored name and path stay inside.
#[derive(Debug, Clone)]
pub struct DocumentResponse {
    pub id: Id,
    pub category: DocumentCategory,
    pub classification: DocumentClassification,
    pub external_url: Option<String>,
    pub external_title: Option<String>,
    pub filename: Option<String>,
    pub file_size: Option<i64>,
    pub mime_type: Option<String>,
    pub description: Option<String>,
    pub created_at: Timestamp,
}

impl DocumentResponse {
    /// What is shown of the stored record.
    pub open spec fn shown(doc: Document) -> Self {
        DocumentResponse {
            id: doc.id,
            category: doc.category,
            classification: doc.classification,
            external_url: doc.external_url,
            external_title: doc.external_title,
            filename: doc.original_filename,
            file_size: doc.file_size,
            mime_type: doc.mime_type,
            description: doc.description,
            created_at: doc.created_at,
        }
    }
}

impl From<Document> for DocumentResponse {
    fn from(doc: Document) -> (r: Self) {
        DocumentResponse {
            id: doc.id,
            category: doc.category,
            classification: doc.classification,
            external_url: doc.external_url,
            external_title: doc.external_title,
            filename: doc.original_filename,
            file_size: doc.file_size,
            mime_type: doc.mime_type,
            description: doc.description,
            created_at: doc.created_at,
        }
    }
}

impl FromSpecImpl<Document> for DocumentResponse {
    open spec fn obeys_from_spec() -> bool {
        true
    }

    open spec fn from_spec(doc: Document) -> Self {
        DocumentResponse::shown(doc)
    }
}

// ---------------------------------------------------------------------------
// Administrators
// ---------------------------------------------------------------------------

/// An administrator's account as it is stored.
#[derive(Debug, Clone)]
pub struct AdminUser {
    pub id: Id,
    pub username: String,
    pub email: String,
    pub password_hash: String,
    pub display_name: Option<String>,
    pub is_active: bool,
    pub created_at: Timestamp,
    pub last_login_at: Option<Timestamp>,
}

/// An administrator's account as it is shown: without the password hash.
#[derive(Debug, Clone)]
pub struct AdminUserResponse {
    pub id: Id,
    pub username: String,
    pub email: String,
    pub display_name: Option<String>,
    pub is_active: bool,
    pub last_login_at: Option<Timestamp>,
}

impl AdminUserResponse {
    /// What is shown of the stored record.
    pub open spec fn shown(user: AdminUser) -> Self {
        AdminUserResponse {
            id: user.id,
            username: user.username,
            email: user.email,
            display_name: user.display_name,
            is_active: user.is_active,
            last_login_at: user.last_login_at,
        }
    }
}

impl From<AdminUser> for AdminUserResponse {
    fn from(user: AdminUser) -> (r: Self) {
        AdminUserResponse {
            id: user.id,
            username: user.username,
            email: user.email,
            display_name: user.display_name,
            is_active: user.is_active,
            last_login_at: user.last_login_at,
        }
    }
}

impl FromSpecImpl<AdminUser> for AdminUserResponse {
    open spec fn obeys_from_spec() -> bool {
        true
    }

    open spec fn from_spec(user: AdminUser) -> Self {
        AdminUserResponse::shown(user)
    }
}

/// What an administrator sends to log in.
#[derive(Debug, Clone)]
pub struct LoginRequest {
    pub username: String,
    pub password: String,
}

/// An administrator's session as it is stored: the token's hash, never the
/// token.
#[derive(Debug, Clone)]
pub struct AdminSession {
    pub id: Id,
    pub admin_user_id: Id,
    pub token_hash: String,
    pub expires_at: Timestamp,
    pub created_at: Timestamp,
    pub ip_address: Option<String>,
    pub user_agent: Option<String>,
}

// ---------------------------------------------------------------------------
// Uploaders
// ---------------------------------------------------------------------------

/// What a returning uploader sends to log in: the dossier's slug and the
/// e-mail address it was opened with.
#[derive(Debug, Clone)]
pub struct UploaderLoginRequest {
    pub slug: String,
    pub email: String,
}

/// An uploader's session as it is stored, bound to one dossier.
#[derive(Debug, Clone)]
pub struct UploaderSession {
    pub id: Id,
    pub submission_id: Id,
    pub email: String,
    pub token_hash: String,
    pub expires_at: Timestamp,
    pub created_at: Timestamp,
    pub ip_address: Option<String>,
    pub user_agent: Option<String>,
}

/// What an uploader is shown of the dossier: neither the submitter's name
/// nor the organization.
#[derive(Debug, Clone)]
pub struct UploaderSessionResponse {
    pub submission_id: Id,
    pub slug: String,
    pub status: SubmissionStatus,
    pub documents: Vec<DocumentResponse>,
    pub session_expires_at: Timestamp,
}

// ---------------------------------------------------------------------------
// Calendar
// ---------------------------------------------------------------------------

/// A meeting slot as it is stored.
#[derive(Debug, Clone)]
pub struct CalendarSlot {
    pub id: Id,
    pub slot_start: Timestamp,
    pub slot_end: Timestamp,
    pub is_available: bool,
    pub booked_by_submission: Option<Id>,
    pub created_by: Option<Id>,
    pub notes: Option<String>,
    pub created_at: Timestamp,
}

impl CalendarSlot {
    /// A slot is booked by a dossier exactly when it is not available.
    pub open spec fn well_formed(&self) -> bool {
        self.booked_by_submission is Some <==> !self.is_available
    }
}

/// What an administrator sends to offer a slot.
#[derive(Debug, Clone)]
pub struct CreateCalendarSlot {
    pub slot_start: Timestamp,
    pub slot_end: Timestamp,
    pub notes: Option<String>,
}

/// A meeting slot as it is shown.
#[derive(Debug, Clone)]
pub struct CalendarSlotResponse {
    pub id: Id,
    pub slot_start: Timestamp,
    pub slot_end: Timestamp,
    pub is_available: bool,
    pub booked_by_submission: Option<Id>,
    pub notes: Option<String>,
}

impl CalendarSlotResponse {
    /// What is shown of the stored record.
    pub open spec fn shown(slot: CalendarSlot) -> Self {
        CalendarSlotResponse {
            id: slot.id,
            slot_start: slot.slot_start,
            slot_end: slot.slot_end,
            is_available: slot.is_available,
            booked_by_submission: slot.booked_by_submission,
            notes: slot.notes,
        }
    }
}

impl From<CalendarSlot> for CalendarSlotResponse {
    fn from(slot: CalendarSlot) -> (r: Self) {
        CalendarSlotResponse {
            id: slot.id,
            slot_start: slot.slot_start,
            slot_end: slot.slot_end,
            is_available: slot.is_available,
            booked_by_submission: slot.booked_by_submission,
            notes: slot.notes,
        }
    }
}

impl FromSpecImpl<CalendarSlot> for CalendarSlotResponse {
    open spec fn obeys_from_spec() -> bool {
        true
    }

    open spec fn from_spec(slot: CalendarSlot) -> Self {
        CalendarSlotResponse::shown(slot)
    }
}

// ---------------------------------------------------------------------------
// Envelopes
// ---------------------------------------------------------------------------

/// The envelope of every answer: either the data or an error message.
#[derive(Debug)]
pub struct ApiResponse<T> {
    pub success: bool,
    pub data: Option<T>,
    pub error: Option<String>,
}

impl<T> ApiResponse<T> {
    /// The envelope of a successful answer.
    pub fn success(data: T) -> (r: Self)
        ensures
            r.success,
            r.data == Some(data),
            r.error is None,
            r.well_formed(),
    {
        ApiResponse { success: true, data: Some(data), error: None }
    }

    /// The envelope of a failure, with its message.
    pub fn error(message: &str) -> (r: Self)
        ensures
            !r.success,
            r.data is None,
            r.error matches Some(m) && m@ == message@,
            r.well_formed(),
    {
        ApiResponse { success: false, data: None, error: Some(message.to_owned()) }
    }

    /// An envelope holds data exactly when it reports success, and a message
    /// exactly when it does not.
    pub open spec fn well_formed(&self) -> bool {
        &&& self.success <==> self.data is Some
        &&& self.success <==> self.error is None
    }
}

/// One page of a list.
#[derive(Debug)]
pub struct PaginatedResponse<T> {
    pub items: Vec<T>,
    pub total: i64,
    pub page: i64,
    pub per_page: i64,
    pub total_pages: i64,
}

/// A question and its answer.
#[derive(Debug, Clone)]
pub struct FaqItem {
    pub question: String,
    pub answer: String,
}

} // verus!
