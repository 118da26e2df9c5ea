//! Applicants: opening a dossier, looking at it, editing and submitting it,
//! and adding and removing its documents.

use vstd::prelude::*;
use crate::documents::{
    joined, lemma_safe_name_is_kept, lemma_upload_path_is_accepted, needs_uploader_session,
    storage_filename, storage_name, submission_directory, upload_failure_message,
    upload_failure_summary, upload_path, upload_path_of, UploadPart,
};
use crate::handlers::uploader_auth::{
    session_dossier, session_lookup_begins, session_lookup_step, validate_uploader_session,
    validate_uploader_session_for_submission, validate_uploader_session_start, SessionLookup,
};
use crate::ids::{id_text, random_id};
use crate::lifecycle::{
    fallback_slug, fallback_slug_text, in_four_digit_years, slug_date, submitted,
};
use crate::models::{
    CreateFormalLaw, CreateSubmission, Document, DocumentCategory, DocumentClassification,
    DocumentResponse, FaqItem, Id, Submission, SubmissionResponse, SubmissionStatus, Timestamp,
    UpdateSubmission,
};
use crate::protocol::{
    as_text, copy_text, listed, show_documents, shown, Answer, AppState, Caller, Fetched,
    Inquiry, Outcome, Payload, Query, Step, StoredFile, BAD_REQUEST, CREATED,
    INTERNAL_SERVER_ERROR, NOT_FOUND, OK, TOO_MANY_REQUESTS, UNAUTHORIZED,
};
use crate::rate_limit::{
    allowed, check_rate_limit_with_max, client_ip, get_client_ip, MAX_SUBMISSION_ATTEMPTS,
};
use crate::text::{
    given, is_plain_text, lemma_lowercase_keeps_plain_text, lowercase, push_text, text_view,
    texts_of,
};
use crate::validation::{
    allowed_mime_types, create_submission_fault, extension_fault, external_url_fault,
    file_upload_fault, lemma_pdf_is_not_listed, lemma_php_is_named,
    lemma_request_of_jan_is_valid, lemma_single_dot_name, valid_slug, validate_classification_for_upload, validate_create_submission,
    validate_external_url, validate_file_upload, validate_filename_extensions, validate_slug,
    Fault,
};

verus! {

// ---------------------------------------------------------------------------
// May this request change the documents?
// ---------------------------------------------------------------------------

/// Whether a request may change a dossier's documents, as far as is known.
#[derive(Debug)]
pub enum Gate {
    /// It may.
    Open,
    /// It may not.
    Closed,
    /// That depends on the session in its cookie, which is being looked up.
    Asking { query: Query, lookup: SessionLookup },
}

/// What is known at first: a draft is open to whoever has its slug. For any
/// other dossier the session in the cookie decides, and without a token the
/// request may not.
pub open spec fn gate_begins(status: SubmissionStatus, cookie: Option<Seq<char>>, gate: Gate)
    -> bool {
    if status == SubmissionStatus::Draft {
        gate == Gate::Open
    } else {
        exists|step: Inquiry<SessionLookup, Option<(Submission, crate::models::UploaderSession)>>|
            {
                &&& session_lookup_begins(cookie, step)
                &&& match step {
                    Inquiry::Known(_) => gate == Gate::Closed,
                    Inquiry::Ask { query, next } => gate == (Gate::Asking { query, lookup: next }),
                }
            }
    }
}

/// What is known after an answer: the search goes on, or it ended and the
/// request may change the documents exactly if the session it found belongs
/// to this dossier.
pub open spec fn gate_step(lookup: SessionLookup, answer: Answer, submission_id: Id) -> Gate {
    match session_lookup_step(lookup, answer) {
        Inquiry::Ask { query, next } => Gate::Asking { query, lookup: next },
        Inquiry::Known(found) => if session_dossier(found) == Some(submission_id) {
            Gate::Open
        } else {
            Gate::Closed
        },
    }
}

/// Begins to find out whether a request may change a dossier's documents.
pub fn open_gate(status: SubmissionStatus, cookie: Option<&str>) -> (gate: Gate)
    ensures
        gate_begins(status, given(cookie), gate),
{
    if !needs_uploader_session(status) {
        return Gate::Open;
    }
    let step = validate_uploader_session_start(cookie);
    let ghost witness = step;
    match step {
        Inquiry::Known(_) => {
            proof {
                assert(session_lookup_begins(given(cookie), witness));
            }
            Gate::Closed
        },
        Inquiry::Ask { query, next } => {
            proof {
                assert(session_lookup_begins(given(cookie), witness));
            }
            Gate::Asking { query, lookup: next }
        },
    }
}

/// Goes on finding out whether a request may change a dossier's documents.
pub fn pass_gate(lookup: SessionLookup, answer: Answer, submission_id: Id) -> (gate: Gate)
    ensures
        gate == gate_step(lookup, answer, submission_id),
{
    match validate_uploader_session(lookup, answer) {
        Inquiry::Ask { query, next } => Gate::Asking { query, lookup: next },
        Inquiry::Known(found) => if validate_uploader_session_for_submission(&found, submission_id) {
            Gate::Open
        } else {
            Gate::Closed
        },
    }
}

// ---------------------------------------------------------------------------
// Opening a dossier
// ---------------------------------------------------------------------------

/// How far the opening of a dossier has come.
#[derive(Debug)]
pub enum CreateStage {
    /// The attempts of the address were asked for.
    Count { ip: String, input: CreateSubmission },
    /// This attempt was noted.
    Recorded { input: CreateSubmission },
    /// A slug was asked for.
    Slug { input: CreateSubmission },
    /// The draft was handed over to be stored.
    Insert,
}

/// Begins to open a dossier: the attempts of the caller's address are
/// counted first.
pub fn create_submission_start(state: &AppState, caller: &Caller, input: CreateSubmission) -> (step:
    Step<CreateStage>)
    ensures
        step matches Step::Ask {
            query: Query::CountAttempts { ip, endpoint },
            next: CreateStage::Count { ip: kept, input: held },
        } && ip@ == client_ip(
            text_view(caller.peer),
            text_view(caller.forwarded_for),
            text_view(caller.real_ip),
            texts_of(state.trusted_proxies@),
        ) && kept@ == ip@ && endpoint@ == "create_submission"@ && held == input,
{
    let ip = get_client_ip(
        as_text(&caller.peer),
        as_text(&caller.forwarded_for),
        as_text(&caller.real_ip),
        &state.trusted_proxies,
    );
    let kept = ip.clone();
    Step::Ask {
        query: Query::CountAttempts { ip, endpoint: "create_submission".to_owned() },
        next: CreateStage::Count { ip: kept, input },
    }
}

/// How the opening of a dossier goes on.
///
/// An address that has opened twenty dossiers within the hour is turned
/// away; a count that could not be had counts as none. Else the attempt is
/// noted, the fields are checked, a slug is asked for (and made here where
/// the database gives none, a valid one in the years 0000 to 9999), the
/// draft is stored and the opening is audited.
pub open spec fn create_submission_rule(
    stage: CreateStage,
    answer: Answer,
    now: Timestamp,
    step: Step<CreateStage>,
) -> bool {
    match stage {
        CreateStage::Count { ip, input } => {
            if allowed(answer.count(), MAX_SUBMISSION_ATTEMPTS) {
                &&& step matches Step::Ask {
                    query: Query::RecordAttempt { ip: noted, endpoint },
                    next: CreateStage::Recorded { input: held },
                }
                &&& noted == ip
                &&& endpoint@ == "create_submission"@
                &&& held == input
            } else {
                step.fails_with(
                    TOO_MANY_REQUESTS,
                    "Too many submissions. Please try again later."@,
                )
            }
        },
        CreateStage::Recorded { input } => match create_submission_fault(input) {
            Some(fault) => step.fails_with(BAD_REQUEST, fault.message()),
            None => step == (Step::Ask {
                query: Query::GenerateSlug,
                next: CreateStage::Slug { input },
            }),
        },
        CreateStage::Slug { input } => {
            &&& step matches Step::Ask {
                query: Query::InsertSubmission { slug, input: held },
                next: CreateStage::Insert,
            }
            &&& held == input
            &&& match answer.text() {
                Some(given) => slug == given,
                None => {
                    &&& exists|id: Id| slug@ == fallback_slug_text(slug_date(now), id)
                    &&& in_four_digit_years(now) ==> valid_slug(slug@)
                },
            }
        },
        CreateStage::Insert => match answer.submission() {
            Fetched::Found(submission) => step.succeeds_audited(
                CREATED,
                Payload::Submission(submission),
                "submission_created"@,
                "submission"@,
                Some(submission.id),
                "applicant"@,
                None,
            ),
            _ => step.fails_with(INTERNAL_SERVER_ERROR, "Failed to create submission"@),
        },
    }
}

/// The opening of a dossier from its first step to its last. A request that
/// breaks no rule, from an address that may still open dossiers, is noted,
/// gets a slug and is handed over to be stored as it came; the draft that the
/// database stored is the answer, with the status for something created.
/// The slug is the database's, or one made here, which is valid in the
/// years 0000 to 9999.
pub proof fn lemma_valid_request_opens_a_dossier(
    ip: String,
    input: CreateSubmission,
    now: Timestamp,
    counted: Answer,
    noted: Answer,
    named: Answer,
    draft: Submission,
    first: Step<CreateStage>,
    second: Step<CreateStage>,
    third: Step<CreateStage>,
    last: Step<CreateStage>,
)
    requires
        create_submission_fault(input) is None,
        allowed(counted.count(), MAX_SUBMISSION_ATTEMPTS),
        create_submission_rule(CreateStage::Count { ip, input }, counted, now, first),
        first matches Step::Ask { next, .. } ==> create_submission_rule(next, noted, now, second),
        second matches Step::Ask { next, .. } ==> create_submission_rule(next, named, now, third),
        third matches Step::Ask { next, .. } ==> create_submission_rule(
            next,
            Answer::Submission(Fetched::Found(draft)),
            now,
            last,
        ),
    ensures
        first matches Step::Ask { query: Query::RecordAttempt { .. }, .. },
        second matches Step::Ask { query: Query::GenerateSlug, .. },
        third matches Step::Ask { query: Query::InsertSubmission { slug, input: held }, .. }
            && held == input && (named.text() matches Some(given) ==> slug == given) && (
        named.text() is None && in_four_digit_years(now) ==> valid_slug(slug@)),
        last.succeeds_audited(
            CREATED,
            Payload::Submission(draft),
            "submission_created"@,
            "submission"@,
            Some(draft.id),
            "applicant"@,
            None,
        ),
{
}

/// A dossier from its opening to a refused change: the request of Jan of
/// Gemeente X opens a draft; the draft is submitted, which sets the moment of
/// submission; and a change to the submitted dossier ends with the conflict,
/// whatever it would have changed.
pub proof fn lemma_opened_submitted_and_frozen(
    ip: String,
    input: CreateSubmission,
    now: Timestamp,
    later: Timestamp,
    counted: Answer,
    noted: Answer,
    named: Answer,
    draft: Submission,
    changes: UpdateSubmission,
    first: Step<CreateStage>,
    second: Step<CreateStage>,
    third: Step<CreateStage>,
    opened: Step<CreateStage>,
    sent: Step<SubmitStage>,
    changed: Step<UpdateStage>,
)
    requires
        input.submitter_name@ == "Jan"@,
        input.organization@ == "Gemeente X"@,
        input.submitter_email is None,
        input.organization_department is None,
        allowed(counted.count(), MAX_SUBMISSION_ATTEMPTS),
        draft.status == SubmissionStatus::Draft,
        create_submission_rule(CreateStage::Count { ip, input }, counted, now, first),
        first matches Step::Ask { next, .. } ==> create_submission_rule(next, noted, now, second),
        second matches Step::Ask { next, .. } ==> create_submission_rule(next, named, now, third),
        third matches Step::Ask { next, .. } ==> create_submission_rule(
            next,
            Answer::Submission(Fetched::Found(draft)),
            now,
            opened,
        ),
        submit_submission_rule(
            SubmitStage::Submit,
            Answer::Submission(Fetched::Found(submitted(draft, later))),
            sent,
        ),
        update_submission_rule(
            UpdateStage::Find { slug: draft.slug, changes },
            Answer::Submission(Fetched::Found(submitted(draft, later))),
            changed,
        ),
    ensures
        opened matches Step::Finish(outcome) && outcome.carries(
            CREATED,
            Payload::Submission(draft),
        ),
        sent matches Step::Finish(outcome) && outcome.carries(
            OK,
            Payload::Submission(submitted(draft, later)),
        ),
        submitted(draft, later).status == SubmissionStatus::Submitted,
        submitted(draft, later).submitted_at == Some(later),
        changed.fails_with(BAD_REQUEST, "Cannot update submission that is not in draft status"@),
{
    lemma_request_of_jan_is_valid(input);
    lemma_valid_request_opens_a_dossier(
        ip,
        input,
        now,
        counted,
        noted,
        named,
        draft,
        first,
        second,
        third,
        opened,
    );
}

/// Goes on opening a dossier.
pub fn create_submission(stage: CreateStage, answer: Answer, now: Timestamp) -> (step: Step<
    CreateStage,
>)
    ensures
        create_submission_rule(stage, answer, now, step),
{
    match stage {
        CreateStage::Count { ip, input } => {
            if !check_rate_limit_with_max(answer.into_count(), MAX_SUBMISSION_ATTEMPTS) {
                return Step::fail(
                    TOO_MANY_REQUESTS,
                    "Too many submissions. Please try again later.",
                );
            }
            Step::Ask {
                query: Query::RecordAttempt { ip, endpoint: "create_submission".to_owned() },
                next: CreateStage::Recorded { input },
            }
        },
        CreateStage::Recorded { input } => {
            match validate_create_submission(&input) {
                Err(e) => {
                    let message = e.message();
                    Step::fail(BAD_REQUEST, message.as_str())
                },
                Ok(_) => Step::Ask { query: Query::GenerateSlug, next: CreateStage::Slug { input } },
            }
        },
        CreateStage::Slug { input } => {
            let slug = match answer.into_text() {
                Some(given) => given,
                None => {
                    let id = random_id();
                    fallback_slug(now, id)
                },
            };
            Step::Ask { query: Query::InsertSubmission { slug, input }, next: CreateStage::Insert }
        },
        CreateStage::Insert => match answer.into_submission() {
            Fetched::Found(submission) => {
                let id = submission.id;
                Step::succeed_audited(
                    CREATED,
                    Payload::Submission(submission),
                    "submission_created",
                    "submission",
                    Some(id),
                    "applicant",
                    None,
                )
            },
            _ => Step::fail(INTERNAL_SERVER_ERROR, "Failed to create submission"),
        },
    }
}

// ---------------------------------------------------------------------------
// Looking at a dossier
// ---------------------------------------------------------------------------

/// How far the showing of a dossier has come.
#[derive(Debug)]
pub enum ShowStage {
    /// The dossier was asked for.
    Find,
    /// The dossier was found and its documents were asked for.
    Documents { submission: Submission },
}

/// Begins to show a dossier: a text that is no slug is refused, else the
/// dossier is asked for.
pub fn get_submission_start(slug: &str) -> (step: Step<ShowStage>)
    ensures
        !valid_slug(slug@) ==> step.fails_with(BAD_REQUEST, Fault::InvalidSlug.message()),
        valid_slug(slug@) ==> (step matches Step::Ask {
            query: Query::SubmissionBySlug { slug: asked },
            next: ShowStage::Find,
        } && asked@ == slug@),
{
    match validate_slug(slug) {
        Err(e) => {
            let message = e.message();
            Step::fail(BAD_REQUEST, message.as_str())
        },
        Ok(_) => Step::Ask {
            query: Query::SubmissionBySlug { slug: slug.to_owned() },
            next: ShowStage::Find,
        },
    }
}

/// How the showing of a dossier goes on: a dossier that is found is shown
/// with its documents, and without any where they could not be had.
pub open spec fn get_submission_rule(stage: ShowStage, answer: Answer, step: Step<ShowStage>)
    -> bool {
    match stage {
        ShowStage::Find => match answer.submission() {
            Fetched::Found(submission) => step == (Step::Ask {
                query: Query::DocumentsOf { submission_id: submission.id },
                next: ShowStage::Documents { submission },
            }),
            Fetched::Missing => step.fails_with(NOT_FOUND, "Submission not found"@),
            Fetched::Failed => step.fails_with(INTERNAL_SERVER_ERROR, "Database error"@),
        },
        ShowStage::Documents { submission } => {
            &&& step matches Step::Finish(outcome)
            &&& outcome.succeeds_with(OK, outcome.body.data->0)
            &&& outcome.body.data matches Some(Payload::SubmissionDetail(detail))
            &&& shows(detail, submission, listed(answer.documents()))
        },
    }
}

/// The detail is the dossier with these documents as they are shown.
pub open spec fn shows(
    detail: SubmissionResponse,
    submission: Submission,
    documents: Seq<crate::models::Document>,
) -> bool {
    &&& detail.id == submission.id
    &&& detail.slug == submission.slug
    &&& detail.submitter_name == submission.submitter_name
    &&& detail.submitter_email == submission.submitter_email
    &&& detail.organization == submission.organization
    &&& detail.organization_department == submission.organization_department
    &&& detail.status == submission.status
    &&& detail.notes == submission.notes
    &&& detail.created_at == submission.created_at
    &&& detail.updated_at == submission.updated_at
    &&& detail.submitted_at == submission.submitted_at
    &&& detail.retention_expiry_date == submission.retention_expiry_date
    &&& detail.documents@ == shown(documents)
}

/// A dossier with the documents that a list came back with.
pub fn detail_of(submission: Submission, documents: Option<Vec<crate::models::Document>>) -> (detail:
    SubmissionResponse)
    ensures
        shows(detail, submission, listed(documents)),
{
    let documents = match documents {
        Some(items) => items,
        None => Vec::new(),
    };
    SubmissionResponse::new(submission, show_documents(documents))
}

/// Goes on showing a dossier.
pub fn get_submission(stage: ShowStage, answer: Answer) -> (step: Step<ShowStage>)
    ensures
        get_submission_rule(stage, answer, step),
{
    match stage {
        ShowStage::Find => match answer.into_submission() {
            Fetched::Found(submission) => Step::Ask {
                query: Query::DocumentsOf { submission_id: submission.id },
                next: ShowStage::Documents { submission },
            },
            Fetched::Missing => Step::fail(NOT_FOUND, "Submission not found"),
            Fetched::Failed => Step::fail(INTERNAL_SERVER_ERROR, "Database error"),
        },
        ShowStage::Documents { submission } => {
            let detail = detail_of(submission, answer.into_documents());
            Step::succeed(OK, Payload::SubmissionDetail(detail))
        },
    }
}

// ---------------------------------------------------------------------------
// Editing a dossier
// ---------------------------------------------------------------------------

/// How far the editing of a dossier has come.
#[derive(Debug)]
pub enum UpdateStage {
    /// The dossier was asked for.
    Find { slug: String, changes: UpdateSubmission },
    /// The changes were handed over to be stored.
    Update,
}

/// Begins to edit a dossier: a text that is no slug is refused, else the
/// dossier is asked for.
pub fn update_submission_start(slug: &str, changes: UpdateSubmission) -> (step: Step<UpdateStage>)
    ensures
        !valid_slug(slug@) ==> step.fails_with(BAD_REQUEST, Fault::InvalidSlug.message()),
        valid_slug(slug@) ==> (step matches Step::Ask {
            query: Query::SubmissionBySlug { slug: asked },
            next: UpdateStage::Find { slug: kept, changes: held },
        } && asked@ == slug@ && kept@ == slug@ && held == changes),
{
    match validate_slug(slug) {
        Err(e) => {
            let message = e.message();
            Step::fail(BAD_REQUEST, message.as_str())
        },
        Ok(_) => Step::Ask {
            query: Query::SubmissionBySlug { slug: slug.to_owned() },
            next: UpdateStage::Find { slug: slug.to_owned(), changes },
        },
    }
}

/// How the editing of a dossier goes on. A dossier that is no draft is not
/// edited, whatever the changes: the request ends with the conflict and no
/// change is handed over.
pub open spec fn update_submission_rule(stage: UpdateStage, answer: Answer, step: Step<UpdateStage>)
    -> bool {
    match stage {
        UpdateStage::Find { slug, changes } => match answer.submission() {
            Fetched::Found(submission) => if submission.status != SubmissionStatus::Draft {
                step.fails_with(
                    BAD_REQUEST,
                    "Cannot update submission that is not in draft status"@,
                )
            } else {
                step == (Step::Ask {
                    query: Query::UpdateSubmission { slug, changes },
                    next: UpdateStage::Update,
                })
            },
            Fetched::Missing => step.fails_with(NOT_FOUND, "Submission not found"@),
            Fetched::Failed => step.fails_with(INTERNAL_SERVER_ERROR, "Database error"@),
        },
        UpdateStage::Update => match answer.submission() {
            Fetched::Found(updated) => step.succeeds_audited(
                OK,
                Payload::Submission(updated),
                "submission_updated"@,
                "submission"@,
                Some(updated.id),
                "applicant"@,
                None,
            ),
            _ => step.fails_with(INTERNAL_SERVER_ERROR, "Failed to update submission"@),
        },
    }
}

/// Whatever the changes, the editing of a dossier that is found in another
/// status than draft ends with the conflict, and hands over nothing.
pub proof fn lemma_update_of_non_draft_is_conflict(
    slug: String,
    changes: UpdateSubmission,
    submission: Submission,
    step: Step<UpdateStage>,
)
    requires
        submission.status != SubmissionStatus::Draft,
        update_submission_rule(
            UpdateStage::Find { slug, changes },
            Answer::Submission(Fetched::Found(submission)),
            step,
        ),
    ensures
        step.fails_with(BAD_REQUEST, "Cannot update submission that is not in draft status"@),
        !(step is Ask),
{
}

/// Goes on editing a dossier.
pub fn update_submission(stage: UpdateStage, answer: Answer) -> (step: Step<UpdateStage>)
    ensures
        update_submission_rule(stage, answer, step),
{
    match stage {
        UpdateStage::Find { slug, changes } => match answer.into_submission() {
            Fetched::Found(submission) => {
                if needs_uploader_session(submission.status) {
                    return Step::fail(
                        BAD_REQUEST,
                        "Cannot update submission that is not in draft status",
                    );
                }
                Step::Ask {
                    query: Query::UpdateSubmission { slug, changes },
                    next: UpdateStage::Update,
                }
            },
            Fetched::Missing => Step::fail(NOT_FOUND, "Submission not found"),
            Fetched::Failed => Step::fail(INTERNAL_SERVER_ERROR, "Database error"),
        },
        UpdateStage::Update => match answer.into_submission() {
            Fetched::Found(updated) => {
                let id = updated.id;
                Step::succeed_audited(
                    OK,
                    Payload::Submission(updated),
                    "submission_updated",
                    "submission",
                    Some(id),
                    "applicant",
                    None,
                )
            },
            _ => Step::fail(INTERNAL_SERVER_ERROR, "Failed to update submission"),
        },
    }
}

// ---------------------------------------------------------------------------
// Submitting a dossier
// ---------------------------------------------------------------------------

/// How far the submitting of a dossier has come.
#[derive(Debug)]
pub enum SubmitStage {
    /// The guarded change from draft to submitted was asked for.
    Submit,
}

/// Begins to submit a dossier: a text that is no slug is refused, else the
/// change from draft to submitted is asked for as one guarded statement.
pub fn submit_submission_start(slug: &str) -> (step: Step<SubmitStage>)
    ensures
        !valid_slug(slug@) ==> step.fails_with(BAD_REQUEST, Fault::InvalidSlug.message()),
        valid_slug(slug@) ==> (step matches Step::Ask {
            query: Query::SubmitDraft { slug: asked },
            next: SubmitStage::Submit,
        } && asked@ == slug@),
{
    match validate_slug(slug) {
        Err(e) => {
            let message = e.message();
            Step::fail(BAD_REQUEST, message.as_str())
        },
        Ok(_) => Step::Ask {
            query: Query::SubmitDraft { slug: slug.to_owned() },
            next: SubmitStage::Submit,
        },
    }
}

/// How the submitting of a dossier ends: with the dossier where the change
/// applied, and else with the news that there is no such draft.
pub open spec fn submit_submission_rule(stage: SubmitStage, answer: Answer, step: Step<SubmitStage>)
    -> bool {
    match answer.submission() {
        Fetched::Found(submission) => step.succeeds_audited(
            OK,
            Payload::Submission(submission),
            "submission_submitted"@,
            "submission"@,
            Some(submission.id),
            "applicant"@,
            None,
        ),
        Fetched::Missing => step.fails_with(
            NOT_FOUND,
            "Submission not found or not in draft status"@,
        ),
        Fetched::Failed => step.fails_with(INTERNAL_SERVER_ERROR, "Failed to submit"@),
    }
}

/// Ends the submitting of a dossier.
pub fn submit_submission(stage: SubmitStage, answer: Answer) -> (step: Step<SubmitStage>)
    ensures
        submit_submission_rule(stage, answer, step),
{
    match answer.into_submission() {
        Fetched::Found(submission) => {
            let id = submission.id;
            Step::succeed_audited(
                OK,
                Payload::Submission(submission),
                "submission_submitted",
                "submission",
                Some(id),
                "applicant",
                None,
            )
        },
        Fetched::Missing => Step::fail(NOT_FOUND, "Submission not found or not in draft status"),
        Fetched::Failed => Step::fail(INTERNAL_SERVER_ERROR, "Failed to submit"),
    }
}

// ---------------------------------------------------------------------------
// Uploading a document
// ---------------------------------------------------------------------------

/// What an upload says of itself.
#[derive(Debug)]
pub struct UploadDocumentQuery {
    pub category: DocumentCategory,
    pub classification: DocumentClassification,
    pub description: Option<String>,
}

/// What is known of a file before it is written.
#[derive(Debug)]
pub struct PendingFile {
    pub id: Id,
    pub submission_id: Id,
    pub original_filename: String,
    pub content_type: String,
    pub size: usize,
    pub storage_filename: String,
}

/// How far an upload has come.
#[derive(Debug)]
pub enum UploadStage {
    /// The dossier was asked for.
    Find,
    /// The session in the cookie is being looked up.
    Session { submission_id: Id, lookup: SessionLookup },
    /// The file was asked for among the parts of the request.
    Field { submission_id: Id },
    /// The bytes of the file were asked for.
    Bytes { submission_id: Id, original_filename: String, content_type: String },
    /// The dossier's directory was asked for.
    Directory { file: PendingFile, directory: String },
    /// The file was handed over to be written.
    Write { file: StoredFile },
    /// The record of the file was handed over to be stored.
    Insert { path: String },
}

/// What a client is told whose document is restricted.
pub open spec fn restricted_message() -> Seq<char> {
    Fault::RestrictedDocument.message()
        + ". Documents marked as 'restricted' cannot be uploaded to this portal. Please only upload documents that may be used with AI tools."@
}

/// What a client is told who uploads a formal law.
pub open spec fn formal_law_message() -> Seq<char> {
    "Formal laws should be added as links, not file uploads. Use the /api/submissions/{slug}/formal-law endpoint instead."@
}

/// What a client is told who must log in before adding documents.
pub open spec fn login_to_add_message() -> Seq<char> {
    "Inloggen vereist om documenten toe te voegen aan een ingediende inzending."@
}

/// What a client is told who must log in before removing documents.
pub open spec fn login_to_remove_message() -> Seq<char> {
    "Inloggen vereist om documenten te verwijderen van een ingediende inzending."@
}

/// Why a document of this classification and category is not taken as a
/// file, if it is not: a restricted document never is, and a formal law is a
/// link.
pub open spec fn kind_refusal(
    classification: DocumentClassification,
    category: DocumentCategory,
) -> Option<Seq<char>> {
    if classification == DocumentClassification::Restricted {
        Some(restricted_message())
    } else if category == DocumentCategory::FormalLaw {
        Some(formal_law_message())
    } else {
        None
    }
}

fn refuse_kind(classification: DocumentClassification, category: DocumentCategory) -> (r: Option<
    String,
>)
    ensures
        text_view(r) == kind_refusal(classification, category),
{
    match validate_classification_for_upload(classification) {
        Err(_) => {
            let mut message = String::new();
            push_text(&mut message, "Restricted documents cannot be uploaded");
            push_text(
                &mut message,
                ". Documents marked as 'restricted' cannot be uploaded to this portal. Please only upload documents that may be used with AI tools.",
            );
            return Some(message);
        },
        Ok(_) => {},
    }
    match category {
        DocumentCategory::FormalLaw => Some(
            "Formal laws should be added as links, not file uploads. Use the /api/submissions/{slug}/formal-law endpoint instead.".to_owned(),
        ),
        _ => None,
    }
}

/// How an upload begins. Before anything is looked up, a text that is no
/// slug, a restricted document and a formal law are refused, in this order:
/// nothing restricted enters storage, and a formal law is a link, never a
/// file.
pub open spec fn upload_document_begins(
    slug: Seq<char>,
    query: UploadDocumentQuery,
    step: Step<UploadStage>,
) -> bool {
    if !valid_slug(slug) {
        step.fails_with(BAD_REQUEST, Fault::InvalidSlug.message())
    } else {
        match kind_refusal(query.classification, query.category) {
            Some(message) => step.fails_with(BAD_REQUEST, message),
            None => step matches Step::Ask {
                query: Query::SubmissionBySlug { slug: asked },
                next: UploadStage::Find,
            } && asked@ == slug,
        }
    }
}

/// Begins an upload.
pub fn upload_document_start(slug: &str, query: &UploadDocumentQuery) -> (step: Step<UploadStage>)
    ensures
        upload_document_begins(slug@, *query, step),
{
    match validate_slug(slug) {
        Err(e) => {
            let message = e.message();
            return Step::fail(BAD_REQUEST, message.as_str());
        },
        Ok(_) => {},
    }
    match refuse_kind(query.classification, query.category) {
        Some(message) => {
            return Step::fail(BAD_REQUEST, message.as_str());
        },
        None => {},
    }
    Step::Ask { query: Query::SubmissionBySlug { slug: slug.to_owned() }, next: UploadStage::Find }
}

/// What an upload does once it is known whether the request may add
/// documents: it asks for the file, or ends unauthorized, or goes on looking
/// up the session.
pub open spec fn upload_after_gate(gate: Gate, submission_id: Id, step: Step<UploadStage>) -> bool {
    match gate {
        Gate::Open => step == (Step::Ask {
            query: Query::NextUploadField,
            next: UploadStage::Field { submission_id },
        }),
        Gate::Closed => step.fails_with(UNAUTHORIZED, login_to_add_message()),
        Gate::Asking { query, lookup } => step == (Step::Ask {
            query,
            next: UploadStage::Session { submission_id, lookup },
        }),
    }
}

fn upload_through_gate(gate: Gate, submission_id: Id) -> (step: Step<UploadStage>)
    ensures
        upload_after_gate(gate, submission_id, step),
{
    match gate {
        Gate::Open => Step::Ask {
            query: Query::NextUploadField,
            next: UploadStage::Field { submission_id },
        },
        Gate::Closed => Step::fail(
            UNAUTHORIZED,
            "Inloggen vereist om documenten toe te voegen aan een ingediende inzending.",
        ),
        Gate::Asking { query, lookup } => Step::Ask {
            query,
            next: UploadStage::Session { submission_id, lookup },
        },
    }
}

/// A text given, else the default.
pub open spec fn text_or(given: Option<String>, default: Seq<char>) -> Seq<char> {
    match given {
        Some(t) => t@,
        None => default,
    }
}

fn owned_or(given: Option<String>, default: &str) -> (r: String)
    ensures
        r@ == text_or(given, default@),
{
    match given {
        Some(t) => t,
        None => default.to_owned(),
    }
}

/// The size of a file as it is stored: the number of bytes, and the largest
/// number that can be stored where there are more.
pub open spec fn stored_size(size: usize) -> i64 {
    if size > i64::MAX {
        i64::MAX
    } else {
        size as i64
    }
}

/// The first rule that a file breaks, if any: its size, its declared media
/// type, the extensions in its name.
pub open spec fn upload_fault(
    content_type: Seq<char>,
    size: usize,
    max_upload_size: usize,
    original_filename: Seq<char>,
) -> Option<Fault> {
    match file_upload_fault(content_type, size, max_upload_size) {
        Some(fault) => Some(fault),
        None => extension_fault(lowercase(original_filename)),
    }
}

/// What is told when an operation on a file failed: what was tried, the
/// failure's sentence, and its kind in brackets.
pub open spec fn io_failure_message(what: Seq<char>, failure: (Seq<char>, Seq<char>)) -> Seq<char> {
    what + failure.0 + " ("@ + failure.1 + ")"@
}

fn io_failure_reply<S>(what: &str, failure: &crate::protocol::IoFailure) -> (step: Step<S>)
    ensures
        step.fails_with(
            INTERNAL_SERVER_ERROR,
            io_failure_message(what@, (failure.message@, failure.kind@)),
        ),
{
    let mut message = String::new();
    push_text(&mut message, what);
    push_text(&mut message, failure.message.as_str());
    push_text(&mut message, " (");
    push_text(&mut message, failure.kind.as_str());
    push_text(&mut message, ")");
    proof {
        assert(message@ =~= io_failure_message(what@, (failure.message@, failure.kind@)));
    }
    Step::fail(INTERNAL_SERVER_ERROR, message.as_str())
}

/// The record of a file that is about to be written.
pub open spec fn records_file(
    stored: StoredFile,
    file: PendingFile,
    query: UploadDocumentQuery,
    path: String,
) -> bool {
    &&& stored.id == file.id
    &&& stored.submission_id == file.submission_id
    &&& stored.category == query.category
    &&& stored.classification == query.classification
    &&& stored.filename == file.storage_filename
    &&& stored.original_filename == file.original_filename
    &&& stored.file_path == path
    &&& stored.file_size == stored_size(file.size)
    &&& stored.mime_type == file.content_type
    &&& stored.description == query.description
}

/// How an upload goes on.
///
/// The dossier must exist. A draft takes documents from whoever has its
/// slug; any other dossier only from an uploader logged in to it. The file
/// must be among the parts of the request, must not exceed the size limit,
/// must declare an allowed media type and must carry no dangerous extension.
/// It is stored under a fresh identifier and its sanitized name, in the
/// dossier's directory, and only where the path lies under the upload root.
/// A restricted document and a formal law are refused again before the file
/// is written, so that neither is ever handed over to be written. The record
/// is stored last, and never for a restricted document or a formal law.
/// Where the record is refused or cannot be stored, the file that was
/// written is removed again.
pub open spec fn upload_document_rule(
    state: AppState,
    caller: Caller,
    slug: Seq<char>,
    query: UploadDocumentQuery,
    stage: UploadStage,
    answer: Answer,
    step: Step<UploadStage>,
) -> bool {
    match stage {
        UploadStage::Find => match answer.submission() {
            Fetched::Found(submission) => exists|gate: Gate|
                {
                    &&& gate_begins(submission.status, text_view(caller.cookie), gate)
                    &&& upload_after_gate(gate, submission.id, step)
                },
            _ => step.fails_with(NOT_FOUND, "Submission not found"@),
        },
        UploadStage::Session { submission_id, lookup } => upload_after_gate(
            gate_step(lookup, answer, submission_id),
            submission_id,
            step,
        ),
        UploadStage::Field { submission_id } => match answer.field() {
            Ok(Some(part)) => {
                &&& step matches Step::Ask {
                    query: Query::ReadUploadBytes,
                    next: UploadStage::Bytes { submission_id: kept, original_filename, content_type },
                }
                &&& kept == submission_id
                &&& original_filename@ == text_or(part.file_name, "unknown"@)
                &&& content_type@ == text_or(part.content_type, "application/octet-stream"@)
            },
            Ok(None) => step.fails_with(BAD_REQUEST, "No file provided"@),
            Err(detail) => step.fails_with(
                BAD_REQUEST,
                upload_failure_summary(UploadPart::Field, detail) + " ("@ + detail + ")"@,
            ),
        },
        UploadStage::Bytes { submission_id, original_filename, content_type } => match answer.size() {
            Ok(size) => match upload_fault(
                content_type@,
                size,
                state.max_upload_size,
                original_filename@,
            ) {
                Some(fault) => step.fails_with(BAD_REQUEST, fault.message()),
                None => {
                    &&& step matches Step::Ask {
                        query: Query::CreateDirectory { path },
                        next: UploadStage::Directory { file, directory },
                    }
                    &&& path == directory
                    &&& directory@ == joined(state.upload_dir@, slug)
                    &&& file.submission_id == submission_id
                    &&& file.original_filename == original_filename
                    &&& file.content_type == content_type
                    &&& file.size == size
                    &&& file.storage_filename@ == storage_name(file.id, original_filename@)
                },
            },
            Err(detail) => step.fails_with(
                BAD_REQUEST,
                upload_failure_summary(UploadPart::Bytes, detail) + " ("@ + detail + ")"@,
            ),
        },
        UploadStage::Directory { file, directory } => match kind_refusal(
            query.classification,
            query.category,
        ) {
            Some(message) => step.fails_with(BAD_REQUEST, message),
            None => match answer.io_failure() {
                None => match upload_path_of(
                    state.upload_dir@,
                    directory@,
                    file.storage_filename@,
                ) {
                    None => step.fails_with(BAD_REQUEST, "Invalid filename"@),
                    Some(target) => {
                        &&& step matches Step::Ask {
                            query: Query::WriteUpload { path },
                            next: UploadStage::Write { file: stored },
                        }
                        &&& path@ == target
                        &&& records_file(stored, file, query, path)
                    },
                },
                Some(failure) => step.fails_with(
                    INTERNAL_SERVER_ERROR,
                    io_failure_message("Failed to create storage directory: "@, failure),
                ),
            },
        },
        UploadStage::Write { file } => match answer.io_failure() {
            None => match kind_refusal(file.classification, file.category) {
                Some(message) => {
                    &&& step matches Step::Finish(outcome)
                    &&& outcome.reports(BAD_REQUEST, message)
                    &&& outcome.set_cookie is None
                    &&& outcome.attachment is None
                    &&& outcome.effects@ == seq![Query::RemoveFile { path: file.file_path }]
                },
                None => step == (Step::Ask {
                    query: Query::InsertFile { file },
                    next: UploadStage::Insert { path: file.file_path },
                }),
            },
            Some(failure) => step.fails_with(
                INTERNAL_SERVER_ERROR,
                io_failure_message("Failed to write file: "@, failure),
            ),
        },
        UploadStage::Insert { path } => match answer.document() {
            Fetched::Found(document) => step.succeeds_audited(
                CREATED,
                Payload::Document(DocumentResponse::shown(document)),
                "document_uploaded"@,
                "document"@,
                Some(document.id),
                "applicant"@,
                None,
            ),
            _ => {
                &&& step matches Step::Finish(outcome)
                &&& outcome.reports(
                    INTERNAL_SERVER_ERROR,
                    "Failed to store document. Please try again."@,
                )
                &&& outcome.set_cookie is None
                &&& outcome.attachment is None
                &&& outcome.effects@ == seq![Query::RemoveFile { path }]
            },
        },
    }
}

/// A portable document named `report.pdf` that is no larger than the limit
/// breaks no rule, and is stored under its own name behind the identifier.
pub proof fn lemma_report_breaks_no_rule(size: usize, max_upload_size: usize, doc_id: Id)
    requires
        size <= max_upload_size,
    ensures
        upload_fault("application/pdf"@, size, max_upload_size, "report.pdf"@) is None,
        storage_name(doc_id, "report.pdf"@) == id_text(doc_id) + "_report.pdf"@,
{
    let name = "report.pdf"@;
    reveal_strlit("report.pdf");
    reveal_strlit("_report.pdf");
    reveal_strlit(".pdf");
    assert(allowed_mime_types()[0] == "application/pdf"@);
    assert(allowed_mime_types().contains("application/pdf"@));
    assert(is_plain_text(name));
    lemma_lowercase_keeps_plain_text(name);
    lemma_pdf_is_not_listed();
    assert(name.subrange(6, 10) =~= ".pdf"@);
    lemma_single_dot_name(name, 6);
    lemma_safe_name_is_kept(name);
    assert(id_text(doc_id) + seq!['_'] + name =~= id_text(doc_id) + "_report.pdf"@);
}

/// An upload from the reading of the file to the stored record. For a
/// dossier with a valid slug, a file that breaks no rule gets the dossier's
/// directory made, is written to the upload root, the slug and the stored
/// name, one after the other, and is recorded with what the request said of
/// it; the record that the database stored is the answer, with the status for
/// something created. No path is ever refused on the way.
pub proof fn lemma_fitting_file_is_stored(
    state: AppState,
    caller: Caller,
    slug: Seq<char>,
    query: UploadDocumentQuery,
    submission_id: Id,
    original_filename: String,
    content_type: String,
    size: usize,
    read: Answer,
    made: Answer,
    wrote: Answer,
    document: Document,
    first: Step<UploadStage>,
    second: Step<UploadStage>,
    third: Step<UploadStage>,
    last: Step<UploadStage>,
)
    requires
        valid_slug(slug),
        query.classification != DocumentClassification::Restricted,
        query.category != DocumentCategory::FormalLaw,
        read.size() == Ok::<usize, Seq<char>>(size),
        upload_fault(content_type@, size, state.max_upload_size, original_filename@) is None,
        made.io_failure() is None,
        wrote.io_failure() is None,
        upload_document_rule(
            state,
            caller,
            slug,
            query,
            UploadStage::Bytes { submission_id, original_filename, content_type },
            read,
            first,
        ),
        first matches Step::Ask { next, .. } ==> upload_document_rule(
            state,
            caller,
            slug,
            query,
            next,
            made,
            second,
        ),
        second matches Step::Ask { next, .. } ==> upload_document_rule(
            state,
            caller,
            slug,
            query,
            next,
            wrote,
            third,
        ),
        third matches Step::Ask { next, .. } ==> upload_document_rule(
            state,
            caller,
            slug,
            query,
            next,
            Answer::Document(Fetched::Found(document)),
            last,
        ),
    ensures
        first matches Step::Ask { query: Query::CreateDirectory { path }, .. } && path@ == joined(
            state.upload_dir@,
            slug,
        ),
        second matches Step::Ask {
            query: Query::WriteUpload { path },
            next: UploadStage::Write { file },
        } && path@ == joined(state.upload_dir@, slug) + seq!['/'] + storage_name(
            file.id,
            original_filename@,
        ) && file.file_path == path && file.filename@ == storage_name(file.id, original_filename@)
            && file.submission_id == submission_id && file.original_filename == original_filename
            && file.mime_type == content_type && file.file_size == stored_size(size)
            && file.category == query.category && file.classification == query.classification,
        third matches Step::Ask { query: Query::InsertFile { file }, .. } && (second matches Step::Ask {
            next: UploadStage::Write { file: written },
            ..
        } && file == written),
        last.succeeds_audited(
            CREATED,
            Payload::Document(DocumentResponse::shown(document)),
            "document_uploaded"@,
            "document"@,
            Some(document.id),
            "applicant"@,
            None,
        ),
{
    match first {
        Step::Ask { next: UploadStage::Directory { file, directory }, .. } => {
            lemma_upload_path_is_accepted(state.upload_dir@, slug, file.id, original_filename@);
        },
        _ => {},
    }
}

/// The name `malware.php` ends with `.php` once it is in lower case, which
/// it is as it stands.
pub proof fn lemma_malware_is_php()
    ensures
        lowercase("malware.php"@) == "malware.php"@,
        ".php"@.is_suffix_of(lowercase("malware.php"@)),
{
    reveal_strlit("malware.php");
    reveal_strlit(".php");
    assert(is_plain_text("malware.php"@));
    lemma_lowercase_keeps_plain_text("malware.php"@);
    assert("malware.php"@.subrange(7, 11) =~= ".php"@);
}

/// A file whose name ends with `.php` once it is in lower case is never
/// taken: the upload ends with a bad request whatever the declared media
/// type, nothing is written and nothing recorded. Where the size and the
/// media type break no rule, the answer names the extension.
pub proof fn lemma_php_is_refused(
    state: AppState,
    caller: Caller,
    slug: Seq<char>,
    query: UploadDocumentQuery,
    submission_id: Id,
    original_filename: String,
    content_type: String,
    size: usize,
    read: Answer,
    step: Step<UploadStage>,
)
    requires
        ".php"@.is_suffix_of(lowercase(original_filename@)),
        read.size() == Ok::<usize, Seq<char>>(size),
        upload_document_rule(
            state,
            caller,
            slug,
            query,
            UploadStage::Bytes { submission_id, original_filename, content_type },
            read,
            step,
        ),
    ensures
        step matches Step::Finish(outcome) && outcome.status == BAD_REQUEST
            && !outcome.body.success && outcome.effects@.len() == 0,
        file_upload_fault(content_type@, size, state.max_upload_size) is None ==> step.fails_with(
            BAD_REQUEST,
            "Invalid file type: filename contains dangerous extension: .php"@,
        ),
{
    lemma_php_is_named(lowercase(original_filename@));
    reveal_strlit("Invalid file type: ");
    reveal_strlit("filename contains dangerous extension: .php");
    reveal_strlit("Invalid file type: filename contains dangerous extension: .php");
    assert("Invalid file type: "@ + "filename contains dangerous extension: .php"@
        =~= "Invalid file type: filename contains dangerous extension: .php"@);
}

/// Goes on with an upload.
pub fn upload_document(
    state: &AppState,
    caller: &Caller,
    slug: &str,
    query: &UploadDocumentQuery,
    stage: UploadStage,
    answer: Answer,
) -> (step: Step<UploadStage>)
    ensures
        upload_document_rule(*state, *caller, slug@, *query, stage, answer, step),
{
    match stage {
        UploadStage::Find => match answer.into_submission() {
            Fetched::Found(submission) => {
                let gate = open_gate(submission.status, as_text(&caller.cookie));
                upload_through_gate(gate, submission.id)
            },
            _ => Step::fail(NOT_FOUND, "Submission not found"),
        },
        UploadStage::Session { submission_id, lookup } => {
            let gate = pass_gate(lookup, answer, submission_id);
            upload_through_gate(gate, submission_id)
        },
        UploadStage::Field { submission_id } => match answer.into_field() {
            Ok(Some(part)) => {
                let original_filename = owned_or(part.file_name, "unknown");
                let content_type = owned_or(part.content_type, "application/octet-stream");
                Step::Ask {
                    query: Query::ReadUploadBytes,
                    next: UploadStage::Bytes { submission_id, original_filename, content_type },
                }
            },
            Ok(None) => Step::fail(BAD_REQUEST, "No file provided"),
            Err(detail) => {
                let message = upload_failure_message(UploadPart::Field, detail.as_str());
                Step::fail(BAD_REQUEST, message.as_str())
            },
        },
        UploadStage::Bytes { submission_id, original_filename, content_type } => {
            match answer.into_size() {
                Ok(size) => {
                    match validate_file_upload(content_type.as_str(), size, state.max_upload_size) {
                        Err(e) => {
                            let message = e.message();
                            return Step::fail(BAD_REQUEST, message.as_str());
                        },
                        Ok(_) => {},
                    }
                    match validate_filename_extensions(original_filename.as_str()) {
                        Err(e) => {
                            let message = e.message();
                            return Step::fail(BAD_REQUEST, message.as_str());
                        },
                        Ok(_) => {},
                    }
                    let id = random_id();
                    let storage_filename = storage_filename(id, original_filename.as_str());
                    let directory = submission_directory(state.upload_dir.as_str(), slug);
                    let path = directory.clone();
                    Step::Ask {
                        query: Query::CreateDirectory { path },
                        next: UploadStage::Directory {
                            file: PendingFile {
                                id,
                                submission_id,
                                original_filename,
                                content_type,
                                size,
                                storage_filename,
                            },
                            directory,
                        },
                    }
                },
                Err(detail) => {
                    let message = upload_failure_message(UploadPart::Bytes, detail.as_str());
                    Step::fail(BAD_REQUEST, message.as_str())
                },
            }
        },
        UploadStage::Directory { file, directory } => {
            match refuse_kind(query.classification, query.category) {
                Some(message) => {
                    return Step::fail(BAD_REQUEST, message.as_str());
                },
                None => {},
            }
            match answer.into_io_failure() {
                None => {
                    match upload_path(
                        state.upload_dir.as_str(),
                        directory.as_str(),
                        file.storage_filename.as_str(),
                    ) {
                        None => Step::fail(BAD_REQUEST, "Invalid filename"),
                        Some(path) => {
                            let file_size: i64 = if (file.size as u64) > 0x7fff_ffff_ffff_ffffu64 {
                                0x7fff_ffff_ffff_ffff
                            } else {
                                file.size as i64
                            };
                            let stored = StoredFile {
                                id: file.id,
                                submission_id: file.submission_id,
                                category: query.category,
                                classification: query.classification,
                                filename: file.storage_filename,
                                original_filename: file.original_filename,
                                file_path: path.clone(),
                                file_size,
                                mime_type: file.content_type,
                                description: copy_text(&query.description),
                            };
                            Step::Ask {
                                query: Query::WriteUpload { path },
                                next: UploadStage::Write { file: stored },
                            }
                        },
                    }
                },
                Some(failure) => io_failure_reply("Failed to create storage directory: ", &failure),
            }
        },
        UploadStage::Write { file } => match answer.into_io_failure() {
            None => {
                match refuse_kind(file.classification, file.category) {
                    Some(message) => {
                        let path = file.file_path;
                        let outcome = Outcome::failure(BAD_REQUEST, message.as_str()).and_then(
                            Query::RemoveFile { path },
                        );
                        proof {
                            assert(outcome.effects@ =~= seq![Query::RemoveFile { path }]);
                        }
                        return Step::Finish(outcome);
                    },
                    None => {},
                }
                let path = file.file_path.clone();
                Step::Ask { query: Query::InsertFile { file }, next: UploadStage::Insert { path } }
            },
            Some(failure) => io_failure_reply("Failed to write file: ", &failure),
        },
        UploadStage::Insert { path } => match answer.into_document() {
            Fetched::Found(document) => {
                let id = document.id;
                Step::succeed_audited(
                    CREATED,
                    Payload::Document(DocumentResponse::from(document)),
                    "document_uploaded",
                    "document",
                    Some(id),
                    "applicant",
                    None,
                )
            },
            _ => {
                let outcome = Outcome::failure(
                    INTERNAL_SERVER_ERROR,
                    "Failed to store document. Please try again.",
                ).and_then(Query::RemoveFile { path });
                proof {
                    assert(outcome.effects@ =~= seq![Query::RemoveFile { path }]);
                }
                Step::Finish(outcome)
            },
        },
    }
}

/// No upload ever hands over the record of a restricted document or of a
/// formal law to be stored, whatever state it is resumed in and whatever it
/// is answered.
pub proof fn lemma_upload_never_stores_restricted(
    state: AppState,
    caller: Caller,
    slug: Seq<char>,
    query: UploadDocumentQuery,
    stage: UploadStage,
    answer: Answer,
    step: Step<UploadStage>,
)
    requires
        upload_document_rule(state, caller, slug, query, stage, answer, step),
    ensures
        step matches Step::Ask { query: Query::InsertFile { file }, .. } ==> file.classification
            != DocumentClassification::Restricted && file.category != DocumentCategory::FormalLaw,
{
    match stage {
        UploadStage::Find => {
            if let Fetched::Found(submission) = answer.submission() {
                let gate = choose|gate: Gate|
                    {
                        &&& gate_begins(submission.status, text_view(caller.cookie), gate)
                        &&& upload_after_gate(gate, submission.id, step)
                    };
                lemma_gate_asks_for_sessions(submission.status, text_view(caller.cookie), gate);
            }
        },
        UploadStage::Session { submission_id, lookup } => {},
        _ => {},
    }
}

/// No upload ever hands over a restricted document or a formal law to be
/// written to disk, whatever state it is resumed in and whatever it is
/// answered.
pub proof fn lemma_upload_never_writes_restricted(
    state: AppState,
    caller: Caller,
    slug: Seq<char>,
    query: UploadDocumentQuery,
    stage: UploadStage,
    answer: Answer,
    step: Step<UploadStage>,
)
    requires
        upload_document_rule(state, caller, slug, query, stage, answer, step),
    ensures
        step matches Step::Ask { query: Query::WriteUpload { .. }, next } ==> (next matches UploadStage::Write {
            file,
        } && file.classification != DocumentClassification::Restricted && file.category
            != DocumentCategory::FormalLaw),
{
    match stage {
        UploadStage::Find => {
            if let Fetched::Found(submission) = answer.submission() {
                let gate = choose|gate: Gate|
                    {
                        &&& gate_begins(submission.status, text_view(caller.cookie), gate)
                        &&& upload_after_gate(gate, submission.id, step)
                    };
                lemma_gate_asks_for_sessions(submission.status, text_view(caller.cookie), gate);
            }
        },
        _ => {},
    }
}

/// The first lookup on behalf of a request that must prove its session is
/// the lookup of an uploader's session.
pub proof fn lemma_gate_asks_for_sessions(
    status: SubmissionStatus,
    cookie: Option<Seq<char>>,
    gate: Gate,
)
    requires
        gate_begins(status, cookie, gate),
    ensures
        gate matches Gate::Asking { query, .. } ==> query is UploaderSessionByHash,
{
}

// ---------------------------------------------------------------------------
// Adding a link to a formal law
// ---------------------------------------------------------------------------

/// How far the adding of a link has come.
#[derive(Debug)]
pub enum FormalLawStage {
    /// The dossier was asked for.
    Find { input: CreateFormalLaw },
    /// The session in the cookie is being looked up.
    Session { submission_id: Id, lookup: SessionLookup, input: CreateFormalLaw },
    /// The link was handed over to be stored.
    Insert,
}

/// How the adding of a link begins: a text that is no slug and a link that
/// breaks a rule are refused, else the dossier is asked for.
pub open spec fn add_formal_law_begins(
    slug: Seq<char>,
    input: CreateFormalLaw,
    step: Step<FormalLawStage>,
) -> bool {
    if !valid_slug(slug) {
        step.fails_with(BAD_REQUEST, Fault::InvalidSlug.message())
    } else {
        match external_url_fault(input.external_url@) {
            Some(fault) => step.fails_with(BAD_REQUEST, fault.message()),
            None => step matches Step::Ask {
                query: Query::SubmissionBySlug { slug: asked },
                next: FormalLawStage::Find { input: held },
            } && asked@ == slug && held == input,
        }
    }
}

/// Begins to add a link to a formal law.
pub fn add_formal_law_start(slug: &str, input: CreateFormalLaw) -> (step: Step<FormalLawStage>)
    ensures
        add_formal_law_begins(slug@, input, step),
{
    match validate_slug(slug) {
        Err(e) => {
            let message = e.message();
            return Step::fail(BAD_REQUEST, message.as_str());
        },
        Ok(_) => {},
    }
    match validate_external_url(input.external_url.as_str()) {
        Err(e) => {
            let message = e.message();
            return Step::fail(BAD_REQUEST, message.as_str());
        },
        Ok(_) => {},
    }
    Step::Ask {
        query: Query::SubmissionBySlug { slug: slug.to_owned() },
        next: FormalLawStage::Find { input },
    }
}

/// What the adding of a link does once it is known whether the request may
/// add documents.
pub open spec fn formal_law_after_gate(
    gate: Gate,
    submission_id: Id,
    input: CreateFormalLaw,
    step: Step<FormalLawStage>,
) -> bool {
    match gate {
        Gate::Open => step == (Step::Ask {
            query: Query::InsertLink {
                submission_id,
                category: DocumentCategory::FormalLaw,
                classification: DocumentClassification::Public,
                external_url: input.external_url,
                external_title: input.external_title,
                description: input.description,
            },
            next: FormalLawStage::Insert,
        }),
        Gate::Closed => step.fails_with(UNAUTHORIZED, login_to_add_message()),
        Gate::Asking { query, lookup } => step == (Step::Ask {
            query,
            next: FormalLawStage::Session { submission_id, lookup, input },
        }),
    }
}

fn formal_law_through_gate(gate: Gate, submission_id: Id, input: CreateFormalLaw) -> (step: Step<
    FormalLawStage,
>)
    ensures
        formal_law_after_gate(gate, submission_id, input, step),
{
    match gate {
        Gate::Open => Step::Ask {
            query: Query::InsertLink {
                submission_id,
                category: DocumentCategory::FormalLaw,
                classification: DocumentClassification::Public,
                external_url: input.external_url,
                external_title: input.external_title,
                description: input.description,
            },
            next: FormalLawStage::Insert,
        },
        Gate::Closed => Step::fail(
            UNAUTHORIZED,
            "Inloggen vereist om documenten toe te voegen aan een ingediende inzending.",
        ),
        Gate::Asking { query, lookup } => Step::Ask {
            query,
            next: FormalLawStage::Session { submission_id, lookup, input },
        },
    }
}

/// How the adding of a link goes on. The dossier must exist, and the request
/// must be allowed to add documents to it. The link is handed over to be
/// stored as a public formal law, whatever the request holds.
pub open spec fn add_formal_law_rule(
    caller: Caller,
    stage: FormalLawStage,
    answer: Answer,
    step: Step<FormalLawStage>,
) -> bool {
    match stage {
        FormalLawStage::Find { input } => match answer.submission() {
            Fetched::Found(submission) => exists|gate: Gate|
                {
                    &&& gate_begins(submission.status, text_view(caller.cookie), gate)
                    &&& formal_law_after_gate(gate, submission.id, input, step)
                },
            _ => step.fails_with(NOT_FOUND, "Submission not found"@),
        },
        FormalLawStage::Session { submission_id, lookup, input } => formal_law_after_gate(
            gate_step(lookup, answer, submission_id),
            submission_id,
            input,
            step,
        ),
        FormalLawStage::Insert => match answer.document() {
            Fetched::Found(document) => step.succeeds_audited(
                CREATED,
                Payload::Document(DocumentResponse::shown(document)),
                "document_uploaded"@,
                "document"@,
                Some(document.id),
                "applicant"@,
                None,
            ),
            _ => step.fails_with(INTERNAL_SERVER_ERROR, "Failed to add formal law"@),
        },
    }
}

/// Whatever the request, the dossier and the answers: where the adding of a
/// link hands a link over to be stored, it is a formal law, it is public, and
/// it points where the request said.
pub proof fn lemma_formal_law_is_stored_public(
    caller: Caller,
    stage: FormalLawStage,
    answer: Answer,
    step: Step<FormalLawStage>,
)
    requires
        add_formal_law_rule(caller, stage, answer, step),
    ensures
        step matches Step::Ask {
            query: Query::InsertLink { category, classification, external_url, .. },
            ..
        } ==> {
            &&& category == DocumentCategory::FormalLaw
            &&& classification == DocumentClassification::Public
            &&& (stage matches FormalLawStage::Find { input } ==> external_url == input.external_url)
            &&& (stage matches FormalLawStage::Session { input, .. } ==> external_url
                == input.external_url)
        },
{
}

/// Goes on adding a link to a formal law.
pub fn add_formal_law(caller: &Caller, stage: FormalLawStage, answer: Answer) -> (step: Step<
    FormalLawStage,
>)
    ensures
        add_formal_law_rule(*caller, stage, answer, step),
{
    match stage {
        FormalLawStage::Find { input } => match answer.into_submission() {
            Fetched::Found(submission) => {
                let gate = open_gate(submission.status, as_text(&caller.cookie));
                formal_law_through_gate(gate, submission.id, input)
            },
            _ => Step::fail(NOT_FOUND, "Submission not found"),
        },
        FormalLawStage::Session { submission_id, lookup, input } => {
            let gate = pass_gate(lookup, answer, submission_id);
            formal_law_through_gate(gate, submission_id, input)
        },
        FormalLawStage::Insert => match answer.into_document() {
            Fetched::Found(document) => {
                let id = document.id;
                Step::succeed_audited(
                    CREATED,
                    Payload::Document(DocumentResponse::from(document)),
                    "document_uploaded",
                    "document",
                    Some(id),
                    "applicant",
                    None,
                )
            },
            _ => Step::fail(INTERNAL_SERVER_ERROR, "Failed to add formal law"),
        },
    }
}

// ---------------------------------------------------------------------------
// Removing a document
// ---------------------------------------------------------------------------

/// How far the removing of a document has come.
#[derive(Debug)]
pub enum DeleteDocumentStage {
    /// The dossier was asked for.
    Find { document_id: Id },
    /// The session in the cookie is being looked up.
    Session { submission_id: Id, lookup: SessionLookup, document_id: Id },
    /// The document was asked for.
    Document { document_id: Id },
}

/// Begins to remove a document: a text that is no slug is refused, else the
/// dossier is asked for.
pub fn delete_document_start(slug: &str, document_id: Id) -> (step: Step<DeleteDocumentStage>)
    ensures
        !valid_slug(slug@) ==> step.fails_with(BAD_REQUEST, Fault::InvalidSlug.message()),
        valid_slug(slug@) ==> (step matches Step::Ask {
            query: Query::SubmissionBySlug { slug: asked },
            next: DeleteDocumentStage::Find { document_id: kept },
        } && asked@ == slug@ && kept == document_id),
{
    match validate_slug(slug) {
        Err(e) => {
            let message = e.message();
            Step::fail(BAD_REQUEST, message.as_str())
        },
        Ok(_) => Step::Ask {
            query: Query::SubmissionBySlug { slug: slug.to_owned() },
            next: DeleteDocumentStage::Find { document_id },
        },
    }
}

/// What the removing of a document does once it is known whether the request
/// may change the documents.
pub open spec fn delete_document_after_gate(
    gate: Gate,
    submission_id: Id,
    document_id: Id,
    step: Step<DeleteDocumentStage>,
) -> bool {
    match gate {
        Gate::Open => step == (Step::Ask {
            query: Query::DocumentOf { document_id, submission_id },
            next: DeleteDocumentStage::Document { document_id },
        }),
        Gate::Closed => step.fails_with(UNAUTHORIZED, login_to_remove_message()),
        Gate::Asking { query, lookup } => step == (Step::Ask {
            query,
            next: DeleteDocumentStage::Session { submission_id, lookup, document_id },
        }),
    }
}

fn delete_document_through_gate(gate: Gate, submission_id: Id, document_id: Id) -> (step: Step<
    DeleteDocumentStage,
>)
    ensures
        delete_document_after_gate(gate, submission_id, document_id, step),
{
    match gate {
        Gate::Open => Step::Ask {
            query: Query::DocumentOf { document_id, submission_id },
            next: DeleteDocumentStage::Document { document_id },
        },
        Gate::Closed => Step::fail(
            UNAUTHORIZED,
            "Inloggen vereist om documenten te verwijderen van een ingediende inzending.",
        ),
        Gate::Asking { query, lookup } => Step::Ask {
            query,
            next: DeleteDocumentStage::Session { submission_id, lookup, document_id },
        },
    }
}

/// The work that removes a document: its file, where it has one, then its
/// record, then an entry in the audit log. None of it is waited for.
pub open spec fn removes_document(effects: Seq<Query>, document: Document, document_id: Id) -> bool {
    let at: int = if document.file_path is Some {
        1
    } else {
        0
    };
    &&& effects.len() == at + 2
    &&& document.file_path matches Some(path) ==> effects[0] == (Query::RemoveFile { path })
    &&& effects[at] == (Query::DeleteDocument { document_id })
    &&& effects[at + 1] matches Query::Audit { entry }
    &&& entry.records("document_deleted"@, "document"@, Some(document_id), "applicant"@, None)
}

/// How the removing of a document goes on. The dossier must exist, the
/// request must be allowed to change its documents, and the document must be
/// one of this dossier.
pub open spec fn delete_document_rule(
    caller: Caller,
    stage: DeleteDocumentStage,
    answer: Answer,
    step: Step<DeleteDocumentStage>,
) -> bool {
    match stage {
        DeleteDocumentStage::Find { document_id } => match answer.submission() {
            Fetched::Found(submission) => exists|gate: Gate|
                {
                    &&& gate_begins(submission.status, text_view(caller.cookie), gate)
                    &&& delete_document_after_gate(gate, submission.id, document_id, step)
                },
            _ => step.fails_with(NOT_FOUND, "Submission not found"@),
        },
        DeleteDocumentStage::Session { submission_id, lookup, document_id } =>
            delete_document_after_gate(
            gate_step(lookup, answer, submission_id),
            submission_id,
            document_id,
            step,
        ),
        DeleteDocumentStage::Document { document_id } => match answer.document() {
            Fetched::Found(document) => {
                &&& step matches Step::Finish(outcome)
                &&& outcome.carries(OK, Payload::Empty)
                &&& outcome.set_cookie is None
                &&& outcome.attachment is None
                &&& removes_document(outcome.effects@, document, document_id)
            },
            Fetched::Missing => step.fails_with(NOT_FOUND, "Document not found"@),
            Fetched::Failed => step.fails_with(INTERNAL_SERVER_ERROR, "Database error"@),
        },
    }
}

/// Goes on removing a document.
pub fn delete_document(caller: &Caller, stage: DeleteDocumentStage, answer: Answer) -> (step: Step<
    DeleteDocumentStage,
>)
    ensures
        delete_document_rule(*caller, stage, answer, step),
{
    match stage {
        DeleteDocumentStage::Find { document_id } => match answer.into_submission() {
            Fetched::Found(submission) => {
                let gate = open_gate(submission.status, as_text(&caller.cookie));
                delete_document_through_gate(gate, submission.id, document_id)
            },
            _ => Step::fail(NOT_FOUND, "Submission not found"),
        },
        DeleteDocumentStage::Session { submission_id, lookup, document_id } => {
            let gate = pass_gate(lookup, answer, submission_id);
            delete_document_through_gate(gate, submission_id, document_id)
        },
        DeleteDocumentStage::Document { document_id } => match answer.into_document() {
            Fetched::Found(document) => {
                let mut outcome = Outcome::success(OK, Payload::Empty);
                match document.file_path {
                    Some(path) => {
                        outcome = outcome.and_then(Query::RemoveFile { path });
                    },
                    None => {},
                }
                outcome = outcome.and_then(Query::DeleteDocument { document_id });
                let entry = crate::protocol::AuditEntry::new(
                    "document_deleted",
                    "document",
                    Some(document_id),
                    "applicant",
                    None,
                );
                outcome = outcome.and_then(Query::Audit { entry });
                Step::Finish(outcome)
            },
            Fetched::Missing => Step::fail(NOT_FOUND, "Document not found"),
            Fetched::Failed => Step::fail(INTERNAL_SERVER_ERROR, "Database error"),
        },
    }
}

// ---------------------------------------------------------------------------
// Frequently asked questions
// ---------------------------------------------------------------------------

/// The questions and their answers, in the order in which they are shown.
pub open spec fn faq_texts() -> Seq<(Seq<char>, Seq<char>)> {
    seq![
        ("Levert RegelRecht kant en klare regelsets?"@, "Nee. We doen een beleidsverkenning en onderzoeksproject naar de inzetbaarheid van deze nieuwe technologie voor het vertalen van beleid naar machine-leesbare regels."@),
        ("Ik heb nog geen interne werkprocessen en wilde eigenlijk alleen beginnen bij de hoogste liggende wet"@, "We hebben meer informatie nodig om met je project aan de slag te kunnen. De onderzoeksfocus van RegelRecht ligt op dit moment op het vertalen van uitvoeringsbeleid en werkinstructies naar machine-leesbare regels, waarbij de formele wetgeving als basis dient."@),
        ("Wie is eigenaar van de regels?"@, "De casushouder (uploader) is eigenaar van de regels. De uitkomsten van de verkenningen met RegelRecht kunnen een eerste stap zijn, maar RegelRecht is niet verantwoordelijk voor de juridische sluitendheid van het proces."@),
        ("Wat gebeurt er verder met mijn uploads?"@, "We maken een eerste aanzet van regels. We willen graag aan de slag met jullie experts. Daarvoor plannen we een meeting in. Het is nuttig als inhoudelijk juridische experts aanschuiven om aanwijzingen te geven over ontwikkelrichtingen en focuspunten in de regels. Vul na upload een tijdslot in om de output te bespreken."@),
        ("Welke documenten kan ik uploaden?"@, "U kunt circulaires, uitvoeringsbeleid en werkinstructies uploaden. Voor formele wetten voegt u een link toe naar de versie op wetten.overheid.nl. Let op: documenten die als 'restricted' geclassificeerd zijn kunnen niet worden geüpload - alleen documenten die publiek gemaakt mogen worden of gebruikt mogen worden met AI-tools."@),
        ("Hoe lang worden mijn gegevens bewaard?"@, "Uw gegevens worden bewaard tot 12 maanden na indiening. De exacte vervaldatum is zichtbaar bij het opvragen van uw inzendingsstatus. Na afloop worden de gegevens verwijderd, tenzij u toestemming geeft voor langer bewaren. Zie onze privacyverklaring voor meer details."@),
    ]
}

/// The frequently asked questions.
pub fn get_faq() -> (step: Outcome)
    ensures
        step.status == OK,
        step.body.success,
        step.body.error is None,
        step.set_cookie is None,
        step.attachment is None,
        step.effects@.len() == 0,
        step.body.data matches Some(Payload::Faq(items)) && items@.len() == faq_texts().len()
            && forall|i: int|
            0 <= i < items@.len() ==> (#[trigger] items@[i]).question@ == faq_texts()[i].0
                && items@[i].answer@ == faq_texts()[i].1,
{
    let mut items: Vec<FaqItem> = Vec::new();
    items.push(FaqItem { question: "Levert RegelRecht kant en klare regelsets?".to_owned(), answer: "Nee. We doen een beleidsverkenning en onderzoeksproject naar de inzetbaarheid van deze nieuwe technologie voor het vertalen van beleid naar machine-leesbare regels.".to_owned() });
    items.push(FaqItem { question: "Ik heb nog geen interne werkprocessen en wilde eigenlijk alleen beginnen bij de hoogste liggende wet".to_owned(), answer: "We hebben meer informatie nodig om met je project aan de slag te kunnen. De onderzoeksfocus van RegelRecht ligt op dit moment op het vertalen van uitvoeringsbeleid en werkinstructies naar machine-leesbare regels, waarbij de formele wetgeving als basis dient.".to_owned() });
    items.push(FaqItem { question: "Wie is eigenaar van de regels?".to_owned(), answer: "De casushouder (uploader) is eigenaar van de regels. De uitkomsten van de verkenningen met RegelRecht kunnen een eerste stap zijn, maar RegelRecht is niet verantwoordelijk voor de juridische sluitendheid van het proces.".to_owned() });
    items.push(FaqItem { question: "Wat gebeurt er verder met mijn uploads?".to_owned(), answer: "We maken een eerste aanzet van regels. We willen graag aan de slag met jullie experts. Daarvoor plannen we een meeting in. Het is nuttig als inhoudelijk juridische experts aanschuiven om aanwijzingen te geven over ontwikkelrichtingen en focuspunten in de regels. Vul na upload een tijdslot in om de output te bespreken.".to_owned() });
    items.push(FaqItem { question: "Welke documenten kan ik uploaden?".to_owned(), answer: "U kunt circulaires, uitvoeringsbeleid en werkinstructies uploaden. Voor formele wetten voegt u een link toe naar de versie op wetten.overheid.nl. Let op: documenten die als 'restricted' geclassificeerd zijn kunnen niet worden geüpload - alleen documenten die publiek gemaakt mogen worden of gebruikt mogen worden met AI-tools.".to_owned() });
    items.push(FaqItem { question: "Hoe lang worden mijn gegevens bewaard?".to_owned(), answer: "Uw gegevens worden bewaard tot 12 maanden na indiening. De exacte vervaldatum is zichtbaar bij het opvragen van uw inzendingsstatus. Na afloop worden de gegevens verwijderd, tenzij u toestemming geeft voor langer bewaren. Zie onze privacyverklaring voor meer details.".to_owned() });
    Outcome::success(OK, Payload::Faq(items))
}

} // verus!
