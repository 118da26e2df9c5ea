//! The lifecycle of a dossier: draft, submitted, under review, approved or
//! rejected, forwarded, completed.
//!
//! Each change is guarded as a whole: it either applies to the dossier as it
//! stands or leaves it untouched and says why.

use vstd::prelude::*;
use crate::ids::{id_text, write_id};
use crate::models::{CreateSubmission, Id, Submission, SubmissionStatus, Timestamp, UpdateSubmission};
use crate::text::{chars_of, push_chars, push_text, slice_of, text_view};
use crate::validation::{slug_letter, valid_slug};

verus! {

/// Age after which a draft that was never submitted counts as abandoned: one
/// hour.
pub const ABANDONED_AFTER_MICROS: i64 = 3_600_000_000;

/// Why a change was refused.
#[derive(Debug, Clone, Copy, PartialEq, Eq, Structural)]
pub enum LifecycleError {
    /// Only a draft may be edited or submitted.
    NotDraft,
    /// Only a submitted, reviewed or approved dossier may be forwarded.
    NotForwardable,
}

/// The statuses from which a dossier may be forwarded. A rejected dossier is
/// not among them.
pub open spec fn forwardable(status: SubmissionStatus) -> bool {
    status == SubmissionStatus::Submitted || status == SubmissionStatus::UnderReview || status
        == SubmissionStatus::Approved
}

/// Whether a dossier may be forwarded from the status.
pub fn is_forwardable(status: SubmissionStatus) -> (r: bool)
    ensures
        r == forwardable(status),
{
    match status {
        SubmissionStatus::Submitted | SubmissionStatus::UnderReview | SubmissionStatus::Approved => true,
        _ => false,
    }
}

/// The new value of a field: the one given, else the old one.
pub open spec fn coalesce<T>(given: Option<T>, old: T) -> T {
    match given {
        Some(v) => v,
        None => old,
    }
}

/// The new value of a field that may be empty: the one given, else the old
/// one.
pub open spec fn coalesce_opt<T>(given: Option<T>, old: Option<T>) -> Option<T> {
    match given {
        Some(v) => Some(v),
        None => old,
    }
}

/// The moment a dossier opened at `now` is kept until, never beyond the last
/// moment that can be written down.
pub open spec fn retention_expiry(now: Timestamp, retention_micros: i64) -> int {
    if now + retention_micros > i64::MAX {
        i64::MAX as int
    } else if now + retention_micros < i64::MIN {
        i64::MIN as int
    } else {
        now + retention_micros
    }
}

/// A new dossier. It is a draft, was never submitted, and is kept for the
/// retention period from now.
pub fn new_submission(
    id: Id,
    slug: String,
    input: CreateSubmission,
    now: Timestamp,
    retention_micros: i64,
) -> (s: Submission)
    ensures
        s.id == id,
        s.slug == slug,
        s.submitter_name == input.submitter_name,
        s.submitter_email == input.submitter_email,
        s.organization == input.organization,
        s.organization_department == input.organization_department,
        s.status == SubmissionStatus::Draft,
        s.notes is None,
        s.created_at == now,
        s.updated_at == now,
        s.submitted_at is None,
        s.retention_expiry_date == retention_expiry(now, retention_micros),
{
    let expiry = match now.checked_add(retention_micros) {
        Some(at) => at,
        None => if retention_micros > 0 {
            i64::MAX
        } else {
            i64::MIN
        },
    };
    Submission {
        id,
        slug,
        submitter_name: input.submitter_name,
        submitter_email: input.submitter_email,
        organization: input.organization,
        organization_department: input.organization_department,
        status: SubmissionStatus::Draft,
        notes: None,
        created_at: now,
        updated_at: now,
        submitted_at: None,
        retention_expiry_date: expiry,
    }
}

/// The dossier after an edit: each field that was given replaces the old
/// one.
pub open spec fn edited(s: Submission, changes: UpdateSubmission, now: Timestamp) -> Submission {
    Submission {
        submitter_name: coalesce(changes.submitter_name, s.submitter_name),
        submitter_email: coalesce_opt(changes.submitter_email, s.submitter_email),
        organization: coalesce(changes.organization, s.organization),
        organization_department: coalesce_opt(
            changes.organization_department,
            s.organization_department,
        ),
        notes: coalesce_opt(changes.notes, s.notes),
        updated_at: now,
        ..s
    }
}

/// Edits a dossier. Only a draft can be edited: once submitted, a dossier is
/// frozen for the applicant, whatever the fields given.
pub fn update(submission: &mut Submission, changes: UpdateSubmission, now: Timestamp) -> (r:
    Result<(), LifecycleError>)
    ensures
        old(submission).status != SubmissionStatus::Draft ==> r == Err::<(), LifecycleError>(
            LifecycleError::NotDraft,
        ) && *final(submission) == *old(submission),
        old(submission).status == SubmissionStatus::Draft ==> r == Ok::<(), LifecycleError>(())
            && *final(submission)
            == edited(*old(submission), changes, now),
{
    match submission.status {
        SubmissionStatus::Draft => {},
        _ => {
            return Err(LifecycleError::NotDraft);
        },
    }
    match changes.submitter_name {
        Some(v) => {
            submission.submitter_name = v;
        },
        None => {},
    }
    match changes.submitter_email {
        Some(v) => {
            submission.submitter_email = Some(v);
        },
        None => {},
    }
    match changes.organization {
        Some(v) => {
            submission.organization = v;
        },
        None => {},
    }
    match changes.organization_department {
        Some(v) => {
            submission.organization_department = Some(v);
        },
        None => {},
    }
    match changes.notes {
        Some(v) => {
            submission.notes = Some(v);
        },
        None => {},
    }
    submission.updated_at = now;
    Ok(())
}

/// The dossier after it was submitted at `now`.
pub open spec fn submitted(s: Submission, now: Timestamp) -> Submission {
    Submission {
        status: SubmissionStatus::Submitted,
        submitted_at: Some(now),
        updated_at: now,
        ..s
    }
}

/// Submits a draft: its status becomes submitted and the moment is kept.
/// Anything but a draft is left as it is.
pub fn submit(submission: &mut Submission, now: Timestamp) -> (r: Result<(), LifecycleError>)
    ensures
        old(submission).status != SubmissionStatus::Draft ==> r == Err::<(), LifecycleError>(
            LifecycleError::NotDraft,
        ) && *final(submission) == *old(submission),
        old(submission).status == SubmissionStatus::Draft ==> r == Ok::<(), LifecycleError>(())
            && *final(submission)
            == submitted(*old(submission), now),
{
    match submission.status {
        SubmissionStatus::Draft => {
            submission.status = SubmissionStatus::Submitted;
            submission.submitted_at = Some(now);
            submission.updated_at = now;
            Ok(())
        },
        _ => Err(LifecycleError::NotDraft),
    }
}

/// The dossier after an administrator set its status.
pub open spec fn with_status(
    s: Submission,
    status: SubmissionStatus,
    notes: Option<String>,
    now: Timestamp,
) -> Submission {
    Submission { status, notes: coalesce_opt(notes, s.notes), updated_at: now, ..s }
}

/// Sets the status of a dossier, whatever it was before. This is the
/// administrator's manual correction: unlike `submit` and `forward` it is not
/// guarded by the status the dossier is in.
pub fn set_status(
    submission: &mut Submission,
    status: SubmissionStatus,
    notes: Option<String>,
    now: Timestamp,
)
    ensures
        *final(submission) == with_status(*old(submission), status, notes, now),
{
    submission.status = status;
    match notes {
        Some(v) => {
            submission.notes = Some(v);
        },
        None => {},
    }
    submission.updated_at = now;
}

/// Forwards a dossier. Only a submitted, reviewed or approved dossier can be
/// forwarded; any other is left as it is.
pub fn forward(submission: &mut Submission, notes: Option<String>, now: Timestamp) -> (r: Result<
    (),
    LifecycleError,
>)
    ensures
        !forwardable(old(submission).status) ==> r == Err::<(), LifecycleError>(
            LifecycleError::NotForwardable,
        ) && *final(submission) == *old(submission),
        forwardable(old(submission).status) ==> r == Ok::<(), LifecycleError>(())
            && *final(submission) == with_status(
            *old(submission),
            SubmissionStatus::Forwarded,
            notes,
            now,
        ),
{
    if !is_forwardable(submission.status) {
        return Err(LifecycleError::NotForwardable);
    }
    set_status(submission, SubmissionStatus::Forwarded, notes, now);
    Ok(())
}

/// A draft that was opened more than an hour ago and never submitted.
pub open spec fn abandoned(s: Submission, now: Timestamp) -> bool {
    s.status == SubmissionStatus::Draft && s.created_at < now - ABANDONED_AFTER_MICROS
}

/// Whether the sweep of abandoned drafts removes the dossier at `now`.
pub fn is_abandoned_draft(submission: &Submission, now: Timestamp) -> (r: bool)
    ensures
        r == abandoned(*submission, now),
{
    match submission.status {
        SubmissionStatus::Draft => {
            if now < i64::MIN + ABANDONED_AFTER_MICROS {
                false
            } else {
                submission.created_at < now - ABANDONED_AFTER_MICROS
            }
        },
        _ => false,
    }
}

/// No change that this module makes touches a dossier's identifier or slug.
pub proof fn lemma_slug_is_immutable(
    s: Submission,
    changes: UpdateSubmission,
    status: SubmissionStatus,
    notes: Option<String>,
    now: Timestamp,
)
    ensures
        edited(s, changes, now).id == s.id && edited(s, changes, now).slug == s.slug,
        submitted(s, now).id == s.id && submitted(s, now).slug == s.slug,
        with_status(s, status, notes, now).id == s.id && with_status(s, status, notes, now).slug
            == s.slug,
{
}

/// A dossier that was submitted can no longer be edited or submitted again.
pub proof fn lemma_submitted_is_frozen(s: Submission, now: Timestamp)
    ensures
        submitted(s, now).status != SubmissionStatus::Draft,
        forwardable(submitted(s, now).status),
{
}

// ---------------------------------------------------------------------------
// Slugs made here
// ---------------------------------------------------------------------------

/// The first moment of the year 0000, in microseconds since the epoch.
pub const YEAR_0000_MICROS: i64 = -62_167_219_200_000_000;

/// The first moment of the year 10000, in microseconds since the epoch.
pub const YEAR_10000_MICROS: i64 = 253_402_300_800_000_000;

/// A moment in the years that are written with four digits, from 0000 to
/// 9999.
pub open spec fn in_four_digit_years(at: Timestamp) -> bool {
    YEAR_0000_MICROS <= at < YEAR_10000_MICROS
}

/// A day written as eight digits.
pub open spec fn is_day_text(date: Seq<char>) -> bool {
    &&& date.len() == 8
    &&& forall|i: int| 0 <= i < date.len() ==> '0' <= #[trigger] date[i] <= '9'
}

/// The day of a moment in UTC, year first, as chrono writes it for the
/// format `%Y%m%d`; nothing for a moment that chrono cannot represent.
pub uninterp spec fn utc_date_text(at: Timestamp) -> Option<Seq<char>>;

/// `DateTime::from_timestamp_micros` of chrono and `format` with the format
/// `%Y%m%d`: the day of the moment in UTC, or nothing for a moment out of
/// chrono's range. For a moment in the years 0000 to 9999 there is a day,
/// and it is written as eight digits: four for the year, two for the month,
/// two for the day. Outside these years chrono writes a sign and more.
#[verifier::external_body]
fn utc_date(at: Timestamp) -> (date: Option<String>)
    ensures
        text_view(date) == utc_date_text(at),
        text_view(date) matches Some(day) ==> (in_four_digit_years(at) ==> is_day_text(day)),
        in_four_digit_years(at) ==> date is Some,
{
    match chrono::DateTime::from_timestamp_micros(at) {
        Some(moment) => Some(moment.format("%Y%m%d").to_string()),
        None => None,
    }
}

/// A slug made without the database: `rr-`, the day, a hyphen and the first
/// five characters of a written identifier.
pub open spec fn fallback_slug_text(date: Seq<char>, id: Id) -> Seq<char> {
    "rr-"@ + date + "-"@ + id_text(id).take(5)
}

/// A slug made here for a day of digits is a valid slug.
pub proof fn lemma_fallback_slug_is_valid(date: Seq<char>, id: Id)
    requires
        date.len() <= 40,
        forall|i: int| 0 <= i < date.len() ==> '0' <= #[trigger] date[i] <= '9',
    ensures
        valid_slug(fallback_slug_text(date, id)),
{
    crate::ids::lemma_id_text_shape(id);
    reveal_strlit("rr-");
    reveal_strlit("-");
    let slug = fallback_slug_text(date, id);
    let head = id_text(id).take(5);
    assert(slug.len() == date.len() + 9);
    assert forall|i: int| 0 <= i < slug.len() implies slug_letter(#[trigger] slug[i]) || slug[i]
        == '-' by {
        if i < 3 {
            assert(slug[i] == "rr-"@[i]);
        } else if i < 3 + date.len() {
            assert(slug[i] == date[i - 3]);
        } else if i == 3 + date.len() {
            assert(slug[i] == '-');
        } else {
            assert(slug[i] == head[i - 4 - date.len()]);
            assert(head[i - 4 - date.len()] == id_text(id)[i - 4 - date.len()]);
        }
    }
    assert(slug[0] == "rr-"@[0]);
    assert(slug.last() == head[4]);
    assert(head[4] == id_text(id)[4]);
}

/// A slug from a day and an identifier.
pub fn compose_fallback_slug(date: &str, id: Id) -> (slug: String)
    ensures
        slug@ == fallback_slug_text(date@, id),
{
    let written = write_id(id);
    let chars = chars_of(written.as_str());
    proof {
        crate::ids::lemma_id_text_shape(id);
    }
    let head = slice_of(chars.as_slice(), 0, 5);
    let mut slug = String::new();
    push_text(&mut slug, "rr-");
    push_text(&mut slug, date);
    push_text(&mut slug, "-");
    push_chars(&mut slug, head.as_slice());
    proof {
        assert(slug@ =~= fallback_slug_text(date@, id));
    }
    slug
}

/// The day that a fallback slug carries: the day of the moment, or no day at
/// all for a moment that cannot be represented.
pub open spec fn slug_date(at: Timestamp) -> Seq<char> {
    match utc_date_text(at) {
        Some(date) => date,
        None => Seq::<char>::empty(),
    }
}

/// The slug for a dossier opened at `now` when the database gave none. In
/// the years 0000 to 9999 it is a valid slug.
pub fn fallback_slug(now: Timestamp, id: Id) -> (slug: String)
    ensures
        slug@ == fallback_slug_text(slug_date(now), id),
        in_four_digit_years(now) ==> valid_slug(slug@),
{
    match utc_date(now) {
        Some(date) => {
            proof {
                if in_four_digit_years(now) {
                    lemma_fallback_slug_is_valid(date@, id);
                }
            }
            compose_fallback_slug(date.as_str(), id)
        },
        None => {
            let slug = compose_fallback_slug("", id);
            proof {
                reveal_strlit("");
                assert(""@ =~= Seq::<char>::empty());
            }
            slug
        },
    }
}

} // verus!
