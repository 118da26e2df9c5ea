//! Meetings: showing the slots, booking one for a dossier, cancelling a
//! booking, and the administrators' offering and deleting of slots.

use vstd::prelude::*;
use crate::calendar::{admin_period, coalesce_time, public_period, shifted, valid_range};
use crate::models::{
    CalendarSlot, CalendarSlotResponse, CreateCalendarSlot, Id, Timestamp,
};
use crate::protocol::{
    copy_text, listed, show_slots, shown_slots, Answer, AuditDetails, AuditEntry, Fetched, Outcome,
    Payload, Query, Step, BAD_REQUEST, CREATED, INTERNAL_SERVER_ERROR, NOT_FOUND, OK,
};
use crate::validation::{valid_slug, validate_slug, Fault};

verus! {

/// The period that a list of slots is asked for.
#[derive(Debug)]
pub struct AvailableSlotsQuery {
    pub from: Option<Timestamp>,
    pub to: Option<Timestamp>,
}

/// The slot that a dossier asks for.
#[derive(Debug)]
pub struct BookSlotRequest {
    pub slot_id: Id,
}

// ---------------------------------------------------------------------------
// Showing slots
// ---------------------------------------------------------------------------

/// How far the showing of slots has come.
#[derive(Debug)]
pub enum SlotsStage {
    /// The slots were asked for.
    List,
}

/// Begins to show the slots that applicants may book: the available ones
/// that begin between the given start, or now, and the given end, or thirty
/// days after the start.
pub fn get_available_slots_start(query: &AvailableSlotsQuery, now: Timestamp) -> (step: Step<
    SlotsStage,
>)
    ensures
        step == (Step::Ask {
            query: Query::AvailableSlots {
                from: coalesce_time(query.from, now),
                to: coalesce_time(query.to, shifted(coalesce_time(query.from, now), 30) as Timestamp),
            },
            next: SlotsStage::List,
        }),
{
    let (from, to) = public_period(query.from, query.to, now);
    Step::Ask { query: Query::AvailableSlots { from, to }, next: SlotsStage::List }
}

/// Begins to show the slots to an administrator: all that begin between the
/// given start, or a week ago, and the given end, or sixty days from now.
pub fn list_slots_admin_start(query: &AvailableSlotsQuery, now: Timestamp) -> (step: Step<
    SlotsStage,
>)
    ensures
        step == (Step::Ask {
            query: Query::SlotsBetween {
                from: coalesce_time(query.from, shifted(now, -7) as Timestamp),
                to: coalesce_time(query.to, shifted(now, 60) as Timestamp),
            },
            next: SlotsStage::List,
        }),
{
    let (from, to) = admin_period(query.from, query.to, now);
    Step::Ask { query: Query::SlotsBetween { from, to }, next: SlotsStage::List }
}

/// How the showing of slots ends: with the slots that came back, in their
/// order, and with none where the list could not be had.
pub open spec fn slots_rule(answer: Answer, step: Step<SlotsStage>) -> bool {
    &&& step matches Step::Finish(outcome)
    &&& outcome.succeeds_with(OK, outcome.body.data->0)
    &&& outcome.body.data matches Some(Payload::Slots(responses))
    &&& responses@ == shown_slots(listed(answer.slots()))
}

fn slots_reply(answer: Answer) -> (step: Step<SlotsStage>)
    ensures
        slots_rule(answer, step),
{
    let slots = match answer.into_slots() {
        Some(items) => items,
        None => Vec::new(),
    };
    Step::succeed(OK, Payload::Slots(show_slots(slots)))
}

/// Ends the showing of the slots that applicants may book.
pub fn get_available_slots(stage: SlotsStage, answer: Answer) -> (step: Step<SlotsStage>)
    ensures
        slots_rule(answer, step),
{
    slots_reply(answer)
}

/// Ends the showing of the slots to an administrator.
pub fn list_slots_admin(stage: SlotsStage, answer: Answer) -> (step: Step<SlotsStage>)
    ensures
        slots_rule(answer, step),
{
    slots_reply(answer)
}

// ---------------------------------------------------------------------------
// Booking
// ---------------------------------------------------------------------------

/// How far a booking has come.
#[derive(Debug)]
pub enum BookStage {
    /// The dossier was asked for.
    Find { slug: String, slot_id: Id },
    /// The dossier's present booking was asked for.
    Existing { submission_id: Id, slug: String, slot_id: Id },
    /// The guarded booking of the slot was asked for.
    Book { submission_id: Id, slug: String },
}

/// Begins a booking: a text that is no slug is refused, else the dossier is
/// asked for.
pub fn book_slot_start(slug: &str, request: &BookSlotRequest) -> (step: Step<BookStage>)
    ensures
        !valid_slug(slug@) ==> step.fails_with(BAD_REQUEST, Fault::InvalidSlug.message()),
        valid_slug(slug@) ==> (step matches Step::Ask {
            query: Query::SubmissionBySlug { slug: asked },
            next: BookStage::Find { slug: kept, slot_id },
        } && asked@ == slug@ && kept@ == slug@ && slot_id == request.slot_id),
{
    match validate_slug(slug) {
        Err(e) => {
            let message = e.message();
            Step::fail(BAD_REQUEST, message.as_str())
        },
        Ok(_) => Step::Ask {
            query: Query::SubmissionBySlug { slug: slug.to_owned() },
            next: BookStage::Find { slug: slug.to_owned(), slot_id: request.slot_id },
        },
    }
}

/// The outcome of a booking that went through: the slot as it is now, and an
/// entry in the audit log with the dossier's slug and the slot's times.
pub open spec fn books(outcome: Outcome, slot: CalendarSlot, submission_id: Id, slug: String) -> bool {
    &&& outcome.carries(OK, Payload::Slot(CalendarSlotResponse::shown(slot)))
    &&& outcome.set_cookie is None
    &&& outcome.attachment is None
    &&& outcome.effects@.len() == 1
    &&& outcome.effects@[0] matches Query::Audit { entry }
    &&& entry.names(
        "slot_booked"@,
        "calendar_slot"@,
        Some(slot.id),
        "applicant"@,
        Some(submission_id),
    )
    &&& entry.actor_ip is None
    &&& entry.details == Some(
        AuditDetails::SlotBooked {
            submission_slug: slug,
            slot_start: slot.slot_start,
            slot_end: slot.slot_end,
        },
    )
}

/// How a booking goes on.
///
/// The dossier must exist and must not have a meeting already. The slot is
/// then booked by one guarded statement that applies only while the slot is
/// available and has not begun. Of several requests for one slot only the
/// first finds it so; each of the others gets no slot back and is told that
/// the slot is not available.
pub open spec fn book_slot_rule(stage: BookStage, answer: Answer, step: Step<BookStage>) -> bool {
    match stage {
        BookStage::Find { slug, slot_id } => match answer.submission() {
            Fetched::Found(submission) => step == (Step::Ask {
                query: Query::BookingOf { submission_id: submission.id },
                next: BookStage::Existing { submission_id: submission.id, slug, slot_id },
            }),
            Fetched::Missing => step.fails_with(NOT_FOUND, "Submission not found"@),
            Fetched::Failed => step.fails_with(INTERNAL_SERVER_ERROR, "Database error"@),
        },
        BookStage::Existing { submission_id, slug, slot_id } => match answer.slot() {
            Fetched::Found(_) => step.fails_with(
                BAD_REQUEST,
                "This submission already has a meeting booked"@,
            ),
            _ => step == (Step::Ask {
                query: Query::BookSlot { submission_id, slot_id },
                next: BookStage::Book { submission_id, slug },
            }),
        },
        BookStage::Book { submission_id, slug } => match answer.slot() {
            Fetched::Found(slot) => step matches Step::Finish(outcome) && books(
                outcome,
                slot,
                submission_id,
                slug,
            ),
            Fetched::Missing => step.fails_with(
                BAD_REQUEST,
                "Slot not available or has already been booked"@,
            ),
            Fetched::Failed => step.fails_with(INTERNAL_SERVER_ERROR, "Failed to book slot"@),
        },
    }
}

/// Goes on with a booking.
pub fn book_slot(stage: BookStage, answer: Answer) -> (step: Step<BookStage>)
    ensures
        book_slot_rule(stage, answer, step),
{
    match stage {
        BookStage::Find { slug, slot_id } => match answer.into_submission() {
            Fetched::Found(submission) => Step::Ask {
                query: Query::BookingOf { submission_id: submission.id },
                next: BookStage::Existing { submission_id: submission.id, slug, slot_id },
            },
            Fetched::Missing => Step::fail(NOT_FOUND, "Submission not found"),
            Fetched::Failed => Step::fail(INTERNAL_SERVER_ERROR, "Database error"),
        },
        BookStage::Existing { submission_id, slug, slot_id } => match answer.into_slot() {
            Fetched::Found(_) => Step::fail(
                BAD_REQUEST,
                "This submission already has a meeting booked",
            ),
            _ => Step::Ask {
                query: Query::BookSlot { submission_id, slot_id },
                next: BookStage::Book { submission_id, slug },
            },
        },
        BookStage::Book { submission_id, slug } => match answer.into_slot() {
            Fetched::Found(slot) => {
                let entry = AuditEntry::with_details(
                    "slot_booked",
                    "calendar_slot",
                    Some(slot.id),
                    "applicant",
                    Some(submission_id),
                    AuditDetails::SlotBooked {
                        submission_slug: slug,
                        slot_start: slot.slot_start,
                        slot_end: slot.slot_end,
                    },
                );
                let outcome = Outcome::success(
                    OK,
                    Payload::Slot(CalendarSlotResponse::from(slot)),
                ).and_then(Query::Audit { entry });
                Step::Finish(outcome)
            },
            Fetched::Missing => Step::fail(
                BAD_REQUEST,
                "Slot not available or has already been booked",
            ),
            Fetched::Failed => Step::fail(INTERNAL_SERVER_ERROR, "Failed to book slot"),
        },
    }
}

// ---------------------------------------------------------------------------
// Cancelling
// ---------------------------------------------------------------------------

/// How far a cancellation has come.
#[derive(Debug)]
pub enum CancelStage {
    /// The dossier was asked for.
    Find,
    /// The freeing of the dossier's slot was asked for.
    Cancel { submission_id: Id },
}

/// Begins a cancellation: a text that is no slug is refused, else the
/// dossier is asked for.
pub fn cancel_booking_start(slug: &str) -> (step: Step<CancelStage>)
    ensures
        !valid_slug(slug@) ==> step.fails_with(BAD_REQUEST, Fault::InvalidSlug.message()),
        valid_slug(slug@) ==> (step matches Step::Ask {
            query: Query::SubmissionBySlug { slug: asked },
            next: CancelStage::Find,
        } && asked@ == slug@),
{
    match validate_slug(slug) {
        Err(e) => {
            let message = e.message();
            Step::fail(BAD_REQUEST, message.as_str())
        },
        Ok(_) => Step::Ask {
            query: Query::SubmissionBySlug { slug: slug.to_owned() },
            next: CancelStage::Find,
        },
    }
}

/// How a cancellation goes on: the slot that the dossier has booked is
/// freed by one guarded statement, and where the dossier has booked none the
/// request ends with that news.
pub open spec fn cancel_booking_rule(stage: CancelStage, answer: Answer, step: Step<CancelStage>)
    -> bool {
    match stage {
        CancelStage::Find => match answer.submission() {
            Fetched::Found(submission) => step == (Step::Ask {
                query: Query::CancelBooking { submission_id: submission.id },
                next: CancelStage::Cancel { submission_id: submission.id },
            }),
            Fetched::Missing => step.fails_with(NOT_FOUND, "Submission not found"@),
            Fetched::Failed => step.fails_with(INTERNAL_SERVER_ERROR, "Database error"@),
        },
        CancelStage::Cancel { submission_id } => match answer.slot() {
            Fetched::Found(slot) => step.succeeds_audited(
                OK,
                Payload::Empty,
                "slot_cancelled"@,
                "calendar_slot"@,
                Some(slot.id),
                "applicant"@,
                Some(submission_id),
            ),
            Fetched::Missing => step.fails_with(NOT_FOUND, "No booking found for this submission"@),
            Fetched::Failed => step.fails_with(INTERNAL_SERVER_ERROR, "Failed to cancel booking"@),
        },
    }
}

/// Goes on with a cancellation.
pub fn cancel_booking(stage: CancelStage, answer: Answer) -> (step: Step<CancelStage>)
    ensures
        cancel_booking_rule(stage, answer, step),
{
    match stage {
        CancelStage::Find => match answer.into_submission() {
            Fetched::Found(submission) => Step::Ask {
                query: Query::CancelBooking { submission_id: submission.id },
                next: CancelStage::Cancel { submission_id: submission.id },
            },
            Fetched::Missing => Step::fail(NOT_FOUND, "Submission not found"),
            Fetched::Failed => Step::fail(INTERNAL_SERVER_ERROR, "Database error"),
        },
        CancelStage::Cancel { submission_id } => match answer.into_slot() {
            Fetched::Found(slot) => Step::succeed_audited(
                OK,
                Payload::Empty,
                "slot_cancelled",
                "calendar_slot",
                Some(slot.id),
                "applicant",
                Some(submission_id),
            ),
            Fetched::Missing => Step::fail(NOT_FOUND, "No booking found for this submission"),
            Fetched::Failed => Step::fail(INTERNAL_SERVER_ERROR, "Failed to cancel booking"),
        },
    }
}

// ---------------------------------------------------------------------------
// Offering slots
// ---------------------------------------------------------------------------

/// How far the offering of slots has come: the slots asked for, how many of
/// them are dealt with, and those that were made.
#[derive(Debug)]
pub struct CreateSlotsStage {
    pub admin_id: Id,
    pub inputs: Vec<CreateCalendarSlot>,
    pub done: usize,
    pub created: Vec<CalendarSlotResponse>,
}

/// What the offering of slots does next. When every slot is dealt with, the
/// slots that were made are the answer. Else the next slot is looked at: its
/// times must be in order, and it is handed over to be stored. A slot whose
/// times are not in order ends the request; the slots made before it stay.
pub open spec fn create_slots_next(
    admin_id: Id,
    inputs: Seq<CreateCalendarSlot>,
    done: int,
    created: Seq<CalendarSlotResponse>,
    step: Step<CreateSlotsStage>,
) -> bool {
    if done >= inputs.len() {
        &&& step matches Step::Finish(outcome)
        &&& outcome.succeeds_with(CREATED, outcome.body.data->0)
        &&& outcome.body.data matches Some(Payload::Slots(responses))
        &&& responses@ == created
    } else if !(inputs[done].slot_end > inputs[done].slot_start) {
        step.fails_with(BAD_REQUEST, "End time must be after start time"@)
    } else {
        &&& step matches Step::Ask { query, next }
        &&& query == (Query::InsertSlot {
            slot_start: inputs[done].slot_start,
            slot_end: inputs[done].slot_end,
            created_by: admin_id,
            notes: inputs[done].notes,
        })
        &&& next.admin_id == admin_id
        &&& next.inputs@ == inputs
        &&& next.done == done
        &&& next.created@ == created
    }
}

fn create_slots_advance(stage: CreateSlotsStage) -> (step: Step<CreateSlotsStage>)
    ensures
        create_slots_next(stage.admin_id, stage.inputs@, stage.done as int, stage.created@, step),
{
    if stage.done >= stage.inputs.len() {
        return Step::succeed(CREATED, Payload::Slots(stage.created));
    }
    let input = &stage.inputs[stage.done];
    if !valid_range(input.slot_start, input.slot_end) {
        return Step::fail(BAD_REQUEST, "End time must be after start time");
    }
    let query = Query::InsertSlot {
        slot_start: input.slot_start,
        slot_end: input.slot_end,
        created_by: stage.admin_id,
        notes: copy_text(&input.notes),
    };
    Step::Ask { query, next: stage }
}

/// Begins to offer slots on behalf of an administrator.
pub fn create_slots_start(admin_id: Id, inputs: Vec<CreateCalendarSlot>) -> (step: Step<
    CreateSlotsStage,
>)
    ensures
        create_slots_next(admin_id, inputs@, 0, Seq::<CalendarSlotResponse>::empty(), step),
{
    let created: Vec<CalendarSlotResponse> = Vec::new();
    proof {
        assert(created@ =~= Seq::<CalendarSlotResponse>::empty());
    }
    create_slots_advance(CreateSlotsStage { admin_id, inputs, done: 0, created })
}

/// How the offering of slots goes on: a slot that was stored joins those
/// that were made and the next one is looked at; a slot that could not be
/// stored ends the request.
pub open spec fn create_slots_rule(
    stage: CreateSlotsStage,
    answer: Answer,
    step: Step<CreateSlotsStage>,
) -> bool {
    match answer.slot() {
        Fetched::Found(slot) => create_slots_next(
            stage.admin_id,
            stage.inputs@,
            if stage.done < stage.inputs@.len() {
                stage.done + 1
            } else {
                stage.done as int
            },
            stage.created@.push(CalendarSlotResponse::shown(slot)),
            step,
        ),
        _ => step.fails_with(INTERNAL_SERVER_ERROR, "Failed to create slot"@),
    }
}

/// Goes on offering slots.
pub fn create_slots(stage: CreateSlotsStage, answer: Answer) -> (step: Step<CreateSlotsStage>)
    ensures
        create_slots_rule(stage, answer, step),
{
    match answer.into_slot() {
        Fetched::Found(slot) => {
            let mut next = stage;
            next.created.push(CalendarSlotResponse::from(slot));
            if next.done < next.inputs.len() {
                next.done = next.done + 1;
            }
            create_slots_advance(next)
        },
        _ => Step::fail(INTERNAL_SERVER_ERROR, "Failed to create slot"),
    }
}

// ---------------------------------------------------------------------------
// Deleting a slot
// ---------------------------------------------------------------------------

/// How far the deleting of a slot has come.
#[derive(Debug)]
pub enum DeleteSlotStage {
    /// The slot was asked for.
    Find { slot_id: Id },
}

/// Begins to delete a slot: the slot is asked for.
pub fn delete_slot_start(slot_id: Id) -> (step: Step<DeleteSlotStage>)
    ensures
        step == (Step::Ask {
            query: Query::SlotById { id: slot_id },
            next: DeleteSlotStage::Find { slot_id },
        }),
{
    Step::Ask { query: Query::SlotById { id: slot_id }, next: DeleteSlotStage::Find { slot_id } }
}

/// How the deleting of a slot ends: a slot that somebody has booked stays,
/// and its booking with it; a free slot is deleted.
pub open spec fn delete_slot_rule(stage: DeleteSlotStage, answer: Answer, step: Step<DeleteSlotStage>)
    -> bool {
    match stage {
        DeleteSlotStage::Find { slot_id } => match answer.slot() {
            Fetched::Found(slot) => if slot.booked_by_submission is Some {
                step.fails_with(
                    BAD_REQUEST,
                    "Cannot delete a booked slot. Cancel the booking first."@,
                )
            } else {
                &&& step matches Step::Finish(outcome)
                &&& outcome.carries(OK, Payload::Empty)
                &&& outcome.set_cookie is None
                &&& outcome.attachment is None
                &&& outcome.effects@ == seq![Query::DeleteSlot { id: slot_id }]
            },
            Fetched::Missing => step.fails_with(NOT_FOUND, "Slot not found"@),
            Fetched::Failed => step.fails_with(INTERNAL_SERVER_ERROR, "Database error"@),
        },
    }
}

/// Ends the deleting of a slot.
pub fn delete_slot(stage: DeleteSlotStage, answer: Answer) -> (step: Step<DeleteSlotStage>)
    ensures
        delete_slot_rule(stage, answer, step),
{
    match stage {
        DeleteSlotStage::Find { slot_id } => match answer.into_slot() {
            Fetched::Found(slot) => {
                if !crate::calendar::can_delete(&slot) {
                    return Step::fail(
                        BAD_REQUEST,
                        "Cannot delete a booked slot. Cancel the booking first.",
                    );
                }
                let outcome = Outcome::success(OK, Payload::Empty).and_then(
                    Query::DeleteSlot { id: slot_id },
                );
                proof {
                    assert(outcome.effects@ =~= seq![Query::DeleteSlot { id: slot_id }]);
                }
                Step::Finish(outcome)
            },
            Fetched::Missing => Step::fail(NOT_FOUND, "Slot not found"),
            Fetched::Failed => Step::fail(INTERNAL_SERVER_ERROR, "Database error"),
        },
    }
}

} // verus!
