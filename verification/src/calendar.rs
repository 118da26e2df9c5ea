//! Meeting slots and their booking.
//!
//! A slot is either available or booked by one dossier, and a dossier books
//! at most one slot. Booking is one guarded change: among several requests
//! for the same slot the first finds it available and takes it, and every
//! later one finds it taken.

use vstd::prelude::*;
use crate::models::{CalendarSlot, CreateCalendarSlot, Id, Timestamp};

verus! {

/// Microseconds in a day.
pub const MICROS_PER_DAY: i64 = 86_400_000_000;

/// Why a change to the calendar was refused.
#[derive(Debug, Clone, Copy, PartialEq, Eq, Structural)]
pub enum BookingError {
    /// The dossier already has a meeting.
    AlreadyBooked,
    /// The slot does not exist, is taken or has begun.
    NotAvailable,
    /// The dossier has no meeting to cancel.
    NoBooking,
    /// There is no such slot.
    SlotNotFound,
    /// A booked slot cannot be deleted; the booking must be cancelled first.
    SlotIsBooked,
    /// A slot must end after it begins.
    InvalidRange,
    /// There is a slot with this identifier already.
    DuplicateSlot,
}

// ---------------------------------------------------------------------------
// One slot
// ---------------------------------------------------------------------------

/// A slot can be booked at `now` while it is available and has not begun.
pub open spec fn bookable(slot: CalendarSlot, now: Timestamp) -> bool {
    slot.is_available && slot.slot_start > now
}

/// The slot once a dossier has booked it.
pub open spec fn booked_by(slot: CalendarSlot, submission_id: Id) -> CalendarSlot {
    CalendarSlot { is_available: false, booked_by_submission: Some(submission_id), ..slot }
}

/// The slot once its booking is cancelled.
pub open spec fn freed(slot: CalendarSlot) -> CalendarSlot {
    CalendarSlot { is_available: true, booked_by_submission: None, ..slot }
}

/// A slot's times are in order.
pub fn valid_range(slot_start: Timestamp, slot_end: Timestamp) -> (r: bool)
    ensures
        r == (slot_end > slot_start),
{
    slot_end > slot_start
}

/// Books a slot for a dossier where the slot is available and has not begun;
/// leaves it as it is otherwise.
pub fn book_slot(slot: &mut CalendarSlot, submission_id: Id, now: Timestamp) -> (r: Result<
    (),
    BookingError,
>)
    ensures
        bookable(*old(slot), now) ==> r == Ok::<(), BookingError>(()) && *final(slot) == booked_by(
            *old(slot),
            submission_id,
        ),
        !bookable(*old(slot), now) ==> r == Err::<(), BookingError>(BookingError::NotAvailable)
            && *final(slot) == *old(slot),
{
    if slot.is_available && slot.slot_start > now {
        slot.is_available = false;
        slot.booked_by_submission = Some(submission_id);
        Ok(())
    } else {
        Err(BookingError::NotAvailable)
    }
}

/// Frees a slot where the dossier is the one that booked it; leaves it as it
/// is otherwise.
pub fn cancel_booking(slot: &mut CalendarSlot, submission_id: Id) -> (r: Result<(), BookingError>)
    ensures
        old(slot).booked_by_submission == Some(submission_id) ==> r == Ok::<(), BookingError>(())
            && *final(slot)
            == freed(*old(slot)),
        old(slot).booked_by_submission != Some(submission_id) ==> r == Err::<(), BookingError>(
            BookingError::NoBooking,
        ) && *final(slot) == *old(slot),
{
    let is_booker = match slot.booked_by_submission {
        Some(id) => id == submission_id,
        None => false,
    };
    if is_booker {
        slot.is_available = true;
        slot.booked_by_submission = None;
        Ok(())
    } else {
        Err(BookingError::NoBooking)
    }
}

/// A slot may be deleted only while nobody has booked it.
pub fn can_delete(slot: &CalendarSlot) -> (r: bool)
    ensures
        r == (slot.booked_by_submission is None),
{
    slot.booked_by_submission.is_none()
}

/// A well-formed slot that is booked stays well-formed, is no longer
/// available, and cannot be booked again by anyone at any time.
pub proof fn lemma_booked_slot_is_taken(
    slot: CalendarSlot,
    winner: Id,
    other: Id,
    now: Timestamp,
    later: Timestamp,
)
    requires
        slot.well_formed(),
        bookable(slot, now),
    ensures
        booked_by(slot, winner).well_formed(),
        !booked_by(slot, winner).is_available,
        booked_by(slot, winner).booked_by_submission == Some(winner),
        !bookable(booked_by(slot, winner), later),
        freed(booked_by(slot, winner)) == slot,
{
}

// ---------------------------------------------------------------------------
// The period that a list of slots covers
// ---------------------------------------------------------------------------

/// A moment moved by a number of days, kept within what can be written
/// down.
pub open spec fn shifted(at: Timestamp, days: int) -> int {
    let moved = at + days * MICROS_PER_DAY;
    if moved > i64::MAX {
        i64::MAX as int
    } else if moved < i64::MIN {
        i64::MIN as int
    } else {
        moved
    }
}

fn shift(at: Timestamp, days: i64) -> (r: Timestamp)
    requires
        -100 <= days <= 100,
    ensures
        r == shifted(at, days as int),
{
    let span: i64 = days * MICROS_PER_DAY;
    match at.checked_add(span) {
        Some(moved) => moved,
        None => if span > 0 {
            i64::MAX
        } else {
            i64::MIN
        },
    }
}

/// The period of slots shown to applicants: from the given start or now, to
/// the given end or thirty days after the start.
pub fn public_period(from: Option<Timestamp>, to: Option<Timestamp>, now: Timestamp) -> (period: (
    Timestamp,
    Timestamp,
))
    ensures
        period.0 == coalesce_time(from, now),
        period.1 == coalesce_time(to, shifted(period.0, 30) as Timestamp),
{
    let start = match from {
        Some(at) => at,
        None => now,
    };
    let end = match to {
        Some(at) => at,
        None => shift(start, 30),
    };
    (start, end)
}

/// The period of slots shown to administrators: from the given start or a
/// week ago, to the given end or sixty days from now.
pub fn admin_period(from: Option<Timestamp>, to: Option<Timestamp>, now: Timestamp) -> (period: (
    Timestamp,
    Timestamp,
))
    ensures
        period.0 == coalesce_time(from, shifted(now, -7) as Timestamp),
        period.1 == coalesce_time(to, shifted(now, 60) as Timestamp),
{
    let start = match from {
        Some(at) => at,
        None => shift(now, -7),
    };
    let end = match to {
        Some(at) => at,
        None => shift(now, 60),
    };
    (start, end)
}

/// A moment given, else the default.
pub open spec fn coalesce_time(given: Option<Timestamp>, default: Timestamp) -> Timestamp {
    match given {
        Some(at) => at,
        None => default,
    }
}

// ---------------------------------------------------------------------------
// All slots
// ---------------------------------------------------------------------------

/// Position of the slot with the identifier, or the number of slots where
/// there is none.
pub open spec fn slot_index(slots: Seq<CalendarSlot>, id: Id) -> int
    decreases slots.len(),
{
    if slots.len() == 0 || slots[0].id == id {
        0
    } else {
        1 + slot_index(slots.drop_first(), id)
    }
}

/// Position of the slot that the dossier has booked, or the number of slots
/// where it has booked none.
pub open spec fn booking_index(slots: Seq<CalendarSlot>, submission_id: Id) -> int
    decreases slots.len(),
{
    if slots.len() == 0 || slots[0].booked_by_submission == Some(submission_id) {
        0
    } else {
        1 + booking_index(slots.drop_first(), submission_id)
    }
}

/// The dossier has booked one of the slots.
pub open spec fn has_booking(slots: Seq<CalendarSlot>, submission_id: Id) -> bool {
    booking_index(slots, submission_id) < slots.len()
}

/// What `slot_index` returns.
pub proof fn lemma_slot_index(slots: Seq<CalendarSlot>, id: Id)
    ensures
        0 <= slot_index(slots, id) <= slots.len(),
        forall|k: int| 0 <= k < slot_index(slots, id) ==> (#[trigger] slots[k]).id != id,
        slot_index(slots, id) < slots.len() ==> slots[slot_index(slots, id)].id == id,
    decreases slots.len(),
{
    if slots.len() == 0 || slots[0].id == id {
    } else {
        let rest = slots.drop_first();
        lemma_slot_index(rest, id);
        let n = slot_index(rest, id);
        assert forall|k: int| 0 <= k < 1 + n implies (#[trigger] slots[k]).id != id by {
            if k > 0 {
                assert(rest[k - 1] == slots[k]);
            }
        }
        if 1 + n < slots.len() {
            assert(rest[n] == slots[1 + n]);
        }
    }
}

/// What `booking_index` returns.
pub proof fn lemma_booking_index(slots: Seq<CalendarSlot>, submission_id: Id)
    ensures
        0 <= booking_index(slots, submission_id) <= slots.len(),
        forall|k: int|
            0 <= k < booking_index(slots, submission_id) ==> (
            #[trigger] slots[k]).booked_by_submission != Some(submission_id),
        booking_index(slots, submission_id) < slots.len() ==> slots[booking_index(
            slots,
            submission_id,
        )].booked_by_submission == Some(submission_id),
    decreases slots.len(),
{
    if slots.len() == 0 || slots[0].booked_by_submission == Some(submission_id) {
    } else {
        let rest = slots.drop_first();
        lemma_booking_index(rest, submission_id);
        let n = booking_index(rest, submission_id);
        assert forall|k: int| 0 <= k < 1 + n implies (#[trigger] slots[k]).booked_by_submission
            != Some(submission_id) by {
            if k > 0 {
                assert(rest[k - 1] == slots[k]);
            }
        }
        if 1 + n < slots.len() {
            assert(rest[n] == slots[1 + n]);
        }
    }
}

/// Every slot is well-formed, no two slots share an identifier, and no two
/// slots are booked by the same dossier.
pub open spec fn calendar_invariant(slots: Seq<CalendarSlot>) -> bool {
    &&& forall|i: int| 0 <= i < slots.len() ==> (#[trigger] slots[i]).well_formed()
    &&& forall|i: int, j: int|
        0 <= i < j < slots.len() ==> (#[trigger] slots[i]).id != (#[trigger] slots[j]).id
    &&& forall|i: int, j: int|
        0 <= i < j < slots.len() && (#[trigger] slots[i]).booked_by_submission is Some ==> slots[i].booked_by_submission
            != (#[trigger] slots[j]).booked_by_submission
}

/// The slots and the outcome after a dossier asks for a slot at `now`. A
/// dossier that has a meeting is refused. Else the slot is booked where it
/// exists, is available and has not begun.
pub open spec fn after_booking(
    slots: Seq<CalendarSlot>,
    submission_id: Id,
    slot_id: Id,
    now: Timestamp,
) -> (Seq<CalendarSlot>, Result<(), BookingError>) {
    let at = slot_index(slots, slot_id);
    if has_booking(slots, submission_id) {
        (slots, Err(BookingError::AlreadyBooked))
    } else if at < slots.len() && bookable(slots[at], now) {
        (slots.update(at, booked_by(slots[at], submission_id)), Ok(()))
    } else {
        (slots, Err(BookingError::NotAvailable))
    }
}

/// The slots and the outcome after a dossier cancels its meeting.
pub open spec fn after_cancelling(slots: Seq<CalendarSlot>, submission_id: Id) -> (
    Seq<CalendarSlot>,
    Result<(), BookingError>,
) {
    let at = booking_index(slots, submission_id);
    if at < slots.len() {
        (slots.update(at, freed(slots[at])), Ok(()))
    } else {
        (slots, Err(BookingError::NoBooking))
    }
}

/// The slots and the outcome after an administrator deletes a slot.
pub open spec fn after_deleting(slots: Seq<CalendarSlot>, slot_id: Id) -> (
    Seq<CalendarSlot>,
    Result<(), BookingError>,
) {
    let at = slot_index(slots, slot_id);
    if at >= slots.len() {
        (slots, Err(BookingError::SlotNotFound))
    } else if slots[at].booked_by_submission is Some {
        (slots, Err(BookingError::SlotIsBooked))
    } else {
        (slots.remove(at), Ok(()))
    }
}

/// Booking keeps the calendar's invariant.
pub proof fn lemma_booking_keeps_invariant(
    slots: Seq<CalendarSlot>,
    submission_id: Id,
    slot_id: Id,
    now: Timestamp,
)
    requires
        calendar_invariant(slots),
    ensures
        calendar_invariant(after_booking(slots, submission_id, slot_id, now).0),
{
    let at = slot_index(slots, slot_id);
    lemma_slot_index(slots, slot_id);
    lemma_booking_index(slots, submission_id);
    let after = after_booking(slots, submission_id, slot_id, now).0;
    if !has_booking(slots, submission_id) && at < slots.len() && bookable(slots[at], now) {
        assert(slots[at].well_formed());
        assert forall|i: int, j: int|
            0 <= i < j < after.len() && (#[trigger] after[i]).booked_by_submission is Some implies after[i].booked_by_submission
            != (#[trigger] after[j]).booked_by_submission by {
            if i == at {
                assert(slots[j].booked_by_submission != Some(submission_id));
            } else if j == at {
                assert(slots[i].booked_by_submission != Some(submission_id));
            } else {
                assert(slots[i].booked_by_submission != slots[j].booked_by_submission);
            }
        }
        assert forall|i: int, j: int| 0 <= i < j < after.len() implies (#[trigger] after[i]).id != (
        #[trigger] after[j]).id by {
            assert(slots[i].id != slots[j].id);
        }
        assert forall|i: int| 0 <= i < after.len() implies (#[trigger] after[i]).well_formed() by {
            if i != at {
                assert(slots[i].well_formed());
            }
        }
    }
}

/// Of two dossiers that ask for the same available slot, one after the
/// other, exactly the first gets it: the second is told that the slot is not
/// available, and the slot ends up taken and booked by the first.
pub proof fn lemma_exactly_one_booking_succeeds(
    slots: Seq<CalendarSlot>,
    first: Id,
    second: Id,
    slot_id: Id,
    now: Timestamp,
    later: Timestamp,
)
    requires
        calendar_invariant(slots),
        first != second,
        !has_booking(slots, first),
        !has_booking(slots, second),
        slot_index(slots, slot_id) < slots.len(),
        bookable(slots[slot_index(slots, slot_id)], now),
    ensures
        ({
            let at = slot_index(slots, slot_id);
            let (taken, won) = after_booking(slots, first, slot_id, now);
            let (end, lost) = after_booking(taken, second, slot_id, later);
            &&& won is Ok
            &&& lost == Err::<(), BookingError>(BookingError::NotAvailable)
            &&& end == taken
            &&& !end[at].is_available
            &&& end[at].booked_by_submission == Some(first)
            &&& end[at].id == slot_id
        }),
{
    let at = slot_index(slots, slot_id);
    lemma_slot_index(slots, slot_id);
    let (taken, won) = after_booking(slots, first, slot_id, now);
    assert(taken == slots.update(at, booked_by(slots[at], first)));
    // The second dossier still has no meeting in the calendar that the first left.
    lemma_booking_index(slots, second);
    lemma_booking_index(taken, second);
    let b = booking_index(taken, second);
    if b < taken.len() {
        if b == at {
            assert(taken[at].booked_by_submission == Some(first));
        } else {
            assert(taken[b] == slots[b]);
            assert(slots[b].booked_by_submission != Some(second));
        }
    }
    // The slot is found at the same place and is no longer bookable.
    lemma_slot_index(taken, slot_id);
    let at2 = slot_index(taken, slot_id);
    if at2 < at {
        assert(taken[at2] == slots[at2]);
        assert(slots[at2].id != slot_id);
    } else if at2 > at {
        assert(taken[at].id == slot_id);
    }
}

/// The meeting slots.
pub struct Calendar {
    pub slots: Vec<CalendarSlot>,
}

impl Calendar {
    /// What holds of a calendar between any two changes.
    pub open spec fn well_formed(&self) -> bool {
        calendar_invariant(self.slots@)
    }

    /// A calendar without slots.
    pub fn new() -> (calendar: Self)
        ensures
            calendar.well_formed(),
            calendar.slots@.len() == 0,
    {
        Calendar { slots: Vec::new() }
    }

    fn find_slot(&self, slot_id: Id) -> (at: usize)
        ensures
            at == slot_index(self.slots@, slot_id),
            at <= self.slots@.len(),
            at < self.slots@.len() ==> self.slots@[at as int].id == slot_id,
    {
        let mut i: usize = 0;
        while i < self.slots.len() && self.slots[i].id != slot_id
            invariant
                i <= self.slots.len(),
                forall|k: int| 0 <= k < i ==> (#[trigger] self.slots@[k]).id != slot_id,
            decreases self.slots.len() - i,
        {
            i = i + 1;
        }
        proof {
            lemma_slot_index(self.slots@, slot_id);
            let n = slot_index(self.slots@, slot_id);
            if n < i {
                assert(self.slots@[n].id == slot_id);
            } else if i < n {
                assert(self.slots@[i as int].id == slot_id);
            }
        }
        i
    }

    fn find_booking(&self, submission_id: Id) -> (at: usize)
        ensures
            at == booking_index(self.slots@, submission_id),
            at <= self.slots@.len(),
            at < self.slots@.len() ==> self.slots@[at as int].booked_by_submission == Some(
                submission_id,
            ),
    {
        let mut i: usize = 0;
        while i < self.slots.len() && !is_booker(&self.slots[i], submission_id)
            invariant
                i <= self.slots.len(),
                forall|k: int|
                    0 <= k < i ==> (#[trigger] self.slots@[k]).booked_by_submission != Some(
                        submission_id,
                    ),
            decreases self.slots.len() - i,
        {
            i = i + 1;
        }
        proof {
            lemma_booking_index(self.slots@, submission_id);
            let n = booking_index(self.slots@, submission_id);
            if n < i {
                assert(self.slots@[n].booked_by_submission == Some(submission_id));
            } else if i < n {
                assert(self.slots@[i as int].booked_by_submission == Some(submission_id));
            }
        }
        i
    }

    /// Offers a new slot. Its times must be in order and its identifier new.
    pub fn create_slot(
        &mut self,
        id: Id,
        input: CreateCalendarSlot,
        created_by: Option<Id>,
        now: Timestamp,
    ) -> (r: Result<(), BookingError>)
        requires
            old(self).well_formed(),
        ensures
            final(self).well_formed(),
            r is Ok <==> input.slot_end > input.slot_start && slot_index(old(self).slots@, id)
                == old(self).slots@.len(),
            r is Err ==> final(self).slots@ == old(self).slots@,
            r matches Err(e) ==> e == if input.slot_end > input.slot_start {
                BookingError::DuplicateSlot
            } else {
                BookingError::InvalidRange
            },
            r is Ok ==> final(self).slots@ == old(self).slots@.push(
                CalendarSlot {
                    id,
                    slot_start: input.slot_start,
                    slot_end: input.slot_end,
                    is_available: true,
                    booked_by_submission: None,
                    created_by,
                    notes: input.notes,
                    created_at: now,
                },
            ),
    {
        if !valid_range(input.slot_start, input.slot_end) {
            return Err(BookingError::InvalidRange);
        }
        let at = self.find_slot(id);
        if at < self.slots.len() {
            return Err(BookingError::DuplicateSlot);
        }
        proof {
            lemma_slot_index(self.slots@, id);
        }
        self.slots.push(
            CalendarSlot {
                id,
                slot_start: input.slot_start,
                slot_end: input.slot_end,
                is_available: true,
                booked_by_submission: None,
                created_by,
                notes: input.notes,
                created_at: now,
            },
        );
        Ok(())
    }

    /// Books a slot for a dossier at `now`.
    pub fn book(&mut self, submission_id: Id, slot_id: Id, now: Timestamp) -> (r: Result<
        (),
        BookingError,
    >)
        requires
            old(self).well_formed(),
        ensures
            final(self).well_formed(),
            final(self).slots@ == after_booking(old(self).slots@, submission_id, slot_id, now).0,
            r == after_booking(old(self).slots@, submission_id, slot_id, now).1,
    {
        let existing = self.find_booking(submission_id);
        if existing < self.slots.len() {
            return Err(BookingError::AlreadyBooked);
        }
        let at = self.find_slot(slot_id);
        if at >= self.slots.len() {
            return Err(BookingError::NotAvailable);
        }
        let mut slot = self.slots.remove(at);
        let r = book_slot(&mut slot, submission_id, now);
        self.slots.insert(at, slot);
        proof {
            lemma_booking_keeps_invariant(old(self).slots@, submission_id, slot_id, now);
            assert(self.slots@ =~= after_booking(old(self).slots@, submission_id, slot_id, now).0);
        }
        r
    }

    /// Cancels the meeting of a dossier.
    pub fn cancel(&mut self, submission_id: Id) -> (r: Result<(), BookingError>)
        requires
            old(self).well_formed(),
        ensures
            final(self).well_formed(),
            final(self).slots@ == after_cancelling(old(self).slots@, submission_id).0,
            r == after_cancelling(old(self).slots@, submission_id).1,
    {
        let at = self.find_booking(submission_id);
        if at >= self.slots.len() {
            return Err(BookingError::NoBooking);
        }
        let mut slot = self.slots.remove(at);
        let r = cancel_booking(&mut slot, submission_id);
        self.slots.insert(at, slot);
        proof {
            let before = old(self).slots@;
            let after = after_cancelling(before, submission_id).0;
            assert(self.slots@ =~= after);
            assert forall|i: int| 0 <= i < after.len() implies (#[trigger] after[i]).well_formed() by {
                if i != at {
                    assert(before[i].well_formed());
                }
            }
            assert forall|i: int, j: int| 0 <= i < j < after.len() implies (#[trigger] after[i]).id
                != (#[trigger] after[j]).id by {
                assert(before[i].id != before[j].id);
            }
            assert forall|i: int, j: int|
                0 <= i < j < after.len() && (#[trigger] after[i]).booked_by_submission is Some implies after[i].booked_by_submission
                != (#[trigger] after[j]).booked_by_submission by {
                if i != at && j != at {
                    assert(before[i].booked_by_submission != before[j].booked_by_submission);
                }
            }
        }
        r
    }

    /// Deletes a slot that nobody has booked. A booked slot stays: its
    /// booking is never dropped silently.
    pub fn delete(&mut self, slot_id: Id) -> (r: Result<(), BookingError>)
        requires
            old(self).well_formed(),
        ensures
            final(self).well_formed(),
            final(self).slots@ == after_deleting(old(self).slots@, slot_id).0,
            r == after_deleting(old(self).slots@, slot_id).1,
    {
        let at = self.find_slot(slot_id);
        if at >= self.slots.len() {
            return Err(BookingError::SlotNotFound);
        }
        if !can_delete(&self.slots[at]) {
            return Err(BookingError::SlotIsBooked);
        }
        let _ = self.slots.remove(at);
        proof {
            let before = old(self).slots@;
            let after = self.slots@;
            assert(after =~= before.remove(at as int));
            assert forall|i: int| 0 <= i < after.len() implies (#[trigger] after[i]).well_formed() by {
                if i < at {
                    assert(before[i].well_formed());
                } else {
                    assert(before[i + 1].well_formed());
                }
            }
            assert forall|i: int, j: int| 0 <= i < j < after.len() implies (#[trigger] after[i]).id
                != (#[trigger] after[j]).id by {
                let a = if i < at { i } else { i + 1 };
                let b = if j < at { j } else { j + 1 };
                assert(before[a].id != before[b].id);
            }
            assert forall|i: int, j: int|
                0 <= i < j < after.len() && (#[trigger] after[i]).booked_by_submission is Some implies after[i].booked_by_submission
                != (#[trigger] after[j]).booked_by_submission by {
                let a = if i < at { i } else { i + 1 };
                let b = if j < at { j } else { j + 1 };
                assert(before[a].booked_by_submission != before[b].booked_by_submission);
            }
        }
        Ok(())
    }
}

fn is_booker(slot: &CalendarSlot, submission_id: Id) -> (r: bool)
    ensures
        r == (slot.booked_by_submission == Some(submission_id)),
{
    match slot.booked_by_submission {
        Some(id) => id == submission_id,
        None => false,
    }
}

} // verus!
