//! Appointment rules: how an appointment's status may change, when two
//! bookings of one employee collide, and how a booking request is checked.
use vstd::prelude::*;
use crate::text::{same_text, trimmed, trim_view};
use crate::time::{
    Instant, parse_instant, parsed_instant, add_minutes, minutes_later, law_moving_forward_is_later, ordinary_shift,
    instant_text, utc_rfc3339_text,
};

verus! {

// ---------------------------------------------------------------------------
// Status flow
// ---------------------------------------------------------------------------

/// The status changes that staff may make by hand: a pending booking is
/// marked arrived, cancelled or no-show; an arrived customer goes into
/// service or cancels.  Completion is not among them: it happens only when
/// a service is recorded for an appointment that is in service.
pub open spec fn allowed_transition(current: Seq<char>, next: Seq<char>) -> bool {
    ||| current == "pending"@ && next == "arrived"@
    ||| current == "pending"@ && next == "cancelled"@
    ||| current == "pending"@ && next == "no_show"@
    ||| current == "arrived"@ && next == "in_service"@
    ||| current == "arrived"@ && next == "cancelled"@
}

/// A booking can still be edited while it is pending or the customer has
/// arrived.
pub open spec fn editable_status(status: Seq<char>) -> bool {
    status == "pending"@ || status == "arrived"@
}

/// The statuses an appointment cannot leave.
pub open spec fn closed_status(status: Seq<char>) -> bool {
    status == "completed"@ || status == "cancelled"@ || status == "no_show"@
}

/// How far along its life an appointment is.
pub open spec fn status_stage(status: Seq<char>) -> int {
    if status == "pending"@ {
        0
    } else if status == "arrived"@ {
        1
    } else if status == "in_service"@ {
        2
    } else {
        3
    }
}

/// Whether staff may move an appointment from `current` to `next`.
pub fn transition_allowed(current: &str, next: &str) -> (r: bool)
    ensures
        r == allowed_transition(current@, next@),
{
    (same_text(current, "pending") && same_text(next, "arrived")) || (same_text(current, "pending")
        && same_text(next, "cancelled")) || (same_text(current, "pending") && same_text(
        next,
        "no_show",
    )) || (same_text(current, "arrived") && same_text(next, "in_service")) || (same_text(
        current,
        "arrived",
    ) && same_text(next, "cancelled"))
}

/// Whether an appointment in this status may still be edited.
pub fn appointment_editable(status: &str) -> (r: bool)
    ensures
        r == editable_status(status@),
{
    same_text(status, "pending") || same_text(status, "arrived")
}

/// The six status names are different texts.
proof fn lemma_status_names_distinct()
    ensures
        "pending"@ != "arrived"@,
        "pending"@ != "in_service"@,
        "pending"@ != "completed"@,
        "pending"@ != "cancelled"@,
        "pending"@ != "no_show"@,
        "arrived"@ != "in_service"@,
        "arrived"@ != "completed"@,
        "arrived"@ != "cancelled"@,
        "arrived"@ != "no_show"@,
        "in_service"@ != "completed"@,
        "in_service"@ != "cancelled"@,
        "in_service"@ != "no_show"@,
        "completed"@ != "cancelled"@,
        "completed"@ != "no_show"@,
        "cancelled"@ != "no_show"@,
{
    reveal_strlit("pending");
    reveal_strlit("arrived");
    reveal_strlit("in_service");
    reveal_strlit("completed");
    reveal_strlit("cancelled");
    reveal_strlit("no_show");
    assert("pending"@[0] == 'p');
    assert("arrived"@[0] == 'a');
    assert("in_service"@[0] == 'i');
    assert("completed"@[1] == 'o');
    assert("cancelled"@[1] == 'a');
    assert("cancelled"@[0] == 'c');
    assert("completed"@[0] == 'c');
    assert("no_show"@[0] == 'n');
}

/// A completed, cancelled or no-show appointment admits no status change.
pub proof fn law_closed_statuses_are_final(current: Seq<char>, next: Seq<char>)
    requires
        closed_status(current),
    ensures
        !allowed_transition(current, next),
{
    lemma_status_names_distinct();
}

/// No status change leads back to pending, and none marks an appointment
/// completed.
pub proof fn law_no_change_into_pending_or_completed(current: Seq<char>)
    ensures
        !allowed_transition(current, "pending"@),
        !allowed_transition(current, "completed"@),
{
    lemma_status_names_distinct();
}

/// An appointment goes into service only after the customer has arrived.
pub proof fn law_service_starts_after_arrival(current: Seq<char>)
    requires
        allowed_transition(current, "in_service"@),
    ensures
        current == "arrived"@,
{
    lemma_status_names_distinct();
}

/// Every allowed change moves an appointment strictly forward, so no
/// sequence of changes returns to an earlier status.
pub proof fn law_changes_move_forward(current: Seq<char>, next: Seq<char>)
    requires
        allowed_transition(current, next),
    ensures
        status_stage(current) < status_stage(next),
{
    lemma_status_names_distinct();
}

/// A booking may be edited exactly while some status change is still
/// possible for it.
pub proof fn law_editable_iff_changeable(status: Seq<char>)
    ensures
        editable_status(status) == exists|next: Seq<char>| allowed_transition(status, next),
{
    lemma_status_names_distinct();
    if editable_status(status) {
        assert(allowed_transition(status, "cancelled"@));
    }
}

// ---------------------------------------------------------------------------
// Booking collisions
// ---------------------------------------------------------------------------

/// Two time ranges share a moment: each starts before the other ends.
pub open spec fn ranges_overlap(start: Instant, end: Instant, other_start: Instant, other_end: Instant) -> bool {
    start.precedes(other_end) && other_start.precedes(end)
}

/// Both bookings have an end that `chrono` can compute.
pub open spec fn ends_defined(starts_at: Instant, duration: i64, existing_starts_at: Instant, existing_duration: i64) -> bool {
    minutes_later(starts_at, duration) is Some && minutes_later(existing_starts_at, existing_duration) is Some
}

/// The booking of `duration` minutes from `starts_at` and the one of
/// `existing_duration` minutes from `existing_starts_at` collide.
pub open spec fn bookings_overlap(starts_at: Instant, duration: i64, existing_starts_at: Instant, existing_duration: i64) -> bool {
    ranges_overlap(
        starts_at,
        minutes_later(starts_at, duration)->0,
        existing_starts_at,
        minutes_later(existing_starts_at, existing_duration)->0,
    )
}

/// Whether two bookings collide; each runs from its start for its duration
/// in minutes, and touching ends do not collide.
pub fn time_ranges_overlap(
    starts_at: Instant,
    duration: i64,
    existing_starts_at: Instant,
    existing_duration: i64,
) -> (r: bool)
    requires
        ends_defined(starts_at, duration, existing_starts_at, existing_duration),
    ensures
        r == bookings_overlap(starts_at, duration, existing_starts_at, existing_duration),
        r == (starts_at.precedes(minutes_later(existing_starts_at, existing_duration)->0)
            && existing_starts_at.precedes(minutes_later(starts_at, duration)->0)),
{
    let ends_at = add_minutes(starts_at, duration).unwrap();
    let existing_ends_at = add_minutes(existing_starts_at, existing_duration).unwrap();
    starts_at.is_before(&existing_ends_at) && existing_starts_at.is_before(&ends_at)
}

/// Whether two bookings collide, or `None` where an end lies beyond what
/// `chrono` can represent (where computing it would panic).
pub fn overlap_when_defined(
    starts_at: Instant,
    duration: i64,
    existing_starts_at: Instant,
    existing_duration: i64,
) -> (r: Option<bool>)
    ensures
        match r {
            Some(b) => ends_defined(starts_at, duration, existing_starts_at, existing_duration)
                && b == bookings_overlap(starts_at, duration, existing_starts_at, existing_duration),
            None => !ends_defined(starts_at, duration, existing_starts_at, existing_duration),
        },
        ordinary_shift(starts_at, duration * 60) && ordinary_shift(
            existing_starts_at,
            existing_duration * 60,
        ) ==> r is Some,
{
    let ends_at = add_minutes(starts_at, duration);
    let existing_ends_at = add_minutes(existing_starts_at, existing_duration);
    if ends_at.is_none() || existing_ends_at.is_none() {
        return None;
    }
    Some(time_ranges_overlap(starts_at, duration, existing_starts_at, existing_duration))
}

/// Overlap of two bookings is symmetric.
pub proof fn law_overlap_is_symmetric(a: Instant, da: i64, b: Instant, db: i64)
    ensures
        bookings_overlap(a, da, b, db) == bookings_overlap(b, db, a, da),
{
}

/// Two bookings collide exactly when each starts before the other ends.
pub proof fn law_overlap_means_each_starts_before_the_other_ends(a: Instant, da: i64, b: Instant, db: i64)
    requires
        ends_defined(a, da, b, db),
    ensures
        bookings_overlap(a, da, b, db) == (a.precedes(minutes_later(b, db)->0) && b.precedes(
            minutes_later(a, da)->0,
        )),
{
}

/// A booking of positive length that lies within another (starting no
/// earlier and ending no later) collides with it.
pub proof fn law_booking_inside_another_collides(a: Instant, da: i64, b: Instant, db: i64)
    requires
        da > 0,
        ends_defined(a, da, b, db),
        !a.precedes(b),
        !(minutes_later(b, db)->0).precedes(minutes_later(a, da)->0),
    ensures
        bookings_overlap(a, da, b, db),
        bookings_overlap(b, db, a, da),
{
    law_moving_forward_is_later(a, da * 60);
}

/// A booking that starts exactly when another ends does not collide with it.
pub proof fn law_back_to_back_bookings_do_not_collide(a: Instant, da: i64, b: Instant, db: i64)
    requires
        minutes_later(a, da) == Some(b),
    ensures
        !bookings_overlap(a, da, b, db),
{
}

/// A booking of positive length collides with itself: its end lies after
/// its start.
pub proof fn law_positive_booking_overlaps_itself(a: Instant, da: i64)
    requires
        da > 0,
        minutes_later(a, da) is Some,
    ensures
        bookings_overlap(a, da, a, da),
{
    law_moving_forward_is_later(a, da * 60);
}

/// An active booking of the same employee, as stored: its id, the customer's
/// name, its start as RFC 3339 text and its length in minutes.
pub struct BookedSlot {
    pub id: String,
    pub customer_name: String,
    pub starts_at: String,
    pub duration: i64,
}

/// The outcome of checking a requested time against existing bookings.
#[derive(Debug, PartialEq, Eq, Structural)]
pub enum SlotCheck {
    /// No booking collides.
    Free,
    /// The booking at this index is the first to collide.
    Taken(usize),
    /// At this index, the first booking that has to be compared has an end
    /// (its own or the requested one) that `chrono` cannot represent.
    Unrepresentable(usize),
}

/// The booking takes part in the check: it is not the one being edited and
/// its start can be read.
pub open spec fn slot_considered(slot: BookedSlot, excluded: Option<Seq<char>>) -> bool {
    excluded != Some(slot.id@) && parsed_instant(slot.starts_at@) is Some
}

/// The booking leaves the requested time free.
pub open spec fn slot_clear(starts_at: Instant, duration: i64, slot: BookedSlot, excluded: Option<Seq<char>>) -> bool {
    slot_considered(slot, excluded) ==> {
        let existing = parsed_instant(slot.starts_at@)->0;
        &&& ends_defined(starts_at, duration, existing, slot.duration)
        &&& !bookings_overlap(starts_at, duration, existing, slot.duration)
    }
}

pub open spec fn optional_text(o: Option<&str>) -> Option<Seq<char>> {
    match o {
        Some(t) => Some(t@),
        None => None,
    }
}

/// Checks a requested booking (start, minutes) of an employee against the
/// employee's active bookings in their stored order, skipping the booking
/// with id `excluded` (the one being edited) and bookings whose start cannot
/// be read; reports the first collision.
pub fn find_conflict(
    starts_at: Instant,
    duration: i64,
    excluded: Option<&str>,
    slots: &Vec<BookedSlot>,
) -> (r: SlotCheck)
    ensures
        match r {
            SlotCheck::Free => forall|j: int|
                0 <= j < slots@.len() ==> slot_clear(
                    starts_at,
                    duration,
                    #[trigger] slots@[j],
                    optional_text(excluded),
                ),
            SlotCheck::Taken(i) => {
                &&& i < slots@.len()
                &&& forall|j: int|
                    0 <= j < i ==> slot_clear(
                        starts_at,
                        duration,
                        #[trigger] slots@[j],
                        optional_text(excluded),
                    )
                &&& slot_considered(slots@[i as int], optional_text(excluded))
                &&& ends_defined(starts_at, duration, parsed_instant(slots@[i as int].starts_at@)->0, slots@[i as int].duration)
                &&& bookings_overlap(starts_at, duration, parsed_instant(slots@[i as int].starts_at@)->0, slots@[i as int].duration)
            },
            SlotCheck::Unrepresentable(i) => {
                &&& i < slots@.len()
                &&& forall|j: int|
                    0 <= j < i ==> slot_clear(
                        starts_at,
                        duration,
                        #[trigger] slots@[j],
                        optional_text(excluded),
                    )
                &&& slot_considered(slots@[i as int], optional_text(excluded))
                &&& !ends_defined(starts_at, duration, parsed_instant(slots@[i as int].starts_at@)->0, slots@[i as int].duration)
                &&& !(ordinary_shift(starts_at, duration * 60) && ordinary_shift(
                    parsed_instant(slots@[i as int].starts_at@)->0,
                    slots@[i as int].duration * 60,
                ))
            },
        },
{
    let mut i: usize = 0;
    while i < slots.len()
        invariant
            i <= slots@.len(),
            forall|j: int|
                0 <= j < i ==> slot_clear(
                    starts_at,
                    duration,
                    #[trigger] slots@[j],
                    optional_text(excluded),
                ),
        decreases slots@.len() - i,
    {
        let slot = &slots[i];
        let skip = match excluded {
            Some(e) => same_text(e, slot.id.as_str()),
            None => false,
        };
        if !skip {
            match parse_instant(slot.starts_at.as_str()) {
                Some(existing) => {
                    match overlap_when_defined(starts_at, duration, existing, slot.duration) {
                        Some(true) => {
                            return SlotCheck::Taken(i);
                        },
                        Some(false) => {},
                        None => {
                            return SlotCheck::Unrepresentable(i);
                        },
                    }
                },
                None => {},
            }
        }
        i = i + 1;
    }
    SlotCheck::Free
}

// ---------------------------------------------------------------------------
// Booking requests
// ---------------------------------------------------------------------------

/// Why a booking request is refused by the checks that need no stored data.
#[derive(Debug, PartialEq, Eq, Structural)]
pub enum BookingError {
    /// The length is not between 1 and 1440 minutes.
    InvalidDuration,
    /// The start is not RFC 3339 text.
    InvalidStart,
    /// A guest booking lacks the guest's name or phone.
    MissingGuestDetails,
    /// The customer type is neither member nor guest.
    InvalidCustomerType,
    /// A package service is booked for someone who is not a member.
    PackageNeedsMember,
    /// The service type is neither a plain service nor a package service.
    InvalidServiceType,
}

/// The start of a checked booking, and its normalised RFC 3339 text in UTC.
pub struct BookingTime {
    pub starts_at: Instant,
    pub starts_at_text: String,
}

/// A booking lasts between 1 and 1440 minutes.
pub open spec fn booking_length_valid(duration: i64) -> bool {
    1 <= duration <= 1440
}

/// Checks the length of a booking, then reads its start; the start is
/// stored as UTC text.
pub fn check_booking_time(duration: i64, starts_at: &str) -> (r: Result<BookingTime, BookingError>)
    ensures
        !booking_length_valid(duration) ==> r == Err::<BookingTime, BookingError>(
            BookingError::InvalidDuration,
        ),
        booking_length_valid(duration) && parsed_instant(starts_at@) is None ==> r == Err::<
            BookingTime,
            BookingError,
        >(BookingError::InvalidStart),
        booking_length_valid(duration) && parsed_instant(starts_at@) is Some ==> (r matches Ok(
            t,
        ) && Some(t.starts_at) == parsed_instant(starts_at@) && utc_rfc3339_text(
            t.starts_at.secs,
            t.starts_at.nanos,
        ) == Some(t.starts_at_text@)),
{
    if duration <= 0 || duration > 1440 {
        return Err(BookingError::InvalidDuration);
    }
    match parse_instant(starts_at) {
        Some(at) => Ok(BookingTime { starts_at: at, starts_at_text: instant_text(at) }),
        None => Err(BookingError::InvalidStart),
    }
}

/// Who a booking is for, as far as the request alone tells.
pub enum Customer {
    /// A member, looked up by id in storage.
    Member,
    /// A guest, with the trimmed name and phone.
    Guest { name: String, phone: String },
}

proof fn lemma_customer_types_distinct()
    ensures
        "member"@ != "guest"@,
{
    reveal_strlit("member");
    reveal_strlit("guest");
    assert("member"@[0] != "guest"@[0]);
}

/// Sorts a booking by customer type: members are looked up in storage,
/// guests must give a name and a phone (surrounding white space removed).
pub fn classify_customer(customer_type: &str, guest_name: &str, guest_phone: &str) -> (r: Result<
    Customer,
    BookingError,
>)
    ensures
        customer_type@ == "member"@ ==> r matches Ok(Customer::Member),
        customer_type@ == "guest"@ ==> (if trim_view(guest_name@).len() == 0 || trim_view(
            guest_phone@,
        ).len() == 0 {
            r == Err::<Customer, BookingError>(BookingError::MissingGuestDetails)
        } else {
            r matches Ok(Customer::Guest { name, phone }) && name@ == trim_view(guest_name@)
                && phone@ == trim_view(guest_phone@)
        }),
        customer_type@ != "member"@ && customer_type@ != "guest"@ ==> r == Err::<
            Customer,
            BookingError,
        >(BookingError::InvalidCustomerType),
{
    proof {
        lemma_customer_types_distinct();
    }
    if same_text(customer_type, "member") {
        Ok(Customer::Member)
    } else if same_text(customer_type, "guest") {
        let name = trimmed(guest_name);
        let phone = trimmed(guest_phone);
        if name.as_str().is_empty() || phone.as_str().is_empty() {
            Err(BookingError::MissingGuestDetails)
        } else {
            Ok(Customer::Guest { name, phone })
        }
    } else {
        Err(BookingError::InvalidCustomerType)
    }
}

/// The plain service and the package service are different kinds.
pub proof fn lemma_service_types_distinct()
    ensures
        "普通手工"@ != "套盒手工"@,
{
    reveal_strlit("普通手工");
    reveal_strlit("套盒手工");
    assert("普通手工"@[0] != "套盒手工"@[0]);
}

/// What kind of service a booking reserves.
#[derive(Debug, PartialEq, Eq, Structural)]
pub enum BookedService {
    /// A plain service of a project from the catalogue.
    Project,
    /// One use of a package the member bought.
    Package,
}

/// Sorts a booking by service type; a package service can be booked only
/// for a member.
pub fn classify_service(service_type: &str, for_member: bool) -> (r: Result<BookedService, BookingError>)
    ensures
        service_type@ == "普通手工"@ ==> r == Ok::<BookedService, BookingError>(
            BookedService::Project,
        ),
        service_type@ == "套盒手工"@ ==> r == (if for_member {
            Ok::<BookedService, BookingError>(BookedService::Package)
        } else {
            Err(BookingError::PackageNeedsMember)
        }),
        service_type@ != "普通手工"@ && service_type@ != "套盒手工"@ ==> r
            == Err::<BookedService, BookingError>(BookingError::InvalidServiceType),
{
    proof {
        lemma_service_types_distinct();
    }
    if same_text(service_type, "普通手工") {
        Ok(BookedService::Project)
    } else if same_text(service_type, "套盒手工") {
        if for_member {
            Ok(BookedService::Package)
        } else {
            Err(BookingError::PackageNeedsMember)
        }
    } else {
        Err(BookingError::InvalidServiceType)
    }
}

// ---------------------------------------------------------------------------
// Completing a booked service
// ---------------------------------------------------------------------------

/// Why an appointment in service cannot be completed.
#[derive(Debug, PartialEq, Eq, Structural)]
pub enum CompletionError {
    /// The appointment is not in service.
    NotInService,
    /// A plain-service appointment has no project.
    MissingProject,
    /// A package-service appointment has no member.
    MissingMember,
    /// A package-service appointment has no package purchase.
    MissingPackage,
}

/// How an appointment that is in service gets its service record.
pub enum CompletionRoute {
    /// One use of the member's package is consumed.
    Package { member_id: String, purchase_id: String },
    /// A plain service of the project is recorded and settled.
    Project { project_id: String },
}

/// Only an appointment that is in service can be completed.
pub fn check_in_service(status: &str) -> (r: Result<(), CompletionError>)
    ensures
        r == (if status@ == "in_service"@ {
            Ok::<(), CompletionError>(())
        } else {
            Err(CompletionError::NotInService)
        }),
{
    if same_text(status, "in_service") {
        Ok(())
    } else {
        Err(CompletionError::NotInService)
    }
}

/// Chooses how to record the service of an appointment that is in service:
/// package appointments need their member and purchase, in that order;
/// every other appointment needs its project.
pub fn completion_route(
    service_type: &str,
    member_id: Option<&str>,
    purchase_id: Option<&str>,
    project_id: Option<&str>,
) -> (r: Result<CompletionRoute, CompletionError>)
    ensures
        service_type@ == "套盒手工"@ ==> match (member_id, purchase_id) {
            (None, _) => r == Err::<CompletionRoute, CompletionError>(
                CompletionError::MissingMember,
            ),
            (Some(_), None) => r == Err::<CompletionRoute, CompletionError>(
                CompletionError::MissingPackage,
            ),
            (Some(m), Some(p)) => r matches Ok(CompletionRoute::Package { member_id, purchase_id })
                && member_id@ == m@ && purchase_id@ == p@,
        },
        service_type@ != "套盒手工"@ ==> match project_id {
            None => r == Err::<CompletionRoute, CompletionError>(CompletionError::MissingProject),
            Some(p) => r matches Ok(CompletionRoute::Project { project_id }) && project_id@ == p@,
        },
{
    if same_text(service_type, "套盒手工") {
        match member_id {
            None => Err(CompletionError::MissingMember),
            Some(m) => match purchase_id {
                None => Err(CompletionError::MissingPackage),
                Some(p) => Ok(CompletionRoute::Package { member_id: m.to_owned(), purchase_id: p.to_owned() }),
            },
        }
    } else {
        match project_id {
            None => Err(CompletionError::MissingProject),
            Some(p) => Ok(CompletionRoute::Project { project_id: p.to_owned() }),
        }
    }
}

} // verus!
