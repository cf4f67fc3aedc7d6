//! Which reminders are due at a given minute of the week.
//!
//! The matcher keeps no memory: every call looks at every slot afresh, so a
//! caller that asks once per minute gets each reminder once.

use vstd::prelude::*;
use vstd::string::*;

use crate::clock::{clock_minutes, forward_gap, Day, TimeOfDay};
use crate::config::{
    lemma_added_slot_is_last, slots_view, timetable_view, ConfigView, SlotView, StudySession,
};
use crate::table::{lemma_position_is_valid, position, Table};
use crate::text::{decimal_digits, decimal_text};

verus! {

/// How many minutes before a slot starts the early reminder is due.
pub const LEAD_MINUTES: u16 = 5;

/// The two reminders that a slot can give.
#[derive(Clone, Copy, Debug, PartialEq, Eq, Structural)]
pub enum AlertKind {
    /// The slot starts at this very minute.
    StartingNow,
    /// The slot starts in five minutes.
    StartingSoon,
}

/// A reminder that is due.
#[derive(Debug)]
pub struct Alert {
    pub kind: AlertKind,
    /// The name of the subject whose slot is meant.
    pub subject: String,
    /// The text to show.
    pub message: String,
}

/// What a reminder holds, as plain text.
pub struct AlertView {
    pub kind: AlertKind,
    pub subject: Seq<char>,
    pub message: Seq<char>,
}

impl View for Alert {
    type V = AlertView;

    open spec fn view(&self) -> AlertView {
        AlertView { kind: self.kind, subject: self.subject@, message: self.message@ }
    }
}

/// The reminders of a list, in order.
pub open spec fn alerts_view(alerts: Seq<Alert>) -> Seq<AlertView> {
    Seq::new(alerts.len(), |i: int| alerts[i]@)
}

/// The text of the reminder that a slot starts now.
pub open spec fn starting_now_message(subject: Seq<char>, duration: u32) -> Seq<char> {
    "Time to study "@ + subject + " for "@ + decimal_digits(duration as nat) + " minutes"@
}

/// The text of the reminder that a slot starts in five minutes.
pub open spec fn starting_soon_message(subject: Seq<char>) -> Seq<char> {
    subject + " study session starts in 5 minutes"@
}

/// The slot is on the given day and starts at the given minute of the day.
pub open spec fn starts_now(slot: SlotView, day: Day, minute: int) -> bool {
    Day::named(slot.day) == Some(day) && clock_minutes(slot.start_time) == Some(minute)
}

/// The slot is on the given day, and from the given minute of the day forward
/// to its start, wrapping at midnight, it is exactly five minutes.
pub open spec fn starts_soon(slot: SlotView, day: Day, minute: int) -> bool {
    &&& Day::named(slot.day) == Some(day)
    &&& clock_minutes(slot.start_time) matches Some(start)
    &&& forward_gap(minute, start) == LEAD_MINUTES
}

/// The reminders that one slot gives: the one for starting now if it is due,
/// then the one for starting soon if it is due.
pub open spec fn slot_alerts(subject: Seq<char>, slot: SlotView, day: Day, minute: int) -> Seq<
    AlertView,
> {
    let now = if starts_now(slot, day, minute) {
        seq![
            AlertView {
                kind: AlertKind::StartingNow,
                subject,
                message: starting_now_message(subject, slot.duration),
            },
        ]
    } else {
        Seq::empty()
    };
    let soon = if starts_soon(slot, day, minute) {
        seq![
            AlertView {
                kind: AlertKind::StartingSoon,
                subject,
                message: starting_soon_message(subject),
            },
        ]
    } else {
        Seq::empty()
    };
    now + soon
}

/// The reminders that the slots of one subject give, slot after slot.
pub open spec fn subject_alerts(subject: Seq<char>, slots: Seq<SlotView>, day: Day, minute: int) -> Seq<
    AlertView,
>
    decreases slots.len(),
{
    if slots.len() == 0 {
        Seq::empty()
    } else {
        subject_alerts(subject, slots.drop_last(), day, minute) + slot_alerts(
            subject,
            slots.last(),
            day,
            minute,
        )
    }
}

/// The reminders that a whole timetable gives, subject after subject.
pub open spec fn timetable_alerts(
    timetable: Seq<(Seq<char>, Seq<SlotView>)>,
    day: Day,
    minute: int,
) -> Seq<AlertView>
    decreases timetable.len(),
{
    if timetable.len() == 0 {
        Seq::empty()
    } else {
        timetable_alerts(timetable.drop_last(), day, minute) + subject_alerts(
            timetable.last().0,
            timetable.last().1,
            day,
            minute,
        )
    }
}

fn starting_now_alert(subject: &str, duration: u32) -> (r: Alert)
    ensures
        r@ == (AlertView {
            kind: AlertKind::StartingNow,
            subject: subject@,
            message: starting_now_message(subject@, duration),
        }),
{
    let mut message = String::from_str("Time to study ");
    message.append(subject);
    message.append(" for ");
    message.append(decimal_text(duration).as_str());
    message.append(" minutes");
    Alert { kind: AlertKind::StartingNow, subject: String::from_str(subject), message }
}

fn starting_soon_alert(subject: &str) -> (r: Alert)
    ensures
        r@ == (AlertView {
            kind: AlertKind::StartingSoon,
            subject: subject@,
            message: starting_soon_message(subject@),
        }),
{
    let mut message = String::from_str(subject);
    message.append(" study session starts in 5 minutes");
    Alert { kind: AlertKind::StartingSoon, subject: String::from_str(subject), message }
}

/// Adds to `out` the reminders that one slot gives.
fn push_slot_alerts(out: &mut Vec<Alert>, subject: &str, slot: &StudySession, day: Day, now: TimeOfDay)
    ensures
        alerts_view(final(out)@) == alerts_view(old(out)@) + slot_alerts(
            subject@,
            slot@,
            day,
            now.minute_of_day(),
        ),
{
    let on_day = match Day::from_name(slot.day.as_str()) {
        Some(d) => d == day,
        None => false,
    };
    if on_day {
        match TimeOfDay::parse(slot.start_time.as_str()) {
            Some(start) => {
                if start.minutes() == now.minutes() {
                    out.push(starting_now_alert(subject, slot.duration));
                }
                if now.minutes_until(start) == LEAD_MINUTES {
                    out.push(starting_soon_alert(subject));
                }
            },
            None => {},
        }
    }
}

/// The reminders due on the given day at the given time of day, for every
/// slot of the timetable, in the timetable's order.
pub fn due_alerts(schedules: &Table<Vec<StudySession>>, day: Day, now: TimeOfDay) -> (r: Vec<Alert>)
    ensures
        alerts_view(r@) == timetable_alerts(timetable_view(schedules@), day, now.minute_of_day()),
{
    let ghost timetable = timetable_view(schedules@);
    let ghost minute = now.minute_of_day();
    let mut out: Vec<Alert> = Vec::new();
    let mut i: usize = 0;
    while i < schedules.len()
        invariant
            i <= schedules@.len(),
            timetable == timetable_view(schedules@),
            minute == now.minute_of_day(),
            alerts_view(out@) == timetable_alerts(timetable.take(i as int), day, minute),
        decreases schedules@.len() - i,
    {
        let subject = schedules.name_at(i);
        let slots = schedules.value_at(i);
        let ghost listed = slots_view(slots@);
        let ghost earlier = alerts_view(out@);
        let mut j: usize = 0;
        while j < slots.len()
            invariant
                j <= slots@.len(),
                listed == slots_view(slots@),
                minute == now.minute_of_day(),
                alerts_view(out@) == earlier + subject_alerts(
                    subject@,
                    listed.take(j as int),
                    day,
                    minute,
                ),
            decreases slots@.len() - j,
        {
            push_slot_alerts(&mut out, subject, &slots[j], day, now);
            proof {
                let upto = listed.take(j + 1);
                assert(upto.drop_last() =~= listed.take(j as int));
            }
            j += 1;
        }
        proof {
            assert(listed.take(j as int) =~= listed);
            let upto = timetable.take(i + 1);
            assert(upto.drop_last() =~= timetable.take(i as int));
        }
        i += 1;
    }
    assert(timetable.take(i as int) =~= timetable);
    out
}

/// No slot is due for both reminders at one minute: a slot gives at most one.
pub proof fn lemma_slot_gives_at_most_one(subject: Seq<char>, slot: SlotView, day: Day, minute: int)
    ensures
        !(starts_now(slot, day, minute) && starts_soon(slot, day, minute)),
        slot_alerts(subject, slot, day, minute).len() <= 1,
{
}

/// A timetable that holds one slot gives what that slot gives.
pub proof fn lemma_single_slot_timetable(
    subject: Seq<char>,
    slot: SlotView,
    day: Day,
    minute: int,
)
    ensures
        timetable_alerts(seq![(subject, seq![slot])], day, minute) == slot_alerts(
            subject,
            slot,
            day,
            minute,
        ),
{
    let slots = seq![slot];
    let timetable = seq![(subject, slots)];
    assert(subject_alerts(subject, slots.drop_last(), day, minute) =~= Seq::<AlertView>::empty());
    assert(timetable_alerts(timetable.drop_last(), day, minute) =~= Seq::<AlertView>::empty());
}

/// What a valid slot gives over the week. At its own minute on its own day it
/// gives the reminder for starting now and nothing else; five minutes earlier
/// on that day (counted across midnight) the reminder for starting soon and
/// nothing else; at every other minute of the week nothing.
pub proof fn lemma_slot_alerts_by_minute(
    subject: Seq<char>,
    slot: SlotView,
    slot_day: Day,
    start: int,
    day: Day,
    minute: int,
)
    requires
        Day::named(slot.day) == Some(slot_day),
        clock_minutes(slot.start_time) == Some(start),
        0 <= minute < 1440,
    ensures
        day == slot_day && minute == start ==> slot_alerts(subject, slot, day, minute) == seq![
            AlertView {
                kind: AlertKind::StartingNow,
                subject,
                message: starting_now_message(subject, slot.duration),
            },
        ],
        day == slot_day && minute == (if start >= 5 {
            start - 5
        } else {
            start + 1435
        }) ==> slot_alerts(subject, slot, day, minute) == seq![
            AlertView {
                kind: AlertKind::StartingSoon,
                subject,
                message: starting_soon_message(subject),
            },
        ],
        !(day == slot_day && (minute == start || minute == (if start >= 5 {
            start - 5
        } else {
            start + 1435
        }))) ==> slot_alerts(subject, slot, day, minute) == Seq::<AlertView>::empty(),
{
}

/// A timetable gives no more reminders than it has slots.
pub proof fn lemma_alert_count(timetable: Seq<(Seq<char>, Seq<SlotView>)>, day: Day, minute: int)
    ensures
        timetable_alerts(timetable, day, minute).len() <= slot_count(timetable),
    decreases timetable.len(),
{
    if timetable.len() > 0 {
        lemma_alert_count(timetable.drop_last(), day, minute);
        lemma_subject_alert_count(timetable.last().0, timetable.last().1, day, minute);
    }
}

/// The number of slots in a timetable.
pub open spec fn slot_count(timetable: Seq<(Seq<char>, Seq<SlotView>)>) -> nat
    decreases timetable.len(),
{
    if timetable.len() == 0 {
        0
    } else {
        slot_count(timetable.drop_last()) + timetable.last().1.len()
    }
}

/// The slots of one subject give no more reminders than there are slots.
pub proof fn lemma_subject_alert_count(
    subject: Seq<char>,
    slots: Seq<SlotView>,
    day: Day,
    minute: int,
)
    ensures
        subject_alerts(subject, slots, day, minute).len() <= slots.len(),
    decreases slots.len(),
{
    if slots.len() > 0 {
        lemma_subject_alert_count(subject, slots.drop_last(), day, minute);
        lemma_slot_gives_at_most_one(subject, slots.last(), day, minute);
    }
}

/// Something is in the concatenation of two sequences exactly when it is in
/// one of them.
proof fn lemma_concat_contains(a: Seq<AlertView>, b: Seq<AlertView>, alert: AlertView)
    ensures
        (a + b).contains(alert) <==> a.contains(alert) || b.contains(alert),
{
    if a.contains(alert) {
        let i = choose|i: int| 0 <= i < a.len() && a[i] == alert;
        assert((a + b)[i] == alert);
    }
    if b.contains(alert) {
        let i = choose|i: int| 0 <= i < b.len() && b[i] == alert;
        assert((a + b)[a.len() + i] == alert);
    }
    if (a + b).contains(alert) {
        let i = choose|i: int| 0 <= i < (a + b).len() && (a + b)[i] == alert;
        if i < a.len() {
            assert(a[i] == alert);
        } else {
            assert(b[i - a.len()] == alert);
        }
    }
}

/// The reminders that a subject's slots give are exactly those that one of
/// the slots gives.
pub proof fn lemma_subject_alerts_are_of_slots(
    subject: Seq<char>,
    slots: Seq<SlotView>,
    day: Day,
    minute: int,
    alert: AlertView,
)
    ensures
        subject_alerts(subject, slots, day, minute).contains(alert) <==> exists|k: int|
            0 <= k < slots.len() && #[trigger] slot_alerts(subject, slots[k], day, minute).contains(
                alert,
            ),
    decreases slots.len(),
{
    if slots.len() > 0 {
        let front = slots.drop_last();
        let last = slots.len() - 1;
        lemma_subject_alerts_are_of_slots(subject, front, day, minute, alert);
        lemma_concat_contains(
            subject_alerts(subject, front, day, minute),
            slot_alerts(subject, slots.last(), day, minute),
            alert,
        );
        if subject_alerts(subject, front, day, minute).contains(alert) {
            let k = choose|k: int|
                0 <= k < front.len() && #[trigger] slot_alerts(
                    subject,
                    front[k],
                    day,
                    minute,
                ).contains(alert);
            assert(slot_alerts(subject, slots[k], day, minute).contains(alert));
        }
        if slot_alerts(subject, slots.last(), day, minute).contains(alert) {
            assert(slot_alerts(subject, slots[last], day, minute).contains(alert));
        }
        if exists|k: int|
            0 <= k < slots.len() && #[trigger] slot_alerts(subject, slots[k], day, minute).contains(
                alert,
            ) {
            let k = choose|k: int|
                0 <= k < slots.len() && #[trigger] slot_alerts(
                    subject,
                    slots[k],
                    day,
                    minute,
                ).contains(alert);
            if k < last {
                assert(slot_alerts(subject, front[k], day, minute).contains(alert));
            }
        }
    }
}

/// The reminders that a timetable gives are exactly those that one of its
/// slots gives, under the name of the subject that the slot belongs to:
/// nothing is left out and nothing is made up.
pub proof fn lemma_alerts_are_of_slots(
    timetable: Seq<(Seq<char>, Seq<SlotView>)>,
    day: Day,
    minute: int,
    alert: AlertView,
)
    ensures
        timetable_alerts(timetable, day, minute).contains(alert) <==> exists|i: int, k: int|
            0 <= i < timetable.len() && 0 <= k < timetable[i].1.len() && #[trigger] slot_alerts(
                timetable[i].0,
                timetable[i].1[k],
                day,
                minute,
            ).contains(alert),
    decreases timetable.len(),
{
    if timetable.len() > 0 {
        let front = timetable.drop_last();
        let last = timetable.len() - 1;
        lemma_alerts_are_of_slots(front, day, minute, alert);
        lemma_subject_alerts_are_of_slots(
            timetable.last().0,
            timetable.last().1,
            day,
            minute,
            alert,
        );
        lemma_concat_contains(
            timetable_alerts(front, day, minute),
            subject_alerts(timetable.last().0, timetable.last().1, day, minute),
            alert,
        );
        if timetable_alerts(front, day, minute).contains(alert) {
            let (i, k) = choose|i: int, k: int|
                0 <= i < front.len() && 0 <= k < front[i].1.len() && #[trigger] slot_alerts(
                    front[i].0,
                    front[i].1[k],
                    day,
                    minute,
                ).contains(alert);
            assert(slot_alerts(timetable[i].0, timetable[i].1[k], day, minute).contains(alert));
        }
        if subject_alerts(timetable.last().0, timetable.last().1, day, minute).contains(alert) {
            let k = choose|k: int|
                0 <= k < timetable.last().1.len() && #[trigger] slot_alerts(
                    timetable.last().0,
                    timetable.last().1[k],
                    day,
                    minute,
                ).contains(alert);
            assert(slot_alerts(timetable[last].0, timetable[last].1[k], day, minute).contains(
                alert,
            ));
        }
        if exists|i: int, k: int|
            0 <= i < timetable.len() && 0 <= k < timetable[i].1.len() && #[trigger] slot_alerts(
                timetable[i].0,
                timetable[i].1[k],
                day,
                minute,
            ).contains(alert) {
            let (i, k) = choose|i: int, k: int|
                0 <= i < timetable.len() && 0 <= k < timetable[i].1.len() && #[trigger] slot_alerts(
                    timetable[i].0,
                    timetable[i].1[k],
                    day,
                    minute,
                ).contains(alert);
            if i < last {
                assert(slot_alerts(front[i].0, front[i].1[k], day, minute).contains(alert));
            } else {
                assert(slot_alerts(
                    timetable.last().0,
                    timetable.last().1[k],
                    day,
                    minute,
                ).contains(alert));
            }
        }
    }
}

/// A slot that was added to the store is announced: at its own minute on its
/// own day the timetable gives the reminder that it starts now, under the
/// name of its subject and with its length; and five minutes earlier on that
/// day the reminder that it starts soon.
pub proof fn lemma_added_slot_is_announced(
    config: ConfigView,
    subject: Seq<char>,
    day_name: Seq<char>,
    start_time: Seq<char>,
    duration: u32,
    day: Day,
    start: int,
    minute: int,
)
    requires
        config.wf(),
        config.add_schedule(subject, day_name, start_time, duration).1 is Ok,
        Day::named(day_name) == Some(day),
        clock_minutes(start_time) == Some(start),
    ensures
        minute == start ==> timetable_alerts(
            config.add_schedule(subject, day_name, start_time, duration).0.schedules,
            day,
            minute,
        ).contains(
            AlertView {
                kind: AlertKind::StartingNow,
                subject,
                message: starting_now_message(subject, duration),
            },
        ),
        forward_gap(minute, start) == LEAD_MINUTES ==> timetable_alerts(
            config.add_schedule(subject, day_name, start_time, duration).0.schedules,
            day,
            minute,
        ).contains(
            AlertView {
                kind: AlertKind::StartingSoon,
                subject,
                message: starting_soon_message(subject),
            },
        ),
{
    let slot = SlotView { day: day_name, start_time, duration };
    let after = config.add_schedule(subject, day_name, start_time, duration).0.schedules;
    lemma_added_slot_is_last(config, subject, day_name, start_time, duration);
    lemma_position_is_valid(after, subject);
    let i = position(after, subject)->0;
    let k = after[i].1.len() - 1;
    assert(after[i].1[k] == slot);
    let given = slot_alerts(subject, slot, day, minute);
    if minute == start {
        let alert = AlertView {
            kind: AlertKind::StartingNow,
            subject,
            message: starting_now_message(subject, duration),
        };
        assert(given[0] == alert);
        assert(slot_alerts(after[i].0, after[i].1[k], day, minute).contains(alert));
        lemma_alerts_are_of_slots(after, day, minute, alert);
    }
    if forward_gap(minute, start) == LEAD_MINUTES {
        let alert = AlertView {
            kind: AlertKind::StartingSoon,
            subject,
            message: starting_soon_message(subject),
        };
        assert(given[0] == alert);
        assert(slot_alerts(after[i].0, after[i].1[k], day, minute).contains(alert));
        lemma_alerts_are_of_slots(after, day, minute, alert);
    }
}

} // verus!
