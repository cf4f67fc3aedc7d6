//! The store of study goals and of the weekly timetable.

use vstd::prelude::*;
use vstd::string::*;

use crate::clock::{clock_minutes, colon_count, lemma_clock_text_has_one_colon, Day, TimeOfDay};
use crate::hours::Hours;
use crate::table::{
    distinct_names, has_name, lemma_position_is_valid, lemma_position_of_entry, lemma_upsert,
    lookup, position, upsert, Table,
};

verus! {

/// A study goal: the hours aimed at and the hours done so far.
#[derive(Clone, Copy, Debug, PartialEq, Eq, Structural)]
pub struct Subject {
    pub target_hours: Hours,
    pub completed_hours: Hours,
}

impl Subject {
    /// Both amounts are numbers that are at least zero.
    pub open spec fn is_valid(self) -> bool {
        self.target_hours.is_non_negative() && self.completed_hours.is_non_negative()
    }
}

/// A weekly recurring time slot for studying one subject.
#[derive(Debug)]
pub struct StudySession {
    /// The canonical name of the day of the week.
    pub day: String,
    /// The start, written `HH:MM` on the 24-hour clock.
    pub start_time: String,
    /// The length in minutes.
    pub duration: u32,
}

/// What a slot holds, as plain text and numbers.
pub struct SlotView {
    pub day: Seq<char>,
    pub start_time: Seq<char>,
    pub duration: u32,
}

impl SlotView {
    /// The day is one of the seven canonical names, the start is a time of
    /// day written `HH:MM`, and the slot lasts at least a minute.
    pub open spec fn is_valid(self) -> bool {
        &&& Day::named(self.day) is Some
        &&& clock_minutes(self.start_time) is Some
        &&& self.duration > 0
    }
}

impl View for StudySession {
    type V = SlotView;

    open spec fn view(&self) -> SlotView {
        SlotView { day: self.day@, start_time: self.start_time@, duration: self.duration }
    }
}

/// The slots of a list, in order.
pub open spec fn slots_view(slots: Seq<StudySession>) -> Seq<SlotView> {
    Seq::new(slots.len(), |i: int| slots[i]@)
}

/// The timetable that a table of slot lists holds: each subject's name with
/// its slots, in the table's order.
pub open spec fn timetable_view(entries: Seq<(Seq<char>, Vec<StudySession>)>) -> Seq<
    (Seq<char>, Seq<SlotView>),
> {
    Seq::new(entries.len(), |i: int| (entries[i].0, slots_view(entries[i].1@)))
}

/// Why a change to the store was refused.
#[derive(Clone, Copy, Debug, PartialEq, Eq, Structural)]
pub enum ConfigError {
    /// The target of a new subject is not greater than zero.
    NonPositiveTarget,
    /// No subject of that name is in the store.
    UnknownSubject,
    /// The day is not one of the seven canonical names.
    UnknownDay,
    /// The start time is not written `HH:MM` on the 24-hour clock.
    MalformedTime,
    /// The slot would last no time at all.
    ZeroDuration,
}

impl ConfigError {
    /// Whether the error reports an input that failed validation, as
    /// opposed to a subject that is not there.
    pub open spec fn is_validation_error(self) -> bool {
        self != ConfigError::UnknownSubject
    }

    /// Whether the error reports an input that failed validation.
    pub fn is_validation(&self) -> (r: bool)
        ensures
            r == self.is_validation_error(),
    {
        match self {
            ConfigError::UnknownSubject => false,
            _ => true,
        }
    }
}

/// What the store holds: the subjects and the timetable, each in the order
/// in which the names were first added.
pub struct ConfigView {
    pub subjects: Seq<(Seq<char>, Subject)>,
    pub schedules: Seq<(Seq<char>, Seq<SlotView>)>,
}

impl ConfigView {
    /// No subject and no timetable entry is named twice.
    pub open spec fn wf(self) -> bool {
        distinct_names(self.subjects) && distinct_names(self.schedules)
    }

    /// Every subject has valid amounts, every slot is valid, and every
    /// timetable entry belongs to a subject of the store.
    pub open spec fn is_consistent(self) -> bool {
        &&& forall|i: int| 0 <= i < self.subjects.len() ==> (#[trigger] self.subjects[i]).1.is_valid()
        &&& forall|i: int|
            0 <= i < self.schedules.len() ==> has_name(
                self.subjects,
                (#[trigger] self.schedules[i]).0,
            )
        &&& forall|i: int, k: int|
            0 <= i < self.schedules.len() && 0 <= k < self.schedules[i].1.len() ==> (
            #[trigger] self.schedules[i].1[k]).is_valid()
    }

    /// The store with nothing in it.
    pub open spec fn empty() -> ConfigView {
        ConfigView { subjects: Seq::empty(), schedules: Seq::empty() }
    }

    /// The outcome of adding a subject: the store afterwards and the report.
    /// A target that is not greater than zero is refused and leaves the store
    /// as it was. Otherwise the name holds the target with nothing completed,
    /// whatever it held before.
    pub open spec fn add_subject(self, name: Seq<char>, target_hours: Hours) -> (
        ConfigView,
        Result<(), ConfigError>,
    ) {
        if !target_hours.is_positive() {
            (self, Err(ConfigError::NonPositiveTarget))
        } else {
            (
                ConfigView {
                    subjects: upsert(
                        self.subjects,
                        name,
                        Subject { target_hours, completed_hours: Hours { bits: 0 } },
                    ),
                    schedules: self.schedules,
                },
                Ok(()),
            )
        }
    }

    /// The slots of a subject after one more is added at the end.
    pub open spec fn slots_with(self, subject: Seq<char>, slot: SlotView) -> Seq<SlotView> {
        match lookup(self.schedules, subject) {
            Some(slots) => slots.push(slot),
            None => seq![slot],
        }
    }

    /// The outcome of adding a slot: the store afterwards and the report.
    /// The checks come in this order, and the first that fails decides: the
    /// subject is in the store, the day is a canonical name, the start time
    /// is written `HH:MM`, the duration is not zero. A refusal leaves the
    /// store as it was. Otherwise the slot goes to the end of the subject's
    /// list.
    pub open spec fn add_schedule(
        self,
        subject: Seq<char>,
        day: Seq<char>,
        start_time: Seq<char>,
        duration: u32,
    ) -> (ConfigView, Result<(), ConfigError>) {
        if !has_name(self.subjects, subject) {
            (self, Err(ConfigError::UnknownSubject))
        } else if Day::named(day) is None {
            (self, Err(ConfigError::UnknownDay))
        } else if clock_minutes(start_time) is None {
            (self, Err(ConfigError::MalformedTime))
        } else if duration == 0 {
            (self, Err(ConfigError::ZeroDuration))
        } else {
            (
                ConfigView {
                    subjects: self.subjects,
                    schedules: upsert(
                        self.schedules,
                        subject,
                        self.slots_with(subject, SlotView { day, start_time, duration }),
                    ),
                },
                Ok(()),
            )
        }
    }
}

/// The store of subjects and of their weekly slots.
#[derive(Debug)]
pub struct Config {
    pub subjects: Table<Subject>,
    pub schedules: Table<Vec<StudySession>>,
}

impl View for Config {
    type V = ConfigView;

    open spec fn view(&self) -> ConfigView {
        ConfigView { subjects: self.subjects@, schedules: timetable_view(self.schedules@) }
    }
}

impl Default for Config {
    /// The store with nothing in it.
    fn default() -> (r: Config)
        ensures
            r@ == ConfigView::empty(),
            r@.wf(),
    {
        let r = Config { subjects: Table::new(), schedules: Table::new() };
        assert(r@.schedules =~= Seq::empty());
        r
    }
}

/// The timetable of a table names the same subjects at the same places.
pub proof fn lemma_timetable_names(entries: Seq<(Seq<char>, Vec<StudySession>)>, name: Seq<char>)
    requires
        distinct_names(entries),
    ensures
        distinct_names(timetable_view(entries)),
        has_name(timetable_view(entries), name) == has_name(entries, name),
        position(timetable_view(entries), name) == position(entries, name),
        lookup(timetable_view(entries), name) == match lookup(entries, name) {
            Some(list) => Some(slots_view(list@)),
            None => None,
        },
{
    let table = timetable_view(entries);
    lemma_position_is_valid(entries, name);
    lemma_position_is_valid(table, name);
    if position(entries, name) is Some {
        lemma_position_of_entry(table, position(entries, name)->0);
    }
}

impl Clone for StudySession {
    /// A slot that holds the same as this one.
    fn clone(&self) -> (r: StudySession)
        ensures
            r@ == self@,
    {
        StudySession {
            day: self.day.clone(),
            start_time: self.start_time.clone(),
            duration: self.duration,
        }
    }
}

/// A list that holds the same slots in the same order.
pub fn copy_slots(slots: &Vec<StudySession>) -> (r: Vec<StudySession>)
    ensures
        slots_view(r@) == slots_view(slots@),
{
    let mut out: Vec<StudySession> = Vec::new();
    let mut i: usize = 0;
    while i < slots.len()
        invariant
            i <= slots@.len(),
            out@.len() == i,
            forall|k: int| 0 <= k < i ==> (#[trigger] out@[k])@ == slots@[k]@,
        decreases slots@.len() - i,
    {
        out.push(slots[i].clone());
        i += 1;
    }
    out
}

/// A table that holds the same timetable: the same subjects in the same
/// order, each with the same slots.
pub fn copy_timetable(table: &Table<Vec<StudySession>>) -> (r: Table<Vec<StudySession>>)
    ensures
        timetable_view(r@) == timetable_view(table@),
{
    proof {
        use_type_invariant(table);
    }
    let mut out: Table<Vec<StudySession>> = Table::new();
    let mut i: usize = 0;
    while i < table.len()
        invariant
            i <= table@.len(),
            distinct_names(table@),
            out@.len() == i,
            forall|k: int| 0 <= k < i ==> (#[trigger] out@[k]).0 == table@[k].0,
            forall|k: int|
                0 <= k < i ==> slots_view((#[trigger] out@[k]).1@) == slots_view(table@[k].1@),
        decreases table@.len() - i,
    {
        let name = table.name_at(i);
        let slots = copy_slots(table.value_at(i));
        proof {
            lemma_position_is_valid(out@, name@);
        }
        out.insert(name, slots);
        i += 1;
    }
    out
}

impl Config {
    /// Adds a subject with the given target and nothing completed, or
    /// replaces the subject of that name. A target that is not greater than
    /// zero is refused.
    pub fn add_subject(&mut self, name: &str, target_hours: Hours) -> (r: Result<
        (),
        ConfigError,
    >)
        ensures
            final(self)@ == old(self)@.add_subject(name@, target_hours).0,
            r == old(self)@.add_subject(name@, target_hours).1,
            final(self)@.wf(),
    {
        proof {
            use_type_invariant(&self.subjects);
            use_type_invariant(&self.schedules);
            lemma_timetable_names(self.schedules@, name@);
        }
        if !target_hours.positive() {
            return Err(ConfigError::NonPositiveTarget);
        }
        self.subjects.insert(name, Subject { target_hours, completed_hours: Hours::zero() });
        Ok(())
    }

    /// Adds a weekly slot at the end of a subject's list.
    pub fn add_schedule(&mut self, subject: &str, day: &str, start_time: &str, duration: u32) -> (r:
        Result<(), ConfigError>)
        ensures
            final(self)@ == old(self)@.add_schedule(subject@, day@, start_time@, duration).0,
            r == old(self)@.add_schedule(subject@, day@, start_time@, duration).1,
            final(self)@.wf(),
    {
        proof {
            use_type_invariant(&self.subjects);
            use_type_invariant(&self.schedules);
            lemma_timetable_names(self.schedules@, subject@);
        }
        if !self.subjects.contains_key(subject) {
            return Err(ConfigError::UnknownSubject);
        }
        if Day::from_name(day).is_none() {
            return Err(ConfigError::UnknownDay);
        }
        if TimeOfDay::parse(start_time).is_none() {
            return Err(ConfigError::MalformedTime);
        }
        if duration == 0 {
            return Err(ConfigError::ZeroDuration);
        }
        let session = StudySession {
            day: String::from_str(day),
            start_time: String::from_str(start_time),
            duration,
        };
        let ghost before = self.schedules@;
        let ghost slot = session@;
        let ghost wanted = upsert(
            timetable_view(before),
            subject@,
            old(self)@.slots_with(subject@, slot),
        );
        match self.schedules.position(subject) {
            Some(i) => {
                let mut list = self.schedules.replace_at(i, Vec::new());
                list.push(session);
                assert(slots_view(list@) =~= slots_view(before[i as int].1@).push(slot));
                self.schedules.replace_at(i, list);
                assert(timetable_view(self.schedules@) =~= wanted);
            },
            None => {
                let mut list = Vec::new();
                list.push(session);
                assert(slots_view(list@) =~= seq![slot]);
                self.schedules.insert(subject, list);
                assert(timetable_view(self.schedules@) =~= wanted);
            },
        }
        proof {
            use_type_invariant(&self.schedules);
            lemma_timetable_names(self.schedules@, subject@);
        }
        Ok(())
    }
}

/// Adding a subject with a target greater than zero succeeds, and looking the
/// name up afterwards gives that target with nothing completed.
pub proof fn lemma_added_subject_is_found(config: ConfigView, name: Seq<char>, target_hours: Hours)
    requires
        config.wf(),
        target_hours.is_positive(),
    ensures
        config.add_subject(name, target_hours).1 is Ok,
        lookup(config.add_subject(name, target_hours).0.subjects, name) == Some(
            Subject { target_hours, completed_hours: Hours { bits: 0 } },
        ),
        config.add_subject(name, target_hours).0.schedules == config.schedules,
        config.add_subject(name, target_hours).0.wf(),
{
    lemma_upsert(
        config.subjects,
        name,
        Subject { target_hours, completed_hours: Hours { bits: 0 } },
    );
}

/// Adding a subject with a target that is not greater than zero is refused
/// as invalid and leaves the store as it was.
pub proof fn lemma_refused_subject_changes_nothing(
    config: ConfigView,
    name: Seq<char>,
    target_hours: Hours,
)
    requires
        !target_hours.is_positive(),
    ensures
        config.add_subject(name, target_hours).0 == config,
        config.add_subject(name, target_hours).1 == Err::<(), ConfigError>(
            ConfigError::NonPositiveTarget,
        ),
        ConfigError::NonPositiveTarget.is_validation_error(),
{
}

/// Adding a slot for a subject that is not in the store reports the unknown
/// subject, whatever the other inputs are, and leaves the store as it was.
pub proof fn lemma_unknown_subject_is_refused(
    config: ConfigView,
    subject: Seq<char>,
    day: Seq<char>,
    start_time: Seq<char>,
    duration: u32,
)
    requires
        !has_name(config.subjects, subject),
    ensures
        config.add_schedule(subject, day, start_time, duration).0 == config,
        config.add_schedule(subject, day, start_time, duration).1 == Err::<(), ConfigError>(
            ConfigError::UnknownSubject,
        ),
{
}

/// Adding a slot for a subject of the store is refused as invalid, and the
/// store left as it was, when the day is not a canonical name or the start
/// time does not hold exactly one colon.
pub proof fn lemma_bad_day_or_time_is_refused(
    config: ConfigView,
    subject: Seq<char>,
    day: Seq<char>,
    start_time: Seq<char>,
    duration: u32,
)
    requires
        has_name(config.subjects, subject),
        Day::named(day) is None || colon_count(start_time) != 1,
    ensures
        config.add_schedule(subject, day, start_time, duration).0 == config,
        config.add_schedule(subject, day, start_time, duration).1 matches Err(e)
            && e.is_validation_error(),
{
    if clock_minutes(start_time) is Some {
        lemma_clock_text_has_one_colon(start_time);
    }
}

/// Adding a slot succeeds exactly when the subject is in the store, the day
/// and the start time are valid and the duration is not zero; the slot is then
/// the last of the subject's list, after the slots that were there.
pub proof fn lemma_added_slot_is_last(
    config: ConfigView,
    subject: Seq<char>,
    day: Seq<char>,
    start_time: Seq<char>,
    duration: u32,
)
    requires
        config.wf(),
    ensures
        config.add_schedule(subject, day, start_time, duration).1 is Ok <==> has_name(
            config.subjects,
            subject,
        ) && (SlotView { day, start_time, duration }).is_valid(),
        config.add_schedule(subject, day, start_time, duration).1 is Ok ==> {
            let after = config.add_schedule(subject, day, start_time, duration).0;
            let earlier = match lookup(config.schedules, subject) {
                Some(slots) => slots,
                None => Seq::empty(),
            };
            &&& after.wf()
            &&& after.subjects == config.subjects
            &&& lookup(after.schedules, subject) == Some(
                earlier.push(SlotView { day, start_time, duration }),
            )
            &&& forall|other: Seq<char>|
                other != subject ==> #[trigger] lookup(after.schedules, other) == lookup(
                    config.schedules,
                    other,
                )
        },
{
    let slot = SlotView { day, start_time, duration };
    lemma_upsert(config.schedules, subject, config.slots_with(subject, slot));
}

/// The empty store is consistent, and adding a subject or a slot keeps a
/// consistent store consistent.
pub proof fn lemma_changes_keep_consistency(
    config: ConfigView,
    name: Seq<char>,
    target_hours: Hours,
    day: Seq<char>,
    start_time: Seq<char>,
    duration: u32,
)
    requires
        config.wf(),
        config.is_consistent(),
    ensures
        ConfigView::empty().wf() && ConfigView::empty().is_consistent(),
        config.add_subject(name, target_hours).0.is_consistent(),
        config.add_schedule(name, day, start_time, duration).0.is_consistent(),
{
    let one = config.add_subject(name, target_hours).0;
    if target_hours.is_positive() {
        lemma_position_is_valid(config.subjects, name);
        assert forall|i: int| 0 <= i < one.schedules.len() implies has_name(
            one.subjects,
            (#[trigger] one.schedules[i]).0,
        ) by {
            let wanted = one.schedules[i].0;
            let k = choose|k: int|
                0 <= k < config.subjects.len() && (#[trigger] config.subjects[k]).0 == wanted;
            assert(one.subjects[k].0 == wanted);
        }
    }
    if config.add_schedule(name, day, start_time, duration).1 is Ok {
        lemma_position_is_valid(config.schedules, name);
        let list = config.slots_with(name, SlotView { day, start_time, duration });
        assert forall|k: int| 0 <= k < list.len() implies (#[trigger] list[k]).is_valid() by {}
    }
}

} // verus!
