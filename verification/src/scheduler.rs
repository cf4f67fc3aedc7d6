//! The study timer as its commands see it: the store, the switch of the
//! reminder watcher, and what the watcher decides at each tick.

use std::sync::atomic::AtomicBool;
use std::sync::atomic::Ordering;
use std::sync::Arc;
use vstd::prelude::*;
use vstd::string::*;

use crate::clock::{ClockReading, Day, TimeOfDay};
use crate::config::{
    copy_slots, copy_timetable, timetable_view, Config, ConfigError, ConfigView, SlotView,
    StudySession, Subject, slots_view,
};
use crate::hours::Hours;
use crate::matcher::{alerts_view, due_alerts, timetable_alerts, Alert, AlertView};
use crate::notification::{Notice, NoticeView, Notifier, NOTICE_TIMEOUT_MS};
use crate::table::{lookup, Table};

verus! {

/// The number of seconds that the watcher sleeps between two ticks.
pub const POLL_INTERVAL_SECONDS: u64 = 60;

/// The title under which every reminder is shown.
pub const ALERT_TITLE: &'static str = "Study Timer";

/// What the watcher is to do after a tick.
#[derive(Debug)]
pub enum Tick {
    /// The watcher was switched off: say so and end, sending nothing more.
    Stopped,
    /// Send these reminders, each under [`ALERT_TITLE`], going on to the next
    /// when one cannot be delivered; then sleep and tick again.
    Continue { alerts: Vec<Alert>, sleep_seconds: u64 },
}

/// What a tick's outcome holds.
pub enum TickView {
    Stopped,
    Continue { alerts: Seq<AlertView>, sleep_seconds: u64 },
}

impl View for Tick {
    type V = TickView;

    open spec fn view(&self) -> TickView {
        match self {
            Tick::Stopped => TickView::Stopped,
            Tick::Continue { alerts, sleep_seconds } => TickView::Continue {
                alerts: alerts_view(alerts@),
                sleep_seconds: *sleep_seconds,
            },
        }
    }
}

impl TickView {
    /// The reminders that the outcome asks to be sent.
    pub open spec fn alerts(self) -> Seq<AlertView> {
        match self {
            TickView::Stopped => Seq::empty(),
            TickView::Continue { alerts, sleep_seconds } => alerts,
        }
    }

    /// Whether the outcome ends the watcher.
    pub open spec fn ends_watcher(self) -> bool {
        self is Stopped
    }
}

/// The state of a watcher: the timetable that it goes by, and whether it
/// has stopped.
pub struct WatcherView {
    pub timetable: Seq<(Seq<char>, Seq<SlotView>)>,
    pub stopped: bool,
}

impl WatcherView {
    /// What a tick does to the watcher and asks of its caller, given the
    /// state in which the tick finds the switch and the day and minute of the
    /// day that the clock shows. A watcher that has stopped, or that finds its
    /// switch off, is stopped afterwards and asks for nothing to be sent.
    /// Otherwise it asks for the reminders due at that minute and for the
    /// sleep of one polling interval.
    pub open spec fn tick(self, switch_on: bool, day: Day, minute: int) -> (WatcherView, TickView) {
        if self.stopped || !switch_on {
            (WatcherView { timetable: self.timetable, stopped: true }, TickView::Stopped)
        } else {
            (
                self,
                TickView::Continue {
                    alerts: timetable_alerts(self.timetable, day, minute),
                    sleep_seconds: POLL_INTERVAL_SECONDS,
                },
            )
        }
    }
}

/// A switch that is off.
fn new_switch() -> Arc<AtomicBool> {
    Arc::new(AtomicBool::new(false))
}

/// Puts the switch on and says whether it was on before.
fn switch_on(switch: &Arc<AtomicBool>) -> bool {
    switch.swap(true, Ordering::SeqCst)
}

/// Puts the switch off.
fn switch_off(switch: &Arc<AtomicBool>) {
    switch.store(false, Ordering::SeqCst);
}

/// Looks at the switch.
fn switch_is_on(switch: &Arc<AtomicBool>) -> bool {
    switch.load(Ordering::SeqCst)
}

/// `Arc::clone` of the standard library: one more handle to the same switch.
/// Nothing is claimed of the handle.
#[verifier::external_body]
fn share_switch(switch: &Arc<AtomicBool>) -> Arc<AtomicBool> {
    Arc::clone(switch)
}

/// The reminder watcher: the timetable as it was when the watcher was
/// started, and the switch that it shares with the scheduler that started it.
#[derive(Debug)]
pub struct Watcher {
    schedules: Table<Vec<StudySession>>,
    notifier: Notifier,
    running: Arc<AtomicBool>,
    stopped: bool,
}

impl View for Watcher {
    type V = WatcherView;

    /// The timetable and whether the watcher has stopped. The notifier holds
    /// nothing, and the switch is shared with other execution contexts and
    /// has no value that a contract could name: neither is part of the view.
    closed spec fn view(&self) -> WatcherView {
        WatcherView { timetable: timetable_view(self.schedules@), stopped: self.stopped }
    }
}

impl Watcher {
    /// What the watcher does at a tick at which it finds its switch in the
    /// given state and the clock at the given day and time.
    pub fn tick_at(&mut self, switch_on: bool, day: Day, now: TimeOfDay) -> (r: Tick)
        ensures
            final(self)@ == old(self)@.tick(switch_on, day, now.minute_of_day()).0,
            r@ == old(self)@.tick(switch_on, day, now.minute_of_day()).1,
    {
        if self.stopped || !switch_on {
            self.stopped = true;
            Tick::Stopped
        } else {
            Tick::Continue {
                alerts: due_alerts(&self.schedules, day, now),
                sleep_seconds: POLL_INTERVAL_SECONDS,
            }
        }
    }

    /// One tick: looks at the switch and at the local clock and decides.
    /// Whatever they show, the tick is the one that [`WatcherView::tick`]
    /// describes for some state of the switch, some day and some minute of
    /// the day.
    pub fn tick(&mut self) -> (r: Tick)
        ensures
            exists|switch_on: bool, day: Day, minute: int|
                0 <= minute < 1440 && (final(self)@, r@) == #[trigger] old(self)@.tick(
                    switch_on,
                    day,
                    minute,
                ),
    {
        let switch_on = switch_is_on(&self.running);
        let clock = ClockReading::now();
        self.tick_at(switch_on, clock.day, clock.time)
    }

    /// Whether the watcher has stopped: a tick has found the switch off.
    pub fn has_stopped(&self) -> (r: bool)
        ensures
            r == self@.stopped,
    {
        self.stopped
    }

    /// Whether the switch is on at this moment.
    pub fn is_running(&self) -> bool {
        switch_is_on(&self.running)
    }

    /// Switches the watcher off: the next tick that looks at the switch stops.
    pub fn stop(&self) {
        switch_off(&self.running)
    }

    /// The notification that shows a reminder: its message under the title
    /// that all reminders share.
    pub fn notice_for(&self, alert: &Alert) -> (r: Notice)
        ensures
            r@ == (NoticeView {
                summary: ALERT_TITLE@,
                body: alert@.message,
                icon: "clock"@,
                timeout_ms: NOTICE_TIMEOUT_MS,
            }),
    {
        self.notifier.compose(ALERT_TITLE, alert.message.as_str())
    }
}

/// One subject as the listing shows it: its goal, and its slots if the
/// timetable has an entry for it.
#[derive(Debug)]
pub struct SubjectListing {
    pub name: String,
    pub subject: Subject,
    pub sessions: Option<Vec<StudySession>>,
}

/// What one line of the listing holds.
pub struct ListingView {
    pub name: Seq<char>,
    pub subject: Subject,
    pub sessions: Option<Seq<SlotView>>,
}

impl View for SubjectListing {
    type V = ListingView;

    open spec fn view(&self) -> ListingView {
        ListingView {
            name: self.name@,
            subject: self.subject,
            sessions: match self.sessions {
                Some(slots) => Some(slots_view(slots@)),
                None => None,
            },
        }
    }
}

/// The listing of a store: its subjects in order, each with its goal and
/// with the slots that the timetable holds under its name.
pub open spec fn listing_of(config: ConfigView) -> Seq<ListingView> {
    Seq::new(
        config.subjects.len(),
        |i: int|
            ListingView {
                name: config.subjects[i].0,
                subject: config.subjects[i].1,
                sessions: lookup(config.schedules, config.subjects[i].0),
            },
    )
}

/// The study timer: the store, the notifier, and the switch of the watcher.
#[derive(Debug)]
pub struct Scheduler {
    config: Config,
    notifier: Notifier,
    running: Arc<AtomicBool>,
}

impl View for Scheduler {
    type V = ConfigView;

    /// The store that the scheduler holds. The notifier holds nothing, and
    /// the switch is shared with other execution contexts and has no value
    /// that a contract could name: neither is part of the view.
    closed spec fn view(&self) -> ConfigView {
        self.config@
    }
}

impl Scheduler {
    /// A scheduler over a store that was loaded, with the watcher off.
    pub fn new(config: Config) -> (r: Scheduler)
        ensures
            r@ == config@,
    {
        Scheduler { config, notifier: Notifier::new(), running: new_switch() }
    }

    /// A scheduler over an empty store, with the watcher off.
    pub fn init() -> (r: Scheduler)
        ensures
            r@ == ConfigView::empty(),
            r@.wf(),
    {
        Scheduler { config: Config::default(), notifier: Notifier::new(), running: new_switch() }
    }

    /// The store.
    pub fn config(&self) -> (r: &Config)
        ensures
            r@ == self@,
    {
        &self.config
    }

    /// Adds a subject to the store, as [`Config::add_subject`] does.
    pub fn add_subject(&mut self, name: &str, target_hours: Hours) -> (r: Result<(), ConfigError>)
        ensures
            final(self)@ == old(self)@.add_subject(name@, target_hours).0,
            r == old(self)@.add_subject(name@, target_hours).1,
            final(self)@.wf(),
    {
        self.config.add_subject(name, target_hours)
    }

    /// Adds a weekly slot to the store, as [`Config::add_schedule`] does.
    pub fn add_schedule(&mut self, subject: &str, day: &str, start_time: &str, duration: u32) -> (r:
        Result<(), ConfigError>)
        ensures
            final(self)@ == old(self)@.add_schedule(subject@, day@, start_time@, duration).0,
            r == old(self)@.add_schedule(subject@, day@, start_time@, duration).1,
            final(self)@.wf(),
    {
        self.config.add_schedule(subject, day, start_time, duration)
    }

    /// The subjects in the order of the store, each with its goal and its
    /// slots.
    pub fn list_subjects(&self) -> (r: Vec<SubjectListing>)
        ensures
            r@.len() == self@.subjects.len(),
            forall|i: int| 0 <= i < r@.len() ==> (#[trigger] r@[i])@ == listing_of(self@)[i],
    {
        let mut out: Vec<SubjectListing> = Vec::new();
        let mut i: usize = 0;
        while i < self.config.subjects.len()
            invariant
                i <= self.config.subjects@.len(),
                out@.len() == i,
                forall|k: int| 0 <= k < i ==> (#[trigger] out@[k])@ == listing_of(self@)[k],
            decreases self.config.subjects@.len() - i,
        {
            let name = self.config.subjects.name_at(i);
            let subject = *self.config.subjects.value_at(i);
            proof {
                use_type_invariant(&self.config.schedules);
                crate::config::lemma_timetable_names(self.config.schedules@, name@);
            }
            let sessions = match self.config.schedules.get(name) {
                Some(slots) => Some(copy_slots(slots)),
                None => None,
            };
            out.push(SubjectListing { name: String::from_str(name), subject, sessions });
            i += 1;
        }
        out
    }

    /// A watcher over the timetable as it is now, unless a watcher was
    /// running already. Slots added to the store later are not seen by it.
    pub fn watcher_after_start(&self, was_running: bool) -> (r: Option<Watcher>)
        ensures
            was_running ==> r is None,
            !was_running ==> (r matches Some(w) && w@ == (WatcherView {
                timetable: self@.schedules,
                stopped: false,
            })),
    {
        if was_running {
            None
        } else {
            Some(
                Watcher {
                    schedules: copy_timetable(&self.config.schedules),
                    notifier: self.notifier,
                    running: share_switch(&self.running),
                    stopped: false,
                },
            )
        }
    }

    /// Switches the watcher on. Where it was off, hands out a watcher over
    /// the timetable as it is now, for the caller to tick once per polling
    /// interval; where it was on already, hands out none. The store is not
    /// touched.
    pub fn run_daemon(&mut self) -> (r: Option<Watcher>)
        ensures
            final(self)@ == old(self)@,
            r matches Some(w) ==> w@ == (WatcherView {
                timetable: old(self)@.schedules,
                stopped: false,
            }),
    {
        let was_running = switch_on(&self.running);
        self.watcher_after_start(was_running)
    }

    /// Switches the watcher off: the next tick that looks at the switch stops.
    pub fn stop_daemon(&self) {
        switch_off(&self.running)
    }

    /// Whether the switch of the watcher is on at this moment.
    pub fn is_running(&self) -> bool {
        switch_is_on(&self.running)
    }
}

/// A tick that finds the switch off stops the watcher and asks for no
/// reminder to be sent, whatever the timetable and the clock hold. From then
/// on every tick does the same, whatever the switch shows: nothing is sent
/// after that tick.
pub proof fn lemma_switched_off_watcher_stops(
    watcher: WatcherView,
    day: Day,
    minute: int,
    later_switch_on: bool,
    later_day: Day,
    later_minute: int,
)
    ensures
        watcher.tick(false, day, minute).1.ends_watcher(),
        watcher.tick(false, day, minute).1.alerts() == Seq::<AlertView>::empty(),
        watcher.tick(false, day, minute).0.stopped,
        watcher.tick(false, day, minute).0.tick(later_switch_on, later_day, later_minute)
            == (watcher.tick(false, day, minute).0, TickView::Stopped),
{
}

/// A watcher that has not stopped and finds its switch on asks for exactly
/// the reminders due at that minute and for the sleep of one polling
/// interval, so that it looks at the switch again within that time; and it
/// goes on by the same timetable.
pub proof fn lemma_running_watcher_polls(watcher: WatcherView, day: Day, minute: int)
    requires
        !watcher.stopped,
    ensures
        watcher.tick(true, day, minute) == (
            watcher,
            TickView::Continue {
                alerts: timetable_alerts(watcher.timetable, day, minute),
                sleep_seconds: 60,
            },
        ),
{
}

} // verus!
