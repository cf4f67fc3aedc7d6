//! The study session in progress, if there is one.

use vstd::prelude::*;
use vstd::string::*;

use crate::clock::{ClockReading, LAST_INSTANT_MILLIS};

verus! {

/// The number of milliseconds in a minute.
pub const MILLIS_PER_MINUTE: i64 = 60_000;

/// A length of time that is never negative, in milliseconds.
#[derive(Clone, Copy, Debug, PartialEq, Eq, Structural)]
pub struct Span {
    pub millis: u64,
}

impl Span {
    /// No time at all.
    pub fn zero() -> (r: Span)
        ensures
            r.millis == 0,
    {
        Span { millis: 0 }
    }

    /// Whether the span is no time at all.
    pub fn is_zero(self) -> (r: bool)
        ensures
            r == (self.millis == 0),
    {
        self.millis == 0
    }

    /// The span in milliseconds.
    pub fn num_milliseconds(self) -> (r: u64)
        ensures
            r == self.millis,
    {
        self.millis
    }

    /// The whole seconds in the span.
    pub fn num_seconds(self) -> (r: u64)
        ensures
            r == self.millis / 1000,
    {
        self.millis / 1000
    }

    /// The whole minutes in the span.
    pub fn num_minutes(self) -> (r: u64)
        ensures
            r == self.millis / 60_000,
    {
        self.millis / 60_000
    }
}

/// A study session that was started by hand. Both instants are in
/// milliseconds since the start of 1970.
#[derive(Debug)]
pub struct StudySession {
    pub subject: String,
    pub start_time: i64,
    pub end_time: i64,
}

/// What a session holds, as plain text and numbers.
pub struct SessionView {
    pub subject: Seq<char>,
    pub start_time: int,
    pub end_time: int,
}

impl View for StudySession {
    type V = SessionView;

    open spec fn view(&self) -> SessionView {
        SessionView {
            subject: self.subject@,
            start_time: self.start_time as int,
            end_time: self.end_time as int,
        }
    }
}

/// What an optional session holds.
pub open spec fn session_view(session: Option<StudySession>) -> Option<SessionView> {
    match session {
        Some(s) => Some(s@),
        None => None,
    }
}

/// Why a session could not be started.
#[derive(Clone, Copy, Debug, PartialEq, Eq, Structural)]
pub enum SessionError {
    /// The end of the session lies beyond the last instant that a timestamp
    /// can hold.
    EndOutOfRange,
}

/// The state of the tracker: the session in progress, if there is one.
pub struct ScheduleView {
    pub current: Option<SessionView>,
}

impl ScheduleView {
    /// The instant at which a session of the given length ends when it is
    /// started at `now`.
    pub open spec fn end_of(duration_minutes: u32, now: int) -> int {
        now + MILLIS_PER_MINUTE * duration_minutes
    }

    /// The outcome of starting a session at the instant `now`. The new
    /// session takes the place of any session in progress. It is refused,
    /// and the tracker left as it was, only where its end cannot be held.
    pub open spec fn start(self, subject: Seq<char>, duration_minutes: u32, now: int) -> (
        ScheduleView,
        Result<(), SessionError>,
    ) {
        if ScheduleView::end_of(duration_minutes, now) > i64::MAX {
            (self, Err(SessionError::EndOutOfRange))
        } else {
            (
                ScheduleView {
                    current: Some(
                        SessionView {
                            subject,
                            start_time: now,
                            end_time: ScheduleView::end_of(duration_minutes, now),
                        },
                    ),
                },
                Ok(()),
            )
        }
    }

    /// The outcome of stopping: no session is in progress afterwards, and
    /// the one that was, if any, is handed out.
    pub open spec fn stop(self) -> (ScheduleView, Option<SessionView>) {
        (ScheduleView { current: None }, self.current)
    }

    /// The time left of the session in progress at the instant `now`, in
    /// milliseconds: the distance to its end, and zero from its end on.
    pub open spec fn remaining(self, now: int) -> Option<int> {
        match self.current {
            Some(s) => Some(
                if now < s.end_time {
                    s.end_time - now
                } else {
                    0
                },
            ),
            None => None,
        }
    }
}

/// Keeps track of the one study session that may be in progress.
#[derive(Debug)]
pub struct Schedule {
    current_session: Option<StudySession>,
}

impl View for Schedule {
    type V = ScheduleView;

    closed spec fn view(&self) -> ScheduleView {
        ScheduleView { current: session_view(self.current_session) }
    }
}

impl Schedule {
    /// A tracker with no session in progress.
    pub fn new() -> (r: Schedule)
        ensures
            r@.current is None,
    {
        Schedule { current_session: None }
    }

    /// Starts a session of the given length at the instant `now`, in place
    /// of any session in progress.
    pub fn start_session_at(&mut self, subject: &str, duration_minutes: u32, now: i64) -> (r:
        Result<(), SessionError>)
        ensures
            final(self)@ == old(self)@.start(subject@, duration_minutes, now as int).0,
            r == old(self)@.start(subject@, duration_minutes, now as int).1,
    {
        let length: i64 = MILLIS_PER_MINUTE * (duration_minutes as i64);
        if now > i64::MAX - length {
            return Err(SessionError::EndOutOfRange);
        }
        self.current_session = Some(
            StudySession {
                subject: String::from_str(subject),
                start_time: now,
                end_time: now + length,
            },
        );
        Ok(())
    }

    /// Starts a session of the given length at the present instant of the
    /// local clock, in place of any session in progress. This always
    /// succeeds: whatever the clock shows, the end of the session can be held.
    pub fn start_session(&mut self, subject: &str, duration_minutes: u32) -> (r: Result<
        (),
        SessionError,
    >)
        ensures
            r is Ok,
            exists|now: int|
                0 <= now <= LAST_INSTANT_MILLIS && (final(self)@, r) == #[trigger] old(
                    self,
                )@.start(subject@, duration_minutes, now),
            final(self)@.current matches Some(s) && s.subject == subject@ && 0 <= s.start_time
                <= LAST_INSTANT_MILLIS && s.end_time == ScheduleView::end_of(
                duration_minutes,
                s.start_time,
            ),
    {
        let clock = ClockReading::now();
        let r = self.start_session_at(subject, duration_minutes, clock.epoch_millis);
        assert((self@, r) == old(self)@.start(
            subject@,
            duration_minutes,
            clock.epoch_millis as int,
        ));
        r
    }

    /// Ends the session in progress and hands it out.
    pub fn end_session(&mut self) -> (r: Option<StudySession>)
        ensures
            final(self)@ == old(self)@.stop().0,
            session_view(r) == old(self)@.stop().1,
    {
        self.current_session.take()
    }

    /// The session in progress.
    pub fn get_current_session(&self) -> (r: Option<&StudySession>)
        ensures
            match r {
                Some(s) => self@.current == Some(s@),
                None => self@.current is None,
            },
    {
        self.current_session.as_ref()
    }

    /// The time left of the session in progress at the instant `now`.
    pub fn time_remaining_at(&self, now: i64) -> (r: Option<Span>)
        ensures
            match r {
                Some(left) => self@.remaining(now as int) == Some(left.millis as int),
                None => self@.remaining(now as int) is None,
            },
    {
        match &self.current_session {
            Some(session) => {
                if now < session.end_time {
                    let left: i128 = (session.end_time as i128) - (now as i128);
                    Some(Span { millis: left as u64 })
                } else {
                    Some(Span::zero())
                }
            },
            None => None,
        }
    }

    /// The time left of the session in progress at the present instant of
    /// the local clock: what [`ScheduleView::remaining`] gives for some
    /// instant that the clock can show. It is therefore never more than the
    /// time from the start of 1970 to the end of the session.
    pub fn time_remaining(&self) -> (r: Option<Span>)
        ensures
            r is Some <==> self@.current is Some,
            r matches Some(left) ==> exists|now: int|
                0 <= now <= LAST_INSTANT_MILLIS && #[trigger] self@.remaining(now) == Some(
                    left.millis as int,
                ),
            r matches Some(left) ==> self@.current matches Some(s) && (left.millis == 0
                || left.millis <= s.end_time),
    {
        let clock = ClockReading::now();
        let r = self.time_remaining_at(clock.epoch_millis);
        assert(r matches Some(left) ==> self@.remaining(clock.epoch_millis as int) == Some(
            left.millis as int,
        ));
        r
    }
}

/// Right after a session is started, at most its whole length and more than
/// its length less a minute is left: at any instant from the start up to a
/// minute after it.
pub proof fn lemma_remaining_after_start(
    tracker: ScheduleView,
    subject: Seq<char>,
    duration_minutes: u32,
    start: int,
    now: int,
)
    requires
        tracker.start(subject, duration_minutes, start).1 is Ok,
        duration_minutes >= 1,
        start <= now < start + MILLIS_PER_MINUTE,
    ensures
        tracker.start(subject, duration_minutes, start).0.remaining(now) matches Some(left)
            && MILLIS_PER_MINUTE * (duration_minutes - 1) < left <= MILLIS_PER_MINUTE
            * duration_minutes,
{
}

/// The time left is never negative, never more than what was left at an
/// earlier instant, and exactly zero from the end of the session on.
pub proof fn lemma_remaining_runs_down(tracker: ScheduleView, earlier: int, later: int)
    requires
        tracker.current is Some,
        earlier <= later,
    ensures
        tracker.remaining(earlier) matches Some(a) && tracker.remaining(later) matches Some(b) && 0
            <= b <= a,
        later >= tracker.current->0.end_time ==> tracker.remaining(later) == Some(0int),
{
}

/// Stopping a tracker with no session in progress hands out nothing, and so
/// does stopping again after a stop.
pub proof fn lemma_stop_again_is_absent(tracker: ScheduleView)
    ensures
        tracker.current is None ==> tracker.stop().1 is None,
        tracker.stop().0.stop().1 is None,
        tracker.stop().0.stop().0 == tracker.stop().0,
{
}

/// A session that is started is the one in progress, whatever was in
/// progress before, and is the one that the next stop hands out.
pub proof fn lemma_start_replaces(
    tracker: ScheduleView,
    subject: Seq<char>,
    duration_minutes: u32,
    now: int,
)
    requires
        tracker.start(subject, duration_minutes, now).1 is Ok,
    ensures
        tracker.start(subject, duration_minutes, now).0.stop().1 == Some(
            SessionView {
                subject,
                start_time: now,
                end_time: ScheduleView::end_of(duration_minutes, now),
            },
        ),
{
}

} // verus!
