//! The frame budget and the logical clock.
//!
//! A frame is given a fixed slice of wall-clock time. Work that ends early is
//! followed by a pause for what is left of the slice, in whole milliseconds;
//! work that runs over is followed by nothing, and no frame is skipped to
//! catch up. The logical clock does not look at the wall clock at all: it
//! counts the frames that were finished.

use vstd::prelude::*;

verus! {

/// The wall-clock budget of one frame, in nanoseconds: a sixtieth of a second.
pub const TIME_PER_FRAME: u64 = 16_666_666;

/// Nanoseconds in one millisecond, the unit in which pauses are taken.
pub const NANOS_PER_MILLI: u64 = 1_000_000;

/// The count at which the logical clock stops. Shaders receive the count as
/// a single-precision number; this is the last count up to which every whole
/// number has such a form, and adding one to that form changes nothing.
pub const LAST_TICK: u32 = 16_777_216;

/// What the render loop does once a frame's work is over.
#[derive(Debug, Clone, Copy, PartialEq, Eq, Structural)]
pub enum FrameAction {
    /// The window was closed: leave the loop.
    Exit,
    /// Pause for this many milliseconds, then start the next frame.
    Sleep(u32),
    /// The budget is spent: start the next frame at once.
    Proceed,
}

/// The time that passed between two readings of the counter. A reading that
/// lies before the one it is measured from counts as no time at all.
pub open spec fn span_between(start_ns: u64, now_ns: u64) -> u64 {
    if now_ns >= start_ns {
        (now_ns - start_ns) as u64
    } else {
        0
    }
}

/// The pause owed after `work_ns` nanoseconds of work: what is left of the
/// budget, cut down to whole milliseconds, or none once the budget is spent.
pub open spec fn pause_after(work_ns: u64) -> Option<u32> {
    if work_ns < TIME_PER_FRAME {
        Some(((TIME_PER_FRAME - work_ns) / (NANOS_PER_MILLI as int)) as u32)
    } else {
        None
    }
}

/// The action that ends a frame: a closed window ends the loop whatever the
/// time, and otherwise the time spent decides between pausing and going on.
pub open spec fn action_after(closed: bool, work_ns: u64) -> FrameAction {
    if closed {
        FrameAction::Exit
    } else {
        match pause_after(work_ns) {
            Some(millis) => FrameAction::Sleep(millis),
            None => FrameAction::Proceed,
        }
    }
}

/// The count that follows `elapsed` on the logical clock.
pub open spec fn next_tick(elapsed: u32) -> u32 {
    if elapsed < LAST_TICK {
        (elapsed + 1) as u32
    } else {
        elapsed
    }
}

/// The count on a clock that started at zero and has since seen `frames`
/// frames end.
pub open spec fn ticks_after(frames: nat) -> u32
    decreases frames,
{
    if frames == 0 {
        0
    } else {
        next_tick(ticks_after((frames - 1) as nat))
    }
}

/// The logical clock counts frames and nothing else: after any number of
/// frames it shows that number, until it reaches the count at which it stops.
pub proof fn lemma_clock_counts_frames(frames: nat)
    ensures
        frames <= LAST_TICK ==> ticks_after(frames) == frames,
        frames > LAST_TICK ==> ticks_after(frames) == LAST_TICK,
    decreases frames,
{
    if frames > 0 {
        lemma_clock_counts_frames((frames - 1) as nat);
    }
}

/// Measures the time from one reading of the counter to a later one.
pub fn elapsed_between(start_ns: u64, now_ns: u64) -> (span: u64)
    ensures
        span == span_between(start_ns, now_ns),
{
    if now_ns >= start_ns {
        now_ns - start_ns
    } else {
        0
    }
}

/// Decides how long to pause after a frame's work took `work_ns` nanoseconds.
///
/// The pause never exceeds what is left of the budget and falls short of it
/// by less than a millisecond. Work that used up the budget gets no pause.
pub fn sleep_millis(work_ns: u64) -> (pause: Option<u32>)
    ensures
        pause == pause_after(work_ns),
        work_ns >= TIME_PER_FRAME <==> pause is None,
        pause matches Some(millis) ==> millis * NANOS_PER_MILLI <= TIME_PER_FRAME - work_ns,
        pause matches Some(millis) ==> TIME_PER_FRAME - work_ns < (millis + 1) * NANOS_PER_MILLI,
{
    if work_ns < TIME_PER_FRAME {
        let left: u64 = TIME_PER_FRAME - work_ns;
        let millis: u64 = left / NANOS_PER_MILLI;
        Some(millis as u32)
    } else {
        None
    }
}

/// The logical clock: the number of frames finished so far. It moves by one
/// per frame whatever the wall clock says, and stops at [`LAST_TICK`].
#[derive(Debug, Clone, Copy)]
pub struct Clock {
    elapsed: u32,
}

impl Clock {
    #[verifier::type_invariant]
    spec fn in_range(self) -> bool {
        self.elapsed <= LAST_TICK
    }

    /// The count that the clock shows.
    pub closed spec fn ticks(self) -> u32 {
        self.elapsed
    }

    /// A clock that has counted no frame yet.
    pub fn new() -> (clock: Clock)
        ensures
            clock.ticks() == 0,
    {
        Clock { elapsed: 0 }
    }

    /// Reads the clock.
    pub fn elapsed(&self) -> (ticks: u32)
        ensures
            ticks == self.ticks(),
            ticks <= LAST_TICK,
    {
        proof {
            use_type_invariant(self);
        }
        self.elapsed
    }

    /// Counts one more frame.
    pub fn tick(&mut self)
        ensures
            final(self).ticks() == next_tick(old(self).ticks()),
            final(self).ticks() >= old(self).ticks(),
    {
        if self.elapsed < LAST_TICK {
            self.elapsed = self.elapsed + 1;
        }
    }
}

/// Ends a frame whose work took `work_ns` nanoseconds.
///
/// A closed window ends the loop and leaves the clock as it is. Otherwise
/// the clock counts the frame, and the time spent decides whether a pause
/// comes before the next one.
pub fn end_frame(clock: &mut Clock, closed: bool, work_ns: u64) -> (action: FrameAction)
    ensures
        action == action_after(closed, work_ns),
        closed ==> final(clock).ticks() == old(clock).ticks(),
        !closed ==> final(clock).ticks() == next_tick(old(clock).ticks()),
{
    if closed {
        FrameAction::Exit
    } else {
        clock.tick();
        match sleep_millis(work_ns) {
            Some(millis) => FrameAction::Sleep(millis),
            None => FrameAction::Proceed,
        }
    }
}

/// `time::precise_time_ns` of the `time` crate: the present reading of a
/// high-resolution counter, in nanoseconds since a moment that is not told.
/// Nothing is claimed of the reading.
#[verifier::external_body]
fn counter_ns() -> (now_ns: u64) {
    time::precise_time_ns()
}

/// The moment at which a frame's work began.
#[derive(Debug, Clone, Copy)]
pub struct FrameTimer {
    start_ns: u64,
}

impl FrameTimer {
    /// Notes the present moment as the start of a frame.
    pub fn start() -> (timer: FrameTimer) {
        FrameTimer { start_ns: counter_ns() }
    }

    /// Ends the frame that this timer was started for, measuring its work up
    /// to the present moment.
    ///
    /// The counter is read only if the window is still open. Whatever it
    /// shows, the frame is counted, the loop goes on, and a pause, if there
    /// is one, is one that some amount of work calls for.
    pub fn finish(&self, clock: &mut Clock, closed: bool) -> (action: FrameAction)
        ensures
            closed ==> action == FrameAction::Exit && final(clock).ticks() == old(clock).ticks(),
            !closed ==> final(clock).ticks() == next_tick(old(clock).ticks()),
            !closed ==> exists|work_ns: u64| action == action_after(false, work_ns),
    {
        if closed {
            end_frame(clock, true, 0)
        } else {
            let now_ns: u64 = counter_ns();
            let work_ns: u64 = elapsed_between(self.start_ns, now_ns);
            end_frame(clock, false, work_ns)
        }
    }
}

} // verus!
