use vstd::prelude::*;

verus! {

/// Target interval between two frames: one sixtieth of a second, in nanoseconds.
pub const TICK_PERIOD_NANOS: u64 = 16_666_666;

/// Most frames drawn before the loop gives up waiting for input.
pub const FRAME_CEILING: u64 = 1000;

/// How the loop ended.
#[derive(Clone, Copy, Debug, PartialEq, Eq, Structural)]
pub enum Outcome {
    /// An input event arrived: the expected way out.
    UserEvent,
    /// The terminal could not draw a frame.
    RenderFailure,
    /// Waiting for input failed.
    InputWaitFailure,
    /// The frame ceiling was reached without any input.
    TimeoutExceeded,
}

/// What the loop waits for next.
#[derive(Clone, Copy, Debug, PartialEq, Eq, Structural)]
pub enum Phase {
    /// The result of drawing a frame.
    AwaitingRender,
    /// The result of waiting for input.
    AwaitingInput,
    /// Nothing: the loop has ended with this outcome.
    Finished(Outcome),
}

/// The result of waiting a bounded time for input.
#[derive(Clone, Copy, Debug, PartialEq, Eq, Structural)]
pub enum WaitResult {
    /// An event is ready to be read.
    EventReady,
    /// The wait ran out with no event.
    NoEvent,
    /// The wait itself failed.
    Failed,
}

/// What the driver of the loop is to do next.
#[derive(Clone, Copy, Debug, PartialEq, Eq, Structural)]
pub enum Action {
    /// Draw a full frame, then report how it went with `on_render`.
    Render,
    /// Wait at most this long for input, then report with `on_wait`.
    WaitForInput { timeout_nanos: u64 },
    /// Stop: restore the terminal and report the outcome. Where it is
    /// `UserEvent`, the ready event is read and handed on with it.
    Finish(Outcome),
}

/// The decisions of the frame loop: pacing, input and termination.
/// Times are nanoseconds on a monotonic clock chosen by the driver.
#[derive(Clone, Copy, Debug, PartialEq, Eq, Structural)]
pub struct FrameLoop {
    /// Frames drawn so far.
    pub frame_index: u64,
    /// Start of the current tick.
    pub last_tick_nanos: u64,
    /// Frames allowed before the loop ends with `TimeoutExceeded`.
    pub ceiling: u64,
    /// Target interval between frames.
    pub tick_period_nanos: u64,
    pub phase: Phase,
}

impl FrameLoop {
    /// The counter never passes the ceiling, and while the loop runs it stays
    /// below it.
    pub open spec fn wf(self) -> bool {
        &&& 0 < self.ceiling
        &&& self.frame_index <= self.ceiling
        &&& !(self.phase is Finished) ==> self.frame_index < self.ceiling
    }

    pub open spec fn is_running(self) -> bool {
        !(self.phase is Finished)
    }
}

/// The loop at time `now`, before its first frame.
pub open spec fn start_of(ceiling: u64, tick_period_nanos: u64, now: u64) -> FrameLoop {
    FrameLoop {
        frame_index: 0,
        last_tick_nanos: now,
        ceiling,
        tick_period_nanos,
        phase: Phase::AwaitingRender,
    }
}

/// Time since the start of the tick; zero if the clock reads earlier.
pub open spec fn since_tick(s: FrameLoop, now: u64) -> int {
    if now >= s.last_tick_nanos {
        now - s.last_tick_nanos
    } else {
        0
    }
}

/// `max(0, tick period - time since the start of the tick)`.
pub open spec fn wait_budget(s: FrameLoop, now: u64) -> u64 {
    if since_tick(s, now) >= s.tick_period_nanos {
        0
    } else {
        (s.tick_period_nanos - since_tick(s, now)) as u64
    }
}

/// After a frame was drawn (`rendered`) or failed to be, at time `now`.
pub open spec fn after_render(s: FrameLoop, rendered: bool, now: u64) -> (FrameLoop, Action) {
    if !rendered {
        (
            FrameLoop { phase: Phase::Finished(Outcome::RenderFailure), ..s },
            Action::Finish(Outcome::RenderFailure),
        )
    } else if s.frame_index + 1 >= s.ceiling {
        (
            FrameLoop {
                frame_index: (s.frame_index + 1) as u64,
                phase: Phase::Finished(Outcome::TimeoutExceeded),
                ..s
            },
            Action::Finish(Outcome::TimeoutExceeded),
        )
    } else {
        (
            FrameLoop {
                frame_index: (s.frame_index + 1) as u64,
                phase: Phase::AwaitingInput,
                ..s
            },
            Action::WaitForInput { timeout_nanos: wait_budget(s, now) },
        )
    }
}

/// After the wait for input ended with `w` at time `now`.
pub open spec fn after_wait(s: FrameLoop, w: WaitResult, now: u64) -> (FrameLoop, Action) {
    match w {
        WaitResult::Failed => (
            FrameLoop { phase: Phase::Finished(Outcome::InputWaitFailure), ..s },
            Action::Finish(Outcome::InputWaitFailure),
        ),
        WaitResult::EventReady => (
            FrameLoop { phase: Phase::Finished(Outcome::UserEvent), ..s },
            Action::Finish(Outcome::UserEvent),
        ),
        WaitResult::NoEvent => (
            FrameLoop {
                last_tick_nanos: if since_tick(s, now) >= s.tick_period_nanos {
                    now
                } else {
                    s.last_tick_nanos
                },
                phase: Phase::AwaitingRender,
                ..s
            },
            Action::Render,
        ),
    }
}

impl FrameLoop {
    /// A loop at 60 frames a second that gives up after 1000 frames; its
    /// first action is `Render`.
    pub fn new(now_nanos: u64) -> (r: FrameLoop)
        ensures
            r == start_of(FRAME_CEILING, TICK_PERIOD_NANOS, now_nanos),
            r.wf(),
    {
        FrameLoop {
            frame_index: 0,
            last_tick_nanos: now_nanos,
            ceiling: FRAME_CEILING,
            tick_period_nanos: TICK_PERIOD_NANOS,
            phase: Phase::AwaitingRender,
        }
    }

    /// A loop with its own frame ceiling and tick period; none for a ceiling of
    /// zero, which would allow no frame at all.
    pub fn with_limits(ceiling: u64, tick_period_nanos: u64, now_nanos: u64) -> (r: Option<
        FrameLoop,
    >)
        ensures
            ceiling == 0 ==> r is None,
            ceiling > 0 ==> r == Some(start_of(ceiling, tick_period_nanos, now_nanos)),
            r matches Some(l) ==> l.wf(),
    {
        if ceiling == 0 {
            None
        } else {
            Some(
                FrameLoop {
                    frame_index: 0,
                    last_tick_nanos: now_nanos,
                    ceiling,
                    tick_period_nanos,
                    phase: Phase::AwaitingRender,
                },
            )
        }
    }

    pub fn is_finished(&self) -> (r: bool)
        ensures
            r == !self.is_running(),
    {
        matches!(self.phase, Phase::Finished(_))
    }

    /// Time left of the current tick at `now`: `max(0, period - elapsed)`.
    pub fn wait_timeout(&self, now_nanos: u64) -> (r: u64)
        ensures
            r == wait_budget(*self, now_nanos),
            r <= self.tick_period_nanos,
    {
        let since: u64 = if now_nanos >= self.last_tick_nanos {
            now_nanos - self.last_tick_nanos
        } else {
            0
        };
        if since >= self.tick_period_nanos {
            0
        } else {
            self.tick_period_nanos - since
        }
    }

    /// Takes the result of drawing a frame at `now`. A failed draw ends the
    /// loop; otherwise the frame is counted, and the loop ends once the count
    /// reaches the ceiling, or else waits for input for what is left of the tick.
    pub fn on_render(&mut self, rendered: bool, now_nanos: u64) -> (r: Action)
        requires
            old(self).wf(),
            old(self).phase == Phase::AwaitingRender,
        ensures
            (*final(self), r) == after_render(*old(self), rendered, now_nanos),
            final(self).wf(),
    {
        if !rendered {
            self.phase = Phase::Finished(Outcome::RenderFailure);
            return Action::Finish(Outcome::RenderFailure);
        }
        let timeout = self.wait_timeout(now_nanos);
        self.frame_index = self.frame_index + 1;
        if self.frame_index >= self.ceiling {
            self.phase = Phase::Finished(Outcome::TimeoutExceeded);
            Action::Finish(Outcome::TimeoutExceeded)
        } else {
            self.phase = Phase::AwaitingInput;
            Action::WaitForInput { timeout_nanos: timeout }
        }
    }

    /// Takes the result of waiting for input at `now`. A failed wait or a ready
    /// event ends the loop; otherwise the next frame is drawn, and a new tick
    /// starts if a whole tick period has passed.
    pub fn on_wait(&mut self, w: WaitResult, now_nanos: u64) -> (r: Action)
        requires
            old(self).wf(),
            old(self).phase == Phase::AwaitingInput,
        ensures
            (*final(self), r) == after_wait(*old(self), w, now_nanos),
            final(self).wf(),
    {
        match w {
            WaitResult::Failed => {
                self.phase = Phase::Finished(Outcome::InputWaitFailure);
                Action::Finish(Outcome::InputWaitFailure)
            },
            WaitResult::EventReady => {
                self.phase = Phase::Finished(Outcome::UserEvent);
                Action::Finish(Outcome::UserEvent)
            },
            WaitResult::NoEvent => {
                let since: u64 = if now_nanos >= self.last_tick_nanos {
                    now_nanos - self.last_tick_nanos
                } else {
                    0
                };
                if since >= self.tick_period_nanos {
                    self.last_tick_nanos = now_nanos;
                }
                self.phase = Phase::AwaitingRender;
                Action::Render
            },
        }
    }
}


/// A scripted terminal and input source. Iterations are numbered from 1, and
/// 0 stands for "never". On iteration `n` the draw fails if `n ==
/// render_fails_on`; otherwise the wait fails if `n == wait_fails_on`, and
/// else an event is ready if `n == ready_on`. `clock(n)` is the time read
/// throughout iteration `n`.
pub struct Script {
    pub render_fails_on: nat,
    pub wait_fails_on: nat,
    pub ready_on: nat,
    pub clock: spec_fn(nat) -> u64,
}

pub open spec fn scripted_wait(sc: Script, n: nat) -> WaitResult {
    if n == sc.wait_fails_on {
        WaitResult::Failed
    } else if n == sc.ready_on {
        WaitResult::EventReady
    } else {
        WaitResult::NoEvent
    }
}

/// Drives the loop from `s` against the script until it finishes: the number of
/// frames it asks to draw, and the outcome it finishes with.
pub open spec fn scripted_run(s: FrameLoop, sc: Script) -> (nat, Outcome)
    decreases s.ceiling - s.frame_index,
{
    if !(s.wf() && s.phase == Phase::AwaitingRender) {
        (0, Outcome::TimeoutExceeded)
    } else {
        let n = (s.frame_index + 1) as nat;
        let (s1, a1) = after_render(s, n != sc.render_fails_on, (sc.clock)(n));
        match a1 {
            Action::Finish(o) => (1, o),
            _ => {
                let (s2, a2) = after_wait(s1, scripted_wait(sc, n), (sc.clock)(n));
                match a2 {
                    Action::Finish(o) => (1, o),
                    _ => {
                        let (k, o) = scripted_run(s2, sc);
                        ((k + 1) as nat, o)
                    },
                }
            },
        }
    }
}

/// What ends iteration `j` when something does: a failed draw first, then the
/// ceiling, then a failed wait, then an event.
pub open spec fn ending_at(sc: Script, ceiling: nat, j: nat) -> Outcome {
    if j == sc.render_fails_on {
        Outcome::RenderFailure
    } else if j >= ceiling {
        Outcome::TimeoutExceeded
    } else if j == sc.wait_fails_on {
        Outcome::InputWaitFailure
    } else {
        Outcome::UserEvent
    }
}

/// Nothing in the script happens before iteration `j`.
pub open spec fn quiet_before(sc: Script, j: nat) -> bool {
    &&& (sc.render_fails_on == 0 || sc.render_fails_on >= j)
    &&& (sc.wait_fails_on == 0 || sc.wait_fails_on >= j)
    &&& (sc.ready_on == 0 || sc.ready_on >= j)
}

/// Something in the script, or the ceiling, ends iteration `j`.
pub open spec fn ends_on(sc: Script, ceiling: nat, j: nat) -> bool {
    j == sc.render_fails_on || j == ceiling || j == sc.wait_fails_on || j == sc.ready_on
}

/// A running loop whose script is quiet until iteration `j`, which ends it, draws
/// exactly up to that iteration and finishes with what ends it.
pub proof fn lemma_run_ends_on(s: FrameLoop, sc: Script, j: nat)
    requires
        s.wf(),
        s.phase == Phase::AwaitingRender,
        s.frame_index < j <= s.ceiling,
        quiet_before(sc, j),
        ends_on(sc, s.ceiling as nat, j),
    ensures
        scripted_run(s, sc) == ((j - s.frame_index) as nat, ending_at(sc, s.ceiling as nat, j)),
    decreases j - s.frame_index,
{
    let n = (s.frame_index + 1) as nat;
    if n < j {
        let (s1, a1) = after_render(s, true, (sc.clock)(n));
        let (s2, a2) = after_wait(s1, WaitResult::NoEvent, (sc.clock)(n));
        assert(scripted_wait(sc, n) == WaitResult::NoEvent);
        lemma_run_ends_on(s2, sc, j);
    }
}

/// Once started, the loop draws exactly `k` frames and ends with the user's
/// event when an event is first ready on iteration `k`, below the ceiling; and
/// exactly `ceiling` frames, ending with `TimeoutExceeded`, when no event ever
/// comes. This holds whatever the clock reads.
pub proof fn lemma_frame_loop_terminates(
    ceiling: u64,
    tick_period_nanos: u64,
    now: u64,
    k: nat,
    clock: spec_fn(nat) -> u64,
)
    requires
        0 < ceiling,
    ensures
        1 <= k < ceiling ==> scripted_run(
            start_of(ceiling, tick_period_nanos, now),
            Script { render_fails_on: 0, wait_fails_on: 0, ready_on: k, clock },
        ) == (k, Outcome::UserEvent),
        scripted_run(
            start_of(ceiling, tick_period_nanos, now),
            Script { render_fails_on: 0, wait_fails_on: 0, ready_on: 0, clock },
        ) == (ceiling as nat, Outcome::TimeoutExceeded),
{
    let s = start_of(ceiling, tick_period_nanos, now);
    if 1 <= k < ceiling {
        lemma_run_ends_on(
            s,
            Script { render_fails_on: 0, wait_fails_on: 0, ready_on: k, clock },
            k,
        );
    }
    lemma_run_ends_on(
        s,
        Script { render_fails_on: 0, wait_fails_on: 0, ready_on: 0, clock },
        ceiling as nat,
    );
}

/// Every way out ends the loop with its own outcome: a draw that fails on
/// iteration `j` after `j` frames with `RenderFailure`; a wait that fails on
/// iteration `j`, below the ceiling, after `j` frames with `InputWaitFailure`;
/// a first event on iteration `j`, below the ceiling, with `UserEvent`; and no
/// event at all, after `ceiling` frames, with `TimeoutExceeded`.
pub proof fn lemma_every_exit_path(
    ceiling: u64,
    tick_period_nanos: u64,
    now: u64,
    j: nat,
    clock: spec_fn(nat) -> u64,
)
    requires
        0 < ceiling,
        1 <= j,
    ensures
        j <= ceiling ==> scripted_run(
            start_of(ceiling, tick_period_nanos, now),
            Script { render_fails_on: j, wait_fails_on: 0, ready_on: 0, clock },
        ) == (j, Outcome::RenderFailure),
        j < ceiling ==> scripted_run(
            start_of(ceiling, tick_period_nanos, now),
            Script { render_fails_on: 0, wait_fails_on: j, ready_on: 0, clock },
        ) == (j, Outcome::InputWaitFailure),
        j < ceiling ==> scripted_run(
            start_of(ceiling, tick_period_nanos, now),
            Script { render_fails_on: 0, wait_fails_on: 0, ready_on: j, clock },
        ) == (j, Outcome::UserEvent),
        scripted_run(
            start_of(ceiling, tick_period_nanos, now),
            Script { render_fails_on: 0, wait_fails_on: 0, ready_on: 0, clock },
        ) == (ceiling as nat, Outcome::TimeoutExceeded),
{
    let s = start_of(ceiling, tick_period_nanos, now);
    if j <= ceiling {
        lemma_run_ends_on(
            s,
            Script { render_fails_on: j, wait_fails_on: 0, ready_on: 0, clock },
            j,
        );
    }
    if j < ceiling {
        lemma_run_ends_on(
            s,
            Script { render_fails_on: 0, wait_fails_on: j, ready_on: 0, clock },
            j,
        );
        lemma_run_ends_on(
            s,
            Script { render_fails_on: 0, wait_fails_on: 0, ready_on: j, clock },
            j,
        );
    }
    lemma_run_ends_on(
        s,
        Script { render_fails_on: 0, wait_fails_on: 0, ready_on: 0, clock },
        ceiling as nat,
    );
}

/// The loop asks for `Finish` exactly once: a step that answers `Finish(o)`
/// leaves it finished with `o`, and neither step can be taken after that; a
/// step that answers anything else leaves it running.
pub proof fn lemma_finish_is_final(s: FrameLoop, rendered: bool, w: WaitResult, now: u64)
    requires
        s.wf(),
    ensures
        s.phase == Phase::AwaitingRender ==> match after_render(s, rendered, now) {
            (t, Action::Finish(o)) => t.phase == Phase::Finished(o),
            (t, _) => t.is_running(),
        },
        s.phase == Phase::AwaitingInput ==> match after_wait(s, w, now) {
            (t, Action::Finish(o)) => t.phase == Phase::Finished(o),
            (t, _) => t.is_running(),
        },
{
}

} // verus!
