//! The event loop: draw once, then poll until the quit key.
//!
//! The loop itself does no input or output. It says which [`Action`] is due,
//! a driver performs it, and the driver's [`Reply`] takes the loop to its
//! next state. A loop is `Idle` until the first draw, `Polling` from then
//! on, and `Terminated` for good once the quit key was seen or an action
//! failed.

use vstd::prelude::*;
use crate::tick::TickState;

verus! {

/// The character whose key ends the loop.
pub const QUIT_KEY: char = 'q';

/// The code of a key event, as far as the loop tells keys apart.
#[derive(Clone, Copy, Debug, PartialEq, Eq, Structural)]
pub enum Key {
    /// A key that stands for a character.
    Char(char),
    /// Any other key: an arrow, a function key, enter, escape.
    Other,
}

/// How the action that was due has gone.
///
/// Every reply answers the one action that was due. The events are what a
/// poll brings; in answer to any other action they say no more than `Done`.
#[derive(Clone, Copy, Debug, PartialEq, Eq, Structural)]
pub enum Reply {
    /// It is done. For a poll: the timeout passed and no event came.
    Done,
    /// The poll brought a key event.
    Key(Key),
    /// The poll brought an event that is no key event.
    Other,
    /// It failed.
    Failed,
}

/// A reply, with the clock reading taken when it came.
#[derive(Clone, Copy, Debug, PartialEq, Eq, Structural)]
pub struct Report {
    pub now: u64,
    pub reply: Reply,
}

/// Why a loop has ended.
#[derive(Clone, Copy, Debug, PartialEq, Eq, Structural)]
pub enum Exit {
    /// The quit key was pressed.
    Quit,
    /// Drawing, polling or reading failed.
    Failed,
}

/// The three states of a loop.
#[derive(Clone, Copy, Debug, PartialEq, Eq, Structural)]
pub enum Phase {
    Idle,
    Polling,
    Terminated,
}

/// What the driver of a loop is to do next.
#[derive(Clone, Copy, Debug, PartialEq, Eq, Structural)]
pub enum Action {
    /// Draw the view.
    Draw,
    /// Wait for one input event, for `timeout` at most.
    Poll { timeout: u64 },
    /// Nothing more: the loop has ended.
    Stop(Exit),
}

/// An event loop. Its timing state exists while it polls, and only then.
#[derive(Clone, Copy, Debug, PartialEq, Eq, Structural)]
pub enum EventLoop {
    /// Nothing is drawn yet.
    Idle { tick_rate: u64 },
    /// The view is drawn, and input is polled tick by tick.
    Polling(TickState),
    /// The loop has ended, and stays so.
    Terminated(Exit),
}

impl Reply {
    /// Whether this is a press of the quit key.
    pub open spec fn is_quit(self) -> bool {
        self == Reply::Key(Key::Char(QUIT_KEY))
    }

    /// Whether this reply ends a loop that polls.
    pub open spec fn ends_loop(self) -> bool {
        self.is_quit() || self is Failed
    }

    /// Whether this is a press of the quit key.
    pub fn quits(&self) -> (quits: bool)
        ensures
            quits == self.is_quit(),
    {
        match self {
            Reply::Key(Key::Char(c)) => *c == QUIT_KEY,
            _ => false,
        }
    }
}

impl EventLoop {
    /// The phase that this loop is in.
    pub open spec fn phase_of(self) -> Phase {
        match self {
            EventLoop::Idle { .. } => Phase::Idle,
            EventLoop::Polling(_) => Phase::Polling,
            EventLoop::Terminated(_) => Phase::Terminated,
        }
    }

    /// The action that is due at `now`. The timeout of a poll is what is
    /// left of the running tick.
    pub open spec fn action_at(self, now: u64) -> Action {
        match self {
            EventLoop::Idle { .. } => Action::Draw,
            EventLoop::Polling(tick) => Action::Poll { timeout: tick.timeout_at(now) as u64 },
            EventLoop::Terminated(exit) => Action::Stop(exit),
        }
    }

    /// The state after `reply` has come at `now`.
    ///
    /// The reply to the first draw starts the polling, with the first tick
    /// beginning at `now`. While polling, the quit key and a failure end the
    /// loop; every other reply is passed over, and only the tick is brought
    /// up to date. A loop that has ended takes no more replies.
    pub open spec fn next(self, now: u64, reply: Reply) -> EventLoop {
        match self {
            EventLoop::Idle { tick_rate } => if reply is Failed {
                EventLoop::Terminated(Exit::Failed)
            } else {
                EventLoop::Polling(TickState { tick_rate, last_tick: now })
            },
            EventLoop::Polling(tick) => if reply.is_quit() {
                EventLoop::Terminated(Exit::Quit)
            } else if reply is Failed {
                EventLoop::Terminated(Exit::Failed)
            } else {
                EventLoop::Polling(tick.advanced(now))
            },
            EventLoop::Terminated(_) => self,
        }
    }

    /// The state after every report of `script` has come, in order.
    pub open spec fn after(self, script: Seq<Report>) -> EventLoop
        decreases script.len(),
    {
        if script.len() == 0 {
            self
        } else {
            self.after(script.drop_last()).next(script.last().now, script.last().reply)
        }
    }

    /// The actions that the reports of `script` call for, one for each: the
    /// action that is due once the report has come.
    pub open spec fn trace(self, script: Seq<Report>) -> Seq<Action> {
        Seq::new(
            script.len(),
            |i: int| self.after(script.take(i + 1)).action_at(script[i].now),
        )
    }

    /// A loop that has not drawn yet.
    pub fn new(tick_rate: u64) -> (event_loop: EventLoop)
        ensures
            event_loop == (EventLoop::Idle { tick_rate }),
    {
        EventLoop::Idle { tick_rate }
    }

    /// The phase that this loop is in.
    pub fn phase(&self) -> (phase: Phase)
        ensures
            phase == self.phase_of(),
    {
        match self {
            EventLoop::Idle { .. } => Phase::Idle,
            EventLoop::Polling(_) => Phase::Polling,
            EventLoop::Terminated(_) => Phase::Terminated,
        }
    }

    /// The action that is due at `now`.
    pub fn action(&self, now: u64) -> (action: Action)
        ensures
            action == self.action_at(now),
            (action matches Action::Poll { timeout } ==> self matches EventLoop::Polling(tick)
                && timeout <= tick.tick_rate),
    {
        match self {
            EventLoop::Idle { .. } => Action::Draw,
            EventLoop::Polling(tick) => Action::Poll { timeout: tick.timeout(now) },
            EventLoop::Terminated(exit) => Action::Stop(*exit),
        }
    }

    /// Takes the reply that came at `now`, and returns the action that is due
    /// then.
    pub fn step(&mut self, now: u64, reply: Reply) -> (action: Action)
        ensures
            *final(self) == old(self).next(now, reply),
            action == final(self).action_at(now),
    {
        let next = match *self {
            EventLoop::Idle { tick_rate } => match reply {
                Reply::Failed => EventLoop::Terminated(Exit::Failed),
                _ => EventLoop::Polling(TickState::new(tick_rate, now)),
            },
            EventLoop::Polling(tick) => if reply.quits() {
                EventLoop::Terminated(Exit::Quit)
            } else {
                match reply {
                    Reply::Failed => EventLoop::Terminated(Exit::Failed),
                    _ => {
                        let mut tick = tick;
                        tick.advance(now);
                        EventLoop::Polling(tick)
                    },
                }
            },
            EventLoop::Terminated(exit) => EventLoop::Terminated(exit),
        };
        *self = next;
        self.action(now)
    }

    /// Takes the reports of `script` in order, and returns the action that
    /// each of them called for.
    pub fn run(&mut self, script: &Vec<Report>) -> (trace: Vec<Action>)
        ensures
            *final(self) == old(self).after(script@),
            trace@ == old(self).trace(script@),
    {
        let ghost start = *self;
        let mut trace: Vec<Action> = Vec::new();
        let mut i: usize = 0;
        while i < script.len()
            invariant
                i <= script.len(),
                *self == start.after(script@.take(i as int)),
                trace@.len() == i,
                forall|j: int|
                    0 <= j < i ==> trace@[j] == #[trigger] start.after(
                        script@.take(j + 1),
                    ).action_at(script@[j].now),
            decreases script.len() - i,
        {
            let report = script[i];
            proof {
                let prefix = script@.take(i + 1);
                assert(prefix.drop_last() == script@.take(i as int));
                assert(prefix.last() == report);
            }
            let action = self.step(report.now, report.reply);
            trace.push(action);
            i += 1;
        }
        proof {
            assert(script@.take(script@.len() as int) == script@);
        }
        trace
    }
}

/// Whether the clock readings of `script` never run backwards, starting
/// from `from`.
pub open spec fn clock_runs_forward(from: u64, script: Seq<Report>) -> bool {
    &&& forall|i: int| 0 <= i < script.len() ==> from <= (#[trigger] script[i]).now
    &&& forall|i: int, j: int|
        0 <= i <= j < script.len() ==> (#[trigger] script[i]).now <= (#[trigger] script[j]).now
}

/// A loop that has ended stays as it is, whatever is reported to it.
pub proof fn lemma_terminated_is_absorbing(event_loop: EventLoop, script: Seq<Report>)
    requires
        event_loop is Terminated,
    ensures
        event_loop.after(script) == event_loop,
    decreases script.len(),
{
    if script.len() > 0 {
        lemma_terminated_is_absorbing(event_loop, script.drop_last());
    }
}

/// A loop that polls ends if and only if one of the replies is a press of
/// the quit key or a failure. Until then it polls.
pub proof fn lemma_terminates_iff_quit_or_failure(event_loop: EventLoop, script: Seq<Report>)
    requires
        event_loop is Polling,
    ensures
        event_loop.after(script) is Terminated <==> exists|i: int|
            0 <= i < script.len() && (#[trigger] script[i]).reply.ends_loop(),
        !(event_loop.after(script) is Terminated) ==> event_loop.after(script) is Polling,
    decreases script.len(),
{
    if script.len() > 0 {
        let init = script.drop_last();
        let last = script.last();
        lemma_terminates_iff_quit_or_failure(event_loop, init);
        if event_loop.after(init) is Terminated {
            let i = choose|i: int| 0 <= i < init.len() && (#[trigger] init[i]).reply.ends_loop();
            assert(script[i] == init[i]);
        } else if last.reply.ends_loop() {
            assert(script[script.len() - 1] == last);
        } else {
            assert forall|i: int| 0 <= i < script.len() implies !(#[trigger] script[i]).reply.ends_loop() by {
                if i < init.len() {
                    assert(script[i] == init[i]);
                }
            }
        }
    }
}

/// However many keys other than the quit key are pressed, a loop that polls
/// goes on polling.
pub proof fn lemma_other_keys_never_terminate(event_loop: EventLoop, script: Seq<Report>)
    requires
        event_loop is Polling,
        forall|i: int|
            0 <= i < script.len() ==> (#[trigger] script[i]).reply is Key && !script[i].reply.is_quit(),
    ensures
        event_loop.after(script) is Polling,
{
    lemma_terminates_iff_quit_or_failure(event_loop, script);
}

/// The first reply that ends a loop decides how it has ended: by the quit
/// key, or by a failure. What is reported after it changes nothing.
pub proof fn lemma_first_ending_reply_decides(event_loop: EventLoop, script: Seq<Report>, at: int)
    requires
        event_loop is Polling,
        0 <= at < script.len(),
        script[at].reply.ends_loop(),
        forall|i: int| 0 <= i < at ==> !(#[trigger] script[i]).reply.ends_loop(),
    ensures
        event_loop.after(script.take(at)) is Polling,
        event_loop.after(script) == EventLoop::Terminated(
            if script[at].reply.is_quit() {
                Exit::Quit
            } else {
                Exit::Failed
            },
        ),
    decreases script.len(),
{
    let init = script.drop_last();
    if at == script.len() - 1 {
        assert(script.take(at) == init);
        lemma_terminates_iff_quit_or_failure(event_loop, init);
    } else {
        assert(init.take(at) == script.take(at));
        lemma_first_ending_reply_decides(event_loop, init, at);
    }
}

/// While a loop polls, its tick rate stays the same and its last tick never
/// moves back; the last tick is the one that the loop began with or one of
/// the clock readings reported since. A tick rate of zero makes every
/// reading a tick boundary, so there the clock itself must not run
/// backwards.
pub proof fn lemma_last_tick_never_moves_back(tick: TickState, script: Seq<Report>)
    requires
        tick.tick_rate > 0 || clock_runs_forward(tick.last_tick, script),
    ensures
        (EventLoop::Polling(tick).after(script) matches EventLoop::Polling(later) ==> {
            &&& later.tick_rate == tick.tick_rate
            &&& later.last_tick >= tick.last_tick
            &&& later.last_tick == tick.last_tick || exists|i: int|
                0 <= i < script.len() && later.last_tick == (#[trigger] script[i]).now
        }),
    decreases script.len(),
{
    let start = EventLoop::Polling(tick);
    if script.len() > 0 {
        let init = script.drop_last();
        let last = script.last();
        assert(clock_runs_forward(tick.last_tick, script) ==> clock_runs_forward(
            tick.last_tick,
            init,
        )) by {
            if clock_runs_forward(tick.last_tick, script) {
                assert forall|i: int| 0 <= i < init.len() implies tick.last_tick <= (
                #[trigger] init[i]).now by {
                    assert(init[i] == script[i]);
                }
                assert forall|i: int, j: int| 0 <= i <= j < init.len() implies (
                #[trigger] init[i]).now <= (#[trigger] init[j]).now by {
                    assert(init[i] == script[i]);
                    assert(init[j] == script[j]);
                }
            }
        }
        lemma_last_tick_never_moves_back(tick, init);
        lemma_terminates_iff_quit_or_failure(start, init);
        if let EventLoop::Polling(later) = start.after(script) {
            let before = start.after(init)->Polling_0;
            assert(later == before.advanced(last.now));
            if before.last_tick != tick.last_tick {
                let i = choose|i: int|
                    0 <= i < init.len() && before.last_tick == (#[trigger] init[i]).now;
                assert(script[i] == init[i]);
                assert(script[script.len() - 1] == last);
            }
            if later.last_tick != before.last_tick {
                assert(script[script.len() - 1] == last);
            }
        }
    }
}

/// Taking a script in two parts is the same as taking it whole.
pub proof fn lemma_after_in_two_parts(event_loop: EventLoop, first: Seq<Report>, rest: Seq<Report>)
    ensures
        event_loop.after(first + rest) == event_loop.after(first).after(rest),
    decreases rest.len(),
{
    if rest.len() == 0 {
        assert(first + rest == first);
    } else {
        lemma_after_in_two_parts(event_loop, first, rest.drop_last());
        assert((first + rest).drop_last() == first + rest.drop_last());
        assert((first + rest).last() == rest.last());
    }
}

/// A loop that starts idle ends at once if its first draw fails. If the
/// draw succeeds, the loop ends if and only if one of the replies after it
/// is a press of the quit key or a failure.
pub proof fn lemma_idle_loop_terminates_iff(tick_rate: u64, script: Seq<Report>)
    requires
        script.len() > 0,
    ensures
        ({
            let end = (EventLoop::Idle { tick_rate }).after(script);
            &&& script[0].reply is Failed ==> end == EventLoop::Terminated(Exit::Failed)
            &&& !(script[0].reply is Failed) ==> (end is Terminated <==> exists|i: int|
                1 <= i < script.len() && (#[trigger] script[i]).reply.ends_loop())
            &&& !(script[0].reply is Failed) && !(end is Terminated) ==> end is Polling
        }),
{
    let idle = EventLoop::Idle { tick_rate };
    let first = script.take(1);
    let rest = script.skip(1);
    assert(first + rest == script);
    lemma_after_in_two_parts(idle, first, rest);
    assert(idle.after(first) == idle.next(script[0].now, script[0].reply)) by {
        assert(first.drop_last() == Seq::<Report>::empty());
        assert(first.last() == script[0]);
        assert(idle.after(first.drop_last()) == idle);
    }
    if script[0].reply is Failed {
        lemma_terminated_is_absorbing(idle.after(first), rest);
    } else {
        lemma_terminates_iff_quit_or_failure(idle.after(first), rest);
        if idle.after(script) is Terminated {
            let i = choose|i: int| 0 <= i < rest.len() && (#[trigger] rest[i]).reply.ends_loop();
            assert(script[i + 1] == rest[i]);
        } else {
            assert forall|i: int| 1 <= i < script.len() implies !(#[trigger] script[i]).reply.ends_loop() by {
                assert(script[i] == rest[i - 1]);
            }
        }
    }
}

} // verus!
