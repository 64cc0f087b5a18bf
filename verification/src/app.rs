//! The terminal session around the event loop.
//!
//! A session takes the terminal into raw mode and onto the alternate screen,
//! runs the event loop there, and brings the terminal back, however the loop
//! has ended. [`App`] decides the order of these steps and does none of them
//! itself: it names the [`Command`] that is due, and takes the driver's
//! [`Reply`] to it.
//!
//! A step of the setup that fails ends the session at once, with nothing
//! restored. A failure inside the loop is not reported: the session restores
//! the terminal and reports how that went. A step of the teardown that fails
//! ends the session with that failure.

use vstd::prelude::*;
use crate::event_loop::{Action, EventLoop, Exit, Reply, Report};
use crate::tick::DEFAULT_TICK_RATE;

verus! {

/// The steps that open a session, in their order.
#[derive(Clone, Copy, Debug, PartialEq, Eq, Structural)]
pub enum SetupStep {
    /// Switch the terminal's input to raw mode.
    EnableRawMode,
    /// Switch to the alternate screen, with mouse capture on.
    EnterScreen,
    /// Bind a drawing surface to the output stream.
    OpenSurface,
}

/// The steps that close a session, in their order.
#[derive(Clone, Copy, Debug, PartialEq, Eq, Structural)]
pub enum TeardownStep {
    /// Switch the terminal's input back to normal mode.
    DisableRawMode,
    /// Leave the alternate screen, with mouse capture off.
    LeaveScreen,
    /// Make the text cursor visible again.
    ShowCursor,
}

/// The step at which a session has failed.
#[derive(Clone, Copy, Debug, PartialEq, Eq)]
pub enum Failure {
    Setup(SetupStep),
    Teardown(TeardownStep),
}

/// The terminal modes that a session has switched on, as far as it can
/// know: a mode counts as switched once the step that switches it is done.
#[derive(Clone, Copy, Debug, PartialEq, Eq, Structural)]
pub struct Modes {
    /// Input is in raw mode.
    pub raw_mode: bool,
    /// Output goes to the alternate screen, and the mouse is captured.
    pub alternate_screen: bool,
}

/// What the driver of a session is to do next.
#[derive(Clone, Copy, Debug, PartialEq, Eq)]
pub enum Command {
    /// Perform this step of the setup.
    Setup(SetupStep),
    /// Draw the view.
    Draw,
    /// Wait for one input event, for `timeout` at most.
    Poll { timeout: u64 },
    /// Perform this step of the teardown.
    Teardown(TeardownStep),
    /// Nothing more: the session is over, with this result.
    Finish(Result<(), Failure>),
}

/// How far a session has come.
#[derive(Clone, Copy, Debug, PartialEq, Eq)]
pub enum Stage {
    /// This step of the setup is due.
    Setup(SetupStep),
    /// The terminal is set up and the loop is in charge. Once the loop has
    /// ended, the first step of the teardown is due.
    Looping(EventLoop),
    /// The loop has ended in this way, and this step of the teardown is due.
    Teardown(TeardownStep, Exit),
    /// The session is over: the terminal is restored after a loop that ended
    /// in this way, or a step has failed.
    Closed(Result<Exit, Failure>),
}

/// The shell: one terminal session with its event loop.
#[derive(Clone, Copy, Debug, PartialEq, Eq)]
pub struct App {
    pub stage: Stage,
}

impl SetupStep {
    /// The stage that follows when this step is done.
    pub open spec fn when_done(self) -> Stage {
        match self {
            SetupStep::EnableRawMode => Stage::Setup(SetupStep::EnterScreen),
            SetupStep::EnterScreen => Stage::Setup(SetupStep::OpenSurface),
            SetupStep::OpenSurface => Stage::Looping(EventLoop::Idle { tick_rate: DEFAULT_TICK_RATE }),
        }
    }

    /// The modes that are on when this step is due.
    pub open spec fn modes_before(self) -> Modes {
        match self {
            SetupStep::EnableRawMode => Modes { raw_mode: false, alternate_screen: false },
            SetupStep::EnterScreen => Modes { raw_mode: true, alternate_screen: false },
            SetupStep::OpenSurface => Modes { raw_mode: true, alternate_screen: true },
        }
    }
}

impl TeardownStep {
    /// The modes that are on when this step is due.
    pub open spec fn modes_before(self) -> Modes {
        match self {
            TeardownStep::DisableRawMode => Modes { raw_mode: true, alternate_screen: true },
            TeardownStep::LeaveScreen => Modes { raw_mode: false, alternate_screen: true },
            TeardownStep::ShowCursor => Modes { raw_mode: false, alternate_screen: false },
        }
    }

    /// The place of this step in the teardown.
    pub open spec fn rank(self) -> nat {
        match self {
            TeardownStep::DisableRawMode => 0,
            TeardownStep::LeaveScreen => 1,
            TeardownStep::ShowCursor => 2,
        }
    }

    /// The stage that follows when this step is done, after a loop that
    /// ended by `exit`.
    pub open spec fn when_done(self, exit: Exit) -> Stage {
        match self {
            TeardownStep::DisableRawMode => Stage::Teardown(TeardownStep::LeaveScreen, exit),
            TeardownStep::LeaveScreen => Stage::Teardown(TeardownStep::ShowCursor, exit),
            TeardownStep::ShowCursor => Stage::Closed(Ok(exit)),
        }
    }

    /// The stage that follows the reply to this step.
    pub open spec fn replied(self, exit: Exit, reply: Reply) -> Stage {
        if reply is Failed {
            Stage::Closed(Err(Failure::Teardown(self)))
        } else {
            self.when_done(exit)
        }
    }
}

impl Stage {
    /// The command that is due at `now`.
    pub open spec fn command_at(self, now: u64) -> Command {
        match self {
            Stage::Setup(step) => Command::Setup(step),
            Stage::Looping(event_loop) => match event_loop.action_at(now) {
                Action::Draw => Command::Draw,
                Action::Poll { timeout } => Command::Poll { timeout },
                Action::Stop(_) => Command::Teardown(TeardownStep::DisableRawMode),
            },
            Stage::Teardown(step, _) => Command::Teardown(step),
            Stage::Closed(Ok(_)) => Command::Finish(Ok(())),
            Stage::Closed(Err(failure)) => Command::Finish(Err(failure)),
        }
    }

    /// The stage after `reply` has come at `now`.
    pub open spec fn next(self, now: u64, reply: Reply) -> Stage {
        match self {
            Stage::Setup(step) => if reply is Failed {
                Stage::Closed(Err(Failure::Setup(step)))
            } else {
                step.when_done()
            },
            Stage::Looping(EventLoop::Terminated(exit)) => TeardownStep::DisableRawMode.replied(
                exit,
                reply,
            ),
            Stage::Looping(event_loop) => Stage::Looping(event_loop.next(now, reply)),
            Stage::Teardown(step, exit) => step.replied(exit, reply),
            Stage::Closed(_) => self,
        }
    }

    /// The terminal modes that are on at this stage. A step that failed has
    /// left them as they were when it was due.
    pub open spec fn modes(self) -> Modes {
        match self {
            Stage::Setup(step) => step.modes_before(),
            Stage::Looping(_) => Modes { raw_mode: true, alternate_screen: true },
            Stage::Teardown(step, _) => step.modes_before(),
            Stage::Closed(Ok(_)) => Modes { raw_mode: false, alternate_screen: false },
            Stage::Closed(Err(Failure::Setup(step))) => step.modes_before(),
            Stage::Closed(Err(Failure::Teardown(step))) => step.modes_before(),
        }
    }

    /// Whether a loop that is in charge at this stage ticks at the shell's
    /// tick rate.
    pub open spec fn ticks_at_default_rate(self) -> bool {
        match self {
            Stage::Looping(EventLoop::Idle { tick_rate }) => tick_rate == DEFAULT_TICK_RATE,
            Stage::Looping(EventLoop::Polling(tick)) => tick.tick_rate == DEFAULT_TICK_RATE,
            _ => true,
        }
    }

    /// Whether `step` of the teardown has been called for on the way to
    /// this stage: 1 if so, 0 if not.
    pub open spec fn called_for(self, step: TeardownStep) -> nat {
        let called = match self {
            Stage::Setup(_) => false,
            Stage::Looping(event_loop) => event_loop is Terminated && step.rank() == 0,
            Stage::Teardown(due, _) => step.rank() <= due.rank(),
            Stage::Closed(Ok(_)) => true,
            Stage::Closed(Err(Failure::Teardown(failed))) => step.rank() <= failed.rank(),
            Stage::Closed(Err(Failure::Setup(_))) => false,
        };
        if called {
            1
        } else {
            0
        }
    }
}

/// How often `command` stands in `trace`.
pub open spec fn occurrences(trace: Seq<Command>, command: Command) -> nat
    decreases trace.len(),
{
    if trace.len() == 0 {
        0
    } else {
        occurrences(trace.drop_last(), command) + if trace.last() == command {
            1nat
        } else {
            0nat
        }
    }
}

impl App {
    /// The command that is due at `now`.
    pub open spec fn command_at(self, now: u64) -> Command {
        self.stage.command_at(now)
    }

    /// The session after `reply` has come at `now`.
    pub open spec fn next(self, now: u64, reply: Reply) -> App {
        App { stage: self.stage.next(now, reply) }
    }

    /// The session after every report of `script` has come, in order.
    pub open spec fn after(self, script: Seq<Report>) -> App
        decreases script.len(),
    {
        if script.len() == 0 {
            self
        } else {
            self.after(script.drop_last()).next(script.last().now, script.last().reply)
        }
    }

    /// The commands that the reports of `script` call for, one for each:
    /// the command that is due once the report has come.
    pub open spec fn trace(self, script: Seq<Report>) -> Seq<Command> {
        Seq::new(
            script.len(),
            |i: int| self.after(script.take(i + 1)).command_at(script[i].now),
        )
    }

    /// What the session reports to its caller: nothing while it is under
    /// way, then the failed step, or success once the terminal is restored,
    /// however the loop has ended.
    pub open spec fn result_of(self) -> Option<Result<(), Failure>> {
        match self.stage {
            Stage::Closed(Ok(_)) => Some(Ok(())),
            Stage::Closed(Err(failure)) => Some(Err(failure)),
            _ => None,
        }
    }

    /// A session of which nothing is done yet.
    pub open spec fn fresh() -> App {
        App { stage: Stage::Setup(SetupStep::EnableRawMode) }
    }

    /// A session of which nothing is done yet.
    pub fn new() -> (app: Result<App, Failure>)
        ensures
            app == Ok::<App, Failure>(App::fresh()),
    {
        Ok(App { stage: Stage::Setup(SetupStep::EnableRawMode) })
    }

    /// The command that is due at `now`.
    pub fn command(&self, now: u64) -> (command: Command)
        ensures
            command == self.command_at(now),
    {
        match self.stage {
            Stage::Setup(step) => Command::Setup(step),
            Stage::Looping(event_loop) => match event_loop.action(now) {
                Action::Draw => Command::Draw,
                Action::Poll { timeout } => Command::Poll { timeout },
                Action::Stop(_) => Command::Teardown(TeardownStep::DisableRawMode),
            },
            Stage::Teardown(step, _) => Command::Teardown(step),
            Stage::Closed(Ok(_)) => Command::Finish(Ok(())),
            Stage::Closed(Err(failure)) => Command::Finish(Err(failure)),
        }
    }

    /// What the session reports to its caller, once it is over.
    pub fn result(&self) -> (result: Option<Result<(), Failure>>)
        ensures
            result == self.result_of(),
    {
        match self.stage {
            Stage::Closed(Ok(_)) => Some(Ok(())),
            Stage::Closed(Err(failure)) => Some(Err(failure)),
            _ => None,
        }
    }

    /// The terminal modes that the session has switched on and not yet off.
    pub fn modes(&self) -> (modes: Modes)
        ensures
            modes == self.stage.modes(),
    {
        let (raw_mode, alternate_screen) = match self.stage {
            Stage::Setup(step) | Stage::Closed(Err(Failure::Setup(step))) => match step {
                SetupStep::EnableRawMode => (false, false),
                SetupStep::EnterScreen => (true, false),
                SetupStep::OpenSurface => (true, true),
            },
            Stage::Looping(_) => (true, true),
            Stage::Teardown(step, _) | Stage::Closed(Err(Failure::Teardown(step))) => match step {
                TeardownStep::DisableRawMode => (true, true),
                TeardownStep::LeaveScreen => (false, true),
                TeardownStep::ShowCursor => (false, false),
            },
            Stage::Closed(Ok(_)) => (false, false),
        };
        Modes { raw_mode, alternate_screen }
    }

    /// Takes the reply that came at `now`, and returns the command that is
    /// due then.
    pub fn step(&mut self, now: u64, reply: Reply) -> (command: Command)
        ensures
            *final(self) == old(self).next(now, reply),
            command == final(self).command_at(now),
    {
        let failed = matches!(reply, Reply::Failed);
        let stage = match self.stage {
            Stage::Setup(step) => if failed {
                Stage::Closed(Err(Failure::Setup(step)))
            } else {
                match step {
                    SetupStep::EnableRawMode => Stage::Setup(SetupStep::EnterScreen),
                    SetupStep::EnterScreen => Stage::Setup(SetupStep::OpenSurface),
                    SetupStep::OpenSurface => Stage::Looping(EventLoop::new(DEFAULT_TICK_RATE)),
                }
            },
            Stage::Looping(event_loop) => match event_loop {
                EventLoop::Terminated(exit) => if failed {
                    Stage::Closed(Err(Failure::Teardown(TeardownStep::DisableRawMode)))
                } else {
                    Stage::Teardown(TeardownStep::LeaveScreen, exit)
                },
                _ => {
                    let mut event_loop = event_loop;
                    event_loop.step(now, reply);
                    Stage::Looping(event_loop)
                },
            },
            Stage::Teardown(step, exit) => if failed {
                Stage::Closed(Err(Failure::Teardown(step)))
            } else {
                match step {
                    TeardownStep::DisableRawMode => Stage::Teardown(TeardownStep::LeaveScreen, exit),
                    TeardownStep::LeaveScreen => Stage::Teardown(TeardownStep::ShowCursor, exit),
                    TeardownStep::ShowCursor => Stage::Closed(Ok(exit)),
                }
            },
            Stage::Closed(result) => Stage::Closed(result),
        };
        self.stage = stage;
        self.command(now)
    }

    /// Runs the session against a script: takes its reports in order, and
    /// returns the command that each of them called for.
    pub fn run(&mut self, script: &Vec<Report>) -> (trace: Vec<Command>)
        ensures
            *final(self) == old(self).after(script@),
            trace@ == old(self).trace(script@),
    {
        let ghost start = *self;
        let mut trace: Vec<Command> = Vec::new();
        let mut i: usize = 0;
        while i < script.len()
            invariant
                i <= script.len(),
                *self == start.after(script@.take(i as int)),
                trace@.len() == i,
                forall|j: int|
                    0 <= j < i ==> trace@[j] == #[trigger] start.after(
                        script@.take(j + 1),
                    ).command_at(script@[j].now),
            decreases script.len() - i,
        {
            let report = script[i];
            proof {
                let prefix = script@.take(i + 1);
                assert(prefix.drop_last() == script@.take(i as int));
                assert(prefix.last() == report);
            }
            let command = self.step(report.now, report.reply);
            trace.push(command);
            i += 1;
        }
        proof {
            assert(script@.take(script@.len() as int) == script@);
        }
        trace
    }
}

/// One reply calls for a step of the teardown exactly when that step had not
/// been called for before and has been afterwards.
proof fn lemma_reply_calls_for(stage: Stage, now: u64, reply: Reply, step: TeardownStep)
    ensures
        stage.called_for(step) + (if stage.next(now, reply).command_at(now) == Command::Teardown(
            step,
        ) {
            1nat
        } else {
            0nat
        }) == stage.next(now, reply).called_for(step),
{
}

/// Over any script and from any stage, the commands count each step of the
/// teardown as often as the stages say: a step that had been called for
/// before is not called for again, and one that has been called for since
/// was called for once.
pub proof fn lemma_teardown_counted(app: App, script: Seq<Report>, step: TeardownStep)
    ensures
        app.stage.called_for(step) + occurrences(app.trace(script), Command::Teardown(step))
            == app.after(script).stage.called_for(step),
    decreases script.len(),
{
    if script.len() > 0 {
        let init = script.drop_last();
        let last = script.last();
        lemma_teardown_counted(app, init, step);
        assert(app.trace(script).drop_last() == app.trace(init)) by {
            assert forall|i: int| 0 <= i < init.len() implies app.trace(script)[i]
                == #[trigger] app.trace(init)[i] by {
                assert(script.take(i + 1) == init.take(i + 1));
            }
        }
        assert(app.trace(script).last() == app.after(script).command_at(last.now)) by {
            assert(script.take(script.len() as int) == script);
        }
        lemma_reply_calls_for(app.after(init).stage, last.now, last.reply, step);
    }
}

/// In a session that starts afresh, each step of the teardown is called for
/// once at most, whatever is reported and however the loop ends: never
/// before the loop has ended or where the setup has failed, and exactly once
/// in a session that has ended with the terminal restored. The first step,
/// leaving raw mode, is called for exactly once as soon as the loop has
/// ended, by the quit key or by a failure.
pub proof fn lemma_teardown_exactly_once(script: Seq<Report>, step: TeardownStep)
    ensures
        ({
            let end = App::fresh().after(script);
            let count = occurrences(App::fresh().trace(script), Command::Teardown(step));
            &&& count == end.stage.called_for(step)
            &&& count <= 1
            &&& end.stage is Setup ==> count == 0
            &&& end.stage matches Stage::Looping(event_loop) ==> (count == 1 <==> event_loop
                is Terminated && step == TeardownStep::DisableRawMode)
            &&& end.stage matches Stage::Closed(Err(Failure::Setup(_))) ==> count == 0
            &&& end.stage matches Stage::Closed(Ok(_)) ==> count == 1
            &&& end.result_of() == Some(Ok::<(), Failure>(())) ==> count == 1
        }),
{
    lemma_teardown_counted(App::fresh(), script, step);
}

/// A session that is over stays as it is, whatever is reported to it.
pub proof fn lemma_closed_is_absorbing(app: App, script: Seq<Report>)
    requires
        app.stage is Closed,
    ensures
        app.after(script) == app,
    decreases script.len(),
{
    if script.len() > 0 {
        lemma_closed_is_absorbing(app, script.drop_last());
    }
}

/// The loop of a session that starts afresh ticks at the shell's tick rate
/// throughout.
pub proof fn lemma_session_keeps_tick_rate(app: App, script: Seq<Report>)
    requires
        app.stage.ticks_at_default_rate(),
    ensures
        app.after(script).stage.ticks_at_default_rate(),
    decreases script.len(),
{
    if script.len() > 0 {
        lemma_session_keeps_tick_rate(app, script.drop_last());
    }
}

/// Every poll that a session calls for has a timeout between zero and the
/// shell's tick rate.
pub proof fn lemma_session_timeouts_bounded(script: Seq<Report>, at: int)
    requires
        0 <= at < script.len(),
    ensures
        (App::fresh().trace(script)[at] matches Command::Poll { timeout } ==> 0 <= timeout
            <= DEFAULT_TICK_RATE),
{
    lemma_session_keeps_tick_rate(App::fresh(), script.take(at + 1));
}

/// The loop runs with both modes on, and a session that reports success has
/// switched both off again, however its loop has ended.
pub proof fn lemma_modes_frame_the_loop(app: App)
    ensures
        app.stage is Looping ==> app.stage.modes() == (Modes {
            raw_mode: true,
            alternate_screen: true,
        }),
        app.result_of() == Some(Ok::<(), Failure>(())) ==> app.stage.modes() == (Modes {
            raw_mode: false,
            alternate_screen: false,
        }),
{
}

/// However the loop has ended, a teardown of which no step fails restores
/// the terminal and ends the session with success.
pub proof fn lemma_teardown_completes(exit: Exit, teardown: Seq<Report>)
    requires
        teardown.len() == 3,
        forall|i: int| 0 <= i < 3 ==> !((#[trigger] teardown[i]).reply is Failed),
    ensures
        ({
            let ended = App { stage: Stage::Looping(EventLoop::Terminated(exit)) };
            &&& ended.after(teardown) == (App { stage: Stage::Closed(Ok(exit)) })
            &&& ended.trace(teardown) == seq![
                Command::Teardown(TeardownStep::LeaveScreen),
                Command::Teardown(TeardownStep::ShowCursor),
                Command::Finish(Ok(())),
            ]
        }),
{
    let ended = App { stage: Stage::Looping(EventLoop::Terminated(exit)) };
    let one = teardown.take(1);
    let two = teardown.take(2);
    assert(one.drop_last() == Seq::<Report>::empty());
    assert(one.last() == teardown[0]);
    assert(ended.after(one.drop_last()) == ended);
    assert(ended.after(one).stage == Stage::Teardown(TeardownStep::LeaveScreen, exit));
    assert(two.drop_last() == one);
    assert(two.last() == teardown[1]);
    assert(ended.after(two).stage == Stage::Teardown(TeardownStep::ShowCursor, exit));
    assert(teardown.drop_last() == two);
    assert(teardown.take(3) == teardown);
    assert(ended.after(teardown).stage == Stage::Closed(Ok(exit)));
}

/// While its loop has not ended, a session that is set up is its loop: it
/// takes every reply as the loop does, and calls for what the loop calls
/// for. So a session leaves its loop when the loop ends, and not before.
pub proof fn lemma_session_follows_loop(event_loop: EventLoop, script: Seq<Report>)
    requires
        !(event_loop.after(script) is Terminated),
    ensures
        (App { stage: Stage::Looping(event_loop) }).after(script) == (App {
            stage: Stage::Looping(event_loop.after(script)),
        }),
    decreases script.len(),
{
    if script.len() > 0 {
        let init = script.drop_last();
        if event_loop.after(init) is Terminated {
            assert(event_loop.after(script) == event_loop.after(init));
        }
        lemma_session_follows_loop(event_loop, init);
    }
}

} // verus!
