use tui_shell::event_loop::{Action, EventLoop, Exit, Key, Phase, Reply, Report, QUIT_KEY};
use tui_shell::tick::TickState;

const MS: u64 = 1_000_000;
const RATE: u64 = 250 * MS;

fn at(ms: u64, reply: Reply) -> Report {
    Report { now: ms * MS, reply }
}

fn key(c: char) -> Reply {
    Reply::Key(Key::Char(c))
}

fn polling_since(ms: u64) -> EventLoop {
    EventLoop::Polling(TickState { tick_rate: RATE, last_tick: ms * MS })
}

#[test]
fn quit_key_is_q() {
    assert_eq!(QUIT_KEY, 'q');
    assert!(key('q').quits());
    assert!(!key('Q').quits());
    assert!(!key('x').quits());
    assert!(!Reply::Key(Key::Other).quits());
    assert!(!Reply::Done.quits());
    assert!(!Reply::Other.quits());
    assert!(!Reply::Failed.quits());
}

#[test]
fn a_new_loop_is_idle_and_asks_for_a_draw() {
    let event_loop = EventLoop::new(RATE);
    assert_eq!(event_loop, EventLoop::Idle { tick_rate: RATE });
    assert_eq!(event_loop.phase(), Phase::Idle);
    assert_eq!(event_loop.action(0), Action::Draw);
    assert_eq!(event_loop.action(123 * MS), Action::Draw);
}

#[test]
fn the_first_draw_starts_the_polling() {
    let mut event_loop = EventLoop::new(RATE);
    let action = event_loop.step(40 * MS, Reply::Done);
    assert_eq!(action, Action::Poll { timeout: RATE });
    assert_eq!(event_loop, polling_since(40));
    assert_eq!(event_loop.phase(), Phase::Polling);
}

#[test]
fn a_failed_draw_ends_the_loop_before_any_poll() {
    let mut event_loop = EventLoop::new(RATE);
    let action = event_loop.step(40 * MS, Reply::Failed);
    assert_eq!(action, Action::Stop(Exit::Failed));
    assert_eq!(event_loop, EventLoop::Terminated(Exit::Failed));
    assert_eq!(event_loop.phase(), Phase::Terminated);
}

#[test]
fn no_input_for_a_second_means_timeouts_and_no_redraw() {
    let mut event_loop = EventLoop::new(RATE);
    assert_eq!(event_loop.action(0), Action::Draw);
    let script = vec![
        at(0, Reply::Done),
        at(250, Reply::Done),
        at(500, Reply::Done),
        at(750, Reply::Done),
        at(1_000, Reply::Done),
    ];
    let trace = event_loop.run(&script);
    assert_eq!(trace, vec![Action::Poll { timeout: RATE }; 5]);
    let polls = trace.iter().filter(|a| matches!(a, Action::Poll { .. })).count();
    let draws = trace.iter().filter(|a| matches!(a, Action::Draw)).count();
    assert!(polls - 1 >= 4);
    assert_eq!(draws, 0);
    assert_eq!(event_loop, polling_since(1_000));
}

#[test]
fn the_quit_key_at_once_ends_the_loop_on_the_first_poll() {
    let mut event_loop = EventLoop::new(RATE);
    let script = vec![at(0, Reply::Done), at(1, key('q'))];
    let trace = event_loop.run(&script);
    assert_eq!(trace, vec![Action::Poll { timeout: RATE }, Action::Stop(Exit::Quit)]);
    assert_eq!(event_loop, EventLoop::Terminated(Exit::Quit));
}

#[test]
fn another_key_then_the_quit_key() {
    let mut event_loop = EventLoop::new(RATE);
    assert_eq!(event_loop.step(0, Reply::Done), Action::Poll { timeout: RATE });
    assert_eq!(event_loop.step(100 * MS, key('x')), Action::Poll { timeout: 150 * MS });
    assert_eq!(event_loop.phase(), Phase::Polling);
    assert_eq!(event_loop, polling_since(0));
    assert_eq!(event_loop.step(120 * MS, key('q')), Action::Stop(Exit::Quit));
    assert_eq!(event_loop.phase(), Phase::Terminated);
}

#[test]
fn a_read_error_ends_the_loop() {
    let mut event_loop = EventLoop::new(RATE);
    let script = vec![at(0, Reply::Done), at(90, Reply::Done), at(100, Reply::Failed)];
    let trace = event_loop.run(&script);
    assert_eq!(
        trace,
        vec![
            Action::Poll { timeout: RATE },
            Action::Poll { timeout: 160 * MS },
            Action::Stop(Exit::Failed),
        ]
    );
    assert_eq!(event_loop, EventLoop::Terminated(Exit::Failed));
}

#[test]
fn keys_other_than_the_quit_key_never_end_the_loop() {
    let mut event_loop = polling_since(0);
    let mut script = Vec::new();
    let mut now = 0;
    for c in "abcdefghijklmnoprstuvwxyzQ0123456789 \n\t".chars() {
        now += 37;
        script.push(at(now, key(c)));
        now += 5;
        script.push(at(now, Reply::Key(Key::Other)));
    }
    let trace = event_loop.run(&script);
    assert_eq!(trace.len(), script.len());
    assert!(trace.iter().all(|a| matches!(a, Action::Poll { .. })));
    assert_eq!(event_loop.phase(), Phase::Polling);
}

#[test]
fn events_that_are_no_key_events_are_passed_over() {
    let mut event_loop = polling_since(0);
    assert_eq!(event_loop.step(10 * MS, Reply::Other), Action::Poll { timeout: 240 * MS });
    assert_eq!(event_loop.step(260 * MS, Reply::Other), Action::Poll { timeout: RATE });
    assert_eq!(event_loop, polling_since(260));
}

#[test]
fn the_tick_is_brought_up_to_date_after_every_reply() {
    let mut event_loop = polling_since(0);
    assert_eq!(event_loop.step(249 * MS, key('a')), Action::Poll { timeout: MS });
    assert_eq!(event_loop, polling_since(0));
    assert_eq!(event_loop.step(250 * MS, key('b')), Action::Poll { timeout: RATE });
    assert_eq!(event_loop, polling_since(250));
    assert_eq!(event_loop.step(900 * MS, Reply::Done), Action::Poll { timeout: RATE });
    assert_eq!(event_loop, polling_since(900));
    assert_eq!(event_loop.action(1_000 * MS), Action::Poll { timeout: 150 * MS });
    assert_eq!(event_loop.action(2_000 * MS), Action::Poll { timeout: 0 });
}

#[test]
fn every_timeout_is_at_most_the_tick_rate() {
    let mut event_loop = EventLoop::new(RATE);
    let mut script = vec![at(3, Reply::Done)];
    for ms in [4, 9, 100, 252, 253, 254, 700, 701, 950, 951, 3_000, 3_249, 3_251] {
        script.push(at(ms, Reply::Done));
    }
    for action in event_loop.run(&script) {
        match action {
            Action::Poll { timeout } => assert!(timeout <= RATE),
            other => panic!("no poll: {:?}", other),
        }
    }
}

#[test]
fn a_loop_that_has_ended_takes_no_more_replies() {
    for exit in [Exit::Quit, Exit::Failed] {
        let mut event_loop = EventLoop::Terminated(exit);
        let script = vec![
            at(1, Reply::Done),
            at(2, key('x')),
            at(3, key('q')),
            at(4, Reply::Other),
            at(5, Reply::Failed),
        ];
        let trace = event_loop.run(&script);
        assert_eq!(trace, vec![Action::Stop(exit); 5]);
        assert_eq!(event_loop, EventLoop::Terminated(exit));
        assert_eq!(event_loop.action(6), Action::Stop(exit));
    }
}

#[test]
fn the_first_ending_reply_decides_how_the_loop_ends() {
    let mut quit_first = polling_since(0);
    quit_first.run(&vec![at(1, key('a')), at(2, key('q')), at(3, Reply::Failed)]);
    assert_eq!(quit_first, EventLoop::Terminated(Exit::Quit));

    let mut failure_first = polling_since(0);
    failure_first.run(&vec![at(1, key('a')), at(2, Reply::Failed), at(3, key('q'))]);
    assert_eq!(failure_first, EventLoop::Terminated(Exit::Failed));
}

#[test]
fn run_is_step_after_step() {
    let script = vec![
        at(0, Reply::Done),
        at(30, key('j')),
        at(280, Reply::Other),
        at(300, Reply::Done),
        at(530, key('q')),
        at(540, key('k')),
    ];
    let mut stepped = EventLoop::new(RATE);
    let mut expected = Vec::new();
    for report in &script {
        expected.push(stepped.step(report.now, report.reply));
    }
    let mut ran = EventLoop::new(RATE);
    assert_eq!(ran.run(&script), expected);
    assert_eq!(ran, stepped);
    assert_eq!(
        expected,
        vec![
            Action::Poll { timeout: RATE },
            Action::Poll { timeout: 220 * MS },
            Action::Poll { timeout: RATE },
            Action::Poll { timeout: 230 * MS },
            Action::Stop(Exit::Quit),
            Action::Stop(Exit::Quit),
        ]
    );
}

#[test]
fn an_empty_script_changes_nothing() {
    let mut event_loop = polling_since(5);
    assert_eq!(event_loop.run(&Vec::new()), Vec::new());
    assert_eq!(event_loop, polling_since(5));
}

#[test]
fn an_idle_loop_takes_any_reply_but_a_failure_as_the_draw_done() {
    for reply in [Reply::Done, key('q'), key('x'), Reply::Key(Key::Other), Reply::Other] {
        let mut event_loop = EventLoop::new(RATE);
        assert_eq!(event_loop.step(7 * MS, reply), Action::Poll { timeout: RATE });
        assert_eq!(event_loop, polling_since(7));
    }
}

#[test]
fn a_script_in_two_parts_is_the_script_as_a_whole() {
    let script = vec![
        at(0, Reply::Done),
        at(100, key('a')),
        at(300, Reply::Done),
        at(310, Reply::Other),
        at(560, key('q')),
        at(570, Reply::Done),
    ];
    let mut whole = EventLoop::new(RATE);
    let whole_trace = whole.run(&script);
    for cut in 0..=script.len() {
        let mut parts = EventLoop::new(RATE);
        let mut trace = parts.run(&script[..cut].to_vec());
        trace.extend(parts.run(&script[cut..].to_vec()));
        assert_eq!(trace, whole_trace);
        assert_eq!(parts, whole);
    }
}
