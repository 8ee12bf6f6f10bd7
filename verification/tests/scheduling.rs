use badtouch::controller::Controller;
use badtouch::controller::Directive;
use badtouch::scheduler::Attempt;
use badtouch::scheduler::Key;
use badtouch::scheduler::Msg;
use badtouch::scheduler::ProbeError;
use badtouch::scheduler::Scheduler;
use badtouch::scheduler::Script;
use badtouch::setup::setup_credential_confirmation;
use badtouch::setup::setup_dictionary_attack;

fn script(id: usize, descr: &str) -> Script {
    Script { id, descr: String::from(descr) }
}

fn strings(items: &[&str]) -> Vec<String> {
    items.iter().map(|s| String::from(*s)).collect()
}

fn probe_error(message: &str) -> ProbeError {
    ProbeError { message: String::from(message) }
}

/// Play the run to completion on one simulated worker: take the next
/// queued attempt, produce its outcome with `probe`, and feed the message
/// back through the controller. Returns how many times a probe executed.
fn drive(
    sched: &mut Scheduler,
    ctrl: &mut Controller,
    probe: &dyn Fn(&Attempt) -> Result<bool, ProbeError>,
) -> usize {
    let mut executions: usize = 0;
    while sched.has_work() {
        let attempt = sched.next_attempt().expect("work pending but nothing dispatchable");
        executions += 1;
        let outcome = probe(&attempt);
        let msg = attempt.run(outcome);
        ctrl.step(sched, msg);
    }
    executions
}

#[test]
fn fresh_attempts_start_with_five_lives() {
    let user = String::from("u");
    let password = String::from("p");
    let sc = script(0, "s");
    let attempt = Attempt::new(&user, &password, &sc);
    assert_eq!(attempt.ttl, 5);
    assert_eq!(attempt.user, "u");
    assert_eq!(attempt.password, "p");
    assert_eq!(attempt.script.descr, "s");
}

#[test]
fn attempt_run_wraps_the_outcome() {
    let user = String::from("u");
    let password = String::from("p");
    let sc = script(0, "s");
    let attempt = Attempt::new(&user, &password, &sc);
    match attempt.run(Ok(true)) {
        Msg::Attempt(a, Ok(true)) => assert_eq!(a.user, "u"),
        _ => panic!("expected an attempt message carrying Ok(true)"),
    }
}

#[test]
fn worker_count_changes_by_one_with_a_floor_of_one() {
    let mut sched = Scheduler::new(2);
    assert_eq!(sched.max_count(), 2);
    assert_eq!(sched.incr(), 3);
    assert_eq!(sched.decr(), 2);
    assert_eq!(sched.decr(), 1);
    assert_eq!(sched.decr(), 1);
    assert_eq!(sched.decr(), 1);
    assert_eq!(sched.incr(), 2);
}

#[test]
fn nothing_dispatches_while_paused() {
    let mut sched = Scheduler::new(1);
    let users = strings(&["alice"]);
    let passwords = strings(&["one", "two"]);
    let scripts = vec![script(0, "s")];
    let n = setup_dictionary_attack(&mut sched, &users, &passwords, &scripts);
    assert_eq!(n, 2);
    // The scheduler starts paused: the queued attempts must not start.
    assert!(sched.next_attempt().is_none());
    assert!(sched.next_attempt().is_none());
    sched.resume();
    let first = sched.next_attempt().expect("resumed with queued work");
    assert_eq!(first.password, "one");
    // Pausing again blocks the remaining attempt until the next resume.
    sched.pause();
    assert!(sched.next_attempt().is_none());
    sched.resume();
    let second = sched.next_attempt().expect("resumed with queued work");
    assert_eq!(second.password, "two");
    assert!(sched.next_attempt().is_none());
}

#[test]
fn dictionary_mode_submits_the_full_cross_product() {
    let mut sched = Scheduler::new(1);
    let users = strings(&["a", "b"]);
    let passwords = strings(&["1", "2", "3"]);
    let scripts = vec![script(0, "x"), script(1, "y")];
    let n = setup_dictionary_attack(&mut sched, &users, &passwords, &scripts);
    assert_eq!(n, 12);
    assert!(sched.has_work());
    sched.resume();
    // Submission order: users outermost, then passwords, then scripts.
    let first = sched.next_attempt().expect("queued work");
    assert_eq!(first.user, "a");
    assert_eq!(first.password, "1");
    assert_eq!(first.script.descr, "x");
    let second = sched.next_attempt().expect("queued work");
    assert_eq!(second.script.descr, "y");
    let mut rest: usize = 2;
    while sched.next_attempt().is_some() {
        rest += 1;
    }
    assert_eq!(rest, 12);
}

#[test]
fn empty_lists_submit_nothing() {
    let mut sched = Scheduler::new(1);
    let users = strings(&[]);
    let passwords = strings(&["1"]);
    let scripts = vec![script(0, "x")];
    let n = setup_dictionary_attack(&mut sched, &users, &passwords, &scripts);
    assert_eq!(n, 0);
    assert!(!sched.has_work());
}

#[test]
fn confirmation_mode_submits_creds_times_scripts() {
    let mut sched = Scheduler::new(1);
    let lines = strings(&["a:1", "b:2"]);
    let scripts = vec![script(0, "x"), script(1, "y"), script(2, "z")];
    let n = setup_credential_confirmation(&mut sched, &lines, &scripts)
        .expect("all lines parse");
    assert_eq!(n, 6);
    sched.resume();
    let first = sched.next_attempt().expect("queued work");
    assert_eq!(first.user, "a");
    assert_eq!(first.password, "1");
    assert_eq!(first.script.descr, "x");
}

#[test]
fn confirmation_mode_rejects_a_bad_line_before_submitting() {
    let mut sched = Scheduler::new(1);
    let lines = strings(&["a:1", "nope"]);
    let scripts = vec![script(0, "x")];
    let err = setup_credential_confirmation(&mut sched, &lines, &scripts)
        .expect_err("a line has no colon");
    assert_eq!(err.line, "nope");
    assert!(!sched.has_work());
    sched.resume();
    assert!(sched.next_attempt().is_none());
}

#[test]
fn a_failure_spends_one_life_and_resubmits_while_budget_remains() {
    let mut sched = Scheduler::new(1);
    let users = strings(&["u"]);
    let passwords = strings(&["p"]);
    let scripts = vec![script(0, "s")];
    let n = setup_dictionary_attack(&mut sched, &users, &passwords, &scripts);
    let mut ctrl = Controller::new(n);
    sched.resume();
    let attempt = sched.next_attempt().expect("queued work");
    assert_eq!(attempt.ttl, 5);
    let msg = attempt.run(Err(probe_error("connection refused")));
    match ctrl.step(&mut sched, msg) {
        Directive::Retrying(a, e) => {
            assert_eq!(a.ttl, 4);
            assert_eq!(e.message, "connection refused");
        },
        _ => panic!("expected a retry directive"),
    }
    assert_eq!(ctrl.retries, 1);
    assert_eq!(ctrl.completed, 0);
    assert!(sched.has_work());
    let requeued = sched.next_attempt().expect("the retry is queued");
    assert_eq!(requeued.ttl, 4);
    assert_eq!(requeued.user, "u");
}

#[test]
fn key_commands_never_end_the_run_early() {
    let mut sched = Scheduler::new(2);
    let users = strings(&["u"]);
    let passwords = strings(&["p", "q"]);
    let scripts = vec![script(0, "s")];
    let n = setup_dictionary_attack(&mut sched, &users, &passwords, &scripts);
    let mut ctrl = Controller::new(n);
    sched.resume();

    // One attempt completes; one is still outstanding.
    let attempt = sched.next_attempt().expect("queued work");
    let msg = attempt.run(Ok(true));
    ctrl.step(&mut sched, msg);
    assert!(sched.has_work());

    // A burst of key events arrives on the same channel: none of them
    // corresponds to submitted work, so none may drain the accounting.
    for key in [Key::H, Key::Plus, Key::Minus, Key::P, Key::R] {
        ctrl.step(&mut sched, Msg::Key(key));
        assert!(sched.has_work());
    }

    // The outstanding attempt still runs to its terminal disposition.
    let attempt = sched.next_attempt().expect("queued work");
    let msg = attempt.run(Ok(false));
    ctrl.step(&mut sched, msg);
    assert!(!sched.has_work());
    assert_eq!(ctrl.completed, 2);
    assert_eq!(ctrl.valid, 1);
}

#[test]
fn key_commands_drive_the_scheduler() {
    let mut sched = Scheduler::new(1);
    let users = strings(&["u"]);
    let passwords = strings(&["p"]);
    let scripts = vec![script(0, "s")];
    let n = setup_dictionary_attack(&mut sched, &users, &passwords, &scripts);
    let mut ctrl = Controller::new(n);
    sched.resume();

    assert!(matches!(ctrl.step(&mut sched, Msg::Key(Key::H)), Directive::Help));
    match ctrl.step(&mut sched, Msg::Key(Key::Plus)) {
        Directive::Workers(count) => assert_eq!(count, 2),
        _ => panic!("expected a worker-count directive"),
    }
    match ctrl.step(&mut sched, Msg::Key(Key::Minus)) {
        Directive::Workers(count) => assert_eq!(count, 1),
        _ => panic!("expected a worker-count directive"),
    }
    assert!(matches!(ctrl.step(&mut sched, Msg::Key(Key::P)), Directive::Paused));
    assert!(sched.next_attempt().is_none());
    assert!(matches!(ctrl.step(&mut sched, Msg::Key(Key::R)), Directive::Resumed));
    assert!(sched.next_attempt().is_some());
}

#[test]
fn all_valid_run_ends_with_every_attempt_valid() {
    let mut sched = Scheduler::new(2);
    let users = strings(&["alice", "bob"]);
    let passwords = strings(&["one", "two"]);
    let scripts = vec![script(0, "s")];
    let n = setup_dictionary_attack(&mut sched, &users, &passwords, &scripts);
    assert_eq!(n, 4);
    let mut ctrl = Controller::new(n);
    sched.resume();
    let executions = drive(&mut sched, &mut ctrl, &|_| Ok(true));
    assert_eq!(executions, 4);
    assert_eq!(ctrl.valid, 4);
    assert_eq!(ctrl.retries, 0);
    assert_eq!(ctrl.expired, 0);
    assert_eq!(ctrl.completed, 4);
    assert!(!sched.has_work());
}

#[test]
fn always_failing_probe_executes_five_times_then_expires() {
    let mut sched = Scheduler::new(1);
    let lines = strings(&["root:toor"]);
    let scripts = vec![script(0, "s")];
    let n = setup_credential_confirmation(&mut sched, &lines, &scripts)
        .expect("the line parses");
    assert_eq!(n, 1);
    let mut ctrl = Controller::new(n);
    sched.resume();
    let executions = drive(&mut sched, &mut ctrl, &|_| Err(probe_error("timeout")));
    assert_eq!(executions, 5);
    assert_eq!(ctrl.retries, 4);
    assert_eq!(ctrl.expired, 1);
    assert_eq!(ctrl.valid, 0);
    assert_eq!(ctrl.completed, 1);
    assert!(!sched.has_work());
}

#[test]
fn a_completed_but_invalid_probe_is_terminal_without_a_finding() {
    let mut sched = Scheduler::new(1);
    let users = strings(&["u"]);
    let passwords = strings(&["p"]);
    let scripts = vec![script(0, "s")];
    let n = setup_dictionary_attack(&mut sched, &users, &passwords, &scripts);
    let mut ctrl = Controller::new(n);
    sched.resume();
    let executions = drive(&mut sched, &mut ctrl, &|_| Ok(false));
    assert_eq!(executions, 1);
    assert_eq!(ctrl.valid, 0);
    assert_eq!(ctrl.expired, 0);
    assert_eq!(ctrl.completed, 1);
    assert!(!sched.has_work());
}
