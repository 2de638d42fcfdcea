use chefctl::process::{
    chef_run_log_name, output_path, output_path_at, splay, timestamp_of, ChefClientArgs,
    LocalTime, PollOutcome, PostRun, PreRun, Running, StateMachine, Waiting, MAX_SPLAY,
};
use chefctl::state::{DisplayState, State};

fn sample_time() -> LocalTime {
    LocalTime {
        year: 2019,
        month: 3,
        day: 7,
        hour: 9,
        minute: 5,
        timestamp: 1551949500,
        subsec_nanos: 250,
    }
}

#[test]
fn renders_cmd_line() {
    let expected = String::from("/opt/chef/embedded/bin/chef-client --force");
    let mut opts = ChefClientArgs::new();
    opts.insert("--force");

    let s: String = opts.into();

    assert_eq!(s, expected);
}

#[test]
fn renders_bare_cmd_line() {
    let opts = ChefClientArgs::new();
    assert_eq!(opts.render(), "/opt/chef/embedded/bin/chef-client");
}

#[test]
fn renders_several_tokens_in_order() {
    let mut opts = ChefClientArgs::new();
    opts.insert("--once");
    opts.insert("-l auto");
    assert_eq!(opts.render(), "/opt/chef/embedded/bin/chef-client --once -l auto");
}

#[test]
fn timestamp_pads_calendar_fields() {
    assert_eq!(timestamp_of(&sample_time()), "20190307.0905.1551949500.250");
}

#[test]
fn timestamp_keeps_two_digit_fields() {
    let t = LocalTime {
        year: 2020,
        month: 12,
        day: 31,
        hour: 23,
        minute: 59,
        timestamp: 7,
        subsec_nanos: 0,
    };
    assert_eq!(timestamp_of(&t), "20201231.2359.7.0");
}

#[test]
fn timestamp_of_negative_epoch() {
    let t = LocalTime {
        year: 1969,
        month: 12,
        day: 31,
        hour: 23,
        minute: 59,
        timestamp: -60,
        subsec_nanos: 999999999,
    };
    assert_eq!(timestamp_of(&t), "19691231.2359.-60.999999999");
}

#[test]
fn log_name_and_path_of_a_time() {
    assert_eq!(chef_run_log_name(&sample_time()), "chef.20190307.0905.1551949500.250.out");
    assert_eq!(output_path_at(&sample_time()), "/tmp/chef.20190307.0905.1551949500.250.out");
}

#[test]
fn output_path_now_has_the_log_shape() {
    let p = output_path();
    assert!(p.starts_with("/tmp/chef."));
    assert!(p.ends_with(".out"));
}

#[test]
fn splay_of_zero_is_zero() {
    assert_eq!(splay(0), 0);
}

#[test]
fn splay_of_one_is_always_zero() {
    for _ in 0..1000 {
        assert_eq!(splay(1), 0);
    }
}

#[test]
fn splay_stays_below_its_bound() {
    for _ in 0..1000 {
        assert!(splay(MAX_SPLAY) < MAX_SPLAY as u64);
    }
}

fn pre_run(register: &mut State) -> StateMachine<PreRun> {
    StateMachine::<PreRun>::with_log_path(
        String::from("/opt/chef/embedded/bin/chef-client --force --no-fork"),
        String::from("/tmp/chef.B.out"),
        register,
    )
}

#[test]
fn pre_run_splits_the_command_and_publishes() {
    let mut register = State::new();
    let run = pre_run(&mut register);
    assert_eq!(
        run.command(),
        &vec![
            String::from("/opt/chef/embedded/bin/chef-client"),
            String::from("--force"),
            String::from("--no-fork")
        ]
    );
    assert_eq!(run.log_path(), "/tmp/chef.B.out");
    assert_eq!(register.peek(), Some(DisplayState::PreRun));
    assert_eq!(register.phase_label(), "pre-run");
}

#[test]
fn new_pre_run_logs_to_a_fresh_path() {
    let mut register = State::new();
    let run = StateMachine::<PreRun>::new(String::from("/bin/true"), &mut register);
    assert!(run.log_path().starts_with("/tmp/chef."));
    assert_eq!(run.command(), &vec![String::from("/bin/true")]);
}

#[test]
fn phases_are_visited_in_order() {
    let mut register = State::new();
    assert_eq!(register.phase_label(), "init");
    let run = pre_run(&mut register);
    assert_eq!(register.phase_label(), "pre-run");
    let mut waiting: StateMachine<Waiting> = run.into_waiting_for(0, &mut register);
    assert_eq!(register.phase_label(), "waiting");
    assert!(!waiting.tick(&mut register));
    let running: StateMachine<Running> = match waiting.into_running(&mut register) {
        Ok(r) => r,
        Err(_) => panic!("a finished countdown must start the run"),
    };
    assert_eq!(register.phase_label(), "running");
    assert_eq!(running.log_path(), "/tmp/chef.B.out");
    let done: StateMachine<PostRun> = match running.poll(PollOutcome::Exited(Some(0)), &mut register) {
        Ok(d) => d,
        Err(_) => panic!("an exited client must end the run"),
    };
    assert_eq!(register.phase_label(), "post-run");
    assert_eq!(done.exit_status(), Some(0));
}

#[test]
fn random_splay_is_below_the_bound() {
    let mut register = State::new();
    let waiting = pre_run(&mut register).into_waiting(&mut register);
    assert!(waiting.splay_secs() < MAX_SPLAY as u64);
    assert_eq!(waiting.remaining(), waiting.splay_secs());
    assert_eq!(register.peek(), Some(DisplayState::Waiting));
}

#[test]
fn countdown_of_three_publishes_two_one_zero() {
    let mut register = State::new();
    let mut waiting = pre_run(&mut register).into_waiting_for(3, &mut register);
    let mut seen = Vec::new();
    while waiting.tick(&mut register) {
        seen.push(register.splay_remaining());
    }
    assert_eq!(seen, vec![2, 1, 0]);
    assert_eq!(register.phase_label(), "waiting");
}

#[test]
fn countdown_reads_never_increase_nor_exceed_the_splay() {
    let mut register = State::new();
    let mut waiting = pre_run(&mut register).into_waiting_for(5, &mut register);
    assert_eq!(register.splay_remaining(), 5);
    let mut last = 5u64;
    loop {
        for _ in 0..100 {
            let v = register.splay_remaining();
            assert!(v <= last);
            assert!(v <= 5);
        }
        if !waiting.tick(&mut register) {
            break;
        }
        let v = register.splay_remaining();
        assert!(v < last);
        last = v;
    }
    assert_eq!(last, 0);
}

#[test]
fn running_cannot_start_before_the_countdown_ends() {
    let mut register = State::new();
    let waiting = pre_run(&mut register).into_waiting_for(2, &mut register);
    let waiting = match waiting.into_running(&mut register) {
        Ok(_) => panic!("the countdown has not ended"),
        Err(w) => w,
    };
    assert_eq!(waiting.remaining(), 2);
    assert_eq!(register.peek(), Some(DisplayState::Waiting));
}

#[test]
fn polling_a_live_client_keeps_running() {
    let mut register = State::new();
    let waiting = pre_run(&mut register).into_waiting_for(0, &mut register);
    let running = match waiting.into_running(&mut register) {
        Ok(r) => r,
        Err(_) => panic!("a finished countdown must start the run"),
    };
    let running = match running.poll(PollOutcome::StillRunning, &mut register) {
        Ok(_) => panic!("still running"),
        Err(r) => r,
    };
    let running = match running.poll(PollOutcome::PollFailed, &mut register) {
        Ok(_) => panic!("a failed poll does not end the run"),
        Err(r) => r,
    };
    assert_eq!(register.peek(), Some(DisplayState::Running));
    let done = match running.poll(PollOutcome::Exited(None), &mut register) {
        Ok(d) => d,
        Err(_) => panic!("an exited client must end the run"),
    };
    assert_eq!(done.exit_status(), None);
}

#[test]
fn rotation_promotes_the_current_target() {
    let mut register = State::new();
    let run = pre_run(&mut register);
    let plan = run.rotation(Some(String::from("/tmp/chef.A.out")), None);
    assert_eq!(plan.promote_last, Some(String::from("/tmp/chef.A.out")));
    assert_eq!(plan.current_target, "/tmp/chef.B.out");
    assert_ne!(plan.current_target, "/tmp/chef.A.out");
}

#[test]
fn entering_waiting_publishes_the_full_countdown() {
    let mut register = State::new();
    let waiting = pre_run(&mut register).into_waiting_for(4, &mut register);
    assert_eq!(register.peek(), Some(DisplayState::Waiting));
    assert_eq!(register.splay_remaining(), 4);
    assert_eq!(waiting.remaining(), 4);
}

#[test]
fn readings_within_one_second_get_distinct_logs() {
    let a = sample_time();
    let b = LocalTime { subsec_nanos: 251, ..sample_time() };
    assert_ne!(output_path_at(&a), output_path_at(&b));
}

#[test]
fn successive_output_paths_differ() {
    let p1 = output_path();
    let p2 = output_path();
    assert_ne!(p1, p2);
}
