use crate::platform::{CHEF_PATH, CHEF_RUN_LOG_DIR};
use crate::state::{phase_label, DisplayState, State};
use crate::symlink::{lemma_first_rotation, links_after, plan_rotation, rotation_of, RotationPlan};
use crate::text::{
    digits, free_of, int_text, join_with_spaces, join_words, lemma_digits_injective,
    lemma_int_text_dot_free, lemma_int_text_injective, lemma_pad2_injective,
    lemma_pad2_shape, lemma_split_at_dot, opt_view, pad2, push_digits, push_int, push_pad2,
    space_free, split_on_spaces, views,
};
use chrono::{Datelike, Timelike};
use rand::Rng;
use vstd::prelude::*;

verus! {

/// The command line handed to the client, built one token at a time. The
/// executable's path is put in front when the line is rendered.
#[derive(Debug, Default)]
pub struct ChefClientArgs {
    cmd: Vec<String>,
}

impl ChefClientArgs {
    /// The tokens inserted so far, in order.
    pub closed spec fn tokens(&self) -> Seq<Seq<char>> {
        views(self.cmd@)
    }

    /// The rendered command line: the executable, then each token, joined
    /// with spaces.
    pub open spec fn rendered(&self) -> Seq<char> {
        join_words(seq![CHEF_PATH@] + self.tokens())
    }

    /// An empty argument list.
    pub fn new() -> (r: Self)
        ensures
            r.tokens() == Seq::<Seq<char>>::empty(),
    {
        let r = Self { cmd: Vec::new() };
        assert(r.tokens() =~= Seq::<Seq<char>>::empty());
        r
    }

    /// Appends one token.
    pub fn insert(&mut self, opt: &str)
        ensures
            final(self).tokens() == old(self).tokens().push(opt@),
    {
        self.cmd.push(opt.to_owned());
        assert(final(self).tokens() =~= old(self).tokens().push(opt@));
    }

    /// The command line: the executable's path, then the tokens, joined
    /// with spaces.
    pub fn render(&self) -> (r: String)
        ensures
            r@ == self.rendered(),
    {
        let mut line: Vec<String> = Vec::new();
        line.push(CHEF_PATH.to_owned());
        let mut i: usize = 0;
        while i < self.cmd.len()
            invariant
                i <= self.cmd.len(),
                line@.len() == i + 1,
                line@[0]@ == CHEF_PATH@,
                forall|j: int| 0 <= j < i ==> line@[j + 1]@ == self.cmd@[j]@,
            decreases self.cmd.len() - i,
        {
            line.push(self.cmd[i].clone());
            i = i + 1;
        }
        assert(views(line@) =~= seq![CHEF_PATH@] + self.tokens());
        join_with_spaces(&line)
    }
}

impl From<ChefClientArgs> for String {
    fn from(args: ChefClientArgs) -> (r: String)
        ensures
            r@ == args.rendered(),
    {
        args.render()
    }
}

impl vstd::std_specs::convert::FromSpecImpl<ChefClientArgs> for String {
    open spec fn obeys_from_spec() -> bool {
        false
    }

    open spec fn from_spec(v: ChefClientArgs) -> String {
        arbitrary()
    }
}

/// A local wall-clock reading, as the run's log name uses it.
#[derive(Debug, Clone, Copy, PartialEq, Eq)]
pub struct LocalTime {
    pub year: i32,
    pub month: u32,
    pub day: u32,
    pub hour: u32,
    pub minute: u32,
    /// Seconds since the Unix epoch.
    pub timestamp: i64,
    /// Nanoseconds since the last whole second; above a second's worth only
    /// during a leap second.
    pub subsec_nanos: u32,
}

impl LocalTime {
    /// The fields lie in the calendar's ranges.
    pub open spec fn wf(&self) -> bool {
        &&& 1 <= self.month <= 12
        &&& 1 <= self.day <= 31
        &&& self.hour <= 23
        &&& self.minute <= 59
    }
}

/// Relies on chrono::Local::now for the current local time, read through
/// chrono's Datelike and Timelike accessors (month and day count from one,
/// hour and minute from zero), DateTime::timestamp and
/// DateTime::timestamp_subsec_nanos.
#[verifier::external_body]
fn local_now() -> (r: LocalTime)
    ensures
        r.wf(),
{
    let now = chrono::Local::now();
    LocalTime {
        year: now.year(),
        month: now.month(),
        day: now.day(),
        hour: now.hour(),
        minute: now.minute(),
        timestamp: now.timestamp(),
        subsec_nanos: now.timestamp_subsec_nanos(),
    }
}

/// The date part of a time stamp: the year in full, then month and day
/// padded to two digits.
pub open spec fn date_text(t: LocalTime) -> Seq<char> {
    int_text(t.year as int) + pad2(t.month as nat) + pad2(t.day as nat)
}

/// The time-of-day part of a time stamp: hour and minute padded to two
/// digits.
pub open spec fn clock_text(t: LocalTime) -> Seq<char> {
    pad2(t.hour as nat) + pad2(t.minute as nat)
}

/// `YYYYMMDD.HHMM.<epoch seconds>.<nanoseconds>`: second resolution, made
/// finer by the nanoseconds within the second.
pub open spec fn timestamp_text(t: LocalTime) -> Seq<char> {
    date_text(t) + seq!['.'] + (clock_text(t) + seq!['.'] + (int_text(t.timestamp as int) + seq![
        '.',
    ] + digits(t.subsec_nanos as nat)))
}

/// The file name of the log of a run started at `t`.
pub open spec fn log_file_name(t: LocalTime) -> Seq<char> {
    "chef."@ + timestamp_text(t) + ".out"@
}

/// The path of the log of a run started at `t`.
pub open spec fn log_path_at(t: LocalTime) -> Seq<char> {
    CHEF_RUN_LOG_DIR@ + log_file_name(t)
}

proof fn lemma_date_text_injective(t1: LocalTime, t2: LocalTime)
    requires
        t1.wf(),
        t2.wf(),
        date_text(t1) == date_text(t2),
    ensures
        t1.year == t2.year,
        t1.month == t2.month,
        t1.day == t2.day,
        free_of(date_text(t1), '.'),
{
    lemma_pad2_shape(t1.month as nat);
    lemma_pad2_shape(t1.day as nat);
    lemma_pad2_shape(t2.month as nat);
    lemma_pad2_shape(t2.day as nat);
    lemma_int_text_dot_free(t1.year as int);
    let d1 = date_text(t1);
    let d2 = date_text(t2);
    let y1 = int_text(t1.year as int);
    let y2 = int_text(t2.year as int);
    assert(y1 =~= d1.subrange(0, d1.len() - 4));
    assert(y2 =~= d2.subrange(0, d2.len() - 4));
    lemma_int_text_injective(t1.year as int, t2.year as int);
    assert(pad2(t1.month as nat) =~= d1.subrange(d1.len() - 4, d1.len() - 2));
    assert(pad2(t2.month as nat) =~= d2.subrange(d2.len() - 4, d2.len() - 2));
    lemma_pad2_injective(t1.month as nat, t2.month as nat);
    assert(pad2(t1.day as nat) =~= d1.subrange(d1.len() - 2, d1.len() as int));
    assert(pad2(t2.day as nat) =~= d2.subrange(d2.len() - 2, d2.len() as int));
    lemma_pad2_injective(t1.day as nat, t2.day as nat);
}

proof fn lemma_clock_text_injective(t1: LocalTime, t2: LocalTime)
    requires
        t1.wf(),
        t2.wf(),
        clock_text(t1) == clock_text(t2),
    ensures
        t1.hour == t2.hour,
        t1.minute == t2.minute,
{
    lemma_pad2_shape(t1.hour as nat);
    lemma_pad2_shape(t1.minute as nat);
    lemma_pad2_shape(t2.hour as nat);
    lemma_pad2_shape(t2.minute as nat);
    let c1 = clock_text(t1);
    let c2 = clock_text(t2);
    assert(pad2(t1.hour as nat) =~= c1.subrange(0, 2));
    assert(pad2(t2.hour as nat) =~= c2.subrange(0, 2));
    lemma_pad2_injective(t1.hour as nat, t2.hour as nat);
    assert(pad2(t1.minute as nat) =~= c1.subrange(2, 4));
    assert(pad2(t2.minute as nat) =~= c2.subrange(2, 4));
    lemma_pad2_injective(t1.minute as nat, t2.minute as nat);
}

/// Distinct clock readings give distinct log paths, so runs started at
/// different instants never share a log.
pub proof fn lemma_log_path_injective(t1: LocalTime, t2: LocalTime)
    requires
        t1.wf(),
        t2.wf(),
        t1 != t2,
    ensures
        log_path_at(t1) != log_path_at(t2),
{
    if log_path_at(t1) == log_path_at(t2) {
        let pre = CHEF_RUN_LOG_DIR@ + "chef."@;
        let p1 = log_path_at(t1);
        let p2 = log_path_at(t2);
        assert(p1 =~= pre + timestamp_text(t1) + ".out"@);
        assert(p2 =~= pre + timestamp_text(t2) + ".out"@);
        let k = (".out"@).len();
        assert(timestamp_text(t1) =~= p1.subrange(pre.len() as int, p1.len() - k));
        assert(timestamp_text(t2) =~= p2.subrange(pre.len() as int, p2.len() - k));
        lemma_pad2_shape(t2.month as nat);
        lemma_pad2_shape(t2.day as nat);
        lemma_int_text_dot_free(t2.year as int);
        assert(free_of(date_text(t2), '.'));
        assert(free_of(date_text(t1), '.')) by {
            lemma_pad2_shape(t1.month as nat);
            lemma_pad2_shape(t1.day as nat);
            lemma_int_text_dot_free(t1.year as int);
        }
        let r1 = clock_text(t1) + seq!['.'] + (int_text(t1.timestamp as int) + seq!['.'] + digits(
            t1.subsec_nanos as nat,
        ));
        let r2 = clock_text(t2) + seq!['.'] + (int_text(t2.timestamp as int) + seq!['.'] + digits(
            t2.subsec_nanos as nat,
        ));
        lemma_split_at_dot(date_text(t1), r1, date_text(t2), r2);
        lemma_date_text_injective(t1, t2);
        lemma_pad2_shape(t1.hour as nat);
        lemma_pad2_shape(t1.minute as nat);
        lemma_pad2_shape(t2.hour as nat);
        lemma_pad2_shape(t2.minute as nat);
        let q1 = int_text(t1.timestamp as int) + seq!['.'] + digits(t1.subsec_nanos as nat);
        let q2 = int_text(t2.timestamp as int) + seq!['.'] + digits(t2.subsec_nanos as nat);
        lemma_split_at_dot(clock_text(t1), q1, clock_text(t2), q2);
        lemma_clock_text_injective(t1, t2);
        lemma_int_text_dot_free(t1.timestamp as int);
        lemma_int_text_dot_free(t2.timestamp as int);
        lemma_split_at_dot(
            int_text(t1.timestamp as int),
            digits(t1.subsec_nanos as nat),
            int_text(t2.timestamp as int),
            digits(t2.subsec_nanos as nat),
        );
        lemma_int_text_injective(t1.timestamp as int, t2.timestamp as int);
        lemma_digits_injective(t1.subsec_nanos as nat, t2.subsec_nanos as nat);
    }
}

/// With `current` at the log of a run started at `ta` and no `last`, the
/// rotation towards the log of a run started at another instant `tb` leaves
/// `last` at the old log and `current` at the new one, and the two differ.
pub proof fn lemma_first_rotation_of_runs(ta: LocalTime, tb: LocalTime)
    requires
        ta.wf(),
        tb.wf(),
        ta != tb,
    ensures
        links_after(rotation_of(Some(log_path_at(ta)), None, log_path_at(tb)), (
            Some(log_path_at(ta)),
            None,
        )) == (Some(log_path_at(tb)), Some(log_path_at(ta))),
        log_path_at(tb) != log_path_at(ta),
{
    lemma_log_path_injective(ta, tb);
    lemma_first_rotation(log_path_at(ta), log_path_at(tb));
}

/// Renders the time stamp of `t`.
pub fn timestamp_of(t: &LocalTime) -> (r: String)
    ensures
        r@ == timestamp_text(*t),
{
    let mut out = String::new();
    push_int(&mut out, t.year as i64);
    push_pad2(&mut out, t.month);
    push_pad2(&mut out, t.day);
    out.append(".");
    push_pad2(&mut out, t.hour);
    push_pad2(&mut out, t.minute);
    out.append(".");
    push_int(&mut out, t.timestamp);
    out.append(".");
    push_digits(&mut out, t.subsec_nanos as u64);
    proof {
        reveal_strlit(".");
    }
    assert(out@ =~= timestamp_text(*t));
    out
}

/// The time stamp of the current local time.
fn timestamp() -> (r: String)
    ensures
        exists|t: LocalTime| t.wf() && r@ == #[trigger] timestamp_text(t),
{
    let now = local_now();
    timestamp_of(&now)
}

/// The log file name of a run started at `t`.
pub fn chef_run_log_name(t: &LocalTime) -> (r: String)
    ensures
        r@ == log_file_name(*t),
{
    let mut out = String::from_str("chef.");
    let stamp = timestamp_of(t);
    out.append(stamp.as_str());
    out.append(".out");
    out
}

/// The log file name of a run started now.
pub fn chef_run_log_path() -> (r: String)
    ensures
        exists|t: LocalTime| t.wf() && r@ == #[trigger] log_file_name(t),
{
    let now = local_now();
    chef_run_log_name(&now)
}

/// The log path of a run started at `t`: the log directory, then the name.
pub fn output_path_at(t: &LocalTime) -> (r: String)
    ensures
        r@ == log_path_at(*t),
{
    let name = chef_run_log_name(t);
    let mut out = CHEF_RUN_LOG_DIR.to_owned();
    out.append(name.as_str());
    out
}

/// The log path of a run started now.
pub fn output_path() -> (r: String)
    ensures
        exists|t: LocalTime| t.wf() && r@ == #[trigger] log_path_at(t),
{
    let now = local_now();
    output_path_at(&now)
}

/// Relies on rand's thread_rng and Rng::gen_range(low, high), which returns
/// a value in `[low, high)` and panics when `low >= high`.
#[verifier::external_body]
fn random_below(max: u32) -> (r: u32)
    requires
        max > 0,
    ensures
        r < max,
{
    rand::thread_rng().gen_range(0, max)
}

/// A random splay of whole seconds in `[0, max)`; zero, with no draw, when
/// `max` is zero.
pub fn splay(max: u32) -> (r: u64)
    ensures
        max == 0 ==> r == 0,
        max > 0 ==> r < max,
{
    if max == 0 {
        0
    } else {
        random_below(max) as u64
    }
}

/// The upper bound, in seconds, of the splay drawn before a run.
pub const MAX_SPLAY: u32 = 10;

/// `ws` is `s` cut at every space.
pub open spec fn splits_into(ws: Seq<Seq<char>>, s: Seq<char>) -> bool {
    &&& ws.len() >= 1
    &&& join_words(ws) == s
    &&& space_free(ws)
}

/// The phase that follows `p` in a run, if any.
pub open spec fn successor(p: DisplayState) -> Option<DisplayState> {
    match p {
        DisplayState::PreRun => Some(DisplayState::Waiting),
        DisplayState::Waiting => Some(DisplayState::Running),
        DisplayState::Running => Some(DisplayState::PostRun),
        DisplayState::PostRun => None,
    }
}

/// The position of a phase in a run, from zero.
pub open spec fn rank(p: DisplayState) -> nat {
    match p {
        DisplayState::PreRun => 0,
        DisplayState::Waiting => 1,
        DisplayState::Running => 2,
        DisplayState::PostRun => 3,
    }
}

/// The phases of a run, in the order they are entered.
pub open spec fn run_phases() -> Seq<DisplayState> {
    seq![DisplayState::PreRun, DisplayState::Waiting, DisplayState::Running, DisplayState::PostRun]
}

/// A run goes `PreRun`, `Waiting`, `Running`, `PostRun` and ends there; each
/// transition moves exactly one position forward, so no phase is skipped
/// and none is entered twice. The register's labels along the way are
/// `pre-run`, `waiting`, `running`, `post-run`.
pub proof fn lemma_phase_order(p: DisplayState)
    ensures
        forall|i: int|
            0 <= i < 3 ==> successor(#[trigger] run_phases()[i]) == Some(run_phases()[i + 1]),
        forall|i: int| 0 <= i < 4 ==> rank(#[trigger] run_phases()[i]) == i,
        run_phases().map_values(|q: DisplayState| phase_label(Some(q))) == seq![
            "pre-run"@,
            "waiting"@,
            "running"@,
            "post-run"@,
        ],
        successor(DisplayState::PreRun) == Some(DisplayState::Waiting),
        successor(DisplayState::Waiting) == Some(DisplayState::Running),
        successor(DisplayState::Running) == Some(DisplayState::PostRun),
        successor(DisplayState::PostRun) is None,
        successor(p) is Some ==> rank(successor(p)->0) == rank(p) + 1,
        rank(p) == 0 <==> p == DisplayState::PreRun,
{
    assert(run_phases().map_values(|q: DisplayState| phase_label(Some(q))) =~= seq![
        "pre-run"@,
        "waiting"@,
        "running"@,
        "post-run"@,
    ]);
}

/// The seconds left after one tick of a countdown at `remaining`, or `None`
/// when the countdown is over.
pub open spec fn tick_step(remaining: nat) -> Option<nat> {
    if remaining > 0 {
        Some((remaining - 1) as nat)
    } else {
        None
    }
}

/// The values a countdown from `n` publishes, one per tick, until it is over.
pub open spec fn countdown_trace(n: nat) -> Seq<nat>
    decreases n,
{
    match tick_step(n) {
        Some(m) => seq![m] + countdown_trace(m),
        None => Seq::empty(),
    }
}

/// A countdown from `n` publishes exactly `n` values, `n - 1` down to `0`:
/// each below `n`, none negative, each below the one before.
pub proof fn lemma_countdown_trace(n: nat)
    ensures
        countdown_trace(n).len() == n,
        forall|i: int| 0 <= i < n ==> #[trigger] countdown_trace(n)[i] == n - 1 - i,
        forall|i: int, j: int|
            0 <= i < j < n ==> #[trigger] countdown_trace(n)[j] < #[trigger] countdown_trace(n)[i] < n,
    decreases n,
{
    if n > 0 {
        lemma_countdown_trace((n - 1) as nat);
        let t = countdown_trace(n);
        assert forall|i: int| 0 <= i < n implies #[trigger] t[i] == n - 1 - i by {
            if i > 0 {
                assert(t[i] == countdown_trace((n - 1) as nat)[i - 1]);
            }
        }
    }
}

/// The run phases, each a state of `StateMachine`. A transition consumes
/// one phase and yields the next.
#[derive(Debug)]
pub struct StateMachine<S> {
    state: S,
}

/// Before the wait: the command to run and the path of its log.
#[derive(Debug)]
pub struct PreRun {
    command: Vec<String>,
    log_path: String,
}

/// Waiting out the splay before the command is started. What remains of
/// the countdown never exceeds the splay.
#[derive(Debug)]
pub struct Waiting {
    command: Vec<String>,
    log_path: String,
    splay: u64,
    remaining: u64,
}

impl Waiting {
    #[verifier::type_invariant]
    spec fn inv(&self) -> bool {
        self.remaining <= self.splay
    }
}

/// The client runs; its output goes to the log at `log_path`.
#[derive(Debug)]
pub struct Running {
    log_path: String,
}

/// The client has exited, with a code or, when a signal ended it, none.
#[derive(Debug)]
pub struct PostRun {
    exit_status: Option<i32>,
}

/// What a poll of the running client found.
#[derive(Debug, Clone, Copy, PartialEq, Eq, Structural)]
pub enum PollOutcome {
    /// It has exited, with this code, or with none when a signal ended it.
    Exited(Option<i32>),
    /// It has not exited yet.
    StillRunning,
    /// The poll failed; the client may still be running.
    PollFailed,
}

impl StateMachine<PreRun> {
    pub closed spec fn spec_command(&self) -> Seq<Seq<char>> {
        views(self.state.command@)
    }

    pub closed spec fn spec_log_path(&self) -> Seq<char> {
        self.state.log_path@
    }

    /// Starts a run of the command line `val`, logging to a path stamped
    /// with the current time, and publishes `PreRun`.
    pub fn new(val: String, register: &mut State) -> (r: Self)
        ensures
            splits_into(r.spec_command(), val@),
            exists|t: LocalTime| t.wf() && r.spec_log_path() == #[trigger] log_path_at(t),
            final(register).phase() == Some(DisplayState::PreRun),
            final(register).countdown() == old(register).countdown(),
    {
        let log_path = output_path();
        Self::with_log_path(val, log_path, register)
    }

    /// Starts a run of the command line `val`, logging to `log_path`, and
    /// publishes `PreRun`. The command is `val` cut at every space.
    pub fn with_log_path(val: String, log_path: String, register: &mut State) -> (r: Self)
        ensures
            splits_into(r.spec_command(), val@),
            r.spec_log_path() == log_path@,
            final(register).phase() == Some(DisplayState::PreRun),
            final(register).countdown() == old(register).countdown(),
    {
        let command = split_on_spaces(val.as_str());
        let _ = register.update_process_state(DisplayState::PreRun);
        StateMachine { state: PreRun { command, log_path } }
    }

    /// The command: the executable's path, then its arguments.
    pub fn command(&self) -> (r: &Vec<String>)
        ensures
            views(r@) == self.spec_command(),
    {
        &self.state.command
    }

    /// The path of this run's log.
    pub fn log_path(&self) -> (r: &String)
        ensures
            r@ == self.spec_log_path(),
    {
        &self.state.log_path
    }

    /// The rotation of the stable links towards this run's log.
    /// `current_target` is the file that `current` resolves to, or `None`
    /// when `current` is absent or dangling; `last_target` is what `last`
    /// points to, if it exists. Only a resolving `current` is promoted to
    /// `last`, and `last` is repointed before `current`.
    pub fn rotation(&self, current_target: Option<String>, last_target: Option<String>) -> (r:
        RotationPlan)
        ensures
            r@ == rotation_of(
                opt_view(current_target),
                opt_view(last_target),
                self.spec_log_path(),
            ),
    {
        plan_rotation(current_target, last_target, self.state.log_path.clone())
    }

    /// Moves to `Waiting` with a splay drawn in `[0, MAX_SPLAY)` seconds.
    pub fn into_waiting(self, register: &mut State) -> (r: StateMachine<Waiting>)
        ensures
            r.spec_command() == self.spec_command(),
            r.spec_log_path() == self.spec_log_path(),
            r.spec_splay() < MAX_SPLAY,
            r.spec_remaining() == r.spec_splay(),
            final(register).phase() == successor(DisplayState::PreRun),
            final(register).countdown() == r.spec_splay(),
    {
        let secs = splay(MAX_SPLAY);
        self.into_waiting_for(secs, register)
    }

    /// Moves to `Waiting` with a splay of `secs` seconds, and publishes the
    /// phase together with the full countdown.
    pub fn into_waiting_for(self, secs: u64, register: &mut State) -> (r: StateMachine<Waiting>)
        ensures
            r.spec_command() == self.spec_command(),
            r.spec_log_path() == self.spec_log_path(),
            r.spec_splay() == secs,
            r.spec_remaining() == secs,
            final(register).phase() == successor(DisplayState::PreRun),
            final(register).countdown() == secs,
    {
        let _ = register.update_process_state(DisplayState::Waiting);
        register.update_splay_countdown(secs);
        StateMachine {
            state: Waiting {
                command: self.state.command,
                log_path: self.state.log_path,
                splay: secs,
                remaining: secs,
            },
        }
    }
}

impl StateMachine<Waiting> {
    pub closed spec fn spec_command(&self) -> Seq<Seq<char>> {
        views(self.state.command@)
    }

    pub closed spec fn spec_log_path(&self) -> Seq<char> {
        self.state.log_path@
    }

    pub closed spec fn spec_splay(&self) -> u64 {
        self.state.splay
    }

    pub closed spec fn spec_remaining(&self) -> u64 {
        self.state.remaining
    }

    /// The command: the executable's path, then its arguments.
    pub fn command(&self) -> (r: &Vec<String>)
        ensures
            views(r@) == self.spec_command(),
    {
        &self.state.command
    }

    /// The splay drawn for this run, in seconds.
    pub fn splay_secs(&self) -> (r: u64)
        ensures
            r == self.spec_splay(),
    {
        self.state.splay
    }

    /// The seconds of splay still to wait; never more than the splay.
    pub fn remaining(&self) -> (r: u64)
        ensures
            r == self.spec_remaining(),
            r <= self.spec_splay(),
    {
        proof {
            use_type_invariant(&self.state);
        }
        self.state.remaining
    }

    /// One second of the countdown has passed: when some remains, takes one
    /// off, publishes what is left and returns `true`; when none remains,
    /// changes nothing and returns `false`. Since entering `Waiting` publishes
    /// the full splay, the register reads what remains at every step, and
    /// that never rises nor exceeds the splay.
    pub fn tick(&mut self, register: &mut State) -> (r: bool)
        ensures
            r == (tick_step(old(self).spec_remaining() as nat) is Some),
            r ==> final(self).spec_remaining() == tick_step(old(self).spec_remaining() as nat)->0,
            r ==> final(register).countdown() == final(self).spec_remaining(),
            !r ==> final(self).spec_remaining() == old(self).spec_remaining(),
            !r ==> final(register).countdown() == old(register).countdown(),
            final(self).spec_command() == old(self).spec_command(),
            final(self).spec_log_path() == old(self).spec_log_path(),
            final(self).spec_splay() == old(self).spec_splay(),
            final(register).phase() == old(register).phase(),
            final(self).spec_remaining() <= old(self).spec_remaining(),
            final(self).spec_remaining() <= final(self).spec_splay(),
            old(register).countdown() == old(self).spec_remaining() ==> final(register).countdown()
                == final(self).spec_remaining(),
    {
        proof {
            use_type_invariant(&self.state);
        }
        if self.state.remaining > 0 {
            let left = self.state.remaining - 1;
            self.state.remaining = left;
            register.update_splay_countdown(left);
            true
        } else {
            false
        }
    }

    /// Moves to `Running` once the countdown is over; before that, hands the
    /// waiting phase back unchanged.
    pub fn into_running(self, register: &mut State) -> (r: Result<
        StateMachine<Running>,
        StateMachine<Waiting>,
    >)
        ensures
            r is Ok <==> self.spec_remaining() == 0,
            r matches Ok(run) ==> run.spec_log_path() == self.spec_log_path(),
            r is Ok ==> final(register).phase() == successor(DisplayState::Waiting),
            r matches Err(w) ==> w == self,
            r is Err ==> *final(register) == *old(register),
            final(register).countdown() == old(register).countdown(),
    {
        if self.state.remaining > 0 {
            Err(self)
        } else {
            let _ = register.update_process_state(DisplayState::Running);
            Ok(StateMachine { state: Running { log_path: self.state.log_path } })
        }
    }
}

impl StateMachine<Running> {
    pub closed spec fn spec_log_path(&self) -> Seq<char> {
        self.state.log_path@
    }

    /// The path of the log that the client's output goes to.
    pub fn log_path(&self) -> (r: &String)
        ensures
            r@ == self.spec_log_path(),
    {
        &self.state.log_path
    }

    /// Acts on a poll of the client: once it has exited, publishes
    /// `PostRun` and moves there with its exit status; otherwise hands the
    /// running phase back, to be polled again.
    pub fn poll(self, outcome: PollOutcome, register: &mut State) -> (r: Result<
        StateMachine<PostRun>,
        StateMachine<Running>,
    >)
        ensures
            r is Ok <==> outcome is Exited,
            r matches Ok(done) ==> done.spec_exit_status() == outcome->Exited_0,
            r is Ok ==> final(register).phase() == successor(DisplayState::Running),
            r matches Err(run) ==> run == self,
            r is Err ==> *final(register) == *old(register),
            final(register).countdown() == old(register).countdown(),
    {
        match outcome {
            PollOutcome::Exited(code) => {
                let _ = register.update_process_state(DisplayState::PostRun);
                Ok(StateMachine { state: PostRun { exit_status: code } })
            },
            _ => Err(self),
        }
    }
}

impl StateMachine<PostRun> {
    pub closed spec fn spec_exit_status(&self) -> Option<i32> {
        self.state.exit_status
    }

    /// The client's exit code, or `None` when a signal ended it.
    pub fn exit_status(&self) -> (r: Option<i32>)
        ensures
            r == self.spec_exit_status(),
    {
        self.state.exit_status
    }
}

} // verus!
