use crate::text::{digits, push_digits};
use vstd::prelude::*;

verus! {

/// A failure to update the status register.
pub enum Error {
    CannotUpdateProcess,
}

/// The phase of the supervised run, as the status register reports it.
#[derive(Debug, Clone, Copy, PartialEq, Eq, Structural)]
pub enum DisplayState {
    PreRun,
    Waiting,
    Running,
    PostRun,
}

/// The name of a phase.
pub open spec fn phase_name(p: DisplayState) -> Seq<char> {
    match p {
        DisplayState::PreRun => "PreRun"@,
        DisplayState::Waiting => "Waiting"@,
        DisplayState::Running => "Running"@,
        DisplayState::PostRun => "PostRun"@,
    }
}

/// The label that the status register publishes for a phase.
pub open spec fn phase_label(p: Option<DisplayState>) -> Seq<char> {
    match p {
        None => "init"@,
        Some(DisplayState::PreRun) => "pre-run"@,
        Some(DisplayState::Waiting) => "waiting"@,
        Some(DisplayState::Running) => "running"@,
        Some(DisplayState::PostRun) => "post-run"@,
    }
}

impl DisplayState {
    /// The phase rendered as `DisplayState(<name>)`.
    pub fn to_display_string(&self) -> (r: String)
        ensures
            r@ == "DisplayState("@ + phase_name(*self) + ")"@,
    {
        let mut out = String::from_str("DisplayState(");
        let name = match self {
            DisplayState::PreRun => "PreRun",
            DisplayState::Waiting => "Waiting",
            DisplayState::Running => "Running",
            DisplayState::PostRun => "PostRun",
        };
        out.append(name);
        out.append(")");
        out
    }
}

/// The status register: the phase of the run and the seconds of splay left.
/// Before any phase is published the phase is absent, which reads as `init`.
pub struct State {
    process: Option<DisplayState>,
    splay_countdown: u64,
}

impl State {
    /// The phase last published, if any.
    pub closed spec fn phase(&self) -> Option<DisplayState> {
        self.process
    }

    /// The splay countdown last published.
    pub closed spec fn countdown(&self) -> u64 {
        self.splay_countdown
    }

    /// A register as it stands before any phase transition: `init`, zero.
    pub fn new() -> (r: State)
        ensures
            r.phase() is None,
            r.countdown() == 0,
    {
        State { process: None, splay_countdown: 0 }
    }

    /// Publishes a new phase; the countdown is left as it is.
    pub fn update_process_state(&mut self, ps: DisplayState) -> (r: Result<(), Error>)
        ensures
            r is Ok,
            final(self).phase() == Some(ps),
            final(self).countdown() == old(self).countdown(),
    {
        self.process = Some(ps);
        Ok(())
    }

    /// Publishes the seconds of splay left; the phase is left as it is.
    pub fn update_splay_countdown(&mut self, v: u64)
        ensures
            final(self).phase() == old(self).phase(),
            final(self).countdown() == v,
    {
        self.splay_countdown = v;
    }

    /// The phase last published, or `None` before the first.
    pub fn peek(&self) -> (r: Option<DisplayState>)
        ensures
            r == self.phase(),
    {
        self.process
    }

    /// The seconds of splay left, as last published.
    pub fn splay_remaining(&self) -> (r: u64)
        ensures
            r == self.countdown(),
    {
        self.splay_countdown
    }

    /// The label of the phase last published.
    pub fn phase_label(&self) -> (r: String)
        ensures
            r@ == phase_label(self.phase()),
    {
        let label = match self.process {
            None => "init",
            Some(DisplayState::PreRun) => "pre-run",
            Some(DisplayState::Waiting) => "waiting",
            Some(DisplayState::Running) => "running",
            Some(DisplayState::PostRun) => "post-run",
        };
        label.to_owned()
    }

    /// The register rendered as
    /// `Chef Process State: <phase label>, Splay Countdown: <seconds>`.
    pub fn describe(&self) -> (r: String)
        ensures
            r@ == "Chef Process State: "@ + phase_label(self.phase()) + ", Splay Countdown: "@
                + digits(self.countdown() as nat),
    {
        let mut out = String::from_str("Chef Process State: ");
        let label = self.phase_label();
        out.append(label.as_str());
        out.append(", Splay Countdown: ");
        push_digits(&mut out, self.splay_countdown);
        out
    }
}

} // verus!
