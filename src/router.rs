use vstd::prelude::*;

verus! {

/// What one read of a child's output stream gave.
#[derive(Debug)]
pub enum ReadEvent {
    /// A line, or the last partial line before the end of the stream.
    Line(String),
    /// The stream has ended.
    EndOfStream,
    /// The read failed; the stream may still deliver more.
    ReadFailed,
}

/// What the drain of one stream does next.
#[derive(Debug)]
pub enum RouteAction {
    /// Write these bytes, unchanged, to the log file and to the console.
    WriteBoth(String),
    /// Report the failed read and read again.
    Retry,
    /// Stop draining this stream.
    Stop,
}

/// The state of the drain of one stream.
#[derive(Debug, Clone, Copy, PartialEq, Eq, Structural)]
pub enum RouterStatus {
    /// Reading and copying.
    Draining,
    /// The stream ended and everything read was copied.
    Finished,
    /// A write failed; nothing more is copied from this stream.
    Halted,
}

/// The drain of one output stream into the log file and the console. Two
/// routers, one per stream, share nothing.
#[derive(Debug)]
pub struct LogRouter {
    status: RouterStatus,
}

impl LogRouter {
    pub closed spec fn spec_status(&self) -> RouterStatus {
        self.status
    }

    /// A router that has read nothing yet.
    pub fn new() -> (r: LogRouter)
        ensures
            r.spec_status() == RouterStatus::Draining,
    {
        LogRouter { status: RouterStatus::Draining }
    }

    /// The state of the drain.
    pub fn status(&self) -> (r: RouterStatus)
        ensures
            r == self.spec_status(),
    {
        self.status
    }

    /// Acts on one read. While draining: a line is written, unchanged, to
    /// both sinks; the end of the stream finishes the drain; a failed read is
    /// retried. Once the drain has finished or halted, it stays stopped.
    pub fn on_read(&mut self, event: ReadEvent) -> (r: RouteAction)
        ensures
            old(self).spec_status() != RouterStatus::Draining ==> r is Stop && *final(self) == *old(self),
            old(self).spec_status() == RouterStatus::Draining ==> match event {
                ReadEvent::Line(s) => r matches RouteAction::WriteBoth(w) && w@ == s@
                    && final(self).spec_status() == RouterStatus::Draining,
                ReadEvent::EndOfStream => r is Stop && final(self).spec_status()
                    == RouterStatus::Finished,
                ReadEvent::ReadFailed => r is Retry && final(self).spec_status()
                    == RouterStatus::Draining,
            },
    {
        if self.status != RouterStatus::Draining {
            return RouteAction::Stop;
        }
        match event {
            ReadEvent::Line(s) => RouteAction::WriteBoth(s),
            ReadEvent::EndOfStream => {
                self.status = RouterStatus::Finished;
                RouteAction::Stop
            },
            ReadEvent::ReadFailed => RouteAction::Retry,
        }
    }

    /// Acts on the outcome of writing one line to the log file and to the
    /// console: the drain goes on only if both writes succeeded; a failed
    /// write halts it for good.
    pub fn on_written(&mut self, file_ok: bool, console_ok: bool) -> (r: bool)
        ensures
            r == (old(self).spec_status() == RouterStatus::Draining && file_ok && console_ok),
            old(self).spec_status() == RouterStatus::Draining && !(file_ok && console_ok)
                ==> final(self).spec_status() == RouterStatus::Halted,
            old(self).spec_status() != RouterStatus::Draining || (file_ok && console_ok)
                ==> *final(self) == *old(self),
    {
        if self.status != RouterStatus::Draining {
            false
        } else if file_ok && console_ok {
            true
        } else {
            self.status = RouterStatus::Halted;
            false
        }
    }
}

} // verus!
