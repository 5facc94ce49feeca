//! The remote calls that each tool issues, and what it prints for their results.
//!
//! A `Session` decides; the caller performs. It asks the session which call
//! is pending, issues that call against the node, and hands the outcome back
//! with `record`, until nothing is pending. Every outcome ends up as a printed
//! line: a failed call is reported and ends the session.
use crate::text::{
    banner, banner_text, error_line, error_line_text, paused_line, paused_line_text,
    value_line, value_line_text, version_line, version_line_text,
};
use vstd::prelude::*;

verus! {

/// The tools, each with its fixed sequence of calls.
#[derive(Debug, Clone, Copy, PartialEq, Eq, Structural)]
pub enum Script {
    /// Reads a byte from the target through the proxy.
    ProxyCall,
    /// Reads the target's version.
    GetTargetVersion,
    /// Pauses the target, then reads back whether it is paused.
    PauseTarget,
    /// Unpauses the target, then reads back whether it is paused.
    UnpauseTarget,
}

/// A method of the proxy, called with the target contract attached.
#[derive(Debug, Clone, Copy, PartialEq, Eq, Structural)]
pub enum Call {
    GetU8,
    GetVersion,
    Pause,
    Unpause,
    IsPaused,
}

/// The outcome of a call.
#[derive(Debug)]
pub enum Reply {
    /// The call failed; the error's message.
    Failed(String),
    /// A call that returns nothing succeeded.
    Done,
    /// A byte was returned.
    Byte(u8),
    /// A version number was returned.
    Version(u64),
    /// A flag was returned.
    Flag(bool),
}

/// The title shown in a tool's heading.
pub open spec fn title(script: Script) -> Seq<char> {
    match script {
        Script::ProxyCall => "Calling Proxy Contract"@,
        Script::GetTargetVersion => "Getting target version"@,
        Script::PauseTarget => "Pausing target"@,
        Script::UnpauseTarget => "Unpausing target"@,
    }
}

/// The calls a tool issues when every one of them succeeds, in order.
pub open spec fn plan(script: Script) -> Seq<Call> {
    match script {
        Script::ProxyCall => seq![Call::GetU8],
        Script::GetTargetVersion => seq![Call::GetVersion],
        Script::PauseTarget => seq![Call::Pause, Call::IsPaused],
        Script::UnpauseTarget => seq![Call::Unpause, Call::IsPaused],
    }
}

/// The reply has the shape that the call returns.
pub open spec fn fits(call: Call, reply: Reply) -> bool {
    match reply {
        Reply::Failed(_) => true,
        Reply::Done => call == Call::Pause || call == Call::Unpause,
        Reply::Byte(_) => call == Call::GetU8,
        Reply::Version(_) => call == Call::GetVersion,
        Reply::Flag(_) => call == Call::IsPaused,
    }
}

/// What a session has done so far.
pub struct Transcript {
    pub script: Script,
    /// The calls issued, the last one pending unless the session is finished.
    pub calls: Seq<Call>,
    /// The lines printed.
    pub lines: Seq<Seq<char>>,
    pub finished: bool,
}

/// A session that has issued its first call and printed its heading.
pub open spec fn started(script: Script) -> Transcript {
    Transcript {
        script,
        calls: seq![plan(script)[0]],
        lines: seq![banner(title(script))],
        finished: false,
    }
}

/// The session after the pending call came back with `reply`: a failure is
/// printed and ends it; a successful write issues the confirming read; any
/// returned value is printed and ends it.
pub open spec fn advanced(t: Transcript, reply: Reply) -> Transcript {
    match reply {
        Reply::Failed(message) => Transcript {
            lines: t.lines.push(error_line(message@)),
            finished: true,
            ..t
        },
        Reply::Done => Transcript { calls: t.calls.push(Call::IsPaused), ..t },
        Reply::Byte(b) => Transcript { lines: t.lines.push(value_line(b)), finished: true, ..t },
        Reply::Version(v) => Transcript {
            lines: t.lines.push(version_line(v)),
            finished: true,
            ..t
        },
        Reply::Flag(p) => Transcript { lines: t.lines.push(paused_line(p)), finished: true, ..t },
    }
}

/// A reachable transcript: the calls issued are a nonempty prefix of the plan,
/// the heading is the first line, and exactly one more line follows once the
/// session is finished.
pub open spec fn transcript_wf(t: Transcript) -> bool {
    &&& 1 <= t.calls.len() <= plan(t.script).len()
    &&& t.calls == plan(t.script).subrange(0, t.calls.len() as int)
    &&& t.lines.len() == if t.finished { 2int } else { 1int }
    &&& t.lines[0] == banner(title(t.script))
}

/// Whatever the pending call returns, a reachable session stays reachable: a
/// tool never issues a call outside its plan, so it makes one call, or two
/// for pausing and unpausing, and prints one line after its heading.
pub proof fn advance_preserves_wf(t: Transcript, reply: Reply)
    requires
        transcript_wf(t),
        !t.finished,
        fits(t.calls.last(), reply),
    ensures
        transcript_wf(advanced(t, reply)),
{
    let u = advanced(t, reply);
    assert(u.calls =~= plan(u.script).subrange(0, u.calls.len() as int));
}

/// When the pausing or unpausing write fails, the confirming read is never
/// issued: the session ends with the write as its only call and the error as
/// its only line after the heading.
pub proof fn failed_write_skips_confirmation(script: Script, message: String)
    requires
        script == Script::PauseTarget || script == Script::UnpauseTarget,
    ensures
        ({
            let t = advanced(started(script), Reply::Failed(message));
            &&& t.finished
            &&& t.calls == seq![plan(script)[0]]
            &&& !t.calls.contains(Call::IsPaused)
            &&& t.lines == seq![banner(title(script)), error_line(message@)]
        }),
{
    let t = advanced(started(script), Reply::Failed(message));
    assert(t.calls[0] != Call::IsPaused);
    assert(t.lines =~= seq![banner(title(script)), error_line(message@)]);
}

/// When the write succeeds and the read returns `paused`, the session has made
/// both calls of its plan and prints the state it read.
pub proof fn confirmed_write_reports_state(script: Script, paused: bool)
    requires
        script == Script::PauseTarget || script == Script::UnpauseTarget,
    ensures
        ({
            let t = advanced(advanced(started(script), Reply::Done), Reply::Flag(paused));
            &&& t.finished
            &&& t.calls == plan(script)
            &&& t.lines == seq![banner(title(script)), paused_line(paused)]
        }),
{
    let t = advanced(advanced(started(script), Reply::Done), Reply::Flag(paused));
    assert(t.calls =~= plan(script));
    assert(t.lines =~= seq![banner(title(script)), paused_line(paused)]);
}

/// The state of one run of a tool.
pub struct Session {
    script: Script,
    calls: Vec<Call>,
    lines: Vec<String>,
    finished: bool,
}

impl View for Session {
    type V = Transcript;

    closed spec fn view(&self) -> Transcript {
        Transcript {
            script: self.script,
            calls: self.calls@,
            lines: self.lines@.map_values(|s: String| s@),
            finished: self.finished,
        }
    }
}

/// The title of a tool's heading.
fn title_str(script: Script) -> (r: &'static str)
    ensures
        r@ == title(script),
{
    match script {
        Script::ProxyCall => "Calling Proxy Contract",
        Script::GetTargetVersion => "Getting target version",
        Script::PauseTarget => "Pausing target",
        Script::UnpauseTarget => "Unpausing target",
    }
}

/// The first call of a tool.
fn first_call(script: Script) -> (r: Call)
    ensures
        r == plan(script)[0],
{
    match script {
        Script::ProxyCall => Call::GetU8,
        Script::GetTargetVersion => Call::GetVersion,
        Script::PauseTarget => Call::Pause,
        Script::UnpauseTarget => Call::Unpause,
    }
}

impl Session {
    pub open spec fn wf(&self) -> bool {
        transcript_wf(self@)
    }

    /// Begins a run of `script`: prints the heading and issues the first call.
    pub fn start(script: Script) -> (s: Session)
        ensures
            s@ == started(script),
            s.wf(),
    {
        let mut calls: Vec<Call> = Vec::new();
        calls.push(first_call(script));
        let mut lines: Vec<String> = Vec::new();
        lines.push(banner_text(title_str(script)));
        let s = Session { script, calls, lines, finished: false };
        assert(s@.lines =~= started(script).lines);
        assert(s@.calls =~= started(script).calls);
        assert(s@.calls =~= plan(script).subrange(0, 1));
        s
    }

    /// The tool being run.
    pub fn script(&self) -> (r: Script)
        ensures
            r == self@.script,
    {
        self.script
    }

    /// The call awaiting its outcome, if the session is not finished.
    pub fn pending(&self) -> (r: Option<Call>)
        requires
            self.wf(),
        ensures
            r == (if self@.finished {
                None
            } else {
                Some(self@.calls.last())
            }),
    {
        if self.finished {
            None
        } else {
            Some(self.calls[self.calls.len() - 1])
        }
    }

    /// Whether `record` takes `reply` now: the session is not finished and the
    /// reply has the shape of the pending call's result.
    pub fn accepts(&self, reply: &Reply) -> (r: bool)
        requires
            self.wf(),
        ensures
            r == (!self@.finished && fits(self@.calls.last(), *reply)),
    {
        if self.finished {
            return false;
        }
        let call = self.calls[self.calls.len() - 1];
        match reply {
            Reply::Failed(_) => true,
            Reply::Done => call == Call::Pause || call == Call::Unpause,
            Reply::Byte(_) => call == Call::GetU8,
            Reply::Version(_) => call == Call::GetVersion,
            Reply::Flag(_) => call == Call::IsPaused,
        }
    }

    /// Takes the outcome of the pending call.
    pub fn record(&mut self, reply: Reply)
        requires
            old(self).wf(),
            !old(self)@.finished,
            fits(old(self)@.calls.last(), reply),
        ensures
            final(self).wf(),
            final(self)@ == advanced(old(self)@, reply),
    {
        let ghost before = self@;
        match reply {
            Reply::Failed(message) => {
                self.lines.push(error_line_text(message.as_str()));
                self.finished = true;
            },
            Reply::Done => {
                self.calls.push(Call::IsPaused);
            },
            Reply::Byte(b) => {
                self.lines.push(value_line_text(b));
                self.finished = true;
            },
            Reply::Version(v) => {
                self.lines.push(version_line_text(v));
                self.finished = true;
            },
            Reply::Flag(p) => {
                self.lines.push(paused_line_text(p));
                self.finished = true;
            },
        }
        assert(self@.lines =~= advanced(before, reply).lines);
        assert(self@.calls =~= advanced(before, reply).calls);
        assert(self@.calls =~= plan(self@.script).subrange(0, self@.calls.len() as int));
    }

    /// The lines printed so far, the heading first.
    pub fn lines(&self) -> (r: &Vec<String>)
        ensures
            r@.map_values(|s: String| s@) == self@.lines,
    {
        &self.lines
    }

    /// Whether the session has nothing more to call.
    pub fn is_finished(&self) -> (r: bool)
        ensures
            r == self@.finished,
    {
        self.finished
    }
}

} // verus!
