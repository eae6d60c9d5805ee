//! The decisions of spawning and supervising the DeepSeek Harness runtime
//! process: the command line, what each observation of the starting child
//! leads to, the SIGTERM-then-SIGKILL shutdown, and when the shell follows a
//! runtime that has gone away.

use vstd::prelude::*;

use crate::loopback::{first_loopback_url, scan_loopback_url};
use crate::text::{split_whitespace, whitespace_tokens};
use crate::web_url::WebUrl;

verus! {

/// How long the shell waits for the harness to publish its URL, in seconds.
pub const URL_WAIT_TIMEOUT_SECS: u64 = 60;

/// How long a SIGTERM'd harness may keep draining before SIGKILL, in
/// milliseconds.
pub const SHUTDOWN_GRACE_MILLIS: u64 = 5000;

/// The pause between liveness probes during shutdown, in milliseconds.
pub const SHUTDOWN_PROBE_MILLIS: u64 = 100;

/// The interval of the parent-process poll, in milliseconds.
pub const PARENT_POLL_MILLIS: u64 = 500;

pub open spec fn default_bin() -> Seq<char> {
    seq!['d', 's', 'h']
}

pub open spec fn default_args() -> Seq<char> {
    seq!['w', 'e', 'b']
}

pub open spec fn host_flag() -> Seq<char> {
    seq!['-', '-', 'h', 'o', 's', 't']
}

pub open spec fn loopback_ipv4() -> Seq<char> {
    seq!['1', '2', '7', '.', '0', '.', '0', '.', '1']
}

pub open spec fn port_flag() -> Seq<char> {
    seq!['-', '-', 'p', 'o', 'r', 't']
}

pub open spec fn opt_view(s: Option<String>) -> Option<Seq<char>> {
    match s {
        Some(s) => Some(s@),
        None => None,
    }
}

/// The spawn command: the binary (`dsh` by default), the whitespace-split
/// arguments (`web` by default), `--host 127.0.0.1`, and `--port <port>`
/// when a port is given.
pub open spec fn command_spec(
    bin: Option<Seq<char>>,
    args: Option<Seq<char>>,
    port: Option<Seq<char>>,
) -> Seq<Seq<char>> {
    let bin = match bin {
        Some(b) => b,
        None => default_bin(),
    };
    let args = match args {
        Some(a) => a,
        None => default_args(),
    };
    let tail = match port {
        Some(p) => seq![host_flag(), loopback_ipv4(), port_flag(), p],
        None => seq![host_flag(), loopback_ipv4()],
    };
    seq![bin] + whitespace_tokens(args) + tail
}

fn owned(s: &str) -> (res: String)
    ensures
        res@ == s@,
{
    s.to_owned()
}

/// Builds the harness command from the values of `DSH_BIN`, `DSH_ARGS` and
/// `DSH_PORT` (`None` where a variable is unset).
pub fn harness_command(bin: Option<String>, args: Option<String>, port: Option<String>) -> (res:
    Vec<String>)
    ensures
        res@.map_values(|s: String| s@) == command_spec(
            opt_view(bin),
            opt_view(args),
            opt_view(port),
        ),
{
    let ghost spec = command_spec(opt_view(bin), opt_view(args), opt_view(port));
    proof {
        reveal_strlit("dsh");
        reveal_strlit("web");
        reveal_strlit("--host");
        reveal_strlit("127.0.0.1");
        reveal_strlit("--port");
        assert("dsh"@ =~= default_bin());
        assert("web"@ =~= default_args());
    }
    let bin_text = match bin {
        Some(b) => b,
        None => owned("dsh"),
    };
    let args_text = match args {
        Some(a) => a,
        None => owned("web"),
    };
    assert(bin_text@ == (match opt_view(bin) {
        Some(b) => b,
        None => default_bin(),
    }));
    assert(args_text@ == (match opt_view(args) {
        Some(a) => a,
        None => default_args(),
    }));
    let mut command: Vec<String> = Vec::new();
    command.push(bin_text);
    assert(command@.map_values(|s: String| s@) =~= seq![bin_text@]);
    let mut words = split_whitespace(args_text.as_str());
    let ghost word_views = words@.map_values(|s: String| s@);
    command.append(&mut words);
    assert(command@.map_values(|s: String| s@) =~= seq![bin_text@] + word_views);
    let host = owned("--host");
    let ip = owned("127.0.0.1");
    assert(host@ =~= host_flag());
    assert(ip@ =~= loopback_ipv4());
    command.push(host);
    command.push(ip);
    let ghost base = seq![bin_text@] + word_views;
    assert(command@.map_values(|s: String| s@) =~= base + seq![host_flag(), loopback_ipv4()]);
    if let Some(p) = port {
        let flag = owned("--port");
        assert(flag@ =~= port_flag());
        command.push(flag);
        command.push(p);
        assert(command@.map_values(|s: String| s@) =~= base + seq![
            host_flag(),
            loopback_ipv4(),
            port_flag(),
            p@,
        ]);
    }
    assert(command@.map_values(|s: String| s@) =~= spec);
    command
}

/// The harness is always told to bind `127.0.0.1`, so the URL it publishes
/// is loopback; a given port follows as `--port <port>`.
pub proof fn command_forces_loopback_host(
    bin: Option<Seq<char>>,
    args: Option<Seq<char>>,
    port: Option<Seq<char>>,
)
    ensures
        ({
            let c = command_spec(bin, args, port);
            &&& c.len() >= 3
            &&& c[0] == (match bin {
                Some(b) => b,
                None => default_bin(),
            })
            &&& match port {
                Some(p) => c.len() >= 5 && c[c.len() - 4] == host_flag() && c[c.len() - 3]
                    == loopback_ipv4() && c[c.len() - 2] == port_flag() && c[c.len() - 1] == p,
                None => c[c.len() - 2] == host_flag() && c[c.len() - 1] == loopback_ipv4(),
            }
        }),
{
}

/// The command is the binary (`dsh` when none is given), then exactly the
/// whitespace tokens of the given argument text (of `web` when none is
/// given), then `--host 127.0.0.1`, then `--port <port>` when a port is
/// given; each part depends only on its own input.
pub proof fn command_layout(bin: Option<Seq<char>>, args: Option<Seq<char>>, port: Option<Seq<char>>)
    ensures
        ({
            let c = command_spec(bin, args, port);
            let words = whitespace_tokens(
                match args {
                    Some(a) => a,
                    None => seq!['w', 'e', 'b'],
                },
            );
            let n = words.len() as int;
            &&& c.len() == 1 + n + (if port is Some {
                4int
            } else {
                2int
            })
            &&& c[0] == (match bin {
                Some(b) => b,
                None => seq!['d', 's', 'h'],
            })
            &&& c.subrange(1, 1 + n) == words
            &&& c[1 + n] == seq!['-', '-', 'h', 'o', 's', 't']
            &&& c[2 + n] == seq!['1', '2', '7', '.', '0', '.', '0', '.', '1']
            &&& port matches Some(p) ==> c[3 + n] == seq!['-', '-', 'p', 'o', 'r', 't']
                && c[4 + n] == p
        }),
{
    let c = command_spec(bin, args, port);
    let words = whitespace_tokens(
        match args {
            Some(a) => a,
            None => default_args(),
        },
    );
    assert(c.subrange(1, 1 + words.len() as int) =~= words);
}

/// Which binary runs does not change its arguments: two commands that differ
/// only in the binary agree after it.
pub proof fn binary_does_not_change_arguments(
    bin1: Option<Seq<char>>,
    bin2: Option<Seq<char>>,
    args: Option<Seq<char>>,
    port: Option<Seq<char>>,
)
    ensures
        command_spec(bin1, args, port).drop_first() == command_spec(bin2, args, port).drop_first(),
{
    assert(command_spec(bin1, args, port).drop_first() =~= command_spec(bin2, args, port).drop_first());
}

/// Absent arguments mean the argument text `web`.
pub proof fn absent_arguments_mean_web(bin: Option<Seq<char>>, port: Option<Seq<char>>)
    ensures
        command_spec(bin, None, port) == command_spec(bin, Some(seq!['w', 'e', 'b']), port),
{
}

/// Separates the binary from its arguments; an empty command is refused.
pub fn split_command(command: Vec<String>) -> (res: Result<(String, Vec<String>), String>)
    ensures
        res is Err <==> command@.len() == 0,
        res matches Err(e) ==> e@ == "DSH_BIN is empty"@,
        res matches Ok((bin, rest)) ==> bin == command@[0] && rest@ == command@.drop_first(),
{
    if command.len() == 0 {
        return Err("DSH_BIN is empty".to_owned());
    }
    let mut rest = command;
    let bin = rest.remove(0);
    assert(rest@ =~= command@.drop_first());
    Ok((bin, rest))
}

/// What the shell observes while the harness starts.
#[derive(Debug, Clone, PartialEq, Eq)]
pub enum HarnessEvent {
    /// The child had already exited, with this status.
    Exited(String),
    /// The child printed this line on stdout.
    Line(String),
    /// The wait for the URL ran out.
    TimedOut,
    /// Stdout closed; the child was reaped with this status.
    Disconnected(String),
}

/// What the shell does next.
#[derive(Debug, Clone, PartialEq, Eq)]
pub enum HarnessStep {
    /// Keep reading lines.
    KeepWaiting,
    /// The harness published this loopback URL.
    Published(WebUrl),
    /// Give up with this error.
    Failed(String),
}

pub open spec fn exited_message(status: Seq<char>) -> Seq<char> {
    "harness exited with "@ + status + " before publishing its URL"@
}

pub open spec fn timeout_message() -> Seq<char> {
    "timed out waiting for the harness to publish its URL"@
}

/// Decides the next step of the wait for the harness's URL: a printed line
/// that holds a loopback URL publishes it, other lines keep the wait going,
/// and an exited child or a timeout fails it.
pub fn harness_step(event: HarnessEvent) -> (res: HarnessStep)
    ensures
        match event {
            HarnessEvent::Exited(status) => res matches HarnessStep::Failed(m) && m@
                == exited_message(status@),
            HarnessEvent::Disconnected(status) => res matches HarnessStep::Failed(m) && m@
                == exited_message(status@),
            HarnessEvent::TimedOut => res matches HarnessStep::Failed(m) && m@
                == timeout_message(),
            HarnessEvent::Line(line) => match first_loopback_url(whitespace_tokens(line@)) {
                Some(u) => res matches HarnessStep::Published(url) && url@ == u,
                None => res is KeepWaiting,
            },
        },
{
    match event {
        HarnessEvent::Line(line) => match scan_loopback_url(line.as_str()) {
            Some(url) => HarnessStep::Published(url),
            None => HarnessStep::KeepWaiting,
        },
        HarnessEvent::TimedOut => HarnessStep::Failed(
            "timed out waiting for the harness to publish its URL".to_owned(),
        ),
        HarnessEvent::Exited(status) | HarnessEvent::Disconnected(status) => {
            let mut message = "harness exited with ".to_owned();
            message.append(status.as_str());
            message.append(" before publishing its URL");
            HarnessStep::Failed(message)
        },
    }
}

/// A published URL is one a line of the child's output denotes; every
/// failure names its cause: an exited child's status, or the timeout.
pub proof fn step_outcomes(status: Seq<char>)
    ensures
        exited_message(status) == "harness exited with "@ + status + " before publishing its URL"@,
        timeout_message() == "timed out waiting for the harness to publish its URL"@,
{
}

/// One step of the shutdown after SIGTERM.
#[derive(Debug, Clone, Copy, PartialEq, Eq, Structural)]
pub enum TerminateStep {
    /// The process is gone.
    Done,
    /// The grace window has passed: send SIGKILL and stop.
    ForceKill,
    /// Sleep one probe interval and probe again.
    ProbeAgain,
}

/// Decides the shutdown step from a liveness probe and whether the grace
/// window has passed.
pub fn terminate_step(alive: bool, grace_elapsed: bool) -> (res: TerminateStep)
    ensures
        !alive ==> res == TerminateStep::Done,
        alive && grace_elapsed ==> res == TerminateStep::ForceKill,
        alive && !grace_elapsed ==> res == TerminateStep::ProbeAgain,
{
    if !alive {
        TerminateStep::Done
    } else if grace_elapsed {
        TerminateStep::ForceKill
    } else {
        TerminateStep::ProbeAgain
    }
}

/// An observation of the runtime that launched the shell.
#[derive(Debug, Clone, Copy, PartialEq, Eq, Structural)]
pub enum RuntimeProbe {
    /// A read of stdin returned this many bytes.
    StdinRead(usize),
    /// A read of stdin failed.
    StdinFailed,
    /// The parent process id.
    ParentPid(i32),
}

/// Whether the runtime has gone away: stdin reached end of file or failed
/// (the runtime holds the other end of the pipe), or the shell was
/// reparented to pid 1.
pub fn runtime_exited(probe: RuntimeProbe) -> (res: bool)
    ensures
        res == match probe {
            RuntimeProbe::StdinRead(n) => n == 0,
            RuntimeProbe::StdinFailed => true,
            RuntimeProbe::ParentPid(pid) => pid == 1,
        },
{
    match probe {
        RuntimeProbe::StdinRead(n) => n == 0,
        RuntimeProbe::StdinFailed => true,
        RuntimeProbe::ParentPid(pid) => pid == 1,
    }
}

} // verus!
