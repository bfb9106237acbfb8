//! What is run on a new server over SSH, and what is shown of its output.

use vstd::prelude::*;

use crate::text::contains_text;

verus! {

use crate::text::{occurs, texts};

/// The `ssh` options that keep the host key of a new server out of the way.
pub open spec fn host_key_options() -> Seq<Seq<char>> {
    seq![
        "-o"@,
        "StrictHostKeyChecking=no"@,
        "-o"@,
        "UserKnownHostsFile=/dev/null"@,
        "-o"@,
        "LogLevel=ERROR"@,
    ]
}

fn host_key_args() -> (args: Vec<String>)
    ensures
        texts(args@) == host_key_options(),
{
    let mut args: Vec<String> = Vec::new();
    args.push("-o".to_owned());
    args.push("StrictHostKeyChecking=no".to_owned());
    args.push("-o".to_owned());
    args.push("UserKnownHostsFile=/dev/null".to_owned());
    args.push("-o".to_owned());
    args.push("LogLevel=ERROR".to_owned());
    proof {
        assert(texts(args@) =~= host_key_options());
    }
    args
}

/// The arguments of the `ssh` call that tries whether the server at `ip` answers.
pub open spec fn probe_arguments(ip: Seq<char>) -> Seq<Seq<char>> {
    host_key_options() + seq![
        "-o"@,
        "ConnectTimeout=5"@,
        "-o"@,
        "BatchMode=yes"@,
        "chi@"@ + ip,
        "true"@,
    ]
}

/// The arguments of the `ssh` call that tries whether the server at `ip` answers.
pub fn ssh_probe_args(ip: &str) -> (args: Vec<String>)
    ensures
        texts(args@) == probe_arguments(ip@),
{
    let mut args = host_key_args();
    let ghost options = args@;
    args.push("-o".to_owned());
    args.push("ConnectTimeout=5".to_owned());
    args.push("-o".to_owned());
    args.push("BatchMode=yes".to_owned());
    args.push("chi@".to_owned().concat(ip));
    args.push("true".to_owned());
    proof {
        assert(texts(args@).take(6) =~= texts(options));
        assert(texts(args@) =~= probe_arguments(ip@));
    }
    args
}

/// What follows a try.
#[derive(Clone, Copy, Debug, PartialEq, Eq, Structural)]
pub enum ProbeStep {
    /// The server answers.
    Ready,
    /// Try again after so many seconds.
    RetryAfter(u64),
}

/// What follows a try: `exit` is whether `ssh` ended with success, or `None` if it could not be
/// run. Only success ends the waiting.
pub fn probe_step(exit: Option<bool>) -> (step: ProbeStep)
    ensures
        step == if exit == Some(true) {
            ProbeStep::Ready
        } else {
            ProbeStep::RetryAfter(3)
        },
{
    match exit {
        Some(success) => if success {
            ProbeStep::Ready
        } else {
            ProbeStep::RetryAfter(3)
        },
        None => ProbeStep::RetryAfter(3),
    }
}

/// The remote command that follows the cloud-init log until cloud-init is done.
pub open spec fn follow_log_script() -> Seq<char> {
    "while [ ! -f /var/log/cloud-init-output.log ]; do sleep 1; done; tail -f /var/log/cloud-init-output.log 2>/dev/null & PID=$!; cloud-init status --wait >/dev/null 2>&1; sleep 2; kill $PID 2>/dev/null"@
}

/// The arguments of the `ssh` call that follows the cloud-init log of the server at `ip`.
pub fn ssh_log_args(ip: &str) -> (args: Vec<String>)
    ensures
        texts(args@) == host_key_options() + seq!["chi@"@ + ip@, follow_log_script()],
{
    let mut args = host_key_args();
    let ghost options = args@;
    args.push("chi@".to_owned().concat(ip));
    args.push(
        "while [ ! -f /var/log/cloud-init-output.log ]; do sleep 1; done; tail -f /var/log/cloud-init-output.log 2>/dev/null & PID=$!; cloud-init status --wait >/dev/null 2>&1; sleep 2; kill $PID 2>/dev/null".to_owned(),
    );
    proof {
        assert(texts(options).len() == host_key_options().len());
        assert(texts(args@).take(6) =~= texts(options));
        assert(texts(args@) =~= host_key_options() + seq!["chi@"@ + ip@, follow_log_script()]);
    }
    args
}

/// Whether a line of the log tells of progress.
pub open spec fn tells_progress(line: Seq<char>) -> bool {
    ||| occurs("Setting up"@, line)
    ||| occurs("Unpacking"@, line)
    ||| occurs("Created symlink"@, line)
    ||| occurs("enabled"@, line)
    ||| occurs("Processing"@, line)
    ||| occurs("tengu"@, line)
    ||| occurs("Tengu"@, line)
}

/// Whether a line of the log tells of progress.
pub fn is_progress_line(line: &str) -> (yes: bool)
    ensures
        yes == tells_progress(line@),
{
    contains_text(line, "Setting up") || contains_text(line, "Unpacking") || contains_text(
        line,
        "Created symlink",
    ) || contains_text(line, "enabled") || contains_text(line, "Processing") || contains_text(
        line,
        "tengu",
    ) || contains_text(line, "Tengu")
}

/// What becomes of a line of the log.
#[derive(Debug)]
pub enum LogStep {
    /// Show the line.
    Show(String),
    /// Pass the line over.
    Skip,
    /// Stop reading: the log cannot be read any further.
    Stop,
}

/// What becomes of a line of the log; `None` is one that could not be read.
pub fn log_step(line: Option<String>) -> (step: LogStep)
    ensures
        step == match line {
            Some(text) => if tells_progress(text@) {
                LogStep::Show(text)
            } else {
                LogStep::Skip
            },
            None => LogStep::Stop,
        },
{
    match line {
        Some(text) => if is_progress_line(text.as_str()) {
            LogStep::Show(text)
        } else {
            LogStep::Skip
        },
        None => LogStep::Stop,
    }
}

} // verus!
