//! The worker process as the service sees it: how it is started and how it
//! ends.

use crate::models::ident::{id_to_string, uuid_text};
use crate::models::session::Session;
use crate::text::{decimal, push_decimal};
use vstd::prelude::*;
use vstd::string::*;

verus! {

/// The path of the worker's start script: `./<project>/<project>.sh`.
pub open spec fn script_path(project: Seq<char>) -> Seq<char> {
    "./"@ + project + "/"@ + project + ".sh"@
}

/// The arguments with which the worker of a session is started: the start
/// script, the log flag, the port, the session id and the join code.
pub open spec fn worker_args(project: Seq<char>, port: u16, id: u128, code: Seq<char>) -> Seq<
    Seq<char>,
> {
    seq![
        script_path(project),
        "-log"@,
        "-Port="@ + decimal(port as nat),
        "--serverid"@,
        uuid_text(id),
        "--servercode"@,
        code,
    ]
}

/// A command line: the program and its arguments. The worker is started
/// with its input closed, its output discarded and its error stream kept.
#[derive(Debug, PartialEq, Eq)]
pub struct WorkerCommand {
    pub program: String,
    pub args: Vec<String>,
}

impl WorkerCommand {
    /// The arguments as mathematical values.
    pub open spec fn args_text(&self) -> Seq<Seq<char>> {
        self.args@.map_values(|arg: String| arg@)
    }

    /// The command that starts the worker of `session` on `port`.
    pub fn for_session(project_name: &str, session: &Session, port: u16) -> (command: Self)
        ensures
            command.program@ == "bash"@,
            command.args_text() == worker_args(project_name@, port, session.id, session.code@),
    {
        let mut script = String::from_str("./");
        script.append(project_name);
        script.append("/");
        script.append(project_name);
        script.append(".sh");
        let mut port_flag = String::from_str("-Port=");
        push_decimal(&mut port_flag, port as u64);
        let mut args: Vec<String> = Vec::new();
        args.push(script);
        args.push(String::from_str("-log"));
        args.push(port_flag);
        args.push(String::from_str("--serverid"));
        args.push(id_to_string(session.id));
        args.push(String::from_str("--servercode"));
        args.push(session.code.clone());
        let command = WorkerCommand { program: String::from_str("bash"), args };
        assert(command.args_text() =~= worker_args(
            project_name@,
            port,
            session.id,
            session.code@,
        ));
        command
    }
}

/// How a worker ended.
#[derive(Debug)]
pub enum WorkerExit {
    /// It exited with status zero.
    Success,
    /// It exited with another status; `stderr` is what it wrote to its error
    /// stream.
    Failure { status: String, stderr: String },
    /// Waiting for it failed.
    Lost { error: String },
}

impl WorkerExit {
    /// Whether the end of the worker is to be reported as a fault.
    pub fn is_fault(&self) -> (fault: bool)
        ensures
            fault == !(self is Success),
    {
        match self {
            WorkerExit::Success => false,
            _ => true,
        }
    }
}

} // verus!
