//! Link provisioner: decides success or failure of one invocation of the
//! external network-configuration tool that creates the virtual Ethernet pair.

use vstd::prelude::*;

verus! {

/// What came of invoking the external tool once: either it could not be
/// spawned at all, or it ran to completion with an exit status and whatever
/// it wrote to standard error.
pub enum CommandOutcome {
    /// The tool could not be spawned (not found, permission denied, ...).
    SpawnFailed,
    /// The tool ran to completion. `exit_ok` is whether it exited with
    /// status zero; `stderr` is its captured standard-error text.
    Completed { exit_ok: bool, stderr: String },
}

/// Why provisioning the link failed.
#[derive(Debug)]
pub enum SetupError {
    /// The external command failed: it could not be spawned (`msg` is `None`)
    /// or it exited with non-zero status (`msg` carries its diagnostics).
    CommandFailed { cmd: String, msg: Option<String> },
}

impl SetupError {
    /// The single-line diagnostic for this failure: the command name, and
    /// the captured standard-error text when there is any.
    pub fn message(&self) -> (r: String)
        ensures
            self matches SetupError::CommandFailed { cmd, msg: None } ==> r@ == "command '"@
                + cmd@ + "' failed"@,
            self matches SetupError::CommandFailed { cmd, msg: Some(m) } ==> r@ == "command '"@
                + cmd@ + "' failed: "@ + m@,
    {
        match self {
            SetupError::CommandFailed { cmd, msg } => {
                let mut s = String::from_str("command '");
                s.append(cmd.as_str());
                match msg {
                    Option::None => {
                        s.append("' failed");
                    },
                    Option::Some(m) => {
                        s.append("' failed: ");
                        s.append(m.as_str());
                    },
                }
                s
            },
        }
    }
}

/// The result records that the command named `cmd` could not be spawned:
/// the failure carries the command name and no diagnostic text.
pub open spec fn spawn_failure(cmd: Seq<char>, r: Result<(), SetupError>) -> bool {
    &&& r matches Err(SetupError::CommandFailed { cmd: c, msg })
    &&& c@ == cmd
    &&& msg is None
}

/// The result records that the command named `cmd` ran and exited with
/// non-zero status: the failure carries the command name and the text
/// `stderr` that the command wrote to standard error.
pub open spec fn exit_failure(cmd: Seq<char>, stderr: Seq<char>, r: Result<(), SetupError>) -> bool {
    &&& r matches Err(SetupError::CommandFailed { cmd: c, msg })
    &&& c@ == cmd
    &&& msg matches Some(m) && m@ == stderr
}

/// Turn the outcome of running the command named `cmd` into a result:
/// success exactly when the command ran and exited with status zero,
/// otherwise a failure that tells the two failure kinds apart.
pub fn run_command(cmd: &str, outcome: CommandOutcome) -> (r: Result<(), SetupError>)
    ensures
        r is Ok <==> (outcome matches CommandOutcome::Completed { exit_ok: true, .. }),
        outcome is SpawnFailed ==> spawn_failure(cmd@, r),
        outcome matches CommandOutcome::Completed { exit_ok: false, stderr } ==> exit_failure(
            cmd@,
            stderr@,
            r,
        ),
{
    match outcome {
        CommandOutcome::SpawnFailed => Err(
            SetupError::CommandFailed { cmd: String::from_str(cmd), msg: None },
        ),
        CommandOutcome::Completed { exit_ok, stderr } => {
            if exit_ok {
                Ok(())
            } else {
                Err(SetupError::CommandFailed { cmd: String::from_str(cmd), msg: Some(stderr) })
            }
        },
    }
}

/// When the tool cannot be spawned, the failure is of the "could not be
/// spawned" kind and never of the "non-zero exit" kind: the two kinds
/// exclude each other, whatever text a non-zero exit might have carried.
pub proof fn lemma_spawn_failure_is_not_exit_failure(
    cmd: Seq<char>,
    stderr: Seq<char>,
    r: Result<(), SetupError>,
)
    requires
        spawn_failure(cmd, r),
    ensures
        !exit_failure(cmd, stderr, r),
{
}

/// A run that completed with non-zero status keeps its diagnostics: when
/// the tool wrote non-empty standard-error text (as it does when it rejects
/// a duplicate link name), the failure carries that text, hence non-empty
/// diagnostic text.
pub proof fn lemma_exit_failure_keeps_diagnostic(
    cmd: Seq<char>,
    stderr: Seq<char>,
    r: Result<(), SetupError>,
)
    requires
        exit_failure(cmd, stderr, r),
        stderr.len() > 0,
    ensures
        r matches Err(SetupError::CommandFailed { msg: Some(m), .. }) && m@.len() > 0,
{
}

/// The name of the external network-configuration tool.
pub fn veth_command() -> (r: &'static str)
    ensures
        r@ == "ip"@,
{
    "ip"
}

/// The fixed arguments handed to the tool: create a link of type "veth"
/// named "veth0" with peer name "veth0-peer".
pub fn veth_args() -> (r: Vec<&'static str>)
    ensures
        r@.len() == 8,
        r@[0]@ == "link"@,
        r@[1]@ == "add"@,
        r@[2]@ == "veth0"@,
        r@[3]@ == "type"@,
        r@[4]@ == "veth"@,
        r@[5]@ == "peer"@,
        r@[6]@ == "name"@,
        r@[7]@ == "veth0-peer"@,
{
    let mut args: Vec<&'static str> = Vec::new();
    args.push("link");
    args.push("add");
    args.push("veth0");
    args.push("type");
    args.push("veth");
    args.push("peer");
    args.push("name");
    args.push("veth0-peer");
    args
}

/// Decide on the outcome of the one invocation of the external tool that
/// creates the virtual Ethernet pair: success exactly when the tool exited
/// with status zero; a tool that could not be spawned yields a failure
/// naming the tool and carrying no diagnostics; a tool that exited non-zero
/// yields a failure naming the tool and carrying its standard-error text.
pub fn create_veth(outcome: CommandOutcome) -> (r: Result<(), SetupError>)
    ensures
        r is Ok <==> (outcome matches CommandOutcome::Completed { exit_ok: true, .. }),
        outcome is SpawnFailed ==> spawn_failure("ip"@, r),
        outcome matches CommandOutcome::Completed { exit_ok: false, stderr } ==> exit_failure(
            "ip"@,
            stderr@,
            r,
        ),
{
    run_command(veth_command(), outcome)
}

} // verus!
