//! The unified failure taxonomy that the entry routine reports: the external
//! command failed, or the operating system refused the raw socket.

use crate::setup::SetupError;
use crate::socket::SocketError;
use vstd::prelude::*;

verus! {

/// Why setup as a whole failed: the external command failed (carrying the
/// command name and optional captured diagnostics), or the socket could not
/// be created (carrying the OS error rendered as text).
#[derive(Debug)]
pub enum NetworkError {
    CommandFailed { cmd: String, msg: Option<String> },
    SocketCreationFailed(String),
}

impl NetworkError {
    /// Carry a link-provisioning failure up to the entry routine unchanged:
    /// the command name and the optional diagnostic text are kept.
    pub fn from_setup(e: SetupError) -> (r: NetworkError)
        ensures
            e matches SetupError::CommandFailed { cmd, msg } ==> r matches
                NetworkError::CommandFailed { cmd: c, msg: m } && c == cmd && m == msg,
    {
        match e {
            SetupError::CommandFailed { cmd, msg } => NetworkError::CommandFailed { cmd, msg },
        }
    }

    /// Carry a socket-creation failure up to the entry routine unchanged:
    /// the OS error text is kept.
    pub fn from_socket(e: SocketError) -> (r: NetworkError)
        ensures
            e matches SocketError::SocketCreationFailed(m) ==> r matches
                NetworkError::SocketCreationFailed(n) && n == m,
    {
        match e {
            SocketError::SocketCreationFailed(m) => NetworkError::SocketCreationFailed(m),
        }
    }

    /// The single-line diagnostic for this failure, identifying which stage
    /// failed and why.
    pub fn message(&self) -> (r: String)
        ensures
            self matches NetworkError::CommandFailed { cmd, msg: None } ==> r@ == "command '"@
                + cmd@ + "' failed"@,
            self matches NetworkError::CommandFailed { cmd, msg: Some(m) } ==> r@ == "command '"@
                + cmd@ + "' failed: "@ + m@,
            self matches NetworkError::SocketCreationFailed(m) ==> r@
                == "failed to create socket: "@ + m@,
    {
        match self {
            NetworkError::CommandFailed { cmd, msg } => {
                let mut s = String::from_str("command '");
                s.append(cmd.as_str());
                match msg {
                    Option::None => {
                        s.append("' failed");
                    },
                    Option::Some(m) => {
                        s.append("' failed: ");
                        s.append(m.as_str());
                    },
                }
                s
            },
            NetworkError::SocketCreationFailed(m) => {
                let mut s = String::from_str("failed to create socket: ");
                s.append(m.as_str());
                s
            },
        }
    }
}

} // verus!
