//! Raw socket handle: owns the non-negative descriptor that a successful
//! link-layer socket syscall returned.

use vstd::prelude::*;

verus! {

/// Why the raw socket could not be created: the operating system rejected
/// the request, and the variant carries the OS error rendered as text.
#[derive(Debug)]
pub enum SocketError {
    SocketCreationFailed(String),
}

impl SocketError {
    /// The single-line diagnostic for this failure: the OS error text.
    pub fn message(&self) -> (r: String)
        ensures
            self matches SocketError::SocketCreationFailed(m) ==> r@ == "failed to create socket: "@
                + m@,
    {
        match self {
            SocketError::SocketCreationFailed(m) => {
                let mut s = String::from_str("failed to create socket: ");
                s.append(m.as_str());
                s
            },
        }
    }
}

/// Exclusive owner of one socket descriptor. A handle exists only for a
/// descriptor the OS actually handed out, so the descriptor is always
/// non-negative. The handle is neither `Clone` nor `Copy`: no second owner
/// can ever close the same descriptor.
pub struct Socket {
    fd: i32,
}

impl Socket {
    /// The descriptor this handle owns.
    pub closed spec fn fd_spec(&self) -> int {
        self.fd as int
    }

    #[verifier::type_invariant]
    spec fn wf(self) -> bool {
        self.fd >= 0
    }

    /// Decide on the result of the link-layer socket syscall: a non-negative
    /// `raw` is a descriptor and yields a handle owning exactly it; a
    /// negative `raw` is the failure sentinel and yields the OS error text.
    pub fn new(raw: i32, os_error: String) -> (r: Result<Socket, SocketError>)
        ensures
            r is Ok <==> raw >= 0,
            (r matches Ok(s) ==> s.fd_spec() == raw as int),
            raw < 0 ==> (r matches Err(SocketError::SocketCreationFailed(m)) && m@ == os_error@),
    {
        if raw < 0 {
            Err(SocketError::SocketCreationFailed(os_error))
        } else {
            Ok(Socket { fd: raw })
        }
    }

    /// The owned descriptor, without transferring ownership: callers must
    /// not close it.
    pub fn fd(&self) -> (r: i32)
        ensures
            r as int == self.fd_spec(),
            r >= 0,
    {
        proof {
            use_type_invariant(self);
        }
        self.fd
    }
}

} // verus!
