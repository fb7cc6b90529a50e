use rawlink::socket::{Socket, SocketError};

#[test]
fn socket_new_accepts_a_descriptor() {
    // The syscall handed out descriptor 3: the handle owns exactly it.
    let s = Socket::new(3, String::new()).expect("a non-negative descriptor yields a handle");
    assert_eq!(s.fd(), 3);
}

#[test]
fn socket_new_accepts_descriptor_zero() {
    let s = Socket::new(0, String::new()).expect("descriptor zero is a valid descriptor");
    assert_eq!(s.fd(), 0);
}

#[test]
fn socket_new_rejects_the_failure_sentinel() {
    // Without adequate privilege the syscall returns -1 and the OS reports
    // why; the failure carries that report.
    let r = Socket::new(-1, "Operation not permitted".to_string());
    match r {
        Err(SocketError::SocketCreationFailed(m)) => {
            assert_eq!(m, "Operation not permitted");
        }
        _ => panic!("expected a socket-creation failure"),
    }
}

#[test]
fn socket_error_message_names_the_stage() {
    let e = SocketError::SocketCreationFailed("Operation not permitted".to_string());
    assert_eq!(
        e.message(),
        "failed to create socket: Operation not permitted"
    );
}
