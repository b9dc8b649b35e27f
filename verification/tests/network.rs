use std::io;

use necron_prism::config::canonicalize::TargetPlatform;
use necron_prism::proxy::app::executor::{default_worker_count, worker_stack_size};
use necron_prism::proxy::network::socket::{is_connect_in_progress, ConnectError, EINPROGRESS};

fn connect_error(error: &io::Error) -> ConnectError {
    ConnectError {
        would_block: error.kind() == io::ErrorKind::WouldBlock,
        raw_os_error: error.raw_os_error(),
    }
}

#[test]
fn connect_in_progress_accepts_would_block() {
    let error = io::Error::from(io::ErrorKind::WouldBlock);
    assert!(is_connect_in_progress(&connect_error(&error), TargetPlatform::Linux { accelerated: true }));
    assert!(is_connect_in_progress(&connect_error(&error), TargetPlatform::Other));
}

#[test]
fn connect_in_progress_on_linux_accepts_einprogress_only() {
    let in_progress = ConnectError { would_block: false, raw_os_error: Some(EINPROGRESS) };
    assert!(is_connect_in_progress(&in_progress, TargetPlatform::Linux { accelerated: false }));
    assert!(!is_connect_in_progress(&in_progress, TargetPlatform::Other));
    let refused = ConnectError { would_block: false, raw_os_error: Some(111) };
    assert!(!is_connect_in_progress(&refused, TargetPlatform::Linux { accelerated: true }));
}

#[test]
fn worker_sizes() {
    assert_eq!(worker_stack_size(), 131072);
    assert_eq!(default_worker_count(Some(1)), 2);
    assert_eq!(default_worker_count(Some(2)), 2);
    assert_eq!(default_worker_count(Some(16)), 3);
    assert_eq!(default_worker_count(None), 2);
}
