use process_probe::handle::{
    get_process_handler, get_process_handler_next, Access, HandleWrapper, OpenStep,
};
use process_probe::types::Pid;

/// Opens a process against a simulated host and lists the rights asked for.
fn open(pid: Pid, host: &dyn Fn(Access) -> isize) -> (Option<HandleWrapper>, Vec<Access>) {
    let mut tried = Vec::new();
    let mut step = get_process_handler(pid);
    loop {
        match step {
            OpenStep::Try(access) => {
                tried.push(access);
                assert!(tried.len() <= 10, "opening does not end");
                step = get_process_handler_next(access, host(access));
            }
            OpenStep::Opened(handle) => return (Some(handle), tried),
            OpenStep::Unreachable => return (None, tried),
        }
    }
}

#[test]
fn invalid_values_are_no_handle() {
    assert!(HandleWrapper::new(0, Access::Full).is_none());
    assert!(HandleWrapper::new(-1, Access::Full).is_none());
    assert!(HandleWrapper::new(0, Access::Limited).is_none());
    assert!(HandleWrapper::new(-1, Access::Limited).is_none());
}

#[test]
fn valid_values_are_wrapped_with_their_rights() {
    let handle = HandleWrapper::new(0x1f4, Access::Full).unwrap();
    assert_eq!(handle.raw(), 0x1f4);
    assert_eq!(handle.access(), Access::Full);
    assert!(!handle.is_degraded());
    let handle = HandleWrapper::new(-2, Access::Limited).unwrap();
    assert_eq!(handle.raw(), -2);
    assert_eq!(handle.access(), Access::Limited);
    assert!(handle.is_degraded());
    assert!(HandleWrapper::new(1, Access::Full).is_some());
    assert!(HandleWrapper::new(isize::MAX, Access::Full).is_some());
    assert!(HandleWrapper::new(isize::MIN, Access::Full).is_some());
}

#[test]
fn identifier_zero_is_never_opened() {
    let (handle, tried) = open(Pid(0), &|_| 0x44);
    assert!(handle.is_none());
    assert!(tried.is_empty());
}

#[test]
fn full_rights_are_tried_first_and_kept() {
    let (handle, tried) = open(Pid(4242), &|_| 0x44);
    let handle = handle.unwrap();
    assert_eq!(handle.raw(), 0x44);
    assert_eq!(handle.access(), Access::Full);
    assert_eq!(tried, vec![Access::Full]);
}

#[test]
fn refused_full_rights_fall_back_to_limited_ones() {
    let host = |access: Access| match access {
        Access::Full => 0,
        Access::Limited => 0x48,
    };
    let (handle, tried) = open(Pid(4242), &host);
    let handle = handle.unwrap();
    assert_eq!(handle.raw(), 0x48);
    assert!(handle.is_degraded());
    assert_eq!(tried, vec![Access::Full, Access::Limited]);
}

#[test]
fn process_that_grants_nothing_is_unreachable() {
    let (handle, tried) = open(Pid(4242), &|_| 0);
    assert!(handle.is_none());
    assert_eq!(tried, vec![Access::Full, Access::Limited]);
    let (handle, tried) = open(Pid(4242), &|_| -1);
    assert!(handle.is_none());
    assert_eq!(tried, vec![Access::Full, Access::Limited]);
}
