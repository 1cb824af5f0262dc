use aybara::cstring::{CBytes, NulError};
use aybara::syscalls::{
    cloexec_range, exec_args, c_strings, CloseRangeArgs, FdBound, InvalidInput, ProcessId,
};
use aybara::clone::{clone_outcome, CloneArgs, CloneBuilder, CloneOutcome, Namespace};
use aybara::consts::CLOSE_RANGE_CLOEXEC;

#[test]
fn c_string_keeps_bytes_and_adds_nul() {
    let c = CBytes::new(b"abc").unwrap();
    assert_eq!(c.as_bytes_with_nul(), b"abc\0");
    assert_eq!(c.len(), 3);
    assert!(!c.is_empty());
    assert_eq!(c.into_bytes_with_nul(), b"abc\0".to_vec());
}

#[test]
fn c_string_refuses_first_nul() {
    assert_eq!(CBytes::new(b"ab\0c\0").unwrap_err(), NulError { position: 2 });
    assert_eq!(CBytes::from_str("\0").unwrap_err(), NulError { position: 0 });
}

#[test]
fn c_string_empty_is_one_nul() {
    let e = CBytes::empty();
    assert!(e.is_empty());
    assert_eq!(e.as_bytes_with_nul(), b"\0");
    assert_eq!(CBytes::from_str("").unwrap().as_bytes_with_nul(), b"\0");
}

#[test]
fn c_string_from_utf8_text() {
    let c = CBytes::from_str("dév").unwrap();
    assert_eq!(c.as_bytes_with_nul(), "dév\0".as_bytes());
}

#[test]
fn cloexec_whole_range_skips_standard_streams() {
    assert_eq!(
        cloexec_range(FdBound::Unbounded, FdBound::Unbounded),
        Ok(CloseRangeArgs { first: 3, last: i32::MAX as u32, flags: CLOSE_RANGE_CLOEXEC })
    );
}

#[test]
fn cloexec_range_refuses_standard_streams() {
    assert_eq!(cloexec_range(FdBound::Included(0), FdBound::Unbounded), Err(InvalidInput));
    assert_eq!(cloexec_range(FdBound::Included(2), FdBound::Included(10)), Err(InvalidInput));
    assert_eq!(cloexec_range(FdBound::Excluded(1), FdBound::Included(10)), Err(InvalidInput));
    assert_eq!(cloexec_range(FdBound::Included(-7), FdBound::Included(10)), Err(InvalidInput));
}

#[test]
fn cloexec_range_bounds() {
    assert_eq!(
        cloexec_range(FdBound::Excluded(2), FdBound::Excluded(10)),
        Ok(CloseRangeArgs { first: 3, last: 9, flags: CLOSE_RANGE_CLOEXEC })
    );
    assert_eq!(
        cloexec_range(FdBound::Included(5), FdBound::Included(5)),
        Ok(CloseRangeArgs { first: 5, last: 5, flags: CLOSE_RANGE_CLOEXEC })
    );
}

#[test]
fn cloexec_range_negative_end_wraps_like_c() {
    assert_eq!(
        cloexec_range(FdBound::Included(3), FdBound::Excluded(0)),
        Ok(CloseRangeArgs { first: 3, last: u32::MAX, flags: CLOSE_RANGE_CLOEXEC })
    );
    assert_eq!(
        cloexec_range(FdBound::Included(3), FdBound::Included(i32::MIN)),
        Ok(CloseRangeArgs { first: 3, last: 0x8000_0000, flags: CLOSE_RANGE_CLOEXEC })
    );
}

#[test]
fn exec_args_converts_everything() {
    let a = exec_args("/bin/bash", &["-bash", "-c"], &["USER=root"]).unwrap();
    assert_eq!(a.path.as_bytes_with_nul(), b"/bin/bash\0");
    assert_eq!(a.argv.len(), 2);
    assert_eq!(a.argv[0].as_bytes_with_nul(), b"-bash\0");
    assert_eq!(a.argv[1].as_bytes_with_nul(), b"-c\0");
    assert_eq!(a.envp.len(), 1);
    assert_eq!(a.envp[0].as_bytes_with_nul(), b"USER=root\0");
}

#[test]
fn exec_args_reports_first_bad_string() {
    assert_eq!(exec_args("/bin/b\0sh", &["x\0"], &[]).err(), Some(NulError { position: 6 }));
    assert_eq!(exec_args("/bin/sh", &["ok", "a\0", "\0"], &["\0"]).err(), Some(NulError { position: 1 }));
    assert_eq!(exec_args("/bin/sh", &["ok"], &["A=1", "B\0"]).err(), Some(NulError { position: 1 }));
    assert_eq!(c_strings(&["", "xyz\0"]).err(), Some(NulError { position: 3 }));
}

#[test]
fn clone_builder_starts_zeroed() {
    let a = CloneBuilder::new().args();
    assert_eq!(a, CloneArgs {
        flags: 0, pidfd: 0, child_tid: 0, parent_tid: 0, exit_signal: 0, stack: 0,
        stack_size: 0, tls: 0, set_tid: 0, set_tid_size: 0, cgroup: 0,
    });
}

#[test]
fn clone_builder_for_root_container() {
    let a = CloneBuilder::new()
        .generate_signal()
        .new_user_namespace()
        .new_pid_namespace()
        .new_mount_namespace()
        .new_cgroup_namespace()
        .new_uts_namespace()
        .new_time_namespace()
        .new_net_namespace()
        .args();
    assert_eq!(a.exit_signal, 17);
    assert_eq!(a.flags, 0x7602_0080);
    assert_eq!(a.stack, 0);
}

#[test]
fn clone_namespace_requests_commute_and_repeat() {
    let a = CloneBuilder::new().new_pid_namespace().new_user_namespace().args();
    let b = CloneBuilder::new().new_user_namespace().new_pid_namespace().new_pid_namespace().args();
    assert_eq!(a, b);
    assert_eq!(a.flags, 0x3000_0000);
    assert_eq!(CloneBuilder::new().new_namespace(Namespace::Net).args().flags, 0x4000_0000);
    assert_eq!(Namespace::Time.flag(), 0x80);
}

#[test]
fn clone_outcome_reads_result() {
    assert_eq!(clone_outcome(-1), CloneOutcome::Failed);
    assert_eq!(clone_outcome(0), CloneOutcome::Child);
    assert_eq!(clone_outcome(4321), CloneOutcome::Parent(ProcessId(4321)));
}
