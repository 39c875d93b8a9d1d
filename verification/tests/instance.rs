use std::collections::hash_map::DefaultHasher;
use std::hash::{Hash, Hasher};
use std::path::Path;

use dontspeak_voice::instance::{
    acquire_bridge_lock_with_retry, entrypoint, lock_file_name, log_is_full, BinaryStamp,
    Entrypoint, FileTime, LockStep, BRIDGE_LOG_MAX_BYTES, LOCK_RETRY_COUNT, LOCK_RETRY_INTERVAL_MS,
};

fn socket_hash(socket: &str) -> u64 {
    let mut hasher = DefaultHasher::new();
    socket.hash(&mut hasher);
    hasher.finish()
}

#[test]
fn lock_filename_does_not_contain_socket_path() {
    for socket in ["default", "/run/user/1000/herdr.sock", ""] {
        let name = lock_file_name(socket_hash(socket));
        assert!(name.bytes().all(|byte| byte.is_ascii_hexdigit()
            || matches!(
                byte,
                b'b' | b'r' | b'i' | b'd' | b'g' | b'e' | b'-' | b'.' | b'l' | b'o' | b'c' | b'k'
            )));
    }
}

#[test]
fn bridge_log_is_inside_state_directory() {
    let path = Path::new("state").join("bridge.log");
    assert_eq!(path.file_name().and_then(|name| name.to_str()), Some("bridge.log"));
}

#[test]
fn lock_names_are_padded_and_distinct() {
    assert_eq!(lock_file_name(0), "bridge-0000000000000000.lock");
    assert_eq!(lock_file_name(0xab), "bridge-00000000000000ab.lock");
    assert_eq!(lock_file_name(u64::MAX), "bridge-ffffffffffffffff.lock");
    assert_ne!(lock_file_name(1), lock_file_name(16));
}

#[test]
fn a_held_lock_is_tried_forty_times() {
    let mut attempt: usize = 0;
    let mut tries = 0;
    loop {
        tries += 1;
        match acquire_bridge_lock_with_retry::<(), ()>(attempt, Ok(None)) {
            LockStep::Retry { attempt: next } => attempt = next,
            LockStep::GiveUp => break,
            other => panic!("{other:?}"),
        }
    }
    assert_eq!(tries, 40);
    assert_eq!(LOCK_RETRY_COUNT, 40);
    assert_eq!(LOCK_RETRY_INTERVAL_MS, 500);
    assert_eq!(
        acquire_bridge_lock_with_retry::<(), ()>(usize::MAX, Ok(None)),
        LockStep::GiveUp
    );
}

#[test]
fn a_free_lock_is_held_and_an_error_ends_the_tries() {
    assert_eq!(
        acquire_bridge_lock_with_retry::<&str, ()>(39, Ok(Some("file"))),
        LockStep::Hold("file")
    );
    assert_eq!(
        acquire_bridge_lock_with_retry::<(), &str>(0, Err("cannot lock bridge")),
        LockStep::Fail("cannot lock bridge")
    );
}

#[test]
fn a_replaced_program_is_noticed() {
    let written = FileTime { before_epoch: false, secs: 10, nanos: 5 };
    let stamp = BinaryStamp { len: 7, modified: Some(written) };
    assert!(stamp.is_current(Some(stamp)));
    assert!(!stamp.is_current(None));
    assert!(!stamp.is_current(Some(BinaryStamp { len: 8, ..stamp })));
    assert!(!stamp.is_current(Some(BinaryStamp { modified: None, ..stamp })));
    let later = FileTime { nanos: 6, ..written };
    assert!(!stamp.is_current(Some(BinaryStamp { modified: Some(later), ..stamp })));
    let undated = BinaryStamp { len: 7, modified: None };
    assert!(undated.is_current(Some(undated)));
}

#[test]
fn a_log_is_full_past_its_limit() {
    assert_eq!(BRIDGE_LOG_MAX_BYTES, 262_144);
    assert!(!log_is_full(None));
    assert!(!log_is_full(Some(0)));
    assert!(!log_is_full(Some(262_144)));
    assert!(log_is_full(Some(262_145)));
}

#[test]
fn entrypoints_are_named_by_one_argument() {
    assert_eq!(entrypoint(Some("startup"), None), Some(Entrypoint::Startup));
    assert_eq!(entrypoint(Some("bridge"), None), Some(Entrypoint::Bridge));
    assert_eq!(entrypoint(Some("open"), None), Some(Entrypoint::Open));
    assert_eq!(entrypoint(Some("dictation"), None), Some(Entrypoint::Dictation));
    assert_eq!(entrypoint(Some("other"), None), None);
    assert_eq!(entrypoint(Some("open"), Some("open")), None);
    assert_eq!(entrypoint(None, None), None);
}
