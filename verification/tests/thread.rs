use jvmti::error::NativeError;
use jvmti::native::{JavaThread, NativeThreadInfo};
use jvmti::thread::{Thread, ThreadId};
use jvmti::util::{decode_name, text_of};

fn info(name: Option<&[u8]>, priority: i32, is_daemon: u8) -> NativeThreadInfo {
    NativeThreadInfo { name: name.map(|bytes| bytes.to_vec()), priority, is_daemon }
}

#[test]
fn record_becomes_a_thread() {
    let handle = JavaThread { address: 0x7f00_1000 };
    let thread = Thread::from_native(&handle, &info(Some(b"main"), 5, 0));
    assert_eq!(
        thread,
        Thread {
            id: ThreadId { native_id: handle },
            name: "main".to_string(),
            priority: 5,
            is_daemon: false,
        }
    );
}

#[test]
fn name_ends_at_the_terminator() {
    let handle = JavaThread { address: 1 };
    let thread = Thread::from_native(&handle, &info(Some(b"main\0"), 5, 0));
    assert_eq!(thread.name, "main");
    let thread = Thread::from_native(&handle, &info(Some(b"worker-1\0left over\0"), 5, 0));
    assert_eq!(thread.name, "worker-1");
}

#[test]
fn missing_name_is_the_empty_string() {
    let handle = JavaThread { address: 1 };
    assert_eq!(Thread::from_native(&handle, &info(None, 1, 0)).name, "");
    assert_eq!(Thread::from_native(&handle, &info(Some(b""), 1, 0)).name, "");
    assert_eq!(Thread::from_native(&handle, &info(Some(b"\0"), 1, 0)).name, "");
    assert_eq!(Thread::from_native(&handle, &info(Some(b"\0hidden"), 1, 0)).name, "");
}

#[test]
fn name_that_is_not_utf8_is_the_empty_string() {
    let handle = JavaThread { address: 1 };
    assert_eq!(Thread::from_native(&handle, &info(Some(&[0xFF, 0xFE]), 1, 0)).name, "");
    assert_eq!(Thread::from_native(&handle, &info(Some(&[b'a', 0xC0, 0x80]), 1, 0)).name, "");
    assert_eq!(Thread::from_native(&handle, &info(Some(&[0xED, 0xA0, 0x80]), 1, 0)).name, "");
    assert_eq!(Thread::from_native(&handle, &info(Some(&[b'o', b'k', 0xE2, 0x82]), 1, 0)).name, "");
}

#[test]
fn name_is_decoded_as_utf8() {
    let handle = JavaThread { address: 1 };
    let bytes = "Gr\u{fc}\u{df}e \u{20ac} \u{1F600}".as_bytes();
    let thread = Thread::from_native(&handle, &info(Some(bytes), 1, 0));
    assert_eq!(thread.name, "Gr\u{fc}\u{df}e \u{20ac} \u{1F600}");
    assert_eq!(thread.name.chars().count(), 9);
}

#[test]
fn daemon_flag_is_set_by_any_byte_but_zero() {
    let handle = JavaThread { address: 1 };
    assert!(!Thread::from_native(&handle, &info(Some(b"t"), 1, 0)).is_daemon);
    assert!(Thread::from_native(&handle, &info(Some(b"t"), 1, 1)).is_daemon);
    assert!(Thread::from_native(&handle, &info(Some(b"t"), 1, 2)).is_daemon);
    assert!(Thread::from_native(&handle, &info(Some(b"t"), 1, 255)).is_daemon);
}

#[test]
fn priority_keeps_its_bits() {
    let handle = JavaThread { address: 1 };
    assert_eq!(Thread::from_native(&handle, &info(None, 0, 0)).priority, 0);
    assert_eq!(Thread::from_native(&handle, &info(None, 10, 0)).priority, 10);
    assert_eq!(Thread::from_native(&handle, &info(None, i32::MAX, 0)).priority, 0x7FFF_FFFF);
    assert_eq!(Thread::from_native(&handle, &info(None, -1, 0)).priority, 0xFFFF_FFFF);
    assert_eq!(Thread::from_native(&handle, &info(None, i32::MIN, 0)).priority, 0x8000_0000);
}

#[test]
fn reply_with_status_zero_is_the_thread() {
    let handle = JavaThread { address: 42 };
    let reply = Some((0, info(Some(b"main\0"), 5, 0)));
    let thread = Thread::from_reply(&handle, &reply).unwrap();
    assert_eq!(thread.id, ThreadId { native_id: JavaThread { address: 42 } });
    assert_eq!(thread.name, "main");
    assert_eq!(thread.priority, 5);
    assert!(!thread.is_daemon);
}

#[test]
fn reply_with_another_status_is_its_error() {
    let handle = JavaThread { address: 42 };
    let reply = Some((15, info(Some(b"main\0"), 5, 0)));
    assert_eq!(Thread::from_reply(&handle, &reply), Err(NativeError::ThreadNotAlive));
    let reply = Some((10, info(None, 0, 0)));
    assert_eq!(Thread::from_reply(&handle, &reply), Err(NativeError::InvalidThread));
    let reply = Some((4711, info(None, 0, 0)));
    assert_eq!(Thread::from_reply(&handle, &reply), Err(NativeError::UnknownError));
}

#[test]
fn missing_function_is_unsupported_operation() {
    let handle = JavaThread { address: 42 };
    assert_eq!(Thread::from_reply(&handle, &None), Err(NativeError::UnsupportedOperation));
}

#[test]
fn thread_id_wraps_the_handle() {
    let id = ThreadId::new(JavaThread { address: 7 });
    assert_eq!(id.native_id, JavaThread { address: 7 });
    assert_eq!(id, ThreadId { native_id: JavaThread { address: 7 } });
    assert_ne!(id, ThreadId { native_id: JavaThread { address: 8 } });
}

#[test]
fn text_is_what_stands_before_the_first_zero() {
    assert_eq!(text_of(&b"abc\0def".to_vec()), b"abc".to_vec());
    assert_eq!(text_of(&b"abc".to_vec()), b"abc".to_vec());
    assert_eq!(text_of(&b"\0abc".to_vec()), Vec::<u8>::new());
    assert_eq!(text_of(&Vec::new()), Vec::<u8>::new());
    assert_eq!(text_of(&vec![0xFF, 0x01, 0x00, 0x02]), vec![0xFF, 0x01]);
}

#[test]
fn buffer_decodes_or_falls_back() {
    assert_eq!(decode_name(&None), "");
    assert_eq!(decode_name(&Some(b"Finalizer\0".to_vec())), "Finalizer");
    assert_eq!(decode_name(&Some("Signal Dispatcher".as_bytes().to_vec())), "Signal Dispatcher");
    assert_eq!(decode_name(&Some(vec![0x80])), "");
    assert_eq!(decode_name(&Some(vec![0xF4, 0x90, 0x80, 0x80])), "");
    assert_eq!(decode_name(&Some(vec![0xF4, 0x8F, 0xBF, 0xBF])), "\u{10FFFF}");
}
