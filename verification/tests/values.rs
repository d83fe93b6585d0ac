use zmtp_core::byte_order::ByteOrder;
use zmtp_core::command::Properties;
use zmtp_core::message::{Blob, Msg, MsgFlags};
use zmtp_core::{Duration, Instant, ZmqError};

#[test]
fn integers_are_read_back_in_both_orders() {
    for order in [ByteOrder::Little, ByteOrder::Big] {
        for n in [0, 1, -1, 258, i32::MAX, i32::MIN] {
            assert_eq!(order.read_i32(&order.write_i32(n)), n);
        }
        for n in [0, -1, i64::MAX, i64::MIN, 0x0102_0304_0506_0708] {
            assert_eq!(order.read_i64(&order.write_i64(n)), n);
        }
    }
    assert_eq!(ByteOrder::Big.write_i32(-2), (-2i32).to_be_bytes().to_vec());
    assert_eq!(ByteOrder::Little.write_i64(258), 258i64.to_le_bytes().to_vec());
    assert_eq!(ByteOrder::native().write_i32(7), 7i32.to_ne_bytes().to_vec());
}

#[test]
fn properties_hold_one_value_by_each_name() {
    let mut properties = Properties::new();
    properties.insert("a", vec![1]);
    properties.insert("b", vec![2]);
    properties.insert("a", vec![3]);
    assert_eq!(properties.len(), 2);
    assert_eq!(properties.get("a"), Some(&vec![3]));
    assert_eq!(properties.get("b"), Some(&vec![2]));
    assert_eq!(properties.get("c"), None);
    assert_eq!(properties.entry(1), ("b", &[2][..]));
}

#[test]
fn frames_keep_data_and_flags() {
    let mut msg = Msg::from_vec(vec![1, 2]);
    assert_eq!(msg.flags(), MsgFlags::none());
    msg.set_flags(MsgFlags::with_more());
    assert!(msg.is_more() && !msg.is_command());
    assert_eq!(msg.data(), Some(&[1, 2][..]));
    assert_eq!(msg.clone(), msg);
    assert_eq!(Msg::new().data(), None);
    assert_eq!(Msg::new().size(), 0);
    let blob = Blob::from_vec(vec![1, 2, 3]);
    assert_eq!(blob.clone().to_vec(), vec![1, 2, 3]);
    assert_eq!(blob.len(), 3);
    assert!(!blob.is_empty());
}

#[test]
fn spans_do_not_overflow() {
    assert_eq!(Duration::from_millis(1500).as_secs(), 1);
    assert_eq!(Duration::from_secs(2).as_millis(), 2000);
    assert_eq!(Duration::from_secs(2).doubled(), Duration::from_secs(4));
    let longest = Duration { nanos: u64::MAX as u128 * 1_000_000_000 };
    assert_eq!(longest.doubled().nanos, u64::MAX as u128 * 1_000_000_000 + 999_999_999);
    let (early, late) = (Instant { nanos: 3 }, Instant { nanos: 8 });
    assert_eq!(late.duration_since(early), Duration { nanos: 5 });
    assert_eq!(early.duration_since(late), Duration { nanos: 0 });
    assert_eq!(early.plus(Duration { nanos: 5 }), late);
}

#[test]
fn errors_describe_themselves() {
    assert_eq!(ZmqError::Timeout.describe(), "operation timed out");
    assert_eq!(ZmqError::IoError { errno: 104 }.describe(), "I/O error 104");
    assert_eq!(ZmqError::InvalidOption(-2147483648).describe(), "invalid option -2147483648");
    assert_eq!(ZmqError::UnsupportedOption(6).describe(), "unsupported option 6");
    assert_eq!(ZmqError::InvalidOptionValue(0).describe(), "invalid value for option 0");
    assert_eq!(ZmqError::ConnectionClosed.describe(), "connection closed by peer");
    assert_eq!(ZmqError::Internal("x".to_string()).describe(), "internal error: x");
    assert_eq!(ZmqError::InvalidState("x".to_string()).describe(), "invalid state: x");
    assert_eq!(ZmqError::SecurityError("x".to_string()).describe(), "security error: x");
    assert_eq!(ZmqError::PermissionDenied("x".to_string()).describe(), "permission denied: x");
    let error = ZmqError::ProtocolViolation("x".to_string());
    assert_eq!(error.clone(), error);
}
