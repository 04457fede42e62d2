use dsa_rust::descriptor::DsaCompletionRecord;
use dsa_rust::wq::{poll_stop_index, translate_completion, WorkQueue, WorkQueueInfo, WorkQueueType};
use dsa_rust::DsaError;

#[test]
fn test_work_queue_type() {
    assert_eq!(WorkQueueType::Dedicated, WorkQueueType::Dedicated);
    assert_ne!(WorkQueueType::Dedicated, WorkQueueType::Shared);
}

#[test]
fn test_work_queue_info() {
    let info = WorkQueueInfo {
        name: "wq0.0".to_string(),
        state: "enabled".to_string(),
        wq_type: WorkQueueType::Shared,
        size: 128,
        threshold: 64,
    };

    assert_eq!(info.name, "wq0.0");
    assert_eq!(info.state, "enabled");
    assert_eq!(info.wq_type, WorkQueueType::Shared);
}

#[test]
fn test_windows_software_fallback() {
    let result = WorkQueue::open("");
    assert!(result.is_ok(), "opening the software work queue must succeed");

    let wq = result.unwrap();
    assert!(wq.is_software_fallback());

    // CRC32 produces a value and is deterministic.
    let crc = wq.crc32(b"Hello, DSA!", 0).unwrap();
    assert_ne!(crc, 0);
    let crc2 = wq.crc32(b"Hello, DSA!", 0).unwrap();
    assert_eq!(crc, crc2);

    // memcpy
    let src = vec![0xABu8; 64];
    let mut dst = vec![0u8; 64];
    wq.memcpy(&mut dst, &src).unwrap();
    assert_eq!(src, dst);

    // memset
    let mut buf = vec![0u8; 16];
    wq.memset(&mut buf, 0xDEADBEEF_CAFEBABE).unwrap();
    assert_eq!(&buf[..8], &[0xBE, 0xBA, 0xFE, 0xCA, 0xEF, 0xBE, 0xAD, 0xDE]);

    // memcmp
    let a = vec![1u8; 64];
    let b = vec![1u8; 64];
    let c = vec![2u8; 64];
    assert!(wq.memcmp(&a, &b).unwrap());
    assert!(!wq.memcmp(&a, &c).unwrap());
}

#[test]
fn test_work_queue_configuration() {
    let mut wq = WorkQueue::open("wq0.0").unwrap();
    assert_eq!(wq.wq_type(), WorkQueueType::Shared);
    assert_eq!(wq.max_retries, 1000);
    assert_eq!(wq.spin_iterations, 1000000);

    wq.set_wq_type(WorkQueueType::Dedicated);
    wq.set_max_retries(5);
    wq.set_spin_iterations(77);
    assert_eq!(wq.wq_type(), WorkQueueType::Dedicated);
    assert_eq!(wq.max_retries, 5);
    assert_eq!(wq.spin_iterations, 77);
}

#[test]
fn test_checksum_known_values() {
    let wq = WorkQueue::open("").unwrap();
    // The CRC-32 (IEEE) check value.
    assert_eq!(wq.crc32(b"123456789", 0).unwrap(), 0xCBF4_3926);
    // A fixed value, consistent on every run.
    assert_eq!(wq.crc32(b"Hello, Intel DSA!", 0).unwrap(), 0x448C_3448);
}

#[test]
fn test_checksum_empty_returns_seed() {
    let wq = WorkQueue::open("").unwrap();
    assert_eq!(wq.crc32(b"", 0).unwrap(), 0);
    assert_eq!(wq.crc32(b"", 1).unwrap(), 1);
    assert_eq!(wq.crc32(b"", 0xDEAD_BEEF).unwrap(), 0xDEAD_BEEF);
    assert_eq!(wq.crc32(b"", u32::MAX).unwrap(), u32::MAX);
}

#[test]
fn test_checksum_chaining() {
    let wq = WorkQueue::open("").unwrap();
    let data = b"Hello, Intel DSA!";
    let whole = wq.crc32(data, 0).unwrap();
    for split in 0..=data.len() {
        let first = wq.crc32(&data[..split], 0).unwrap();
        let chained = wq.crc32(&data[split..], first).unwrap();
        assert_eq!(chained, whole);
    }
}

#[test]
fn test_memcpy_prefix_and_tail() {
    let wq = WorkQueue::open("").unwrap();
    let src = [1u8, 2, 3];
    let mut dst = vec![9u8, 9, 9, 9, 9];
    wq.memcpy(&mut dst, &src).unwrap();
    assert_eq!(dst, vec![1, 2, 3, 9, 9]);
}

#[test]
fn test_memcpy_size_mismatch() {
    let wq = WorkQueue::open("").unwrap();
    let src = [1u8, 2, 3, 4, 5];
    let mut dst = vec![0u8; 3];
    let err = wq.memcpy(&mut dst, &src).unwrap_err();
    match err {
        DsaError::BufferSizeMismatch { expected, actual } => {
            assert_eq!(expected, 5);
            assert_eq!(actual, 3);
        }
        other => panic!("expected BufferSizeMismatch, got {:?}", other),
    }
    // The destination is untouched.
    assert_eq!(dst, vec![0u8; 3]);
}

#[test]
fn test_memcpy_empty_source_is_noop() {
    let wq = WorkQueue::open("").unwrap();
    let mut dst = vec![7u8, 8, 9];
    wq.memcpy(&mut dst, &[]).unwrap();
    assert_eq!(dst, vec![7, 8, 9]);

    let mut empty: Vec<u8> = Vec::new();
    wq.memcpy(&mut empty, &[]).unwrap();
    assert!(empty.is_empty());
}

#[test]
fn test_memset_repeats_pattern() {
    let wq = WorkQueue::open("").unwrap();
    let mut buf = vec![0u8; 16];
    wq.memset(&mut buf, 0xDEADBEEF_CAFEBABE).unwrap();
    assert_eq!(
        buf,
        vec![
            0xBE, 0xBA, 0xFE, 0xCA, 0xEF, 0xBE, 0xAD, 0xDE, 0xBE, 0xBA, 0xFE, 0xCA, 0xEF, 0xBE,
            0xAD, 0xDE
        ]
    );
}

#[test]
fn test_memset_truncates_final_repetition() {
    let wq = WorkQueue::open("").unwrap();
    let mut buf = vec![0u8; 11];
    wq.memset(&mut buf, 0x0807060504030201).unwrap();
    assert_eq!(buf, vec![1, 2, 3, 4, 5, 6, 7, 8, 1, 2, 3]);

    let mut tiny = vec![0u8; 3];
    wq.memset(&mut tiny, 0x0807060504030201).unwrap();
    assert_eq!(tiny, vec![1, 2, 3]);
}

#[test]
fn test_memset_empty_is_noop() {
    let wq = WorkQueue::open("").unwrap();
    let mut empty: Vec<u8> = Vec::new();
    wq.memset(&mut empty, u64::MAX).unwrap();
    assert!(empty.is_empty());
}

#[test]
fn test_memcmp_verdicts() {
    let wq = WorkQueue::open("").unwrap();
    assert!(wq.memcmp(b"abc", b"abc").unwrap());
    assert!(!wq.memcmp(b"abc", b"abd").unwrap());
    assert!(!wq.memcmp(b"xbc", b"abc").unwrap());
    assert!(wq.memcmp(b"", b"").unwrap());
}

#[test]
fn test_memcmp_size_mismatch() {
    let wq = WorkQueue::open("").unwrap();
    let err = wq.memcmp(b"abcd", b"ab").unwrap_err();
    match err {
        DsaError::BufferSizeMismatch { expected, actual } => {
            assert_eq!(expected, 4);
            assert_eq!(actual, 2);
        }
        other => panic!("expected BufferSizeMismatch, got {:?}", other),
    }
}

#[test]
fn test_memcmp_idempotent() {
    let wq = WorkQueue::open("").unwrap();
    let a = vec![5u8, 6, 7];
    let b = vec![5u8, 6, 8];
    let first = wq.memcmp(&a, &b).unwrap();
    for _ in 0..5 {
        assert_eq!(wq.memcmp(&a, &b).unwrap(), first);
    }
}

#[test]
fn test_noop_succeeds() {
    let wq = WorkQueue::open("").unwrap();
    assert!(wq.noop().is_ok());
}

#[test]
fn test_translate_completion_success() {
    let mut record = DsaCompletionRecord::new();
    record.status = 0x01;
    record.result_value = 0x448C_3448;
    assert!(translate_completion(&record).is_ok());
}

#[test]
fn test_translate_completion_page_fault() {
    let mut record = DsaCompletionRecord::new();
    record.status = 0x03;
    record.fault_addr = 0x7000;
    record.bytes_completed = 100;
    match translate_completion(&record).unwrap_err() {
        DsaError::PageFault {
            fault_addr,
            bytes_completed,
        } => {
            assert_eq!(fault_addr, 0x7000);
            assert_eq!(bytes_completed, 100);
        }
        other => panic!("expected PageFault, got {:?}", other),
    }
}

#[test]
fn test_translate_completion_hardware_errors() {
    let mut record = DsaCompletionRecord::new();
    record.status = 0x1F;
    record.result = 0x09;
    match translate_completion(&record).unwrap_err() {
        DsaError::OperationFailed { status, result } => {
            assert_eq!(status, 0x1F);
            assert_eq!(result, 0x09);
        }
        other => panic!("expected OperationFailed, got {:?}", other),
    }

    // An unrecognized terminal code is still a generic failure.
    record.status = 0x42;
    assert!(matches!(
        translate_completion(&record),
        Err(DsaError::OperationFailed { status: 0x42, .. })
    ));
}

#[test]
fn test_poll_stops_at_first_terminal_status() {
    // The device signals completion on the sixth poll.
    let observed = [0u8, 0, 0, 0, 0, 0x01, 0x01, 0x01];
    assert_eq!(poll_stop_index(&observed, 8), Some(5));
    assert_eq!(poll_stop_index(&observed, 6), Some(5));
    // Too small a poll budget: the waiter times out instead.
    assert_eq!(poll_stop_index(&observed, 5), None);
    assert_eq!(poll_stop_index(&[0u8; 4], 4), None);
}

#[test]
fn test_translate_completion_timeout_shape() {
    // A record the device never touched: the poll loop's timeout path
    // reports a generic failure with zeroed fields.
    let record = DsaCompletionRecord::new();
    match translate_completion(&record).unwrap_err() {
        DsaError::OperationFailed { status, result } => {
            assert_eq!(status, 0);
            assert_eq!(result, 0);
        }
        other => panic!("expected OperationFailed, got {:?}", other),
    }
}
