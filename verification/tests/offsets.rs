use iggy_core::offsets::{
    decode_offset, encode_offset, fold_offset_max, interpret_offset_read, OffsetFileRead,
    OffsetStorageError,
};

const PATH: &str = "/tmp/offsets/42";

#[test]
fn read_persisted_offset_absent_file_is_none() {
    assert_eq!(interpret_offset_read(PATH, OffsetFileRead::Absent), Ok(None));
}

#[test]
fn read_persisted_offset_round_trips_persisted_value() {
    let bytes = encode_offset(114).to_vec();
    assert_eq!(
        interpret_offset_read(PATH, OffsetFileRead::Read(bytes)),
        Ok(Some(114))
    );
}

#[test]
fn read_persisted_offset_torn_file_is_none_not_error() {
    assert_eq!(
        interpret_offset_read(PATH, OffsetFileRead::ShortRead),
        Ok(None),
        "short read maps to None like the boot loader"
    );
}

#[test]
fn read_persisted_offset_real_io_error_propagates() {
    let result = interpret_offset_read(PATH, OffsetFileRead::ReadFailed);
    assert!(
        matches!(result, Err(OffsetStorageError::CannotReadConsumerOffsets(_))),
        "real I/O error must propagate, got {result:?}",
    );
}

#[test]
fn persist_offset_max_recovers_torn_file() {
    let on_disk = interpret_offset_read(PATH, OffsetFileRead::ShortRead).expect("torn file folds as absent");
    let commit = fold_offset_max(on_disk, 7);
    assert!(commit.write);
    assert_eq!(commit.effective, 7);
    let read = interpret_offset_read(PATH, OffsetFileRead::Read(encode_offset(commit.effective).to_vec()));
    assert_eq!(read, Ok(Some(7)));
}

#[test]
fn encoding_is_little_endian() {
    assert_eq!(encode_offset(0x0102_0304_0506_0708), [8, 7, 6, 5, 4, 3, 2, 1]);
    assert_eq!(encode_offset(114), 114u64.to_le_bytes());
    assert_eq!(decode_offset(&[0xff; 8]), u64::MAX);
    assert_eq!(decode_offset(&u64::MAX.to_le_bytes()), u64::MAX);
    for x in [0u64, 1, 255, 256, 1 << 40, u64::MAX - 1] {
        assert_eq!(decode_offset(&encode_offset(x)), x);
    }
}

#[test]
fn wrong_length_read_is_an_error_naming_the_file() {
    assert_eq!(
        interpret_offset_read(PATH, OffsetFileRead::Read(vec![1, 2, 3])),
        Err(OffsetStorageError::CannotReadConsumerOffsets(PATH.to_owned()))
    );
    assert_eq!(
        interpret_offset_read(PATH, OffsetFileRead::OpenFailed),
        Err(OffsetStorageError::CannotOpenConsumerOffsetsFile(PATH.to_owned()))
    );
}

#[test]
fn fold_keeps_the_maximum_and_skips_redundant_writes() {
    let c = fold_offset_max(Some(10), 7);
    assert_eq!((c.effective, c.write), (10, false));
    let c = fold_offset_max(Some(10), 12);
    assert_eq!((c.effective, c.write), (12, true));
    let c = fold_offset_max(Some(12), 12);
    assert_eq!((c.effective, c.write), (12, false));
    let a_then_b = fold_offset_max(Some(fold_offset_max(Some(3), 9).effective), 5).effective;
    let b_then_a = fold_offset_max(Some(fold_offset_max(Some(3), 5).effective), 9).effective;
    assert_eq!(a_then_b, b_then_a);
}

#[test]
fn commits_in_any_order_keep_the_running_maximum_on_disk() {
    let offsets = [7u64, 3, 12, 12, 5, 40, 1];
    let mut on_disk: Option<u64> = None;
    let mut running = 0u64;
    for (i, &offset) in offsets.iter().enumerate() {
        let commit = fold_offset_max(on_disk, offset);
        running = if i == 0 { offset } else { running.max(offset) };
        assert_eq!(commit.effective, running);
        if let Some(previous) = on_disk {
            assert!(commit.effective >= previous);
        }
        let persisted = if commit.write { encode_offset(commit.effective).to_vec() } else { encode_offset(on_disk.unwrap()).to_vec() };
        on_disk = interpret_offset_read(PATH, OffsetFileRead::Read(persisted)).unwrap();
    }
    assert_eq!(on_disk, Some(40));
}
