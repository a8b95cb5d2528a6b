use bcp::{copy_bytes, Config, ValidationError};

fn config(source_offset: u64, destination_offset: u64, count: Option<u64>, buffer_size: usize) -> Config {
    let mut cfg = Config::new("src.bin".to_string(), "dst.bin".to_string());
    cfg.source_offset = source_offset;
    cfg.destination_offset = destination_offset;
    cfg.count = count;
    cfg.buffer_size = buffer_size;
    cfg
}

#[test]
fn example_range_into_empty_destination() {
    let source = b"0123456789".to_vec();
    let mut dest = Vec::new();
    let r = copy_bytes(&config(2, 0, Some(5), 1048576), &source, &mut dest);
    assert_eq!(r, Ok(5));
    assert_eq!(dest, b"23456".to_vec());
}

#[test]
fn example_offset_at_end_leaves_destination_untouched() {
    let source = b"0123456789".to_vec();
    let mut dest = b"abc".to_vec();
    let r = copy_bytes(&config(10, 0, None, 4), &source, &mut dest);
    assert_eq!(r, Err(ValidationError::OffsetBeyondSource));
    assert_eq!(dest, b"abc".to_vec());
}

#[test]
fn whole_rest_of_source_is_copied_without_count() {
    let source = b"0123456789".to_vec();
    let mut dest = Vec::new();
    let r = copy_bytes(&config(3, 0, None, 4), &source, &mut dest);
    assert_eq!(r, Ok(7));
    assert_eq!(dest, b"3456789".to_vec());
}

#[test]
fn last_byte_of_source_is_copied() {
    let source = b"0123456789".to_vec();
    let mut dest = Vec::new();
    let r = copy_bytes(&config(9, 0, None, 4), &source, &mut dest);
    assert_eq!(r, Ok(1));
    assert_eq!(dest, b"9".to_vec());
}

#[test]
fn count_to_exact_source_end_is_copied() {
    let source = b"0123456789".to_vec();
    let mut dest = Vec::new();
    let r = copy_bytes(&config(4, 0, Some(6), 4), &source, &mut dest);
    assert_eq!(r, Ok(6));
    assert_eq!(dest, b"456789".to_vec());
}

#[test]
fn untouched_destination_bytes_are_kept() {
    let source = b"0123456789".to_vec();
    let mut dest = b"abcdefghijkl".to_vec();
    let r = copy_bytes(&config(1, 4, Some(3), 2), &source, &mut dest);
    assert_eq!(r, Ok(3));
    assert_eq!(dest, b"abcd123hijkl".to_vec());
}

#[test]
fn copy_past_destination_end_grows_it() {
    let source = b"0123456789".to_vec();
    let mut dest = b"abcd".to_vec();
    let r = copy_bytes(&config(5, 2, None, 3), &source, &mut dest);
    assert_eq!(r, Ok(5));
    assert_eq!(dest, b"ab56789".to_vec());
}

#[test]
fn copy_at_destination_end_appends() {
    let source = b"0123456789".to_vec();
    let mut dest = b"xy".to_vec();
    let r = copy_bytes(&config(0, 2, Some(3), 1), &source, &mut dest);
    assert_eq!(r, Ok(3));
    assert_eq!(dest, b"xy012".to_vec());
}

#[test]
fn buffer_size_does_not_change_the_result() {
    let source = b"0123456789".to_vec();
    let mut results = Vec::new();
    for buffer_size in [1usize, 5, 6, 64, 1048576] {
        let mut dest = b"ABCDEFGHIJ".to_vec();
        let r = copy_bytes(&config(2, 3, Some(5), buffer_size), &source, &mut dest);
        assert_eq!(r, Ok(5));
        results.push(dest);
    }
    for dest in &results {
        assert_eq!(dest, &b"ABC23456IJ".to_vec());
    }
}

#[test]
fn refused_copies_leave_destination_untouched() {
    let source = b"0123456789".to_vec();
    let mut dest = b"abc".to_vec();
    assert_eq!(
        copy_bytes(&config(2, 0, Some(9), 4), &source, &mut dest),
        Err(ValidationError::CountExceedsSource)
    );
    assert_eq!(
        copy_bytes(&config(0, 4, None, 4), &source, &mut dest),
        Err(ValidationError::DestinationOffsetBeyondDestination)
    );
    assert_eq!(
        copy_bytes(&config(0, 0, None, 0), &source, &mut dest),
        Err(ValidationError::EmptyBuffer)
    );
    assert_eq!(dest, b"abc".to_vec());
}

#[test]
fn empty_source_is_refused() {
    let source: Vec<u8> = Vec::new();
    let mut dest = Vec::new();
    assert_eq!(
        copy_bytes(&config(0, 0, None, 4), &source, &mut dest),
        Err(ValidationError::OffsetBeyondSource)
    );
    assert!(dest.is_empty());
}
