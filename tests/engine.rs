use bcp::{Config, CopyError, ReadOutcome, ReadStep, Transfer, WriteOutcome};

fn transfer(buffer_size: usize, verbose: bool) -> Transfer {
    let mut cfg = Config::new("s".to_string(), "d".to_string());
    cfg.source_offset = 2;
    cfg.count = Some(5);
    cfg.buffer_size = buffer_size;
    cfg.verbose = verbose;
    Transfer::new(&cfg, 10)
}

#[test]
fn new_transfer_starts_empty() {
    let t = transfer(3, false);
    assert_eq!(t.total, 5);
    assert_eq!(t.transferred(), 0);
    assert!(!t.is_complete());
}

#[test]
fn reads_are_capped_by_buffer_and_remainder() {
    let mut t = transfer(3, false);
    assert_eq!(t.read_size(), 3);
    assert_eq!(t.on_write(3, WriteOutcome::Written), Ok(None));
    assert_eq!(t.read_size(), 2);
    assert_eq!(t.on_write(2, WriteOutcome::Written), Ok(None));
    assert!(t.is_complete());
    assert_eq!(t.transferred(), 5);
}

#[test]
fn interrupted_read_is_retried() {
    let t = transfer(3, false);
    assert_eq!(t.on_read(ReadOutcome::Interrupted), ReadStep::Retry);
    assert_eq!(t.transferred(), 0);
}

#[test]
fn failed_read_aborts() {
    let t = transfer(3, false);
    assert_eq!(t.on_read(ReadOutcome::Failed), ReadStep::Abort(CopyError::ReadFailed));
}

#[test]
fn empty_read_before_end_aborts() {
    let t = transfer(3, false);
    assert_eq!(
        t.on_read(ReadOutcome::Data(0)),
        ReadStep::Abort(CopyError::UnexpectedEndOfSource)
    );
}

#[test]
fn short_read_is_written_as_received() {
    let mut t = transfer(3, false);
    assert_eq!(t.on_read(ReadOutcome::Data(1)), ReadStep::Write(1));
    assert_eq!(t.on_write(1, WriteOutcome::Written), Ok(None));
    assert_eq!(t.transferred(), 1);
    assert_eq!(t.read_size(), 3);
}

#[test]
fn failed_write_aborts_without_counting() {
    let mut t = transfer(3, false);
    assert_eq!(t.on_write(3, WriteOutcome::Failed), Err(CopyError::WriteFailed));
    assert_eq!(t.transferred(), 0);
}

#[test]
fn verbose_transfer_reports_each_write() {
    let mut t = transfer(4, true);
    assert_eq!(t.on_write(4, WriteOutcome::Written), Ok(Some(4)));
    assert_eq!(t.on_write(1, WriteOutcome::Written), Ok(Some(1)));
    assert!(t.is_complete());
}
