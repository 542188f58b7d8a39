//! Offsets, errors and traffic.

use tokio_splice2::error::{Error, ErrorKind};
use tokio_splice2::traffic::TrafficResult;
use tokio_splice2::utils::Offset;

#[test]
fn size_of_a_range() {
    let size = |f_len, start, end| Offset::calc_size_to_splice(f_len, start, end).ok();
    assert_eq!(size(12, None, None), Some(12));
    assert_eq!(size(12, Some(6), None), Some(6));
    assert_eq!(size(12, None, Some(6)), Some(6));
    assert_eq!(size(12, Some(4), Some(9)), Some(5));
    assert_eq!(size(12, Some(12), None), Some(0));
    assert_eq!(size(12, Some(12), Some(12)), Some(0));
    assert_eq!(size(0, None, None), Some(0));
    assert_eq!(size(u64::MAX, Some(1), Some(u64::MAX)), Some(u64::MAX - 1));
}

#[test]
fn error_names_the_offsets_that_were_given() {
    let error = |f_len, start, end| Offset::calc_size_to_splice(f_len, start, end).unwrap_err();
    assert!(matches!(error(12, Some(7), Some(6)), Error::InvalidOffsetRange));
    assert!(matches!(error(12, Some(7), Some(13)), Error::InvalidOffsetRange));
    assert!(matches!(error(12, Some(13), None), Error::InvalidOffsetStart));
    assert!(matches!(error(12, None, Some(13)), Error::InvalidOffsetEnd));
}

#[test]
fn offset_belongs_to_one_side() {
    let mut offset = Offset::In(Some(3));
    assert!(offset.off_out().is_none());
    *offset.off_in().unwrap() = 8;
    assert!(matches!(offset, Offset::In(Some(8))));
    let mut offset = Offset::Out(Some(3));
    assert!(offset.off_in().is_none());
    *offset.off_out().unwrap() = 9;
    assert!(matches!(offset, Offset::Out(Some(9))));
    let mut offset = Offset::Unset;
    assert!(offset.off_in().is_none() && offset.off_out().is_none());
    assert!(Offset::In(None).off_in().is_none());
    assert!(Offset::Out(None).off_out().is_none());
}

#[test]
fn errors_have_a_kind_and_a_message() {
    let cases = [
        (Error::InvalidOffsetRange, ErrorKind::InvalidInput, Some("invalid offset range")),
        (Error::InvalidOffsetStart, ErrorKind::InvalidInput, Some("invalid offset start")),
        (Error::InvalidOffsetEnd, ErrorKind::InvalidInput, Some("invalid offset end")),
        (Error::FileTooLarge, ErrorKind::InvalidInput, Some("file size too large")),
        (Error::WriteZero, ErrorKind::WriteZero, None),
        (
            Error::WrittenMoreThanRead,
            ErrorKind::Other,
            Some("`has_written` larger than `has_read`"),
        ),
        (
            Error::PipeSizeUnknown,
            ErrorKind::Other,
            Some("failed to set pipe size, using default size"),
        ),
        (
            Error::WriteSideUnavailable,
            ErrorKind::Other,
            Some("write side file descriptor is not available"),
        ),
        (
            Error::PolledAfterError,
            ErrorKind::Other,
            Some("`poll_execute()` called after error returned"),
        ),
        (
            Error::SharedByZero,
            ErrorKind::InvalidInput,
            Some("cannot decrease `shared_by` to 0"),
        ),
    ];
    for (error, kind, message) in cases {
        assert_eq!(error.kind(), kind);
        assert_eq!(error.message(), message);
        assert!(!error.would_block());
    }
    let source = std::io::Error::from_raw_os_error(11);
    let error = Error::Io { kind: ErrorKind::WouldBlock, source };
    assert!(error.would_block());
    assert_eq!(error.message(), None);
}

fn traffic(tx: usize, rx: usize, error: Option<Error>) -> TrafficResult {
    TrafficResult { tx, rx, error }
}

#[test]
fn merge_adds_up_and_keeps_the_first_error() {
    let merged = traffic(1, 2, None).merge(traffic(30, 40, None));
    assert_eq!((merged.tx, merged.rx), (31, 42));
    assert!(merged.error.is_none());
    let merged = traffic(1, 2, None).merge(traffic(3, 4, Some(Error::WriteZero)));
    assert!(matches!(merged.error, Some(Error::WriteZero)));
    let merged = traffic(1, 2, Some(Error::FileTooLarge))
        .merge(traffic(3, 4, Some(Error::WriteZero)));
    assert!(matches!(merged.error, Some(Error::FileTooLarge)));
    // It does not matter in which order three are merged.
    let left = traffic(1, 2, None).merge(traffic(3, 4, None)).merge(traffic(5, 6, None));
    let right = traffic(1, 2, None).merge(traffic(3, 4, None).merge(traffic(5, 6, None)));
    assert_eq!((left.tx, left.rx), (right.tx, right.rx));
}

#[test]
fn sum_saturates() {
    assert_eq!(traffic(3, 4, None).sum(), 7);
    assert_eq!(traffic(usize::MAX, 1, None).sum(), usize::MAX);
    let merged = traffic(usize::MAX, 0, None).merge(traffic(0, 5, None));
    assert_eq!(merged.sum(), usize::MAX);
}

#[test]
fn result_is_the_error_or_the_traffic() {
    let ok = traffic(3, 4, None).into_result().unwrap();
    assert_eq!((ok.tx, ok.rx), (3, 4));
    assert!(ok.error.is_none());
    let error = traffic(3, 4, Some(Error::WriteZero)).into_result().unwrap_err();
    assert!(matches!(error, Error::WriteZero));
}
