use vfio::record::{build_record, parse_record, CapRecord, RecordHeader};
use vfio::VfioError;

#[test]
fn record_round_trip() {
    let header = RecordHeader { flags: 0x24, index: 1 };
    let built = build_record(header, vec![5, 6, 7]).unwrap();
    // Four header words of four bytes each, plus three four-byte elements.
    assert_eq!(built.argsz, 16 + 3 * 4);
    let (parsed_header, entries) = parse_record(built).unwrap();
    assert_eq!(parsed_header, header);
    assert_eq!(entries, vec![5, 6, 7]);
}

#[test]
fn record_with_no_trailing_elements() {
    let header = RecordHeader { flags: 0, index: 0 };
    let built = build_record(header, Vec::new()).unwrap();
    assert_eq!(built.argsz, 16);
    let (parsed_header, entries) = parse_record(built).unwrap();
    assert_eq!(parsed_header, header);
    assert!(entries.is_empty());
}

#[test]
fn parse_rejects_inconsistent_declared_size() {
    let header = RecordHeader { flags: 0, index: 2 };
    let record = CapRecord { argsz: 16 + 2 * 4, header, entries: vec![1, 2, 3] };
    assert_eq!(parse_record(record).err(), Some(VfioError::OutOfRange));
}

#[test]
fn api_version_must_match() {
    assert!(vfio::api_version_compatible(vfio::VFIO_API_VERSION));
    assert!(!vfio::api_version_compatible(1));
    assert!(!vfio::api_version_compatible(-1));
}
