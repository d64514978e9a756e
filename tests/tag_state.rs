use std::io;
use std::path::Path;

use cachedir::{
    ensure_tag, get_tag_state, header, header_matches, is_tagged, ErrorKind, Failure, TagProbe,
    TagState, TAG_FILE_NAME,
};

fn failure(kind: ErrorKind, io_kind: io::ErrorKind) -> Failure<io::Error> {
    Failure { kind, error: io::Error::from(io_kind) }
}

/// The observation of a directory in which opening the tag file found nothing.
fn tag_file_missing(directory: &Path) -> TagProbe<io::Error> {
    TagProbe::OpenFailed {
        failure: failure(ErrorKind::NotFound, io::ErrorKind::NotFound),
        directory_is_dir: directory.is_dir(),
    }
}

#[test]
fn is_tagged_on_nonexistent_directory_is_an_error() {
    let directory = Path::new("this directory does not exist");
    assert!(!directory.exists());
    assert!(is_tagged(tag_file_missing(directory)).is_err());
}

#[test]
fn empty_directory_is_not_tagged() {
    let directory = tempfile::tempdir().unwrap();
    assert!(!is_tagged(tag_file_missing(directory.path())).unwrap());
}

#[test]
fn directory_with_a_tag_with_wrong_content_is_not_tagged() {
    let empty: Vec<u8> = Vec::new();
    assert!(!is_tagged::<io::Error>(TagProbe::Read(empty)).unwrap());

    let h = header();
    let truncated = h[..(h.len() - 2)].to_vec();
    assert!(!is_tagged::<io::Error>(TagProbe::Read(truncated)).unwrap());
}

#[test]
fn add_tag_is_detected_by_is_tagged() {
    assert!(is_tagged::<io::Error>(TagProbe::Read(header())).unwrap());
}

#[test]
fn ensure_tag_is_detected_by_is_tagged() {
    assert!(ensure_tag::<io::Error>(Ok(())).is_ok());
    assert!(is_tagged::<io::Error>(TagProbe::Read(header())).unwrap());
}

#[test]
fn ensure_tag_errors_when_called_with_nonexistent_directory() {
    let directory = Path::new("this directory does not exist");
    assert!(!directory.exists());
    assert!(ensure_tag(Err(failure(ErrorKind::NotFound, io::ErrorKind::NotFound))).is_err());
    assert!(is_tagged(tag_file_missing(directory)).is_err());
}

#[test]
fn ensure_tag_is_idempotent() {
    assert!(ensure_tag::<io::Error>(Ok(())).is_ok());
    assert!(is_tagged::<io::Error>(TagProbe::Read(header())).unwrap());
    assert!(ensure_tag(Err(failure(ErrorKind::AlreadyExists, io::ErrorKind::AlreadyExists))).is_ok());
    assert!(is_tagged::<io::Error>(TagProbe::Read(header())).unwrap());
}

#[test]
fn header_is_the_signature_line() {
    assert_eq!(header(), b"Signature: 8a477f597d28d172789f06886806bc55".to_vec());
    assert_eq!(header().len(), 43);
    assert_eq!(TAG_FILE_NAME, "CACHEDIR.TAG");
}

#[test]
fn header_matches_only_the_exact_header() {
    let h = header();
    assert!(header_matches(&h));
    assert!(!header_matches(&[]));
    assert!(!header_matches(&h[..42]));
    let mut longer = h.clone();
    longer.push(b'\n');
    assert!(!header_matches(&longer));
    let upper = b"Signature: 8A477F597D28D172789F06886806BC55".to_vec();
    assert!(!header_matches(&upper));
    let mut last_changed = h.clone();
    last_changed[42] = b'6';
    assert!(!header_matches(&last_changed));
}

#[test]
fn tag_states_of_each_observation() {
    let directory = tempfile::tempdir().unwrap();
    assert_eq!(get_tag_state(tag_file_missing(directory.path())).unwrap(), TagState::Absent);
    assert_eq!(
        get_tag_state::<io::Error>(TagProbe::Read(b"garbage".to_vec())).unwrap(),
        TagState::WrongHeader
    );
    assert_eq!(get_tag_state::<io::Error>(TagProbe::Read(header())).unwrap(), TagState::Present);
}

#[test]
fn probing_twice_gives_the_same_state() {
    let first = get_tag_state::<io::Error>(TagProbe::Read(header())).unwrap();
    let second = get_tag_state::<io::Error>(TagProbe::Read(header())).unwrap();
    assert_eq!(first, second);
}

#[test]
fn missing_tag_in_missing_directory_keeps_the_not_found_error() {
    let directory = Path::new("this directory does not exist");
    let e = get_tag_state(tag_file_missing(directory)).unwrap_err();
    assert_eq!(e.kind(), io::ErrorKind::NotFound);
}

#[test]
fn open_failure_other_than_not_found_is_an_error_even_in_a_directory() {
    let probe = TagProbe::OpenFailed {
        failure: failure(ErrorKind::PermissionDenied, io::ErrorKind::PermissionDenied),
        directory_is_dir: true,
    };
    let e = get_tag_state(probe).unwrap_err();
    assert_eq!(e.kind(), io::ErrorKind::PermissionDenied);
}

#[test]
fn read_failure_is_an_error() {
    let probe: TagProbe<io::Error> = TagProbe::ReadFailed(io::Error::from(io::ErrorKind::Interrupted));
    assert_eq!(is_tagged(probe).unwrap_err().kind(), io::ErrorKind::Interrupted);
}

#[test]
fn ensure_tag_passes_other_failures_through() {
    let e = ensure_tag(Err(failure(ErrorKind::PermissionDenied, io::ErrorKind::PermissionDenied)))
        .unwrap_err();
    assert_eq!(e.kind(), io::ErrorKind::PermissionDenied);
    let e = ensure_tag(Err(failure(ErrorKind::Other, io::ErrorKind::WriteZero))).unwrap_err();
    assert_eq!(e.kind(), io::ErrorKind::WriteZero);
}
