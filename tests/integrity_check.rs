use rustacean_launcher::fetch::{classify, skipped_progress, start_fetch, FetchError, FetchFailure, FetchStart, Transfer};
use rustacean_launcher::hashing::content_hash;
use rustacean_launcher::integrity::{integrity_step, should_download, verify_file, IntegrityStep, LocalFile};
use rustacean_launcher::job::FileData;

const ABC_SHA1: &str = "a9993e364706816aba3e25717850c26c9cd0d89d";

fn file(sha1: Option<&str>) -> FileData {
    FileData::new("root/libs/a/b.jar".to_string(), "https://example.org/b.jar".to_string(), sha1.map(|s| s.to_string()))
}

#[test]
fn content_hash_is_lowercase_hex_sha1() {
    assert_eq!(content_hash(b"abc"), ABC_SHA1);
    assert_eq!(content_hash(b""), "da39a3ee5e6b4b0d3255bfef95601890afd80709");
    assert_eq!(content_hash(b"abc").len(), 40);
}

#[test]
fn missing_destination_is_downloaded_after_creating_parent() {
    let f = file(Some(ABC_SHA1));
    match integrity_step(&f, false) {
        IntegrityStep::CreateParent(dir) => assert_eq!(dir, "root/libs/a"),
        other => panic!("unexpected step {:?}", other),
    }
    assert!(should_download(&f, &LocalFile::Missing));
    assert!(should_download(&file(None), &LocalFile::Missing));
}

#[test]
fn parent_of_a_bare_name_is_empty() {
    let f = FileData::new("b.jar".to_string(), "u".to_string(), None);
    match integrity_step(&f, false) {
        IntegrityStep::CreateParent(dir) => assert_eq!(dir, ""),
        other => panic!("unexpected step {:?}", other),
    }
}

#[test]
fn present_file_without_expected_hash_is_refreshed() {
    let f = file(None);
    assert!(matches!(integrity_step(&f, true), IntegrityStep::Refresh));
    assert!(should_download(&f, &LocalFile::Unhashed));
    assert!(should_download(&f, &LocalFile::Hashed(ABC_SHA1.to_string())));
}

#[test]
fn matching_hash_is_skipped_without_request() {
    let f = file(Some(ABC_SHA1));
    assert!(matches!(integrity_step(&f, true), IntegrityStep::ComputeHash));
    let local = LocalFile::Hashed(content_hash(b"abc"));
    assert!(verify_file(&f, &local));
    assert!(!should_download(&f, &local));
    assert!(matches!(start_fetch(&f, &local), FetchStart::Skip));
    assert_eq!(skipped_progress(), (1, 1));
}

#[test]
fn differing_hash_is_downloaded_again() {
    let f = file(Some(ABC_SHA1));
    let local = LocalFile::Hashed(content_hash(b"abd"));
    assert!(should_download(&f, &local));
    match start_fetch(&f, &local) {
        FetchStart::Get(url) => assert_eq!(url, "https://example.org/b.jar"),
        FetchStart::Skip => panic!("a corrupted file was kept"),
    }
}

#[test]
fn hash_comparison_is_case_sensitive() {
    let f = file(Some(&ABC_SHA1.to_uppercase()));
    assert!(should_download(&f, &LocalFile::Hashed(ABC_SHA1.to_string())));
}

#[test]
fn unreadable_file_is_downloaded_again() {
    assert!(should_download(&file(Some(ABC_SHA1)), &LocalFile::Unhashed));
}

#[test]
fn second_run_over_verified_tree_fetches_nothing() {
    let contents: Vec<&[u8]> = vec![b"one", b"two", b"three"];
    let jobs: Vec<FileData> = contents
        .iter()
        .enumerate()
        .map(|(i, c)| FileData::new(format!("root/{}", i), format!("https://example.org/{}", i), Some(content_hash(c))))
        .collect();
    let fetched = jobs
        .iter()
        .zip(contents.iter())
        .filter(|(j, c)| matches!(start_fetch(j, &LocalFile::Hashed(content_hash(c))), FetchStart::Get(_)))
        .count();
    assert_eq!(fetched, 0);
}

#[test]
fn transfer_tracks_bytes_against_declared_length() {
    let mut t = Transfer::begin(Some(10));
    assert_eq!(t.progress(), (0, 10));
    assert_eq!(t.on_chunk(4), Ok(()));
    assert_eq!(t.progress(), (4, 10));
    assert_eq!(t.finish(), Err(FetchError::Io));
    assert_eq!(t.on_chunk(6), Ok(()));
    assert_eq!(t.progress(), (10, 10));
    assert_eq!(t.finish(), Ok(()));
}

#[test]
fn transfer_without_declared_length_completes_at_end_of_stream() {
    let mut t = Transfer::begin(None);
    assert_eq!(t.progress(), (0, 0));
    assert_eq!(t.on_chunk(3), Ok(()));
    assert_eq!(t.finish(), Ok(()));
    assert_eq!(t.progress(), (3, 0));
}

#[test]
fn transfer_refuses_overflowing_counts() {
    let mut t = Transfer::begin(Some(u64::MAX));
    assert_eq!(t.on_chunk(usize::MAX), Ok(()));
    if usize::MAX as u64 == u64::MAX {
        assert_eq!(t.on_chunk(1), Err(FetchError::Io));
    }
}

#[test]
fn failures_classify_as_transport_or_io() {
    assert_eq!(classify(FetchFailure::Request), FetchError::Transport);
    assert_eq!(classify(FetchFailure::ReadChunk), FetchError::Io);
    assert_eq!(classify(FetchFailure::CreateFile), FetchError::Io);
    assert_eq!(classify(FetchFailure::WriteChunk), FetchError::Io);
    assert_eq!(classify(FetchFailure::Flush), FetchError::Io);
}
