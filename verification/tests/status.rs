use minimg::status::{describe_read, FileStatus};

#[test]
fn as_ref_keeps_the_variant_and_borrows_what_it_holds() {
    let unread: FileStatus<u32> = FileStatus::Unread;
    let reading: FileStatus<u32> = FileStatus::Reading;
    let read: FileStatus<u32> = FileStatus::Read(7);
    let failed: FileStatus<u32> = FileStatus::Failed("no such file".to_string());
    assert_eq!(unread.as_ref(), FileStatus::Unread);
    assert_eq!(reading.as_ref(), FileStatus::Reading);
    assert_eq!(read.as_ref(), FileStatus::Read(&7));
    assert_eq!(failed.as_ref(), FileStatus::Failed(&"no such file".to_string()));
}

#[test]
fn as_ref_leaves_the_status_in_place() {
    let read: FileStatus<String> = FileStatus::Read("payload".to_string());
    let seen = read.as_ref();
    assert_eq!(seen, FileStatus::Read(&"payload".to_string()));
    assert_eq!(read, FileStatus::Read("payload".to_string()));
}

#[test]
fn a_good_outcome_becomes_read() {
    let status: FileStatus<u32> = FileStatus::from(Ok(5));
    assert_eq!(status, FileStatus::Read(5));
}

#[test]
fn a_bad_outcome_becomes_failed_with_its_reason() {
    let status: FileStatus<u32> = FileStatus::from(Err("truncated".to_string()));
    assert_eq!(status, FileStatus::Failed("truncated".to_string()));
}

#[test]
fn only_unread_is_unread_and_only_reading_is_reading() {
    let all: [FileStatus<u32>; 4] = [
        FileStatus::Unread,
        FileStatus::Reading,
        FileStatus::Read(1),
        FileStatus::Failed("x".to_string()),
    ];
    let unread: Vec<bool> = all.iter().map(|s| s.is_unread()).collect();
    let reading: Vec<bool> = all.iter().map(|s| s.is_reading()).collect();
    assert_eq!(unread, vec![true, false, false, false]);
    assert_eq!(reading, vec![false, true, false, false]);
}

#[test]
fn a_read_that_worked_keeps_its_bytes() {
    let read: std::io::Result<Vec<u8>> = Ok(vec![1, 2, 3]);
    assert_eq!(describe_read(read), Ok(vec![1, 2, 3]));
}

#[test]
fn a_read_that_failed_is_put_in_words() {
    let error = std::io::Error::new(std::io::ErrorKind::NotFound, "gone missing");
    let words = error.to_string();
    let read: std::io::Result<Vec<u8>> = Err(error);
    assert_eq!(describe_read(read), Err(words));
    let again: std::io::Result<u8> =
        Err(std::io::Error::new(std::io::ErrorKind::NotFound, "gone missing"));
    assert_eq!(describe_read(again), Err("gone missing".to_string()));
}
