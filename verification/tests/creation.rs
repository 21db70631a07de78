use battery_pipe::creation::{classify_create_error, classify_errno, CreateErrorKind, ErrnoCodes};

fn codes() -> ErrnoCodes {
    ErrnoCodes {
        permission_denied: 1,
        quota_exceeded: 2,
        already_exists: 3,
        name_too_long: 4,
        missing_parent: 5,
        no_space: 6,
        not_a_directory: 7,
        read_only_filesystem: 8,
    }
}

#[test]
fn each_kind_has_its_number() {
    let codes = codes();
    assert_eq!(classify_errno(1, &codes), CreateErrorKind::PermissionDenied);
    assert_eq!(classify_errno(2, &codes), CreateErrorKind::QuotaExceeded);
    assert_eq!(classify_errno(3, &codes), CreateErrorKind::AlreadyExists);
    assert_eq!(classify_errno(4, &codes), CreateErrorKind::NameTooLong);
    assert_eq!(classify_errno(5, &codes), CreateErrorKind::MissingParent);
    assert_eq!(classify_errno(6, &codes), CreateErrorKind::NoSpace);
    assert_eq!(classify_errno(7, &codes), CreateErrorKind::NotADirectory);
    assert_eq!(classify_errno(8, &codes), CreateErrorKind::ReadOnlyFilesystem);
}

#[test]
fn other_numbers_are_unknown() {
    let codes = codes();
    for errno in [0, 9, -1, i32::MAX, i32::MIN] {
        assert_eq!(classify_errno(errno, &codes), CreateErrorKind::Unknown);
    }
}

#[test]
fn first_kind_wins_where_numbers_coincide() {
    let mut codes = codes();
    codes.no_space = 2;
    codes.read_only_filesystem = 1;
    assert_eq!(classify_errno(2, &codes), CreateErrorKind::QuotaExceeded);
    assert_eq!(classify_errno(1, &codes), CreateErrorKind::PermissionDenied);
    assert_eq!(classify_errno(6, &codes), CreateErrorKind::Unknown);
}

#[test]
fn platform_numbers_are_told_apart() {
    assert_eq!(classify_create_error(libc::EACCES), CreateErrorKind::PermissionDenied);
    assert_eq!(classify_create_error(libc::EDQUOT), CreateErrorKind::QuotaExceeded);
    assert_eq!(classify_create_error(libc::EEXIST), CreateErrorKind::AlreadyExists);
    assert_eq!(classify_create_error(libc::ENAMETOOLONG), CreateErrorKind::NameTooLong);
    assert_eq!(classify_create_error(libc::ENOENT), CreateErrorKind::MissingParent);
    assert_eq!(classify_create_error(libc::ENOSPC), CreateErrorKind::NoSpace);
    assert_eq!(classify_create_error(libc::ENOTDIR), CreateErrorKind::NotADirectory);
    assert_eq!(classify_create_error(libc::EROFS), CreateErrorKind::ReadOnlyFilesystem);
}

#[test]
fn other_platform_numbers_are_unknown() {
    assert_eq!(classify_create_error(0), CreateErrorKind::Unknown);
    assert_eq!(classify_create_error(libc::EINVAL), CreateErrorKind::Unknown);
    assert_eq!(classify_create_error(libc::EIO), CreateErrorKind::Unknown);
    assert_eq!(classify_create_error(-1), CreateErrorKind::Unknown);
}
