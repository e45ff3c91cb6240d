use hidden_file::pathname::{file_name, prefix_len, FsPath};
use hidden_file::Platform;

#[test]
fn plain_file_name() {
    assert_eq!(
        file_name(b"/home/user/notes.txt", Platform::Posix),
        Some(b"notes.txt".to_vec())
    );
}

#[test]
fn bare_name_is_its_own_file_name() {
    assert_eq!(file_name(b"notes.txt", Platform::Posix), Some(b"notes.txt".to_vec()));
}

#[test]
fn trailing_separators_are_ignored() {
    assert_eq!(file_name(b"/home/user/", Platform::Posix), Some(b"user".to_vec()));
    assert_eq!(file_name(b"/home/user///", Platform::Posix), Some(b"user".to_vec()));
}

#[test]
fn current_directory_segments_are_skipped() {
    assert_eq!(file_name(b"foo/.", Platform::Posix), Some(b"foo".to_vec()));
    assert_eq!(file_name(b"foo/./.", Platform::Posix), Some(b"foo".to_vec()));
    assert_eq!(file_name(b"foo/./bar", Platform::Posix), Some(b"bar".to_vec()));
}

#[test]
fn root_and_empty_have_no_file_name() {
    assert_eq!(file_name(b"/", Platform::Posix), None);
    assert_eq!(file_name(b"//", Platform::Posix), None);
    assert_eq!(file_name(b"", Platform::Posix), None);
    assert_eq!(file_name(b".", Platform::Posix), None);
    assert_eq!(file_name(b"./", Platform::Posix), None);
}

#[test]
fn parent_directory_has_no_file_name() {
    assert_eq!(file_name(b"..", Platform::Posix), None);
    assert_eq!(file_name(b"a/..", Platform::Posix), None);
    assert_eq!(file_name(b"a/../", Platform::Posix), None);
}

#[test]
fn dotted_names_are_ordinary_names() {
    assert_eq!(file_name(b"/home/.bashrc", Platform::Posix), Some(b".bashrc".to_vec()));
    assert_eq!(file_name(b"...", Platform::Posix), Some(b"...".to_vec()));
    assert_eq!(file_name(b"..foo", Platform::Posix), Some(b"..foo".to_vec()));
}

#[test]
fn backslash_separates_only_on_windows() {
    assert_eq!(
        file_name(b"C:\\Users\\me\\notes.txt", Platform::Windows),
        Some(b"notes.txt".to_vec())
    );
    assert_eq!(file_name(b"a\\b", Platform::Posix), Some(b"a\\b".to_vec()));
    assert_eq!(file_name(b"a\\b", Platform::Apple), Some(b"a\\b".to_vec()));
}

#[test]
fn windows_accepts_both_separators() {
    assert_eq!(
        file_name(b"C:/Users/me\\notes.txt", Platform::Windows),
        Some(b"notes.txt".to_vec())
    );
    assert_eq!(file_name(b"dir\\sub/file", Platform::Windows), Some(b"file".to_vec()));
}

#[test]
fn windows_drive_prefix_is_no_component() {
    assert_eq!(prefix_len(b"C:\\x", Platform::Windows), 2);
    assert_eq!(file_name(b"C:\\", Platform::Windows), None);
    assert_eq!(file_name(b"C:", Platform::Windows), None);
    assert_eq!(file_name(b"c:\\", Platform::Windows), None);
    assert_eq!(file_name(b"C:foo", Platform::Windows), Some(b"foo".to_vec()));
    assert_eq!(file_name(b"C:\\..", Platform::Windows), None);
}

#[test]
fn windows_share_prefix_is_no_component() {
    assert_eq!(prefix_len(b"\\\\server\\share\\f", Platform::Windows), 14);
    assert_eq!(file_name(b"\\\\server\\share", Platform::Windows), None);
    assert_eq!(file_name(b"\\\\server\\share\\", Platform::Windows), None);
    assert_eq!(
        file_name(b"\\\\server\\share\\file.txt", Platform::Windows),
        Some(b"file.txt".to_vec())
    );
    assert_eq!(file_name(b"\\\\server", Platform::Windows), None);
    assert_eq!(file_name(b"\\\\?\\C:\\foo", Platform::Windows), Some(b"foo".to_vec()));
    assert_eq!(file_name(b"\\\\?\\C:\\", Platform::Windows), None);
}

#[test]
fn prefixes_mean_nothing_off_windows() {
    assert_eq!(prefix_len(b"C:\\x", Platform::Posix), 0);
    assert_eq!(file_name(b"C:", Platform::Posix), Some(b"C:".to_vec()));
    assert_eq!(file_name(b"//server/share", Platform::Posix), Some(b"share".to_vec()));
}

#[test]
fn fs_path_keeps_its_bytes() {
    let p = FsPath::new(b"/var/log".to_vec());
    assert_eq!(p.as_bytes(), b"/var/log");
    assert_eq!(p.file_name(Platform::Posix), Some(b"log".to_vec()));
}
