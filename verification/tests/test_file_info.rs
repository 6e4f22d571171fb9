//! Tests for the FileInfo struct.

use p2p_core::FileInfo;
use std::path::PathBuf;

#[test]
fn test_file_info_creation() {
    let file_info = FileInfo {
        file_name: "document.pdf".to_string(),
        file_size: 1024 * 1024,
        file_path: PathBuf::from("/home/user/document.pdf"),
    };

    assert_eq!(file_info.file_name, "document.pdf");
    assert_eq!(file_info.file_size, 1024 * 1024);
    assert_eq!(file_info.file_path, PathBuf::from("/home/user/document.pdf"));
}

#[test]
fn test_file_info_clone() {
    let source = FileInfo {
        file_name: "clone_test.dat".to_string(),
        file_size: 999,
        file_path: PathBuf::from("/tmp/clone_test.dat"),
    };

    let cloned = source.clone();

    assert_eq!(cloned.file_name, source.file_name);
    assert_eq!(cloned.file_size, source.file_size);
    assert_eq!(cloned.file_path, source.file_path);
}
