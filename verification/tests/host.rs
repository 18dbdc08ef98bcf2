use encoding_vfs_core::error::VfsError;
use encoding_vfs_core::host::{
    create_is_dir, file_attributes, listing_start, open_check, resolve_path, FuseVfsHost,
    OpenRefusal,
};
use encoding_vfs_core::vfs::EncodingVfs;
use encoding_vfs_core::config::EncodingConfig;

fn vfs() -> EncodingVfs {
    EncodingVfs::new("/backend", EncodingConfig::defaults()).unwrap()
}

#[test]
fn handles_are_fresh_and_freed() {
    let mut host = FuseVfsHost::new(vfs());
    let a = host.alloc_fh("/backend/a.txt".to_string(), false);
    let b = host.alloc_fh("/backend/dir/b.txt".to_string(), false);
    assert_eq!(a, 1);
    assert_eq!(b, 2);
    assert_eq!(host.handle_path(a).unwrap(), "a.txt");
    assert_eq!(host.handle_path(b).unwrap(), "dir/b.txt");
    host.free_fh(a);
    match host.handle_path(a) {
        Err(VfsError::NotFound(m)) => assert_eq!(m, "file handle 1"),
        _ => panic!("freed handle must be unknown"),
    }
    let c = host.alloc_fh("/elsewhere/c".to_string(), false);
    assert_eq!(c, 3);
    assert_eq!(host.handle_path(c).unwrap(), "/elsewhere/c");
    assert_eq!(host.alloc_ino(), 2);
    assert_eq!(host.alloc_ino(), 3);
}

#[test]
fn winfsp_path_rules() {
    assert_eq!(resolve_path("/backend", "\\"), "/backend");
    assert_eq!(resolve_path("/backend", "\\\\dir\\f.txt"), "/backend/dir\\f.txt");
    assert_eq!(file_attributes(true), 0x10);
    assert_eq!(file_attributes(false), 0x80);
    assert_eq!(open_check(false, false, false, 0), Err(OpenRefusal::NotFound));
    assert_eq!(open_check(true, false, false, 1), Err(OpenRefusal::NotADirectory));
    assert_eq!(open_check(true, false, true, 0), Ok(()));
    assert_eq!(open_check(true, false, false, 0), Ok(()));
    assert!(create_is_dir(1, 0));
    assert!(create_is_dir(0, 0x10));
    assert!(!create_is_dir(0, 0x80));
}

#[test]
fn listing_resumes_after_marker() {
    let names: Vec<String> = vec!["a".into(), "b".into(), "c".into()];
    assert_eq!(listing_start(&names, None), (true, 0));
    assert_eq!(listing_start(&names, Some("b")), (false, 2));
    assert_eq!(listing_start(&names, Some("c")), (false, 3));
    assert_eq!(listing_start(&names, Some("zz")), (false, 3));
}

#[test]
fn hidden_files_do_not_open() {
    assert_eq!(open_check(true, true, false, 0), Err(OpenRefusal::NotFound));
    assert_eq!(open_check(true, true, true, 1), Err(OpenRefusal::NotFound));
}
