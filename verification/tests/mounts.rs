use encoding_vfs_core::git::{
    first_real_git, first_real_line, git_exe_name, normalize_path, normalize_strip_prefix, source_path, strip_prefix,
    which_paths, GitCandidate,
};
use encoding_vfs_core::mounts::{output_mentions_pid, proc_path, MountInfo, MountsRegistry};

fn info(mp: &str, src: &str, pid: u32) -> MountInfo {
    MountInfo { mount_point: mp.to_string(), source: src.to_string(), pid }
}

#[test]
fn test_find_by_path_windows() {
    let registry = MountsRegistry::from_mounts(vec![info("Y:", "C:\\projects\\test", 12345)]);

    let result = registry.find_by_path("Y:\\Some\\Path");
    assert!(result.is_some());
    assert_eq!(result.unwrap().source, "C:\\projects\\test");

    let result = registry.find_by_path("C:\\Users");
    assert!(result.is_none());
}

#[test]
fn test_find_by_path_linux() {
    let registry = MountsRegistry::from_mounts(vec![info("/mnt/vfs", "/home/user/project", 12345)]);

    let result = registry.find_by_path("/mnt/vfs/some/path");
    assert!(result.is_some());
    assert_eq!(result.unwrap().source, "/home/user/project");

    let result = registry.find_by_path("/home/other");
    assert!(result.is_none());
}

#[test]
fn find_prefers_longest_mount_point() {
    let registry = MountsRegistry::from_mounts(vec![
        info("/mnt", "/a", 1),
        info("/mnt/vfs", "/b", 2),
        info("/mnt/v", "/c", 3),
    ]);
    assert_eq!(registry.find_by_path("/mnt/vfs/x").unwrap().source, "/b");
    assert_eq!(registry.find_by_path("/mnt/other").unwrap().source, "/a");
}

#[test]
fn find_first_among_equally_long() {
    let registry = MountsRegistry::from_mounts(vec![info("/m1", "/first", 1), info("/m1", "/second", 2)]);
    assert_eq!(registry.find_by_path("/m1/x").unwrap().source, "/first");
}

#[test]
fn find_ignoring_case() {
    let registry = MountsRegistry::from_mounts(vec![info("y:", "C:\\p", 1)]);
    assert!(registry.find_by_path("Y:\\dir").is_none());
    assert_eq!(registry.find_by_path_ignoring_case("Y:\\dir").unwrap().source, "C:\\p");
}

#[test]
fn register_replaces_same_mount_point() {
    let mut registry = MountsRegistry::new();
    registry.register(info("Y:", "C:\\one", 1));
    registry.register(info("Z:", "C:\\two", 2));
    registry.register(info("Y:", "C:\\three", 3));
    let ms = registry.mounts();
    assert_eq!(ms.len(), 2);
    assert_eq!(ms[0].mount_point, "Z:");
    assert_eq!(ms[1].mount_point, "Y:");
    assert_eq!(ms[1].source, "C:\\three");
}

#[test]
fn unregister_removes_mount_point() {
    let mut registry = MountsRegistry::new();
    registry.register(info("Y:", "C:\\one", 1));
    registry.register(info("Z:", "C:\\two", 2));
    registry.unregister("Y:");
    let ms = registry.mounts();
    assert_eq!(ms.len(), 1);
    assert_eq!(ms[0].mount_point, "Z:");
    registry.unregister("nothing");
    assert_eq!(registry.mounts().len(), 1);
}

#[test]
fn retain_where_keeps_flagged() {
    let mut registry = MountsRegistry::from_mounts(vec![info("a", "1", 1), info("b", "2", 2), info("c", "3", 3)]);
    registry.retain_where(&vec![true, false, true]);
    let ms = registry.mounts();
    assert_eq!(ms.len(), 2);
    assert_eq!(ms[0].mount_point, "a");
    assert_eq!(ms[1].mount_point, "c");
}

#[test]
fn cleanup_keeps_own_process() {
    let own = 1; // the init process always exists
    let mut registry = MountsRegistry::from_mounts(vec![info("/mnt/a", "/src", own), info("/mnt/b", "/src2", u32::MAX)]);
    registry.cleanup_stale(true);
    let ms = registry.mounts();
    assert_eq!(ms.len(), 1);
    assert_eq!(ms[0].mount_point, "/mnt/a");
}

#[test]
fn strip_prefix_by_components() {
    assert_eq!(strip_prefix("/mnt/vfs/some/path", "/mnt/vfs", false), Some("some/path".to_string()));
    assert_eq!(strip_prefix("/mnt/vfs", "/mnt/vfs", false), Some(String::new()));
    assert_eq!(strip_prefix("/mnt/vfsx", "/mnt/vfs", false), None);
    assert_eq!(strip_prefix("/mnt//vfs/./a/", "/mnt/vfs/", false), Some("a".to_string()));
    assert_eq!(strip_prefix("/a", "", false), Some("/a".to_string()));
    assert_eq!(strip_prefix("a/b", "/a", false), None);
}

#[test]
fn normalize_strip_prefix_windows_rules() {
    assert_eq!(normalize_strip_prefix("Y:\\/dir", "Y:", false), None);
    assert_eq!(normalize_strip_prefix("Y:\\/dir", "Y:", true), Some("dir".to_string()));
    assert_eq!(normalize_strip_prefix("Y:/dir", "Y:\\", true), Some("dir".to_string()));
}

#[test]
fn source_path_maps_back() {
    let m = info("/mnt/vfs", "/home/user/project", 1);
    assert_eq!(source_path(&m, "/mnt/vfs", false), Some("/home/user/project".to_string()));
    assert_eq!(source_path(&m, "/mnt/vfs/src/core", false), Some("/home/user/project/src/core".to_string()));
    assert_eq!(source_path(&m, "/elsewhere", false), None);
}

#[test]
fn mount_point_matches_whole_components() {
    let registry = MountsRegistry::from_mounts(vec![info("/mnt/vfs", "/home/user/project", 12345)]);
    assert!(registry.find_by_path("/mnt/vfs2/x").is_none());
    assert!(registry.find_by_path("/mnt/vfsx").is_none());
    assert_eq!(registry.find_by_path("/mnt/vfs").unwrap().source, "/home/user/project");
    assert_eq!(registry.find_by_path("/mnt/vfs/").unwrap().source, "/home/user/project");
    let root = MountsRegistry::from_mounts(vec![info("/", "/src", 1)]);
    assert_eq!(root.find_by_path("/anything").unwrap().source, "/src");
    let drive = MountsRegistry::from_mounts(vec![info("Y:", "C:\\p", 1)]);
    assert_eq!(drive.find_by_path("Y:").unwrap().source, "C:\\p");
    assert!(drive.find_by_path("Y:x").is_none());
}

#[test]
fn windows_drive_prefix_is_stripped() {
    assert_eq!(normalize_strip_prefix("Y:\\src\\a", "Y:", true), Some("src\\a".to_string()));
    assert_eq!(normalize_strip_prefix("Y:\\src\\a", "Y:\\", true), Some("src\\a".to_string()));
    assert_eq!(strip_prefix("Y:\\src\\a", "Y:", true), Some("src\\a".to_string()));
    assert_eq!(strip_prefix("Y:\\src\\a", "Y:", false), None);
    assert_eq!(normalize_strip_prefix("Y:\\", "Y:", true), Some(String::new()));
    let m = info("Y:", "C:\\projects\\test", 1);
    assert_eq!(source_path(&m, "Y:\\", true), Some("C:\\projects\\test".to_string()));
    assert_eq!(source_path(&m, "Y:\\src", true), Some("C:\\projects\\test/src".to_string()));
}

#[test]
fn normalized_paths_drop_redundant_parts() {
    assert_eq!(normalize_path("/b//f", false), "/b/f");
    assert_eq!(normalize_path("/b/./f/", false), "/b/f");
    assert_eq!(normalize_path("a\\b", true), "a\\b");
    assert_eq!(normalize_path("a/b", true), "a\\b");
}

#[test]
fn proc_path_names_the_process_directory() {
    assert_eq!(proc_path(123), "/proc/123");
    assert_eq!(proc_path(0), "/proc/0");
}

#[test]
fn cleanup_without_proc_keeps_everything() {
    let mut registry = MountsRegistry::from_mounts(vec![info("/mnt/a", "/src", 1), info("/mnt/b", "/src2", u32::MAX)]);
    registry.cleanup_stale(false);
    assert_eq!(registry.mounts().len(), 2);
}

#[test]
fn cleanup_with_process_listings() {
    let mut registry = MountsRegistry::from_mounts(vec![
        info("Y:", "C:\\a", 1234),
        info("Z:", "C:\\b", 99),
        info("W:", "C:\\c", 7),
    ]);
    let listings = vec![
        "git-wrapper.exe   1234 Console   1   5,000 K\r\n".to_string(),
        "INFO: No tasks are running which match the specified criteria.\r\n".to_string(),
        String::new(),
    ];
    registry.cleanup_with_listings(&listings);
    let ms = registry.mounts();
    assert_eq!(ms.len(), 1);
    assert_eq!(ms[0].mount_point, "Y:");
}

#[test]
fn process_id_in_listing() {
    assert!(output_mentions_pid("x 1234 y", 1234));
    assert!(output_mentions_pid("1234", 1234));
    assert!(!output_mentions_pid("123", 1234));
    assert!(!output_mentions_pid("", 0));
    assert!(output_mentions_pid("12345", 234));
}

fn cand(dir: &str, is_file: bool, real: Option<&str>) -> GitCandidate {
    GitCandidate {
        dir: dir.to_string(),
        path: format!("{}/git", dir),
        is_file,
        resolved: real.map(|r| r.to_string()),
    }
}

#[test]
fn real_git_on_path() {
    let wrapper_real = Some("/opt/wrapper/git".to_string());
    let cands = vec![
        cand("/opt/wrapper", true, Some("/usr/bin/git")),
        cand("/usr/local/bin", false, None),
        cand("/home/u/bin", true, Some("/opt/wrapper/git")),
        cand("/usr/bin", true, Some("/usr/bin/git")),
        cand("/bin", true, Some("/bin/git")),
    ];
    assert_eq!(first_real_git(&cands, "/opt/wrapper", &wrapper_real, false), Some(3));
    assert_eq!(first_real_git(&cands, "/opt//wrapper/", &wrapper_real, false), Some(3));
    assert_eq!(first_real_git(&cands[..3], "/opt/wrapper", &wrapper_real, false), None);
    let unresolved = vec![cand("/usr/bin", true, None)];
    assert_eq!(first_real_git(&unresolved, "/opt/wrapper", &wrapper_real, false), Some(0));
    assert_eq!(first_real_git(&cands[2..3], "/opt/wrapper", &None, false), Some(0));
}

#[test]
fn real_git_from_which_output() {
    let printed = which_paths("  /opt/wrapper/git \r\n\n/usr/bin/git\n");
    assert_eq!(printed, vec!["/opt/wrapper/git".to_string(), String::new(), "/usr/bin/git".to_string()]);
    let wrapper_real = Some("/opt/wrapper/git".to_string());
    let reals = vec![Some("/opt/wrapper/git".to_string()), None, Some("/usr/bin/git".to_string())];
    assert_eq!(first_real_line(&reals, &wrapper_real), Some(2));
    assert_eq!(first_real_line(&reals[..2], &wrapper_real), None);
    assert_eq!(first_real_line(&reals[..1], &None), Some(0));
    assert_eq!(which_paths(""), Vec::<String>::new());
    assert_eq!(which_paths("a"), vec!["a".to_string()]);
    assert_eq!(git_exe_name(true), "git.exe");
    assert_eq!(git_exe_name(false), "git");
}
