use encoding_vfs_core::config::{Config, EncodingConfig};
use encoding_vfs_core::encoding::{gbk, utf_8};
use encoding_vfs_core::error::VfsError;
use encoding_vfs_core::filter::FilterConfig;
use encoding_vfs_core::vfs::{join_path, splice, DirEntry, EncodingStep, EncodingVfs};

fn config(source: &str) -> EncodingConfig {
    EncodingConfig {
        source_encoding: source.to_string(),
        target_encoding: "UTF-8".to_string(),
        default_encoding: "GBK".to_string(),
        auto_detect: true,
        detect_sample_bytes: 8192,
        cache_max_entries: 100,
        cache_ttl_seconds: 60,
        filter: None,
    }
}

fn resolve(vfs: &mut EncodingVfs, full: &str, content: &[u8]) -> encoding_vfs_core::encoding::TextEncoding {
    match vfs.read_encoding_step(full) {
        EncodingStep::Known(e) => e,
        EncodingStep::NeedSample { full_path, len } => {
            let sample = &content[..content.len().min(len)];
            vfs.finish_detection(&full_path, sample)
        }
    }
}

#[test]
fn test_read_gbk_file() {
    let gbk_bytes = b"\xC4\xE3\xBA\xC3\xCA\xC0\xBD\xE7";
    let mut vfs = EncodingVfs::new("/tmp/encoding_vfs_test", config("auto")).unwrap();
    let full = vfs.locate("test.txt").unwrap();
    assert_eq!(full, "/tmp/encoding_vfs_test/test.txt");
    let src = resolve(&mut vfs, &full, gbk_bytes);
    let (utf8_data, _) = vfs.convert_for_read("test.txt", gbk_bytes.to_vec(), src);
    let utf8_str = String::from_utf8(utf8_data).unwrap();
    assert_eq!(utf8_str, "你好世界");
}

#[test]
fn test_write_utf8_to_gbk() {
    let initial_gbk = b"\xC4\xE3";
    let mut vfs = EncodingVfs::new("/tmp/encoding_vfs_write_test", config("auto")).unwrap();
    let full = vfs.locate("write_test.txt").unwrap();
    let src = match vfs.write_encoding_step(&full, true) {
        EncodingStep::Known(e) => e,
        EncodingStep::NeedSample { full_path, len } => {
            vfs.finish_detection(&full_path, &initial_gbk[..initial_gbk.len().min(len)])
        }
    };
    let utf8_content = "你好，世界！";
    let (written, _) = vfs.encode_for_write("write_test.txt", 0, utf8_content.as_bytes(), src, &[]);
    assert!(written.len() > 0);
    let (decoded, _, _) = encoding_rs::GBK.decode(&written);
    assert_eq!(decoded, utf8_content);
}

#[test]
fn new_rejects_unknown_encodings() {
    let mut c = config("auto");
    c.default_encoding = "nope".to_string();
    match EncodingVfs::new(".", c) {
        Err(VfsError::Config(m)) => assert_eq!(m, "unsupported encoding: nope"),
        _ => panic!("expected a configuration error"),
    }
    let mut c = config("auto");
    c.target_encoding = "nada".to_string();
    match EncodingVfs::new(".", c) {
        Err(VfsError::Config(m)) => assert_eq!(m, "unsupported target encoding: nada"),
        _ => panic!("expected a configuration error"),
    }
    match EncodingVfs::new(".", config("zilch")) {
        Err(VfsError::Config(m)) => assert_eq!(m, "unsupported source encoding: zilch"),
        _ => panic!("expected a configuration error"),
    }
}

#[test]
fn new_picks_encodings() {
    let v = EncodingVfs::new("/b", config("AUTO")).unwrap();
    assert!(v.is_auto_source());
    assert_eq!(v.source_encoding, gbk());
    assert_eq!(v.target_encoding, utf_8());
    let v = EncodingVfs::new("/b", config("utf-8")).unwrap();
    assert!(!v.is_auto_source());
    assert_eq!(v.source_encoding, utf_8());
    match v.read_encoding_step("/b/x") {
        EncodingStep::Known(e) => assert_eq!(e, utf_8()),
        _ => panic!("fixed source needs no sample"),
    }
}

#[test]
fn git_is_hidden_by_default() {
    let v = EncodingVfs::new("/b", config("auto")).unwrap();
    assert!(matches!(v.locate(".git/HEAD"), Err(VfsError::NotFound(p)) if p == ".git/HEAD"));
    assert!(!v.path_exists(".git", true));
    assert!(!v.is_dir(".git", true));
    assert!(v.path_exists("src/main.cpp", true));
    assert!(!v.path_exists("src/main.cpp", false));
    assert!(v.is_dir("src", true));

    let mut c = config("auto");
    c.filter = Some(FilterConfig { rules: vec!["*.png".to_string()], hidden: vec!["*.log".to_string()] });
    let v = EncodingVfs::new("/b", c).unwrap();
    assert!(v.locate(".git/config").is_err());
    assert!(v.locate("build.log").is_err());
    assert!(v.locate("main.cpp").is_ok());
}

#[test]
fn passthrough_files_are_returned_raw() {
    let mut c = config("auto");
    c.filter = Some(FilterConfig { rules: vec!["*.bin".to_string()], hidden: vec![] });
    let v = EncodingVfs::new("/b", c).unwrap();
    let raw = vec![0xC4, 0xE3, 0xFF];
    assert_eq!(v.convert_for_read("a.bin", raw.clone(), gbk()), (raw.clone(), false));
    let (converted, errs) = v.convert_for_read("a.txt", raw.clone(), gbk());
    assert!(errs);
    assert_ne!(converted, raw);
}

#[test]
fn detection_is_cached() {
    let mut v = EncodingVfs::new("/b", config("auto")).unwrap();
    assert!(matches!(v.read_encoding_step("/b/f"), EncodingStep::NeedSample { len: 8192, .. }));
    let e = v.finish_detection("/b/f", b"ascii");
    assert_eq!(e, utf_8());
    assert_eq!(v.cache.entry_count(), 1);
    match v.read_encoding_step("/b/f") {
        EncodingStep::Known(k) => assert_eq!(k, utf_8()),
        _ => panic!("expected the cached encoding"),
    }
    v.cache.invalidate("/b/f");
    assert!(matches!(v.read_encoding_step("/b/f"), EncodingStep::NeedSample { .. }));
    assert_eq!(v.cache.entry_count(), 0);
}

#[test]
fn new_file_in_auto_mode_uses_default() {
    let v = EncodingVfs::new("/b", config("auto")).unwrap();
    match v.write_encoding_step("/b/new.txt", false) {
        EncodingStep::Known(e) => assert_eq!(e, gbk()),
        _ => panic!("a missing file needs no sample"),
    }
}

#[test]
fn splice_cases() {
    assert_eq!(splice(b"hello world", 6, b"there"), b"hello there".to_vec());
    assert_eq!(splice(b"hello world", 2, b"XY"), b"heXYo world".to_vec());
    assert_eq!(splice(b"abc", 5, b"Z"), b"abc  Z".to_vec());
    assert_eq!(splice(b"abc", 1, b"WXYZ"), b"aWXYZ".to_vec());
    assert_eq!(splice(b"", 0, b"new"), b"new".to_vec());
}

#[test]
fn write_at_offset_splices_target_text() {
    let v = EncodingVfs::new("/b", config("GBK")).unwrap();
    let backend = b"\xC4\xE3\xBA\xC3\xCA\xC0\xBD\xE7"; // "你好世界" in GBK
    // Replace the third character (bytes 6..9 of the UTF-8 view).
    let (stored, _) = v.encode_for_write("a.txt", 6, "大".as_bytes(), gbk(), backend);
    let (decoded, _, _) = encoding_rs::GBK.decode(&stored);
    assert_eq!(decoded, "你好大界");
}

#[test]
fn visible_entries_skip_hidden() {
    let v = EncodingVfs::new("/b", config("auto")).unwrap();
    let t = std::time::SystemTime::UNIX_EPOCH;
    let entries = vec![
        DirEntry { name: ".git".to_string(), is_dir: true, size: 0, modified: t },
        DirEntry { name: "src".to_string(), is_dir: true, size: 0, modified: t },
        DirEntry { name: "a.txt".to_string(), is_dir: false, size: 3, modified: t },
    ];
    let shown = v.visible_entries("", &entries);
    let names: Vec<&str> = shown.iter().map(|e| e.name.as_str()).collect();
    assert_eq!(names, vec!["src", "a.txt"]);
}

#[test]
fn converted_size_counts_target_bytes() {
    let v = EncodingVfs::new("/b", config("GBK")).unwrap();
    assert_eq!(v.converted_size(b"\xC4\xE3\xBA\xC3", gbk()), 6);
}

#[test]
fn join_follows_path_rules() {
    assert_eq!(join_path("/b", "x/y"), "/b/x/y");
    assert_eq!(join_path("/b/", "x"), "/b/x");
    assert_eq!(join_path("", "x"), "x");
    assert_eq!(join_path("/b", "/abs"), "/abs");
}

#[test]
fn default_config_values() {
    let c = Config::default_config();
    assert_eq!(c.backend.backend_dir, ".");
    assert_eq!(c.mount.drive_letter, Some('X'));
    assert_eq!(c.encoding.source_encoding, "auto");
    assert_eq!(c.encoding.detect_sample_bytes, 8192);
    assert_eq!(c.log.unwrap().level, "info");
}

#[test]
fn write_then_read_round_trips() {
    let v = EncodingVfs::new("/b", config("GBK")).unwrap();
    let (stored, _) = v.encode_for_write("main.c", 0, b"int main() {}", gbk(), &[]);
    assert_eq!(stored, b"int main() {}");
    let (read, errs) = v.convert_for_read("main.c", stored, gbk());
    assert!(!errs);
    assert_eq!(read, b"int main() {}");

    let text = "// 注释\nint x;";
    let (stored, errs) = v.encode_for_write("main.c", 0, text.as_bytes(), gbk(), &[]);
    assert!(!errs);
    let (read, errs) = v.convert_for_read("main.c", stored, gbk());
    assert!(!errs);
    assert_eq!(read, text.as_bytes());
}

#[test]
fn reads_at_offsets_count_in_the_converted_view() {
    let v = EncodingVfs::new("/b", config("GBK")).unwrap();
    let raw = b"\xC4\xE3\xBA\xC3".to_vec(); // "你好" in GBK
    let (part, errs) = v.read_view("a.txt", raw.clone(), gbk(), 3, 3);
    assert!(!errs);
    assert_eq!(part, vec![0xE5, 0xA5, 0xBD]);
    let (first, _) = v.read_view("a.txt", raw.clone(), gbk(), 0, 4);
    let (rest, _) = v.read_view("a.txt", raw.clone(), gbk(), 4, 100);
    let mut whole = first;
    whole.extend_from_slice(&rest);
    assert_eq!(whole, "你好".as_bytes());
    let (past, _) = v.read_view("a.txt", raw.clone(), gbk(), 10, 5);
    assert!(past.is_empty());
    assert_eq!(v.view_size("a.txt", &raw, gbk()), 6);
}

#[test]
fn passthrough_view_is_the_raw_content() {
    let mut c = config("GBK");
    c.filter = Some(FilterConfig { rules: vec!["*.bin".to_string()], hidden: vec![] });
    let v = EncodingVfs::new("/b", c).unwrap();
    let raw = b"\xC4\xE3\xBA\xC3".to_vec();
    assert_eq!(v.read_view("x.bin", raw.clone(), gbk(), 1, 2), (vec![0xE3, 0xBA], false));
    assert_eq!(v.view_size("x.bin", &raw, gbk()), 4);
    match v.view_encoding_step("x.bin", "/b/x.bin") {
        EncodingStep::Known(e) => assert_eq!(e, utf_8()),
        _ => panic!("a passthrough file needs no encoding"),
    }
}

#[test]
fn write_past_the_end_pads_the_view() {
    let v = EncodingVfs::new("/b", config("GBK")).unwrap();
    let backend = b"\xC4\xE3"; // "你" in GBK, 3 bytes in UTF-8
    let (stored, _) = v.encode_for_write("a.txt", 5, b"x", gbk(), backend);
    assert_eq!(stored, b"\xC4\xE3  x".to_vec());
}

#[test]
fn cache_keys_ignore_path_spelling() {
    let mut v = EncodingVfs::new("/b", config("auto")).unwrap();
    v.finish_detection("/b//f.txt", b"plain");
    assert_eq!(v.cache.entry_count(), 1);
    assert!(matches!(v.read_encoding_step("/b/./f.txt"), EncodingStep::Known(_)));
    v.cache.invalidate("/b/f.txt");
    assert_eq!(v.cache.entry_count(), 0);
}

#[test]
fn rule_lines_from_configuration_unhide_git_entries() {
    let mut c = config("GBK");
    c.filter = Some(FilterConfig { rules: vec![], hidden: vec!["!.git/config".to_string()] });
    let v = EncodingVfs::new("/b", c).unwrap();
    assert!(v.filter.is_hidden(".git/HEAD"));
    assert!(!v.filter.is_hidden(".git/config"));
}

#[test]
fn changed_file_forgets_its_encoding() {
    let mut v = EncodingVfs::new("/b", config("auto")).unwrap();
    v.finish_detection("/b/f.txt", b"plain");
    v.finish_detection("/b/g.txt", b"plain");
    v.file_changed("/b//f.txt");
    assert_eq!(v.cache.entry_count(), 1);
    assert!(matches!(v.read_encoding_step("/b/f.txt"), EncodingStep::NeedSample { .. }));
    assert!(matches!(v.read_encoding_step("/b/g.txt"), EncodingStep::Known(_)));
}

#[test]
fn utf8_file_round_trips_through_utf8_mount() {
    let v = EncodingVfs::new("/b", config("UTF-8")).unwrap();
    let text = "héllo, 世界\n";
    let (stored, errs) = v.encode_for_write("t.txt", 0, text.as_bytes(), utf_8(), &[]);
    assert!(!errs);
    assert_eq!(stored, text.as_bytes());
    let (read, errs) = v.read_view("t.txt", stored, utf_8(), 0, 1000);
    assert!(!errs);
    assert_eq!(read, text.as_bytes());
}
