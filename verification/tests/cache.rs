use encoding_vfs_core::cache::EncodingCache;
use encoding_vfs_core::encoding::{gbk, utf_8};

#[test]
fn fresh_entry_within_ttl() {
    let c = EncodingCache::new(10, 60);
    assert_eq!(c.fresh_entry(gbk(), 0), Some(gbk()));
    assert_eq!(c.fresh_entry(gbk(), 59_999_999_999), Some(gbk()));
}

#[test]
fn fresh_entry_expired() {
    let c = EncodingCache::new(10, 60);
    assert_eq!(c.fresh_entry(gbk(), 60_000_000_000), None);
    assert_eq!(c.fresh_entry(gbk(), u128::MAX), None);
}

#[test]
fn zero_ttl_never_gives() {
    let mut c = EncodingCache::new(10, 0);
    assert_eq!(c.fresh_entry(utf_8(), 0), None);
    c.insert("/a/f.txt", utf_8());
    assert_eq!(c.entry_count(), 1);
    assert_eq!(c.get("/a/f.txt"), None);
}

#[test]
fn get_within_ttl_gives_inserted() {
    let mut c = EncodingCache::new(10, 3600);
    assert_eq!(c.get("/a/f.txt"), None);
    c.insert("/a/f.txt", gbk());
    assert_eq!(c.get("/a/f.txt"), Some(gbk()));
    assert_eq!(c.get("/a/g.txt"), None);
}

#[test]
fn spellings_of_one_path_share_an_entry() {
    let mut c = EncodingCache::new(10, 3600);
    c.insert("/a//f.txt", gbk());
    assert_eq!(c.get("/a/f.txt"), Some(gbk()));
    assert_eq!(c.get("/a/./f.txt"), Some(gbk()));
    c.insert("/a/f.txt/", utf_8());
    assert_eq!(c.entry_count(), 1);
    assert_eq!(c.get("/a//f.txt"), Some(utf_8()));
    c.invalidate("/a/./f.txt");
    assert_eq!(c.entry_count(), 0);
}
