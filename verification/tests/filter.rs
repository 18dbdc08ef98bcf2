use encoding_vfs_core::filter::VfsFilter;

fn make_filter(rules: &[&str]) -> VfsFilter {
    let string_rules: Vec<String> = rules.iter().map(|s| s.to_string()).collect();
    VfsFilter::new(&string_rules, &[])
}

fn make_filter_with_hidden(rules: &[&str], hidden: &[&str]) -> VfsFilter {
    let string_rules: Vec<String> = rules.iter().map(|s| s.to_string()).collect();
    let hidden_rules: Vec<String> = hidden.iter().map(|s| s.to_string()).collect();
    VfsFilter::new(&string_rules, &hidden_rules)
}

#[test]
fn test_basic_passthrough() {
    let f = make_filter(&["*.png"]);
    assert!(f.is_passthrough("photo.png"));
    assert!(f.is_passthrough("icons/icon.png"));
    assert!(!f.is_passthrough("readme.md"));
}

#[test]
fn test_negation() {
    let f = make_filter(&["*.png", "!logo.png"]);
    assert!(f.is_passthrough("photo.png"));
    assert!(f.is_passthrough("icons/icon.png"));
    assert!(!f.is_passthrough("logo.png"));
}

#[test]
fn test_negation_before_positive() {
    let f = make_filter(&["*.png", "!logo.png", "logo.png"]);
    assert!(f.is_passthrough("logo.png"));
}

#[test]
fn test_multiple() {
    let f = make_filter(&["*.png", "*.exe"]);
    assert!(f.is_passthrough("image.png"));
    assert!(f.is_passthrough("setup.exe"));
    assert!(!f.is_passthrough("data.txt"));
}

#[test]
fn test_directory() {
    let f = make_filter(&["assets/"]);
    assert!(f.is_passthrough("assets/logo.png"));
    assert!(f.is_passthrough("assets/sub/photo.jpg"));
    assert!(!f.is_passthrough("myassets/file.txt"));
}

#[test]
fn test_empty_filter() {
    let f = make_filter(&[]);
    assert!(!f.is_passthrough("anything.txt"));
}

#[test]
fn test_double_star_matches_all() {
    let f = make_filter(&["**"]);
    assert!(f.is_passthrough("main.cpp"));
    assert!(f.is_passthrough("src/main.cpp"));
    assert!(f.is_passthrough("a/b/c/d.txt"));
}

#[test]
fn test_double_star_with_negation() {
    let f = make_filter(&["**", "!*.h", "!*.cpp"]);
    assert!(!f.is_passthrough("main.cpp"));
    assert!(!f.is_passthrough("src/main.cpp"));
    assert!(!f.is_passthrough("src/header.h"));
    assert!(f.is_passthrough("data.xml"));
    assert!(f.is_passthrough("src/data.xml"));
    assert!(f.is_passthrough(".git/HEAD"));
}

#[test]
fn test_hidden_basic() {
    let f = make_filter_with_hidden(&[], &[".git/"]);
    assert!(f.is_hidden(".git"));
    assert!(f.is_hidden(".git/HEAD"));
    assert!(f.is_hidden(".git/config"));
    assert!(!f.is_hidden("src"));
    assert!(!f.is_hidden("README.md"));
}

#[test]
fn test_hidden_multiple() {
    let f = make_filter_with_hidden(&[], &[".git/", "*.tmp"]);
    assert!(f.is_hidden(".git"));
    assert!(f.is_hidden(".git/HEAD"));
    assert!(f.is_hidden("cache.tmp"));
    assert!(f.is_hidden("build/output.tmp"));
    assert!(!f.is_hidden("src"));
    assert!(!f.is_hidden("main.cpp"));
}

#[test]
fn backslashes_count_as_separators() {
    let f = make_filter_with_hidden(&["assets/"], &[".git/"]);
    assert!(f.is_passthrough("assets\\logo.png"));
    assert!(f.is_hidden(".git\\HEAD"));
}

#[test]
fn negated_hidden_rule_unhides() {
    let f = make_filter_with_hidden(&[], &["*.tmp", "!keep.tmp"]);
    assert!(!f.is_hidden("keep.tmp"));
    assert!(f.is_hidden("other.tmp"));
    assert!(!f.is_hidden("keep.txt"));
    let g = make_filter_with_hidden(&[], &[".git/", "!.git/config"]);
    assert!(!g.is_hidden(".git/config"));
    assert!(g.is_hidden(".git/HEAD"));
    assert!(g.is_hidden(".git"));
    let h = make_filter_with_hidden(&[], &["!keep.tmp", "*.tmp"]);
    assert!(h.is_hidden("keep.tmp"));
}

#[test]
fn negation_is_trimmed() {
    let f = make_filter(&["*.png", "!  logo.png  "]);
    assert!(!f.is_passthrough("logo.png"));
    assert!(f.is_passthrough("other.png"));
}

#[test]
fn invalid_glob_is_dropped() {
    // An unclosed class is refused by globset; the rule is skipped.
    let f = make_filter(&["[abc", "*.txt"]);
    assert!(f.is_passthrough("a.txt"));
    assert!(!f.is_passthrough("[abc"));
}

#[test]
fn trailing_slashes_collapse() {
    let f = make_filter(&["build//"]);
    assert!(f.is_passthrough("build"));
    assert!(f.is_passthrough("build/out.o"));
}

#[test]
fn deeply_nested_pattern_is_dropped() {
    let deep = format!("{}a{}", "{".repeat(300), "}".repeat(300));
    let f = make_filter_with_hidden(&[deep.as_str(), "*.png"], &[]);
    assert!(f.is_passthrough("x.png"));
    assert!(!f.is_passthrough("a"));
}
