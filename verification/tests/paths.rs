use avalanche_installer::avalanchego::{get_plugin_dir, get_plugins_dir};
use avalanche_installer::path::{extract_filename, file_stem, join, names_a_file, parent_dir};
use std::path::Path;

/// Every text of at most `max_len` characters out of `alphabet`.
fn texts(alphabet: &[char], max_len: usize) -> Vec<String> {
    let mut all = vec![String::new()];
    let mut last = vec![String::new()];
    for _ in 0..max_len {
        let mut next = Vec::new();
        for text in &last {
            for c in alphabet {
                let mut longer = text.clone();
                longer.push(*c);
                next.push(longer);
            }
        }
        all.extend(next.iter().cloned());
        last = next;
    }
    all
}

fn std_stem(path: &str) -> Option<String> {
    Path::new(path).file_stem().map(|stem| String::from(stem.to_str().unwrap()))
}

fn std_parent(path: &str) -> Option<String> {
    Path::new(path).parent().map(|parent| String::from(parent.to_str().unwrap()))
}

fn std_join(base: &str, name: &str) -> String {
    String::from(Path::new(base).join(name).to_str().unwrap())
}

#[test]
fn extract_filename_strips_directories_and_extension() {
    assert_eq!(extract_filename("a/b/c/hello.zstd"), "hello");
    assert_eq!(extract_filename("prefix/plugin/evm.zst"), "evm");
    assert_eq!(extract_filename("evm"), "evm");
    assert_eq!(extract_filename("/evm.tar.gz"), "evm.tar");
}

#[test]
fn extract_filename_sets_aside_what_does_not_count() {
    assert_eq!(extract_filename("prefix/plugin"), "plugin");
    assert_eq!(extract_filename("prefix/plugin/"), "plugin");
    assert_eq!(extract_filename("prefix/plugin///"), "plugin");
    assert_eq!(extract_filename("a//b.zst"), "b");
    assert_eq!(extract_filename("b/."), "b");
    assert_eq!(extract_filename("a/b.zst/./"), "b");
    assert_eq!(extract_filename("a/b.zst/.//."), "b");
    assert_eq!(extract_filename("./a"), "a");
    assert_eq!(extract_filename("a/.b"), ".b");
    assert_eq!(extract_filename("a/..b"), ".");
    assert_eq!(extract_filename("a/..."), "..");
}

#[test]
fn file_stem_keeps_names_without_extension() {
    assert_eq!(file_stem("evm"), "evm");
    assert_eq!(file_stem(".hidden"), ".hidden");
    assert_eq!(file_stem(".."), "..");
    assert_eq!(file_stem("."), ".");
    assert_eq!(file_stem(""), "");
    assert_eq!(file_stem("a."), "a");
    assert_eq!(file_stem("a.b.c"), "a.b");
    assert_eq!(file_stem(".a.b"), ".a");
}

#[test]
fn paths_without_a_file_name_are_told() {
    for path in ["", "/", "///", ".", "./", "/.", "./.", "..", "a/..", "a/../", "a/.././", "../.."] {
        assert!(!names_a_file(path), "{}", path);
    }
    for path in ["a", "/a/", "a/.", "./a", "..a", "a..", "...", "a/../b", ".a"] {
        assert!(names_a_file(path), "{}", path);
    }
}

#[test]
fn file_names_are_those_of_std_on_every_short_path() {
    for path in texts(&['/', '.', 'a', 'b'], 7) {
        assert_eq!(names_a_file(&path), Path::new(&path).file_name().is_some(), "{}", path);
        if names_a_file(&path) {
            assert_eq!(Some(extract_filename(&path)), std_stem(&path), "{}", path);
        }
    }
}

#[test]
fn file_names_are_those_of_std_on_keys() {
    for key in [
        "a/b/c/hello.zstd",
        "bootstrap/install/plugin/evm.zst",
        "bootstrap/install/plugin/",
        "bootstrap/install/plugin",
        "x.tar.gz",
        "dir/.hidden",
        "dir/name.",
        "/rooted/file.bin",
        "unicode/\u{e9}t\u{e9}.zst",
        "dir/sub/./",
        "./dir/./file.tar.zst/.",
    ] {
        assert_eq!(Some(extract_filename(key)), std_stem(key), "{}", key);
    }
}

#[test]
fn parent_dir_drops_the_last_component() {
    assert_eq!(parent_dir("build/avalanchego"), Some(String::from("build")));
    assert_eq!(parent_dir("/tmp/x/build/avalanchego"), Some(String::from("/tmp/x/build")));
    assert_eq!(parent_dir("a/b/"), Some(String::from("a")));
    assert_eq!(parent_dir("a//b"), Some(String::from("a")));
    assert_eq!(parent_dir("a/./b"), Some(String::from("a")));
    assert_eq!(parent_dir("avalanchego"), Some(String::new()));
    assert_eq!(parent_dir("/avalanchego"), Some(String::from("/")));
    assert_eq!(parent_dir("//avalanchego"), Some(String::from("/")));
    assert_eq!(parent_dir("./avalanchego"), Some(String::from(".")));
    assert_eq!(parent_dir("b/."), Some(String::new()));
    assert_eq!(parent_dir("a/b/."), Some(String::from("a")));
    assert_eq!(parent_dir("a/.."), Some(String::from("a")));
    assert_eq!(parent_dir(".."), Some(String::new()));
    assert_eq!(parent_dir("."), Some(String::new()));
    assert_eq!(parent_dir("./"), Some(String::new()));
}

#[test]
fn root_and_empty_path_have_no_parent() {
    assert_eq!(parent_dir(""), None);
    assert_eq!(parent_dir("/"), None);
    assert_eq!(parent_dir("//"), None);
    assert_eq!(parent_dir("/."), None);
    assert_eq!(parent_dir("/./"), None);
}

#[test]
fn parents_are_those_of_std_on_every_short_path() {
    for path in texts(&['/', '.', 'a', 'b'], 7) {
        assert_eq!(parent_dir(&path), std_parent(&path), "{}", path);
    }
}

#[test]
fn join_puts_one_separator_between() {
    assert_eq!(join("/tmp/x", "build"), "/tmp/x/build");
    assert_eq!(join("/tmp/x/", "build"), "/tmp/x/build");
    assert_eq!(join("", "build"), "build");
    assert_eq!(join("/", "build"), "/build");
    assert_eq!(join("a", ""), "a/");
    assert_eq!(join("a//", "b"), "a//b");
}

#[test]
fn join_lets_a_rooted_name_stand_for_itself() {
    assert_eq!(join("/tmp/x", "/build"), "/build");
    assert_eq!(join("", "/"), "/");
    assert_eq!(join("a/", "//b"), "//b");
}

#[test]
fn joined_paths_are_those_of_std_on_every_short_pair() {
    let names = texts(&['/', '.', 'a'], 3);
    for base in texts(&['/', '.', 'a'], 4) {
        for name in &names {
            assert_eq!(join(&base, name), std_join(&base, name), "{} {}", base, name);
        }
    }
}

#[test]
fn plugin_dir_lies_beside_the_binary() {
    assert_eq!(get_plugin_dir("build/avalanchego"), "build/plugins");
    assert_eq!(get_plugins_dir("build/avalanchego"), "build/plugins");
    assert_eq!(
        get_plugin_dir("/tmp/x/avalanchego-v1.9.16/avalanchego"),
        "/tmp/x/avalanchego-v1.9.16/plugins"
    );
    assert_eq!(get_plugin_dir("avalanchego"), "plugins");
    assert_eq!(get_plugins_dir("/avalanchego"), "/plugins");
    assert_eq!(get_plugins_dir("b/."), "plugins");
    assert_eq!(get_plugin_dir("./avalanchego"), "./plugins");
    assert_eq!(get_plugin_dir("build/a"), get_plugin_dir("build/b"));
}

#[test]
fn plugin_dirs_are_those_of_std_on_every_short_path() {
    for path in texts(&['/', '.', 'a', 'b'], 7) {
        if let Some(parent) = std_parent(&path) {
            let expected = std_join(&parent, "plugins");
            assert_eq!(get_plugin_dir(&path), expected, "{}", path);
            assert_eq!(get_plugins_dir(&path), expected, "{}", path);
        }
    }
}
