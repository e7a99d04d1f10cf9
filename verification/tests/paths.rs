use app_installer::paths::{extension_of_name, is_plain_file_name, join_with, main_separator, place_in};

#[test]
fn main_separator_is_the_platform_one() {
    assert_eq!(main_separator(), std::path::MAIN_SEPARATOR);
}

#[test]
fn join_with_adds_one_separator_where_needed() {
    assert_eq!(join_with("/data", "a.msi", '/'), "/data/a.msi");
    assert_eq!(join_with("/data/", "a.msi", '/'), "/data/a.msi");
    assert_eq!(join_with("", "a.msi", '/'), "a.msi");
    assert_eq!(join_with("C:\\Data", "a.msi", '\\'), "C:\\Data\\a.msi");
    assert_eq!(join_with("C:\\Data/", "a.msi", '\\'), "C:\\Data/a.msi");
    assert_eq!(join_with("C:", "a.msi", '\\'), "C:a.msi");
    assert_eq!(join_with("C:", "a.msi", '/'), "C:/a.msi");
    assert_eq!(join_with("dir\\", "a.msi", '/'), "dir\\/a.msi");
}

#[test]
fn place_in_agrees_with_path_join() {
    for base in ["/data", "/data/", "", "rel/dir", "a\\b"] {
        for name in ["Chrome Setup.msi", "x", "a.b.c"] {
            let expected = std::path::Path::new(base).join(name).to_string_lossy().into_owned();
            assert_eq!(place_in(base, name, main_separator()), expected);
        }
    }
}

#[test]
fn place_in_uses_the_standard_library_for_other_names() {
    let sep = main_separator();
    assert_eq!(place_in("/data", "sub/a.msi", sep), "/data/sub/a.msi");
    assert_eq!(place_in("/data", "/abs", sep), std::path::Path::new("/data").join("/abs").to_string_lossy());
}

#[test]
fn plain_file_names() {
    assert!(is_plain_file_name("Chrome Setup.msi"));
    assert!(is_plain_file_name("..."));
    assert!(!is_plain_file_name(""));
    assert!(!is_plain_file_name("."));
    assert!(!is_plain_file_name(".."));
    assert!(!is_plain_file_name("a/b"));
    assert!(!is_plain_file_name("a\\b"));
    assert!(!is_plain_file_name("C:x"));
}

#[test]
fn extensions_of_names() {
    assert_eq!(extension_of_name("Chrome Setup.msi"), Some("msi".to_string()));
    assert_eq!(extension_of_name("a.b.exe"), Some("exe".to_string()));
    assert_eq!(extension_of_name("a."), Some("".to_string()));
    assert_eq!(extension_of_name(".bashrc"), None);
    assert_eq!(extension_of_name("README"), None);
    for name in ["Chrome Setup.msi", "a.b.exe", "a.", ".bashrc", "README"] {
        let std_ext = std::path::Path::new(name).extension().map(|e| e.to_string_lossy().into_owned());
        assert_eq!(extension_of_name(name), std_ext);
    }
}
