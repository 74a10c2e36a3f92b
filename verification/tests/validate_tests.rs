use entitan::validate::{any_path_matches, extension_matches, is_file_with_ext};

#[test]
fn the_extension_decides() {
    assert!(is_file_with_ext("C:/Games/WoW/Wow.exe", true, "exe"));
    assert!(is_file_with_ext("Config.wtf", true, "wtf"));
    assert!(!is_file_with_ext("Config.wtf", true, "exe"));
    assert!(!is_file_with_ext("Wow.exe", true, "wtf"));
    assert!(!is_file_with_ext("Wow.exe.bak", true, "exe"));
    assert!(is_file_with_ext("archive.tar.exe", true, "exe"));
}

#[test]
fn letter_case_does_not_matter() {
    assert!(is_file_with_ext("WOW.EXE", true, "exe"));
    assert!(is_file_with_ext("wow.Exe", true, "EXE"));
    assert!(is_file_with_ext("Config.WTF", true, "wtf"));
}

#[test]
fn without_a_regular_file_the_answer_is_no() {
    assert!(!is_file_with_ext("Wow.exe", false, "exe"));
    assert!(!is_file_with_ext("", false, "exe"));
}

#[test]
fn without_an_extension_the_answer_is_no() {
    assert!(!is_file_with_ext("Wow", true, "exe"));
    assert!(!is_file_with_ext("exe", true, "exe"));
    assert!(!is_file_with_ext(".exe", true, "exe"));
    assert!(!is_file_with_ext("dir.exe/Wow", true, "exe"));
    assert!(!is_file_with_ext("", true, "exe"));
    assert!(!is_file_with_ext("Wow.", true, "exe"));
    assert!(is_file_with_ext("Wow.", true, ""));
}

#[test]
fn an_extension_is_compared_letter_case_aside() {
    assert!(extension_matches(&Some("exe".to_string()), "EXE"));
    assert!(extension_matches(&Some("".to_string()), ""));
    assert!(!extension_matches(&Some("ex".to_string()), "exe"));
    assert!(!extension_matches(&None, "exe"));
    assert!(!extension_matches(&None, ""));
}

#[test]
fn a_path_is_found_among_the_paths() {
    let paths = vec!["/tmp/other".to_string(), "/games/WTF/Config.wtf".to_string()];
    assert!(any_path_matches("/games/WTF/Config.wtf", &paths));
    assert!(!any_path_matches("/games/WTF/config.bak", &paths));
    assert!(!any_path_matches("/games/WTF", &paths));
    assert!(!any_path_matches("/games/WTF/Config.wtf", &Vec::new()));
}

#[test]
fn an_empty_path_is_never_found() {
    assert!(!any_path_matches("", &vec![String::new()]));
    assert!(!any_path_matches("", &vec!["a".to_string()]));
}

#[test]
fn paths_are_compared_component_by_component() {
    let paths = vec!["/games//WTF/./Config.wtf".to_string()];
    assert!(any_path_matches("/games/WTF/Config.wtf", &paths));
    assert!(!any_path_matches("/games/WTF/Config.wtf", &vec!["Config.wtf".to_string()]));
}

#[test]
fn only_a_path_that_is_the_same_counts() {
    let others = vec![
        "/games/WTF/Config.wtf.bak".to_string(),
        "/games/WTF".to_string(),
        "/games/WTF/config.wtf.tmp".to_string(),
        "".to_string(),
    ];
    assert!(!any_path_matches("/games/WTF/Config.wtf", &others));
    let mut with = others.clone();
    with.push("/games/WTF/Config.wtf".to_string());
    assert!(any_path_matches("/games/WTF/Config.wtf", &with));
}
