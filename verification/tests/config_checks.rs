use sm::config::{Complier, Mode, Project, Target, is_cpp_source_ext};

fn project(cxx: &str, std: i64, wall: bool, ol: i8, mode: &str) -> Project {
    Project {
        target: Target {
            name: "demo".to_string(),
            inc: "inc".to_string(),
            src: "src".to_string(),
            entrance: "main.cpp".to_string(),
            mode: mode.to_string(),
            lib: "lib".to_string(),
            bin: "bin".to_string(),
        },
        complier: Complier {
            cxx: cxx.to_string(),
            std,
            wall,
            ol,
            link: Vec::new(),
            extra: Vec::new(),
        },
    }
}

#[test]
fn check_std_accepts_the_known_standards() {
    for std in [98, 11, 14, 17, 20] {
        assert!(project("g++", std, true, 1, "sta").check_std());
    }
}

#[test]
fn check_std_rejects_unknown_standards() {
    for std in [99, 0, -11, 2011, 21] {
        assert!(!project("g++", std, true, 1, "sta").check_std());
    }
}

#[test]
fn check_ol_accepts_levels_zero_to_three() {
    for ol in 0..=3 {
        assert!(project("g++", 11, true, ol, "sta").check_ol());
    }
}

#[test]
fn check_ol_rejects_levels_outside_the_range() {
    for ol in [-1, 4, 9] {
        assert!(!project("g++", 11, true, ol, "sta").check_ol());
    }
}

#[test]
fn check_complier_accepts_gcc_and_clang() {
    assert!(project("g++", 11, true, 1, "sta").check_complier());
    assert!(project("clang++", 11, true, 1, "sta").check_complier());
}

#[test]
fn check_complier_rejects_other_names() {
    assert!(!project("cc", 11, true, 1, "sta").check_complier());
    assert!(!project("", 11, true, 1, "sta").check_complier());
    assert!(!project("G++", 11, true, 1, "sta").check_complier());
}

#[test]
fn get_mode_maps_the_mode_strings() {
    assert!(matches!(project("g++", 11, true, 1, "sta").get_mode(), Mode::Static));
    assert!(matches!(project("g++", 11, true, 1, "dyn").get_mode(), Mode::Dynamic));
    assert!(matches!(project("g++", 11, true, 1, "static").get_mode(), Mode::Invalid));
    assert!(matches!(project("g++", 11, true, 1, "").get_mode(), Mode::Invalid));
}

#[test]
fn recognized_source_extensions() {
    assert!(is_cpp_source_ext(&"cxx".to_string()));
    assert!(is_cpp_source_ext(&"cpp".to_string()));
    assert!(is_cpp_source_ext(&"hpp".to_string()));
    assert!(!is_cpp_source_ext(&"c".to_string()));
    assert!(!is_cpp_source_ext(&"h".to_string()));
    assert!(!is_cpp_source_ext(&"CPP".to_string()));
    assert!(!is_cpp_source_ext(&"".to_string()));
}
