use sm::command::{AllCommand, ConfigError, OneLineCommand};
use sm::config::{Complier, Project, Target};

fn project(mode: &str, wall: bool, link: Vec<&str>, extra: Vec<&str>) -> Project {
    Project {
        target: Target {
            name: "demo".to_string(),
            inc: "inc".to_string(),
            src: "src".to_string(),
            entrance: "main.cpp".to_string(),
            mode: mode.to_string(),
            lib: "lib".to_string(),
            bin: "bin".to_string(),
        },
        complier: Complier {
            cxx: "g++".to_string(),
            std: 11,
            wall,
            ol: 1,
            link: link.into_iter().map(|s| s.to_string()).collect(),
            extra: extra.into_iter().map(|s| s.to_string()).collect(),
        },
    }
}

fn two_sources() -> Vec<String> {
    vec!["a.cpp".to_string(), "b.cpp".to_string()]
}

#[test]
fn static_pipeline_scenario() {
    let p = project("sta", true, vec![], vec![]);
    let ac = AllCommand::new(&p, &two_sources(), &"/w".to_string()).unwrap();
    assert_eq!(ac.obj_cmds.len(), 2);
    assert_eq!(ac.obj_cmds[0].meta_data, "g++ -std=c++11 -O1 -c a.cpp -o /w/.sm/0.o -Wall");
    assert_eq!(ac.obj_cmds[1].meta_data, "g++ -std=c++11 -O1 -c b.cpp -o /w/.sm/1.o -Wall");
    assert_eq!(ac.lib_cmd.meta_data, "ar rcs /w/lib/libdemo.a /w/.sm/0.o /w/.sm/1.o");
    assert_eq!(ac.bin_cmd.meta_data, "g++ -std=c++11 -O1 main.cpp -o /w/bin/demo -Llib -ldemo -Iinc -Wall");
}

#[test]
fn dynamic_pipeline_scenario() {
    let p = project("dyn", true, vec![], vec![]);
    let ac = AllCommand::new(&p, &two_sources(), &"/w".to_string()).unwrap();
    assert_eq!(ac.obj_cmds.len(), 0);
    assert_eq!(ac.lib_cmd.meta_data, "g++ -shared -fPIC -std=c++11 -O1 a.cpp b.cpp -o /w/lib/libdemo.so -Wall");
    assert_eq!(ac.bin_cmd.meta_data, "g++ -std=c++11 -O1 main.cpp -o /w/bin/demo -Llib -ldemo -Iinc -Wall");
}

#[test]
fn static_pipeline_has_one_compile_per_source() {
    let srcs: Vec<String> = (0..7).map(|i| format!("s{}.cpp", i)).collect();
    let p = project("sta", false, vec![], vec![]);
    let ac = AllCommand::new(&p, &srcs, &"/w".to_string()).unwrap();
    assert_eq!(ac.obj_cmds.len(), 7);
    for (i, cmd) in ac.obj_cmds.iter().enumerate() {
        assert_eq!(cmd.meta_data, format!("g++ -std=c++11 -O1 -c s{}.cpp -o /w/.sm/{}.o", i, i));
    }
}

#[test]
fn static_pipeline_with_no_sources_is_legal() {
    let p = project("sta", false, vec![], vec![]);
    let ac = AllCommand::new(&p, &Vec::new(), &"/w".to_string()).unwrap();
    assert_eq!(ac.obj_cmds.len(), 0);
    assert_eq!(ac.lib_cmd.meta_data, "ar rcs /w/lib/libdemo.a");
}

#[test]
fn unknown_standard_is_rejected_before_generation() {
    let mut p = project("sta", true, vec![], vec![]);
    p.complier.std = 99;
    let r = AllCommand::new(&p, &two_sources(), &"/w".to_string());
    assert!(matches!(r, Err(ConfigError::InvalidStandard)));
}

#[test]
fn unknown_compiler_is_rejected_first() {
    let mut p = project("sta", true, vec![], vec![]);
    p.complier.cxx = "tcc".to_string();
    p.complier.std = 99;
    p.complier.ol = 9;
    let r = AllCommand::new(&p, &two_sources(), &"/w".to_string());
    assert!(matches!(r, Err(ConfigError::InvalidComplier)));
}

#[test]
fn unknown_opt_level_is_rejected() {
    let mut p = project("sta", true, vec![], vec![]);
    p.complier.ol = 4;
    let r = AllCommand::new(&p, &two_sources(), &"/w".to_string());
    assert!(matches!(r, Err(ConfigError::InvalidOptLevel)));
}

#[test]
fn unknown_mode_is_rejected() {
    let p = project("shared", true, vec![], vec![]);
    let r = AllCommand::new(&p, &two_sources(), &"/w".to_string());
    assert!(matches!(r, Err(ConfigError::InvalidMode)));
}

#[test]
fn regenerating_yields_identical_command_strings() {
    for mode in ["sta", "dyn"] {
        let p = project(mode, true, vec!["m"], vec!["-g"]);
        let a = AllCommand::new(&p, &two_sources(), &"/w".to_string()).unwrap();
        let b = AllCommand::new(&p, &two_sources(), &"/w".to_string()).unwrap();
        assert_eq!(a.obj_cmds.len(), b.obj_cmds.len());
        for i in 0..a.obj_cmds.len() {
            assert_eq!(a.obj_cmds[i].meta_data, b.obj_cmds[i].meta_data);
        }
        assert_eq!(a.lib_cmd.meta_data, b.lib_cmd.meta_data);
        assert_eq!(a.bin_cmd.meta_data, b.bin_cmd.meta_data);
    }
}

#[test]
fn wall_flag_sits_between_base_and_extra_flags() {
    let with_wall = project("sta", true, vec![], vec!["-g", "-DX"]);
    let without = project("sta", false, vec![], vec!["-g", "-DX"]);
    let srcs = vec!["a.cpp".to_string()];
    let a = AllCommand::new(&with_wall, &srcs, &"/w".to_string()).unwrap();
    let b = AllCommand::new(&without, &srcs, &"/w".to_string()).unwrap();
    assert_eq!(a.obj_cmds[0].meta_data, "g++ -std=c++11 -O1 -c a.cpp -o /w/.sm/0.o -Wall -g -DX");
    assert_eq!(b.obj_cmds[0].meta_data, "g++ -std=c++11 -O1 -c a.cpp -o /w/.sm/0.o -g -DX");
    assert_eq!(a.bin_cmd.meta_data, "g++ -std=c++11 -O1 main.cpp -o /w/bin/demo -Llib -ldemo -Iinc -Wall -g -DX");
    assert_eq!(b.bin_cmd.meta_data, "g++ -std=c++11 -O1 main.cpp -o /w/bin/demo -Llib -ldemo -Iinc -g -DX");
}

#[test]
fn link_libraries_each_get_their_own_flag() {
    let p = project("dyn", true, vec!["m", "pthread"], vec!["-g"]);
    let ac = AllCommand::new(&p, &two_sources(), &"/w".to_string()).unwrap();
    assert_eq!(
        ac.bin_cmd.meta_data,
        "g++ -std=c++11 -O1 main.cpp -o /w/bin/demo -Llib -ldemo -Iinc -Wall -lm -lpthread -g"
    );
    assert_eq!(
        ac.lib_cmd.meta_data,
        "g++ -shared -fPIC -std=c++11 -O1 a.cpp b.cpp -o /w/lib/libdemo.so -Wall -g"
    );
}

#[test]
fn one_line_command_splits_into_program_and_arguments() {
    let c = OneLineCommand::new("g++  -c \t a.cpp".to_string());
    assert_eq!(c.meta_data, "g++  -c \t a.cpp");
    assert_eq!(c.bin, "g++");
    assert_eq!(c.args, vec!["-c".to_string(), "a.cpp".to_string()]);
}
