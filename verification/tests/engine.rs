use sm::command::{AllCommand, OneLineCommand, State};
use sm::config::{Complier, Mode, Project, Target};

fn pipeline(obj: Vec<&str>, lib: &str, bin: &str, mode: Mode) -> AllCommand {
    AllCommand {
        obj_cmds: obj.into_iter().map(|s| OneLineCommand::new(s.to_string())).collect(),
        lib_cmd: OneLineCommand::new(lib.to_string()),
        bin_cmd: OneLineCommand::new(bin.to_string()),
        state: State::Start,
        mode,
    }
}

#[test]
fn static_run_executes_every_stage_in_order() {
    let mut ac = pipeline(vec!["echo a", "echo b"], "echo lib", "echo bin", Mode::Static);
    let report = ac.run();
    assert!(report.success);
    assert_eq!(report.executed, vec!["echo a", "echo b", "echo lib", "echo bin"]);
    assert_eq!(report.results, vec![true, true, true, true]);
    assert!(matches!(ac.state, State::End));
}

#[test]
fn failing_compile_short_circuits_the_pipeline() {
    let mut ac = pipeline(vec!["echo a", "false", "echo c"], "echo lib", "echo bin", Mode::Static);
    let report = ac.run();
    assert!(!report.success);
    assert_eq!(report.executed, vec!["echo a", "false"]);
    assert_eq!(report.results, vec![true, false]);
}

#[test]
fn failing_library_stage_skips_the_link() {
    let mut ac = pipeline(vec!["echo a"], "false", "echo bin", Mode::Static);
    let report = ac.run();
    assert!(!report.success);
    assert_eq!(report.executed, vec!["echo a", "false"]);
    assert_eq!(report.results, vec![true, false]);
}

#[test]
fn failing_link_stage_fails_the_run() {
    let mut ac = pipeline(vec![], "echo lib", "false", Mode::Static);
    let report = ac.run();
    assert!(!report.success);
    assert_eq!(report.executed, vec!["echo lib", "false"]);
    assert_eq!(report.results, vec![true, false]);
}

#[test]
fn unlaunchable_command_aborts_the_run() {
    let mut ac = pipeline(
        vec!["sm-test-no-such-program-anywhere"],
        "echo lib",
        "echo bin",
        Mode::Static,
    );
    let report = ac.run();
    assert!(!report.success);
    assert_eq!(report.executed, vec!["sm-test-no-such-program-anywhere"]);
    assert_eq!(report.results, vec![false]);
}

#[test]
fn dynamic_run_executes_library_then_link() {
    let mut ac = pipeline(vec![], "echo lib", "echo bin", Mode::Dynamic);
    let report = ac.run();
    assert!(report.success);
    assert_eq!(report.executed, vec!["echo lib", "echo bin"]);
    assert_eq!(report.results, vec![true, true]);
    assert!(matches!(ac.state, State::End));
}

#[test]
fn dynamic_run_aborts_on_a_failing_library_stage() {
    let mut ac = pipeline(vec![], "false", "echo bin", Mode::Dynamic);
    let report = ac.run();
    assert!(!report.success);
    assert_eq!(report.executed, vec!["false"]);
    assert_eq!(report.results, vec![false]);
}

#[test]
fn generated_pipeline_with_a_missing_source_aborts_at_the_first_compile() {
    let p = Project {
        target: Target {
            name: "demo".to_string(),
            inc: "inc".to_string(),
            src: "src".to_string(),
            entrance: "main.cpp".to_string(),
            mode: "sta".to_string(),
            lib: "lib".to_string(),
            bin: "bin".to_string(),
        },
        complier: Complier {
            cxx: "g++".to_string(),
            std: 11,
            wall: false,
            ol: 0,
            link: Vec::new(),
            extra: Vec::new(),
        },
    };
    let srcs = vec!["sm-test-no-such-source.cpp".to_string()];
    let mut ac = AllCommand::new(&p, &srcs, &"/tmp/sm-test-missing".to_string()).unwrap();
    let report = ac.run();
    assert!(!report.success);
    assert_eq!(report.executed.len(), 1);
    assert_eq!(report.results, vec![false]);
    assert!(matches!(ac.state, State::End));
}
