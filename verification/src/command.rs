//! The command generator and the execution engine.
//!
//! The generator is a pure mapping from a validated project description, the
//! discovered source files and the working directory to a pipeline of shell
//! invocations; its contracts pin every generated command string down to the
//! byte. The engine is a finite-state machine that drives the pipeline stage
//! by stage — compile the objects, package the library, link the executable —
//! and short-circuits to a failure state on the first invocation that does
//! not exit successfully.

use vstd::prelude::*;
use vstd::pervasive::unreached;
use vstd::string::StringExecFns;
use crate::config::{Complier, Mode, Project, mode_of, valid_cxx, valid_ol, valid_std,
    valid_project};
use crate::text::{concat_prefixed, dec_digits, join_spaced, join_with_spaces,
    lemma_tokens_nonempty, seq_views, split_tokens, tokens_of, append_prefixed, usize_to_string};
use ansi_rgb::Background;
use std::io::Write;

verus! {

/// Why a project description was rejected before any command was generated.
#[derive(Debug, PartialEq, Eq, Structural)]
pub enum ConfigError {
    InvalidComplier,
    InvalidOptLevel,
    InvalidStandard,
    InvalidMode,
}

/// One fully-formed shell invocation: the whole command line, and the same
/// line broken into the program and its arguments.
pub struct OneLineCommand {
    pub meta_data: String,
    pub bin: String,
    pub args: Vec<String>,
}

impl OneLineCommand {
    /// Builds an invocation from a command line by splitting it into
    /// whitespace-separated words: the first word is the program, the rest
    /// are its arguments.
    pub fn new(data: String) -> (r: OneLineCommand)
        requires
            tokens_of(data@).len() > 0,
        ensures
            r.meta_data == data,
            r.bin@ == tokens_of(data@)[0],
            seq_views(r.args@) == tokens_of(data@).drop_first(),
    {
        let mut words = split_tokens(data.as_str());
        proof {
            assert(words@.len() == seq_views(words@).len());
        }
        let bin = words.remove(0);
        proof {
            assert(seq_views(words@) =~= tokens_of(data@).drop_first());
        }
        OneLineCommand { meta_data: data, bin, args: words }
    }
}

/// The execution cursor of one build: where in the pipeline the engine
/// stands. `Obj` compiles the translation units, `Lib` packages the library,
/// `Bin` links the executable; `Failed` is entered on the first invocation
/// that does not succeed, and `End` is the terminal state of both a completed
/// and an aborted build.
pub enum State {
    Start,
    Failed,
    Obj,
    Lib,
    Bin,
    End,
}

/// The generated build pipeline together with its execution cursor: the
/// per-translation-unit compile invocations, the invocation that packages
/// the library, and the invocation that links the executable.
pub struct AllCommand {
    pub obj_cmds: Vec<OneLineCommand>,
    pub lib_cmd: OneLineCommand,
    pub bin_cmd: OneLineCommand,
    pub state: State,
    pub mode: Mode,
}

/// The decimal rendering of the configured language standard.
pub open spec fn std_digits(p: Project) -> Seq<char> {
    dec_digits(p.complier.std as nat)
}

/// The decimal rendering of the configured optimization level.
pub open spec fn ol_digits(p: Project) -> Seq<char> {
    dec_digits(p.complier.ol as nat)
}

/// What the warning flag contributes to a command: ` -Wall` when enabled,
/// nothing otherwise.
pub open spec fn wall_part(p: Project) -> Seq<char> {
    if p.complier.wall {
        " -Wall"@
    } else {
        Seq::empty()
    }
}

/// What the extra user-supplied flags contribute to a command: each flag
/// preceded by a single space, in configured order.
pub open spec fn extras_part(p: Project) -> Seq<char> {
    concat_prefixed(" "@, seq_views(p.complier.extra@))
}

/// What the extra link libraries contribute to the link command: each
/// library preceded by ` -l`, in configured order.
pub open spec fn link_libs_part(p: Project) -> Seq<char> {
    concat_prefixed(" -l"@, seq_views(p.complier.link@))
}

/// The path of the intermediate object file for the translation unit at
/// position `i`: objects live in the hidden object directory under the
/// working directory and are named by their index.
pub open spec fn obj_path(cwd: Seq<char>, i: int) -> Seq<char> {
    cwd + "/.sm/"@ + dec_digits(i as nat) + ".o"@
}

/// The object paths of the first `n` translation units, in order.
pub open spec fn obj_paths(cwd: Seq<char>, n: int) -> Seq<Seq<char>> {
    Seq::new(n as nat, |i: int| obj_path(cwd, i))
}

/// The compile command for one translation unit, up to (and not including)
/// the warning flag and the extra flags.
pub open spec fn compile_base(p: Project, src: Seq<char>, i: int, cwd: Seq<char>) -> Seq<char> {
    p.complier.cxx@ + " -std=c++"@ + std_digits(p) + " -O"@ + ol_digits(p) + " -c "@ + src
        + " -o "@ + obj_path(cwd, i)
}

/// The full compile command for the translation unit at position `i`.
pub open spec fn compile_text(p: Project, src: Seq<char>, i: int, cwd: Seq<char>) -> Seq<char> {
    compile_base(p, src, i, cwd) + wall_part(p) + extras_part(p)
}

/// The archive command of a static build: it bundles the object files of all
/// `n` translation units, in order, into the named static library.
pub open spec fn archive_text(p: Project, n: int, cwd: Seq<char>) -> Seq<char> {
    "ar rcs "@ + cwd + "/"@ + p.target.lib@ + "/lib"@ + p.target.name@ + ".a"@ + concat_prefixed(
        " "@,
        obj_paths(cwd, n),
    )
}

/// The shared-library command of a dynamic build, up to the warning flag and
/// the extra flags: a position-independent build straight from the full
/// source set.
pub open spec fn shared_base(p: Project, srcs: Seq<Seq<char>>, cwd: Seq<char>) -> Seq<char> {
    p.complier.cxx@ + " -shared -fPIC -std=c++"@ + std_digits(p) + " -O"@ + ol_digits(p) + " "@
        + join_spaced(srcs) + " -o "@ + cwd + "/"@ + p.target.lib@ + "/lib"@ + p.target.name@
        + ".so"@
}

/// The full shared-library command of a dynamic build.
pub open spec fn shared_text(p: Project, srcs: Seq<Seq<char>>, cwd: Seq<char>) -> Seq<char> {
    shared_base(p, srcs, cwd) + wall_part(p) + extras_part(p)
}

/// The link command, up to the warning flag, the link libraries and the
/// extra flags: it compiles the entrance file against the freshly built
/// library, using the configured include and library search paths.
pub open spec fn link_base(p: Project, cwd: Seq<char>) -> Seq<char> {
    p.complier.cxx@ + " -std=c++"@ + std_digits(p) + " -O"@ + ol_digits(p) + " "@
        + p.target.entrance@ + " -o "@ + cwd + "/"@ + p.target.bin@ + "/"@ + p.target.name@
        + " -L"@ + p.target.lib@ + " -l"@ + p.target.name@ + " -I"@ + p.target.inc@
}

/// The full link command.
pub open spec fn link_text(p: Project, cwd: Seq<char>) -> Seq<char> {
    link_base(p, cwd) + wall_part(p) + link_libs_part(p) + extras_part(p)
}

/// The command lines of a sequence of invocations, in order.
pub open spec fn cmd_texts(cmds: Seq<OneLineCommand>) -> Seq<Seq<char>> {
    Seq::new(cmds.len(), |i: int| cmds[i].meta_data@)
}

/// Every command line of the pipeline, in execution order: the compile
/// invocations, then the library stage, then the link stage.
pub open spec fn planned_texts(c: AllCommand) -> Seq<Seq<char>> {
    cmd_texts(c.obj_cmds@) + seq![c.lib_cmd.meta_data@, c.bin_cmd.meta_data@]
}

/// The pipeline that the generator owes for a given project, source file set
/// and working directory: mode-dependent, with every command string pinned
/// down exactly.
pub open spec fn generates(p: Project, srcs: Seq<Seq<char>>, cwd: Seq<char>, c: AllCommand) -> bool {
    &&& c.mode == mode_of(&p)
    &&& c.state is Start
    &&& match mode_of(&p) {
        Mode::Static => {
            &&& c.obj_cmds@.len() == srcs.len()
            &&& (forall|i: int|
                0 <= i < srcs.len() ==> (#[trigger] c.obj_cmds@[i]).meta_data@ == compile_text(
                    p,
                    srcs[i],
                    i,
                    cwd,
                ))
            &&& c.lib_cmd.meta_data@ == archive_text(p, srcs.len() as int, cwd)
            &&& c.bin_cmd.meta_data@ == link_text(p, cwd)
        },
        Mode::Dynamic => {
            &&& c.obj_cmds@.len() == 0
            &&& c.lib_cmd.meta_data@ == shared_text(p, srcs, cwd)
            &&& c.bin_cmd.meta_data@ == link_text(p, cwd)
        },
        Mode::Invalid => false,
    }
}

impl AllCommand {
    /// A pipeline the engine can run: its mode is never the invalid
    /// sentinel, a dynamic pipeline has no per-file compile stage, and the
    /// stage count fits the machine.
    pub open spec fn wf(self) -> bool {
        &&& !(self.mode is Invalid)
        &&& (self.mode is Dynamic ==> self.obj_cmds@.len() == 0)
        &&& self.obj_cmds@.len() + 2 <= usize::MAX
    }
}

/// Renders the decimal digits of the object-file index appended to the
/// hidden object directory under the working directory.
fn build_obj_path(cwd: &String, i: usize) -> (s: String)
    ensures
        s@ == obj_path(cwd@, i as int),
{
    let mut s = cwd.clone();
    s.append("/.sm/");
    let d = usize_to_string(i);
    s.append(d.as_str());
    s.append(".o");
    s
}

/// Appends the warning flag (when enabled) and the extra flags to a command
/// under construction.
fn append_wall_and_extras(s: &mut String, p: &Project)
    ensures
        final(s)@ == old(s)@ + wall_part(*p) + extras_part(*p),
{
    let ghost mid = old(s)@ + wall_part(*p);
    if p.complier.wall {
        s.append(" -Wall");
    } else {
        proof {
            assert(s@ =~= mid);
        }
    }
    append_prefixed(s, " ", &p.complier.extra, 0);
    proof {
        assert(seq_views(p.complier.extra@).skip(0) =~= seq_views(p.complier.extra@));
    }
}

/// Builds the compile command for the translation unit at position `i`.
fn build_compile_text(p: &Project, src: &String, i: usize, cwd: &String) -> (s: String)
    requires
        valid_std(p.complier.std),
        valid_ol(p.complier.ol),
    ensures
        s@ == compile_text(*p, src@, i as int, cwd@),
{
    let mut s = p.complier.cxx.clone();
    s.append(" -std=c++");
    let d = usize_to_string(p.complier.std as usize);
    s.append(d.as_str());
    s.append(" -O");
    let d = usize_to_string(p.complier.ol as usize);
    s.append(d.as_str());
    s.append(" -c ");
    s.append(src.as_str());
    s.append(" -o ");
    let op = build_obj_path(cwd, i);
    s.append(op.as_str());
    append_wall_and_extras(&mut s, p);
    s
}

/// Builds the archive command of a static build from the object paths
/// computed for the compile stage.
fn build_archive_text(p: &Project, objs: &Vec<String>, cwd: &String) -> (s: String)
    requires
        forall|j: int| 0 <= j < objs@.len() ==> (#[trigger] objs@[j])@ == obj_path(cwd@, j),
    ensures
        s@ == archive_text(*p, objs@.len() as int, cwd@),
{
    let mut s = "ar rcs ".to_owned();
    s.append(cwd.as_str());
    s.append("/");
    s.append(p.target.lib.as_str());
    s.append("/lib");
    s.append(p.target.name.as_str());
    s.append(".a");
    append_prefixed(&mut s, " ", objs, 0);
    proof {
        assert(seq_views(objs@).skip(0) =~= obj_paths(cwd@, objs@.len() as int));
    }
    s
}

/// Builds the shared-library command of a dynamic build.
fn build_shared_text(p: &Project, src_files: &Vec<String>, cwd: &String) -> (s: String)
    requires
        valid_std(p.complier.std),
        valid_ol(p.complier.ol),
    ensures
        s@ == shared_text(*p, seq_views(src_files@), cwd@),
{
    let mut s = p.complier.cxx.clone();
    s.append(" -shared -fPIC -std=c++");
    let d = usize_to_string(p.complier.std as usize);
    s.append(d.as_str());
    s.append(" -O");
    let d = usize_to_string(p.complier.ol as usize);
    s.append(d.as_str());
    s.append(" ");
    let joined = join_with_spaces(src_files);
    s.append(joined.as_str());
    s.append(" -o ");
    s.append(cwd.as_str());
    s.append("/");
    s.append(p.target.lib.as_str());
    s.append("/lib");
    s.append(p.target.name.as_str());
    s.append(".so");
    append_wall_and_extras(&mut s, p);
    s
}

/// Builds the link command.
fn build_link_text(p: &Project, cwd: &String) -> (s: String)
    requires
        valid_std(p.complier.std),
        valid_ol(p.complier.ol),
    ensures
        s@ == link_text(*p, cwd@),
{
    let mut s = p.complier.cxx.clone();
    s.append(" -std=c++");
    let d = usize_to_string(p.complier.std as usize);
    s.append(d.as_str());
    s.append(" -O");
    let d = usize_to_string(p.complier.ol as usize);
    s.append(d.as_str());
    s.append(" ");
    s.append(p.target.entrance.as_str());
    s.append(" -o ");
    s.append(cwd.as_str());
    s.append("/");
    s.append(p.target.bin.as_str());
    s.append("/");
    s.append(p.target.name.as_str());
    s.append(" -L");
    s.append(p.target.lib.as_str());
    s.append(" -l");
    s.append(p.target.name.as_str());
    s.append(" -I");
    s.append(p.target.inc.as_str());
    let ghost mid = s@ + wall_part(*p);
    if p.complier.wall {
        s.append(" -Wall");
    } else {
        proof {
            assert(s@ =~= mid);
        }
    }
    append_prefixed(&mut s, " -l", &p.complier.link, 0);
    proof {
        assert(seq_views(p.complier.link@).skip(0) =~= seq_views(p.complier.link@));
    }
    append_prefixed(&mut s, " ", &p.complier.extra, 0);
    proof {
        assert(seq_views(p.complier.extra@).skip(0) =~= seq_views(p.complier.extra@));
    }
    s
}

/// A compile command starts with the compiler name, so it has at least one
/// token.
proof fn lemma_compile_tokens(p: Project, src: Seq<char>, i: int, cwd: Seq<char>)
    requires
        valid_cxx(p.complier.cxx@),
    ensures
        tokens_of(compile_text(p, src, i, cwd)).len() > 0,
{
    reveal_strlit("g++");
    reveal_strlit("clang++");
    let t = compile_text(p, src, i, cwd);
    assert(t[0] == p.complier.cxx@[0]);
    lemma_tokens_nonempty(t);
}

/// An archive command starts with the archiver name, so it has at least one
/// token.
proof fn lemma_archive_tokens(p: Project, n: int, cwd: Seq<char>)
    ensures
        tokens_of(archive_text(p, n, cwd)).len() > 0,
{
    reveal_strlit("ar rcs ");
    let t = archive_text(p, n, cwd);
    assert(t[0] == "ar rcs "@[0]);
    lemma_tokens_nonempty(t);
}

/// A shared-library command starts with the compiler name, so it has at
/// least one token.
proof fn lemma_shared_tokens(p: Project, srcs: Seq<Seq<char>>, cwd: Seq<char>)
    requires
        valid_cxx(p.complier.cxx@),
    ensures
        tokens_of(shared_text(p, srcs, cwd)).len() > 0,
{
    reveal_strlit("g++");
    reveal_strlit("clang++");
    let t = shared_text(p, srcs, cwd);
    assert(t[0] == p.complier.cxx@[0]);
    lemma_tokens_nonempty(t);
}

/// A link command starts with the compiler name, so it has at least one
/// token.
proof fn lemma_link_tokens(p: Project, cwd: Seq<char>)
    requires
        valid_cxx(p.complier.cxx@),
    ensures
        tokens_of(link_text(p, cwd)).len() > 0,
{
    reveal_strlit("g++");
    reveal_strlit("clang++");
    let t = link_text(p, cwd);
    assert(t[0] == p.complier.cxx@[0]);
    lemma_tokens_nonempty(t);
}

impl AllCommand {
    /// Generates the build pipeline for a project: a pure function of the
    /// project description, the discovered source files and the working
    /// directory. An invalid configuration is rejected before any command is
    /// generated, with the first failing check deciding the error.
    pub fn new(project: &Project, src_files: &Vec<String>, cwd: &String) -> (r: Result<
        AllCommand,
        ConfigError,
    >)
        requires
            src_files@.len() + 2 <= usize::MAX,
        ensures
            r is Ok <==> valid_project(project),
            !valid_cxx(project.complier.cxx@) ==> r == Result::<AllCommand, ConfigError>::Err(
                ConfigError::InvalidComplier,
            ),
            valid_cxx(project.complier.cxx@) && !valid_ol(project.complier.ol) ==> r
                == Result::<AllCommand, ConfigError>::Err(ConfigError::InvalidOptLevel),
            valid_cxx(project.complier.cxx@) && valid_ol(project.complier.ol) && !valid_std(
                project.complier.std,
            ) ==> r == Result::<AllCommand, ConfigError>::Err(ConfigError::InvalidStandard),
            valid_cxx(project.complier.cxx@) && valid_ol(project.complier.ol) && valid_std(
                project.complier.std,
            ) && mode_of(project) is Invalid ==> r == Result::<AllCommand, ConfigError>::Err(
                ConfigError::InvalidMode,
            ),
            r matches Ok(c) ==> generates(*project, seq_views(src_files@), cwd@, c) && c.wf(),
    {
        if !project.check_complier() {
            return Err(ConfigError::InvalidComplier);
        }
        if !project.check_ol() {
            return Err(ConfigError::InvalidOptLevel);
        }
        if !project.check_std() {
            return Err(ConfigError::InvalidStandard);
        }
        let mode = project.get_mode();
        match mode {
            Mode::Invalid => Err(ConfigError::InvalidMode),
            Mode::Static => {
                let mut obj_cmds: Vec<OneLineCommand> = Vec::new();
                let mut obj_paths_v: Vec<String> = Vec::new();
                let mut i: usize = 0;
                while i < src_files.len()
                    invariant
                        valid_cxx(project.complier.cxx@),
                        valid_ol(project.complier.ol),
                        valid_std(project.complier.std),
                        i <= src_files@.len(),
                        src_files@.len() + 2 <= usize::MAX,
                        obj_cmds@.len() == i,
                        obj_paths_v@.len() == i,
                        forall|j: int|
                            0 <= j < i ==> (#[trigger] obj_cmds@[j]).meta_data@ == compile_text(
                                *project,
                                seq_views(src_files@)[j],
                                j,
                                cwd@,
                            ),
                        forall|j: int|
                            0 <= j < i ==> (#[trigger] obj_paths_v@[j])@ == obj_path(cwd@, j),
                    decreases src_files@.len() - i,
                {
                    let text = build_compile_text(project, &src_files[i], i, cwd);
                    proof {
                        lemma_compile_tokens(*project, src_files@[i as int]@, i as int, cwd@);
                    }
                    obj_cmds.push(OneLineCommand::new(text));
                    let op = build_obj_path(cwd, i);
                    obj_paths_v.push(op);
                    i += 1;
                }
                let lib_text = build_archive_text(project, &obj_paths_v, cwd);
                proof {
                    lemma_archive_tokens(*project, obj_paths_v@.len() as int, cwd@);
                }
                let lib_cmd = OneLineCommand::new(lib_text);
                let bin_text = build_link_text(project, cwd);
                proof {
                    lemma_link_tokens(*project, cwd@);
                }
                let bin_cmd = OneLineCommand::new(bin_text);
                Ok(AllCommand { obj_cmds, lib_cmd, bin_cmd, state: State::Start, mode })
            },
            Mode::Dynamic => {
                let lib_text = build_shared_text(project, src_files, cwd);
                proof {
                    lemma_shared_tokens(*project, seq_views(src_files@), cwd@);
                }
                let lib_cmd = OneLineCommand::new(lib_text);
                let bin_text = build_link_text(project, cwd);
                proof {
                    lemma_link_tokens(*project, cwd@);
                }
                let bin_cmd = OneLineCommand::new(bin_text);
                Ok(
                    AllCommand {
                        obj_cmds: Vec::new(),
                        lib_cmd,
                        bin_cmd,
                        state: State::Start,
                        mode,
                    },
                )
            },
        }
    }
}

/// What one spawned invocation came to: whether the program could be
/// launched at all, whether it exited successfully, and its captured output.
pub struct ExecOutcome {
    pub launched: bool,
    pub success: bool,
    pub stdout: String,
    pub stderr: String,
}

/// Relies on duct::cmd and duct::Expression::run (with captured, unchecked
/// output): spawns the program with the given arguments, blocks until it
/// exits, and reports whether it launched and succeeded together with its
/// captured output. Nothing is promised of the outcome: it depends on the
/// outside world.
#[verifier::external_body]
fn run_command(bin: &String, args: &Vec<String>) -> (r: ExecOutcome)
{
    match duct::cmd(bin, args).stdout_capture().stderr_capture().unchecked().run() {
        Ok(o) => ExecOutcome {
            launched: true,
            success: o.status.success(),
            stdout: String::from_utf8_lossy(&o.stdout).into_owned(),
            stderr: String::from_utf8_lossy(&o.stderr).into_owned(),
        },
        Err(e) => ExecOutcome {
            launched: false,
            success: false,
            stdout: String::new(),
            stderr: e.to_string(),
        },
    }
}

/// Relies on ansi_rgb::Background::bg and std::io::Write::write_fmt: prints
/// the progress header on a cyan blue background, then the command line, as
/// one line of standard output.
#[verifier::external_body]
fn print_progress(header: &String, text: &String)
{
    let _ = writeln!(std::io::stdout(), "{}: {}", header.as_str().bg(ansi_rgb::cyan_blue()), text);
}

/// Relies on std::io::Write::write_fmt: prints one line to standard output.
#[verifier::external_body]
fn print_line(s: &String)
{
    let _ = writeln!(std::io::stdout(), "{}", s);
}

/// Relies on ansi_rgb::Background::bg and std::io::Write::write_fmt: prints
/// the text on a red background, as one line of standard output.
#[verifier::external_body]
fn print_alert(s: &String)
{
    let _ = writeln!(std::io::stdout(), "{}", s.as_str().bg(ansi_rgb::red()));
}

/// Relies on std::io::Write::write_fmt: reports on standard error a command
/// that could not be launched.
#[verifier::external_body]
fn print_launch_failure(text: &String, err: &String)
{
    let _ = writeln!(std::io::stderr(), "Executing {} failed: {}", text, err);
}

/// What one build run did: the command lines that were executed, in order,
/// whether each succeeded, and whether the whole pipeline completed.
pub struct RunReport {
    pub executed: Vec<String>,
    pub results: Vec<bool>,
    pub success: bool,
}

/// What a run report owes to the plan it executed: the executed commands
/// are a prefix of the plan in order; every invocation but possibly the last
/// succeeded (the first failure halts the run); the run succeeded exactly
/// when the whole plan was executed and every invocation succeeded; and a
/// failed invocation is always the last one executed.
pub open spec fn report_matches(r: RunReport, plan: Seq<Seq<char>>) -> bool {
    &&& r.results@.len() == r.executed@.len()
    &&& r.executed@.len() <= plan.len()
    &&& seq_views(r.executed@) == plan.take(r.executed@.len() as int)
    &&& (forall|j: int| 0 <= j < r.results@.len() - 1 ==> r.results@[j] == true)
    &&& (r.success <==> (r.executed@.len() == plan.len() && (forall|j: int|
        0 <= j < r.results@.len() ==> r.results@[j] == true)))
    &&& (!r.success ==> r.results@.len() > 0 && r.results@[r.results@.len() - 1] == false)
    &&& (forall|j: int|
        0 <= j < r.results@.len() && r.results@[j] == false ==> r.executed@.len() == j + 1)
}

/// Announces one invocation, spawns it, surfaces its output — plainly on
/// success, highlighted on failure — and records its command line and its
/// outcome.
fn run_one(cmd: &OneLineCommand, header: &String, executed: &mut Vec<String>, results: &mut Vec<
    bool,
>) -> (ok: bool)
    ensures
        final(executed)@ == old(executed)@.push(cmd.meta_data),
        final(results)@ == old(results)@.push(ok),
{
    print_progress(header, &cmd.meta_data);
    let out = run_command(&cmd.bin, &cmd.args);
    let ok = out.launched && out.success;
    if out.launched {
        if out.success {
            print_line(&out.stdout);
        } else {
            print_alert(&out.stderr);
        }
    } else {
        print_launch_failure(&cmd.meta_data, &out.stderr);
    }
    executed.push(cmd.meta_data.clone());
    results.push(ok);
    ok
}

/// The progress header shown before the `k`-th of `total` invocations.
pub open spec fn header_text(k: nat, total: nat) -> Seq<char> {
    "["@ + dec_digits(k) + "/"@ + dec_digits(total) + "]"@
}

/// Builds the progress header shown before the `k`-th of `total` invocations.
fn make_header(k: usize, total: usize) -> (s: String)
    ensures
        s@ == header_text(k as nat, total as nat),
{
    let mut s = "[".to_owned();
    let d = usize_to_string(k);
    s.append(d.as_str());
    s.append("/");
    let d = usize_to_string(total);
    s.append(d.as_str());
    s.append("]");
    s
}

impl AllCommand {
    /// Drives the pipeline to its terminal state: compile every translation
    /// unit in order, package the library, link the executable, stopping at
    /// the first invocation that fails. The report says exactly which
    /// invocations ran and how the run ended.
    pub fn run(&mut self) -> (r: RunReport)
        requires
            old(self).wf(),
            old(self).state is Start,
        ensures
            final(self).state is End,
            final(self).obj_cmds == old(self).obj_cmds,
            final(self).lib_cmd == old(self).lib_cmd,
            final(self).bin_cmd == old(self).bin_cmd,
            final(self).mode == old(self).mode,
            report_matches(r, planned_texts(*old(self))),
    {
        match self.mode {
            Mode::Static => self.sta_run(),
            Mode::Dynamic => self.dyn_run(),
            Mode::Invalid => unreached(),
        }
    }

    /// The static build: compile each translation unit, archive the objects,
    /// link the executable.
    fn sta_run(&mut self) -> (r: RunReport)
        requires
            old(self).wf(),
            old(self).state is Start,
        ensures
            final(self).state is End,
            final(self).obj_cmds == old(self).obj_cmds,
            final(self).lib_cmd == old(self).lib_cmd,
            final(self).bin_cmd == old(self).bin_cmd,
            final(self).mode == old(self).mode,
            report_matches(r, planned_texts(*old(self))),
    {
        let ghost orig = *old(self);
        let ghost plan = planned_texts(*old(self));
        self.state = State::Obj;
        let total = self.obj_cmds.len() + 2;
        let n = self.obj_cmds.len();
        let mut executed: Vec<String> = Vec::new();
        let mut results: Vec<bool> = Vec::new();
        let mut ok = true;
        let mut i: usize = 0;
        proof {
            assert(seq_views(executed@) =~= plan.take(0));
        }
        while ok && i < n
            invariant
                self.obj_cmds == orig.obj_cmds,
                self.lib_cmd == orig.lib_cmd,
                self.bin_cmd == orig.bin_cmd,
                self.mode == orig.mode,
                plan == planned_texts(orig),
                n == self.obj_cmds@.len(),
                total == n + 2,
                n + 2 <= usize::MAX,
                i <= n,
                executed@.len() == i,
                results@.len() == i,
                seq_views(executed@) == plan.take(i as int),
                forall|j: int| 0 <= j < i - 1 ==> results@[j] == true,
                i > 0 ==> results@[i - 1] == ok,
                ok || i > 0,
                ok ==> (forall|j: int| 0 <= j < i ==> results@[j] == true),
            decreases n - i,
        {
            let header = make_header(i + 1, total);
            let r1 = run_one(&self.obj_cmds[i], &header, &mut executed, &mut results);
            proof {
                assert(plan[i as int] == self.obj_cmds@[i as int].meta_data@);
                assert(seq_views(executed@) =~= plan.take(i + 1));
            }
            i += 1;
            if !r1 {
                ok = false;
            }
        }
        if ok {
            self.state = State::Lib;
            let header = make_header(total - 1, total);
            let r2 = run_one(&self.lib_cmd, &header, &mut executed, &mut results);
            proof {
                assert(plan[n as int] == self.lib_cmd.meta_data@);
                assert(seq_views(executed@) =~= plan.take(n + 1));
            }
            if r2 {
                self.state = State::Bin;
                let header = make_header(total, total);
                let r3 = run_one(&self.bin_cmd, &header, &mut executed, &mut results);
                proof {
                    assert(plan[n + 1] == self.bin_cmd.meta_data@);
                    assert(seq_views(executed@) =~= plan.take(n + 2));
                }
                if !r3 {
                    ok = false;
                    proof {
                        assert(results@.len() == n + 2 && results@[n + 1] == false);
                    }
                } else {
                    proof {
                        assert(results@.len() == n + 2);
                        assert forall|j: int| 0 <= j < results@.len() implies results@[j]
                            == true by {
                            if j < n {
                            } else if j == n {
                            }
                        }
                    }
                }
            } else {
                ok = false;
                proof {
                    assert(results@.len() == n + 1 && results@[n as int] == false);
                }
            }
        }
        if ok {
            self.state = State::End;
        } else {
            self.state = State::Failed;
            let notice = "Command aborting!".to_owned();
            print_alert(&notice);
            self.state = State::End;
        }
        let report = RunReport { executed, results, success: ok };
        proof {
            assert(plan.len() == n + 2);
            assert(report.results@.len() == report.executed@.len());
            assert(report.executed@.len() <= plan.len());
            assert(seq_views(report.executed@) == plan.take(report.executed@.len() as int));
            assert(forall|j: int| 0 <= j < report.results@.len() - 1 ==> report.results@[j] == true);
            assert(report.success <==> (report.executed@.len() == plan.len() && (forall|j: int|
                0 <= j < report.results@.len() ==> report.results@[j] == true)));
            assert(!report.success ==> report.results@.len() > 0 && report.results@[
                report.results@.len() - 1] == false);
            assert(forall|j: int|
                0 <= j < report.results@.len() && report.results@[j] == false
                    ==> report.executed@.len() == j + 1);
            assert(report_matches(report, plan));
        }
        report
    }

    /// The dynamic build: build the shared library straight from the source
    /// set, then link the executable.
    fn dyn_run(&mut self) -> (r: RunReport)
        requires
            old(self).wf(),
            old(self).state is Start,
            old(self).mode is Dynamic,
        ensures
            final(self).state is End,
            final(self).obj_cmds == old(self).obj_cmds,
            final(self).lib_cmd == old(self).lib_cmd,
            final(self).bin_cmd == old(self).bin_cmd,
            final(self).mode == old(self).mode,
            report_matches(r, planned_texts(*old(self))),
    {
        let ghost plan = planned_texts(*old(self));
        let total = self.obj_cmds.len() + 2;
        let mut executed: Vec<String> = Vec::new();
        let mut results: Vec<bool> = Vec::new();
        let mut ok: bool;
        self.state = State::Lib;
        let header = make_header(total - 1, total);
        let r1 = run_one(&self.lib_cmd, &header, &mut executed, &mut results);
        proof {
            assert(plan[0] == self.lib_cmd.meta_data@);
            assert(seq_views(executed@) =~= plan.take(1));
        }
        ok = r1;
        if ok {
            self.state = State::Bin;
            let header = make_header(total, total);
            let r2 = run_one(&self.bin_cmd, &header, &mut executed, &mut results);
            proof {
                assert(plan[1] == self.bin_cmd.meta_data@);
                assert(seq_views(executed@) =~= plan.take(2));
            }
            if !r2 {
                ok = false;
                proof {
                    assert(results@.len() == 2 && results@[1] == false);
                }
            } else {
                proof {
                    assert(results@.len() == 2 && results@[0] == true && results@[1] == true);
                    assert forall|j: int| 0 <= j < results@.len() implies results@[j] == true by {
                    }
                }
            }
        } else {
            proof {
                assert(results@.len() == 1 && results@[0] == false);
            }
        }
        if ok {
            self.state = State::End;
        } else {
            self.state = State::Failed;
            let notice = "Command aborting!".to_owned();
            print_alert(&notice);
            self.state = State::End;
        }
        let report = RunReport { executed, results, success: ok };
        proof {
            assert(plan.len() == 2);
            assert(report.results@.len() == report.executed@.len());
            assert(report.executed@.len() <= plan.len());
            assert(seq_views(report.executed@) == plan.take(report.executed@.len() as int));
            assert(forall|j: int| 0 <= j < report.results@.len() - 1 ==> report.results@[j] == true);
            assert(report.success <==> (report.executed@.len() == plan.len() && (forall|j: int|
                0 <= j < report.results@.len() ==> report.results@[j] == true)));
            assert(!report.success ==> report.results@.len() > 0 && report.results@[
                report.results@.len() - 1] == false);
            assert(forall|j: int|
                0 <= j < report.results@.len() && report.results@[j] == false
                    ==> report.executed@.len() == j + 1);
            assert(report_matches(report, plan));
        }
        report
    }
}

/// The static pipeline shape: for N discovered sources the plan holds
/// exactly N compile invocations, then exactly one archive invocation, then
/// exactly one link invocation, in that order.
pub proof fn lemma_static_pipeline_shape(
    p: Project,
    srcs: Seq<Seq<char>>,
    cwd: Seq<char>,
    c: AllCommand,
)
    requires
        generates(p, srcs, cwd, c),
        mode_of(&p) is Static,
    ensures
        planned_texts(c).len() == srcs.len() + 2,
        forall|i: int|
            0 <= i < srcs.len() ==> #[trigger] planned_texts(c)[i] == compile_text(
                p,
                srcs[i],
                i,
                cwd,
            ),
        planned_texts(c)[srcs.len() as int] == archive_text(p, srcs.len() as int, cwd),
        planned_texts(c)[srcs.len() as int + 1] == link_text(p, cwd),
{
}

/// The dynamic pipeline shape: whatever the number of discovered sources,
/// the plan holds no per-file compile invocation at all — only the
/// shared-library invocation followed by the link invocation.
pub proof fn lemma_dynamic_pipeline_shape(
    p: Project,
    srcs: Seq<Seq<char>>,
    cwd: Seq<char>,
    c: AllCommand,
)
    requires
        generates(p, srcs, cwd, c),
        mode_of(&p) is Dynamic,
    ensures
        planned_texts(c).len() == 2,
        planned_texts(c)[0] == shared_text(p, srcs, cwd),
        planned_texts(c)[1] == link_text(p, cwd),
{
}

/// Regenerating the pipeline from the same immutable project description and
/// an unchanged source file set yields byte-identical command strings.
pub proof fn lemma_generation_deterministic(
    p: Project,
    srcs: Seq<Seq<char>>,
    cwd: Seq<char>,
    a: AllCommand,
    b: AllCommand,
)
    requires
        generates(p, srcs, cwd, a),
        generates(p, srcs, cwd, b),
    ensures
        planned_texts(a) == planned_texts(b),
{
    assert(planned_texts(a) =~= planned_texts(b));
}

/// The short-circuit law: if the invocation at position `k` of the plan
/// failed, it was the last one executed — no later compile, no library
/// stage, no link stage after it was ever run.
pub proof fn lemma_short_circuit(r: RunReport, plan: Seq<Seq<char>>, k: int)
    requires
        report_matches(r, plan),
        0 <= k < r.results@.len(),
        r.results@[k] == false,
    ensures
        r.executed@.len() == k + 1,
        seq_views(r.executed@) == plan.take(k + 1),
{
}

/// The given project with its warning flag set as stated and everything else
/// unchanged.
pub open spec fn with_wall(p: Project, w: bool) -> Project {
    Project {
        complier: Complier { wall: w, ..p.complier },
        ..p
    }
}

/// The flag-ordering law: enabling the warning flag inserts exactly ` -Wall`
/// between the base command and the extra flags (and, in the link command,
/// before the link-library flags); disabling it inserts nothing at all.
pub proof fn lemma_wall_flag_position(
    p: Project,
    src: Seq<char>,
    srcs: Seq<Seq<char>>,
    i: int,
    cwd: Seq<char>,
)
    ensures
        compile_text(with_wall(p, true), src, i, cwd) == compile_base(p, src, i, cwd) + " -Wall"@
            + extras_part(p),
        compile_text(with_wall(p, false), src, i, cwd) == compile_base(p, src, i, cwd)
            + extras_part(p),
        shared_text(with_wall(p, true), srcs, cwd) == shared_base(p, srcs, cwd) + " -Wall"@
            + extras_part(p),
        shared_text(with_wall(p, false), srcs, cwd) == shared_base(p, srcs, cwd) + extras_part(p),
        link_text(with_wall(p, true), cwd) == link_base(p, cwd) + " -Wall"@ + link_libs_part(p)
            + extras_part(p),
        link_text(with_wall(p, false), cwd) == link_base(p, cwd) + link_libs_part(p)
            + extras_part(p),
{
    assert(compile_text(with_wall(p, false), src, i, cwd) =~= compile_base(p, src, i, cwd)
        + extras_part(p));
    assert(shared_text(with_wall(p, false), srcs, cwd) =~= shared_base(p, srcs, cwd)
        + extras_part(p));
    assert(link_text(with_wall(p, false), cwd) =~= link_base(p, cwd) + link_libs_part(p)
        + extras_part(p));
}

} // verus!
