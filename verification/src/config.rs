//! The configuration model: an immutable description of the build target and
//! of the compiler settings, together with the validity checks that every
//! build must pass before any command is generated.

use vstd::prelude::*;

verus! {

/// A validated project description: what to build and how to compile it.
pub struct Project {
    pub target: Target,
    pub complier: Complier,
}

/// The build target: names of the output and of the directories involved.
pub struct Target {
    pub name: String,
    pub inc: String,
    pub src: String,
    pub entrance: String,
    pub mode: String,
    pub lib: String,
    pub bin: String,
}

/// The compiler settings: which compiler, language standard, warning and
/// optimization flags, extra link libraries and extra flags.
pub struct Complier {
    pub cxx: String,
    pub std: i64,
    pub wall: bool,
    pub ol: i8,
    pub link: Vec<String>,
    pub extra: Vec<String>,
}

/// The build mode. `Invalid` is a sentinel for an unrecognized mode string;
/// a pipeline is never generated for it.
pub enum Mode {
    Static,
    Dynamic,
    Invalid,
}

/// The mode that a project's mode string denotes.
pub open spec fn mode_of(p: &Project) -> Mode {
    if p.target.mode@ == "sta"@ {
        Mode::Static
    } else if p.target.mode@ == "dyn"@ {
        Mode::Dynamic
    } else {
        Mode::Invalid
    }
}

/// The recognized C++ language standards.
pub open spec fn valid_std(n: i64) -> bool {
    n == 98 || n == 11 || n == 14 || n == 17 || n == 20
}

/// The recognized optimization levels.
pub open spec fn valid_ol(n: i8) -> bool {
    0 <= n <= 3
}

/// The recognized compiler names.
pub open spec fn valid_cxx(s: Seq<char>) -> bool {
    s == "g++"@ || s == "clang++"@
}

/// A project is valid when the compiler, the optimization level, the
/// language standard and the mode are all recognized.
pub open spec fn valid_project(p: &Project) -> bool {
    &&& valid_cxx(p.complier.cxx@)
    &&& valid_ol(p.complier.ol)
    &&& valid_std(p.complier.std)
    &&& !(mode_of(p) is Invalid)
}

impl Project {
    /// The build mode that the configured mode string denotes.
    pub fn get_mode(&self) -> (m: Mode)
        ensures
            m == mode_of(self),
    {
        if self.target.mode == "sta".to_owned() {
            Mode::Static
        } else if self.target.mode == "dyn".to_owned() {
            Mode::Dynamic
        } else {
            Mode::Invalid
        }
    }

    /// Whether the configured C++ standard is one of the recognized ones.
    pub fn check_std(&self) -> (r: bool)
        ensures
            r == valid_std(self.complier.std),
    {
        let n = self.complier.std;
        n == 98 || n == 11 || n == 14 || n == 17 || n == 20
    }

    /// Whether the configured optimization level is recognized.
    pub fn check_ol(&self) -> (r: bool)
        ensures
            r == valid_ol(self.complier.ol),
    {
        0 <= self.complier.ol && self.complier.ol <= 3
    }

    /// Whether the configured compiler is one of the recognized ones.
    pub fn check_complier(&self) -> (r: bool)
        ensures
            r == valid_cxx(self.complier.cxx@),
    {
        self.complier.cxx == "g++".to_owned() || self.complier.cxx == "clang++".to_owned()
    }
}

/// Whether a file extension marks a compilable C++ source or header file.
pub open spec fn recognized_extension(ext: Seq<char>) -> bool {
    ext == "cxx"@ || ext == "cpp"@ || ext == "hpp"@
}

/// Whether a file with the given extension belongs in the source file set.
pub fn is_cpp_source_ext(ext: &String) -> (r: bool)
    ensures
        r == recognized_extension(ext@),
{
    *ext == "cxx".to_owned() || *ext == "cpp".to_owned() || *ext == "hpp".to_owned()
}

} // verus!
