//! A small build orchestrator for C++ projects: from a declarative project
//! description and a list of discovered source files it generates the exact
//! compiler, archiver and linker command lines for a static or dynamic
//! library plus a linked executable, and drives them through a finite-state
//! execution engine that stops on the first failure.

pub mod config;
pub mod text;
pub mod command;
