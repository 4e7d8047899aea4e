//! Turns the dependency graph reported by `conan install` into build script
//! instructions for Cargo: library search paths, link libraries, include
//! directories and link arguments, in linking order.

pub mod graph;
pub mod install;
pub mod instructions;
pub mod json;
pub mod output;

pub use graph::{ConanDependencyGraph, GraphError};
pub use install::{ConanInstall, ConanVerbosity, build_type_settings, profile_detect_args};
pub use instructions::{CargoInstructions, DirectiveKind};
pub use json::Json;
pub use output::{CONAN_ENV, ConanError, ConanOutput};
