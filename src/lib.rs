//! Resolution, classification and invocation of native C/C++ compiler toolchains.
//!
//! The library turns a declarative build configuration into the ordered
//! command lines that a GNU-, Clang- or MSVC-style compiler expects, parses
//! compiler-selection overrides such as `"ccache cc -m32"`, locates
//! executables on a search path, interprets the output of family-detection
//! and flag-support trial runs, and keeps the process-wide cache of
//! flag-support answers. Starting processes and canonicalizing paths is left
//! to the caller; every decision on the values that come back is made here.

pub mod assemble;
pub mod error;
pub mod exe;
pub mod executable;
pub mod family;
pub mod minimal;
pub mod probe;
pub mod resolve;
pub mod target;
pub mod tokens;
pub mod wrapper;

pub use assemble::{archive_arguments, Config, Define, OptLevel};
pub use error::{Error, ErrorKind};
pub use exe::{emscripten_launch, emscripten_program, Exe, ToolView};
pub use executable::{Build, BuildView, Executable, ExecutableView, Msvc, MsvcView};
pub use family::{family_probe_arguments, family_probe_source, path_file_stem, ToolFamily};
pub use minimal::Minimal;
pub use probe::{
    probe_arguments, probe_verdict, settled_answer, FlagProbeCache, ProbeEntry, ProbeKey, ProbeStep,
};
pub use resolve::{locate_executable, not_found, strip_extended_prefix};
pub use target::{target_fields, TargetInfo};
pub use tokens::{is_whitespace, split_whitespace};
pub use wrapper::{
    finish_override, known_wrappers, parse_override, resolve_override, InvocationView,
    ResolvedOverride, WrapperInvocation,
};
