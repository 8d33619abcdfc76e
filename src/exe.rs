use vstd::prelude::*;

use crate::assemble::strs;
use crate::error::Error;
use crate::family::{detected_family, ToolFamily};

verus! {

/// The minimum needed to run a compiler: its canonical path, fixed leading
/// arguments (non-empty only when a script is run through an interpreter such
/// as `cmd /c`), and the family it was classified into.
#[derive(Clone, Debug)]
pub struct Exe {
    name: String,
    path: String,
    args: Vec<String>,
    family: ToolFamily,
}

/// What an [`Exe`] or a [`crate::Minimal`] holds.
pub struct ToolView {
    pub name: Seq<char>,
    pub path: Seq<char>,
    pub args: Seq<Seq<char>>,
    pub family: ToolFamily,
}

impl View for Exe {
    type V = ToolView;

    closed spec fn view(&self) -> ToolView {
        ToolView { name: self.name@, path: self.path@, args: strs(self.args@), family: self.family }
    }
}

/// The outcome of building a tool called `name` at `path` with leading
/// arguments `args`, whose detection probe printed `output`.
pub open spec fn classified(
    name: Seq<char>,
    path: Seq<char>,
    args: Seq<Seq<char>>,
    output: Seq<char>,
    r: Result<ToolView, Error>,
) -> bool {
    match detected_family(path, output) {
        Some(f) => r matches Ok(v) && v == ToolView { name, path, args, family: f },
        None => r matches Err(Error::ClassificationFailed { tool, output: o }) && tool@ == path
            && o@ == output,
    }
}

/// Display name of the Emscripten compiler.
pub open spec fn emscripten_name(cpp: bool) -> Seq<char> {
    if cpp {
        "Emscripten C++"@
    } else {
        "Emscripten C"@
    }
}

/// The program to locate for Emscripten: its driver, or `cmd` on Windows,
/// where the driver is a batch file.
pub open spec fn emscripten_program_spec(cpp: bool, windows: bool) -> Seq<char> {
    if windows {
        "cmd"@
    } else if cpp {
        "em++"@
    } else {
        "emcc"@
    }
}

/// The leading arguments that run the Emscripten batch file through `cmd`.
pub open spec fn emscripten_args(cpp: bool, windows: bool) -> Seq<Seq<char>> {
    if windows {
        seq![
            "/c"@,
            if cpp {
                "em++.bat"@
            } else {
                "emcc.bat"@
            },
        ]
    } else {
        seq![]
    }
}

/// The program that has to be located to run Emscripten.
pub fn emscripten_program(cpp: bool, windows: bool) -> (r: String)
    ensures
        r@ == emscripten_program_spec(cpp, windows),
{
    String::from_str(
        if windows {
            "cmd"
        } else if cpp {
            "em++"
        } else {
            "emcc"
        },
    )
}

/// The display name of the Emscripten compiler and the fixed arguments that
/// run it through [`emscripten_program`].
pub fn emscripten_launch(cpp: bool, windows: bool) -> (r: (String, Vec<String>))
    ensures
        r.0@ == emscripten_name(cpp),
        strs(r.1@) == emscripten_args(cpp, windows),
{
    let name = String::from_str(
        if cpp {
            "Emscripten C++"
        } else {
            "Emscripten C"
        },
    );
    let mut args: Vec<String> = Vec::new();
    if windows {
        args.push(String::from_str("/c"));
        args.push(String::from_str(
            if cpp {
                "em++.bat"
            } else {
                "emcc.bat"
            },
        ));
    }
    assert(strs(args@) =~= emscripten_args(cpp, windows));
    (name, args)
}

impl Exe {
    fn from_path_with_args(name: String, path: &str, args: Vec<String>, output: &str) -> (r: Result<
        Exe,
        Error,
    >)
        ensures
            classified(
                name@,
                path@,
                strs(args@),
                output@,
                match r {
                    Ok(e) => Ok(e@),
                    Err(e) => Err(e),
                },
            ),
    {
        match ToolFamily::detect(path, output) {
            Ok(family) => Ok(Exe { name, path: String::from_str(path), args, family }),
            Err(e) => Err(e),
        }
    }

    /// An `Exe` for the compiler at the canonical path `path`, whose family
    /// detection probe printed `output` (ignored when the name decides).
    pub fn from_path(name: String, path: &str, output: &str) -> (r: Result<Exe, Error>)
        ensures
            classified(
                name@,
                path@,
                seq![],
                output@,
                match r {
                    Ok(e) => Ok(e@),
                    Err(e) => Err(e),
                },
            ),
    {
        let args: Vec<String> = Vec::new();
        assert(strs(args@) =~= seq![]);
        Exe::from_path_with_args(name, path, args, output)
    }

    /// The Emscripten C or C++ compiler, where `path` is the canonical path of
    /// [`emscripten_program`] and `output` what its detection probe printed.
    pub fn emscripten(cpp: bool, windows: bool, path: &str, output: &str) -> (r: Result<
        Exe,
        Error,
    >)
        ensures
            classified(
                emscripten_name(cpp),
                path@,
                emscripten_args(cpp, windows),
                output@,
                match r {
                    Ok(e) => Ok(e@),
                    Err(e) => Err(e),
                },
            ),
    {
        let (name, args) = emscripten_launch(cpp, windows);
        Exe::from_path_with_args(name, path, args, output)
    }

    /// The path of the executable; for a script this is its interpreter.
    pub fn path(&self) -> (r: &str)
        ensures
            r@ == self@.path,
    {
        self.path.as_str()
    }

    /// The family the compiler was classified into.
    pub fn family(&self) -> (r: ToolFamily)
        ensures
            r == self@.family,
    {
        self.family
    }

    /// The familiar name used in messages.
    pub fn name(&self) -> (r: &str)
        ensures
            r@ == self@.name,
    {
        self.name.as_str()
    }

    /// The fixed leading arguments.
    pub fn args(&self) -> (r: &Vec<String>)
        ensures
            strs(r@) == self@.args,
    {
        &self.args
    }
}

} // verus!
