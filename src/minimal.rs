use vstd::prelude::*;

use crate::assemble::strs;
use crate::error::Error;
use crate::exe::{classified, emscripten_args, emscripten_launch, emscripten_name, ToolView};
use crate::family::ToolFamily;

verus! {

/// A compiler's invocation without any wrapper or behavior-changing flags:
/// the path of the executable (its interpreter, for a script), the fixed
/// arguments, and the family it was classified into.
#[derive(Clone, Debug)]
pub struct Minimal {
    name: String,
    path: String,
    args: Vec<String>,
    family: ToolFamily,
}

impl View for Minimal {
    type V = ToolView;

    closed spec fn view(&self) -> ToolView {
        ToolView { name: self.name@, path: self.path@, args: strs(self.args@), family: self.family }
    }
}

impl Minimal {
    fn from_path_with_args(name: String, path: &str, args: Vec<String>, output: &str) -> (r: Result<
        Minimal,
        Error,
    >)
        ensures
            classified(
                name@,
                path@,
                strs(args@),
                output@,
                match r {
                    Ok(e) => Ok(e@),
                    Err(e) => Err(e),
                },
            ),
    {
        match ToolFamily::detect(path, output) {
            Ok(family) => Ok(Minimal { name, path: String::from_str(path), args, family }),
            Err(e) => Err(e),
        }
    }

    /// A `Minimal` for the compiler at the canonical path `path`, whose family
    /// detection probe printed `output` (ignored when the name decides).
    pub fn from_path(name: String, path: &str, output: &str) -> (r: Result<Minimal, Error>)
        ensures
            classified(
                name@,
                path@,
                seq![],
                output@,
                match r {
                    Ok(e) => Ok(e@),
                    Err(e) => Err(e),
                },
            ),
    {
        let args: Vec<String> = Vec::new();
        assert(strs(args@) =~= seq![]);
        Minimal::from_path_with_args(name, path, args, output)
    }

    /// The Emscripten C or C++ compiler, where `path` is the canonical path of
    /// [`emscripten_program`] and `output` what its detection probe printed.
    pub fn emscripten(cpp: bool, windows: bool, path: &str, output: &str) -> (r: Result<
        Minimal,
        Error,
    >)
        ensures
            classified(
                emscripten_name(cpp),
                path@,
                emscripten_args(cpp, windows),
                output@,
                match r {
                    Ok(e) => Ok(e@),
                    Err(e) => Err(e),
                },
            ),
    {
        let (name, args) = emscripten_launch(cpp, windows);
        Minimal::from_path_with_args(name, path, args, output)
    }

    /// The path of the executable; for a script this is its interpreter.
    pub fn path(&self) -> (r: &str)
        ensures
            r@ == self@.path,
    {
        self.path.as_str()
    }

    /// The family the compiler was classified into.
    pub fn family(&self) -> (r: ToolFamily)
        ensures
            r == self@.family,
    {
        self.family
    }

    /// The familiar name used in messages.
    pub fn name(&self) -> (r: &str)
        ensures
            r@ == self@.name,
    {
        self.name.as_str()
    }

    /// The fixed leading arguments.
    pub fn args(&self) -> (r: &Vec<String>)
        ensures
            strs(r@) == self@.args,
    {
        &self.args
    }
}

} // verus!
