use vstd::prelude::*;

use crate::assemble::strs;
use crate::error::Error;
use crate::tokens::{split_whitespace, tokens};

verus! {

/// The dialect of command-line flags that a compiler speaks.
#[derive(Clone, Copy, Debug, PartialEq, Eq, Structural)]
pub enum ToolFamily {
    /// GCC and compilers that take its flags.
    Gnu,
    /// Clang, which takes GNU spellings but is told its target explicitly.
    Clang,
    /// Microsoft's `cl.exe` and compilers that mimic it.
    Msvc,
}

/// `/` and `\` both end a directory component.
pub open spec fn is_path_sep(c: char) -> bool {
    c == '/' || c == '\\'
}

/// Index at which the last component of `p` starts: just past the last separator.
pub open spec fn name_start(p: Seq<char>) -> nat
    decreases p.len(),
{
    if p.len() == 0 {
        0
    } else if is_path_sep(p.last()) {
        p.len()
    } else {
        name_start(p.drop_last())
    }
}

/// Index of the last `.` in `n`, or -1 where there is none.
pub open spec fn last_dot(n: Seq<char>) -> int
    decreases n.len(),
{
    if n.len() == 0 {
        -1
    } else if n.last() == '.' {
        n.len() - 1
    } else {
        last_dot(n.drop_last())
    }
}

/// The last component of `p` without its extension: `"/usr/bin/cl.exe"` gives
/// `"cl"`. A name whose only dot is its first character keeps it (`".hidden"`).
pub open spec fn file_stem(p: Seq<char>) -> Seq<char> {
    let n = p.subrange(name_start(p) as int, p.len() as int);
    if last_dot(n) > 0 {
        n.subrange(0, last_dot(n))
    } else {
        n
    }
}

/// The stem of the last component of a path, as [`file_stem`] defines it.
pub fn path_file_stem(p: &str) -> (r: String)
    ensures
        r@ == file_stem(p@),
{
    let len = p.unicode_len();
    let mut k: usize = len;
    assert(p@.subrange(0, len as int) =~= p@);
    while k > 0 && !(p.get_char(k - 1) == '/' || p.get_char(k - 1) == '\\')
        invariant
            len == p@.len(),
            k <= len,
            name_start(p@) == name_start(p@.subrange(0, k as int)),
        decreases k,
    {
        assert(p@.subrange(0, k as int).drop_last() =~= p@.subrange(0, k - 1));
        k = k - 1;
    }
    let name = p.substring_char(k, len);
    let nlen = name.unicode_len();
    let mut d: usize = nlen;
    assert(name@.subrange(0, nlen as int) =~= name@);
    while d > 0 && name.get_char(d - 1) != '.'
        invariant
            nlen == name@.len(),
            d <= nlen,
            last_dot(name@) == last_dot(name@.subrange(0, d as int)),
        decreases d,
    {
        assert(name@.subrange(0, d as int).drop_last() =~= name@.subrange(0, d - 1));
        d = d - 1;
    }
    if d > 1 {
        String::from_str(name.substring_char(0, d - 1))
    } else {
        String::from_str(name)
    }
}

/// The family that a detection probe's output announces in a token of its own.
pub open spec fn marker_family(t: Seq<char>) -> Option<ToolFamily> {
    if t == "msvc"@ {
        Some(ToolFamily::Msvc)
    } else if t == "clang"@ {
        Some(ToolFamily::Clang)
    } else if t == "gnu"@ {
        Some(ToolFamily::Gnu)
    } else {
        None
    }
}

/// The family announced by the first marker among `ts`.
pub open spec fn first_marker(ts: Seq<Seq<char>>) -> Option<ToolFamily>
    decreases ts.len(),
{
    if ts.len() == 0 {
        None
    } else if marker_family(ts[0]) is Some {
        marker_family(ts[0])
    } else {
        first_marker(ts.drop_first())
    }
}

/// The family that a tool's path alone decides: a tool whose stem is `cl` is MSVC.
pub open spec fn named_family(path: Seq<char>) -> Option<ToolFamily> {
    if file_stem(path) == "cl"@ {
        Some(ToolFamily::Msvc)
    } else {
        None
    }
}

/// The family of the tool at `path` whose detection probe printed `output`,
/// if either decides it.
pub open spec fn detected_family(path: Seq<char>, output: Seq<char>) -> Option<ToolFamily> {
    if named_family(path) is Some {
        named_family(path)
    } else {
        first_marker(tokens(output))
    }
}

impl ToolFamily {
    /// The family decided by the tool's name alone; when this is `None` the
    /// detection probe has to be run.
    pub fn from_name(path: &str) -> (r: Option<ToolFamily>)
        ensures
            r == named_family(path@),
    {
        let stem = path_file_stem(path);
        if stem == String::from_str("cl") {
            Some(ToolFamily::Msvc)
        } else {
            None
        }
    }

    /// Reads the output of the detection probe: the first token that names a
    /// family decides it.
    pub fn from_probe_output(output: &str) -> (r: Option<ToolFamily>)
        ensures
            r == first_marker(tokens(output@)),
    {
        let toks = split_whitespace(output);
        let ghost tv = toks@.map_values(|t: String| t@);
        let msvc = String::from_str("msvc");
        let clang = String::from_str("clang");
        let gnu = String::from_str("gnu");
        let mut i: usize = 0;
        assert(tv.subrange(0, tv.len() as int) =~= tv);
        while i < toks.len()
            invariant
                tv == toks@.map_values(|t: String| t@),
                tv == tokens(output@),
                i <= toks.len(),
                msvc@ == "msvc"@,
                clang@ == "clang"@,
                gnu@ == "gnu"@,
                first_marker(tv) == first_marker(tv.subrange(i as int, tv.len() as int)),
            decreases toks.len() - i,
        {
            let ghost rest = tv.subrange(i as int, tv.len() as int);
            assert(rest[0] == toks@[i as int]@);
            if toks[i] == msvc {
                return Some(ToolFamily::Msvc);
            } else if toks[i] == clang {
                return Some(ToolFamily::Clang);
            } else if toks[i] == gnu {
                return Some(ToolFamily::Gnu);
            }
            assert(rest.drop_first() =~= tv.subrange(i + 1, tv.len() as int));
            i = i + 1;
        }
        None
    }

    /// Classifies the tool at `path` from its name or, failing that, from what
    /// its detection probe printed. Output that names no family is an error,
    /// never a guess.
    pub fn detect(path: &str, output: &str) -> (r: Result<ToolFamily, Error>)
        ensures
            match detected_family(path@, output@) {
                Some(f) => r == Ok::<ToolFamily, Error>(f),
                None => r matches Err(Error::ClassificationFailed { tool, output: o }) && tool@
                    == path@ && o@ == output@,
            },
    {
        match ToolFamily::from_name(path) {
            Some(f) => Ok(f),
            None => match ToolFamily::from_probe_output(output) {
                Some(f) => Ok(f),
                None => Err(
                    Error::ClassificationFailed {
                        tool: String::from_str(path),
                        output: String::from_str(output),
                    },
                ),
            },
        }
    }
}

/// The header that the detection probe preprocesses: it expands to `msvc`,
/// `clang` or `gnu` depending on the compiler's predefined macros.
pub open spec fn probe_source_text() -> Seq<char> {
    "#if defined(_MSC_VER)\nmsvc\n#elif defined(__clang__)\nclang\n#else\ngnu\n#endif\n"@
}

/// The text of the detection probe's header; see [`probe_source_text`].
pub fn family_probe_source() -> (r: String)
    ensures
        r@ == probe_source_text(),
{
    String::from_str("#if defined(_MSC_VER)\nmsvc\n#elif defined(__clang__)\nclang\n#else\ngnu\n#endif\n")
}

/// The arguments that preprocess the probe header at `header` and print the result.
pub fn family_probe_arguments(header: &str) -> (r: Vec<String>)
    ensures
        strs(r@) == seq!["-E"@, header@],
{
    let mut v: Vec<String> = Vec::new();
    v.push(String::from_str("-E"));
    v.push(String::from_str(header));
    assert(strs(v@) =~= seq!["-E"@, header@]);
    v
}

} // verus!
