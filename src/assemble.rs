use vstd::prelude::*;

use crate::family::ToolFamily;
use crate::target::{spec_target_info, TargetInfo};
use crate::tokens::{split_whitespace, tokens};

verus! {

/// The texts of a sequence of strings.
pub open spec fn strs(v: Seq<String>) -> Seq<Seq<char>> {
    v.map_values(|s: String| s@)
}

/// Optimization level: `0`, `1`, `2`, `3`, `s` (size) or `z` (minimum size).
#[derive(Clone, Copy, Debug, PartialEq, Eq, Structural)]
pub enum OptLevel {
    Zero,
    One,
    Two,
    Three,
    Size,
    MinSize,
}

/// A preprocessor definition: `NAME` or `NAME=value`.
#[derive(Clone, Debug)]
pub struct Define {
    pub name: String,
    pub value: Option<String>,
}

/// Everything that decides the flags of one compilation.
#[derive(Clone, Debug)]
pub struct Config {
    /// Target triple, e.g. `x86_64-unknown-linux-gnu`.
    pub target: String,
    /// Host triple.
    pub host: String,
    pub opt_level: OptLevel,
    pub debug: bool,
    /// Emit the family's "all warnings" flag.
    pub warnings: bool,
    /// Emit the family's "extra warnings" flag, where it has one.
    pub extra_warnings: bool,
    pub warnings_into_errors: bool,
    /// Position-independent code; `None` follows the target's default.
    pub pic: Option<bool>,
    /// Calls through the PLT; `None` keeps the compiler's default.
    pub use_plt: Option<bool>,
    pub static_flag: bool,
    pub shared_flag: bool,
    /// MSVC: link the C runtime statically (`/MT`) rather than dynamically (`/MD`).
    pub static_crt: bool,
    /// Compile as C++.
    pub cpp: bool,
    /// C++ standard library to select, e.g. `c++` for `libc++`.
    pub cpp_stdlib: Option<String>,
    pub definitions: Vec<Define>,
    pub include_directories: Vec<String>,
    /// Flags passed as given, after the default warning flags.
    pub flags: Vec<String>,
    /// Flags passed only where the compiler accepts them.
    pub flags_supported: Vec<String>,
    /// Value of the C flags override variable (`CFLAGS`), if it is set.
    pub cflags_env: Option<String>,
    /// Value of the C++ flags override variable (`CXXFLAGS`), if it is set.
    pub cxxflags_env: Option<String>,
}

pub open spec fn gnu_opt_flag(level: OptLevel, f: ToolFamily) -> Seq<char> {
    match level {
        OptLevel::Zero => "-O0"@,
        OptLevel::One => "-O1"@,
        OptLevel::Two => "-O2"@,
        OptLevel::Three => "-O3"@,
        OptLevel::Size => "-Os"@,
        OptLevel::MinSize => if f == ToolFamily::Clang {
            "-Oz"@
        } else {
            "-Os"@
        },
    }
}

/// MSVC has no `/O3` and no separate size levels: `2` and `3` give `/O2`,
/// `1`, `s` and `z` give `/O1`, and `0` gives nothing.
pub open spec fn msvc_opt_flags(level: OptLevel) -> Seq<Seq<char>> {
    match level {
        OptLevel::Zero => seq![],
        OptLevel::Two | OptLevel::Three => seq!["/O2"@],
        _ => seq!["/O1"@],
    }
}

pub open spec fn pic_enabled(c: Config, t: TargetInfo) -> bool {
    match c.pic {
        Some(b) => b,
        None => !t.windows_gnu,
    }
}

/// Runtime library and optimization; for GNU and Clang also section and
/// position-independence flags, which MSVC does not take.
pub open spec fn codegen_segment(c: Config, f: ToolFamily) -> Seq<Seq<char>> {
    let t = spec_target_info(c.target@);
    if f == ToolFamily::Msvc {
        seq![
            if c.static_crt {
                "/MT"@
            } else {
                "/MD"@
            },
        ] + msvc_opt_flags(c.opt_level)
    } else {
        seq![gnu_opt_flag(c.opt_level, f)] + (if t.ios {
            seq![]
        } else {
            seq!["-ffunction-sections"@, "-fdata-sections"@]
        }) + (if pic_enabled(c, t) {
            seq!["-fPIC"@] + (if t.linux && c.use_plt == Some(false) {
                seq!["-fno-plt"@]
            } else {
                seq![]
            })
        } else {
            seq![]
        })
    }
}

/// A flags override variable is set and non-empty.
pub open spec fn env_override(c: Config) -> bool {
    (c.cflags_env is Some && c.cflags_env->0@.len() > 0) || (c.cxxflags_env is Some
        && c.cxxflags_env->0@.len() > 0)
}

/// The tokens of the override variable of the language being compiled.
pub open spec fn env_segment(c: Config) -> Seq<Seq<char>> {
    let v = if c.cpp {
        c.cxxflags_env
    } else {
        c.cflags_env
    };
    match v {
        Some(s) => tokens(s@),
        None => seq![],
    }
}

pub open spec fn debug_flag(f: ToolFamily) -> Seq<char> {
    if f == ToolFamily::Msvc {
        "/Z7"@
    } else {
        "-g"@
    }
}

pub open spec fn debug_segment(c: Config, f: ToolFamily) -> Seq<Seq<char>> {
    if c.debug {
        seq![debug_flag(f)]
    } else {
        seq![]
    }
}

/// Clang is told the target; GNU is told the word size of x86 and PowerPC targets.
pub open spec fn target_segment(c: Config, f: ToolFamily) -> Seq<Seq<char>> {
    let t = spec_target_info(c.target@);
    match f {
        ToolFamily::Clang => seq!["--target="@ + c.target@],
        ToolFamily::Msvc => seq![],
        ToolFamily::Gnu => if t.x86_32 {
            seq!["-m32"@]
        } else if t.wide64 {
            seq!["-m64"@]
        } else {
            seq![]
        },
    }
}

pub open spec fn link_segment(c: Config) -> Seq<Seq<char>> {
    (if c.static_flag {
        seq!["-static"@]
    } else {
        seq![]
    }) + (if c.shared_flag {
        seq!["-shared"@]
    } else {
        seq![]
    })
}

/// The standard library is chosen only for C++ and only where the family can do it.
pub open spec fn stdlib_segment(c: Config, f: ToolFamily) -> Seq<Seq<char>> {
    if c.cpp && c.cpp_stdlib is Some && f != ToolFamily::Msvc {
        seq!["-stdlib=lib"@ + c.cpp_stdlib->0@]
    } else {
        seq![]
    }
}

pub open spec fn include_flag(f: ToolFamily) -> Seq<char> {
    if f == ToolFamily::Msvc {
        "/I"@
    } else {
        "-I"@
    }
}

/// The header-search switch followed by the directory, for each directory in order.
pub open spec fn include_segment(dirs: Seq<Seq<char>>, f: ToolFamily) -> Seq<Seq<char>>
    decreases dirs.len(),
{
    if dirs.len() == 0 {
        seq![]
    } else {
        include_segment(dirs.drop_last(), f) + seq![include_flag(f), dirs.last()]
    }
}

pub open spec fn warnings_flag(f: ToolFamily) -> Seq<char> {
    if f == ToolFamily::Msvc {
        "/W4"@
    } else {
        "-Wall"@
    }
}

/// MSVC has no flag for extra warnings.
pub open spec fn extra_warnings_flag(f: ToolFamily) -> Option<Seq<char>> {
    if f == ToolFamily::Msvc {
        None
    } else {
        Some("-Wextra"@)
    }
}

/// The default warning flags, left out entirely when a flags override variable is set.
pub open spec fn warning_segment(c: Config, f: ToolFamily) -> Seq<Seq<char>> {
    if env_override(c) {
        seq![]
    } else {
        (if c.warnings {
            seq![warnings_flag(f)]
        } else {
            seq![]
        }) + (if c.extra_warnings && extra_warnings_flag(f) is Some {
            seq![extra_warnings_flag(f)->0]
        } else {
            seq![]
        })
    }
}

/// Everything before the user's own flags.
pub open spec fn pre_segment(c: Config, f: ToolFamily) -> Seq<Seq<char>> {
    codegen_segment(c, f) + env_segment(c) + debug_segment(c, f) + target_segment(c, f)
        + link_segment(c) + stdlib_segment(c, f) + include_segment(strs(c.include_directories@), f)
        + warning_segment(c, f)
}

/// The candidates whose probe said yes, in order.
pub open spec fn supported_segment(cands: Seq<Seq<char>>, probed: Seq<bool>) -> Seq<Seq<char>>
    decreases cands.len(),
{
    if cands.len() == 0 {
        seq![]
    } else {
        supported_segment(cands.drop_last(), probed) + (if probed[cands.len() - 1] {
            seq![cands.last()]
        } else {
            seq![]
        })
    }
}

pub open spec fn define_lead(f: ToolFamily) -> Seq<char> {
    if f == ToolFamily::Msvc {
        "/D"@
    } else {
        "-D"@
    }
}

/// `-DNAME` or `-DNAME=value` (`/D` for MSVC).
pub open spec fn define_flag(d: Define, f: ToolFamily) -> Seq<char> {
    match d.value {
        Some(v) => define_lead(f) + d.name@ + "="@ + v@,
        None => define_lead(f) + d.name@,
    }
}

pub open spec fn define_segment(defs: Seq<Define>, f: ToolFamily) -> Seq<Seq<char>> {
    defs.map_values(|d: Define| define_flag(d, f))
}

pub open spec fn werror_flag(f: ToolFamily) -> Seq<char> {
    if f == ToolFamily::Msvc {
        "/WX"@
    } else {
        "-Werror"@
    }
}

/// Everything after the user's own flags.
pub open spec fn post_segment(c: Config, f: ToolFamily, probed: Seq<bool>) -> Seq<Seq<char>> {
    supported_segment(strs(c.flags_supported@), probed) + define_segment(c.definitions@, f) + (
    if c.warnings_into_errors {
        seq![werror_flag(f)]
    } else {
        seq![]
    })
}

/// The flags of one compilation, in order. `probed[i]` says whether the compiler
/// accepts `flags_supported[i]`.
pub open spec fn compile_flags(c: Config, f: ToolFamily, probed: Seq<bool>) -> Seq<Seq<char>> {
    pre_segment(c, f) + strs(c.flags@) + post_segment(c, f, probed)
}

fn one(s: &str) -> (r: Vec<String>)
    ensures
        strs(r@) == seq![s@],
{
    let mut v: Vec<String> = Vec::new();
    v.push(String::from_str(s));
    assert(strs(v@) =~= seq![s@]);
    v
}

fn none() -> (r: Vec<String>)
    ensures
        strs(r@) == Seq::<Seq<char>>::empty(),
{
    let v: Vec<String> = Vec::new();
    assert(strs(v@) =~= Seq::<Seq<char>>::empty());
    v
}

fn extend(out: &mut Vec<String>, more: Vec<String>)
    ensures
        strs(final(out)@) == strs(old(out)@) + strs(more@),
{
    let mut m = more;
    let ghost a = out@;
    let ghost b = m@;
    out.append(&mut m);
    assert(strs(out@) =~= strs(a) + strs(b));
}

fn clone_strings(v: &Vec<String>) -> (r: Vec<String>)
    ensures
        strs(r@) == strs(v@),
{
    let mut out: Vec<String> = Vec::new();
    let mut i: usize = 0;
    while i < v.len()
        invariant
            i <= v.len(),
            strs(out@) == strs(v@.subrange(0, i as int)),
        decreases v.len() - i,
    {
        let ghost before = out@;
        let c = v[i].clone();
        assert(c@ == v@[i as int]@);
        out.push(c);
        assert(strs(out@) =~= strs(before).push(c@));
        assert(strs(v@.subrange(0, i + 1)) =~= strs(v@.subrange(0, i as int)).push(v@[i as int]@));
        i = i + 1;
    }
    assert(v@.subrange(0, v.len() as int) =~= v@);
    out
}

impl Config {
    /// A configuration for `target` built on `host`: no optimization, no debug
    /// information, default warnings on, nothing else requested.
    pub fn new(target: &str, host: &str) -> (r: Config)
        ensures
            r.target@ == target@,
            r.host@ == host@,
            r.opt_level == OptLevel::Zero,
            !r.debug,
            r.warnings,
            r.extra_warnings,
            !r.warnings_into_errors,
            r.pic is None,
            r.use_plt is None,
            !r.static_flag,
            !r.shared_flag,
            !r.static_crt,
            !r.cpp,
            r.cpp_stdlib is None,
            r.definitions@.len() == 0,
            r.include_directories@.len() == 0,
            r.flags@.len() == 0,
            r.flags_supported@.len() == 0,
            r.cflags_env is None,
            r.cxxflags_env is None,
    {
        Config {
            target: String::from_str(target),
            host: String::from_str(host),
            opt_level: OptLevel::Zero,
            debug: false,
            warnings: true,
            extra_warnings: true,
            warnings_into_errors: false,
            pic: None,
            use_plt: None,
            static_flag: false,
            shared_flag: false,
            static_crt: false,
            cpp: false,
            cpp_stdlib: None,
            definitions: Vec::new(),
            include_directories: Vec::new(),
            flags: Vec::new(),
            flags_supported: Vec::new(),
            cflags_env: None,
            cxxflags_env: None,
        }
    }

    fn codegen_flags(&self, f: ToolFamily, t: TargetInfo) -> (r: Vec<String>)
        requires
            t == spec_target_info(self.target@),
        ensures
            strs(r@) == codegen_segment(*self, f),
    {
        if f == ToolFamily::Msvc {
            let mut out = one(if self.static_crt {
                "/MT"
            } else {
                "/MD"
            });
            match self.opt_level {
                OptLevel::Zero => {},
                OptLevel::Two | OptLevel::Three => extend(&mut out, one("/O2")),
                _ => extend(&mut out, one("/O1")),
            }
            assert(strs(out@) =~= codegen_segment(*self, f));
            out
        } else {
            let mut out = one(
                match self.opt_level {
                    OptLevel::Zero => "-O0",
                    OptLevel::One => "-O1",
                    OptLevel::Two => "-O2",
                    OptLevel::Three => "-O3",
                    OptLevel::Size => "-Os",
                    OptLevel::MinSize => if f == ToolFamily::Clang {
                        "-Oz"
                    } else {
                        "-Os"
                    },
                },
            );
            if !t.ios {
                extend(&mut out, one("-ffunction-sections"));
                extend(&mut out, one("-fdata-sections"));
            }
            let pic = match self.pic {
                Some(b) => b,
                None => !t.windows_gnu,
            };
            if pic {
                extend(&mut out, one("-fPIC"));
                if t.linux && self.use_plt == Some(false) {
                    extend(&mut out, one("-fno-plt"));
                }
            }
            assert(strs(out@) =~= codegen_segment(*self, f));
            out
        }
    }

    /// Whether a flags override variable is set and non-empty; the default
    /// warning flags are then left out.
    pub fn has_flags_override(&self) -> (r: bool)
        ensures
            r == env_override(*self),
    {
        let c = match &self.cflags_env {
            Some(s) => s.as_str().unicode_len() > 0,
            None => false,
        };
        let cxx = match &self.cxxflags_env {
            Some(s) => s.as_str().unicode_len() > 0,
            None => false,
        };
        c || cxx
    }

    fn env_flags(&self) -> (r: Vec<String>)
        ensures
            strs(r@) == env_segment(*self),
    {
        let v = if self.cpp {
            &self.cxxflags_env
        } else {
            &self.cflags_env
        };
        match v {
            Some(s) => {
                let r = split_whitespace(s.as_str());
                assert(strs(r@) =~= r@.map_values(|t: String| t@));
                r
            },
            None => none(),
        }
    }

    fn target_flags(&self, f: ToolFamily, t: TargetInfo) -> (r: Vec<String>)
        requires
            t == spec_target_info(self.target@),
        ensures
            strs(r@) == target_segment(*self, f),
    {
        match f {
            ToolFamily::Clang => {
                let mut s = String::from_str("--target=");
                s.append(self.target.as_str());
                let mut v: Vec<String> = Vec::new();
                v.push(s);
                assert(strs(v@) =~= target_segment(*self, f));
                v
            },
            ToolFamily::Msvc => none(),
            ToolFamily::Gnu => if t.x86_32 {
                one("-m32")
            } else if t.wide64 {
                one("-m64")
            } else {
                none()
            },
        }
    }

    fn link_flags(&self) -> (r: Vec<String>)
        ensures
            strs(r@) == link_segment(*self),
    {
        let mut out = none();
        if self.static_flag {
            extend(&mut out, one("-static"));
        }
        if self.shared_flag {
            extend(&mut out, one("-shared"));
        }
        assert(strs(out@) =~= link_segment(*self));
        out
    }

    fn stdlib_flags(&self, f: ToolFamily) -> (r: Vec<String>)
        ensures
            strs(r@) == stdlib_segment(*self, f),
    {
        if self.cpp && f != ToolFamily::Msvc {
            match &self.cpp_stdlib {
                Some(lib) => {
                    let mut s = String::from_str("-stdlib=lib");
                    s.append(lib.as_str());
                    let mut v: Vec<String> = Vec::new();
                    v.push(s);
                    assert(strs(v@) =~= stdlib_segment(*self, f));
                    v
                },
                None => none(),
            }
        } else {
            none()
        }
    }

    fn include_flags(&self, f: ToolFamily) -> (r: Vec<String>)
        ensures
            strs(r@) == include_segment(strs(self.include_directories@), f),
    {
        let dirs = &self.include_directories;
        let ghost dv = strs(dirs@);
        let mut out: Vec<String> = Vec::new();
        let mut i: usize = 0;
        assert(strs(out@) =~= include_segment(dv.subrange(0, 0), f));
        while i < dirs.len()
            invariant
                dirs == &self.include_directories,
                dv == strs(dirs@),
                i <= dirs.len(),
                strs(out@) == include_segment(dv.subrange(0, i as int), f),
            decreases dirs.len() - i,
        {
            let ghost before = out@;
            out.push(String::from_str(
                if f == ToolFamily::Msvc {
                    "/I"
                } else {
                    "-I"
                },
            ));
            out.push(dirs[i].clone());
            assert(dv.subrange(0, i + 1).drop_last() =~= dv.subrange(0, i as int));
            assert(strs(out@) =~= strs(before) + seq![include_flag(f), dv[i as int]]);
            i = i + 1;
        }
        assert(dv.subrange(0, dirs.len() as int) =~= dv);
        out
    }

    fn warning_flags(&self, f: ToolFamily) -> (r: Vec<String>)
        ensures
            strs(r@) == warning_segment(*self, f),
    {
        let mut out = none();
        if !self.has_flags_override() {
            if self.warnings {
                extend(
                    &mut out,
                    one(
                        if f == ToolFamily::Msvc {
                            "/W4"
                        } else {
                            "-Wall"
                        },
                    ),
                );
            }
            if self.extra_warnings && f != ToolFamily::Msvc {
                extend(&mut out, one("-Wextra"));
            }
        }
        assert(strs(out@) =~= warning_segment(*self, f));
        out
    }

    fn supported_flags(&self, probed: &Vec<bool>) -> (r: Vec<String>)
        requires
            probed@.len() == self.flags_supported@.len(),
        ensures
            strs(r@) == supported_segment(strs(self.flags_supported@), probed@),
    {
        let cands = &self.flags_supported;
        let ghost cv = strs(cands@);
        let mut out: Vec<String> = Vec::new();
        let mut i: usize = 0;
        assert(strs(out@) =~= supported_segment(cv.subrange(0, 0), probed@));
        while i < cands.len()
            invariant
                cands == &self.flags_supported,
                cv == strs(cands@),
                probed@.len() == cands@.len(),
                i <= cands.len(),
                strs(out@) == supported_segment(cv.subrange(0, i as int), probed@),
            decreases cands.len() - i,
        {
            if probed[i] {
                out.push(cands[i].clone());
            }
            assert(cv.subrange(0, i + 1).drop_last() =~= cv.subrange(0, i as int));
            assert(strs(out@) =~= supported_segment(cv.subrange(0, i + 1), probed@));
            i = i + 1;
        }
        assert(cv.subrange(0, cands.len() as int) =~= cv);
        out
    }

    fn define_flags(&self, f: ToolFamily) -> (r: Vec<String>)
        ensures
            strs(r@) == define_segment(self.definitions@, f),
    {
        let defs = &self.definitions;
        let mut out: Vec<String> = Vec::new();
        let mut i: usize = 0;
        while i < defs.len()
            invariant
                defs == &self.definitions,
                i <= defs.len(),
                strs(out@) == define_segment(defs@.subrange(0, i as int), f),
            decreases defs.len() - i,
        {
            let d = &defs[i];
            let mut s = String::from_str(
                if f == ToolFamily::Msvc {
                    "/D"
                } else {
                    "-D"
                },
            );
            s.append(d.name.as_str());
            match &d.value {
                Some(v) => {
                    s.append("=");
                    s.append(v.as_str());
                },
                None => {},
            }
            assert(s@ == define_flag(*d, f));
            let ghost before = out@;
            out.push(s);
            assert(strs(out@) =~= strs(before).push(s@));
            assert(defs@.subrange(0, i + 1) =~= defs@.subrange(0, i as int).push(*d));
            assert(define_segment(defs@.subrange(0, i + 1), f) =~= define_segment(
                defs@.subrange(0, i as int),
                f,
            ).push(define_flag(*d, f)));
            i = i + 1;
        }
        assert(defs@.subrange(0, defs.len() as int) =~= defs@);
        out
    }

    /// The ordered flags of one compilation with a compiler of family `f`.
    /// `probed[i]` is the support probe's answer for `flags_supported[i]`.
    pub fn compile_flags(&self, f: ToolFamily, probed: &Vec<bool>) -> (r: Vec<String>)
        requires
            probed@.len() == self.flags_supported@.len(),
        ensures
            strs(r@) == compile_flags(*self, f, probed@),
    {
        let t = TargetInfo::parse(self.target.as_str());
        let mut out = self.codegen_flags(f, t);
        extend(&mut out, self.env_flags());
        if self.debug {
            extend(
                &mut out,
                one(
                    if f == ToolFamily::Msvc {
                        "/Z7"
                    } else {
                        "-g"
                    },
                ),
            );
        }
        extend(&mut out, self.target_flags(f, t));
        extend(&mut out, self.link_flags());
        extend(&mut out, self.stdlib_flags(f));
        extend(&mut out, self.include_flags(f));
        extend(&mut out, self.warning_flags(f));
        assert(strs(out@) =~= pre_segment(*self, f));
        extend(&mut out, clone_strings(&self.flags));
        extend(&mut out, self.supported_flags(probed));
        extend(&mut out, self.define_flags(f));
        if self.warnings_into_errors {
            extend(
                &mut out,
                one(
                    if f == ToolFamily::Msvc {
                        "/WX"
                    } else {
                        "-Werror"
                    },
                ),
            );
        }
        assert(strs(out@) =~= compile_flags(*self, f, probed@));
        out
    }
}


/// Output file, compile-only switch and source file, after the flags.
pub open spec fn output_segment(f: ToolFamily, src: Seq<char>, obj: Seq<char>) -> Seq<Seq<char>> {
    if f == ToolFamily::Msvc {
        seq!["/Fo"@ + obj, "/c"@, src]
    } else {
        seq!["-o"@, obj, "-c"@, src]
    }
}

/// Arguments of the archiver that packs `objs` into the library `lib`.
pub open spec fn archive_args(f: ToolFamily, lib: Seq<char>, objs: Seq<Seq<char>>) -> Seq<
    Seq<char>,
> {
    if f == ToolFamily::Msvc {
        seq!["/OUT:"@ + lib, "/nologo"@] + objs
    } else {
        seq!["crs"@, lib] + objs
    }
}

impl Config {
    /// The whole argument list that compiles `src` into the object file `obj`.
    pub fn compile_arguments(&self, f: ToolFamily, probed: &Vec<bool>, src: &str, obj: &str) -> (r:
        Vec<String>)
        requires
            probed@.len() == self.flags_supported@.len(),
        ensures
            strs(r@) == compile_flags(*self, f, probed@) + output_segment(f, src@, obj@),
    {
        let mut out = self.compile_flags(f, probed);
        if f == ToolFamily::Msvc {
            let mut o = String::from_str("/Fo");
            o.append(obj);
            let mut tail: Vec<String> = Vec::new();
            tail.push(o);
            tail.push(String::from_str("/c"));
            tail.push(String::from_str(src));
            assert(strs(tail@) =~= output_segment(f, src@, obj@));
            extend(&mut out, tail);
        } else {
            let mut tail: Vec<String> = Vec::new();
            tail.push(String::from_str("-o"));
            tail.push(String::from_str(obj));
            tail.push(String::from_str("-c"));
            tail.push(String::from_str(src));
            assert(strs(tail@) =~= output_segment(f, src@, obj@));
            extend(&mut out, tail);
        }
        out
    }
}

/// The arguments that make the archiver of family `f` pack `objs` into `lib`.
pub fn archive_arguments(f: ToolFamily, lib: &str, objs: &Vec<String>) -> (r: Vec<String>)
    ensures
        strs(r@) == archive_args(f, lib@, strs(objs@)),
{
    let mut out: Vec<String> = Vec::new();
    if f == ToolFamily::Msvc {
        let mut o = String::from_str("/OUT:");
        o.append(lib);
        out.push(o);
        out.push(String::from_str("/nologo"));
    } else {
        out.push(String::from_str("crs"));
        out.push(String::from_str(lib));
    }
    extend(&mut out, clone_strings(objs));
    assert(strs(out@) =~= archive_args(f, lib@, strs(objs@)));
    out
}


/// A flag whose second character is `W`: the shape of every default warning flag.
pub open spec fn w_shaped(t: Seq<char>) -> bool {
    t.len() > 1 && t[1] == 'W'
}

/// No token of `s` has the shape of a warning flag.
pub open spec fn free_of_w(s: Seq<Seq<char>>) -> bool {
    forall|i: int| 0 <= i < s.len() ==> !w_shaped(#[trigger] s[i])
}

proof fn lemma_literal_shapes()
    ensures
        w_shaped("-Wall"@),
        w_shaped("-Wextra"@),
        w_shaped("/W4"@),
        "-Werror"@ != "-Wall"@,
        "-Werror"@ != "-Wextra"@,
        "/WX"@ != "/W4"@,
        !w_shaped("-O0"@),
        !w_shaped("-O1"@),
        !w_shaped("-O2"@),
        !w_shaped("-O3"@),
        !w_shaped("-Os"@),
        !w_shaped("-Oz"@),
        !w_shaped("/O1"@),
        !w_shaped("/O2"@),
        !w_shaped("/MT"@),
        !w_shaped("/MD"@),
        !w_shaped("-ffunction-sections"@),
        !w_shaped("-fdata-sections"@),
        !w_shaped("-fPIC"@),
        !w_shaped("-fno-plt"@),
        !w_shaped("-g"@),
        !w_shaped("/Z7"@),
        !w_shaped("-m32"@),
        !w_shaped("-m64"@),
        !w_shaped("-static"@),
        !w_shaped("-shared"@),
        !w_shaped("-I"@),
        !w_shaped("/I"@),
        "--target="@.len() == 9 && "--target="@[1] == '-',
        "-stdlib=lib"@.len() == 11 && "-stdlib=lib"@[1] == 's',
        "-D"@.len() == 2 && "-D"@[1] == 'D',
        "/D"@.len() == 2 && "/D"@[1] == 'D',
{
    reveal_strlit("-Wall");
    reveal_strlit("-Wextra");
    reveal_strlit("/W4");
    reveal_strlit("-Werror");
    reveal_strlit("/WX");
    reveal_strlit("-O0");
    reveal_strlit("-O1");
    reveal_strlit("-O2");
    reveal_strlit("-O3");
    reveal_strlit("-Os");
    reveal_strlit("-Oz");
    reveal_strlit("/O1");
    reveal_strlit("/O2");
    reveal_strlit("/MT");
    reveal_strlit("/MD");
    reveal_strlit("-ffunction-sections");
    reveal_strlit("-fdata-sections");
    reveal_strlit("-fPIC");
    reveal_strlit("-fno-plt");
    reveal_strlit("-g");
    reveal_strlit("/Z7");
    reveal_strlit("-m32");
    reveal_strlit("-m64");
    reveal_strlit("-static");
    reveal_strlit("-shared");
    reveal_strlit("-I");
    reveal_strlit("/I");
    reveal_strlit("--target=");
    reveal_strlit("-stdlib=lib");
    reveal_strlit("-D");
    reveal_strlit("/D");
    assert("-Werror"@[3] != "-Wextra"@[3]);
    assert("/WX"@[2] != "/W4"@[2]);
}

/// The flags that the assembler makes up itself, other than the warning ones,
/// never have the shape of a warning flag.
proof fn lemma_made_up_flags(c: Config, f: ToolFamily)
    ensures
        free_of_w(codegen_segment(c, f)),
        free_of_w(debug_segment(c, f)),
        free_of_w(target_segment(c, f)),
        free_of_w(link_segment(c)),
        free_of_w(stdlib_segment(c, f)),
        free_of_w(define_segment(c.definitions@, f)),
{
    lemma_literal_shapes();
    let t = spec_target_info(c.target@);
    if f == ToolFamily::Clang {
        let x = "--target="@ + c.target@;
        assert(x[1] == '-');
    }
    if c.cpp && c.cpp_stdlib is Some && f != ToolFamily::Msvc {
        let x = "-stdlib=lib"@ + c.cpp_stdlib->0@;
        assert(x[1] == 's');
    }
    let ds = define_segment(c.definitions@, f);
    assert forall|i: int| 0 <= i < ds.len() implies !w_shaped(#[trigger] ds[i]) by {
        let d = c.definitions@[i];
        let lead = define_lead(f);
        match d.value {
            Some(v) => assert((lead + d.name@ + "="@ + v@)[1] == lead[1]),
            None => assert((lead + d.name@)[1] == lead[1]),
        }
    }
}

/// Every token of the header-search segment is its switch or one of the directories.
proof fn lemma_include_tokens(dirs: Seq<Seq<char>>, f: ToolFamily)
    ensures
        forall|i: int|
            0 <= i < include_segment(dirs, f).len() ==> #[trigger] include_segment(dirs, f)[i]
                == include_flag(f) || dirs.contains(include_segment(dirs, f)[i]),
    decreases dirs.len(),
{
    if dirs.len() > 0 {
        let d = dirs.drop_last();
        lemma_include_tokens(d, f);
        let s = include_segment(dirs, f);
        assert forall|i: int| 0 <= i < s.len() implies #[trigger] s[i] == include_flag(f)
            || dirs.contains(s[i]) by {
            if i < include_segment(d, f).len() {
                if s[i] != include_flag(f) {
                    let k = choose|k: int| 0 <= k < d.len() && d[k] == s[i];
                    assert(dirs[k] == s[i]);
                }
            } else if s[i] != include_flag(f) {
                assert(dirs[dirs.len() - 1] == s[i]);
            }
        }
    }
}

/// `x` is a candidate whose probe said yes.
pub open spec fn accepted(cands: Seq<Seq<char>>, probed: Seq<bool>, x: Seq<char>) -> bool {
    exists|k: int| 0 <= k < cands.len() && probed[k] && cands[k] == x
}

/// Every token of the supported segment is a candidate whose probe said yes.
proof fn lemma_supported_tokens(cands: Seq<Seq<char>>, probed: Seq<bool>)
    requires
        probed.len() == cands.len(),
    ensures
        forall|i: int|
            0 <= i < supported_segment(cands, probed).len() ==> accepted(
                cands,
                probed,
                #[trigger] supported_segment(cands, probed)[i],
            ),
    decreases cands.len(),
{
    if cands.len() > 0 {
        let d = cands.drop_last();
        let pd = probed.drop_last();
        lemma_supported_tokens(d, pd);
        assert(supported_segment(d, probed) == supported_segment(d, pd)) by {
            lemma_supported_prefix(d, probed, pd);
        }
        let s = supported_segment(cands, probed);
        let last = if probed[cands.len() - 1] {
            seq![cands.last()]
        } else {
            seq![]
        };
        assert(s == supported_segment(d, pd) + last);
        assert forall|i: int| 0 <= i < s.len() implies accepted(cands, probed, #[trigger] s[i]) by {
            if i < supported_segment(d, pd).len() {
                assert(s[i] == supported_segment(d, pd)[i]);
                assert(accepted(d, pd, supported_segment(d, pd)[i]));
                let k = choose|k: int| 0 <= k < d.len() && pd[k] && d[k] == s[i];
                assert(cands[k] == s[i] && probed[k]);
            } else {
                assert(cands[cands.len() - 1] == s[i]);
            }
        }
    }
}

/// Only the answers for the candidates themselves matter.
proof fn lemma_supported_prefix(cands: Seq<Seq<char>>, answers_a: Seq<bool>, answers_b: Seq<bool>)
    requires
        cands.len() <= answers_a.len(),
        cands.len() <= answers_b.len(),
        forall|k: int| 0 <= k < cands.len() ==> answers_a[k] == answers_b[k],
    ensures
        supported_segment(cands, answers_a) == supported_segment(cands, answers_b),
    decreases cands.len(),
{
    if cands.len() > 0 {
        lemma_supported_prefix(cands.drop_last(), answers_a, answers_b);
    }
}

/// Assembling depends on nothing but its inputs: two assemblies from the same
/// configuration, family and probe answers give identical token sequences.
pub proof fn lemma_assembly_is_deterministic(
    c: Config,
    f: ToolFamily,
    probed: Seq<bool>,
    first: Seq<String>,
    second: Seq<String>,
)
    requires
        strs(first) == compile_flags(c, f, probed),
        strs(second) == compile_flags(c, f, probed),
    ensures
        strs(first) == strs(second),
{
}

/// With the default warning flag requested, a user flag `flags[j]` that narrows
/// it comes after every occurrence of that flag, so the compiler's
/// last-one-wins rule lets the user's choice stand. The user's own later flags
/// and accepted candidates must not repeat the default flag.
pub proof fn lemma_user_flags_follow_default_warnings(
    c: Config,
    f: ToolFamily,
    probed: Seq<bool>,
    j: int,
)
    requires
        probed.len() == c.flags_supported@.len(),
        c.warnings,
        0 <= j < c.flags@.len(),
        forall|k: int| j <= k < c.flags@.len() ==> c.flags@[k]@ != warnings_flag(f),
        forall|k: int|
            0 <= k < probed.len() && probed[k] ==> c.flags_supported@[k]@ != warnings_flag(f),
    ensures
        ({
            let r = compile_flags(c, f, probed);
            let q = pre_segment(c, f).len() + j;
            &&& q < r.len()
            &&& r[q] == c.flags@[j]@
            &&& forall|p: int| 0 <= p < r.len() && r[p] == warnings_flag(f) ==> p < q
            &&& !env_override(c) ==> exists|p: int| 0 <= p < q && r[p] == warnings_flag(f)
        }),
{
    let w = warnings_flag(f);
    let pre = pre_segment(c, f);
    let user = strs(c.flags@);
    let post = post_segment(c, f, probed);
    let r = compile_flags(c, f, probed);
    let q = pre.len() + j;
    assert(r == pre + user + post);
    lemma_literal_shapes();
    lemma_made_up_flags(c, f);
    let cands = strs(c.flags_supported@);
    lemma_supported_tokens(cands, probed);
    let sup = supported_segment(cands, probed);
    let defs = define_segment(c.definitions@, f);
    let tail = if c.warnings_into_errors {
        seq![werror_flag(f)]
    } else {
        seq![]
    };
    assert(post == sup + defs + tail);
    assert forall|p: int| 0 <= p < r.len() && r[p] == w implies p < q by {
        if p >= q {
            if p < pre.len() + user.len() {
                assert(user[p - pre.len()] == w);
            } else {
                let i = p - pre.len() - user.len();
                assert(post[i] == w);
                if i < sup.len() {
                    let k = choose|k: int| 0 <= k < cands.len() && probed[k] && cands[k] == sup[i];
                    assert(c.flags_supported@[k]@ == cands[k]);
                } else if i < sup.len() + defs.len() {
                    assert(defs[i - sup.len()] == w);
                } else {
                    assert(tail[i - sup.len() - defs.len()] == w);
                }
            }
        }
    }
    if !env_override(c) {
        let ws = warning_segment(c, f);
        let p = pre.len() - ws.len();
        assert(ws[0] == w);
        assert(pre[p] == w);
        assert(r[p] == w);
    }
}

/// No token of `s` is `x`.
pub open spec fn lacks(s: Seq<Seq<char>>, x: Seq<char>) -> bool {
    forall|i: int| 0 <= i < s.len() ==> #[trigger] s[i] != x
}

proof fn lemma_lacks_concat(a: Seq<Seq<char>>, b: Seq<Seq<char>>, x: Seq<char>)
    requires
        lacks(a, x),
        lacks(b, x),
    ensures
        lacks(a + b, x),
{
    assert forall|i: int| 0 <= i < (a + b).len() implies #[trigger] (a + b)[i] != x by {
        if i >= a.len() {
            assert((a + b)[i] == b[i - a.len()]);
        }
    }
}

proof fn lemma_lacks_made_up(s: Seq<Seq<char>>, x: Seq<char>)
    requires
        free_of_w(s),
        w_shaped(x),
    ensures
        lacks(s, x),
{
    assert forall|i: int| 0 <= i < s.len() implies #[trigger] s[i] != x by {
        assert(!w_shaped(s[i]));
    }
}

proof fn lemma_lacks_listed(s: Seq<Seq<char>>, x: Seq<char>)
    requires
        !s.contains(x),
    ensures
        lacks(s, x),
{
    assert forall|i: int| 0 <= i < s.len() implies #[trigger] s[i] != x by {
        if s[i] == x {
            assert(s.contains(x));
        }
    }
}

/// Under a flags override, a warning-shaped token that the user does not
/// write is absent from the assembled flags.
proof fn lemma_override_lacks(c: Config, f: ToolFamily, probed: Seq<bool>, x: Seq<char>)
    requires
        env_override(c),
        probed.len() == c.flags_supported@.len(),
        w_shaped(x),
        x != werror_flag(f),
        !env_segment(c).contains(x),
        !strs(c.include_directories@).contains(x),
        !strs(c.flags@).contains(x),
        !strs(c.flags_supported@).contains(x),
    ensures
        !compile_flags(c, f, probed).contains(x),
{
    lemma_literal_shapes();
    lemma_made_up_flags(c, f);
    let dirs = strs(c.include_directories@);
    lemma_include_tokens(dirs, f);
    let cands = strs(c.flags_supported@);
    lemma_supported_tokens(cands, probed);
    let inc = include_segment(dirs, f);
    let sup = supported_segment(cands, probed);
    let defs = define_segment(c.definitions@, f);
    let tail = if c.warnings_into_errors {
        seq![werror_flag(f)]
    } else {
        seq![]
    };
    lemma_lacks_made_up(codegen_segment(c, f), x);
    lemma_lacks_made_up(debug_segment(c, f), x);
    lemma_lacks_made_up(target_segment(c, f), x);
    lemma_lacks_made_up(link_segment(c), x);
    lemma_lacks_made_up(stdlib_segment(c, f), x);
    lemma_lacks_made_up(defs, x);
    lemma_lacks_listed(env_segment(c), x);
    lemma_lacks_listed(dirs, x);
    lemma_lacks_listed(cands, x);
    lemma_lacks_listed(strs(c.flags@), x);
    assert(lacks(inc, x)) by {
        assert forall|i: int| 0 <= i < inc.len() implies #[trigger] inc[i] != x by {
            if inc[i] != include_flag(f) {
                let k = choose|k: int| 0 <= k < dirs.len() && dirs[k] == inc[i];
            }
        }
    }
    assert(lacks(sup, x)) by {
        assert forall|i: int| 0 <= i < sup.len() implies #[trigger] sup[i] != x by {
            let k = choose|k: int| 0 <= k < cands.len() && probed[k] && cands[k] == sup[i];
        }
    }
    assert(lacks(tail, x));
    assert(warning_segment(c, f) =~= seq![]);
    let a1 = codegen_segment(c, f) + env_segment(c);
    lemma_lacks_concat(codegen_segment(c, f), env_segment(c), x);
    let a2 = a1 + debug_segment(c, f);
    lemma_lacks_concat(a1, debug_segment(c, f), x);
    let a3 = a2 + target_segment(c, f);
    lemma_lacks_concat(a2, target_segment(c, f), x);
    let a4 = a3 + link_segment(c);
    lemma_lacks_concat(a3, link_segment(c), x);
    let a5 = a4 + stdlib_segment(c, f);
    lemma_lacks_concat(a4, stdlib_segment(c, f), x);
    let a6 = a5 + inc;
    lemma_lacks_concat(a5, inc, x);
    let a7 = a6 + warning_segment(c, f);
    lemma_lacks_concat(a6, warning_segment(c, f), x);
    assert(a7 == pre_segment(c, f));
    let b1 = sup + defs;
    lemma_lacks_concat(sup, defs, x);
    let b2 = b1 + tail;
    lemma_lacks_concat(b1, tail, x);
    assert(b2 == post_segment(c, f, probed));
    lemma_lacks_concat(a7, strs(c.flags@), x);
    lemma_lacks_concat(a7 + strs(c.flags@), b2, x);
    let r = compile_flags(c, f, probed);
    if r.contains(x) {
        let p = choose|p: int| 0 <= p < r.len() && r[p] == x;
        assert(false);
    }
}

/// A set, non-empty flags override variable removes the default "all warnings"
/// and "extra warnings" flags whatever `warnings` and `extra_warnings` say,
/// provided the user's own tokens do not spell them.
pub proof fn lemma_override_drops_default_warnings(c: Config, f: ToolFamily, probed: Seq<bool>)
    requires
        env_override(c),
        probed.len() == c.flags_supported@.len(),
        !env_segment(c).contains(warnings_flag(f)),
        !strs(c.include_directories@).contains(warnings_flag(f)),
        !strs(c.flags@).contains(warnings_flag(f)),
        !strs(c.flags_supported@).contains(warnings_flag(f)),
        extra_warnings_flag(f) is Some ==> {
            let e = extra_warnings_flag(f)->0;
            &&& !env_segment(c).contains(e)
            &&& !strs(c.include_directories@).contains(e)
            &&& !strs(c.flags@).contains(e)
            &&& !strs(c.flags_supported@).contains(e)
        },
    ensures
        !compile_flags(c, f, probed).contains(warnings_flag(f)),
        extra_warnings_flag(f) is Some ==> !compile_flags(c, f, probed).contains(
            extra_warnings_flag(f)->0,
        ),
{
    lemma_literal_shapes();
    lemma_override_lacks(c, f, probed, warnings_flag(f));
    if extra_warnings_flag(f) is Some {
        lemma_override_lacks(c, f, probed, extra_warnings_flag(f)->0);
    }
}

} // verus!
