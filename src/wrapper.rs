use vstd::prelude::*;

use crate::assemble::strs;
use crate::error::Error;
use crate::family::{file_stem, path_file_stem};
use crate::resolve::which_in;
use crate::tokens::{is_gap, is_word, lemma_tokens_skip_gap, lemma_tokens_word, split_whitespace, tokens};

verus! {

/// A compiler-selection override taken apart: an optional caching or
/// distributing wrapper, the real compiler, and the flags that follow.
#[derive(Clone, Debug)]
pub struct WrapperInvocation {
    pub wrapper: Option<String>,
    pub compiler: String,
    pub flags: Vec<String>,
}

/// The texts of a [`WrapperInvocation`].
pub struct InvocationView {
    pub wrapper: Option<Seq<char>>,
    pub compiler: Seq<char>,
    pub flags: Seq<Seq<char>>,
}

impl View for WrapperInvocation {
    type V = InvocationView;

    open spec fn view(&self) -> InvocationView {
        InvocationView {
            wrapper: match self.wrapper {
                Some(w) => Some(w@),
                None => None,
            },
            compiler: self.compiler@,
            flags: strs(self.flags@),
        }
    }
}

/// The wrappers recognized out of the box.
pub open spec fn default_wrappers() -> Seq<Seq<char>> {
    seq!["ccache"@, "distcc"@, "sccache"@, "icecc"@]
}

/// How an override with tokens `toks` reads, where a first token whose file
/// stem is in `wrappers` is a wrapper: with a second token after it, that is
/// the compiler; otherwise the first token is the compiler. Whatever follows
/// the compiler are flags. No token at all gives no invocation.
pub open spec fn invocation_of(toks: Seq<Seq<char>>, wrappers: Seq<Seq<char>>) -> Option<
    InvocationView,
> {
    if toks.len() == 0 {
        None
    } else if toks.len() >= 2 && wrappers.contains(file_stem(toks[0])) {
        Some(
            InvocationView {
                wrapper: Some(toks[0]),
                compiler: toks[1],
                flags: toks.subrange(2, toks.len() as int),
            },
        )
    } else {
        Some(
            InvocationView {
                wrapper: None,
                compiler: toks[0],
                flags: toks.subrange(1, toks.len() as int),
            },
        )
    }
}

/// How the override string `value` reads.
pub open spec fn parse_spec(value: Seq<char>, wrappers: Seq<Seq<char>>) -> Option<InvocationView> {
    invocation_of(tokens(value), wrappers)
}

/// The wrappers recognized out of the box: `ccache`, `distcc`, `sccache`, `icecc`.
pub fn known_wrappers() -> (r: Vec<String>)
    ensures
        strs(r@) == default_wrappers(),
{
    let mut v: Vec<String> = Vec::new();
    v.push(String::from_str("ccache"));
    v.push(String::from_str("distcc"));
    v.push(String::from_str("sccache"));
    v.push(String::from_str("icecc"));
    assert(strs(v@) =~= default_wrappers());
    v
}

fn tail_from(v: &Vec<String>, start: usize) -> (r: Vec<String>)
    requires
        start <= v@.len(),
    ensures
        strs(r@) == strs(v@).subrange(start as int, v@.len() as int),
{
    let mut out: Vec<String> = Vec::new();
    let mut i: usize = start;
    while i < v.len()
        invariant
            start <= i <= v@.len(),
            strs(out@) == strs(v@).subrange(start as int, i as int),
        decreases v.len() - i,
    {
        let c = v[i].clone();
        let ghost before = out@;
        out.push(c);
        assert(strs(out@) =~= strs(before).push(c@));
        assert(strs(v@).subrange(start as int, i + 1) =~= strs(v@).subrange(
            start as int,
            i as int,
        ).push(v@[i as int]@));
        i = i + 1;
    }
    out
}

fn contains_text(v: &Vec<String>, x: &String) -> (r: bool)
    ensures
        r == strs(v@).contains(x@),
{
    let mut i: usize = 0;
    while i < v.len()
        invariant
            i <= v.len(),
            forall|k: int| 0 <= k < i ==> strs(v@)[k] != x@,
        decreases v.len() - i,
    {
        if v[i] == *x {
            assert(strs(v@)[i as int] == x@);
            return true;
        }
        i = i + 1;
    }
    false
}

/// Takes an override string such as `"ccache cc -m32"` apart. Whitespace around
/// and between tokens is not significant. `None` when the string holds no token.
pub fn parse_override(value: &str, wrappers: &Vec<String>) -> (r: Option<WrapperInvocation>)
    ensures
        match r {
            Some(w) => parse_spec(value@, strs(wrappers@)) == Some(w@),
            None => parse_spec(value@, strs(wrappers@)) is None,
        },
{
    let toks = split_whitespace(value);
    let ghost tv = strs(toks@);
    assert(tv == tokens(value@));
    if toks.len() == 0 {
        return None;
    }
    if toks.len() >= 2 && contains_text(wrappers, &path_file_stem(toks[0].as_str())) {
        let inv = WrapperInvocation {
            wrapper: Some(toks[0].clone()),
            compiler: toks[1].clone(),
            flags: tail_from(&toks, 2),
        };
        assert(inv@.flags == tv.subrange(2, tv.len() as int));
        Some(inv)
    } else {
        let inv = WrapperInvocation {
            wrapper: None,
            compiler: toks[0].clone(),
            flags: tail_from(&toks, 1),
        };
        Some(inv)
    }
}

/// A wrapper followed by a compiler reads the same whatever whitespace separates them.
pub proof fn lemma_gap_width_is_irrelevant(
    wrapper: Seq<char>,
    compiler: Seq<char>,
    gap1: Seq<char>,
    gap2: Seq<char>,
    wrappers: Seq<Seq<char>>,
)
    requires
        is_word(wrapper),
        is_word(compiler),
        is_gap(gap1),
        is_gap(gap2),
    ensures
        parse_spec(wrapper + gap1 + compiler, wrappers) == parse_spec(
            wrapper + gap2 + compiler,
            wrappers,
        ),
{
    lemma_two_words(wrapper, gap1, compiler);
    lemma_two_words(wrapper, gap2, compiler);
}

proof fn lemma_two_words(a: Seq<char>, gap: Seq<char>, b: Seq<char>)
    requires
        is_word(a),
        is_word(b),
        is_gap(gap),
    ensures
        tokens(a + gap + b) == seq![a, b],
{
    assert(a + gap + b =~= a + (gap + b));
    assert((gap + b)[0] == gap[0]);
    lemma_tokens_word(a, gap + b);
    lemma_tokens_skip_gap(gap, b);
    assert(b + Seq::<char>::empty() =~= b);
    lemma_tokens_word(b, Seq::<char>::empty());
    assert(tokens(Seq::<char>::empty()) == Seq::<Seq<char>>::empty());
    assert(seq![a] + (seq![b] + Seq::<Seq<char>>::empty()) =~= seq![a, b]);
}

/// A compiler that is not a known wrapper, followed by two flags, reads as that
/// compiler with those two flags in order and no wrapper.
pub proof fn lemma_compiler_then_flags(
    compiler: Seq<char>,
    flag1: Seq<char>,
    flag2: Seq<char>,
    gap1: Seq<char>,
    gap2: Seq<char>,
    wrappers: Seq<Seq<char>>,
)
    requires
        is_word(compiler),
        is_word(flag1),
        is_word(flag2),
        is_gap(gap1),
        is_gap(gap2),
        !wrappers.contains(file_stem(compiler)),
    ensures
        parse_spec(compiler + gap1 + flag1 + gap2 + flag2, wrappers) == Some(
            InvocationView { wrapper: None, compiler, flags: seq![flag1, flag2] },
        ),
{
    let rest = flag1 + gap2 + flag2;
    lemma_two_words(flag1, gap2, flag2);
    assert(compiler + gap1 + flag1 + gap2 + flag2 =~= compiler + (gap1 + rest));
    assert((gap1 + rest)[0] == gap1[0]);
    lemma_tokens_word(compiler, gap1 + rest);
    lemma_tokens_skip_gap(gap1, rest);
    let toks = seq![compiler] + seq![flag1, flag2];
    assert(toks.subrange(1, 3) =~= seq![flag1, flag2]);
    assert(toks =~= seq![compiler, flag1, flag2]);
}

/// An override whose compiler was located.
#[derive(Clone, Debug)]
pub struct ResolvedOverride {
    pub invocation: WrapperInvocation,
    /// Where the compiler was found.
    pub compiler_path: String,
}

/// The outcome of an override whose compiler lookup gave `lookup`: a failed
/// lookup is `OverrideParseFailed`, never a guess.
pub open spec fn override_outcome_ok(
    value: Seq<char>,
    wrappers: Seq<Seq<char>>,
    lookup: Result<Seq<char>, Seq<char>>,
    r: Result<ResolvedOverride, Error>,
) -> bool {
    match parse_spec(value, wrappers) {
        None => r matches Err(Error::OverrideParseFailed { value: v }) && v@ == value,
        Some(inv) => match lookup {
            Err(_) => r matches Err(Error::OverrideParseFailed { value: v }) && v@ == value,
            Ok(p) => r matches Ok(o) && o.invocation@ == inv && o.compiler_path@ == p,
        },
    }
}

/// Settles an override once its compiler has been looked up: `lookup` is where
/// the compiler token was found, or why it was not.
pub fn finish_override(value: &str, wrappers: &Vec<String>, lookup: Result<String, String>) -> (r:
    Result<ResolvedOverride, Error>)
    ensures
        override_outcome_ok(
            value@,
            strs(wrappers@),
            match lookup {
                Ok(p) => Ok(p@),
                Err(e) => Err(e@),
            },
            r,
        ),
{
    match parse_override(value, wrappers) {
        None => Err(Error::OverrideParseFailed { value: String::from_str(value) }),
        Some(inv) => match lookup {
            Err(_) => Err(Error::OverrideParseFailed { value: String::from_str(value) }),
            Ok(p) => Ok(ResolvedOverride { invocation: inv, compiler_path: p }),
        },
    }
}

/// Reads a compiler-selection override and locates its compiler in
/// `search_path` (relative names against `cwd`). The parse is exact; whether
/// the compiler is found depends on the filesystem.
pub fn resolve_override(
    value: &str,
    wrappers: &Vec<String>,
    search_path: Option<&str>,
    cwd: &str,
) -> (r: Result<ResolvedOverride, Error>)
    ensures
        exists|lookup: Result<Seq<char>, Seq<char>>|
            override_outcome_ok(value@, strs(wrappers@), lookup, r),
{
    match parse_override(value, wrappers) {
        None => {
            let r = Err(Error::OverrideParseFailed { value: String::from_str(value) });
            assert(override_outcome_ok(value@, strs(wrappers@), Err(Seq::<char>::empty()), r));
            r
        },
        Some(inv) => {
            let lookup = which_in(inv.compiler.as_str(), search_path, cwd);
            let r = finish_override(value, wrappers, lookup);
            r
        },
    }
}

impl ResolvedOverride {
    /// The compiler setting to hand on to tools the build runs: wrapper, the
    /// located compiler and the flags, separated by single spaces. Empty when
    /// there is no wrapper.
    pub fn cc_env(&self) -> (r: String)
        ensures
            match self.invocation.wrapper {
                Some(w) => r@ == w@ + " "@ + self.compiler_path@ + joined_flags(
                    strs(self.invocation.flags@),
                ),
                None => r@.len() == 0,
            },
    {
        match &self.invocation.wrapper {
            None => String::new(),
            Some(w) => {
                let mut s = w.clone();
                s.append(" ");
                s.append(self.compiler_path.as_str());
                let flags = &self.invocation.flags;
                let ghost fv = strs(flags@);
                let ghost head = s@;
                let mut i: usize = 0;
                assert(joined_flags(fv.subrange(0, 0)) == Seq::<char>::empty());
                assert(head + Seq::<char>::empty() =~= head);
                while i < flags.len()
                    invariant
                        fv == strs(flags@),
                        i <= flags.len(),
                        s@ == head + joined_flags(fv.subrange(0, i as int)),
                    decreases flags.len() - i,
                {
                    s.append(" ");
                    s.append(flags[i].as_str());
                    assert(fv.subrange(0, i + 1).drop_last() =~= fv.subrange(0, i as int));
                    assert(s@ =~= head + joined_flags(fv.subrange(0, i + 1)));
                    i = i + 1;
                }
                assert(fv.subrange(0, flags.len() as int) =~= fv);
                s
            },
        }
    }
}

/// Each flag preceded by a space.
pub open spec fn joined_flags(flags: Seq<Seq<char>>) -> Seq<char>
    decreases flags.len(),
{
    if flags.len() == 0 {
        seq![]
    } else {
        joined_flags(flags.drop_last()) + " "@ + flags.last()
    }
}

} // verus!
