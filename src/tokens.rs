use vstd::prelude::*;

verus! {

/// The characters with the Unicode `White_Space` property.
pub open spec fn is_ws(c: char) -> bool {
    let n = c as u32;
    (0x09 <= n && n <= 0x0d) || n == 0x20 || n == 0x85 || n == 0xa0 || n == 0x1680
        || (0x2000 <= n && n <= 0x200a) || n == 0x2028 || n == 0x2029 || n == 0x202f
        || n == 0x205f || n == 0x3000
}

/// A token: a non-empty run of characters none of which is whitespace.
pub open spec fn is_word(w: Seq<char>) -> bool {
    w.len() > 0 && forall|i: int| 0 <= i < w.len() ==> !is_ws(#[trigger] w[i])
}

/// A non-empty run of whitespace.
pub open spec fn is_gap(g: Seq<char>) -> bool {
    g.len() > 0 && forall|i: int| 0 <= i < g.len() ==> is_ws(#[trigger] g[i])
}

/// Length of the run of non-whitespace characters at the start of `s`.
pub open spec fn word_len(s: Seq<char>) -> nat
    decreases s.len(),
{
    if s.len() == 0 || is_ws(s[0]) {
        0
    } else {
        1 + word_len(s.subrange(1, s.len() as int))
    }
}

/// The whitespace-separated tokens of `s`, in order: leading and trailing
/// whitespace is ignored and a run of whitespace separates two tokens.
pub open spec fn tokens(s: Seq<char>) -> Seq<Seq<char>>
    decreases s.len(),
    via tokens_decreases
{
    if s.len() == 0 {
        seq![]
    } else if is_ws(s[0]) {
        tokens(s.subrange(1, s.len() as int))
    } else {
        let n = word_len(s);
        seq![s.subrange(0, n as int)] + tokens(s.subrange(n as int, s.len() as int))
    }
}

#[via_fn]
proof fn tokens_decreases(s: Seq<char>) {
    lemma_word_len_bound(s);
}

proof fn lemma_word_len_bound(s: Seq<char>)
    ensures
        word_len(s) <= s.len(),
        s.len() > 0 && !is_ws(s[0]) ==> word_len(s) > 0,
        forall|i: int| 0 <= i < word_len(s) ==> !is_ws(#[trigger] s[i]),
        word_len(s) < s.len() ==> is_ws(s[word_len(s) as int]),
    decreases s.len(),
{
    if s.len() > 0 && !is_ws(s[0]) {
        let t = s.subrange(1, s.len() as int);
        lemma_word_len_bound(t);
        assert forall|i: int| 0 <= i < word_len(s) implies !is_ws(#[trigger] s[i]) by {
            if i > 0 {
                assert(s[i] == t[i - 1]);
            }
        }
        if word_len(s) < s.len() {
            assert(s[word_len(s) as int] == t[word_len(t) as int]);
        }
    }
}

/// `word_len` of a word followed by text that starts with whitespace (or nothing).
proof fn lemma_word_len_of_word(w: Seq<char>, t: Seq<char>)
    requires
        forall|i: int| 0 <= i < w.len() ==> !is_ws(#[trigger] w[i]),
        t.len() == 0 || is_ws(t[0]),
    ensures
        word_len(w + t) == w.len(),
    decreases w.len(),
{
    let s = w + t;
    if w.len() == 0 {
        assert(s =~= t);
    } else {
        let w1 = w.subrange(1, w.len() as int);
        assert(s.subrange(1, s.len() as int) =~= w1 + t);
        assert(!is_ws(w[0]));
        lemma_word_len_of_word(w1, t);
    }
}

/// Whitespace in front of text does not change its tokens.
pub proof fn lemma_tokens_skip_gap(g: Seq<char>, t: Seq<char>)
    requires
        forall|i: int| 0 <= i < g.len() ==> is_ws(#[trigger] g[i]),
    ensures
        tokens(g + t) == tokens(t),
    decreases g.len(),
{
    if g.len() == 0 {
        assert(g + t =~= t);
    } else {
        let g1 = g.subrange(1, g.len() as int);
        assert((g + t).subrange(1, (g + t).len() as int) =~= g1 + t);
        assert(is_ws(g[0]));
        lemma_tokens_skip_gap(g1, t);
    }
}

/// A word followed by whitespace (or by nothing) is the first token.
pub proof fn lemma_tokens_word(w: Seq<char>, t: Seq<char>)
    requires
        is_word(w),
        t.len() == 0 || is_ws(t[0]),
    ensures
        tokens(w + t) == seq![w] + tokens(t),
{
    let s = w + t;
    lemma_word_len_of_word(w, t);
    assert(!is_ws(s[0]));
    assert(s.subrange(0, w.len() as int) =~= w);
    assert(s.subrange(w.len() as int, s.len() as int) =~= t);
}

/// Exactly the characters for which `char::is_whitespace` holds.
pub fn is_whitespace(c: char) -> (r: bool)
    ensures
        r == is_ws(c),
{
    let n = c as u32;
    (0x09 <= n && n <= 0x0d) || n == 0x20 || n == 0x85 || n == 0xa0 || n == 0x1680 || (0x2000
        <= n && n <= 0x200a) || n == 0x2028 || n == 0x2029 || n == 0x202f || n == 0x205f || n
        == 0x3000
}

/// Splits `s` into its whitespace-separated tokens.
pub fn split_whitespace(s: &str) -> (r: Vec<String>)
    ensures
        r@.map_values(|t: String| t@) == tokens(s@),
{
    let len = s.unicode_len();
    let mut out: Vec<String> = Vec::new();
    let mut i: usize = 0;
    assert(s@.subrange(0, len as int) =~= s@);
    assert(out@.map_values(|t: String| t@) + tokens(s@) =~= tokens(s@));
    while i < len
        invariant
            len == s@.len(),
            i <= len,
            out@.map_values(|t: String| t@) + tokens(s@.subrange(i as int, len as int)) == tokens(
                s@,
            ),
        decreases len - i,
    {
        let ghost rest = s@.subrange(i as int, len as int);
        let c = s.get_char(i);
        if is_whitespace(c) {
            assert(rest.subrange(1, rest.len() as int) =~= s@.subrange(i + 1, len as int));
            i = i + 1;
        } else {
            let start = i;
            let mut j: usize = i + 1;
            while j < len && !is_whitespace(s.get_char(j))
                invariant
                    len == s@.len(),
                    start < j <= len,
                    forall|k: int| start <= k < j ==> !is_ws(#[trigger] s@[k]),
                decreases len - j,
            {
                j = j + 1;
            }
            proof {
                let w = s@.subrange(start as int, j as int);
                let t = s@.subrange(j as int, len as int);
                assert(rest =~= w + t);
                assert forall|k: int| 0 <= k < w.len() implies !is_ws(#[trigger] w[k]) by {
                    assert(w[k] == s@[start + k]);
                }
                lemma_tokens_word(w, t);
            }
            let word = String::from_str(s.substring_char(start, j));
            let ghost before = out@;
            out.push(word);
            assert(out@.map_values(|t: String| t@) =~= before.map_values(|t: String| t@).push(
                word@,
            ));
            i = j;
        }
    }
    assert(s@.subrange(len as int, len as int) =~= Seq::<char>::empty());
    assert(out@.map_values(|t: String| t@) + seq![] =~= out@.map_values(|t: String| t@));
    out
}

} // verus!
