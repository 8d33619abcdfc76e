use vstd::prelude::*;

verus! {

/// Number of characters of `s` before the first `-` (all of them where there is none).
pub open spec fn field_len(s: Seq<char>) -> nat
    decreases s.len(),
{
    if s.len() == 0 || s[0] == '-' {
        0
    } else {
        1 + field_len(s.subrange(1, s.len() as int))
    }
}

/// The `-`-separated components of a target triple, in order; `"a--b"` has an
/// empty middle component.
pub open spec fn fields(s: Seq<char>) -> Seq<Seq<char>>
    decreases s.len(),
    via fields_decreases
{
    let n = field_len(s);
    if n >= s.len() {
        seq![s]
    } else {
        seq![s.subrange(0, n as int)] + fields(s.subrange(n as int + 1, s.len() as int))
    }
}

proof fn lemma_field_len(s: Seq<char>)
    ensures
        field_len(s) <= s.len(),
        forall|i: int| 0 <= i < field_len(s) ==> #[trigger] s[i] != '-',
        field_len(s) < s.len() ==> s[field_len(s) as int] == '-',
    decreases s.len(),
{
    if s.len() > 0 && s[0] != '-' {
        let t = s.subrange(1, s.len() as int);
        lemma_field_len(t);
        assert forall|i: int| 0 <= i < field_len(s) implies #[trigger] s[i] != '-' by {
            if i > 0 {
                assert(s[i] == t[i - 1]);
            }
        }
        if field_len(s) < s.len() {
            assert(s[field_len(s) as int] == t[field_len(t) as int]);
        }
    }
}

#[via_fn]
proof fn fields_decreases(s: Seq<char>) {
    lemma_field_len(s);
}

/// `field_len` of a dash-free prefix followed by a dash or by nothing.
proof fn lemma_field_len_of(w: Seq<char>, t: Seq<char>)
    requires
        forall|i: int| 0 <= i < w.len() ==> #[trigger] w[i] != '-',
        t.len() == 0 || t[0] == '-',
    ensures
        field_len(w + t) == w.len(),
    decreases w.len(),
{
    let s = w + t;
    if w.len() == 0 {
        assert(s =~= t);
    } else {
        let w1 = w.subrange(1, w.len() as int);
        assert(s.subrange(1, s.len() as int) =~= w1 + t);
        assert(w[0] != '-');
        lemma_field_len_of(w1, t);
    }
}

/// What the flags depend on in a target triple such as `x86_64-unknown-linux-gnu`.
#[derive(Clone, Copy, Debug, PartialEq, Eq, Structural)]
pub struct TargetInfo {
    /// The architecture is a 32-bit x86 one (`i386`, `i586`, `i686`).
    pub x86_32: bool,
    /// The architecture is `x86_64` or `powerpc64`.
    pub wide64: bool,
    /// A component is `ios`.
    pub ios: bool,
    /// A component is `linux`.
    pub linux: bool,
    /// A component is `windows` and the last one is `gnu`.
    pub windows_gnu: bool,
}

pub open spec fn spec_target_info(target: Seq<char>) -> TargetInfo {
    let parts = fields(target);
    let arch = parts[0];
    TargetInfo {
        x86_32: arch == "i386"@ || arch == "i586"@ || arch == "i686"@,
        wide64: arch == "x86_64"@ || arch == "powerpc64"@,
        ios: parts.contains("ios"@),
        linux: parts.contains("linux"@),
        windows_gnu: parts.contains("windows"@) && parts.last() == "gnu"@,
    }
}

/// Splits a target triple at each `-`.
pub fn target_fields(s: &str) -> (r: Vec<String>)
    ensures
        r@.map_values(|t: String| t@) == fields(s@),
        r@.len() > 0,
{
    let len = s.unicode_len();
    let mut out: Vec<String> = Vec::new();
    let mut start: usize = 0;
    assert(s@.subrange(0, len as int) =~= s@);
    loop
        invariant
            len == s@.len(),
            start <= len,
            out@.map_values(|t: String| t@) + fields(s@.subrange(start as int, len as int))
                == fields(s@),
        decreases len - start,
    {
        let ghost rest = s@.subrange(start as int, len as int);
        let mut j: usize = start;
        while j < len && s.get_char(j) != '-'
            invariant
                len == s@.len(),
                start <= j <= len,
                forall|k: int| start <= k < j ==> #[trigger] s@[k] != '-',
            decreases len - j,
        {
            j = j + 1;
        }
        let ghost w = s@.subrange(start as int, j as int);
        let ghost t = s@.subrange(j as int, len as int);
        proof {
            assert(rest =~= w + t);
            assert forall|k: int| 0 <= k < w.len() implies #[trigger] w[k] != '-' by {
                assert(w[k] == s@[start + k]);
            }
            lemma_field_len_of(w, t);
            assert(rest.subrange(0, w.len() as int) =~= w);
        }
        let ghost before = out@;
        let field = String::from_str(s.substring_char(start, j));
        out.push(field);
        assert(out@.map_values(|t: String| t@) =~= before.map_values(|t: String| t@).push(w));
        if j == len {
            assert(rest =~= w);
            assert(out@.map_values(|t: String| t@) =~= before.map_values(|t: String| t@) + seq![
                w,
            ]);
            return out;
        }
        assert(rest.subrange(w.len() as int + 1, rest.len() as int) =~= s@.subrange(
            j + 1,
            len as int,
        ));
        start = j + 1;
    }
}

fn contains_str(v: &Vec<String>, x: &String) -> (r: bool)
    ensures
        r == v@.map_values(|t: String| t@).contains(x@),
{
    let ghost vv = v@.map_values(|t: String| t@);
    let mut i: usize = 0;
    while i < v.len()
        invariant
            vv == v@.map_values(|t: String| t@),
            i <= v.len(),
            forall|k: int| 0 <= k < i ==> vv[k] != x@,
        decreases v.len() - i,
    {
        if v[i] == *x {
            assert(vv[i as int] == x@);
            return true;
        }
        i = i + 1;
    }
    false
}

fn is_text(s: &String, t: &str) -> (r: bool)
    ensures
        r == (s@ == t@),
{
    *s == String::from_str(t)
}

impl TargetInfo {
    /// Reads the components of a target triple that the flags depend on.
    pub fn parse(target: &str) -> (r: TargetInfo)
        ensures
            r == spec_target_info(target@),
    {
        let parts = target_fields(target);
        let ghost pv = parts@.map_values(|t: String| t@);
        let arch = &parts[0];
        assert(arch@ == pv[0]);
        let x86_32 = is_text(arch, "i386") || is_text(arch, "i586") || is_text(arch, "i686");
        let wide64 = is_text(arch, "x86_64") || is_text(arch, "powerpc64");
        let ios = contains_str(&parts, &String::from_str("ios"));
        let linux = contains_str(&parts, &String::from_str("linux"));
        let last = &parts[parts.len() - 1];
        assert(last@ == pv.last());
        let windows_gnu = contains_str(&parts, &String::from_str("windows")) && *last
            == String::from_str("gnu");
        TargetInfo { x86_32, wide64, ios, linux, windows_gnu }
    }
}

} // verus!
