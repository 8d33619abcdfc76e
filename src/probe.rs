use vstd::prelude::*;

use crate::assemble::strs;
use crate::error::Error;
use crate::family::ToolFamily;

verus! {

/// What the cache holds for one (tool, flag) pair.
#[derive(Clone, Copy, Debug, PartialEq, Eq, Structural)]
pub enum ProbeEntry {
    /// A trial run is under way; other callers wait for it.
    Pending,
    /// The compiler's answer: accepted or rejected.
    Done(bool),
    /// The trial could not be run at all.
    Failed,
}

/// What a caller asking about a (tool, flag) pair is to do.
#[derive(Clone, Copy, Debug, PartialEq, Eq, Structural)]
pub enum ProbeStep {
    /// Run the trial and report its outcome with `complete`: nobody else will.
    Spawn,
    /// Another caller is running the trial: ask again once it has reported.
    Wait,
    /// The answer is known.
    Known(bool),
    /// The trial could not be run; this is an infrastructure failure, not a "no".
    Failed,
}

/// Identity of a probe: the tool (its canonical path and fixed leading
/// arguments) and the flag.
#[derive(Clone, Debug)]
pub struct ProbeKey {
    pub tool: String,
    pub args: Vec<String>,
    pub flag: String,
}

pub type KeyView = (Seq<char>, Seq<Seq<char>>, Seq<char>);

impl View for ProbeKey {
    type V = KeyView;

    open spec fn view(&self) -> KeyView {
        (self.tool@, strs(self.args@), self.flag@)
    }
}

/// The cache's answer to a request for `k`, and the cache afterwards. The first
/// request for a pair is told to run the trial and marks the pair pending.
pub open spec fn request_step(m: Map<KeyView, ProbeEntry>, k: KeyView) -> (
    Map<KeyView, ProbeEntry>,
    ProbeStep,
) {
    if !m.contains_key(k) {
        (m.insert(k, ProbeEntry::Pending), ProbeStep::Spawn)
    } else {
        match m[k] {
            ProbeEntry::Pending => (m, ProbeStep::Wait),
            ProbeEntry::Done(b) => (m, ProbeStep::Known(b)),
            ProbeEntry::Failed => (m, ProbeStep::Failed),
        }
    }
}

/// The cache after the trial for `k` reported `outcome` (`None`: it could not
/// run). Only a pending pair takes an outcome; a settled one keeps its answer.
pub open spec fn complete_step(m: Map<KeyView, ProbeEntry>, k: KeyView, outcome: Option<bool>) -> Map<
    KeyView,
    ProbeEntry,
> {
    if m.contains_key(k) && m[k] == ProbeEntry::Pending {
        m.insert(
            k,
            match outcome {
                Some(b) => ProbeEntry::Done(b),
                None => ProbeEntry::Failed,
            },
        )
    } else {
        m
    }
}

/// One operation on the cache, from any caller.
pub enum CacheOp {
    Request(KeyView),
    Complete(KeyView, Option<bool>),
}

pub open spec fn apply_op(m: Map<KeyView, ProbeEntry>, op: CacheOp) -> Map<KeyView, ProbeEntry> {
    match op {
        CacheOp::Request(k) => request_step(m, k).0,
        CacheOp::Complete(k, o) => complete_step(m, k, o),
    }
}

/// The answers given to the requests for `k` in `ops`, applied in order from `m`.
pub open spec fn answers_for(m: Map<KeyView, ProbeEntry>, ops: Seq<CacheOp>, k: KeyView) -> Seq<
    ProbeStep,
>
    decreases ops.len(),
{
    if ops.len() == 0 {
        seq![]
    } else {
        let first = match ops[0] {
            CacheOp::Request(q) => if q == k {
                seq![request_step(m, q).1]
            } else {
                seq![]
            },
            CacheOp::Complete(_, _) => seq![],
        };
        first + answers_for(apply_op(m, ops[0]), ops.drop_first(), k)
    }
}

/// How many of `answers` tell their caller to run the trial.
pub open spec fn spawn_count(answers: Seq<ProbeStep>) -> nat
    decreases answers.len(),
{
    if answers.len() == 0 {
        0
    } else {
        (if answers[0] == ProbeStep::Spawn {
            1nat
        } else {
            0nat
        }) + spawn_count(answers.drop_first())
    }
}

proof fn lemma_spawn_count_concat(a: Seq<ProbeStep>, b: Seq<ProbeStep>)
    ensures
        spawn_count(a + b) == spawn_count(a) + spawn_count(b),
    decreases a.len(),
{
    if a.len() == 0 {
        assert(a + b =~= b);
    } else {
        assert((a + b).drop_first() =~= a.drop_first() + b);
        lemma_spawn_count_concat(a.drop_first(), b);
    }
}

/// Once a pair is in the cache it stays, and every later request for it is
/// answered without a new trial; once it is settled its answer never changes.
proof fn lemma_present_pair(m: Map<KeyView, ProbeEntry>, ops: Seq<CacheOp>, k: KeyView)
    requires
        m.contains_key(k),
    ensures
        spawn_count(answers_for(m, ops, k)) == 0,
        forall|b: bool|
            m[k] == ProbeEntry::Done(b) ==> forall|i: int|
                0 <= i < answers_for(m, ops, k).len() ==> #[trigger] answers_for(m, ops, k)[i]
                    == ProbeStep::Known(b),
    decreases ops.len(),
{
    if ops.len() > 0 {
        let m2 = apply_op(m, ops[0]);
        assert(m2.contains_key(k));
        assert(forall|b: bool| m[k] == ProbeEntry::Done(b) ==> m2[k] == ProbeEntry::Done(b));
        lemma_present_pair(m2, ops.drop_first(), k);
        let first = match ops[0] {
            CacheOp::Request(q) => if q == k {
                seq![request_step(m, q).1]
            } else {
                seq![]
            },
            CacheOp::Complete(_, _) => seq![],
        };
        let rest = answers_for(m2, ops.drop_first(), k);
        assert(answers_for(m, ops, k) == first + rest);
        lemma_spawn_count_concat(first, rest);
        lemma_spawn_count_single(first);
    }
}

proof fn lemma_spawn_count_single(s: Seq<ProbeStep>)
    requires
        s.len() <= 1,
    ensures
        spawn_count(s) == (if s.len() == 1 && s[0] == ProbeStep::Spawn {
            1nat
        } else {
            0nat
        }),
{
    if s.len() == 1 {
        assert(s.drop_first() =~= Seq::<ProbeStep>::empty());
        assert(spawn_count(s.drop_first()) == 0);
    }
}

/// However requests and reports for a pair interleave, starting from any
/// cache: at most one caller is ever told to run the trial for the pair
/// (none if the cache already knows it), and every caller told the answer is
/// told the same one.
pub proof fn lemma_single_trial_single_answer(
    m: Map<KeyView, ProbeEntry>,
    ops: Seq<CacheOp>,
    k: KeyView,
)
    ensures
        spawn_count(answers_for(m, ops, k)) <= 1,
        m.contains_key(k) ==> spawn_count(answers_for(m, ops, k)) == 0,
        forall|i: int, j: int|
            0 <= i < answers_for(m, ops, k).len() && 0 <= j < answers_for(m, ops, k).len()
                && #[trigger] answers_for(m, ops, k)[i] is Known && #[trigger] answers_for(
                m,
                ops,
                k,
            )[j] is Known ==> answers_for(m, ops, k)[i] == answers_for(m, ops, k)[j],
    decreases ops.len(),
{
    if m.contains_key(k) {
        lemma_present_pair(m, ops, k);
    }
    if ops.len() > 0 {
        let m2 = apply_op(m, ops[0]);
        lemma_single_trial_single_answer(m2, ops.drop_first(), k);
        let first = match ops[0] {
            CacheOp::Request(q) => if q == k {
                seq![request_step(m, q).1]
            } else {
                seq![]
            },
            CacheOp::Complete(_, _) => seq![],
        };
        let rest = answers_for(m2, ops.drop_first(), k);
        let all = answers_for(m, ops, k);
        assert(all == first + rest);
        lemma_spawn_count_concat(first, rest);
        lemma_spawn_count_single(first);
        if first.len() > 0 {
            if first[0] == ProbeStep::Spawn {
                assert(m2.contains_key(k));
                lemma_present_pair(m2, ops.drop_first(), k);
            }
            if first[0] is Known {
                assert(m2 == m);
                lemma_present_pair(m2, ops.drop_first(), k);
            }
        }
        assert forall|i: int, j: int|
            0 <= i < all.len() && 0 <= j < all.len() && #[trigger] all[i] is Known
                && #[trigger] all[j] is Known implies all[i] == all[j] by {
            if first.len() > 0 && (i == 0 || j == 0) {
                if i > 0 {
                    assert(rest[i - 1] == all[i]);
                }
                if j > 0 {
                    assert(rest[j - 1] == all[j]);
                }
            } else {
                assert(rest[i - first.len()] == all[i]);
                assert(rest[j - first.len()] == all[j]);
            }
        }
    }
}


fn same_key(a: &ProbeKey, b: &ProbeKey) -> (r: bool)
    ensures
        r == (a@ == b@),
{
    if a.tool != b.tool || a.flag != b.flag || a.args.len() != b.args.len() {
        return false;
    }
    let mut i: usize = 0;
    while i < a.args.len()
        invariant
            a.args@.len() == b.args@.len(),
            i <= a.args.len(),
            forall|j: int| 0 <= j < i ==> a.args@[j]@ == b.args@[j]@,
        decreases a.args.len() - i,
    {
        if a.args[i] != b.args[i] {
            assert(strs(a.args@)[i as int] != strs(b.args@)[i as int]);
            return false;
        }
        i = i + 1;
    }
    assert(strs(a.args@) =~= strs(b.args@));
    true
}

/// The process-wide record of flag-support answers, keyed by (tool, flag).
///
/// Callers that share it must serialize `request` and `complete` (a lock
/// around the cache); the cache then guarantees that one trial at most is run
/// per pair and that all callers see the same answer.
pub struct FlagProbeCache {
    entries: Vec<(ProbeKey, ProbeEntry)>,
    state: Ghost<Map<KeyView, ProbeEntry>>,
}

impl View for FlagProbeCache {
    type V = Map<KeyView, ProbeEntry>;

    closed spec fn view(&self) -> Map<KeyView, ProbeEntry> {
        self.state@
    }
}

impl FlagProbeCache {
    /// The entries and the map they stand for agree, one entry per key.
    pub closed spec fn wf(&self) -> bool {
        &&& forall|i: int|
            0 <= i < self.entries@.len() ==> self.state@.contains_key(
                (#[trigger] self.entries@[i]).0@,
            ) && self.state@[self.entries@[i].0@] == self.entries@[i].1
        &&& forall|k: KeyView|
            #[trigger] self.state@.contains_key(k) ==> exists|i: int|
                0 <= i < self.entries@.len() && self.entries@[i].0@ == k
        &&& forall|i: int, j: int|
            0 <= i < self.entries@.len() && 0 <= j < self.entries@.len() && i != j ==> (
            #[trigger] self.entries@[i]).0@ != (#[trigger] self.entries@[j]).0@
    }

    /// An empty cache.
    pub fn new() -> (r: FlagProbeCache)
        ensures
            r.wf(),
            r@ == Map::<KeyView, ProbeEntry>::empty(),
    {
        FlagProbeCache { entries: Vec::new(), state: Ghost(Map::empty()) }
    }

    fn find(&self, key: &ProbeKey) -> (r: Option<usize>)
        requires
            self.wf(),
        ensures
            match r {
                Some(i) => i < self.entries@.len() && self.entries@[i as int].0@ == key@,
                None => !self@.contains_key(key@),
            },
    {
        let mut i: usize = 0;
        while i < self.entries.len()
            invariant
                self.wf(),
                i <= self.entries@.len(),
                forall|j: int| 0 <= j < i ==> (#[trigger] self.entries@[j]).0@ != key@,
            decreases self.entries.len() - i,
        {
            if same_key(&self.entries[i].0, key) {
                return Some(i);
            }
            i = i + 1;
        }
        None
    }

    /// What the cache holds for `key`, if anything.
    pub fn entry(&self, key: &ProbeKey) -> (r: Option<ProbeEntry>)
        requires
            self.wf(),
        ensures
            match r {
                Some(e) => self@.contains_key(key@) && self@[key@] == e,
                None => !self@.contains_key(key@),
            },
    {
        match self.find(key) {
            Some(i) => Some(self.entries[i].1),
            None => None,
        }
    }

    /// A caller asks about `key`. The first caller is told to run the trial and
    /// the pair becomes pending; later callers wait, or get the settled answer.
    pub fn request(&mut self, key: &ProbeKey) -> (r: ProbeStep)
        requires
            old(self).wf(),
        ensures
            final(self).wf(),
            (final(self)@, r) == request_step(old(self)@, key@),
    {
        match self.find(key) {
            Some(i) => {
                let e = self.entries[i].1;
                match e {
                    ProbeEntry::Pending => ProbeStep::Wait,
                    ProbeEntry::Done(b) => ProbeStep::Known(b),
                    ProbeEntry::Failed => ProbeStep::Failed,
                }
            },
            None => {
                let ghost old_entries = self.entries@;
                self.entries.push((key.clone_key(), ProbeEntry::Pending));
                self.state = Ghost(self.state@.insert(key@, ProbeEntry::Pending));
                assert forall|k: KeyView| #[trigger] self.state@.contains_key(k) implies exists|
                    i: int,
                |
                    0 <= i < self.entries@.len() && self.entries@[i].0@ == k by {
                    if k == key@ {
                        assert(self.entries@[old_entries.len() as int].0@ == k);
                    } else {
                        let i = choose|i: int|
                            0 <= i < old_entries.len() && old_entries[i].0@ == k;
                        assert(self.entries@[i] == old_entries[i]);
                    }
                }
                ProbeStep::Spawn
            },
        }
    }

    /// The trial for `key` reports: `Some(b)` is the compiler's answer, `None`
    /// means it could not be run. A pair that is not pending is left as it is.
    pub fn complete(&mut self, key: &ProbeKey, outcome: Option<bool>)
        requires
            old(self).wf(),
        ensures
            final(self).wf(),
            final(self)@ == complete_step(old(self)@, key@, outcome),
    {
        match self.find(key) {
            Some(i) => {
                if self.entries[i].1 == ProbeEntry::Pending {
                    let e = match outcome {
                        Some(b) => ProbeEntry::Done(b),
                        None => ProbeEntry::Failed,
                    };
                    let k = self.entries[i].0.clone_key();
                    let ghost old_entries = self.entries@;
                    self.entries.set(i, (k, e));
                    self.state = Ghost(self.state@.insert(key@, e));
                    assert forall|k: KeyView| #[trigger] self.state@.contains_key(k) implies exists|
                        j: int,
                    |
                        0 <= j < self.entries@.len() && self.entries@[j].0@ == k by {
                        let j = choose|j: int|
                            0 <= j < old_entries.len() && old_entries[j].0@ == k;
                        assert(self.entries@[j].0@ == old_entries[j].0@);
                    }
                }
            },
            None => {},
        }
    }
}

impl ProbeKey {
    /// A copy of the key.
    pub fn clone_key(&self) -> (r: ProbeKey)
        ensures
            r@ == self@,
    {
        let mut args: Vec<String> = Vec::new();
        let mut i: usize = 0;
        while i < self.args.len()
            invariant
                i <= self.args@.len(),
                strs(args@) == strs(self.args@).subrange(0, i as int),
            decreases self.args.len() - i,
        {
            let a = self.args[i].clone();
            let ghost before = args@;
            args.push(a);
            assert(strs(args@) =~= strs(before).push(a@));
            assert(strs(self.args@).subrange(0, i + 1) =~= strs(self.args@).subrange(
                0,
                i as int,
            ).push(self.args@[i as int]@));
            i = i + 1;
        }
        assert(strs(self.args@).subrange(0, self.args@.len() as int) =~= strs(self.args@));
        ProbeKey { tool: self.tool.clone(), args, flag: self.flag.clone() }
    }
}

/// `s` contains `word` as a contiguous piece.
pub open spec fn mentions(s: Seq<char>, word: Seq<char>) -> bool {
    exists|i: int| 0 <= i && i + word.len() <= s.len() && #[trigger] s.subrange(i, i + word.len()) == word
}

/// The diagnostics by which a compiler of the family rejects an option while
/// still exiting successfully.
pub open spec fn rejection_words(f: ToolFamily) -> Seq<Seq<char>> {
    if f == ToolFamily::Msvc {
        seq!["D9002"@, "unknown option"@, "not supported"@]
    } else {
        seq!["unrecognized"@, "unknown"@, "unsupported"@, "not supported"@]
    }
}

/// A trial accepted the flag: it exited successfully and its diagnostics
/// carry none of the family's rejection words.
pub open spec fn accepts(f: ToolFamily, exit_ok: bool, stderr: Seq<char>) -> bool {
    exit_ok && forall|i: int|
        0 <= i < rejection_words(f).len() ==> !mentions(stderr, #[trigger] rejection_words(f)[i])
}

fn chars_of(s: &str) -> (r: Vec<char>)
    ensures
        r@ == s@,
{
    let n = s.unicode_len();
    let mut v: Vec<char> = Vec::new();
    let mut i: usize = 0;
    while i < n
        invariant
            n == s@.len(),
            i <= n,
            v@ == s@.subrange(0, i as int),
        decreases n - i,
    {
        v.push(s.get_char(i));
        assert(v@ =~= s@.subrange(0, i + 1));
        i = i + 1;
    }
    assert(v@ =~= s@);
    v
}

fn mentions_exec(s: &Vec<char>, word: &Vec<char>) -> (r: bool)
    ensures
        r == mentions(s@, word@),
{
    if word.len() > s.len() {
        return false;
    }
    let last = s.len() - word.len();
    let mut i: usize = 0;
    loop
        invariant
            word@.len() <= s@.len(),
            last == s@.len() - word@.len(),
            i <= last,
            forall|j: int|
                0 <= j < i ==> #[trigger] s@.subrange(j, j + word@.len()) != word@,
        decreases last - i,
    {
        let mut k: usize = 0;
        let mut differs = false;
        while k < word.len() && !differs
            invariant
                word@.len() <= s@.len(),
                i <= last,
                last == s@.len() - word@.len(),
                k <= word@.len(),
                forall|m: int| 0 <= m < k ==> s@[i + m] == word@[m],
                differs ==> k < word@.len() && s@[i + k] != word@[k as int],
            decreases word.len() - k + (if differs { 0int } else { 1int }),
        {
            let n = s.len();
            assert(i + k < n);
            if s[i + k] == word[k] {
                k = k + 1;
            } else {
                differs = true;
            }
        }
        if k == word.len() {
            assert(s@.subrange(i as int, i + word@.len()) =~= word@);
            return true;
        }
        assert(s@.subrange(i as int, i + word@.len())[k as int] != word@[k as int]);
        if i == last {
            assert forall|j: int| 0 <= j && j + word@.len() <= s@.len() implies
                #[trigger] s@.subrange(j, j + word@.len()) != word@ by {
                assert(j <= i);
            }
            return false;
        }
        i = i + 1;
    }
}

fn rejection_words_exec(f: ToolFamily) -> (r: Vec<String>)
    ensures
        strs(r@) == rejection_words(f),
{
    let mut v: Vec<String> = Vec::new();
    if f == ToolFamily::Msvc {
        v.push(String::from_str("D9002"));
        v.push(String::from_str("unknown option"));
        v.push(String::from_str("not supported"));
    } else {
        v.push(String::from_str("unrecognized"));
        v.push(String::from_str("unknown"));
        v.push(String::from_str("unsupported"));
        v.push(String::from_str("not supported"));
    }
    assert(strs(v@) =~= rejection_words(f));
    v
}

/// Reads a flag-support trial: the flag is supported when the compiler exited
/// successfully and said nothing that rejects an option.
pub fn probe_verdict(f: ToolFamily, exit_ok: bool, stderr: &str) -> (r: bool)
    ensures
        r == accepts(f, exit_ok, stderr@),
{
    if !exit_ok {
        return false;
    }
    let text = chars_of(stderr);
    let words = rejection_words_exec(f);
    let mut i: usize = 0;
    while i < words.len()
        invariant
            text@ == stderr@,
            strs(words@) == rejection_words(f),
            i <= words.len(),
            forall|j: int| 0 <= j < i ==> !mentions(stderr@, #[trigger] rejection_words(f)[j]),
        decreases words.len() - i,
    {
        let w = chars_of(words[i].as_str());
        assert(w@ == rejection_words(f)[i as int]);
        if mentions_exec(&text, &w) {
            return false;
        }
        i = i + 1;
    }
    true
}

/// The trial run's arguments: the flag, then compile `src` into `obj`.
pub open spec fn probe_args(f: ToolFamily, flag: Seq<char>, src: Seq<char>, obj: Seq<char>) -> Seq<
    Seq<char>,
> {
    if f == ToolFamily::Msvc {
        seq![flag, "/Fo"@ + obj, "/c"@, src]
    } else {
        seq![flag, "-o"@, obj, "-c"@, src]
    }
}

/// The arguments of the disposable compilation that tests `flag`: an empty
/// source file `src` compiled into `obj` with the flag in front.
pub fn probe_arguments(f: ToolFamily, flag: &str, src: &str, obj: &str) -> (r: Vec<String>)
    ensures
        strs(r@) == probe_args(f, flag@, src@, obj@),
{
    let mut v: Vec<String> = Vec::new();
    v.push(String::from_str(flag));
    if f == ToolFamily::Msvc {
        let mut o = String::from_str("/Fo");
        o.append(obj);
        v.push(o);
        v.push(String::from_str("/c"));
    } else {
        v.push(String::from_str("-o"));
        v.push(String::from_str(obj));
        v.push(String::from_str("-c"));
    }
    v.push(String::from_str(src));
    assert(strs(v@) =~= probe_args(f, flag@, src@, obj@));
    v
}

/// What a caller does with the cache's answer: `None` while the trial is yet
/// to run or under way; the compiler's answer once known; and
/// `ProbeInfrastructureFailed` when the trial could not be run, which is never
/// taken for "unsupported".
pub fn settled_answer(step: ProbeStep, key: &ProbeKey) -> (r: Option<Result<bool, Error>>)
    ensures
        match step {
            ProbeStep::Spawn | ProbeStep::Wait => r is None,
            ProbeStep::Known(b) => r == Some(Ok::<bool, Error>(b)),
            ProbeStep::Failed => r matches Some(Err(Error::ProbeInfrastructureFailed { tool, flag, .. }))
                && tool@ == key.tool@ && flag@ == key.flag@,
        },
{
    match step {
        ProbeStep::Spawn | ProbeStep::Wait => None,
        ProbeStep::Known(b) => Some(Ok(b)),
        ProbeStep::Failed => Some(
            Err(
                Error::ProbeInfrastructureFailed {
                    tool: key.tool.clone(),
                    flag: key.flag.clone(),
                    reason: String::from_str("the trial compilation could not be started"),
                },
            ),
        ),
    }
}

} // verus!
