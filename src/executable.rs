use vstd::prelude::*;

use crate::assemble::strs;
use crate::error::Error;
use crate::resolve::{which_in, without_extended_prefix, strip_extended_prefix};

verus! {

/// The texts of a list of (name, value) environment variables.
pub open spec fn pairs(v: Seq<(String, String)>) -> Seq<(Seq<char>, Seq<char>)> {
    v.map_values(|p: (String, String)| (p.0@, p.1@))
}

/// No variable is listed twice.
pub open spec fn unique_names(e: Seq<(Seq<char>, Seq<char>)>) -> bool {
    forall|i: int, j: int|
        0 <= i < e.len() && 0 <= j < e.len() && i != j ==> (#[trigger] e[i]).0 != (#[trigger] e[j]).0
}

/// The value of `name` in `e`, if it is listed.
pub open spec fn lookup(e: Seq<(Seq<char>, Seq<char>)>, name: Seq<char>) -> Option<Seq<char>> {
    if exists|i: int| 0 <= i < e.len() && e[i].0 == name {
        Some(e[choose|i: int| 0 <= i < e.len() && e[i].0 == name].1)
    } else {
        None
    }
}

/// `e` with `name` set to `value`: a listed variable keeps its place and takes
/// the new value, a new one goes last.
pub open spec fn set_var(e: Seq<(Seq<char>, Seq<char>)>, name: Seq<char>, value: Seq<char>) -> Seq<
    (Seq<char>, Seq<char>),
> {
    if exists|i: int| 0 <= i < e.len() && e[i].0 == name {
        e.update(choose|i: int| 0 <= i < e.len() && e[i].0 == name, (name, value))
    } else {
        e.push((name, value))
    }
}

/// The texts of an optional borrowed string.
pub open spec fn view_option(o: Option<&str>) -> Option<Seq<char>> {
    match o {
        Some(s) => Some(s@),
        None => None,
    }
}

/// The texts of an optional string.
pub open spec fn view_option_string(o: Option<String>) -> Option<Seq<char>> {
    match o {
        Some(s) => Some(s@),
        None => None,
    }
}

/// The texts of a result of strings.
pub open spec fn view_result(r: Result<String, String>) -> Result<Seq<char>, Seq<char>> {
    match r {
        Ok(s) => Ok(s@),
        Err(e) => Err(e@),
    }
}

/// The search path a builder looks in: its own `PATH`, else the ambient one.
pub open spec fn chosen_search_path(b: BuildView, ambient: Option<Seq<char>>) -> Option<Seq<char>> {
    match lookup(b.envs, "PATH"@) {
        Some(p) => Some(p),
        None => ambient,
    }
}

/// The directory a builder searches from: its own, else the ambient one
/// (which may be unavailable, with a reason).
pub open spec fn chosen_working_dir(b: BuildView, ambient: Result<Seq<char>, Seq<char>>) -> Result<
    Seq<char>,
    Seq<char>,
> {
    match b.current_dir {
        Some(d) => Ok(d),
        None => ambient,
    }
}

/// `r` is the `ToolNotFound` error for `requested` with search path `sp` and reason `why`.
pub open spec fn not_found_as(
    r: Result<String, Error>,
    requested: Seq<char>,
    sp: Option<Seq<char>>,
    why: Seq<char>,
) -> bool {
    r matches Err(Error::ToolNotFound { requested: q, search_path: p, reason }) && q@ == requested
        && view_option_string(p) == sp && reason@ == why
}

/// `r` is what a lookup answering `lookup` gives: the found path, or the
/// `ToolNotFound` error for `requested` with search path `sp` and the lookup's reason.
pub open spec fn settled_as(
    r: Result<String, Error>,
    requested: Seq<char>,
    sp: Option<Seq<char>>,
    lookup: Result<Seq<char>, Seq<char>>,
) -> bool {
    match lookup {
        Ok(p) => r matches Ok(s) && s@ == p,
        Err(why) => not_found_as(r, requested, sp, why),
    }
}

/// A verified, runnable executable: what was asked for, where it was found,
/// and the fixed arguments and environment it is run with.
#[derive(Clone, Debug)]
pub struct Executable {
    requested: String,
    path: String,
    note: String,
    args: Vec<String>,
    envs: Vec<(String, String)>,
}

/// What an [`Executable`] holds.
pub struct ExecutableView {
    pub requested: Seq<char>,
    pub path: Seq<char>,
    pub note: Seq<char>,
    pub args: Seq<Seq<char>>,
    pub envs: Seq<(Seq<char>, Seq<char>)>,
}

impl View for Executable {
    type V = ExecutableView;

    closed spec fn view(&self) -> ExecutableView {
        ExecutableView {
            requested: self.requested@,
            path: self.path@,
            note: self.note@,
            args: strs(self.args@),
            envs: pairs(self.envs@),
        }
    }
}

impl Executable {
    /// The name or path that was asked for, kept for messages.
    pub fn requested(&self) -> (r: &str)
        ensures
            r@ == self@.requested,
    {
        self.requested.as_str()
    }

    /// The verified canonical path; for a script this is its interpreter.
    pub fn path(&self) -> (r: &str)
        ensures
            r@ == self@.path,
    {
        self.path.as_str()
    }

    /// A note on where the path came from.
    pub fn note(&self) -> (r: &str)
        ensures
            r@ == self@.note,
    {
        self.note.as_str()
    }

    /// The fixed arguments.
    pub fn args(&self) -> (r: &Vec<String>)
        ensures
            strs(r@) == self@.args,
    {
        &self.args
    }

    /// The environment variables it is run with.
    pub fn envs(&self) -> (r: &Vec<(String, String)>)
        ensures
            pairs(r@) == self@.envs,
    {
        &self.envs
    }
}

/// Builder of an [`Executable`]: what to look for, and the arguments,
/// environment and working directory to look for it with.
#[derive(Clone, Debug)]
pub struct Build {
    requested: String,
    note: String,
    args: Vec<String>,
    envs: Vec<(String, String)>,
    current_dir: Option<String>,
}

/// What a [`Build`] holds.
pub struct BuildView {
    pub requested: Seq<char>,
    pub note: Seq<char>,
    pub args: Seq<Seq<char>>,
    pub envs: Seq<(Seq<char>, Seq<char>)>,
    pub current_dir: Option<Seq<char>>,
}

impl View for Build {
    type V = BuildView;

    closed spec fn view(&self) -> BuildView {
        BuildView {
            requested: self.requested@,
            note: self.note@,
            args: strs(self.args@),
            envs: pairs(self.envs@),
            current_dir: match self.current_dir {
                Some(d) => Some(d@),
                None => None,
            },
        }
    }
}

fn clone_pairs(v: &Vec<(String, String)>) -> (r: Vec<(String, String)>)
    ensures
        pairs(r@) == pairs(v@),
{
    let mut out: Vec<(String, String)> = Vec::new();
    let mut i: usize = 0;
    while i < v.len()
        invariant
            i <= v@.len(),
            pairs(out@) == pairs(v@).subrange(0, i as int),
        decreases v.len() - i,
    {
        let p = (v[i].0.clone(), v[i].1.clone());
        let ghost before = out@;
        out.push(p);
        assert(pairs(out@) =~= pairs(before).push((p.0@, p.1@)));
        assert(pairs(v@).subrange(0, i + 1) =~= pairs(v@).subrange(0, i as int).push(
            (v@[i as int].0@, v@[i as int].1@),
        ));
        i = i + 1;
    }
    assert(pairs(v@).subrange(0, v@.len() as int) =~= pairs(v@));
    out
}

fn find_var(e: &Vec<(String, String)>, name: &str) -> (r: Option<usize>)
    requires
        unique_names(pairs(e@)),
    ensures
        match r {
            Some(i) => i < e@.len() && pairs(e@)[i as int].0 == name@ && lookup(pairs(e@), name@)
                == Some(pairs(e@)[i as int].1),
            None => lookup(pairs(e@), name@) is None && !(exists|i: int|
                0 <= i < e@.len() && pairs(e@)[i].0 == name@),
        },
{
    let ghost pv = pairs(e@);
    let key = String::from_str(name);
    let mut i: usize = 0;
    while i < e.len()
        invariant
            pv == pairs(e@),
            unique_names(pv),
            key@ == name@,
            i <= e@.len(),
            forall|j: int| 0 <= j < i ==> pv[j].0 != name@,
        decreases e.len() - i,
    {
        if e[i].0 == key {
            assert(pv[i as int].0 == name@);
            assert(exists|j: int| 0 <= j < pv.len() && pv[j].0 == name@);
            let ghost c = choose|j: int| 0 <= j < pv.len() && pv[j].0 == name@;
            assert(pv[c].0 == pv[i as int].0);
            assert(c == i);
            return Some(i);
        }
        i = i + 1;
    }
    None
}

impl Build {
    /// Well-formed: each environment variable is listed once.
    pub open spec fn wf(&self) -> bool {
        unique_names(self@.envs)
    }

    /// A builder for `requested` with no arguments, environment or working directory.
    pub fn new(requested: &str, note: &str) -> (r: Build)
        ensures
            r.wf(),
            r@.requested == requested@,
            r@.note == note@,
            r@.args.len() == 0,
            r@.envs.len() == 0,
            r@.current_dir is None,
    {
        let b = Build {
            requested: String::from_str(requested),
            note: String::from_str(note),
            args: Vec::new(),
            envs: Vec::new(),
            current_dir: None,
        };
        assert(b@.args =~= seq![]);
        assert(b@.envs =~= seq![]);
        b
    }

    /// The name or path that is looked for.
    pub fn requested(&self) -> (r: &str)
        ensures
            r@ == self@.requested,
    {
        self.requested.as_str()
    }

    /// Appends an argument.
    pub fn arg(&mut self, a: &str)
        ensures
            final(self)@ == (BuildView { args: old(self)@.args.push(a@), ..old(self)@ }),
            final(self).wf() == old(self).wf(),
    {
        let ghost before = self.args@;
        self.args.push(String::from_str(a));
        assert(strs(self.args@) =~= strs(before).push(a@));
    }

    /// Appends arguments in order.
    pub fn args(&mut self, more: &Vec<String>)
        ensures
            final(self)@ == (BuildView { args: old(self)@.args + strs(more@), ..old(self)@ }),
            final(self).wf() == old(self).wf(),
    {
        let mut i: usize = 0;
        while i < more.len()
            invariant
                i <= more@.len(),
                self@ == (BuildView {
                    args: old(self)@.args + strs(more@).subrange(0, i as int),
                    ..old(self)@
                }),
            decreases more.len() - i,
        {
            self.arg(more[i].as_str());
            assert(old(self)@.args + strs(more@).subrange(0, i + 1) =~= (old(self)@.args + strs(
                more@,
            ).subrange(0, i as int)).push(more@[i as int]@));
            i = i + 1;
        }
        assert(strs(more@).subrange(0, more@.len() as int) =~= strs(more@));
    }

    /// Sets an environment variable; setting it again replaces its value.
    pub fn env(&mut self, var: &str, val: &str)
        requires
            old(self).wf(),
        ensures
            final(self).wf(),
            final(self)@ == (BuildView { envs: set_var(old(self)@.envs, var@, val@), ..old(self)@ }),
    {
        let ghost before = pairs(self.envs@);
        match find_var(&self.envs, var) {
            Some(i) => {
                let ghost c = choose|j: int| 0 <= j < before.len() && before[j].0 == var@;
                assert(c == i as int);
                self.envs.set(i, (String::from_str(var), String::from_str(val)));
                assert(pairs(self.envs@) =~= before.update(i as int, (var@, val@)));
            },
            None => {
                self.envs.push((String::from_str(var), String::from_str(val)));
                assert(pairs(self.envs@) =~= before.push((var@, val@)));
            },
        }
    }

    /// Sets environment variables in order.
    pub fn envs(&mut self, vars: &Vec<(String, String)>)
        requires
            old(self).wf(),
        ensures
            final(self).wf(),
            final(self)@ == (BuildView { envs: set_vars(old(self)@.envs, pairs(vars@)), ..old(self)@ }),
    {
        let ghost pv = pairs(vars@);
        let mut i: usize = 0;
        while i < vars.len()
            invariant
                pv == pairs(vars@),
                i <= vars@.len(),
                self.wf(),
                self@ == (BuildView {
                    envs: set_vars(old(self)@.envs, pv.subrange(0, i as int)),
                    ..old(self)@
                }),
            decreases vars.len() - i,
        {
            self.env(vars[i].0.as_str(), vars[i].1.as_str());
            assert(pv.subrange(0, i + 1).drop_last() =~= pv.subrange(0, i as int));
            i = i + 1;
        }
        assert(pv.subrange(0, vars@.len() as int) =~= pv);
    }

    /// Sets the directory that relative paths are resolved against.
    pub fn current_dir(&mut self, dir: &str)
        ensures
            final(self)@ == (BuildView { current_dir: Some(dir@), ..old(self)@ }),
            final(self).wf() == old(self).wf(),
    {
        self.current_dir = Some(String::from_str(dir));
    }

    /// The search path to use: the builder's own `PATH` variable if it sets
    /// one, else `ambient`.
    pub fn search_path(&self, ambient: Option<&str>) -> (r: Option<String>)
        requires
            self.wf(),
        ensures
            match lookup(self@.envs, "PATH"@) {
                Some(p) => r matches Some(s) && s@ == p,
                None => match ambient {
                    Some(a) => r matches Some(s) && s@ == a@,
                    None => r is None,
                },
            },
    {
        match find_var(&self.envs, "PATH") {
            Some(i) => Some(self.envs[i].1.clone()),
            None => match ambient {
                Some(a) => Some(String::from_str(a)),
                None => None,
            },
        }
    }

    /// The working directory to search from: the builder's own, else
    /// `ambient_cwd`. When neither is available the result is `ToolNotFound`
    /// carrying the name, the search path that would have been used
    /// ([`Build::search_path`] of `ambient_path`) and the reason.
    pub fn working_dir(&self, ambient_path: Option<&str>, ambient_cwd: Result<String, String>) -> (r:
        Result<String, Error>)
        requires
            self.wf(),
        ensures
            match chosen_working_dir(self@, view_result(ambient_cwd)) {
                Ok(d) => r matches Ok(s) && s@ == d,
                Err(e) => not_found_as(
                    r,
                    self@.requested,
                    chosen_search_path(self@, view_option(ambient_path)),
                    "can't access current directory: "@ + e,
                ),
            },
    {
        match &self.current_dir {
            Some(d) => Ok(d.clone()),
            None => match ambient_cwd {
                Ok(d) => Ok(d),
                Err(e) => {
                    let mut why = String::from_str("can't access current directory: ");
                    why.append(e.as_str());
                    Err(
                        Error::ToolNotFound {
                            requested: self.requested.clone(),
                            search_path: self.search_path(ambient_path),
                            reason: why,
                        },
                    )
                },
            },
        }
    }

    /// Settles a lookup made with the search path `search_path`: a found path
    /// is the answer; a failure is `ToolNotFound` with the name, that search
    /// path and the lookup's reason.
    pub fn settle_lookup(&self, search_path: Option<String>, lookup: Result<String, String>) -> (r:
        Result<String, Error>)
        ensures
            settled_as(r, self@.requested, view_option_string(search_path), view_result(lookup)),
    {
        match lookup {
            Ok(p) => Ok(p),
            Err(why) => Err(
                Error::ToolNotFound { requested: self.requested.clone(), search_path, reason: why },
            ),
        }
    }

    /// Locates the executable: the lookup searches [`Build::search_path`]
    /// (the builder's `PATH`, else `ambient_path`) from
    /// [`Build::working_dir`] (the builder's directory, else `ambient_cwd`),
    /// and [`Build::settle_lookup`] turns its answer into the result. Where it
    /// is found depends on the filesystem; every error is `ToolNotFound` with
    /// the name and the search path used.
    pub fn locate(&self, ambient_path: Option<&str>, ambient_cwd: Result<String, String>) -> (r:
        Result<String, Error>)
        requires
            self.wf(),
        ensures
            r matches Err(e) ==> (e matches Error::ToolNotFound { requested: q, search_path: sp, .. }
                && q@ == self@.requested && view_option_string(sp) == chosen_search_path(
                self@,
                view_option(ambient_path),
            )),
            chosen_working_dir(self@, view_result(ambient_cwd)) matches Err(e) ==> not_found_as(
                r,
                self@.requested,
                chosen_search_path(self@, view_option(ambient_path)),
                "can't access current directory: "@ + e,
            ),
            chosen_working_dir(self@, view_result(ambient_cwd)) is Ok ==> exists|
                lookup: Result<Seq<char>, Seq<char>>,
            |
                #[trigger] settled_as(
                    r,
                    self@.requested,
                    chosen_search_path(self@, view_option(ambient_path)),
                    lookup,
                ),
    {
        let paths = self.search_path(ambient_path);
        let cwd = match self.working_dir(ambient_path, ambient_cwd) {
            Ok(d) => d,
            Err(e) => return Err(e),
        };
        let found = match &paths {
            Some(p) => which_in(self.requested.as_str(), Some(p.as_str()), cwd.as_str()),
            None => which_in(self.requested.as_str(), None, cwd.as_str()),
        };
        let ghost seen = view_result(found);
        let r = self.settle_lookup(paths, found);
        assert(settled_as(r, self@.requested, chosen_search_path(self@, view_option(ambient_path)), seen));
        r
    }

    /// The executable found at the canonical path `canonical`, with the
    /// extended-length prefix stripped; the spawn test is the caller's.
    pub fn finish(self, canonical: &str) -> (r: Executable)
        ensures
            r@ == (ExecutableView {
                requested: self@.requested,
                path: without_extended_prefix(canonical@),
                note: self@.note,
                args: self@.args,
                envs: self@.envs,
            }),
    {
        Executable {
            requested: self.requested,
            path: strip_extended_prefix(canonical),
            note: self.note,
            args: self.args,
            envs: self.envs,
        }
    }
}

/// `set_var` for each pair of `vars` in order.
pub open spec fn set_vars(e: Seq<(Seq<char>, Seq<char>)>, vars: Seq<(Seq<char>, Seq<char>)>) -> Seq<
    (Seq<char>, Seq<char>),
>
    decreases vars.len(),
{
    if vars.len() == 0 {
        e
    } else {
        let p = vars.last();
        set_var(set_vars(e, vars.drop_last()), p.0, p.1)
    }
}

/// `parts` joined with `sep` between neighbours.
pub open spec fn join_with(parts: Seq<Seq<char>>, sep: Seq<char>) -> Seq<char>
    decreases parts.len(),
{
    if parts.len() == 0 {
        seq![]
    } else if parts.len() == 1 {
        parts[0]
    } else {
        join_with(parts.drop_last(), sep) + sep + parts.last()
    }
}

/// A search-path list made of `added`, then the entries already in
/// `existing`. An unset or empty `existing` still counts as one empty entry,
/// as splitting it and joining again gives: `["a"]` and nothing make `"a;"`.
pub open spec fn extended_list(added: Seq<Seq<char>>, existing: Option<Seq<char>>, sep: Seq<char>) -> Seq<
    char,
> {
    join_with(
        added + seq![
            match existing {
                Some(o) => o,
                None => Seq::<char>::empty(),
            },
        ],
        sep,
    )
}

fn join_list(parts: &Vec<String>, sep: &str) -> (r: String)
    ensures
        r@ == join_with(strs(parts@), sep@),
{
    let ghost pv = strs(parts@);
    let mut out = String::new();
    let mut i: usize = 0;
    assert(out@ =~= join_with(pv.subrange(0, 0), sep@));
    while i < parts.len()
        invariant
            pv == strs(parts@),
            i <= parts@.len(),
            out@ == join_with(pv.subrange(0, i as int), sep@),
        decreases parts.len() - i,
    {
        let ghost before = out@;
        if i > 0 {
            out.append(sep);
        }
        out.append(parts[i].as_str());
        assert(pv.subrange(0, i + 1).drop_last() =~= pv.subrange(0, i as int));
        if i == 0 {
            assert(out@ =~= join_with(pv.subrange(0, 1), sep@));
        } else {
            assert(out@ =~= before + sep@ + pv[i as int]);
        }
        i = i + 1;
    }
    assert(pv.subrange(0, parts@.len() as int) =~= pv);
    out
}

/// No entry of `paths` holds the list separator.
pub open spec fn separable(paths: Seq<Seq<char>>, sep: char) -> bool {
    forall|i: int, j: int| 0 <= i < paths.len() && 0 <= j < paths[i].len() ==> #[trigger] paths[i][j] != sep
}

/// Builder of an MSVC tool's [`Build`]: the directories to put in front of
/// its `INCLUDE`, `LIB` and `PATH` variables, and its `Platform`.
#[derive(Clone, Debug)]
pub struct Msvc {
    requested: String,
    note: String,
    include_paths: Vec<String>,
    lib_paths: Vec<String>,
    path_paths: Vec<String>,
    platform: Option<String>,
}

/// What an [`Msvc`] holds.
pub struct MsvcView {
    pub requested: Seq<char>,
    pub note: Seq<char>,
    pub include_paths: Seq<Seq<char>>,
    pub lib_paths: Seq<Seq<char>>,
    pub path_paths: Seq<Seq<char>>,
    pub platform: Option<Seq<char>>,
}

impl View for Msvc {
    type V = MsvcView;

    closed spec fn view(&self) -> MsvcView {
        MsvcView {
            requested: self.requested@,
            note: self.note@,
            include_paths: strs(self.include_paths@),
            lib_paths: strs(self.lib_paths@),
            path_paths: strs(self.path_paths@),
            platform: match self.platform {
                Some(p) => Some(p@),
                None => None,
            },
        }
    }
}

fn push_text(v: &mut Vec<String>, s: &str)
    ensures
        strs(final(v)@) == strs(old(v)@).push(s@),
{
    v.push(String::from_str(s));
    assert(strs(v@) =~= strs(old(v)@).push(s@));
}

/// The environment that an MSVC tool is run with.
pub open spec fn msvc_envs(m: MsvcView, headers: Option<Seq<char>>, libs: Option<Seq<char>>, path: Option<Seq<char>>, sep: Seq<char>) -> Seq<(Seq<char>, Seq<char>)> {
    seq![
        ("INCLUDE"@, extended_list(m.include_paths, headers, sep)),
        ("LIB"@, extended_list(m.lib_paths, libs, sep)),
        ("PATH"@, extended_list(m.path_paths, path, sep)),
    ] + match m.platform {
        Some(p) => seq![("Platform"@, p)],
        None => seq![],
    }
}

fn extend_list(added: &Vec<String>, existing: Option<&str>, sep: &str) -> (r: String)
    ensures
        r@ == extended_list(strs(added@), match existing { Some(e) => Some(e@), None => None }, sep@),
{
    let mut all: Vec<String> = Vec::new();
    let mut i: usize = 0;
    while i < added.len()
        invariant
            i <= added@.len(),
            strs(all@) == strs(added@).subrange(0, i as int),
        decreases added.len() - i,
    {
        push_text(&mut all, added[i].as_str());
        assert(strs(added@).subrange(0, i + 1) =~= strs(added@).subrange(0, i as int).push(
            added@[i as int]@,
        ));
        i = i + 1;
    }
    assert(strs(added@).subrange(0, added@.len() as int) =~= strs(added@));
    let ghost base = strs(all@);
    match existing {
        Some(e) => {
            push_text(&mut all, e);
            assert(strs(all@) =~= base + seq![e@]);
        },
        None => {
            all.push(String::new());
            assert(strs(all@) =~= base + seq![Seq::<char>::empty()]);
        },
    }
    join_list(&all, sep)
}

fn lacks_char(v: &Vec<String>, c: char) -> (r: bool)
    ensures
        r == separable(strs(v@), c),
{
    let mut i: usize = 0;
    while i < v.len()
        invariant
            i <= v@.len(),
            forall|a: int, b: int|
                0 <= a < i && 0 <= b < strs(v@)[a].len() ==> #[trigger] strs(v@)[a][b] != c,
        decreases v.len() - i,
    {
        let s = v[i].as_str();
        let n = s.unicode_len();
        let mut j: usize = 0;
        while j < n
            invariant
                i < v@.len(),
                s@ == strs(v@)[i as int],
                n == s@.len(),
                j <= n,
                forall|b: int| 0 <= b < j ==> s@[b] != c,
            decreases n - j,
        {
            if s.get_char(j) == c {
                assert(strs(v@)[i as int][j as int] == c);
                return false;
            }
            j = j + 1;
        }
        i = i + 1;
    }
    true
}

impl Msvc {
    /// A builder for `requested` with no added directories and no platform.
    pub fn new(requested: &str, note: &str) -> (r: Msvc)
        ensures
            r@ == (MsvcView {
                requested: requested@,
                note: note@,
                include_paths: seq![],
                lib_paths: seq![],
                path_paths: seq![],
                platform: None,
            }),
    {
        let m = Msvc {
            requested: String::from_str(requested),
            note: String::from_str(note),
            include_paths: Vec::new(),
            lib_paths: Vec::new(),
            path_paths: Vec::new(),
            platform: None,
        };
        assert(m@.include_paths =~= seq![]);
        assert(m@.lib_paths =~= seq![]);
        assert(m@.path_paths =~= seq![]);
        m
    }

    /// Adds a header directory.
    pub fn include_dir(&mut self, p: &str)
        ensures
            final(self)@ == (MsvcView { include_paths: old(self)@.include_paths.push(p@), ..old(self)@ }),
    {
        push_text(&mut self.include_paths, p);
    }

    /// Adds a library directory.
    pub fn lib(&mut self, p: &str)
        ensures
            final(self)@ == (MsvcView { lib_paths: old(self)@.lib_paths.push(p@), ..old(self)@ }),
    {
        push_text(&mut self.lib_paths, p);
    }

    /// Adds an executable directory.
    pub fn path(&mut self, p: &str)
        ensures
            final(self)@ == (MsvcView { path_paths: old(self)@.path_paths.push(p@), ..old(self)@ }),
    {
        push_text(&mut self.path_paths, p);
    }

    /// Sets the target platform.
    pub fn platform(&mut self, val: &str)
        ensures
            final(self)@ == (MsvcView { platform: Some(val@), ..old(self)@ }),
    {
        self.platform = Some(String::from_str(val));
    }

    /// The [`Build`] of the tool: `INCLUDE`, `LIB` and `PATH` list the added
    /// directories before the entries of the current values (`headers`,
    /// `libs`, `path`), separated by `sep`; `Platform` is set when given.
    pub fn into_build(self, headers: Option<&str>, libs: Option<&str>, path: Option<&str>, sep: &str) -> (r: Option<Build>)
        requires
            sep@.len() == 1,
        ensures
            r is None <==> !(separable(self@.include_paths, sep@[0]) && separable(
                self@.lib_paths,
                sep@[0],
            ) && separable(self@.path_paths, sep@[0])),
            r matches Some(b) ==> b.wf() && b@ == (BuildView {
                requested: self@.requested,
                note: self@.note,
                args: seq![],
                envs: msvc_envs(
                    self@,
                    match headers { Some(e) => Some(e@), None => None },
                    match libs { Some(e) => Some(e@), None => None },
                    match path { Some(e) => Some(e@), None => None },
                    sep@,
                ),
                current_dir: None,
            }),
    {
        let c = sep.get_char(0);
        if !(lacks_char(&self.include_paths, c) && lacks_char(&self.lib_paths, c) && lacks_char(
            &self.path_paths,
            c,
        )) {
            return None;
        }
        proof {
            reveal_strlit("INCLUDE");
            reveal_strlit("LIB");
            reveal_strlit("PATH");
            reveal_strlit("Platform");
        }
        let mut b = Build::new(self.requested.as_str(), self.note.as_str());
        let inc = extend_list(&self.include_paths, headers, sep);
        let lb = extend_list(&self.lib_paths, libs, sep);
        let pth = extend_list(&self.path_paths, path, sep);
        assert("INCLUDE"@.len() == 7 && "LIB"@.len() == 3 && "PATH"@.len() == 4
            && "Platform"@.len() == 8);
        b.env("INCLUDE", inc.as_str());
        assert(b@.envs =~= seq![("INCLUDE"@, inc@)]);
        b.env("LIB", lb.as_str());
        assert(b@.envs =~= seq![("INCLUDE"@, inc@), ("LIB"@, lb@)]);
        b.env("PATH", pth.as_str());
        assert(b@.envs =~= seq![("INCLUDE"@, inc@), ("LIB"@, lb@), ("PATH"@, pth@)]);
        match &self.platform {
            Some(p) => {
                b.env("Platform", p.as_str());
                assert(b@.envs =~= seq![("INCLUDE"@, inc@), ("LIB"@, lb@), ("PATH"@, pth@)]
                    + seq![("Platform"@, p@)]);
            },
            None => {},
        }
        assert(b@.envs =~= msvc_envs(
            self@,
            match headers { Some(e) => Some(e@), None => None },
            match libs { Some(e) => Some(e@), None => None },
            match path { Some(e) => Some(e@), None => None },
            sep@,
        ));
        assert(b@.args =~= seq![]);
        Some(b)
    }
}

} // verus!
