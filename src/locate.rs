//! Locating an external tool across deployment layouts, and confirming that
//! the executable found is the expected tool.
//!
//! Finding a tool is split in three: `candidates` lists, in priority order, every
//! place the tool may live; the caller probes the filesystem for each of them
//! (does the executable exist, which sibling directories exist); `select` picks
//! the first candidate whose probe is complete and derives its environment.
use vstd::prelude::*;
use crate::args::views;
use crate::text::{chars_of, contains_ascii_ci, contains_ignore_case, lit, push_str, string_of};

verus! {

/// What is known of a tool before it is looked for.
pub struct ToolSpec {
    /// Short name; also the directory name of the nested layout.
    pub name: String,
    /// A versioned subdirectory's name must contain one of these, ignoring case.
    pub dir_marks: Vec<String>,
    /// File name of the executable.
    pub exe: String,
    /// Directories that must exist next to the binary directory.
    pub siblings: Vec<String>,
    /// Variable that receives the sibling directories, `;`-separated.
    pub library_env: String,
    /// Variable that receives the fonts directory, where the tool takes one.
    pub fonts_env: Option<String>,
    /// Token that the tool's version output must contain, ignoring case.
    pub identity: String,
}

/// One place where the tool may live.
pub struct Candidate {
    /// Directory that holds the binary directory and, beside it, the siblings.
    pub layout_root: String,
    pub bin_dir: String,
    pub exe: String,
}

/// What the filesystem showed of one candidate.
pub struct Probe {
    pub exe_exists: bool,
    /// One entry per required sibling, in the order of `ToolSpec::siblings`.
    pub siblings_present: Vec<bool>,
    pub fonts_present: bool,
}

/// A tool that was found: where it lives and the environment it needs.
pub struct ResolvedTool {
    pub bin_dir: String,
    pub exe: String,
    pub env: Vec<(String, String)>,
}

pub type CandidateView = (Seq<char>, Seq<char>, Seq<char>);

pub type EnvView = Seq<(Seq<char>, Seq<char>)>;

impl View for Candidate {
    type V = CandidateView;

    open spec fn view(&self) -> CandidateView {
        (self.layout_root@, self.bin_dir@, self.exe@)
    }
}

pub open spec fn env_view(env: Seq<(String, String)>) -> EnvView {
    env.map_values(|p: (String, String)| (p.0@, p.1@))
}

impl View for ResolvedTool {
    type V = (Seq<char>, Seq<char>, EnvView);

    open spec fn view(&self) -> (Seq<char>, Seq<char>, EnvView) {
        (self.bin_dir@, self.exe@, env_view(self.env@))
    }
}

/// `a/b`.
pub open spec fn join(a: Seq<char>, b: Seq<char>) -> Seq<char> {
    a + seq!['/'] + b
}

/// The four fixed layouts under one root, in priority order: flat
/// (`root/bin/exe`), nested by name (`root/name/bin/exe`, then `root/name/exe`),
/// and the executable directly in the root. Each candidate's layout root is
/// the parent of its binary directory, where the siblings are looked for; for
/// the executable directly in the root that is `root/..`.
pub open spec fn fixed_layouts(name: Seq<char>, exe: Seq<char>, root: Seq<char>) -> Seq<
    CandidateView,
> {
    let nested = join(root, name);
    seq![
        (root, join(root, "bin"@), join(join(root, "bin"@), exe)),
        (nested, join(nested, "bin"@), join(join(nested, "bin"@), exe)),
        (root, nested, join(nested, exe)),
        (join(root, ".."@), root, join(root, exe)),
    ]
}

/// Whether a subdirectory name contains one of the marks, ignoring case.
pub open spec fn has_mark(s: Seq<char>, marks: Seq<Seq<char>>) -> bool {
    exists|i: int| 0 <= i < marks.len() && contains_ignore_case(s, #[trigger] marks[i])
}

/// Versioned layouts `root/sub/bin/exe`, for each subdirectory whose name
/// contains one of the marks (ignoring case), in the order given.
pub open spec fn versioned_layouts(
    marks: Seq<Seq<char>>,
    exe: Seq<char>,
    root: Seq<char>,
    subs: Seq<Seq<char>>,
) -> Seq<CandidateView>
    decreases subs.len(),
{
    if subs.len() == 0 {
        Seq::empty()
    } else {
        let s = subs.last();
        let head = versioned_layouts(marks, exe, root, subs.drop_last());
        if has_mark(s, marks) {
            let d = join(root, s);
            head.push((d, join(d, "bin"@), join(join(d, "bin"@), exe)))
        } else {
            head
        }
    }
}

/// Every candidate, root by root in priority order.
pub open spec fn all_layouts(
    name: Seq<char>,
    marks: Seq<Seq<char>>,
    exe: Seq<char>,
    roots: Seq<Seq<char>>,
    subdirs: Seq<Seq<Seq<char>>>,
) -> Seq<CandidateView>
    decreases roots.len(),
{
    if roots.len() == 0 || subdirs.len() == 0 {
        Seq::empty()
    } else {
        all_layouts(name, marks, exe, roots.drop_last(), subdirs.drop_last()) + fixed_layouts(
            name,
            exe,
            roots.last(),
        ) + versioned_layouts(marks, exe, roots.last(), subdirs.last())
    }
}

/// Builds `a/b`.
pub fn join_path(a: &str, b: &str) -> (r: String)
    ensures
        r@ == join(a@, b@),
{
    let mut v = chars_of(a);
    v.push('/');
    push_str(&mut v, b);
    string_of(&v)
}

fn candidate(layout_root: String, bin_dir: &String, exe: &String) -> (r: Candidate)
    ensures
        r@ == (layout_root@, bin_dir@, join(bin_dir@, exe@)),
{
    Candidate { layout_root, bin_dir: bin_dir.clone(), exe: join_path(bin_dir, exe) }
}

fn push_fixed_layouts(out: &mut Vec<Candidate>, tool: &ToolSpec, root: &String)
    ensures
        final(out)@.map_values(|c: Candidate| c@) == old(out)@.map_values(|c: Candidate| c@)
            + fixed_layouts(tool.name@, tool.exe@, root@),
{
    let ghost before = out@;
    let bin = join_path(root, "bin");
    let nested = join_path(root, &tool.name);
    let nested_bin = join_path(&nested, "bin");
    out.push(candidate(root.clone(), &bin, &tool.exe));
    out.push(candidate(nested.clone(), &nested_bin, &tool.exe));
    out.push(candidate(root.clone(), &nested, &tool.exe));
    out.push(candidate(join_path(root, ".."), root, &tool.exe));
    assert(out@.map_values(|c: Candidate| c@) =~= before.map_values(|c: Candidate| c@)
        + fixed_layouts(tool.name@, tool.exe@, root@));
}

fn has_any_mark(s: &String, marks: &Vec<String>) -> (r: bool)
    ensures
        r == has_mark(s@, views(marks@)),
{
    let mut i: usize = 0;
    while i < marks.len()
        invariant
            i <= marks.len(),
            forall|j: int| 0 <= j < i ==> !contains_ignore_case(s@, #[trigger] views(marks@)[j]),
        decreases marks.len() - i,
    {
        assert(views(marks@)[i as int] == marks@[i as int]@);
        if contains_ascii_ci(s, &marks[i]) {
            return true;
        }
        i = i + 1;
    }
    false
}

fn push_versioned_layouts(
    out: &mut Vec<Candidate>,
    tool: &ToolSpec,
    root: &String,
    subs: &Vec<String>,
)
    ensures
        final(out)@.map_values(|c: Candidate| c@) == old(out)@.map_values(|c: Candidate| c@)
            + versioned_layouts(views(tool.dir_marks@), tool.exe@, root@, views(subs@)),
{
    let ghost before = out@.map_values(|c: Candidate| c@);
    let mut i: usize = 0;
    while i < subs.len()
        invariant
            i <= subs.len(),
            out@.map_values(|c: Candidate| c@) == before + versioned_layouts(
                views(tool.dir_marks@),
                tool.exe@,
                root@,
                views(subs@.subrange(0, i as int)),
            ),
        decreases subs.len() - i,
    {
        let ghost mid = out@.map_values(|c: Candidate| c@);
        assert(views(subs@.subrange(0, i + 1)).drop_last() =~= views(
            subs@.subrange(0, i as int),
        ));
        assert(views(subs@.subrange(0, i + 1)).last() == subs@[i as int]@);
        if has_any_mark(&subs[i], &tool.dir_marks) {
            let dir = join_path(root, &subs[i]);
            let bin = join_path(&dir, "bin");
            out.push(candidate(dir, &bin, &tool.exe));
            assert(out@.map_values(|c: Candidate| c@) =~= mid.push(out@.last()@));
        }
        i = i + 1;
    }
    assert(subs@.subrange(0, i as int) =~= subs@);
}

/// Every place the tool may live, in priority order: for each root in turn, the
/// fixed layouts and then the matching versioned subdirectories among
/// `subdirs[i]`, the names of the subdirectories of `roots[i]`.
pub fn candidates(tool: &ToolSpec, roots: &Vec<String>, subdirs: &Vec<Vec<String>>) -> (r: Vec<
    Candidate,
>)
    requires
        roots.len() == subdirs.len(),
    ensures
        r@.map_values(|c: Candidate| c@) == all_layouts(
            tool.name@,
            views(tool.dir_marks@),
            tool.exe@,
            views(roots@),
            subdirs@.map_values(|s: Vec<String>| views(s@)),
        ),
{
    let mut out: Vec<Candidate> = Vec::new();
    let mut i: usize = 0;
    while i < roots.len()
        invariant
            roots.len() == subdirs.len(),
            i <= roots.len(),
            out@.map_values(|c: Candidate| c@) == all_layouts(
                tool.name@,
                views(tool.dir_marks@),
                tool.exe@,
                views(roots@.subrange(0, i as int)),
                subdirs@.subrange(0, i as int).map_values(|s: Vec<String>| views(s@)),
            ),
        decreases roots.len() - i,
    {
        proof {
            let rs = views(roots@.subrange(0, i + 1));
            let ss = subdirs@.subrange(0, i + 1).map_values(|s: Vec<String>| views(s@));
            assert(rs.drop_last() =~= views(roots@.subrange(0, i as int)));
            assert(ss.drop_last() =~= subdirs@.subrange(0, i as int).map_values(
                |s: Vec<String>| views(s@),
            ));
            assert(rs.last() == roots@[i as int]@);
            assert(ss.last() == views(subdirs@[i as int]@));
        }
        push_fixed_layouts(&mut out, tool, &roots[i]);
        push_versioned_layouts(&mut out, tool, &roots[i], &subdirs[i]);
        i = i + 1;
    }
    assert(roots@.subrange(0, i as int) =~= roots@);
    assert(subdirs@.subrange(0, i as int) =~= subdirs@);
    out
}

/// Whether a probe shows the executable and every required sibling directory.
pub open spec fn acceptable(tool: &ToolSpec, p: Probe) -> bool {
    &&& p.exe_exists
    &&& p.siblings_present@.len() == tool.siblings@.len()
    &&& forall|i: int| 0 <= i < p.siblings_present@.len() ==> #[trigger] p.siblings_present@[i]
}

/// The sibling directories of a candidate.
pub open spec fn sibling_paths(tool: &ToolSpec, layout_root: Seq<char>) -> Seq<Seq<char>> {
    tool.siblings@.map_values(|s: String| join(layout_root, s@))
}

/// The paths separated by `;`.
pub open spec fn path_list(paths: Seq<Seq<char>>) -> Seq<char>
    decreases paths.len(),
{
    if paths.len() == 0 {
        Seq::empty()
    } else if paths.len() == 1 {
        paths[0]
    } else {
        path_list(paths.drop_last()) + seq![';'] + paths.last()
    }
}

/// The environment that a tool found at `c` needs: where it requires sibling
/// directories, a library-search variable over all of them, and the fonts
/// variable where the tool takes one and the fonts directory exists.
pub open spec fn derived_env(tool: &ToolSpec, c: CandidateView, p: Probe) -> EnvView {
    if tool.siblings@.len() == 0 {
        Seq::empty()
    } else {
        let lib = seq![(tool.library_env@, path_list(sibling_paths(tool, c.0)))];
        match tool.fonts_env {
            Some(f) => if p.fonts_present {
                lib.push((f@, join(c.0, "fonts"@)))
            } else {
                lib
            },
            None => lib,
        }
    }
}

/// The tool as found at candidate `c`.
pub open spec fn resolved(tool: &ToolSpec, c: CandidateView, p: Probe) -> (
    Seq<char>,
    Seq<char>,
    EnvView,
) {
    (c.1, c.2, derived_env(tool, c, p))
}

/// The sibling directories of a candidate, for probing.
pub fn sibling_dirs(tool: &ToolSpec, c: &Candidate) -> (r: Vec<String>)
    ensures
        views(r@) == sibling_paths(tool, c.layout_root@),
{
    let mut out: Vec<String> = Vec::new();
    let mut i: usize = 0;
    while i < tool.siblings.len()
        invariant
            i <= tool.siblings.len(),
            views(out@) == sibling_paths(tool, c.layout_root@).subrange(0, i as int),
        decreases tool.siblings.len() - i,
    {
        let ghost before = out@;
        out.push(join_path(&c.layout_root, &tool.siblings[i]));
        assert(sibling_paths(tool, c.layout_root@)[i as int] == join(
            c.layout_root@,
            tool.siblings@[i as int]@,
        ));
        assert(views(out@) =~= views(before).push(
            sibling_paths(tool, c.layout_root@)[i as int],
        ));
        i = i + 1;
        assert(views(out@) =~= sibling_paths(tool, c.layout_root@).subrange(0, i as int));
    }
    assert(views(out@) =~= sibling_paths(tool, c.layout_root@));
    out
}

/// The fonts directory of a candidate, for probing.
pub fn fonts_dir(c: &Candidate) -> (r: String)
    ensures
        r@ == join(c.layout_root@, "fonts"@),
{
    join_path(&c.layout_root, "fonts")
}

fn build_path_list(paths: &Vec<String>) -> (r: String)
    ensures
        r@ == path_list(views(paths@)),
{
    let mut out: Vec<char> = Vec::new();
    let mut i: usize = 0;
    while i < paths.len()
        invariant
            i <= paths.len(),
            out@ == path_list(views(paths@.subrange(0, i as int))),
        decreases paths.len() - i,
    {
        let ghost ps = views(paths@.subrange(0, i + 1));
        assert(ps.drop_last() =~= views(paths@.subrange(0, i as int)));
        if i > 0 {
            out.push(';');
        }
        push_str(&mut out, paths[i].as_str());
        i = i + 1;
        proof {
            if i == 1 {
                assert(ps.len() == 1);
                assert(out@ =~= ps[0]);
            } else {
                assert(out@ =~= path_list(ps.drop_last()) + seq![';'] + ps.last());
            }
        }
    }
    assert(paths@.subrange(0, i as int) =~= paths@);
    string_of(&out)
}

fn all_present(flags: &Vec<bool>) -> (r: bool)
    ensures
        r == forall|i: int| 0 <= i < flags@.len() ==> #[trigger] flags@[i],
{
    let mut i: usize = 0;
    while i < flags.len()
        invariant
            i <= flags.len(),
            forall|j: int| 0 <= j < i ==> #[trigger] flags@[j],
        decreases flags.len() - i,
    {
        if !flags[i] {
            return false;
        }
        i = i + 1;
    }
    true
}

fn resolve(tool: &ToolSpec, c: &Candidate, p: &Probe) -> (r: ResolvedTool)
    ensures
        r@ == resolved(tool, c@, *p),
{
    let mut env: Vec<(String, String)> = Vec::new();
    if tool.siblings.len() > 0 {
        let dirs = sibling_dirs(tool, c);
        env.push((tool.library_env.clone(), build_path_list(&dirs)));
        match &tool.fonts_env {
            Some(f) => {
                if p.fonts_present {
                    env.push((f.clone(), fonts_dir(c)));
                }
            },
            None => {},
        }
    }
    let r = ResolvedTool { bin_dir: c.bin_dir.clone(), exe: c.exe.clone(), env };
    assert(r@.2 =~= derived_env(tool, c@, *p));
    r
}

/// The index of the first acceptable probe at or after `i`.
pub open spec fn first_acceptable(tool: &ToolSpec, probes: Seq<Probe>, i: int) -> Option<int>
    decreases probes.len() - i,
{
    if i < 0 || i >= probes.len() {
        None
    } else if acceptable(tool, probes[i]) {
        Some(i)
    } else {
        first_acceptable(tool, probes, i + 1)
    }
}

/// Where the tool is found, given the candidates and what probing showed.
pub open spec fn located(tool: &ToolSpec, cands: Seq<CandidateView>, probes: Seq<Probe>) -> Option<
    (Seq<char>, Seq<char>, EnvView),
> {
    match first_acceptable(tool, probes, 0) {
        Some(k) => Some(resolved(tool, cands[k], probes[k])),
        None => None,
    }
}

pub open spec fn candidate_views(cands: Seq<Candidate>) -> Seq<CandidateView> {
    cands.map_values(|c: Candidate| c@)
}

/// Picks the first candidate whose probe shows the executable and all required
/// sibling directories, and derives the environment it needs.
pub fn select(tool: &ToolSpec, cands: &Vec<Candidate>, probes: &Vec<Probe>) -> (r: Option<
    ResolvedTool,
>)
    requires
        cands.len() == probes.len(),
    ensures
        match r {
            Some(t) => located(tool, candidate_views(cands@), probes@) == Some(t@),
            None => located(tool, candidate_views(cands@), probes@) is None,
        },
{
    let mut i: usize = 0;
    while i < probes.len()
        invariant
            cands.len() == probes.len(),
            i <= probes.len(),
            first_acceptable(tool, probes@, 0) == first_acceptable(tool, probes@, i as int),
        decreases probes.len() - i,
    {
        let p = &probes[i];
        if p.exe_exists && p.siblings_present.len() == tool.siblings.len() && all_present(
            &p.siblings_present,
        ) {
            assert(candidate_views(cands@)[i as int] == cands@[i as int]@);
            return Some(resolve(tool, &cands[i], p));
        }
        i = i + 1;
    }
    None
}

proof fn lemma_first_acceptable_found(tool: &ToolSpec, probes: Seq<Probe>, i: int, k: int)
    requires
        0 <= i <= k < probes.len(),
        acceptable(tool, probes[k]),
    ensures
        first_acceptable(tool, probes, i) matches Some(j) && i <= j <= k && acceptable(
            tool,
            probes[j],
        ),
    decreases k - i,
{
    if !acceptable(tool, probes[i]) {
        lemma_first_acceptable_found(tool, probes, i + 1, k);
    }
}

proof fn lemma_first_acceptable_sound(tool: &ToolSpec, probes: Seq<Probe>, i: int)
    requires
        0 <= i,
    ensures
        first_acceptable(tool, probes, i) matches Some(j) ==> i <= j < probes.len() && acceptable(
            tool,
            probes[j],
        ),
    decreases probes.len() - i,
{
    if i < probes.len() && !acceptable(tool, probes[i]) {
        lemma_first_acceptable_sound(tool, probes, i + 1);
    }
}

/// Locating succeeds whenever some candidate, whatever its layout, shows the
/// executable together with every required sibling directory; the tool found
/// then has all its siblings present and carries the environment derived from
/// them. Conversely, a candidate with a missing sibling is never the one found,
/// even where its executable exists.
pub proof fn lemma_locate_requires_complete_layout(
    tool: &ToolSpec,
    cands: Seq<CandidateView>,
    probes: Seq<Probe>,
)
    requires
        cands.len() == probes.len(),
    ensures
        (exists|k: int| 0 <= k < probes.len() && acceptable(tool, #[trigger] probes[k]))
            ==> located(tool, cands, probes) is Some,
        located(tool, cands, probes) matches Some(t) ==> exists|k: int|
            0 <= k < probes.len() && acceptable(tool, probes[k]) && t == resolved(
                tool,
                cands[k],
                probes[k],
            ) && t.2 == derived_env(tool, cands[k], probes[k]),
        (forall|k: int| 0 <= k < probes.len() ==> !acceptable(tool, #[trigger] probes[k]))
            ==> located(tool, cands, probes) is None,
{
    lemma_first_acceptable_sound(tool, probes, 0);
    if exists|k: int| 0 <= k < probes.len() && acceptable(tool, #[trigger] probes[k]) {
        let k = choose|k: int| 0 <= k < probes.len() && acceptable(tool, #[trigger] probes[k]);
        lemma_first_acceptable_found(tool, probes, 0, k);
    }
}

/// The lossy raster-rewrite tool: `bin/gswin64c.exe` beside `lib` and
/// `Resource`, with an optional `fonts` directory; a versioned directory is
/// named after `gs` or `ghostscript`.
pub fn ghostscript_tool() -> (r: ToolSpec)
    ensures
        r.name@ == "gs"@,
        views(r.dir_marks@) == seq!["gs"@, "ghostscript"@],
        r.exe@ == "gswin64c.exe"@,
        views(r.siblings@) == seq!["lib"@, "Resource"@],
        r.library_env@ == "GS_LIB"@,
        r.fonts_env matches Some(f) && f@ == "GS_FONTPATH"@,
        r.identity@ == "ghostscript"@,
{
    let siblings = vec![lit("lib"), lit("Resource")];
    assert(views(siblings@) =~= seq!["lib"@, "Resource"@]);
    let dir_marks = vec![lit("gs"), lit("ghostscript")];
    assert(views(dir_marks@) =~= seq!["gs"@, "ghostscript"@]);
    ToolSpec {
        name: lit("gs"),
        dir_marks,
        exe: lit("gswin64c.exe"),
        siblings,
        library_env: lit("GS_LIB"),
        fonts_env: Some(lit("GS_FONTPATH")),
        identity: lit("ghostscript"),
    }
}

/// The lossless page-recompression tool: `qpdf.exe`, with no sibling
/// directories.
pub fn qpdf_tool() -> (r: ToolSpec)
    ensures
        r.name@ == "qpdf"@,
        views(r.dir_marks@) == seq!["qpdf"@],
        r.exe@ == "qpdf.exe"@,
        r.siblings@.len() == 0,
        r.library_env@ == Seq::<char>::empty(),
        r.fonts_env is None,
        r.identity@ == "qpdf"@,
{
    let dir_marks = vec![lit("qpdf")];
    assert(views(dir_marks@) =~= seq!["qpdf"@]);
    ToolSpec {
        name: lit("qpdf"),
        dir_marks,
        exe: lit("qpdf.exe"),
        siblings: Vec::new(),
        library_env: String::new(),
        fonts_env: None,
        identity: lit("qpdf"),
    }
}

} // verus!
