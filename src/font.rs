//! Where the rendering font comes from: an explicit path the caller trusts, or
//! the first candidate found in an ordered list of search roots.
//!
//! The checks on the filesystem and the loading itself are the caller's: this
//! module lists what to probe, in which order, and decides from the answers.

use vstd::prelude::*;

use crate::text::views;

verus! {

/// Which group of search roots is probed first.
#[derive(Clone, Copy, Debug, PartialEq, Eq, Structural)]
pub enum RootPriority {
    /// Roots the operator supplied come before the system's: an override is
    /// never shadowed by a system default. This is the usual order.
    CustomFirst,
    SystemFirst,
}

/// The directories searched for a font family.
#[derive(Clone, Debug, PartialEq, Eq)]
pub struct FontSearch {
    pub custom_roots: Vec<String>,
    pub system_roots: Vec<String>,
    pub priority: RootPriority,
}

/// The search roots in the order they are probed.
pub open spec fn ordered_roots(s: &FontSearch) -> Seq<Seq<char>> {
    match s.priority {
        RootPriority::CustomFirst => views(s.custom_roots@) + views(s.system_roots@),
        RootPriority::SystemFirst => views(s.system_roots@) + views(s.custom_roots@),
    }
}

/// `s` with each space replaced by `by`.
pub open spec fn replace_spaces(s: Seq<char>, by: Seq<char>) -> Seq<char>
    decreases s.len(),
{
    if s.len() == 0 {
        Seq::empty()
    } else {
        replace_spaces(s.drop_last(), by) + if s.last() == ' ' {
            by
        } else {
            seq![s.last()]
        }
    }
}

/// The file-name spellings probed for a family, in order: run together,
/// hyphenated, and as given.
pub open spec fn spellings(family: Seq<char>) -> Seq<Seq<char>> {
    seq![replace_spaces(family, Seq::empty()), replace_spaces(family, "-"@), family]
}

/// A directory paired with a family spelling; the font is found there when
/// the directory holds `<name>-Regular.ttf`.
#[derive(Clone, Debug, PartialEq, Eq)]
pub struct FontCandidate {
    pub dir: String,
    pub name: String,
}

impl View for FontCandidate {
    type V = (Seq<char>, Seq<char>);

    open spec fn view(&self) -> (Seq<char>, Seq<char>) {
        (self.dir@, self.name@)
    }
}

/// Each spelling under one root, in order.
pub open spec fn row(root: Seq<char>, names: Seq<Seq<char>>) -> Seq<(Seq<char>, Seq<char>)>
    decreases names.len(),
{
    if names.len() == 0 {
        Seq::empty()
    } else {
        row(root, names.drop_last()).push((root, names.last()))
    }
}

/// Every root with every spelling: roots in order, and under each root the
/// spellings in order.
pub open spec fn grid(roots: Seq<Seq<char>>, names: Seq<Seq<char>>) -> Seq<(Seq<char>, Seq<char>)>
    decreases roots.len(),
{
    if roots.len() == 0 {
        Seq::empty()
    } else {
        grid(roots.drop_last(), names) + row(roots.last(), names)
    }
}

pub open spec fn candidate_views(cs: Seq<FontCandidate>) -> Seq<(Seq<char>, Seq<char>)> {
    cs.map_values(|c: FontCandidate| c@)
}

/// `s` with each space replaced by `by`.
pub fn spaces_replaced(s: &str, by: &str) -> (r: String)
    ensures
        r@ == replace_spaces(s@, by@),
{
    let n = s.unicode_len();
    let mut out = String::new();
    let mut i: usize = 0;
    while i < n
        invariant
            n == s@.len(),
            i <= n,
            out@ == replace_spaces(s@.take(i as int), by@),
        decreases n - i,
    {
        let c = s.get_char(i);
        assert(s@.take(i as int + 1).drop_last() =~= s@.take(i as int));
        if c == ' ' {
            out.append(by);
        } else {
            let one = s.substring_char(i, i + 1);
            assert(one@ =~= seq![c]);
            out.append(one);
        }
        i = i + 1;
    }
    assert(s@.take(n as int) =~= s@);
    out
}

/// The file-name spellings probed for `family`.
pub fn name_spellings(family: &str) -> (r: Vec<String>)
    ensures
        views(r@) == spellings(family@),
{
    let mut r: Vec<String> = Vec::new();
    r.push(spaces_replaced(family, ""));
    r.push(spaces_replaced(family, "-"));
    r.push(String::from_str(family));
    proof {
        reveal_strlit("");
        assert(""@ =~= Seq::<char>::empty());
    }
    assert(views(r@) =~= spellings(family@));
    r
}

impl FontSearch {
    /// The search roots in the order they are probed.
    pub fn search_roots(&self) -> (r: Vec<String>)
        ensures
            views(r@) == ordered_roots(self),
    {
        let (first, second) = match self.priority {
            RootPriority::CustomFirst => (&self.custom_roots, &self.system_roots),
            RootPriority::SystemFirst => (&self.system_roots, &self.custom_roots),
        };
        let mut r: Vec<String> = Vec::new();
        let mut i: usize = 0;
        while i < first.len()
            invariant
                i <= first@.len(),
                views(r@) =~= views(first@.take(i as int)),
            decreases first@.len() - i,
        {
            let ghost before = r@;
            r.push(first[i].clone());
            assert(first@.take(i as int + 1) =~= first@.take(i as int).push(first@[i as int]));
            assert(views(r@) =~= views(before).push(first@[i as int]@));
            i = i + 1;
        }
        assert(first@.take(i as int) =~= first@);
        let mut j: usize = 0;
        while j < second.len()
            invariant
                j <= second@.len(),
                views(r@) =~= views(first@) + views(second@.take(j as int)),
            decreases second@.len() - j,
        {
            let ghost before = r@;
            r.push(second[j].clone());
            assert(second@.take(j as int + 1) =~= second@.take(j as int).push(second@[j as int]));
            assert(views(r@) =~= views(before).push(second@[j as int]@));
            j = j + 1;
        }
        assert(second@.take(j as int) =~= second@);
        r
    }

    /// Every candidate location for `family`: the roots in probing order, and
    /// under each root every spelling of the family in order.
    pub fn candidates(&self, family: &str) -> (r: Vec<FontCandidate>)
        ensures
            candidate_views(r@) == grid(ordered_roots(self), spellings(family@)),
    {
        let roots = self.search_roots();
        let names = name_spellings(family);
        let mut r: Vec<FontCandidate> = Vec::new();
        let mut i: usize = 0;
        assert(candidate_views(r@) =~= Seq::<(Seq<char>, Seq<char>)>::empty());
        while i < roots.len()
            invariant
                i <= roots@.len(),
                views(names@) == spellings(family@),
                candidate_views(r@) == grid(views(roots@.take(i as int)), views(names@)),
            decreases roots@.len() - i,
        {
            let ghost done = candidate_views(r@);
            let mut j: usize = 0;
            while j < names.len()
                invariant
                    i < roots@.len(),
                    j <= names@.len(),
                    candidate_views(r@) == done + row(roots@[i as int]@, views(names@.take(j as int))),
                decreases names@.len() - j,
            {
                let ghost before = r@;
                r.push(FontCandidate { dir: roots[i].clone(), name: names[j].clone() });
                assert(candidate_views(r@) =~= candidate_views(before).push(
                    (roots@[i as int]@, names@[j as int]@),
                ));
                assert(views(names@.take(j as int + 1)).drop_last() =~= views(names@.take(j as int)));
                j = j + 1;
            }
            assert(names@.take(j as int) =~= names@);
            assert(views(roots@.take(i as int + 1)).drop_last() =~= views(roots@.take(i as int)));
            i = i + 1;
        }
        assert(roots@.take(i as int) =~= roots@);
        r
    }
}

/// What a probe of one candidate found.
#[derive(Clone, Debug, PartialEq, Eq)]
pub struct FontProbe {
    pub candidate: FontCandidate,
    /// The candidate's directory holds the family's regular face.
    pub found: bool,
}

/// Where the font is loaded from.
#[derive(Clone, Debug, PartialEq, Eq)]
pub enum FontSource {
    /// The path the caller gave, trusted as it is.
    Explicit(String),
    /// The first candidate that a search found.
    Discovered(FontCandidate),
}

#[derive(Clone, Debug, PartialEq, Eq)]
pub enum FontError {
    /// The font at `path` could not be loaded.
    Load { path: String },
    /// No candidate of the search holds the font.
    NotFound,
}

/// Probe `i` found the font and no earlier one did.
pub open spec fn first_found(probes: Seq<FontProbe>, i: int) -> bool {
    &&& 0 <= i < probes.len()
    &&& probes[i].found
    &&& forall|j: int| 0 <= j < i ==> !(#[trigger] probes[j]).found
}

/// `r` is what `locate_font` decides: an explicit path that exists is used as
/// it is and nothing is searched; otherwise the first probe that found the
/// font wins, and without one the font is not found.
pub open spec fn locates(
    explicit: Option<&str>,
    explicit_exists: bool,
    probes: Seq<FontProbe>,
    r: Result<FontSource, FontError>,
) -> bool {
    if explicit is Some && explicit_exists {
        r matches Ok(FontSource::Explicit(p)) && p@ == explicit->Some_0@
    } else {
        match r {
            Ok(FontSource::Discovered(c)) => exists|i: int|
                first_found(probes, i) && c@ == (#[trigger] probes[i]).candidate@,
            Err(FontError::NotFound) => forall|i: int|
                0 <= i < probes.len() ==> !(#[trigger] probes[i]).found,
            _ => false,
        }
    }
}

/// Decides where the font comes from, given whether the explicit path exists
/// and what each candidate's probe found.
pub fn locate_font(explicit: Option<&str>, explicit_exists: bool, probes: &Vec<FontProbe>) -> (r:
    Result<FontSource, FontError>)
    ensures
        locates(explicit, explicit_exists, probes@, r),
{
    match explicit {
        Some(path) => {
            if explicit_exists {
                return Ok(FontSource::Explicit(String::from_str(path)));
            }
        },
        None => {},
    }
    let mut i: usize = 0;
    while i < probes.len()
        invariant
            i <= probes@.len(),
            explicit is None || !explicit_exists,
            forall|j: int| 0 <= j < i ==> !(#[trigger] probes@[j]).found,
        decreases probes@.len() - i,
    {
        if probes[i].found {
            let c = &probes[i].candidate;
            let found = FontCandidate { dir: c.dir.clone(), name: c.name.clone() };
            assert(first_found(probes@, i as int) && found@ == probes@[i as int].candidate@);
            return Ok(FontSource::Discovered(found));
        }
        i = i + 1;
    }
    Err(FontError::NotFound)
}

/// What loading from `source` comes to: the source when the load succeeded,
/// else a load error that names its path.
pub open spec fn load_outcome(source: FontSource, loaded: bool) -> Result<FontSource, FontError> {
    if loaded {
        Ok(source)
    } else {
        Err(
            FontError::Load {
                path: match source {
                    FontSource::Explicit(p) => p,
                    FontSource::Discovered(c) => c.dir,
                },
            },
        )
    }
}

/// Settles the outcome of loading from `source`: the source when the load
/// succeeded, else a load error naming its path. A failed load is final: no
/// other location is tried.
pub fn font_loaded(source: FontSource, loaded: bool) -> (r: Result<FontSource, FontError>)
    ensures
        r == load_outcome(source, loaded),
{
    if loaded {
        Ok(source)
    } else {
        let path = match &source {
            FontSource::Explicit(p) => p.clone(),
            FontSource::Discovered(c) => c.dir.clone(),
        };
        Err(FontError::Load { path })
    }
}

proof fn lemma_row(root: Seq<char>, names: Seq<Seq<char>>)
    ensures
        row(root, names).len() == names.len(),
        forall|i: int| 0 <= i < names.len() ==> (#[trigger] row(root, names)[i]).0 == root,
    decreases names.len(),
{
    if names.len() > 0 {
        lemma_row(root, names.drop_last());
    }
}

proof fn lemma_grid_append(a: Seq<Seq<char>>, b: Seq<Seq<char>>, names: Seq<Seq<char>>)
    ensures
        grid(a + b, names) == grid(a, names) + grid(b, names),
    decreases b.len(),
{
    if b.len() == 0 {
        assert(a + b =~= a);
        assert(grid(a, names) + grid(b, names) =~= grid(a, names));
    } else {
        assert((a + b).drop_last() =~= a + b.drop_last());
        assert((a + b).last() == b.last());
        lemma_grid_append(a, b.drop_last(), names);
        assert(grid(a + b, names) =~= grid(a, names) + grid(b, names));
    }
}

proof fn lemma_grid_dirs(roots: Seq<Seq<char>>, names: Seq<Seq<char>>, i: int)
    requires
        0 <= i < grid(roots, names).len(),
    ensures
        exists|m: int| 0 <= m < roots.len() && grid(roots, names)[i].0 == #[trigger] roots[m],
    decreases roots.len(),
{
    if roots.len() > 0 {
        let prefix = grid(roots.drop_last(), names);
        lemma_row(roots.last(), names);
        if i < prefix.len() {
            lemma_grid_dirs(roots.drop_last(), names, i);
            let m = choose|m: int|
                0 <= m < roots.drop_last().len() && prefix[i].0 == #[trigger] roots.drop_last()[m];
            assert(roots[m] == roots.drop_last()[m]);
        } else {
            assert(grid(roots, names)[i] == row(roots.last(), names)[i - prefix.len()]);
            assert(roots[roots.len() - 1] == roots.last());
        }
    }
}

/// When the operator's roots come first, a font found under one of them is
/// the one chosen: no system root can shadow it.
pub proof fn custom_root_takes_priority(
    search: &FontSearch,
    family: Seq<char>,
    explicit: Option<&str>,
    explicit_exists: bool,
    probes: Seq<FontProbe>,
    k: int,
    r: Result<FontSource, FontError>,
)
    requires
        search.priority == RootPriority::CustomFirst,
        probes.len() == grid(ordered_roots(search), spellings(family)).len(),
        forall|i: int|
            0 <= i < probes.len() ==> (#[trigger] probes[i]).candidate@ == grid(
                ordered_roots(search),
                spellings(family),
            )[i],
        0 <= k < grid(views(search.custom_roots@), spellings(family)).len(),
        probes[k].found,
        explicit is None || !explicit_exists,
        locates(explicit, explicit_exists, probes, r),
    ensures
        r matches Ok(FontSource::Discovered(c)) && exists|m: int|
            0 <= m < search.custom_roots@.len() && c.dir@ == (#[trigger] search.custom_roots@[m])@,
{
    let names = spellings(family);
    let custom = views(search.custom_roots@);
    let system = views(search.system_roots@);
    lemma_grid_append(custom, system, names);
    assert(!(r is Err)) by {
        if r is Err {
            assert(!probes[k].found);
        }
    }
    let c = r->Ok_0->Discovered_0;
    let i = choose|i: int| first_found(probes, i) && c@ == (#[trigger] probes[i]).candidate@;
    assert(i <= k) by {
        if i > k {
            assert(!probes[k].found);
        }
    }
    assert(grid(ordered_roots(search), names)[i] == grid(custom, names)[i]);
    lemma_grid_dirs(custom, names, i);
}

/// An explicit path that exists is used as it is, whatever the search would
/// find; and when loading from it fails, the outcome is a load error for that
/// very path, never another location.
pub proof fn explicit_path_never_falls_back(
    path: &str,
    probes: Seq<FontProbe>,
    r: Result<FontSource, FontError>,
)
    requires
        locates(Some(path), true, probes, r),
    ensures
        r matches Ok(FontSource::Explicit(p)) && p@ == path@,
        load_outcome(r->Ok_0, false) matches Err(FontError::Load { path: q }) && q@ == path@,
{
}

} // verus!
