//! The whole configuration: the base section and the override sections, each
//! under its name. An override section is named after a core, or after a
//! resolution (`video=<W>x<H>`, with `@<refresh>` where it names one).

use super::resolution::{Resolution, VideoResolutionString};
use super::{MisterConfig, MisterConfigView};
use crate::text::str_eq;
use vstd::prelude::*;

verus! {

/// An override section under its name.
#[derive(Debug)]
pub struct OverrideSection {
    /// The name of the section.
    pub name: String,
    /// What the section sets.
    pub section: MisterConfig,
}

/// The whole configuration.
#[derive(Debug)]
pub struct Config {
    mister: MisterConfig,
    entries: Vec<OverrideSection>,
    applied_core: MisterConfig,
}

/// What a configuration holds: the base section, the override sections by
/// name, and what the sections of cores have set in the base section so far.
#[verifier::ext_equal]
pub struct ConfigView {
    /// The base section.
    pub mister: MisterConfigView,
    /// The override sections by name.
    pub overrides: Map<Seq<char>, MisterConfigView>,
    /// The sections of cores that were merged into the base section, merged
    /// into one. What it sets, no section of a resolution overwrites.
    pub applied_core: MisterConfigView,
}

/// The names and contents of a list of sections.
pub open spec fn spec_entries(entries: Seq<OverrideSection>) -> Seq<(Seq<char>, MisterConfigView)> {
    Seq::new(entries.len(), |i: int| (entries[i].name@, entries[i].section@))
}

/// Whether no two sections of a list have the same name.
pub open spec fn spec_unique(s: Seq<(Seq<char>, MisterConfigView)>) -> bool {
    forall|i: int, j: int| 0 <= i < j < s.len() ==> s[i].0 != s[j].0
}

/// The sections of a list by name.
pub open spec fn spec_map_of(s: Seq<(Seq<char>, MisterConfigView)>) -> Map<
    Seq<char>,
    MisterConfigView,
>
    decreases s.len(),
{
    if s.len() == 0 {
        Map::empty()
    } else {
        spec_map_of(s.drop_last()).insert(s.last().0, s.last().1)
    }
}

/// The override sections after those of `b` have been merged into those of
/// `a`: a section that both hold is merged, any other is taken as it is.
pub open spec fn spec_merge_overrides(
    a: Map<Seq<char>, MisterConfigView>,
    b: Map<Seq<char>, MisterConfigView>,
) -> Map<Seq<char>, MisterConfigView> {
    Map::new(
        |k: Seq<char>| a.dom().contains(k) || b.dom().contains(k),
        |k: Seq<char>|
            if a.dom().contains(k) && b.dom().contains(k) {
                a[k].spec_merge(b[k])
            } else if b.dom().contains(k) {
                b[k]
            } else {
                a[k]
            },
    )
}

/// The base section after the section `name` of a resolution has been merged
/// into it, given what the sections of cores have set: the section gives way
/// to them, so that a field that they set keeps its value; unchanged where
/// there is no such section.
pub open spec fn spec_apply_video(
    mister: MisterConfigView,
    overrides: Map<Seq<char>, MisterConfigView>,
    name: Seq<char>,
    applied_core: MisterConfigView,
) -> MisterConfigView {
    if overrides.dom().contains(name) {
        mister.spec_merge(overrides[name].spec_yield_to(applied_core))
    } else {
        mister
    }
}

/// The base section after the override section `name` has been merged into
/// it; unchanged where there is no such section.
pub open spec fn spec_apply(
    mister: MisterConfigView,
    overrides: Map<Seq<char>, MisterConfigView>,
    name: Seq<char>,
) -> MisterConfigView {
    if overrides.dom().contains(name) {
        mister.spec_merge(overrides[name])
    } else {
        mister
    }
}

proof fn lemma_map_of_dom(s: Seq<(Seq<char>, MisterConfigView)>, k: Seq<char>)
    ensures
        spec_map_of(s).dom().contains(k) <==> exists|i: int| 0 <= i < s.len() && s[i].0 == k,
    decreases s.len(),
{
    if s.len() > 0 {
        lemma_map_of_dom(s.drop_last(), k);
        if spec_map_of(s).dom().contains(k) {
            if s.last().0 == k {
                assert(s[s.len() - 1].0 == k);
            } else {
                let i = choose|i: int| 0 <= i < s.drop_last().len() && s.drop_last()[i].0 == k;
                assert(s[i].0 == k);
            }
        }
        if exists|i: int| 0 <= i < s.len() && s[i].0 == k {
            let i = choose|i: int| 0 <= i < s.len() && s[i].0 == k;
            if i < s.len() - 1 {
                assert(s.drop_last()[i].0 == k);
            }
        }
    }
}

proof fn lemma_map_of_at(s: Seq<(Seq<char>, MisterConfigView)>, i: int)
    requires
        spec_unique(s),
        0 <= i < s.len(),
    ensures
        spec_map_of(s).dom().contains(s[i].0),
        spec_map_of(s)[s[i].0] == s[i].1,
    decreases s.len(),
{
    if i < s.len() - 1 {
        assert(s.drop_last()[i] == s[i]);
        lemma_map_of_at(s.drop_last(), i);
    }
}

proof fn lemma_map_of_update(s: Seq<(Seq<char>, MisterConfigView)>, i: int, v: MisterConfigView)
    requires
        spec_unique(s),
        0 <= i < s.len(),
    ensures
        spec_map_of(s.update(i, (s[i].0, v))) == spec_map_of(s).insert(s[i].0, v),
        spec_unique(s.update(i, (s[i].0, v))),
    decreases s.len(),
{
    let t = s.update(i, (s[i].0, v));
    if i < s.len() - 1 {
        assert(t.drop_last() =~= s.drop_last().update(i, (s[i].0, v)));
        assert(s.drop_last()[i] == s[i]);
        lemma_map_of_update(s.drop_last(), i, v);
        assert(t.last() == s.last());
        assert(spec_map_of(t) =~= spec_map_of(s).insert(s[i].0, v));
    } else {
        assert(t.drop_last() =~= s.drop_last());
        assert(spec_map_of(t) =~= spec_map_of(s).insert(s[i].0, v));
    }
}

proof fn lemma_map_of_push(s: Seq<(Seq<char>, MisterConfigView)>, e: (Seq<char>, MisterConfigView))
    ensures
        spec_map_of(s.push(e)) == spec_map_of(s).insert(e.0, e.1),
{
    assert(s.push(e).drop_last() =~= s);
}

impl OverrideSection {
    /// A copy of this section.
    pub fn duplicate(&self) -> (r: OverrideSection)
        ensures
            r.name@ == self.name@,
            r.section@ == self.section@,
    {
        OverrideSection { name: self.name.clone(), section: self.section.duplicate() }
    }
}

impl View for Config {
    type V = ConfigView;

    closed spec fn view(&self) -> ConfigView {
        ConfigView {
            mister: self.mister@,
            overrides: spec_map_of(spec_entries(self.entries@)),
            applied_core: self.applied_core@,
        }
    }
}

impl Config {
    /// Whether the configuration is well formed: no two override sections
    /// have the same name.
    pub closed spec fn wf(&self) -> bool {
        spec_unique(spec_entries(self.entries@))
    }

    /// The configuration with the base section `mister` and no override.
    pub fn new(mister: MisterConfig) -> (r: Config)
        ensures
            r.wf(),
            r@.mister == mister@,
            r@.overrides == Map::<Seq<char>, MisterConfigView>::empty(),
            r@.applied_core == MisterConfigView::spec_empty(),
    {
        Config { mister, entries: Vec::new(), applied_core: MisterConfig::new() }
    }

    /// The configuration used where none can be loaded: the defaults, and no
    /// override.
    pub fn defaults() -> (r: Config)
        ensures
            r.wf(),
            r@.mister == MisterConfigView::spec_empty().spec_set_defaults(),
            r@.overrides == Map::<Seq<char>, MisterConfigView>::empty(),
            r@.applied_core == MisterConfigView::spec_empty(),
    {
        Config::new(MisterConfig::new_defaults())
    }

    /// The base section.
    pub fn into_inner(self) -> (r: MisterConfig)
        ensures
            r@ == self@.mister,
    {
        self.mister
    }

    /// The base section.
    pub fn mister(&self) -> (r: &MisterConfig)
        ensures
            r@ == self@.mister,
    {
        &self.mister
    }

    fn find(&self, name: &str) -> (r: Option<usize>)
        requires
            self.wf(),
        ensures
            match r {
                Some(i) => {
                    &&& i < self.entries@.len()
                    &&& self.entries@[i as int].name@ == name@
                    &&& self@.overrides.dom().contains(name@)
                    &&& self@.overrides[name@] == self.entries@[i as int].section@
                },
                None => !self@.overrides.dom().contains(name@),
            },
    {
        let ghost s = spec_entries(self.entries@);
        let mut i: usize = 0;
        while i < self.entries.len()
            invariant
                i <= self.entries@.len(),
                s == spec_entries(self.entries@),
                spec_unique(s),
                forall|j: int| 0 <= j < i ==> s[j].0 != name@,
            decreases self.entries.len() - i,
        {
            if str_eq(self.entries[i].name.as_str(), name) {
                proof {
                    lemma_map_of_at(s, i as int);
                }
                return Some(i);
            }
            i = i + 1;
        }
        proof {
            lemma_map_of_dom(s, name@);
        }
        None
    }

    /// Whether there is an override section of that name.
    pub fn has_override(&self, name: &str) -> (r: bool)
        requires
            self.wf(),
        ensures
            r == self@.overrides.dom().contains(name@),
    {
        self.find(name).is_some()
    }

    /// A copy of the override section of that name.
    pub fn get_override(&self, name: &str) -> (r: Option<MisterConfig>)
        requires
            self.wf(),
        ensures
            match r {
                Some(section) => self@.overrides.dom().contains(name@) && section@
                    == self@.overrides[name@],
                None => !self@.overrides.dom().contains(name@),
            },
    {
        match self.find(name) {
            Some(i) => Some(self.entries[i].section.duplicate()),
            None => None,
        }
    }

    /// Puts an override section under a name, in place of the section that
    /// was there.
    pub fn set_override(&mut self, name: &str, section: MisterConfig)
        requires
            old(self).wf(),
        ensures
            final(self).wf(),
            final(self)@.mister == old(self)@.mister,
            final(self)@.applied_core == old(self)@.applied_core,
            final(self)@.overrides == old(self)@.overrides.insert(name@, section@),
    {
        let ghost s = spec_entries(self.entries@);
        let ghost v = section@;
        match self.find(name) {
            Some(i) => {
                proof {
                    lemma_map_of_update(s, i as int, v);
                }
                self.entries.set(i, OverrideSection { name: String::from_str(name), section });
                assert(spec_entries(self.entries@) =~= s.update(i as int, (s[i as int].0, v)));
            },
            None => {
                proof {
                    lemma_map_of_push(s, (name@, v));
                    lemma_map_of_dom(s, name@);
                }
                self.entries.push(OverrideSection { name: String::from_str(name), section });
                assert(spec_entries(self.entries@) =~= s.push((name@, v)));
            },
        }
    }

    /// Merges the override section of a core, named after the core, into the
    /// base section, and remembers what it set: no section of a resolution
    /// that is merged later overwrites that.
    pub fn merge_core_override(&mut self, corename: &str)
        requires
            old(self).wf(),
        ensures
            final(self).wf(),
            final(self)@.overrides == old(self)@.overrides,
            final(self)@.mister == spec_apply(old(self)@.mister, old(self)@.overrides, corename@),
            final(self)@.applied_core == spec_apply(
                old(self)@.applied_core,
                old(self)@.overrides,
                corename@,
            ),
    {
        match self.find(corename) {
            Some(i) => {
                let o = self.entries[i].section.duplicate();
                self.mister.merge(o);
                let o = self.entries[i].section.duplicate();
                self.applied_core.merge(o);
            },
            None => {},
        }
    }

    /// Merges the override section of a resolution, named `video=<W>x<H>`,
    /// into the base section. The section gives way to the sections of cores
    /// that were merged before: a field that they set keeps its value, any
    /// other field that the section sets is overwritten, and the lists of the
    /// section are appended.
    pub fn merge_video_override(&mut self, resolution: Resolution)
        requires
            old(self).wf(),
        ensures
            final(self).wf(),
            final(self)@.overrides == old(self)@.overrides,
            final(self)@.applied_core == old(self)@.applied_core,
            final(self)@.mister == spec_apply_video(
                old(self)@.mister,
                old(self)@.overrides,
                (VideoResolutionString { resolution, refresh: None }).spec_to_string(),
                old(self)@.applied_core,
            ),
    {
        let video_str = VideoResolutionString::new(resolution).to_string();
        match self.find(video_str.as_str()) {
            Some(i) => {
                let mut o = self.entries[i].section.duplicate();
                o.yield_to(&self.applied_core);
                self.mister.merge(o);
            },
            None => {},
        }
    }

    /// Applies the overrides for a core that runs at a resolution: the
    /// section of the resolution and the section of the core, so that what the
    /// section of the core sets wins.
    pub fn apply_overrides(&mut self, corename: &str, resolution: Resolution)
        requires
            old(self).wf(),
        ensures
            final(self).wf(),
            final(self)@.overrides == old(self)@.overrides,
            final(self)@.applied_core == spec_apply(
                old(self)@.applied_core,
                old(self)@.overrides,
                corename@,
            ),
            final(self)@.mister == spec_apply(
                spec_apply_video(
                    old(self)@.mister,
                    old(self)@.overrides,
                    (VideoResolutionString { resolution, refresh: None }).spec_to_string(),
                    old(self)@.applied_core,
                ),
                old(self)@.overrides,
                corename@,
            ),
    {
        self.merge_video_override(resolution);
        self.merge_core_override(corename);
    }

    /// Merges another configuration into this one: its base section into the
    /// base section, each of its override sections into the section of the
    /// same name, or as a new section where there is none, and what the
    /// sections of cores have set in it into what they have set here.
    pub fn merge(&mut self, other: Config)
        requires
            old(self).wf(),
            other.wf(),
        ensures
            final(self).wf(),
            final(self)@.mister == old(self)@.mister.spec_merge(other@.mister),
            final(self)@.applied_core == old(self)@.applied_core.spec_merge(other@.applied_core),
            final(self)@.overrides == spec_merge_overrides(old(self)@.overrides, other@.overrides),
    {
        let ghost a0 = self@.overrides;
        let ghost b = spec_entries(other.entries@);
        let Config { mister, entries, applied_core } = other;
        self.mister.merge(mister);
        self.applied_core.merge(applied_core);
        let mut i: usize = 0;
        assert(b.take(0) =~= Seq::<(Seq<char>, MisterConfigView)>::empty());
        assert(self@.overrides =~= spec_merge_overrides(a0, spec_map_of(b.take(0))));
        while i < entries.len()
            invariant
                i <= entries@.len(),
                b == spec_entries(entries@),
                spec_unique(b),
                self.wf(),
                self@.mister == old(self)@.mister.spec_merge(mister@),
                self@.applied_core == old(self)@.applied_core.spec_merge(applied_core@),
                self@.overrides == spec_merge_overrides(a0, spec_map_of(b.take(i as int))),
            decreases entries.len() - i,
        {
            let ghost s = spec_entries(self.entries@);
            let ghost k = b[i as int].0;
            let ghost v = b[i as int].1;
            proof {
                assert(b.take(i as int + 1) =~= b.take(i as int).push(b[i as int]));
                lemma_map_of_push(b.take(i as int), b[i as int]);
                lemma_map_of_dom(b.take(i as int), k);
                assert(!spec_map_of(b.take(i as int)).dom().contains(k)) by {
                    if exists|j: int| 0 <= j < b.take(i as int).len() && b.take(i as int)[j].0 == k {
                        let j = choose|j: int|
                            0 <= j < b.take(i as int).len() && b.take(i as int)[j].0 == k;
                        assert(b[j].0 == b[i as int].0);
                    }
                }
            }
            let e = entries[i].duplicate();
            match self.find(e.name.as_str()) {
                Some(j) => {
                    let mut merged = self.entries[j].section.duplicate();
                    merged.merge(e.section);
                    proof {
                        lemma_map_of_update(s, j as int, merged@);
                    }
                    self.entries.set(j, OverrideSection { name: e.name, section: merged });
                    assert(spec_entries(self.entries@) =~= s.update(
                        j as int,
                        (s[j as int].0, merged@),
                    ));
                },
                None => {
                    proof {
                        lemma_map_of_push(s, (k, v));
                        lemma_map_of_dom(s, k);
                    }
                    self.entries.push(e);
                    assert(spec_entries(self.entries@) =~= s.push((k, v)));
                },
            }
            i = i + 1;
            assert(self@.overrides =~= spec_merge_overrides(a0, spec_map_of(b.take(i as int))));
        }
        assert(b.take(entries@.len() as int) =~= b);
    }
}

/// Merging the override sections of configurations is associative: merging
/// those of `c` into the merge of those of `a` and `b` gives what merging the
/// merge of those of `b` and `c` into those of `a` gives.
pub proof fn law_merge_overrides_associative(
    a: Map<Seq<char>, MisterConfigView>,
    b: Map<Seq<char>, MisterConfigView>,
    c: Map<Seq<char>, MisterConfigView>,
)
    ensures
        spec_merge_overrides(spec_merge_overrides(a, b), c) == spec_merge_overrides(
            a,
            spec_merge_overrides(b, c),
        ),
{
    let left = spec_merge_overrides(spec_merge_overrides(a, b), c);
    let right = spec_merge_overrides(a, spec_merge_overrides(b, c));
    assert forall|k: Seq<char>| left.dom().contains(k) implies #[trigger] left[k] == right[k] by {
        if a.dom().contains(k) && b.dom().contains(k) && c.dom().contains(k) {
            crate::config::law_merge_associative(a[k], b[k], c[k]);
        }
    }
    assert(left =~= right);
}

/// A section of a core wins over a section of a resolution in whichever
/// order the two are merged into the base section, as long as no section of
/// a core had been merged before: every optional field ends with the value of
/// the section of the core where that sets it, else with that of the section
/// of the resolution where that sets it, else with that of the base.
pub proof fn law_core_wins_whatever_the_order(
    mister: MisterConfigView,
    overrides: Map<Seq<char>, MisterConfigView>,
    corename: Seq<char>,
    video: Seq<char>,
)
    requires
        overrides.dom().contains(corename),
        overrides.dom().contains(video),
    ensures
        spec_apply(
            spec_apply_video(mister, overrides, video, MisterConfigView::spec_empty()),
            overrides,
            corename,
        ) == mister.spec_merge(overrides[video]).spec_merge(overrides[corename]),
        spec_apply_video(
            spec_apply(mister, overrides, corename),
            overrides,
            video,
            spec_apply(MisterConfigView::spec_empty(), overrides, corename),
        ) == mister.spec_merge(overrides[corename]).spec_merge(
            overrides[video].spec_yield_to(overrides[corename]),
        ),
{
    crate::config::law_merge_empty(overrides[corename]);
    crate::config::law_core_override_wins_in_either_order(
        mister,
        overrides[video],
        overrides[corename],
    );
}

} // verus!
