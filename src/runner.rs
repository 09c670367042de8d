use crate::filter::{keeps, kept, lemma_kept_concat, lemma_kept_selected, name_contains};
use crate::registry::{Category, ForgeConfig, Format, Options, TestInfo, Version};
use crate::summary::Line;
use vstd::prelude::*;

verus! {

/// A selected test: its category, its position in that category's list, and its name.
#[derive(Debug, PartialEq, Eq)]
pub struct PlannedTest {
    pub category: Category,
    pub index: usize,
    pub name: String,
}

/// The tests of one category's list `s` that survive the filter, as planned runs.
pub open spec fn planned(o: Options, c: Category, s: Seq<TestInfo>) -> Seq<PlannedTest>
    decreases s.len(),
{
    if s.len() == 0 {
        Seq::empty()
    } else {
        let rest = planned(o, c, s.drop_last());
        if keeps(o, s.last()) {
            rest.push(PlannedTest { category: c, index: (s.len() - 1) as usize, name: s.last().name })
        } else {
            rest
        }
    }
}

/// A plan lists the same tests, in the same order, as the filter keeps.
pub proof fn lemma_planned_matches_kept(o: Options, c: Category, s: Seq<TestInfo>)
    requires
        s.len() <= usize::MAX,
    ensures
        planned(o, c, s).len() == kept(o, s).len(),
        forall|i: int|
            0 <= i < planned(o, c, s).len() ==> {
                let p = #[trigger] planned(o, c, s)[i];
                &&& p.category == c
                &&& p.index < s.len()
                &&& s[p.index as int] == kept(o, s)[i]
                &&& p.name == kept(o, s)[i].name
            },
    decreases s.len(),
{
    if s.len() > 0 {
        let init = s.drop_last();
        lemma_planned_matches_kept(o, c, init);
        let pr = planned(o, c, init);
        let kr = kept(o, init);
        assert forall|i: int| 0 <= i < planned(o, c, s).len() implies {
            let p = #[trigger] planned(o, c, s)[i];
            &&& p.category == c
            &&& p.index < s.len()
            &&& s[p.index as int] == kept(o, s)[i]
            &&& p.name == kept(o, s)[i].name
        } by {
            if i < pr.len() {
                assert(planned(o, c, s)[i] == pr[i]);
                assert(kept(o, s)[i] == kr[i]);
                assert(s[pr[i].index as int] == init[pr[i].index as int]);
            } else {
                assert(s[s.len() - 1] == s.last());
            }
        }
    }
}

/// The listing: one line per selected test, then, in the pretty format, a blank line
/// and the number of selected tests.
pub open spec fn listing(o: Options, all: Seq<TestInfo>) -> Seq<Line> {
    let names = kept(o, all).map_values(|t: TestInfo| Line::Listed(t.name));
    if o.format == Format::Pretty {
        names + seq![Line::Blank, Line::TestCount(kept(o, all).len() as usize)]
    } else {
        names
    }
}

/// Listing reads nothing but the options and the registry: forges that agree on
/// both list the same lines, and those lines name each selected test once, in
/// execution order.
pub proof fn lemma_listing_repeatable(f: Forge, g: Forge)
    requires
        f.options == g.options,
        f.tests == g.tests,
    ensures
        listing(f.options, f.tests.all_view()) == listing(g.options, g.tests.all_view()),
        forall|i: int|
            0 <= i < kept(f.options, f.tests.all_view()).len() ==> #[trigger] listing(
                f.options,
                f.tests.all_view(),
            )[i] == Line::Listed(kept(f.options, f.tests.all_view())[i].name),
{
}

/// `i` is the first position of a version of least rank.
pub open spec fn is_oldest_at(vs: Seq<Version>, i: int) -> bool {
    &&& 0 <= i < vs.len()
    &&& forall|j: int| 0 <= j < vs.len() ==> vs[i].rank <= #[trigger] vs[j].rank
    &&& forall|j: int| 0 <= j < i ==> vs[i].rank < #[trigger] vs[j].rank
}

/// `i` is the last position of a version of greatest rank.
pub open spec fn is_newest_at(vs: Seq<Version>, i: int) -> bool {
    &&& 0 <= i < vs.len()
    &&& forall|j: int| 0 <= j < vs.len() ==> #[trigger] vs[j].rank <= vs[i].rank
    &&& forall|j: int| i < j < vs.len() ==> #[trigger] vs[j].rank < vs[i].rank
}

/// Position of the oldest version: the first of least rank.
fn oldest_index(vs: &Vec<Version>) -> (r: usize)
    requires
        vs@.len() > 0,
    ensures
        is_oldest_at(vs@, r as int),
{
    let mut best: usize = 0;
    let mut i: usize = 1;
    while i < vs.len()
        invariant
            0 <= best < i <= vs@.len(),
            forall|j: int| 0 <= j < i ==> vs@[best as int].rank <= #[trigger] vs@[j].rank,
            forall|j: int| 0 <= j < best ==> vs@[best as int].rank < #[trigger] vs@[j].rank,
        decreases vs@.len() - i,
    {
        if vs[i].rank < vs[best].rank {
            best = i;
        }
        i += 1;
    }
    best
}

/// Position of the newest version: the last of greatest rank.
fn newest_index(vs: &Vec<Version>) -> (r: usize)
    requires
        vs@.len() > 0,
    ensures
        is_newest_at(vs@, r as int),
{
    let mut best: usize = 0;
    let mut i: usize = 1;
    while i < vs.len()
        invariant
            0 <= best < i <= vs@.len(),
            forall|j: int| 0 <= j < i ==> #[trigger] vs@[j].rank <= vs@[best as int].rank,
            forall|j: int| best < j < i ==> #[trigger] vs@[j].rank < vs@[best as int].rank,
        decreases vs@.len() - i,
    {
        if vs[i].rank >= vs[best].rank {
            best = i;
        }
        i += 1;
    }
    best
}

/// The orchestrator: the options of a run and the registry it runs.
pub struct Forge {
    pub options: Options,
    pub tests: ForgeConfig,
}

impl Forge {
    /// The selected tests, as planned runs in execution order: Aptos, then Admin, then Network.
    pub open spec fn plan_view(&self) -> Seq<PlannedTest> {
        planned(self.options, Category::Aptos, self.tests.aptos_tests@) + planned(
            self.options,
            Category::Admin,
            self.tests.admin_tests@,
        ) + planned(self.options, Category::Network, self.tests.network_tests@)
    }

    /// The selected tests, in execution order.
    pub open spec fn selected_view(&self) -> Seq<TestInfo> {
        kept(self.options, self.tests.all_view())
    }

    pub fn new(options: Options, tests: ForgeConfig) -> (r: Forge)
        ensures
            r.options == options,
            r.tests == tests,
    {
        Forge { options, tests }
    }

    /// Whether the filter keeps `t`.
    pub fn selects(&self, t: &TestInfo) -> (r: bool)
        ensures
            r == keeps(self.options, *t),
    {
        let by_ignored = if self.options.include_ignored {
            true
        } else if self.options.ignored {
            t.ignored
        } else {
            !t.ignored
        };
        let by_name = match &self.options.filter {
            None => true,
            Some(f) => if self.options.filter_exact {
                t.name == *f
            } else {
                name_contains(t.name.as_str(), f.as_str())
            },
        };
        by_ignored && by_name
    }

    /// The tests of `tests` that the filter keeps, in their order; it has no side effect.
    pub fn filter_tests(&self, tests: &Vec<TestInfo>) -> (r: Vec<TestInfo>)
        ensures
            r@ == kept(self.options, tests@),
    {
        let mut r: Vec<TestInfo> = Vec::new();
        let mut i: usize = 0;
        while i < tests.len()
            invariant
                i <= tests@.len(),
                r@ == kept(self.options, tests@.subrange(0, i as int)),
            decreases tests@.len() - i,
        {
            let t = &tests[i];
            let ghost pre = tests@.subrange(0, i as int);
            assert(tests@.subrange(0, i + 1).drop_last() =~= pre);
            if self.selects(t) {
                r.push(t.copy());
            }
            i += 1;
        }
        assert(tests@.subrange(0, i as int) =~= tests@);
        r
    }

    /// Appends to `out` the planned runs of the tests of category `c` that the filter keeps.
    fn plan_category(&self, c: Category, tests: &Vec<TestInfo>, out: &mut Vec<PlannedTest>)
        ensures
            final(out)@ == old(out)@ + planned(self.options, c, tests@),
    {
        let ghost start = out@;
        let mut i: usize = 0;
        while i < tests.len()
            invariant
                i <= tests@.len(),
                out@ == start + planned(self.options, c, tests@.subrange(0, i as int)),
            decreases tests@.len() - i,
        {
            let ghost pre = tests@.subrange(0, i as int);
            assert(tests@.subrange(0, i + 1).drop_last() =~= pre);
            if self.selects(&tests[i]) {
                out.push(PlannedTest { category: c, index: i, name: tests[i].name.clone() });
                assert(out@ =~= start + planned(self.options, c, tests@.subrange(0, i + 1)));
            }
            i += 1;
        }
        assert(tests@.subrange(0, i as int) =~= tests@);
    }

    /// The selected tests as planned runs, in execution order.
    pub fn plan(&self) -> (r: Vec<PlannedTest>)
        ensures
            r@ == self.plan_view(),
    {
        let mut r: Vec<PlannedTest> = Vec::new();
        self.plan_category(Category::Aptos, &self.tests.aptos_tests, &mut r);
        self.plan_category(Category::Admin, &self.tests.admin_tests, &mut r);
        self.plan_category(Category::Network, &self.tests.network_tests, &mut r);
        assert(r@ =~= self.plan_view());
        r
    }

    /// The plan holds the selected tests, one planned run each, in the same order.
    pub proof fn lemma_plan_is_selection(&self)
        requires
            self.tests.all_view().len() <= usize::MAX,
        ensures
            self.plan_view().len() == self.selected_view().len(),
            self.selected_view().len() <= self.tests.all_view().len(),
            forall|i: int|
                0 <= i < self.plan_view().len() ==> (#[trigger] self.plan_view()[i]).name
                    == self.selected_view()[i].name,
    {
        let o = self.options;
        let (a, d, n) = (self.tests.aptos_tests@, self.tests.admin_tests@, self.tests.network_tests@);
        lemma_planned_matches_kept(o, Category::Aptos, a);
        lemma_planned_matches_kept(o, Category::Admin, d);
        lemma_planned_matches_kept(o, Category::Network, n);
        lemma_kept_concat(o, a, d);
        lemma_kept_concat(o, a + d, n);
        lemma_kept_selected(o, self.tests.all_view());
        let pa = planned(o, Category::Aptos, a);
        let pd = planned(o, Category::Admin, d);
        let pn = planned(o, Category::Network, n);
        assert forall|i: int| 0 <= i < self.plan_view().len() implies (
        #[trigger] self.plan_view()[i]).name == self.selected_view()[i].name by {
            if i < pa.len() {
                assert(self.plan_view()[i] == pa[i]);
            } else if i < pa.len() + pd.len() {
                assert(self.plan_view()[i] == pd[i - pa.len()]);
            } else {
                assert(self.plan_view()[i] == pn[i - pa.len() - pd.len()]);
            }
        }
    }

    /// The listing of the selected tests. It reads the registry alone: listing
    /// provisions nothing.
    pub fn list(&self) -> (r: Vec<Line>)
        ensures
            r@ == listing(self.options, self.tests.all_view()),
    {
        let all = self.tests.all_tests();
        let selected = self.filter_tests(&all);
        let mut r: Vec<Line> = Vec::new();
        let mut i: usize = 0;
        while i < selected.len()
            invariant
                i <= selected@.len(),
                selected@ == kept(self.options, self.tests.all_view()),
                r@ == selected@.subrange(0, i as int).map_values(|t: TestInfo| Line::Listed(t.name)),
            decreases selected@.len() - i,
        {
            r.push(Line::Listed(selected[i].name.clone()));
            i += 1;
            assert(selected@.subrange(0, i as int).map_values(|t: TestInfo| Line::Listed(t.name))
                =~= selected@.subrange(0, i - 1).map_values(|t: TestInfo| Line::Listed(t.name)).push(
                Line::Listed(selected@[i - 1].name),
            ));
        }
        assert(selected@.subrange(0, i as int) =~= selected@);
        if self.options.format == Format::Pretty {
            r.push(Line::Blank);
            r.push(Line::TestCount(selected.len()));
        }
        assert(r@ =~= listing(self.options, self.tests.all_view()));
        r
    }

    /// The version a swarm starts on, out of the offered `versions`: the oldest
    /// (first of least rank) or the newest (last of greatest rank), as the registry
    /// says; `None` when no version is offered.
    pub fn initial_version(&self, versions: &Vec<Version>) -> (r: Option<Version>)
        ensures
            r is None <==> versions@.len() == 0,
            r is Some ==> exists|i: int|
                {
                    &&& r == Some(versions@[i])
                    &&& match self.tests.initial_version {
                        crate::registry::InitialVersion::Oldest => is_oldest_at(versions@, i),
                        crate::registry::InitialVersion::Newest => is_newest_at(versions@, i),
                    }
                },
    {
        if versions.len() == 0 {
            return None;
        }
        let i = match self.tests.initial_version {
            crate::registry::InitialVersion::Oldest => oldest_index(versions),
            crate::registry::InitialVersion::Newest => newest_index(versions),
        };
        Some(versions[i].copy())
    }

    /// The version genesis is built with: the newest offered (last of greatest rank);
    /// `None` when no version is offered.
    pub fn genesis_version(&self, versions: &Vec<Version>) -> (r: Option<Version>)
        ensures
            r is None <==> versions@.len() == 0,
            r is Some ==> exists|i: int| r == Some(versions@[i]) && is_newest_at(versions@, i),
    {
        if versions.len() == 0 {
            return None;
        }
        let i = newest_index(versions);
        Some(versions[i].copy())
    }
}

} // verus!
