//! The dashboard layout and its repair.
//!
//! A layout is a list of sections, each a list of gauges. A layout that
//! comes from a file may name a section or a gauge twice, or miss the ones
//! this program is built with. [`normalize`] repairs it: of two items with
//! one id the first stays, and each built-in item that is missing is put at
//! the end. Items with ids that this program does not know stay as they are.

use crate::text::same_text;
use vstd::prelude::*;
use vstd::string::StringExecFns;

verus! {

/// One gauge of a section.
#[derive(Debug, Clone, PartialEq, Eq)]
pub struct GaugeConfig {
    pub id: String,
    pub enabled: bool,
}

/// One section of the dashboard, with its gauges in the order shown.
#[derive(Debug, Clone, PartialEq, Eq)]
pub struct DashboardSection {
    pub id: String,
    pub enabled: bool,
    pub gauges: Vec<GaugeConfig>,
}

/// The layout of the dashboard: its sections in the order shown.
#[derive(Debug, Clone, PartialEq, Eq)]
pub struct DashboardConfig {
    pub sections: Vec<DashboardSection>,
}

/// A gauge as the contracts see it.
pub struct GaugeView {
    pub id: Seq<char>,
    pub enabled: bool,
}

/// A section as the contracts see it.
pub struct SectionView {
    pub id: Seq<char>,
    pub enabled: bool,
    pub gauges: Seq<GaugeView>,
}

impl View for GaugeConfig {
    type V = GaugeView;

    open spec fn view(&self) -> GaugeView {
        GaugeView { id: self.id@, enabled: self.enabled }
    }
}

/// The gauges of a vector, each by its view.
pub open spec fn gauge_views(gauges: Seq<GaugeConfig>) -> Seq<GaugeView> {
    Seq::new(gauges.len(), |i: int| gauges[i]@)
}

impl View for DashboardSection {
    type V = SectionView;

    open spec fn view(&self) -> SectionView {
        SectionView { id: self.id@, enabled: self.enabled, gauges: gauge_views(self.gauges@) }
    }
}

/// The sections of a vector, each by its view.
pub open spec fn section_views(sections: Seq<DashboardSection>) -> Seq<SectionView> {
    Seq::new(sections.len(), |i: int| sections[i]@)
}

impl View for DashboardConfig {
    type V = Seq<SectionView>;

    open spec fn view(&self) -> Seq<SectionView> {
        section_views(self.sections@)
    }
}

/// The id of a gauge.
pub open spec fn gauge_id() -> spec_fn(GaugeView) -> Seq<char> {
    |g: GaugeView| g.id
}

/// The id of a section.
pub open spec fn section_id() -> spec_fn(SectionView) -> Seq<char> {
    |s: SectionView| s.id
}

/// Some item of `items` has the id `id`.
pub open spec fn has_id<T>(items: Seq<T>, id_of: spec_fn(T) -> Seq<char>, id: Seq<char>) -> bool {
    exists|i: int| 0 <= i < items.len() && id_of(#[trigger] items[i]) == id
}

/// No two items of `items` have the same id.
pub open spec fn distinct_ids<T>(items: Seq<T>, id_of: spec_fn(T) -> Seq<char>) -> bool {
    forall|i: int, j: int|
        0 <= i < j < items.len() ==> id_of(#[trigger] items[i]) != id_of(#[trigger] items[j])
}

/// `base`, followed by each item of `more` whose id has not occurred before
/// it, neither in `base` nor earlier in `more`.
pub open spec fn merged<T>(base: Seq<T>, more: Seq<T>, id_of: spec_fn(T) -> Seq<char>) -> Seq<T>
    decreases more.len(),
{
    if more.len() == 0 {
        base
    } else {
        let before = merged(base, more.drop_last(), id_of);
        if has_id(before, id_of, id_of(more.last())) {
            before
        } else {
            before.push(more.last())
        }
    }
}

/// A list repaired: of the items with one id the first stays, and each
/// default whose id is missing follows at the end.
pub open spec fn repaired<T>(items: Seq<T>, defaults: Seq<T>, id_of: spec_fn(T) -> Seq<char>) -> Seq<
    T,
> {
    merged(merged(Seq::empty(), items, id_of), defaults, id_of)
}

/// A gauge as this program is built with it: shown.
pub open spec fn built_in_gauge(id: Seq<char>) -> GaugeView {
    GaugeView { id, enabled: true }
}

/// The gauges that a section is built with; none for a section that this
/// program does not know.
pub open spec fn default_gauges(section: Seq<char>) -> Seq<GaugeView> {
    if section == "particulates"@ {
        seq![built_in_gauge("pm25"@), built_in_gauge("pm10"@), built_in_gauge("pm1"@)]
    } else if section == "gases"@ {
        seq![built_in_gauge("co2"@), built_in_gauge("tvoc"@)]
    } else if section == "environment"@ {
        seq![built_in_gauge("temp"@), built_in_gauge("humidity"@)]
    } else {
        seq![]
    }
}

/// A section as this program is built with it: shown, with its gauges.
pub open spec fn built_in_section(id: Seq<char>) -> SectionView {
    SectionView { id, enabled: true, gauges: default_gauges(id) }
}

/// The sections that this program is built with.
pub open spec fn default_sections() -> Seq<SectionView> {
    seq![
        built_in_section("particulates"@),
        built_in_section("gases"@),
        built_in_section("environment"@),
    ]
}

/// A section with its gauges repaired.
pub open spec fn normalized_section(section: SectionView) -> SectionView {
    SectionView {
        gauges: repaired(section.gauges, default_gauges(section.id), gauge_id()),
        ..section
    }
}

/// A layout repaired: of the sections with one id the first stays, the
/// gauges of each are repaired, and each built-in section that is missing
/// follows at the end.
pub open spec fn normalized(sections: Seq<SectionView>) -> Seq<SectionView> {
    merged(
        merged(Seq::empty(), sections, section_id()).map_values(
            |s: SectionView| normalized_section(s),
        ),
        default_sections(),
        section_id(),
    )
}

/// What merging keeps and adds: `base` stays in front, every item comes
/// from `base` or from `more`, the ids are those of both, and ids that were
/// distinct in `base` are distinct in the result.
pub proof fn lemma_merged<T>(base: Seq<T>, more: Seq<T>, id_of: spec_fn(T) -> Seq<char>)
    ensures
        base.len() <= merged(base, more, id_of).len(),
        merged(base, more, id_of).subrange(0, base.len() as int) == base,
        forall|i: int|
            base.len() <= i < merged(base, more, id_of).len() ==> more.contains(
                #[trigger] merged(base, more, id_of)[i],
            ),
        forall|id: Seq<char>|
            has_id(merged(base, more, id_of), id_of, id) <==> has_id(base, id_of, id) || has_id(
                more,
                id_of,
                id,
            ),
        distinct_ids(base, id_of) ==> distinct_ids(merged(base, more, id_of), id_of),
    decreases more.len(),
{
    let out = merged(base, more, id_of);
    if more.len() > 0 {
        let head = more.drop_last();
        let last = more.last();
        let before = merged(base, head, id_of);
        lemma_merged(base, head, id_of);
        assert forall|i: int| base.len() <= i < out.len() implies more.contains(
            #[trigger] out[i],
        ) by {
            if i < before.len() {
                let k = choose|k: int| 0 <= k < head.len() && head[k] == before[i];
                assert(more[k] == out[i]);
            } else {
                assert(more[more.len() - 1] == out[i]);
            }
        }
        assert forall|id: Seq<char>| has_id(out, id_of, id) <==> has_id(base, id_of, id) || has_id(
            more,
            id_of,
            id,
        ) by {
            if has_id(out, id_of, id) {
                let i = choose|i: int| 0 <= i < out.len() && id_of(#[trigger] out[i]) == id;
                if i < before.len() {
                    assert(before[i] == out[i]);
                    if has_id(head, id_of, id) {
                        let k = choose|k: int| 0 <= k < head.len() && id_of(#[trigger] head[k]) == id;
                        assert(more[k] == head[k]);
                    }
                } else {
                    assert(more[more.len() - 1] == last);
                }
            }
            if has_id(base, id_of, id) {
                let i = choose|i: int| 0 <= i < before.len() && id_of(#[trigger] before[i]) == id;
                assert(out[i] == before[i]);
            }
            if has_id(more, id_of, id) {
                let k = choose|k: int| 0 <= k < more.len() && id_of(#[trigger] more[k]) == id;
                if k < head.len() {
                    assert(head[k] == more[k]);
                    let i = choose|i: int|
                        0 <= i < before.len() && id_of(#[trigger] before[i]) == id;
                    assert(out[i] == before[i]);
                } else if !has_id(before, id_of, id_of(last)) {
                    assert(out[out.len() - 1] == last);
                }
            }
        }
        if distinct_ids(base, id_of) {
            assert forall|i: int, j: int| 0 <= i < j < out.len() implies id_of(#[trigger] out[i])
                != id_of(#[trigger] out[j]) by {
                assert(out[i] == before[i]);
            }
        }
    }
}

/// Merging adds nothing where every id of `more` occurs in `base`.
pub proof fn lemma_merged_known<T>(base: Seq<T>, more: Seq<T>, id_of: spec_fn(T) -> Seq<char>)
    requires
        forall|k: int| 0 <= k < more.len() ==> has_id(base, id_of, id_of(#[trigger] more[k])),
    ensures
        merged(base, more, id_of) == base,
    decreases more.len(),
{
    if more.len() > 0 {
        let head = more.drop_last();
        assert forall|k: int| 0 <= k < head.len() implies has_id(
            base,
            id_of,
            id_of(#[trigger] head[k]),
        ) by {
            assert(head[k] == more[k]);
        }
        lemma_merged_known(base, head, id_of);
        assert(more.last() == more[more.len() - 1]);
    }
}

/// Merging a list with distinct ids into the empty list gives the list.
pub proof fn lemma_merged_distinct<T>(items: Seq<T>, id_of: spec_fn(T) -> Seq<char>)
    requires
        distinct_ids(items, id_of),
    ensures
        merged(Seq::empty(), items, id_of) == items,
    decreases items.len(),
{
    if items.len() > 0 {
        let head = items.drop_last();
        assert forall|i: int, j: int| 0 <= i < j < head.len() implies id_of(#[trigger] head[i])
            != id_of(#[trigger] head[j]) by {
            assert(head[i] == items[i] && head[j] == items[j]);
        }
        lemma_merged_distinct(head, id_of);
        if has_id(head, id_of, id_of(items.last())) {
            let k = choose|k: int|
                0 <= k < head.len() && id_of(#[trigger] head[k]) == id_of(items.last());
            assert(head[k] == items[k] && items.last() == items[items.len() - 1]);
        }
        assert(head.push(items.last()) =~= items);
    } else {
        assert(items =~= Seq::<T>::empty());
    }
}

/// A repaired list has distinct ids and holds every default id, and
/// repairing it again changes nothing.
pub proof fn lemma_repaired<T>(items: Seq<T>, defaults: Seq<T>, id_of: spec_fn(T) -> Seq<char>)
    ensures
        distinct_ids(repaired(items, defaults, id_of), id_of),
        forall|k: int|
            0 <= k < defaults.len() ==> has_id(
                repaired(items, defaults, id_of),
                id_of,
                id_of(#[trigger] defaults[k]),
            ),
        forall|k: int|
            0 <= k < items.len() ==> has_id(
                repaired(items, defaults, id_of),
                id_of,
                id_of(#[trigger] items[k]),
            ),
        repaired(repaired(items, defaults, id_of), defaults, id_of) == repaired(
            items,
            defaults,
            id_of,
        ),
{
    let first = merged(Seq::empty(), items, id_of);
    let out = merged(first, defaults, id_of);
    lemma_merged(Seq::<T>::empty(), items, id_of);
    lemma_merged(first, defaults, id_of);
    assert forall|k: int| 0 <= k < defaults.len() implies has_id(
        out,
        id_of,
        id_of(#[trigger] defaults[k]),
    ) by {
        assert(has_id(defaults, id_of, id_of(defaults[k])));
    }
    assert forall|k: int| 0 <= k < items.len() implies has_id(
        out,
        id_of,
        id_of(#[trigger] items[k]),
    ) by {
        assert(has_id(items, id_of, id_of(items[k])));
    }
    lemma_merged_distinct(out, id_of);
    lemma_merged_known(out, defaults, id_of);
}

/// Views of a vector that grew by one item.
proof fn lemma_gauge_views_push(gauges: Seq<GaugeConfig>, gauge: GaugeConfig)
    ensures
        gauge_views(gauges.push(gauge)) =~= gauge_views(gauges).push(gauge@),
{
}

/// Views of a vector that grew by one item.
proof fn lemma_section_views_push(sections: Seq<DashboardSection>, section: DashboardSection)
    ensures
        section_views(sections.push(section)) =~= section_views(sections).push(section@),
{
}

/// A gauge as this program is built with it.
fn built_in(id: &str) -> (gauge: GaugeConfig)
    ensures
        gauge@ == built_in_gauge(id@),
{
    GaugeConfig { id: String::from_str(id), enabled: true }
}

/// The gauges that a section is built with; none for a section that this
/// program does not know.
pub fn default_gauges_for(section: &str) -> (gauges: Vec<GaugeConfig>)
    ensures
        gauge_views(gauges@) == default_gauges(section@),
{
    let mut gauges: Vec<GaugeConfig> = Vec::new();
    if same_text(section, "particulates") {
        gauges.push(built_in("pm25"));
        gauges.push(built_in("pm10"));
        gauges.push(built_in("pm1"));
    } else if same_text(section, "gases") {
        gauges.push(built_in("co2"));
        gauges.push(built_in("tvoc"));
    } else if same_text(section, "environment") {
        gauges.push(built_in("temp"));
        gauges.push(built_in("humidity"));
    }
    gauges
}

/// A section as this program is built with it.
fn built_in_with_gauges(id: &str) -> (section: DashboardSection)
    ensures
        section@ == built_in_section(id@),
{
    DashboardSection { id: String::from_str(id), enabled: true, gauges: default_gauges_for(id) }
}

/// The sections that this program is built with.
pub fn built_in_sections() -> (sections: Vec<DashboardSection>)
    ensures
        section_views(sections@) == default_sections(),
{
    let mut sections: Vec<DashboardSection> = Vec::new();
    sections.push(built_in_with_gauges("particulates"));
    sections.push(built_in_with_gauges("gases"));
    sections.push(built_in_with_gauges("environment"));
    sections
}

/// Whether a gauge with this id is in the list.
fn has_gauge(gauges: &Vec<GaugeConfig>, id: &String) -> (found: bool)
    ensures
        found == has_id(gauge_views(gauges@), gauge_id(), id@),
{
    let mut i: usize = 0;
    while i < gauges.len()
        invariant
            i <= gauges.len(),
            forall|k: int| 0 <= k < i ==> gauge_views(gauges@)[k].id != id@,
        decreases gauges.len() - i,
    {
        if gauges[i].id == *id {
            assert(gauge_id()(gauge_views(gauges@)[i as int]) == id@);
            return true;
        }
        i += 1;
    }
    false
}

/// Whether a section with this id is in the list.
fn has_section(sections: &Vec<DashboardSection>, id: &String) -> (found: bool)
    ensures
        found == has_id(section_views(sections@), section_id(), id@),
{
    let mut i: usize = 0;
    while i < sections.len()
        invariant
            i <= sections.len(),
            forall|k: int| 0 <= k < i ==> section_views(sections@)[k].id != id@,
        decreases sections.len() - i,
    {
        if sections[i].id == *id {
            assert(section_id()(section_views(sections@)[i as int]) == id@);
            return true;
        }
        i += 1;
    }
    false
}

/// `base`, followed by each gauge of `more` whose id has not occurred before it.
fn merge_gauges(base: Vec<GaugeConfig>, more: Vec<GaugeConfig>) -> (out: Vec<GaugeConfig>)
    ensures
        gauge_views(out@) == merged(gauge_views(base@), gauge_views(more@), gauge_id()),
{
    let mut out = base;
    let mut rest = more;
    let ghost all = gauge_views(more@);
    let ghost mut done: int = 0;
    while rest.len() > 0
        invariant
            0 <= done <= all.len(),
            gauge_views(rest@) == all.skip(done),
            gauge_views(out@) == merged(gauge_views(base@), all.take(done), gauge_id()),
        decreases rest.len(),
    {
        let ghost prev = rest@;
        let gauge = rest.remove(0);
        proof {
            assert(gauge_views(prev).len() == prev.len());
            assert(gauge_views(prev)[0] == prev[0]@);
            assert(gauge@ == all[done]);
            assert forall|k: int| 0 <= k < rest@.len() implies gauge_views(rest@)[k] == all.skip(
                done + 1,
            )[k] by {
                assert(rest@[k] == prev[k + 1]);
                assert(gauge_views(prev)[k + 1] == prev[k + 1]@);
            }
            assert(gauge_views(rest@) =~= all.skip(done + 1));
            assert(all.take(done + 1).drop_last() =~= all.take(done));
            assert(all.take(done + 1).last() == all[done]);
        }
        if !has_gauge(&out, &gauge.id) {
            proof {
                lemma_gauge_views_push(out@, gauge);
            }
            out.push(gauge);
        }
        proof {
            done = done + 1;
        }
    }
    assert(all.take(done) =~= all);
    out
}

/// `base`, followed by each section of `more` whose id has not occurred before it.
fn merge_sections(base: Vec<DashboardSection>, more: Vec<DashboardSection>) -> (out: Vec<
    DashboardSection,
>)
    ensures
        section_views(out@) == merged(section_views(base@), section_views(more@), section_id()),
{
    let mut out = base;
    let mut rest = more;
    let ghost all = section_views(more@);
    let ghost mut done: int = 0;
    while rest.len() > 0
        invariant
            0 <= done <= all.len(),
            section_views(rest@) == all.skip(done),
            section_views(out@) == merged(section_views(base@), all.take(done), section_id()),
        decreases rest.len(),
    {
        let ghost prev = rest@;
        let section = rest.remove(0);
        proof {
            assert(section_views(prev).len() == prev.len());
            assert(section_views(prev)[0] == prev[0]@);
            assert(section@ == all[done]);
            assert forall|k: int| 0 <= k < rest@.len() implies section_views(rest@)[k] == all.skip(
                done + 1,
            )[k] by {
                assert(rest@[k] == prev[k + 1]);
                assert(section_views(prev)[k + 1] == prev[k + 1]@);
            }
            assert(section_views(rest@) =~= all.skip(done + 1));
            assert(all.take(done + 1).drop_last() =~= all.take(done));
            assert(all.take(done + 1).last() == all[done]);
        }
        if !has_section(&out, &section.id) {
            proof {
                lemma_section_views_push(out@, section);
            }
            out.push(section);
        }
        proof {
            done = done + 1;
        }
    }
    assert(all.take(done) =~= all);
    out
}

/// Repairs the gauges of the section `section`.
pub fn normalize_gauges(gauges: Vec<GaugeConfig>, section: &str) -> (out: Vec<GaugeConfig>)
    ensures
        gauge_views(out@) == repaired(gauge_views(gauges@), default_gauges(section@), gauge_id()),
{
    let first = merge_gauges(Vec::new(), gauges);
    proof {
        assert(gauge_views(Seq::<GaugeConfig>::empty()) =~= Seq::<GaugeView>::empty());
    }
    merge_gauges(first, default_gauges_for(section))
}

/// Repairs the gauges of a section.
pub fn normalize_section(section: DashboardSection) -> (out: DashboardSection)
    ensures
        out@ == normalized_section(section@),
{
    let DashboardSection { id, enabled, gauges } = section;
    let gauges = normalize_gauges(gauges, id.as_str());
    DashboardSection { id, enabled, gauges }
}

/// Repairs a layout.
pub fn normalize_sections(sections: Vec<DashboardSection>) -> (out: Vec<DashboardSection>)
    ensures
        section_views(out@) == normalized(section_views(sections@)),
{
    let mut rest = merge_sections(Vec::new(), sections);
    proof {
        assert(section_views(Seq::<DashboardSection>::empty()) =~= Seq::<SectionView>::empty());
    }
    let ghost first = section_views(rest@);
    let ghost mut done: int = 0;
    let mut fixed: Vec<DashboardSection> = Vec::new();
    while rest.len() > 0
        invariant
            0 <= done <= first.len(),
            section_views(rest@) == first.skip(done),
            section_views(fixed@) == first.take(done).map_values(
                |s: SectionView| normalized_section(s),
            ),
        decreases rest.len(),
    {
        let ghost prev = rest@;
        let section = rest.remove(0);
        proof {
            assert(section_views(prev).len() == prev.len());
            assert(section_views(prev)[0] == prev[0]@);
            assert(section@ == first[done]);
            assert forall|k: int| 0 <= k < rest@.len() implies section_views(rest@)[k] == first.skip(
                done + 1,
            )[k] by {
                assert(rest@[k] == prev[k + 1]);
                assert(section_views(prev)[k + 1] == prev[k + 1]@);
            }
            assert(section_views(rest@) =~= first.skip(done + 1));
        }
        let repaired_section = normalize_section(section);
        proof {
            lemma_section_views_push(fixed@, repaired_section);
            assert(first.take(done + 1).map_values(|s: SectionView| normalized_section(s))
                =~= first.take(done).map_values(|s: SectionView| normalized_section(s)).push(
                normalized_section(first[done]),
            ));
            done = done + 1;
        }
        fixed.push(repaired_section);
    }
    assert(first.take(done) =~= first);
    merge_sections(fixed, built_in_sections())
}

impl DashboardConfig {
    /// Repairs the layout: of the sections with one id the first stays, and
    /// so of the gauges of each section; each built-in section and gauge
    /// that is missing follows at the end; sections and gauges that this
    /// program does not know stay as they are. Repairing twice changes
    /// nothing more.
    pub fn normalize(self) -> (out: DashboardConfig)
        ensures
            out@ == normalized(self@),
            normalized(out@) == out@,
    {
        proof {
            lemma_normalize_idempotent(self@);
        }
        DashboardConfig { sections: normalize_sections(self.sections) }
    }
}

impl Default for DashboardConfig {
    /// The layout that this program is built with.
    fn default() -> (layout: DashboardConfig)
        ensures
            layout@ == default_sections(),
    {
        DashboardConfig { sections: built_in_sections() }
    }
}

/// The built-in ids differ from each other.
pub proof fn lemma_built_in_ids_distinct(section: Seq<char>)
    ensures
        distinct_ids(default_gauges(section), gauge_id()),
        distinct_ids(default_sections(), section_id()),
{
    reveal_strlit("particulates");
    reveal_strlit("gases");
    reveal_strlit("environment");
    reveal_strlit("pm25");
    reveal_strlit("pm10");
    reveal_strlit("pm1");
    reveal_strlit("co2");
    reveal_strlit("tvoc");
    reveal_strlit("temp");
    reveal_strlit("humidity");
    assert("particulates"@.len() == 12 && "gases"@.len() == 5 && "environment"@.len() == 11);
    assert("pm25"@.len() == 4 && "pm10"@.len() == 4 && "pm1"@.len() == 3);
    assert("co2"@.len() == 3 && "tvoc"@.len() == 4);
    assert("temp"@.len() == 4 && "humidity"@.len() == 8);
    assert("pm25"@[2] != "pm10"@[2]);
    let gauges = default_gauges(section);
    assert forall|i: int, j: int| 0 <= i < j < gauges.len() implies gauge_id()(
        #[trigger] gauges[i],
    ) != gauge_id()(#[trigger] gauges[j]) by {
        if section == "particulates"@ {
            assert(gauges[0].id == "pm25"@ && gauges[1].id == "pm10"@ && gauges[2].id == "pm1"@);
        } else if section == "gases"@ {
            assert(gauges[0].id == "co2"@ && gauges[1].id == "tvoc"@);
        } else if section == "environment"@ {
            assert(gauges[0].id == "temp"@ && gauges[1].id == "humidity"@);
        }
    }
    let sections = default_sections();
    assert forall|i: int, j: int| 0 <= i < j < sections.len() implies section_id()(
        #[trigger] sections[i],
    ) != section_id()(#[trigger] sections[j]) by {
        assert(sections[0].id == "particulates"@ && sections[1].id == "gases"@ && sections[2].id
            == "environment"@);
    }
}

/// Repairing a section twice is repairing it once, and a built-in section
/// needs no repair.
pub proof fn lemma_section_settled(section: SectionView)
    ensures
        normalized_section(normalized_section(section)) == normalized_section(section),
        normalized_section(built_in_section(section.id)) == built_in_section(section.id),
        distinct_ids(normalized_section(section).gauges, gauge_id()),
{
    let defaults = default_gauges(section.id);
    lemma_repaired(section.gauges, defaults, gauge_id());
    lemma_built_in_ids_distinct(section.id);
    lemma_merged_distinct(defaults, gauge_id());
    assert forall|k: int| 0 <= k < defaults.len() implies has_id(
        defaults,
        gauge_id(),
        gauge_id()(#[trigger] defaults[k]),
    ) by {}
    lemma_merged_known(defaults, defaults, gauge_id());
}

/// What holds of every repaired layout: no id occurs twice among its
/// sections, nor among the gauges of one section; every built-in section is
/// there; and every section of the input is still there.
pub proof fn lemma_normalized_invariant(sections: Seq<SectionView>)
    ensures
        distinct_ids(normalized(sections), section_id()),
        forall|i: int|
            0 <= i < normalized(sections).len() ==> distinct_ids(
                (#[trigger] normalized(sections)[i]).gauges,
                gauge_id(),
            ),
        forall|k: int|
            0 <= k < default_sections().len() ==> has_id(
                normalized(sections),
                section_id(),
                (#[trigger] default_sections()[k]).id,
            ),
        forall|k: int|
            0 <= k < sections.len() ==> has_id(
                normalized(sections),
                section_id(),
                (#[trigger] sections[k]).id,
            ),
        forall|i: int|
            0 <= i < normalized(sections).len() ==> normalized_section(
                #[trigger] normalized(sections)[i],
            ) == normalized(sections)[i],
{
    let first = merged(Seq::empty(), sections, section_id());
    let fixed = first.map_values(|s: SectionView| normalized_section(s));
    let out = normalized(sections);
    lemma_merged(Seq::<SectionView>::empty(), sections, section_id());
    assert(distinct_ids(Seq::<SectionView>::empty(), section_id()));
    assert(distinct_ids(fixed, section_id())) by {
        assert forall|i: int, j: int| 0 <= i < j < fixed.len() implies section_id()(
            #[trigger] fixed[i],
        ) != section_id()(#[trigger] fixed[j]) by {
            assert(section_id()(first[i]) != section_id()(first[j]));
        }
    }
    lemma_merged(fixed, default_sections(), section_id());
    assert forall|i: int| 0 <= i < out.len() implies normalized_section(#[trigger] out[i])
        == out[i] && distinct_ids(out[i].gauges, gauge_id()) by {
        if i < fixed.len() {
            assert(out.subrange(0, fixed.len() as int)[i] == out[i]);
            assert(out[i] == normalized_section(first[i]));
            lemma_section_settled(first[i]);
        } else {
            assert(default_sections().contains(out[i]));
            let k = choose|k: int| 0 <= k < default_sections().len() && default_sections()[k] == out[i];
            assert(out[i] == built_in_section(out[i].id));
            lemma_section_settled(out[i]);
        }
    }
    assert forall|k: int| 0 <= k < default_sections().len() implies has_id(
        out,
        section_id(),
        (#[trigger] default_sections()[k]).id,
    ) by {
        assert(has_id(default_sections(), section_id(), section_id()(default_sections()[k])));
    }
    assert forall|k: int| 0 <= k < sections.len() implies has_id(
        out,
        section_id(),
        (#[trigger] sections[k]).id,
    ) by {
        assert(has_id(sections, section_id(), section_id()(sections[k])));
        let i = choose|i: int|
            0 <= i < first.len() && section_id()(#[trigger] first[i]) == sections[k].id;
        assert(section_id()(fixed[i]) == sections[k].id);
    }
}

/// Repairing a layout twice is repairing it once.
pub proof fn lemma_normalize_idempotent(sections: Seq<SectionView>)
    ensures
        normalized(normalized(sections)) == normalized(sections),
{
    let out = normalized(sections);
    lemma_normalized_invariant(sections);
    lemma_merged_distinct(out, section_id());
    let again = merged(Seq::empty(), out, section_id()).map_values(
        |s: SectionView| normalized_section(s),
    );
    assert(again =~= out);
    assert forall|k: int| 0 <= k < default_sections().len() implies has_id(
        out,
        section_id(),
        section_id()(#[trigger] default_sections()[k]),
    ) by {
        assert(has_id(out, section_id(), default_sections()[k].id));
    }
    lemma_merged_known(out, default_sections(), section_id());
}

/// An empty layout is repaired to the built-in one.
pub proof fn lemma_normalized_empty()
    ensures
        normalized(Seq::empty()) == default_sections(),
{
    let none = Seq::<SectionView>::empty();
    assert(merged(none, none, section_id()).map_values(|s: SectionView| normalized_section(s))
        =~= none);
    lemma_built_in_ids_distinct(Seq::empty());
    lemma_merged_distinct(default_sections(), section_id());
}

} // verus!
