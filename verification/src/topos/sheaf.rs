//! The MMU as a sheaf: each page-table level contributes a section, the
//! virtual-to-physical translations registered for it, and the sections glue
//! into one translation exactly when no virtual address is given two
//! different physical addresses.
use vstd::prelude::*;
use crate::KernelResult;
use crate::dffdf::{FailureKind, FailureView};

verus! {

/// A section of the sheaf: the data registered over the range `domain`.
pub struct SheafSection<T> {
    pub domain: PageRange,
    pub data: Vec<T>,
    pub version: u64,
}

/// A range of virtual addresses at one page-table level.
#[derive(Clone, Copy, PartialEq, Eq, Hash, Debug, Structural)]
pub struct PageRange {
    pub start: BrandedVAddr,
    pub end: BrandedVAddr,
    pub level: PageTableLevel,
}

/// A virtual address.
#[derive(Clone, Copy, PartialEq, Eq, Hash, Debug, Structural)]
pub struct BrandedVAddr(pub u64);

/// The levels of a 4-level page table.
#[derive(Clone, Copy, PartialEq, Eq, Hash, Debug, Structural)]
pub enum PageTableLevel {
    L1,
    L2,
    L3,
    L4,
}

/// The number of a page-table level (1 to 4).
pub open spec fn level_number(l: PageTableLevel) -> u32 {
    match l {
        PageTableLevel::L1 => 1,
        PageTableLevel::L2 => 2,
        PageTableLevel::L3 => 3,
        PageTableLevel::L4 => 4,
    }
}

fn level_value(l: PageTableLevel) -> (r: u32)
    ensures r == level_number(l),
{
    match l {
        PageTableLevel::L1 => 1,
        PageTableLevel::L2 => 2,
        PageTableLevel::L3 => 3,
        PageTableLevel::L4 => 4,
    }
}

/// The Čech cohomology of the sheaf in a degree.
pub struct CechCohomology {
    pub degree: usize,
    pub cocycle: bool,
    pub obstruction: Option<Vec<PageOverlap>>,
}

/// The greatest start of three ranges.
pub open spec fn overlap_start(a: PageRange, b: PageRange, c: PageRange) -> u64 {
    let m = if a.start.0 > b.start.0 { a.start.0 } else { b.start.0 };
    if m > c.start.0 { m } else { c.start.0 }
}

/// The least end of three ranges.
pub open spec fn overlap_end(a: PageRange, b: PageRange, c: PageRange) -> u64 {
    let m = if a.end.0 < b.end.0 { a.end.0 } else { b.end.0 };
    if m < c.end.0 { m } else { c.end.0 }
}

/// A range where the sections of several levels overlap.
#[derive(Clone)]
pub struct PageOverlap {
    pub levels: Vec<PageTableLevel>,
    pub virtual_range: PageRange,
    pub physical_mappings: Vec<BrandedPAddr>,
}

/// A physical address.
#[derive(Clone, Copy, PartialEq, Eq, Hash, Debug, Structural)]
pub struct BrandedPAddr(pub u64);

/// One registered translation: a virtual address and its physical address.
pub type PageMapping = (BrandedVAddr, BrandedPAddr);

/// The sections of the MMU, one per registered range, each holding the
/// translations registered for it, in order; no range is registered twice.
pub struct MmuSheaf {
    pub sections: Vec<SheafSection<PageMapping>>,
}

/// The virtual address of entry `k` of a section.
pub open spec fn entry_va(sec: SheafSection<PageMapping>, k: int) -> u64 {
    sec.data@[k].0.0
}

/// Adds the mapping `va -> pa` found at `level` to a partial gluing: a
/// different address already mapped for `va` is a contradiction.
pub open spec fn glue_step(acc: Result<Map<u64, u64>, FailureView>, va: u64, pa: u64, level: u32) -> Result<Map<u64, u64>, FailureView> {
    match acc {
        Err(e) => Err(e),
        Ok(m) => if m.contains_key(va) && m[va] != pa {
            Err(FailureView::SheafGluingContradiction { virtual_addr: va, expected: m[va], found: pa, level })
        } else {
            Ok(m.insert(va, pa))
        },
    }
}

/// Glues the first `k` entries of a section onto a partial gluing.
pub open spec fn glue_data(acc: Result<Map<u64, u64>, FailureView>, sec: SheafSection<PageMapping>, k: int) -> Result<Map<u64, u64>, FailureView>
    decreases k,
{
    if k <= 0 {
        acc
    } else {
        glue_step(glue_data(acc, sec, k - 1), entry_va(sec, k - 1), sec.data@[k - 1].1.0, level_number(sec.domain.level))
    }
}

/// Glues the first `n` sections, in order, starting from the empty mapping.
pub open spec fn glue_sections(secs: Seq<SheafSection<PageMapping>>, n: int) -> Result<Map<u64, u64>, FailureView>
    decreases n,
{
    if n <= 0 {
        Ok(Map::empty())
    } else {
        glue_data(glue_sections(secs, n - 1), secs[n - 1], secs[n - 1].data@.len() as int)
    }
}

/// The vector of pairs `v` lists the mapping `m`, each virtual address once.
pub open spec fn represents(v: Seq<(BrandedVAddr, BrandedPAddr)>, m: Map<u64, u64>) -> bool {
    &&& forall|j: int| 0 <= j < v.len() ==> m.contains_key((#[trigger] v[j]).0.0) && m[v[j].0.0] == v[j].1.0
    &&& forall|key: u64| m.contains_key(key) ==> exists|j: int| 0 <= j < v.len() && (#[trigger] v[j]).0.0 == key
    &&& forall|i: int, j: int| 0 <= i < v.len() && 0 <= j < v.len() && i != j ==> (#[trigger] v[i]).0 != (#[trigger] v[j]).0
}

/// Entry `k` of section `s` exists.
pub open spec fn is_entry(secs: Seq<SheafSection<PageMapping>>, s: int, k: int) -> bool {
    0 <= s < secs.len() && 0 <= k < secs[s].data@.len()
}

/// The physical address of entry `k` of section `s`.
pub open spec fn entry_pa(secs: Seq<SheafSection<PageMapping>>, s: int, k: int) -> u64 {
    secs[s].data@[k].1.0
}

/// Entry `(s, k)` comes before position `(n, kk)`: in an earlier section, or
/// earlier in section `n`.
pub open spec fn entry_before(secs: Seq<SheafSection<PageMapping>>, s: int, k: int, n: int, kk: int) -> bool {
    is_entry(secs, s, k) && (s < n || (s == n && k < kk))
}

/// All entries before `(n, kk)` that map the same virtual address map it to
/// the same physical address.
pub open spec fn agree_before(secs: Seq<SheafSection<PageMapping>>, n: int, kk: int) -> bool {
    forall|s1: int, k1: int, s2: int, k2: int|
        #![trigger entry_before(secs, s1, k1, n, kk), entry_before(secs, s2, k2, n, kk)]
        entry_before(secs, s1, k1, n, kk) && entry_before(secs, s2, k2, n, kk)
            && entry_va(secs[s1], k1) == entry_va(secs[s2], k2)
        ==> entry_pa(secs, s1, k1) == entry_pa(secs, s2, k2)
}

/// The mapping `m` is exactly the union of the entries before `(n, kk)`.
pub open spec fn covers_before(secs: Seq<SheafSection<PageMapping>>, n: int, kk: int, m: Map<u64, u64>) -> bool {
    &&& forall|s: int, k: int| #[trigger] entry_before(secs, s, k, n, kk)
        ==> m.contains_key(entry_va(secs[s], k)) && m[entry_va(secs[s], k)] == entry_pa(secs, s, k)
    &&& forall|key: u64| m.contains_key(key) ==> exists|s: int, k: int|
        #[trigger] entry_before(secs, s, k, n, kk) && entry_va(secs[s], k) == key
}

proof fn lemma_glue_prefix(secs: Seq<SheafSection<PageMapping>>, n: int, kk: int)
    requires
        0 <= n < secs.len(),
        0 <= kk <= secs[n].data@.len(),
    ensures
        glue_data(glue_sections(secs, n), secs[n], kk) is Ok <==> agree_before(secs, n, kk),
        glue_data(glue_sections(secs, n), secs[n], kk) matches Ok(m) ==> covers_before(secs, n, kk, m),
    decreases n, kk,
{
    let acc = glue_sections(secs, n);
    if kk == 0 {
        if n == 0 {
            assert forall|key: u64| #[trigger] Map::<u64, u64>::empty().contains_key(key) implies
                exists|s: int, k: int| #[trigger] entry_before(secs, s, k, n, kk) && entry_va(secs[s], k) == key by {}
        } else {
            let prev = n - 1;
            lemma_glue_prefix(secs, prev, secs[prev].data@.len() as int);
            let len_prev = secs[prev].data@.len() as int;
            assert forall|s: int, k: int| entry_before(secs, s, k, n, 0) <==> entry_before(secs, s, k, prev, len_prev) by {}
            assert(agree_before(secs, n, 0) <==> agree_before(secs, prev, len_prev));
            if let Ok(m) = acc {
                assert forall|key: u64| m.contains_key(key) implies exists|s: int, k: int|
                    #[trigger] entry_before(secs, s, k, n, kk) && entry_va(secs[s], k) == key by {
                    let (s, k) = choose|s: int, k: int| #[trigger] entry_before(secs, s, k, prev, len_prev) && entry_va(secs[s], k) == key;
                    assert(entry_before(secs, s, k, n, kk));
                }
            }
        }
    } else {
        lemma_glue_prefix(secs, n, kk - 1);
        let before = glue_data(acc, secs[n], kk - 1);
        let va = entry_va(secs[n], kk - 1);
        let pa = entry_pa(secs, n, kk - 1);
        assert(level_number(secs[n].domain.level) == level_number(secs[n].domain.level));
        assert(entry_before(secs, n, kk - 1, n, kk));
        match before {
            Err(e) => {
                assert(!agree_before(secs, n, kk - 1));
                let (s1, k1, s2, k2) = choose|s1: int, k1: int, s2: int, k2: int|
                    #![trigger entry_before(secs, s1, k1, n, kk - 1), entry_before(secs, s2, k2, n, kk - 1)]
                    entry_before(secs, s1, k1, n, kk - 1) && entry_before(secs, s2, k2, n, kk - 1)
                    && entry_va(secs[s1], k1) == entry_va(secs[s2], k2)
                    && entry_pa(secs, s1, k1) != entry_pa(secs, s2, k2);
                assert(entry_before(secs, s1, k1, n, kk) && entry_before(secs, s2, k2, n, kk));
            },
            Ok(m) => {
                if m.contains_key(va) && m[va] != pa {
                    let (s, k) = choose|s: int, k: int| #[trigger] entry_before(secs, s, k, n, kk - 1) && entry_va(secs[s], k) == va;
                    assert(entry_before(secs, s, k, n, kk));
                    assert(entry_pa(secs, s, k) == m[va]);
                } else {
                    let m2 = m.insert(va, pa);
                    assert forall|s1: int, k1: int, s2: int, k2: int|
                        #![trigger entry_before(secs, s1, k1, n, kk), entry_before(secs, s2, k2, n, kk)]
                        entry_before(secs, s1, k1, n, kk) && entry_before(secs, s2, k2, n, kk)
                            && entry_va(secs[s1], k1) == entry_va(secs[s2], k2)
                        implies entry_pa(secs, s1, k1) == entry_pa(secs, s2, k2) by {
                        let new1 = s1 == n && k1 == kk - 1;
                        let new2 = s2 == n && k2 == kk - 1;
                        if !new1 { assert(entry_before(secs, s1, k1, n, kk - 1)); }
                        if !new2 { assert(entry_before(secs, s2, k2, n, kk - 1)); }
                    }
                    assert forall|s: int, k: int| #[trigger] entry_before(secs, s, k, n, kk)
                        implies m2.contains_key(entry_va(secs[s], k)) && m2[entry_va(secs[s], k)] == entry_pa(secs, s, k) by {
                        if !(s == n && k == kk - 1) {
                            assert(entry_before(secs, s, k, n, kk - 1));
                        }
                    }
                    assert forall|key: u64| m2.contains_key(key) implies exists|s: int, k: int|
                        #[trigger] entry_before(secs, s, k, n, kk) && entry_va(secs[s], k) == key by {
                        if key == va {
                            assert(entry_before(secs, n, kk - 1, n, kk));
                        } else {
                            let (s, k) = choose|s: int, k: int| #[trigger] entry_before(secs, s, k, n, kk - 1) && entry_va(secs[s], k) == key;
                            assert(entry_before(secs, s, k, n, kk));
                        }
                    }
                }
            },
        }
    }
}

/// All entries of all sections that map the same virtual address map it to
/// the same physical address.
pub open spec fn sections_agree(secs: Seq<SheafSection<PageMapping>>) -> bool {
    forall|s1: int, k1: int, s2: int, k2: int|
        #![trigger is_entry(secs, s1, k1), is_entry(secs, s2, k2)]
        is_entry(secs, s1, k1) && is_entry(secs, s2, k2) && entry_va(secs[s1], k1) == entry_va(secs[s2], k2)
        ==> entry_pa(secs, s1, k1) == entry_pa(secs, s2, k2)
}

/// The sheaf condition: the sections glue into one translation exactly when
/// they agree wherever they overlap, and the glued translation maps every
/// virtual address of every section to that section's physical address, and
/// nothing else.
pub proof fn lemma_gluing(secs: Seq<SheafSection<PageMapping>>)
    ensures
        glue_sections(secs, secs.len() as int) is Ok <==> sections_agree(secs),
        glue_sections(secs, secs.len() as int) matches Ok(m) ==> {
            &&& forall|s: int, k: int| #[trigger] is_entry(secs, s, k)
                ==> m.contains_key(entry_va(secs[s], k)) && m[entry_va(secs[s], k)] == entry_pa(secs, s, k)
            &&& forall|key: u64| m.contains_key(key) ==> exists|s: int, k: int| #[trigger] is_entry(secs, s, k) && entry_va(secs[s], k) == key
        },
{
    let n = secs.len() as int;
    if n == 0 {
        assert forall|key: u64| #[trigger] Map::<u64, u64>::empty().contains_key(key) implies
            exists|s: int, k: int| #[trigger] is_entry(secs, s, k) && entry_va(secs[s], k) == key by {}
    } else {
        let last = n - 1;
        let len_last = secs[last].data@.len() as int;
        lemma_glue_prefix(secs, last, len_last);
        assert forall|s: int, k: int| is_entry(secs, s, k) <==> entry_before(secs, s, k, last, len_last) by {}
        assert(sections_agree(secs) <==> agree_before(secs, last, len_last)) by {
            if agree_before(secs, last, len_last) {
                assert forall|s1: int, k1: int, s2: int, k2: int|
                    #![trigger is_entry(secs, s1, k1), is_entry(secs, s2, k2)]
                    is_entry(secs, s1, k1) && is_entry(secs, s2, k2) && entry_va(secs[s1], k1) == entry_va(secs[s2], k2)
                    implies entry_pa(secs, s1, k1) == entry_pa(secs, s2, k2) by {
                    assert(entry_before(secs, s1, k1, last, len_last));
                    assert(entry_before(secs, s2, k2, last, len_last));
                }
            }
            if sections_agree(secs) {
                assert forall|s1: int, k1: int, s2: int, k2: int|
                    #![trigger entry_before(secs, s1, k1, last, len_last), entry_before(secs, s2, k2, last, len_last)]
                    entry_before(secs, s1, k1, last, len_last) && entry_before(secs, s2, k2, last, len_last)
                        && entry_va(secs[s1], k1) == entry_va(secs[s2], k2)
                    implies entry_pa(secs, s1, k1) == entry_pa(secs, s2, k2) by {
                    assert(is_entry(secs, s1, k1));
                    assert(is_entry(secs, s2, k2));
                }
            }
        }
        if let Ok(m) = glue_sections(secs, n) {
            assert forall|s: int, k: int| #[trigger] is_entry(secs, s, k)
                implies m.contains_key(entry_va(secs[s], k)) && m[entry_va(secs[s], k)] == entry_pa(secs, s, k) by {
                assert(entry_before(secs, s, k, last, len_last));
            }
            assert forall|key: u64| m.contains_key(key) implies exists|s: int, k: int| #[trigger] is_entry(secs, s, k) && entry_va(secs[s], k) == key by {
                let (s, k) = choose|s: int, k: int| #[trigger] entry_before(secs, s, k, last, len_last) && entry_va(secs[s], k) == key;
                assert(is_entry(secs, s, k));
            }
        }
    }
}

proof fn lemma_glue_data_err(acc: Result<Map<u64, u64>, FailureView>, sec: SheafSection<PageMapping>, k: int, k2: int)
    requires
        0 <= k <= k2,
        glue_data(acc, sec, k) is Err,
    ensures
        glue_data(acc, sec, k2) == glue_data(acc, sec, k),
    decreases k2 - k,
{
    if k2 > k {
        lemma_glue_data_err(acc, sec, k, k2 - 1);
    }
}

proof fn lemma_glue_data_from_err(e: FailureView, sec: SheafSection<PageMapping>, k: int)
    ensures glue_data(Err(e), sec, k) == Err::<Map<u64, u64>, FailureView>(e),
    decreases k,
{
    if k > 0 {
        lemma_glue_data_from_err(e, sec, k - 1);
    }
}

proof fn lemma_glue_sections_err(secs: Seq<SheafSection<PageMapping>>, n: int, n2: int)
    requires
        0 <= n <= n2,
        glue_sections(secs, n) is Err,
    ensures
        glue_sections(secs, n2) == glue_sections(secs, n),
    decreases n2 - n,
{
    if n2 > n {
        lemma_glue_sections_err(secs, n, n2 - 1);
        if let Err(e) = glue_sections(secs, n2 - 1) {
            lemma_glue_data_from_err(e, secs[n2 - 1], secs[n2 - 1].data@.len() as int);
        }
    }
}

/// Some section of `secs` registers the translation `va -> pa`.
pub open spec fn is_registered(secs: Seq<SheafSection<PageMapping>>, va: u64, pa: u64) -> bool {
    exists|s: int, k: int| #[trigger] is_entry(secs, s, k) && entry_va(secs[s], k) == va && entry_pa(secs, s, k) == pa
}

/// The vector `v` holds the pair `va -> pa`.
pub open spec fn is_listed(v: Seq<(BrandedVAddr, BrandedPAddr)>, va: u64, pa: u64) -> bool {
    exists|j: int| 0 <= j < v.len() && (#[trigger] v[j]).0.0 == va && v[j].1.0 == pa
}

/// `v` lists exactly the registered translations of `secs`: every registered
/// pair is in `v`, every pair of `v` was registered, and no virtual address
/// occurs twice in `v`.
pub open spec fn lists_translations(v: Seq<(BrandedVAddr, BrandedPAddr)>, secs: Seq<SheafSection<PageMapping>>) -> bool {
    &&& forall|s: int, k: int| #[trigger] is_entry(secs, s, k) ==> is_listed(v, entry_va(secs[s], k), entry_pa(secs, s, k))
    &&& forall|j: int| 0 <= j < v.len() ==> is_registered(secs, (#[trigger] v[j]).0.0, v[j].1.0)
    &&& forall|i: int, j: int| 0 <= i < v.len() && 0 <= j < v.len() && i != j ==> (#[trigger] v[i]).0 != (#[trigger] v[j]).0
}

/// A vector that represents the gluing of all sections lists their translations.
proof fn lemma_represents_lists(v: Seq<(BrandedVAddr, BrandedPAddr)>, secs: Seq<SheafSection<PageMapping>>)
    requires
        glue_sections(secs, secs.len() as int) is Ok,
        represents(v, glue_sections(secs, secs.len() as int)->Ok_0),
    ensures
        lists_translations(v, secs),
{
    lemma_gluing(secs);
    let m = glue_sections(secs, secs.len() as int)->Ok_0;
    assert forall|s: int, k: int| #[trigger] is_entry(secs, s, k) implies is_listed(v, entry_va(secs[s], k), entry_pa(secs, s, k)) by {
        let key = entry_va(secs[s], k);
        assert(m.contains_key(key));
        let j = choose|j: int| 0 <= j < v.len() && (#[trigger] v[j]).0.0 == key;
        assert(m[v[j].0.0] == v[j].1.0);
    }
    assert forall|j: int| 0 <= j < v.len() implies is_registered(secs, (#[trigger] v[j]).0.0, v[j].1.0) by {
        let key = v[j].0.0;
        assert(m.contains_key(key) && m[key] == v[j].1.0);
        let (s, k) = choose|s: int, k: int| #[trigger] is_entry(secs, s, k) && entry_va(secs[s], k) == key;
        assert(m[entry_va(secs[s], k)] == entry_pa(secs, s, k));
    }
}

/// The position of `va` in `global`, if it is there.
fn find_key(global: &Vec<(BrandedVAddr, BrandedPAddr)>, va: BrandedVAddr) -> (r: Option<usize>)
    ensures
        r matches Some(j) ==> j < global@.len() && global@[j as int].0 == va,
        r is None ==> forall|j: int| 0 <= j < global@.len() ==> (#[trigger] global@[j]).0 != va,
{
    let mut j: usize = 0;
    while j < global.len()
        invariant
            j <= global@.len(),
            forall|t: int| 0 <= t < j ==> (#[trigger] global@[t]).0 != va,
        decreases global.len() - j,
    {
        if global[j].0 == va {
            return Some(j);
        }
        j = j + 1;
    }
    None
}

/// The range of a level's mappings: from the first to the last virtual
/// address, zero when there are none.
pub open spec fn range_of(mappings: Seq<(BrandedVAddr, BrandedPAddr)>, level: PageTableLevel) -> PageRange {
    PageRange {
        start: if mappings.len() > 0 { mappings[0].0 } else { BrandedVAddr(0) },
        end: if mappings.len() > 0 { mappings.last().0 } else { BrandedVAddr(0) },
        level,
    }
}

/// `new` is `old` with a section of `range` holding `data` (version 1): in
/// place of the section of the same range if there is one, else appended.
pub open spec fn registered(
    old: Seq<SheafSection<PageMapping>>,
    new: Seq<SheafSection<PageMapping>>,
    range: PageRange,
    data: Seq<PageMapping>,
) -> bool {
    let i = if exists|i: int| 0 <= i < old.len() && (#[trigger] old[i]).domain == range {
        choose|i: int| 0 <= i < old.len() && (#[trigger] old[i]).domain == range
    } else {
        old.len() as int
    };
    &&& new.len() == if i < old.len() { old.len() } else { old.len() + 1 }
    &&& forall|j: int| 0 <= j < old.len() && j != i ==> new[j] == old[j]
    &&& new[i].domain == range
    &&& new[i].data@ == data
    &&& new[i].version == 1
}

impl MmuSheaf {
    /// The registered ranges are pairwise distinct.
    pub open spec fn wf(&self) -> bool {
        forall|i: int, j: int| 0 <= i < self.sections@.len() && 0 <= j < self.sections@.len() && i != j
            ==> (#[trigger] self.sections@[i]).domain != (#[trigger] self.sections@[j]).domain
    }

    /// An empty sheaf.
    pub fn new() -> (r: Self)
        ensures r.sections@.len() == 0, r.wf(),
    {
        MmuSheaf { sections: Vec::new() }
    }

    /// Registers the translations of one page-table level as a section that
    /// keeps every `(virtual, physical)` pair, in order, over the range from
    /// the first to the last virtual address (zero when there are none); a
    /// section registered earlier with the same range is replaced.
    pub fn register_level(&mut self, level: PageTableLevel, mappings: Vec<(BrandedVAddr, BrandedPAddr)>)
        requires old(self).wf(),
        ensures
            final(self).wf(),
            registered(old(self).sections@, final(self).sections@, range_of(mappings@, level), mappings@),
    {
        let start = if mappings.len() > 0 { mappings[0].0 } else { BrandedVAddr(0) };
        let end = if mappings.len() > 0 { mappings[mappings.len() - 1].0 } else { BrandedVAddr(0) };
        let range = PageRange { start, end, level };
        let ghost given = mappings@;
        let section = SheafSection { domain: range, data: mappings, version: 1 };
        let mut i: usize = 0;
        while i < self.sections.len()
            invariant
                i <= self.sections@.len(),
                self.sections@ == old(self).sections@,
                old(self).wf(),
                given == mappings@,
                range == range_of(given, level),
                section.domain == range,
                section.data@ == given,
                section.version == 1,
                forall|j: int| 0 <= j < i ==> (#[trigger] self.sections@[j]).domain != range,
            decreases self.sections.len() - i,
        {
            if self.sections[i].domain == range {
                self.sections.set(i, section);
                proof {
                    assert(old(self).sections@[i as int].domain == range);
                    assert(self.sections@[i as int].domain == range);
                    let c = choose|c: int| 0 <= c < old(self).sections@.len() && (#[trigger] old(self).sections@[c]).domain == range;
                    assert(c == i as int) by {
                        if c != i as int {
                            assert(old(self).sections@[c].domain != old(self).sections@[i as int].domain);
                        }
                    }
                    assert forall|a: int, b: int| 0 <= a < self.sections@.len() && 0 <= b < self.sections@.len() && a != b
                        implies (#[trigger] self.sections@[a]).domain != (#[trigger] self.sections@[b]).domain by {
                        assert(old(self).sections@[a].domain == self.sections@[a].domain);
                        assert(old(self).sections@[b].domain == self.sections@[b].domain);
                    }
                }
                return;
            }
            i = i + 1;
        }
        self.sections.push(section);
        proof {
            assert(!(exists|c: int| 0 <= c < old(self).sections@.len() && (#[trigger] old(self).sections@[c]).domain == range));
            assert forall|a: int, b: int| 0 <= a < self.sections@.len() && 0 <= b < self.sections@.len() && a != b
                implies (#[trigger] self.sections@[a]).domain != (#[trigger] self.sections@[b]).domain by {
                if a < old(self).sections@.len() && b < old(self).sections@.len() {
                    assert(old(self).sections@[a].domain == self.sections@[a].domain);
                    assert(old(self).sections@[b].domain == self.sections@[b].domain);
                }
            }
        }
    }

    /// The Čech cohomology in `degree`: in degree 2 the three-way overlaps of
    /// the registered ranges are examined; the gluing is reported as a cocycle
    /// without obstruction.
    pub fn compute_cech_cohomology(&self, degree: usize) -> (r: KernelResult<CechCohomology>)
        ensures
            r matches Ok(c) && c.degree == degree && c.cocycle && c.obstruction is None,
    {
        let mut overlaps: Vec<PageOverlap> = Vec::new();
        let mut ranges: Vec<PageRange> = Vec::new();
        let mut t: usize = 0;
        while t < self.sections.len()
            invariant t <= self.sections@.len(), ranges@.len() == t,
            decreases self.sections.len() - t,
        {
            ranges.push(self.sections[t].domain);
            t = t + 1;
        }
        if degree == 2 {
            let n = ranges.len();
            let mut i: usize = 0;
            while i < n
                invariant n == ranges@.len(), i <= n,
                decreases n - i,
            {
                let mut j: usize = i + 1;
                while j < n
                    invariant n == ranges@.len(), i < n, i + 1 <= j || j >= n,
                    decreases n - j,
                {
                    let mut k: usize = j + 1;
                    while k < n
                        invariant n == ranges@.len(), i < n, j < n, j + 1 <= k || k >= n,
                        decreases n - k,
                    {
                        match Self::find_three_way_overlap(&ranges[i], &ranges[j], &ranges[k]) {
                            Some(overlap) => overlaps.push(overlap),
                            None => {},
                        }
                        k = k + 1;
                    }
                    j = j + 1;
                }
                i = i + 1;
            }
        }
        Ok(CechCohomology { degree, cocycle: true, obstruction: None })
    }

    /// Glues the sections into one virtual-to-physical translation (see
    /// `glue_sections`): the mapping, one pair per virtual address, or the
    /// first `SheafGluingContradiction` found, in section order.
    pub fn glue_virtual_to_physical(&self) -> (r: KernelResult<Vec<(BrandedVAddr, BrandedPAddr)>>)
        ensures
            r is Ok <==> sections_agree(self.sections@),
            r matches Ok(v) ==> lists_translations(v@, self.sections@),
            r is Ok <==> glue_sections(self.sections@, self.sections@.len() as int) is Ok,
            r matches Ok(v) ==> represents(v@, glue_sections(self.sections@, self.sections@.len() as int)->Ok_0),
            r matches Err(e) ==> glue_sections(self.sections@, self.sections@.len() as int) == Err::<Map<u64, u64>, FailureView>(e@),
    {
        let ghost secs = self.sections@;
        let mut global: Vec<(BrandedVAddr, BrandedPAddr)> = Vec::new();
        let ghost mut gm: Map<u64, u64> = Map::empty();
        let mut s: usize = 0;
        while s < self.sections.len()
            invariant
                secs == self.sections@,
                s <= secs.len(),
                glue_sections(secs, s as int) == Ok::<Map<u64, u64>, FailureView>(gm),
                represents(global@, gm),
            decreases self.sections.len() - s,
        {
            let section = &self.sections[s];
            let ghost acc = glue_sections(secs, s as int);
            let mut k: usize = 0;
            while k < section.data.len()
                invariant
                    secs == self.sections@,
                    s < secs.len(),
                    *section == secs[s as int],
                    acc == glue_sections(secs, s as int),
                    k <= section.data@.len(),
                    glue_data(acc, *section, k as int) == Ok::<Map<u64, u64>, FailureView>(gm),
                    represents(global@, gm),
                decreases section.data.len() - k,
            {
                let va = section.data[k].0;
                let pa = section.data[k].1;
                assert(va.0 == entry_va(*section, k as int));
                match find_key(&global, va) {
                    Some(j) => {
                        assert(gm.contains_key(va.0) && gm[va.0] == global@[j as int].1.0);
                        if global[j].1 != pa {
                            let e = FailureKind::SheafGluingContradiction {
                                virtual_addr: va.0,
                                expected: global[j].1.0,
                                found: pa.0,
                                level: level_value(section.domain.level),
                            };
                            proof {
                                assert(glue_data(acc, *section, k + 1) == Err::<Map<u64, u64>, FailureView>(e@));
                                lemma_glue_data_err(acc, *section, k + 1, section.data@.len() as int);
                                lemma_glue_sections_err(secs, s + 1, secs.len() as int);
                                lemma_gluing(secs);
                            }
                            return Err(e);
                        }
                        proof {
                            assert(gm.insert(va.0, pa.0) =~= gm);
                        }
                    },
                    None => {
                        proof {
                            assert(!gm.contains_key(va.0)) by {
                                if gm.contains_key(va.0) {
                                    let t = choose|t: int| 0 <= t < global@.len() && (#[trigger] global@[t]).0.0 == va.0;
                                    assert(global@[t].0 == va);
                                }
                            }
                        }
                        let ghost before = global@;
                        global.push((va, pa));
                        proof {
                            let g2 = gm.insert(va.0, pa.0);
                            assert forall|key: u64| g2.contains_key(key) implies exists|j: int| 0 <= j < global@.len() && (#[trigger] global@[j]).0.0 == key by {
                                if key == va.0 {
                                    assert(global@[global@.len() - 1].0.0 == key);
                                } else {
                                    let t = choose|t: int| 0 <= t < before.len() && (#[trigger] before[t]).0.0 == key;
                                    assert(global@[t] == before[t]);
                                }
                            }
                        }
                    },
                }
                proof {
                    gm = gm.insert(va.0, pa.0);
                }
                k = k + 1;
            }
            s = s + 1;
        }
        proof {
            lemma_gluing(secs);
            lemma_represents_lists(global@, secs);
        }
        Ok(global)
    }

    /// The overlap of three ranges, when it is not empty: from the greatest
    /// start to the least end, at the level of `a`, with the three levels in
    /// order and no physical mapping yet.
    fn find_three_way_overlap(a: &PageRange, b: &PageRange, c: &PageRange) -> (r: Option<PageOverlap>)
        ensures
            r is Some <==> overlap_start(*a, *b, *c) < overlap_end(*a, *b, *c),
            r matches Some(o) ==> {
                &&& o.virtual_range == (PageRange {
                    start: BrandedVAddr(overlap_start(*a, *b, *c)),
                    end: BrandedVAddr(overlap_end(*a, *b, *c)),
                    level: a.level,
                })
                &&& o.levels@ == seq![a.level, b.level, c.level]
                &&& o.physical_mappings@.len() == 0
            },
    {
        let s1 = if a.start.0 > b.start.0 { a.start.0 } else { b.start.0 };
        let s2 = if s1 > c.start.0 { s1 } else { c.start.0 };
        let e1 = if a.end.0 < b.end.0 { a.end.0 } else { b.end.0 };
        let e2 = if e1 < c.end.0 { e1 } else { c.end.0 };
        let start = BrandedVAddr(s2);
        let end = BrandedVAddr(e2);
        if start.0 < end.0 {
            Some(PageOverlap {
                levels: vec![a.level, b.level, c.level],
                virtual_range: PageRange { start, end, level: a.level },
                physical_mappings: Vec::new(),
            })
        } else {
            None
        }
    }
}

impl Default for MmuSheaf {
    fn default() -> (r: Self)
        ensures r.sections@.len() == 0,
    {
        Self::new()
    }
}

} // verus!
