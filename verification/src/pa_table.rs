//! The calibration table of the VTX. Its entry 0 holds the frequencies; every other
//! entry is a power level, with a bias and a detector voltage for each frequency.

use std::collections::HashMap;
use vstd::prelude::*;

use crate::calibration_engine::types::SweepResult;
use crate::msp::{PaCalibration, PaCalibrationView};

verus! {

broadcast use vstd::std_specs::hash::group_hash_axioms;

/// The first entry with this index.
pub open spec fn entry_with_idx(table: Seq<PaCalibration>, idx: u8) -> Option<PaCalibrationView>
    decreases table.len(),
{
    if table.len() == 0 {
        None
    } else if table[0].idx == idx {
        Some(table[0]@)
    } else {
        entry_with_idx(table.skip(1), idx)
    }
}

/// The place of the first entry with this index, or the number of entries.
pub fn find_entry(table: &Vec<PaCalibration>, idx: u8) -> (r: usize)
    ensures
        r <= table@.len(),
        r < table@.len() ==> entry_with_idx(table@, idx) == Some(table@[r as int]@)
            && table@[r as int].idx == idx,
        r == table@.len() ==> entry_with_idx(table@, idx) is None,
        forall|k: int| 0 <= k < r ==> (#[trigger] table@[k]).idx != idx,
{
    let mut i: usize = 0;
    assert(table@.skip(0) =~= table@);
    while i < table.len()
        invariant
            i <= table@.len(),
            entry_with_idx(table@.skip(i as int), idx) == entry_with_idx(table@, idx),
            forall|k: int| 0 <= k < i ==> (#[trigger] table@[k]).idx != idx,
        decreases table@.len() - i,
    {
        assert(table@.skip(i as int)[0] == table@[i as int]);
        assert(table@.skip(i as int).skip(1) =~= table@.skip(i + 1));
        if table[i].idx == idx {
            return i;
        }
        i = i + 1;
    }
    i
}

/// The frequencies of the table, which its first entry holds.
pub fn table_frequencies(table: &Vec<PaCalibration>) -> (r: [u16; 7])
    ensures
        r@ == (match entry_with_idx(table@, 0) {
            Some(e) => e.value,
            None => Seq::new(7, |i: int| 0u16),
        }),
{
    let i = find_entry(table, 0);
    if i < table.len() {
        table[i].value
    } else {
        let none: [u16; 7] = [0;7];
        assert(none@ =~= Seq::new(7, |i: int| 0u16));
        none
    }
}

/// The places of the power levels in the table: of every entry but those with index 0.
pub fn level_rows(table: &Vec<PaCalibration>) -> (r: Vec<usize>)
    ensures
        forall|i: int|
            0 <= i < r@.len() ==> (#[trigger] r@[i]) < table@.len() && table@[r@[i] as int].idx > 0,
        forall|k: usize|
            k < table@.len() && (#[trigger] table@[k as int]).idx > 0 ==> r@.contains(k),
        forall|i: int, j: int| 0 <= i < j < r@.len() ==> r@[i] < r@[j],
{
    let mut r: Vec<usize> = Vec::new();
    let mut n: usize = 0;
    while n < table.len()
        invariant
            n <= table@.len(),
            forall|i: int|
                0 <= i < r@.len() ==> (#[trigger] r@[i]) < n && table@[r@[i] as int].idx > 0,
            forall|k: usize| k < n && (#[trigger] table@[k as int]).idx > 0 ==> r@.contains(k),
            forall|i: int, j: int| 0 <= i < j < r@.len() ==> r@[i] < r@[j],
        decreases table@.len() - n,
    {
        let ghost before = r@;
        if table[n].idx > 0 {
            r.push(n);
            assert(r@[before.len() as int] == n);
        }
        assert forall|k: usize| k < n + 1 && (#[trigger] table@[k as int]).idx > 0 implies r@.contains(
            k,
        ) by {
            if k < n {
                let i = before.index_of(k);
                assert(r@[i] == k);
            }
        }
        n = n + 1;
    }
    r
}

/// The frequencies that are swept: those of the table that are set.
pub open spec fn swept_frequencies(table: Seq<PaCalibration>) -> Seq<u16> {
    match entry_with_idx(table, 0) {
        Some(e) => e.value.filter(|f: u16| f > 0),
        None => seq![],
    }
}

pub fn frequencies_to_sweep(table: &Vec<PaCalibration>) -> (r: Vec<u16>)
    ensures
        r@ == swept_frequencies(table@),
        r@.len() <= 7,
{
    let mut r: Vec<u16> = Vec::new();
    let at = find_entry(table, 0);
    if at == table.len() {
        return r;
    }
    let ghost value = table@[at as int].value@;
    let mut i: usize = 0;
    assert(value.take(0) =~= seq![]);
    reveal(Seq::filter);
    while i < 7
        invariant
            i <= 7,
            at < table@.len(),
            value == table@[at as int].value@,
            r@ == value.take(i as int).filter(|f: u16| f > 0),
            r@.len() <= i,
        decreases 7 - i,
    {
        reveal(Seq::filter);
        let f = table[at].value[i];
        assert(value.take(i + 1).drop_last() =~= value.take(i as int));
        if f > 0 {
            r.push(f);
        }
        i = i + 1;
    }
    assert(value.take(7) =~= value);
    r
}

/// Whether the bias grows with less power.
pub open spec fn spec_sign_inverted(table: Seq<PaCalibration>) -> bool {
    match entry_with_idx(table, 0) {
        Some(e) => e.dac_sign_inverted,
        None => false,
    }
}

pub fn sign_inverted(table: &Vec<PaCalibration>) -> (r: bool)
    ensures
        r == spec_sign_inverted(table@),
{
    let at = find_entry(table, 0);
    at < table.len() && table[at].dac_sign_inverted
}

/// The powers of the levels that the table has.
pub open spec fn level_targets(table: Seq<PaCalibration>, levels: Seq<u8>) -> Map<u8, u16> {
    Map::new(
        |l: u8| levels.contains(l) && entry_with_idx(table, l) is Some,
        |l: u8| entry_with_idx(table, l)->0.m_w,
    )
}

pub fn targets_of(table: &Vec<PaCalibration>, levels: &Vec<u8>) -> (r: HashMap<u8, u16>)
    ensures
        r@ == level_targets(table@, levels@),
{
    let mut r: HashMap<u8, u16> = HashMap::new();
    let mut i: usize = 0;
    assert(r@ =~= level_targets(table@, levels@.take(0)));
    while i < levels.len()
        invariant
            i <= levels@.len(),
            r@ == level_targets(table@, levels@.take(i as int)),
        decreases levels@.len() - i,
    {
        let level = levels[i];
        let ghost seen = levels@.take(i as int);
        let ghost more = levels@.take(i + 1);
        let at = find_entry(table, level);
        if at < table.len() {
            r.insert(level, table[at].m_w);
        }
        proof {
            assert(more =~= seen.push(level));
            assert forall|l: u8| more.contains(l) <==> (seen.contains(l) || l == level) by {
                if seen.contains(l) {
                    let k = choose|k: int| 0 <= k < seen.len() && seen[k] == l;
                    assert(more[k] == l);
                }
                if l == level {
                    assert(more[i as int] == l);
                }
            }
            assert(r@ =~= level_targets(table@, more));
        }
        i = i + 1;
    }
    assert(levels@.take(i as int) =~= levels@);
    r
}

/// The power of a level.
pub fn power_of(table: &Vec<PaCalibration>, level: u8) -> (r: Option<u16>)
    ensures
        r == (match entry_with_idx(table@, level) {
            Some(e) => Some(e.m_w),
            None => None,
        }),
{
    let at = find_entry(table, level);
    if at < table.len() {
        Some(table[at].m_w)
    } else {
        None
    }
}

/// The bias that the table holds for a point.
pub open spec fn stored_bias(table: Seq<PaCalibration>, level: u8, freq_idx: int) -> Option<u16> {
    match entry_with_idx(table, level) {
        Some(e) => if 0 <= freq_idx < 7 {
            Some(e.value[freq_idx])
        } else {
            None
        },
        None => None,
    }
}

pub fn bias_of(table: &Vec<PaCalibration>, level: u8, freq_idx: usize) -> (r: Option<u16>)
    ensures
        r == stored_bias(table@, level, freq_idx as int),
{
    let at = find_entry(table, level);
    if at < table.len() && freq_idx < 7 {
        Some(table[at].value[freq_idx])
    } else {
        None
    }
}

/// An entry with what a sweep has found for one of its points.
pub open spec fn with_result(e: PaCalibrationView, r: SweepResult) -> PaCalibrationView {
    PaCalibrationView {
        value: if r.vbias_mv is Some && r.freq_idx < 7 {
            e.value.update(r.freq_idx as int, r.vbias_mv->0)
        } else {
            e.value
        },
        detector: if r.detector_mv is Some && r.freq_idx < 7 {
            e.detector.update(r.freq_idx as int, r.detector_mv->0)
        } else {
            e.detector
        },
        ..e
    }
}

/// The first entry of the level that a result is for.
pub open spec fn is_result_entry(table: Seq<PaCalibration>, r: SweepResult, i: int) -> bool {
    &&& 0 <= i < table.len()
    &&& table[i].idx == r.level
    &&& forall|k: int| 0 <= k < i ==> (#[trigger] table[k]).idx != r.level
}

/// Writes what a sweep has found into the table. What was not found changes nothing.
pub fn apply_result(table: &mut Vec<PaCalibration>, r: &SweepResult)
    ensures
        final(table)@.len() == old(table)@.len(),
        forall|i: int|
            0 <= i < old(table)@.len() ==> (#[trigger] final(table)@[i])@ == (if r.success
                && is_result_entry(old(table)@, *r, i) {
                with_result(old(table)@[i]@, *r)
            } else {
                old(table)@[i]@
            }),
{
    if !r.success {
        return;
    }
    let at = find_entry(table, r.level);
    if at == table.len() {
        return;
    }
    let mut value: [u16; 7] = table[at].value;
    let mut detector: [u16; 7] = table[at].detector;
    if r.freq_idx < 7 {
        if let Some(mv) = r.vbias_mv {
            value[r.freq_idx] = mv;
        }
        if let Some(mv) = r.detector_mv {
            detector[r.freq_idx] = mv;
        }
    }
    let entry = PaCalibration {
        idx: table[at].idx,
        m_w: table[at].m_w,
        value,
        detector,
        ext_pa_enable: table[at].ext_pa_enable,
        rtc6705_level: table[at].rtc6705_level,
        dac_sign_inverted: table[at].dac_sign_inverted,
    };
    assert(entry@ =~= with_result(old(table)@[at as int]@, *r));
    table.set(at, entry);
}

/// A result changes of an entry only what it holds, and only at its frequency: where it has
/// no bias, the biases stay, and where it has no detector voltage, those do.
pub proof fn law_a_result_changes_only_what_it_holds(e: PaCalibrationView, r: SweepResult, i: int)
    requires
        e.value.len() == 7,
        e.detector.len() == 7,
        0 <= i < 7,
    ensures
        ({
            let w = with_result(e, r);
            &&& w.value.len() == 7 && w.detector.len() == 7
            &&& w.value[i] == if r.freq_idx == i && r.vbias_mv is Some {
                r.vbias_mv->0
            } else {
                e.value[i]
            }
            &&& w.detector[i] == if r.freq_idx == i && r.detector_mv is Some {
                r.detector_mv->0
            } else {
                e.detector[i]
            }
            &&& r.vbias_mv is None ==> w.value == e.value
            &&& r.detector_mv is None ==> w.detector == e.detector
            &&& w.idx == e.idx && w.m_w == e.m_w
            &&& w.ext_pa_enable == e.ext_pa_enable
            &&& w.rtc6705_level == e.rtc6705_level
            &&& w.dac_sign_inverted == e.dac_sign_inverted
        }),
{
}

/// The bias and the detector voltage of one point, found one after the other, are both in
/// the entry then, in whichever order they came.
pub proof fn law_the_results_of_a_point_add_up(
    e: PaCalibrationView,
    bias: SweepResult,
    detector: SweepResult,
)
    requires
        e.value.len() == 7,
        e.detector.len() == 7,
        bias.freq_idx == detector.freq_idx,
        bias.freq_idx < 7,
        bias.vbias_mv is Some,
        bias.detector_mv is None,
        detector.vbias_mv is None,
        detector.detector_mv is Some,
    ensures
        ({
            let w = with_result(with_result(e, bias), detector);
            &&& w.value[bias.freq_idx as int] == bias.vbias_mv->0
            &&& w.detector[bias.freq_idx as int] == detector.detector_mv->0
            &&& w == with_result(with_result(e, detector), bias)
        }),
{
}

/// A table is looked up by index: the entry that is found has the index and none before it
/// does, and none is found only where there is none.
pub proof fn law_an_entry_is_found_by_its_index(table: Seq<PaCalibration>, idx: u8, i: int)
    ensures
        0 <= i < table.len() && table[i].idx == idx && (forall|k: int|
            0 <= k < i ==> (#[trigger] table[k]).idx != idx) ==> entry_with_idx(table, idx) == Some(
            table[i]@,
        ),
        (forall|k: int| 0 <= k < table.len() ==> (#[trigger] table[k]).idx != idx)
            ==> entry_with_idx(table, idx) is None,
    decreases table.len(),
{
    if table.len() > 0 {
        let rest = table.skip(1);
        law_an_entry_is_found_by_its_index(rest, idx, i - 1);
        if 0 < i < table.len() && table[i].idx == idx && (forall|k: int|
            0 <= k < i ==> (#[trigger] table[k]).idx != idx) {
            assert forall|k: int| 0 <= k < i - 1 implies (#[trigger] rest[k]).idx != idx by {
                assert(rest[k] == table[k + 1]);
            }
            assert(rest[i - 1] == table[i]);
        }
        if forall|k: int| 0 <= k < table.len() ==> (#[trigger] table[k]).idx != idx {
            assert forall|k: int| 0 <= k < rest.len() implies (#[trigger] rest[k]).idx != idx by {
                assert(rest[k] == table[k + 1]);
            }
        }
    }
}

/// What a sweep takes from the table: of its entry 0 the frequencies that are set, in order,
/// and the sign of the DAC; of the entry of each level its power.
pub proof fn law_a_sweep_follows_the_table(
    table: Seq<PaCalibration>,
    levels: Seq<u8>,
    at: int,
    level: u8,
    of_level: int,
)
    requires
        0 <= at < table.len(),
        table[at].idx == 0,
        forall|k: int| 0 <= k < at ==> (#[trigger] table[k]).idx != 0,
        0 <= of_level < table.len(),
        table[of_level].idx == level,
        forall|k: int| 0 <= k < of_level ==> (#[trigger] table[k]).idx != level,
    ensures
        spec_sign_inverted(table) == table[at].dac_sign_inverted,
        forall|f: u16|
            swept_frequencies(table).contains(f) <==> f > 0 && table[at].value@.contains(f),
        (forall|i: int| 0 <= i < 7 ==> #[trigger] table[at].value@[i] > 0)
            ==> swept_frequencies(table) == table[at].value@,
        levels.contains(level) <==> level_targets(table, levels).contains_pair(
            level,
            table[of_level].m_w,
        ),
        stored_bias(table, level, 7) is None,
        forall|i: int|
            0 <= i < 7 ==> #[trigger] stored_bias(table, level, i) == Some(
                table[of_level].value@[i],
            ),
{
    law_an_entry_is_found_by_its_index(table, 0, at);
    law_an_entry_is_found_by_its_index(table, level, of_level);
    let v = table[at].value@;
    let set = |f: u16| f > 0;
    assert forall|f: u16| swept_frequencies(table).contains(f) <==> f > 0 && v.contains(f) by {
        if swept_frequencies(table).contains(f) {
            v.lemma_filter_contains_rev(set, f);
            let i = swept_frequencies(table).index_of(f);
            v.lemma_filter_pred(set, i);
            assert(set(swept_frequencies(table)[i]));
        }
        if f > 0 && v.contains(f) {
            let i = v.index_of(f);
            assert(set(v[i]));
            v.lemma_filter_contains(set, i);
        }
    }
    if forall|i: int| 0 <= i < 7 ==> #[trigger] v[i] > 0 {
        lemma_all_pass(v, set);
    }
}

proof fn lemma_all_pass(v: Seq<u16>, set: spec_fn(u16) -> bool)
    requires
        forall|i: int| 0 <= i < v.len() ==> set(#[trigger] v[i]),
    ensures
        v.filter(set) == v,
    decreases v.len(),
{
    reveal(Seq::filter);
    if v.len() > 0 {
        let d = v.drop_last();
        assert forall|i: int| 0 <= i < d.len() implies set(#[trigger] d[i]) by {
            assert(d[i] == v[i]);
        }
        lemma_all_pass(d, set);
        assert(v.filter(set) =~= v);
    } else {
        assert(v.filter(set) =~= v);
    }
}

/// A result is written to one entry at most: the one that a look-up of its level finds.
pub proof fn law_a_result_is_for_the_entry_of_its_level(
    table: Seq<PaCalibration>,
    r: SweepResult,
    i: int,
    j: int,
)
    requires
        is_result_entry(table, r, i),
    ensures
        entry_with_idx(table, r.level) == Some(table[i]@),
        table[i].idx == r.level,
        is_result_entry(table, r, j) <==> j == i,
{
    law_an_entry_is_found_by_its_index(table, r.level, i);
}

} // verus!
