//! Editing the VTX table.

use vstd::prelude::*;
#[allow(unused_imports)]
use vstd::string::*;

use crate::msp::{VtxBand, VtxBandView, VtxPowerLevel, VtxPowerLevelView};
use crate::text::{decimal, push_decimal};
use crate::vtxtable::{
    band_views,
    cli_table,
    power_level_views,
    VtxTableConfig,
    VtxTableView,
};

verus! {

/// What the page of the VTX table holds beside the table: among other things the
/// bands and power levels that were removed, for when they are wanted again.
#[derive(Debug)]
pub struct VtxTablePageState {
    pub file_path: String,
    pub cli_text: String,
    pub last_error: Option<String>,
    pub confirm_overwrite: bool,
    pub removed_bands: Vec<VtxBand>,
    pub removed_power_levels: Vec<VtxPowerLevel>,
}

impl Default for VtxTablePageState {
    fn default() -> (r: Self)
        ensures
            r.file_path@.len() == 0,
            r.cli_text@.len() == 0,
            r.last_error is None,
            !r.confirm_overwrite,
            r.removed_bands@.len() == 0,
            r.removed_power_levels@.len() == 0,
    {
        VtxTablePageState {
            file_path: String::new(),
            cli_text: String::new(),
            last_error: None,
            confirm_overwrite: false,
            removed_bands: Vec::new(),
            removed_power_levels: Vec::new(),
        }
    }
}

/// The band that is added where none was removed before.
pub open spec fn new_band(index: u8, channels: u8) -> VtxBandView {
    VtxBandView {
        index,
        name: "BAND"@ + decimal(index as nat),
        letter: if index <= 26 { (64 + index) as char } else { 'Z' },
        is_factory: false,
        channel_count: channels,
        freqs_mhz: Seq::new(8, |i: int| 5800u16),
    }
}

fn added_band(index: u8, channels: u8) -> (r: VtxBand)
    requires
        index >= 1,
    ensures
        r@ == new_band(index, channels),
{
    let mut name = String::new();
    name.append("BAND");
    push_decimal(&mut name, index as u64);
    assert(name@ =~= "BAND"@ + decimal(index as nat));
    let letter: u8 = if index <= 26 { 64 + index } else { 90 };
    let freqs_mhz: [u16; 8] = [5800;8];
    assert(freqs_mhz@ =~= Seq::new(8, |i: int| 5800u16));
    VtxBand {
        index,
        name,
        letter: letter as char,
        is_factory: false,
        channel_count: channels,
        freqs_mhz,
    }
}

/// The `i`th of `target` items: one that is there, or else the one that was removed
/// last of those left, if any.
pub open spec fn refilled<T>(there: Seq<T>, removed: Seq<T>, i: int) -> Option<T> {
    if i < there.len() {
        Some(there[i])
    } else if i - there.len() < removed.len() {
        Some(removed[removed.len() - 1 - (i - there.len())])
    } else {
        None
    }
}

/// What is left of the removed items when there are `target` items, not `there`.
pub open spec fn removed_after<T>(there: Seq<T>, removed: Seq<T>, target: nat) -> Seq<T> {
    if target <= there.len() {
        removed + Seq::new((there.len() - target) as nat, |j: int| there[there.len() - 1 - j])
    } else if target - there.len() < removed.len() {
        removed.take(removed.len() - (target - there.len()))
    } else {
        seq![]
    }
}

/// The items that are left of those there, or those there and the removed ones that come
/// back, when `target` are wanted.
pub open spec fn kept_or_back<T>(there: Seq<T>, removed: Seq<T>, target: nat) -> Seq<T> {
    if target <= there.len() {
        there.take(target as int)
    } else {
        there + removed.reverse().take(
            if target - there.len() < removed.len() {
                target - there.len()
            } else {
                removed.len() as int
            },
        )
    }
}

/// Takes away the last items until there are `target`, or puts back those that were
/// removed last until there are, as far as there are any.
fn keep_or_put_back<T>(items: &mut Vec<T>, target: usize, removed: &mut Vec<T>)
    ensures
        final(items)@ == kept_or_back(old(items)@, old(removed)@, target as nat),
        final(removed)@ == removed_after(old(items)@, old(removed)@, target as nat),
{
    let ghost there = items@;
    let ghost gone = removed@;
    while items.len() > target
        invariant
            items@.len() <= there.len(),
            target <= there.len() ==> target <= items@.len(),
            target > there.len() ==> items@.len() == there.len(),
            items@ == there.take(items@.len() as int),
            removed@ == gone + there.skip(items@.len() as int).reverse(),
        decreases items@.len(),
    {
        if let Some(item) = items.pop() {
            removed.push(item);
        }
    }
    assert(target <= there.len() ==> removed@ =~= removed_after(there, gone, target as nat));
    assert(target > there.len() ==> items@ =~= there && removed@ =~= gone);
    while items.len() < target && removed.len() > 0
        invariant
            target <= there.len() ==> items@ == there.take(target as int) && removed@
                == removed_after(there, gone, target as nat),
            target > there.len() ==> there.len() <= items@.len() <= target && items@.len()
                - there.len() <= gone.len() && items@ == there + gone.reverse().take(
                items@.len() - there.len(),
            ) && removed@ == gone.take(gone.len() - (items@.len() - there.len())),
        decreases target - items@.len(),
    {
        if let Some(item) = removed.pop() {
            items.push(item);
        }
    }
    assert(items@ =~= kept_or_back(there, gone, target as nat));
    assert(removed@ =~= removed_after(there, gone, target as nat));
}

/// What is kept or comes back stands where it is wanted, and what is missing then is at
/// the end.
proof fn lemma_kept_or_back<T>(there: Seq<T>, removed: Seq<T>, target: nat)
    ensures
        kept_or_back(there, removed, target).len() <= target,
        forall|i: int|
            0 <= i < target ==> #[trigger] refilled(there, removed, i) == (if i < kept_or_back(
                there,
                removed,
                target,
            ).len() {
                Some(kept_or_back(there, removed, target)[i])
            } else {
                None
            }),
{
}

/// The bands of a table with `target` bands, numbered from 1.
pub open spec fn resized_bands(
    there: Seq<VtxBandView>,
    removed: Seq<VtxBandView>,
    channels: u8,
    target: nat,
) -> Seq<VtxBandView> {
    Seq::new(
        target,
        |i: int|
            {
                let b = match refilled(there, removed, i) {
                    Some(b) => b,
                    None => new_band((i + 1) as u8, channels),
                };
                VtxBandView { index: (i + 1) as u8, ..b }
            },
    )
}

pub fn resize_bands(cfg: &mut VtxTableConfig, target: usize, removed: &mut Vec<VtxBand>)
    requires
        target <= 255,
    ensures
        final(cfg)@ == (VtxTableView {
            bands: resized_bands(
                old(cfg)@.bands,
                band_views(old(removed)@),
                old(cfg).channels,
                target as nat,
            ),
            ..old(cfg)@
        }),
        band_views(final(removed)@) == removed_after(
            old(cfg)@.bands,
            band_views(old(removed)@),
            target as nat,
        ),
{
    let ghost there = cfg.bands@;
    let ghost gone = removed@;
    let ghost views = band_views(there);
    let ghost gone_views = band_views(gone);
    keep_or_put_back(&mut cfg.bands, target, removed);
    let ghost kept = cfg.bands@;
    proof {
        lemma_kept_or_back(views, gone_views, target as nat);
        assert(band_views(kept) =~= kept_or_back(views, gone_views, target as nat));
        assert(band_views(removed@) =~= removed_after(views, gone_views, target as nat));
    }
    let ghost want = resized_bands(views, gone_views, old(cfg).channels, target as nat);
    let mut i: usize = 0;
    while i < cfg.bands.len()
        invariant
            target <= 255,
            cfg.bands@.len() == kept.len() <= target,
            i <= kept.len(),
            cfg.channels == old(cfg).channels,
            cfg.power_levels == old(cfg).power_levels,
            forall|k: int|
                0 <= k < i ==> (#[trigger] cfg.bands@[k])@ == (VtxBandView {
                    index: (k + 1) as u8,
                    ..kept[k]@
                }),
            forall|k: int| i <= k < kept.len() ==> #[trigger] cfg.bands@[k] == kept[k],
        decreases kept.len() - i,
    {
        cfg.bands[i].index = (i + 1) as u8;
        i = i + 1;
    }
    proof {
        assert forall|k: int| 0 <= k < cfg.bands@.len() implies (#[trigger] cfg.bands@[k])@
            == want[k] by {
            assert(band_views(kept)[k] == kept[k]@);
            assert(refilled(views, gone_views, k) == Some(kept[k]@));
        }
    }
    while cfg.bands.len() < target
        invariant
            target <= 255,
            kept.len() <= cfg.bands@.len() <= target,
            cfg.channels == old(cfg).channels,
            cfg.power_levels == old(cfg).power_levels,
            want == resized_bands(views, gone_views, old(cfg).channels, target as nat),
            forall|k: int|
                kept.len() <= k < target ==> #[trigger] refilled(views, gone_views, k) is None,
            forall|k: int| 0 <= k < cfg.bands@.len() ==> (#[trigger] cfg.bands@[k])@ == want[k],
        decreases target - cfg.bands@.len(),
    {
        let n: usize = cfg.bands.len();
        assert(refilled(views, gone_views, n as int) is None);
        cfg.bands.push(added_band((n + 1) as u8, cfg.channels));
    }
    assert(cfg@.bands =~= want);
}

/// The power level that is added where none was removed before.
pub open spec fn new_power_level(index: u8) -> VtxPowerLevelView {
    VtxPowerLevelView { index, m_w: 25, label: "25"@ }
}

fn added_power_level(index: u8) -> (r: VtxPowerLevel)
    ensures
        r@ == new_power_level(index),
{
    VtxPowerLevel { index, m_w: 25, label: "25".to_string() }
}

/// The power levels of a table with `target` of them, numbered from 1.
pub open spec fn resized_power_levels(
    there: Seq<VtxPowerLevelView>,
    removed: Seq<VtxPowerLevelView>,
    target: nat,
) -> Seq<VtxPowerLevelView> {
    Seq::new(
        target,
        |i: int|
            {
                let l = match refilled(there, removed, i) {
                    Some(l) => l,
                    None => new_power_level((i + 1) as u8),
                };
                VtxPowerLevelView { index: (i + 1) as u8, ..l }
            },
    )
}

pub fn resize_power_levels(cfg: &mut VtxTableConfig, target: usize, removed: &mut Vec<VtxPowerLevel>)
    requires
        target <= 255,
    ensures
        final(cfg)@ == (VtxTableView {
            power_levels: resized_power_levels(
                old(cfg)@.power_levels,
                power_level_views(old(removed)@),
                target as nat,
            ),
            ..old(cfg)@
        }),
        power_level_views(final(removed)@) == removed_after(
            old(cfg)@.power_levels,
            power_level_views(old(removed)@),
            target as nat,
        ),
{
    let ghost there = cfg.power_levels@;
    let ghost gone = removed@;
    let ghost views = power_level_views(there);
    let ghost gone_views = power_level_views(gone);
    keep_or_put_back(&mut cfg.power_levels, target, removed);
    let ghost kept = cfg.power_levels@;
    proof {
        lemma_kept_or_back(views, gone_views, target as nat);
        assert(power_level_views(kept) =~= kept_or_back(views, gone_views, target as nat));
        assert(power_level_views(removed@) =~= removed_after(views, gone_views, target as nat));
    }
    let ghost want = resized_power_levels(views, gone_views, target as nat);
    let mut i: usize = 0;
    while i < cfg.power_levels.len()
        invariant
            target <= 255,
            cfg.power_levels@.len() == kept.len() <= target,
            i <= kept.len(),
            cfg.channels == old(cfg).channels,
            cfg.bands == old(cfg).bands,
            forall|k: int|
                0 <= k < i ==> (#[trigger] cfg.power_levels@[k])@ == (VtxPowerLevelView {
                    index: (k + 1) as u8,
                    ..kept[k]@
                }),
            forall|k: int| i <= k < kept.len() ==> #[trigger] cfg.power_levels@[k] == kept[k],
        decreases kept.len() - i,
    {
        cfg.power_levels[i].index = (i + 1) as u8;
        i = i + 1;
    }
    proof {
        assert forall|k: int| 0 <= k < cfg.power_levels@.len() implies (#[trigger] cfg.power_levels@[k])@
            == want[k] by {
            assert(power_level_views(kept)[k] == kept[k]@);
            assert(refilled(views, gone_views, k) == Some(kept[k]@));
        }
    }
    while cfg.power_levels.len() < target
        invariant
            target <= 255,
            kept.len() <= cfg.power_levels@.len() <= target,
            cfg.channels == old(cfg).channels,
            cfg.bands == old(cfg).bands,
            want == resized_power_levels(views, gone_views, target as nat),
            forall|k: int|
                kept.len() <= k < target ==> #[trigger] refilled(views, gone_views, k) is None,
            forall|k: int| 0 <= k < cfg.power_levels@.len() ==> (#[trigger] cfg.power_levels@[k])@ == want[k],
        decreases target - cfg.power_levels@.len(),
    {
        let n: usize = cfg.power_levels.len();
        assert(refilled(views, gone_views, n as int) is None);
        cfg.power_levels.push(added_power_level((n + 1) as u8));
    }
    assert(cfg@.power_levels =~= want);
}

/// Gives all bands the same number of channels.
pub fn set_channels(cfg: &mut VtxTableConfig, channels: u8)
    ensures
        final(cfg)@.channels == channels,
        final(cfg)@.power_levels == old(cfg)@.power_levels,
        final(cfg)@.bands == old(cfg)@.bands.map_values(
            |b: VtxBandView| VtxBandView { channel_count: channels, ..b },
        ),
{
    let ghost there = cfg.bands@;
    cfg.channels = channels;
    let mut i: usize = 0;
    while i < cfg.bands.len()
        invariant
            cfg.bands@.len() == there.len(),
            i <= there.len(),
            cfg.channels == channels,
            cfg.power_levels == old(cfg).power_levels,
            forall|k: int|
                0 <= k < i ==> (#[trigger] cfg.bands@[k])@ == (VtxBandView {
                    channel_count: channels,
                    ..there[k]@
                }),
            forall|k: int| i <= k < there.len() ==> #[trigger] cfg.bands@[k] == there[k],
        decreases there.len() - i,
    {
        cfg.bands[i].channel_count = channels;
        i = i + 1;
    }
    assert(cfg@.bands =~= old(cfg)@.bands.map_values(
        |b: VtxBandView| VtxBandView { channel_count: channels, ..b },
    ));
}

/// What a page shows after something went wrong.
pub open spec fn failure_text(what: Seq<char>, error: Seq<char>) -> Seq<char> {
    what + " failed: "@ + error
}

impl VtxTablePageState {
    /// Another table took the place of the one that was edited.
    pub fn table_replaced(&mut self)
        ensures
            final(self).file_path == old(self).file_path,
            final(self).cli_text == old(self).cli_text,
            final(self).confirm_overwrite == old(self).confirm_overwrite,
            final(self).last_error is None,
            final(self).removed_bands@.len() == 0,
            final(self).removed_power_levels@.len() == 0,
    {
        self.last_error = None;
        self.removed_bands.clear();
        self.removed_power_levels.clear();
    }

    pub fn failed(&mut self, what: &str, error: &str)
        ensures
            *final(self) == (VtxTablePageState { last_error: final(self).last_error, ..*old(self) }),
            final(self).last_error matches Some(e) && e@ == failure_text(what@, error@),
    {
        let mut e = String::new();
        e.append(what);
        e.append(" failed: ");
        e.append(error);
        assert(e@ =~= failure_text(what@, error@));
        self.last_error = Some(e);
    }

    /// Replaces the table by the one that the pasted CLI text describes, and says
    /// whether it did. Where the text describes none, the page shows why.
    pub fn import(&mut self, cfg: &mut VtxTableConfig) -> (r: bool)
        ensures
            r == (cli_table(old(self).cli_text@).bands.len() > 0
                || cli_table(old(self).cli_text@).power_levels.len() > 0),
            r ==> final(cfg)@ == cli_table(old(self).cli_text@)
                && final(self).last_error is None && final(self).removed_bands@.len() == 0
                && final(self).removed_power_levels@.len() == 0,
            !r ==> *final(cfg) == *old(cfg) && *final(self) == (VtxTablePageState {
                last_error: final(self).last_error,
                ..*old(self)
            }),
            !r ==> (final(self).last_error matches Some(e) && e@ == failure_text(
                "import"@,
                "no 'vtxtable band'/'vtxtable powervalues' lines found in the pasted text"@,
            )),
            final(self).file_path == old(self).file_path,
            final(self).cli_text == old(self).cli_text,
            final(self).confirm_overwrite == old(self).confirm_overwrite,
    {
        match VtxTableConfig::parse_betaflight_cli(self.cli_text.as_str()) {
            Ok(parsed) => {
                *cfg = parsed;
                self.table_replaced();
                true
            },
            Err(e) => {
                self.failed("import", e.message());
                false
            },
        }
    }
}

proof fn lemma_grown_back<T>(there: Seq<T>, removed: Seq<T>, target: nat)
    requires
        target <= there.len(),
    ensures
        ({
            let kept = there.take(target as int);
            let gone = removed_after(there, removed, target);
            &&& forall|i: int|
                0 <= i < there.len() ==> refilled(kept, gone, i) == Some(#[trigger] there[i])
            &&& removed_after(kept, gone, there.len()) == removed
        }),
{
    let kept = there.take(target as int);
    let gone = removed_after(there, removed, target);
    assert(removed_after(kept, gone, there.len()) =~= removed);
}

/// Bands that are taken away and wanted again come back as they were, but for their
/// numbers, which follow their places.
pub proof fn law_removed_bands_come_back(
    there: Seq<VtxBandView>,
    removed: Seq<VtxBandView>,
    channels: u8,
    target: nat,
)
    requires
        target <= there.len() <= 255,
    ensures
        ({
            let fewer = resized_bands(there, removed, channels, target);
            let gone = removed_after(there, removed, target);
            let again = resized_bands(fewer, gone, channels, there.len());
            &&& again == resized_bands(there, removed, channels, there.len())
            &&& removed_after(fewer, gone, there.len()) == removed
            &&& forall|i: int|
                0 <= i < there.len() ==> #[trigger] again[i] == (VtxBandView {
                    index: (i + 1) as u8,
                    ..there[i]
                })
        }),
{
    let fewer = resized_bands(there, removed, channels, target);
    let gone = removed_after(there, removed, target);
    let again = resized_bands(fewer, gone, channels, there.len());
    lemma_grown_back(there, removed, target);
    assert(removed_after(fewer, gone, there.len()) =~= removed_after(
        there.take(target as int),
        gone,
        there.len(),
    ));
    assert forall|i: int| 0 <= i < there.len() implies #[trigger] again[i] == (VtxBandView {
        index: (i + 1) as u8,
        ..there[i]
    }) by {
        assert(refilled(there.take(target as int), gone, i) == Some(there[i]));
    }
    assert(again =~= resized_bands(there, removed, channels, there.len()));
}

/// Power levels that are taken away and wanted again come back as they were, but for
/// their numbers, which follow their places.
pub proof fn law_removed_power_levels_come_back(
    there: Seq<VtxPowerLevelView>,
    removed: Seq<VtxPowerLevelView>,
    target: nat,
)
    requires
        target <= there.len() <= 255,
    ensures
        ({
            let fewer = resized_power_levels(there, removed, target);
            let gone = removed_after(there, removed, target);
            let again = resized_power_levels(fewer, gone, there.len());
            &&& removed_after(fewer, gone, there.len()) == removed
            &&& forall|i: int|
                0 <= i < there.len() ==> #[trigger] again[i] == (VtxPowerLevelView {
                    index: (i + 1) as u8,
                    ..there[i]
                })
        }),
{
    let fewer = resized_power_levels(there, removed, target);
    let gone = removed_after(there, removed, target);
    let again = resized_power_levels(fewer, gone, there.len());
    lemma_grown_back(there, removed, target);
    assert(removed_after(fewer, gone, there.len()) =~= removed_after(
        there.take(target as int),
        gone,
        there.len(),
    ));
    assert forall|i: int| 0 <= i < there.len() implies #[trigger] again[i] == (VtxPowerLevelView {
        index: (i + 1) as u8,
        ..there[i]
    }) by {
        assert(refilled(there.take(target as int), gone, i) == Some(there[i]));
    }
}

/// A table that is given a number of bands has that many, numbered from one. Those that were
/// there stay in their places, and what there was too little of is new: named and lettered by
/// its number, with the channels of the table.
pub proof fn law_bands_keep_their_places(
    there: Seq<VtxBandView>,
    removed: Seq<VtxBandView>,
    channels: u8,
    target: nat,
    i: int,
)
    requires
        target <= 255,
        0 <= i < target,
    ensures
        ({
            let all = resized_bands(there, removed, channels, target);
            &&& all.len() == target
            &&& all[i].index == i + 1
            &&& i < there.len() ==> all[i] == (VtxBandView { index: all[i].index, ..there[i] })
            &&& i == there.len() && removed.len() > 0 ==> all[i] == (VtxBandView {
                index: all[i].index,
                ..removed.last()
            })
            &&& i >= there.len() + removed.len() ==> {
                &&& all[i].name == "BAND"@ + decimal((i + 1) as nat)
                &&& i < 26 ==> all[i].letter as int == 'A' as int + i
                &&& i >= 26 ==> all[i].letter == 'Z'
                &&& !all[i].is_factory
                &&& all[i].channel_count == channels
                &&& all[i].freqs_mhz.len() == 8
                &&& forall|c: int| 0 <= c < 8 ==> #[trigger] all[i].freqs_mhz[c] == 5800
            }
        }),
{
}

/// A table that is given a number of power levels has that many, numbered from one. Those
/// that were there stay in their places, and what there was too little of is new, of 25 mW.
pub proof fn law_power_levels_keep_their_places(
    there: Seq<VtxPowerLevelView>,
    removed: Seq<VtxPowerLevelView>,
    target: nat,
    i: int,
)
    requires
        target <= 255,
        0 <= i < target,
    ensures
        ({
            let all = resized_power_levels(there, removed, target);
            &&& all.len() == target
            &&& all[i].index == i + 1
            &&& i < there.len() ==> all[i] == (VtxPowerLevelView {
                index: all[i].index,
                ..there[i]
            })
            &&& i == there.len() && removed.len() > 0 ==> all[i] == (VtxPowerLevelView {
                index: all[i].index,
                ..removed.last()
            })
            &&& i >= there.len() + removed.len() ==> all[i].m_w == 25 && all[i].label == decimal(25)
        }),
{
    reveal_strlit("25");
    reveal_with_fuel(decimal, 3);
    assert("25"@ =~= decimal(25));
}

/// Whatever the number, nothing is lost: what is there and what was taken away are together
/// what they were, the last taken away being the first to come back.
pub proof fn law_nothing_is_lost<T>(there: Seq<T>, removed: Seq<T>, target: nat)
    requires
        target <= there.len() + removed.len(),
    ensures
        ({
            let now = kept_or_back(there, removed, target);
            let gone = removed_after(there, removed, target);
            &&& now.len() == target
            &&& now + gone.reverse() == there + removed.reverse()
        }),
{
    let now = kept_or_back(there, removed, target);
    let gone = removed_after(there, removed, target);
    assert(now + gone.reverse() =~= there + removed.reverse());
}

} // verus!
