//! The calibration page: its table, its buttons and what it says.

use std::collections::HashMap;
use vstd::prelude::*;
#[allow(unused_imports)]
use vstd::string::*;

use crate::calibration_engine::cells::{CellStatus, CellTable};
use crate::calibration_engine::types::{
    ConnectionLossReason,
    CurrentStep,
    LevelStatus,
    LevelStatusView,
};
use crate::clock::{after, moment_after};
use crate::conn_status::{rgb, Rgb};
use crate::msp::{PaCalibration, PaCalibrationView};
use crate::power_meter::{nearest, nearest_band, CapabilityView, FrequencyCapability};
use crate::text::{
    decimal,
    decimal_text,
    law_decimal_reads_back,
    parse_unsigned,
    push_decimal,
    push_signed,
    signed_decimal,
};

verus! {

broadcast use vstd::std_specs::hash::group_hash_axioms;

/// Clicks on "skip" that come within this time of each other count together.
pub const SKIP_DEBOUNCE: u64 = 500_000_000;

pub open spec fn level_status_text(status: Option<LevelStatusView>) -> Seq<char> {
    match status {
        None => "Not calibrated"@,
        Some(LevelStatusView::NotCalibrated) => "Not calibrated"@,
        Some(LevelStatusView::Pending) => "Pending"@,
        Some(LevelStatusView::InProgress(s)) => s,
        Some(LevelStatusView::Done) => "Done"@,
        Some(LevelStatusView::Aborted) => "Aborted"@,
        Some(LevelStatusView::Skipped) => "Skipped"@,
        Some(LevelStatusView::PaFailure) => "PA Failure"@,
        Some(LevelStatusView::NotSettled) => "Not Settled"@,
    }
}

/// The view of a status, where there is one.
pub open spec fn status_view(status: Option<&LevelStatus>) -> Option<LevelStatusView> {
    match status {
        Some(s) => Some(s@),
        None => None,
    }
}

pub fn status_text(status: Option<&LevelStatus>) -> (r: String)
    ensures
        r@ == level_status_text(status_view(status)),
{
    match status {
        None => "Not calibrated".to_string(),
        Some(LevelStatus::NotCalibrated) => "Not calibrated".to_string(),
        Some(LevelStatus::Pending) => "Pending".to_string(),
        Some(LevelStatus::InProgress(s)) => s.clone(),
        Some(LevelStatus::Done) => "Done".to_string(),
        Some(LevelStatus::Aborted) => "Aborted".to_string(),
        Some(LevelStatus::Skipped) => "Skipped".to_string(),
        Some(LevelStatus::PaFailure) => "PA Failure".to_string(),
        Some(LevelStatus::NotSettled) => "Not Settled".to_string(),
    }
}

pub open spec fn spec_cell_color(status: CellStatus) -> Option<Rgb> {
    match status {
        CellStatus::Default => None,
        CellStatus::Calibrated => Some(rgb(45, 85, 55)),
        CellStatus::Current => Some(rgb(45, 70, 100)),
        CellStatus::LimitHit => Some(rgb(100, 45, 45)),
        CellStatus::Uncalibrated => Some(rgb(100, 78, 40)),
        CellStatus::Skipped => Some(rgb(70, 70, 75)),
        CellStatus::PaFailure => Some(rgb(165, 80, 15)),
        CellStatus::NotSettled => Some(rgb(140, 100, 20)),
        CellStatus::Manual => Some(rgb(80, 55, 100)),
    }
}

pub fn cell_color(status: CellStatus) -> (c: Option<Rgb>)
    ensures
        c == spec_cell_color(status),
{
    match status {
        CellStatus::Default => None,
        CellStatus::Calibrated => Some(Rgb { r: 45, g: 85, b: 55 }),
        CellStatus::Current => Some(Rgb { r: 45, g: 70, b: 100 }),
        CellStatus::LimitHit => Some(Rgb { r: 100, g: 45, b: 45 }),
        CellStatus::Uncalibrated => Some(Rgb { r: 100, g: 78, b: 40 }),
        CellStatus::Skipped => Some(Rgb { r: 70, g: 70, b: 75 }),
        CellStatus::PaFailure => Some(Rgb { r: 165, g: 80, b: 15 }),
        CellStatus::NotSettled => Some(Rgb { r: 140, g: 100, b: 20 }),
        CellStatus::Manual => Some(Rgb { r: 80, g: 55, b: 100 }),
    }
}

/// The heading of a column: seven columns for the bias at each frequency, seven for
/// the detector, and what stands around them.
pub open spec fn heading(frequencies: Seq<u16>, col: nat) -> Seq<char> {
    if col == 1 {
        "idx"@
    } else if col == 2 {
        "mW"@
    } else if 3 <= col <= 9 {
        decimal(frequencies[col - 3] as nat)
    } else if 10 <= col <= 16 {
        decimal(frequencies[col - 10] as nat)
    } else if col == 17 {
        "Boost"@
    } else if col == 18 {
        "RTC6705"@
    } else if col == 19 {
        "Limit (mV)"@
    } else if col == 20 {
        "Status"@
    } else {
        ""@
    }
}

pub fn column_label(frequencies: &[u16; 7], col: usize) -> (r: String)
    ensures
        r@ == heading(frequencies@, col as nat),
{
    if col == 1 {
        "idx".to_string()
    } else if col == 2 {
        "mW".to_string()
    } else if 3 <= col && col <= 9 {
        decimal_text(frequencies[col - 3] as u64)
    } else if 10 <= col && col <= 16 {
        decimal_text(frequencies[col - 10] as u64)
    } else if col == 17 {
        "Boost".to_string()
    } else if col == 18 {
        "RTC6705".to_string()
    } else if col == 19 {
        "Limit (mV)".to_string()
    } else if col == 20 {
        "Status".to_string()
    } else {
        "".to_string()
    }
}

/// What the table says of a cell.
pub open spec fn cell_or_default(cells: Map<(u8, usize), CellStatus>, key: (u8, usize)) -> CellStatus {
    if cells.contains_key(key) {
        cells[key]
    } else {
        CellStatus::Default
    }
}

/// The statuses of the seven cells of a level.
pub fn row_cells(cells: &CellTable, level: u8) -> (r: [CellStatus; 7])
    ensures
        forall|i: int|
            0 <= i < 7 ==> #[trigger] r@[i] == cell_or_default(cells@, (level, i as usize)),
{
    let mut r: [CellStatus; 7] = [CellStatus::Default;7];
    let mut i: usize = 0;
    while i < 7
        invariant
            i <= 7,
            forall|k: int|
                0 <= k < i ==> #[trigger] r@[k] == cell_or_default(cells@, (level, k as usize)),
        decreases 7 - i,
    {
        r[i] = match cells.get(level, i) {
            Some(s) => s,
            None => CellStatus::Default,
        };
        i = i + 1;
    }
    r
}

/// A value of the point that is under way, where this cell is that point.
pub open spec fn value_under_way(
    current: Option<CurrentStep>,
    level: u8,
    freq_idx: usize,
    of_detector: bool,
) -> Option<i32> {
    match current {
        Some(cs) => if cs.level == level && cs.freq_idx == freq_idx {
            if of_detector {
                cs.detector_mv
            } else {
                cs.vbias_mv
            }
        } else {
            None
        },
        None => None,
    }
}

/// What a cell of the table shows. The first column, which holds a check box, and
/// columns that do not exist show nothing.
pub open spec fn spec_cell_text(
    entry: PaCalibrationView,
    col: nat,
    current: Option<CurrentStep>,
    limit: Option<i32>,
    status: Option<LevelStatusView>,
) -> Seq<char> {
    if col == 1 {
        decimal(entry.idx as nat)
    } else if col == 2 {
        decimal(entry.m_w as nat)
    } else if 3 <= col <= 9 {
        match value_under_way(current, entry.idx, (col - 3) as usize, false) {
            Some(v) => signed_decimal(v as int),
            None => decimal(entry.value[col - 3] as nat),
        }
    } else if 10 <= col <= 16 {
        match value_under_way(current, entry.idx, (col - 10) as usize, true) {
            Some(v) => signed_decimal(v as int),
            None => decimal(entry.detector[col - 10] as nat),
        }
    } else if col == 17 {
        if entry.ext_pa_enable {
            "Yes"@
        } else {
            "No"@
        }
    } else if col == 18 {
        decimal(entry.rtc6705_level as nat)
    } else if col == 19 {
        match limit {
            Some(v) => signed_decimal(v as int),
            None => "-"@,
        }
    } else if col == 20 {
        level_status_text(status)
    } else {
        ""@
    }
}

fn signed_text(n: i32) -> (r: String)
    ensures
        r@ == signed_decimal(n as int),
{
    let mut r = String::new();
    push_signed(&mut r, n);
    assert(r@ =~= signed_decimal(n as int));
    r
}

fn under_way(current: &Option<CurrentStep>, level: u8, freq_idx: usize, of_detector: bool) -> (r:
    Option<i32>)
    ensures
        r == value_under_way(*current, level, freq_idx, of_detector),
{
    match current {
        Some(cs) => if cs.level == level && cs.freq_idx == freq_idx {
            if of_detector {
                cs.detector_mv
            } else {
                cs.vbias_mv
            }
        } else {
            None
        },
        None => None,
    }
}

pub fn cell_text(
    entry: &PaCalibration,
    col: usize,
    current: &Option<CurrentStep>,
    limit: Option<i32>,
    status: Option<&LevelStatus>,
) -> (r: String)
    ensures
        r@ == spec_cell_text(entry@, col as nat, *current, limit, status_view(status)),
{
    if col == 1 {
        decimal_text(entry.idx as u64)
    } else if col == 2 {
        decimal_text(entry.m_w as u64)
    } else if 3 <= col && col <= 9 {
        match under_way(current, entry.idx, col - 3, false) {
            Some(v) => signed_text(v),
            None => decimal_text(entry.value[col - 3] as u64),
        }
    } else if 10 <= col && col <= 16 {
        match under_way(current, entry.idx, col - 10, true) {
            Some(v) => signed_text(v),
            None => decimal_text(entry.detector[col - 10] as u64),
        }
    } else if col == 17 {
        if entry.ext_pa_enable {
            "Yes".to_string()
        } else {
            "No".to_string()
        }
    } else if col == 18 {
        decimal_text(entry.rtc6705_level as u64)
    } else if col == 19 {
        match limit {
            Some(v) => signed_text(v),
            None => "-".to_string(),
        }
    } else if col == 20 {
        status_text(status)
    } else {
        "".to_string()
    }
}

/// Which buttons can be pressed, and whether the page says what is missing.
#[derive(Clone, Copy, Debug, PartialEq, Eq, Structural)]
pub struct Controls {
    pub automatic: bool,
    pub manual: bool,
    pub stop: bool,
    pub skip: bool,
    pub save: bool,
    pub send_table: bool,
    pub erase: bool,
    pub not_ready_hint: bool,
}

/// What the page knows when it is drawn.
#[derive(Clone, Copy, Debug, PartialEq, Eq, Structural)]
pub struct PageSituation {
    pub automatic_mode: bool,
    pub manual_mode: bool,
    pub sweep_active: bool,
    pub overall_ready: bool,
    pub any_checked: bool,
}

pub fn controls(s: PageSituation) -> (r: Controls)
    ensures
        r.automatic == (!s.automatic_mode && s.overall_ready && (s.manual_mode || s.any_checked)),
        r.manual == (!s.automatic_mode && !s.manual_mode && s.overall_ready && s.any_checked),
        r.stop == s.sweep_active,
        r.skip == s.sweep_active,
        r.save == s.manual_mode,
        r.send_table == !s.sweep_active,
        r.erase == !s.sweep_active,
        r.not_ready_hint == (s.any_checked && !s.overall_ready),
{
    Controls {
        automatic: !s.automatic_mode && s.overall_ready && (s.manual_mode || s.any_checked),
        manual: !s.automatic_mode && !s.manual_mode && s.overall_ready && s.any_checked,
        stop: s.sweep_active,
        skip: s.sweep_active,
        save: s.manual_mode,
        send_table: !s.sweep_active,
        erase: !s.sweep_active,
        not_ready_hint: s.any_checked && !s.overall_ready,
    }
}

/// What is done about the clicks on "skip".
#[derive(Clone, Copy, Debug, PartialEq, Eq, Structural)]
pub enum SkipTimer {
    /// There were none.
    Off,
    /// More may come, for this long.
    Waiting(u64),
    /// So many points are to be skipped.
    Due(u32),
}

pub struct CalibrationPageState {
    pub checked: HashMap<u8, bool>,
    pub show_confirm_dialog: bool,
    pub show_erase_confirm_dialog: bool,
    pub fine_step: bool,
    pub plot_reset_requested: bool,
    pub pending_skip_count: u32,
    pub skip_debounce_until: Option<u64>,
}

impl Default for CalibrationPageState {
    fn default() -> (r: Self)
        ensures
            r.checked@ == Map::<u8, bool>::empty(),
            !r.show_confirm_dialog,
            !r.show_erase_confirm_dialog,
            !r.fine_step,
            !r.plot_reset_requested,
            r.pending_skip_count == 0,
            r.skip_debounce_until is None,
    {
        CalibrationPageState {
            checked: HashMap::new(),
            show_confirm_dialog: false,
            show_erase_confirm_dialog: false,
            fine_step: false,
            plot_reset_requested: false,
            pending_skip_count: 0,
            skip_debounce_until: None,
        }
    }
}

pub open spec fn is_checked(checked: Map<u8, bool>, level: u8) -> bool {
    checked.contains_key(level) && checked[level]
}

/// The checked levels below `n`, in ascending order.
pub open spec fn checked_below(checked: Map<u8, bool>, n: nat) -> Seq<u8>
    decreases n,
{
    if n == 0 {
        seq![]
    } else {
        let before = checked_below(checked, (n - 1) as nat);
        if is_checked(checked, (n - 1) as u8) {
            before.push((n - 1) as u8)
        } else {
            before
        }
    }
}

impl CalibrationPageState {
    /// Whether a level is checked. One that was never touched is where its amplifier
    /// is enabled.
    pub fn is_level_checked(&mut self, level: u8, ext_pa_enable: bool) -> (r: bool)
        ensures
            final(self).checked@ == (if old(self).checked@.contains_key(level) {
                old(self).checked@
            } else {
                old(self).checked@.insert(level, ext_pa_enable)
            }),
            r == final(self).checked@[level],
            *final(self) == (CalibrationPageState { checked: final(self).checked, ..*old(self) }),
    {
        match self.checked.get(&level) {
            Some(v) => *v,
            None => {
                self.checked.insert(level, ext_pa_enable);
                ext_pa_enable
            },
        }
    }

    pub fn set_checked(&mut self, level: u8, checked: bool)
        ensures
            final(self).checked@ == old(self).checked@.insert(level, checked),
            *final(self) == (CalibrationPageState { checked: final(self).checked, ..*old(self) }),
    {
        self.checked.insert(level, checked);
    }

    /// The levels that are checked, in ascending order.
    pub fn checked_levels(&self) -> (r: Vec<u8>)
        ensures
            r@ == checked_below(self.checked@, 256),
    {
        let mut r: Vec<u8> = Vec::new();
        let mut n: u16 = 0;
        while n < 256
            invariant
                n <= 256,
                r@ == checked_below(self.checked@, n as nat),
            decreases 256 - n,
        {
            let level = n as u8;
            if let Some(v) = self.checked.get(&level) {
                if *v {
                    r.push(level);
                }
            }
            n = n + 1;
        }
        r
    }

    pub fn any_checked(&self) -> (r: bool)
        ensures
            r <==> exists|l: u8| is_checked(self.checked@, l),
    {
        let levels = self.checked_levels();
        proof {
            if levels@.len() > 0 {
                law_checked_levels_are_all_that_are_checked(self.checked@, levels@[0]);
                assert(levels@.contains(levels@[0]));
            }
            assert forall|l: u8| is_checked(self.checked@, l) implies levels@.len() > 0 by {
                law_checked_levels_are_all_that_are_checked(self.checked@, l);
            }
        }
        levels.len() > 0
    }

    /// The user asks for an automatic calibration. It starts at once from manual mode,
    /// and else when the user has confirmed it.
    pub fn automatic_clicked(&mut self, manual_mode: bool) -> (start: bool)
        ensures
            start == manual_mode,
            *final(self) == (CalibrationPageState {
                show_confirm_dialog: !manual_mode || old(self).show_confirm_dialog,
                ..*old(self)
            }),
    {
        if !manual_mode {
            self.show_confirm_dialog = true;
        }
        manual_mode
    }

    pub fn skip_clicked(&mut self, now: u64)
        ensures
            *final(self) == (CalibrationPageState {
                pending_skip_count: old(self).pending_skip_count.wrapping_add(1),
                skip_debounce_until: Some(after(now, SKIP_DEBOUNCE)),
                ..*old(self)
            }),
    {
        self.pending_skip_count = self.pending_skip_count.wrapping_add(1);
        self.skip_debounce_until = Some(moment_after(now, SKIP_DEBOUNCE));
    }

    /// Whether the clicks on "skip" are to be acted upon now.
    pub fn skip_timer(&mut self, now: u64) -> (r: SkipTimer)
        ensures
            match old(self).skip_debounce_until {
                None => r is Off && *final(self) == *old(self),
                Some(until) => if now < until {
                    r == SkipTimer::Waiting((until - now) as u64) && *final(self) == *old(self)
                } else {
                    r == (if old(self).pending_skip_count > 0 {
                        SkipTimer::Due(old(self).pending_skip_count)
                    } else {
                        SkipTimer::Off
                    }) && *final(self) == (CalibrationPageState {
                        pending_skip_count: 0,
                        skip_debounce_until: None,
                        ..*old(self)
                    })
                },
            },
    {
        match self.skip_debounce_until {
            None => SkipTimer::Off,
            Some(until) => {
                if now < until {
                    return SkipTimer::Waiting(until - now);
                }
                let count = self.pending_skip_count;
                self.pending_skip_count = 0;
                self.skip_debounce_until = None;
                if count > 0 {
                    SkipTimer::Due(count)
                } else {
                    SkipTimer::Off
                }
            },
        }
    }
}

proof fn lemma_checked_below(checked: Map<u8, bool>, n: nat, level: u8)
    requires
        n <= 256,
    ensures
        checked_below(checked, n).contains(level) <==> level < n && is_checked(checked, level),
        forall|i: int|
            0 <= i < checked_below(checked, n).len() ==> (#[trigger] checked_below(checked, n)[i])
                < n,
        forall|i: int, j: int|
            0 <= i < j < checked_below(checked, n).len() ==> checked_below(checked, n)[i]
                < checked_below(checked, n)[j],
    decreases n,
{
    if n > 0 {
        lemma_checked_below(checked, (n - 1) as nat, level);
        let before = checked_below(checked, (n - 1) as nat);
        let now = checked_below(checked, n);
        if is_checked(checked, (n - 1) as u8) {
            assert(now == before.push((n - 1) as u8));
            assert(now[before.len() as int] == n - 1);
            if before.contains(level) {
                let k = choose|k: int| 0 <= k < before.len() && before[k] == level;
                assert(now[k] == level);
            }
            if level == n - 1 {
                assert(now.contains(level));
            }
            if now.contains(level) && level != n - 1 {
                let k = choose|k: int| 0 <= k < now.len() && now[k] == level;
                assert(before[k] == level);
            }
        }
    }
}

/// The checked levels are listed once each, in ascending order, and no others are.
pub proof fn law_checked_levels_are_all_that_are_checked(checked: Map<u8, bool>, level: u8)
    ensures
        checked_below(checked, 256).contains(level) <==> is_checked(checked, level),
        forall|i: int, j: int|
            0 <= i < j < checked_below(checked, 256).len() ==> checked_below(checked, 256)[i]
                < checked_below(checked, 256)[j],
{
    lemma_checked_below(checked, 256, level);
}

/// The frequency that the user is asked to set a meter to: the nearest band of a meter
/// that has bands, or else the frequency itself.
pub fn prompt_mhz(capability: &FrequencyCapability, freq_mhz: u16) -> (r: u32)
    ensures
        r == (match capability@ {
            CapabilityView::ManualBand { bands_mhz } => nearest(bands_mhz, freq_mhz as u32),
            _ => freq_mhz as u32,
        }),
{
    match capability {
        FrequencyCapability::ManualBand { bands_mhz } => nearest_band(
            bands_mhz.as_slice(),
            freq_mhz as u32,
        ),
        _ => freq_mhz as u32,
    }
}

pub fn prompt_text(prompt_mhz: u32) -> (r: String)
    ensures
        r@ == "Set your power meter to "@ + decimal(prompt_mhz as nat) + " MHz, then continue."@,
{
    let mut r = String::new();
    r.append("Set your power meter to ");
    push_decimal(&mut r, prompt_mhz as u64);
    r.append(" MHz, then continue.");
    assert(r@ =~= "Set your power meter to "@ + decimal(prompt_mhz as nat)
        + " MHz, then continue."@);
    r
}

pub open spec fn cause_text(reason: ConnectionLossReason) -> Seq<char> {
    match reason {
        ConnectionLossReason::Vtx => "the VTX"@,
        ConnectionLossReason::Meter => "the power meter"@,
        ConnectionLossReason::Both => "the VTX and the power meter"@,
    }
}

fn cause(reason: ConnectionLossReason) -> (r: &'static str)
    ensures
        r@ == cause_text(reason),
{
    match reason {
        ConnectionLossReason::Vtx => "the VTX",
        ConnectionLossReason::Meter => "the power meter",
        ConnectionLossReason::Both => "the VTX and the power meter",
    }
}

pub open spec fn connection_lost_words(
    level: u8,
    freq_mhz: u16,
    vbias_mv_at_loss: i32,
    reason: ConnectionLossReason,
) -> Seq<char> {
    "Lost communication with "@ + cause_text(reason) + " while calibrating level "@ + decimal(
        level as nat,
    ) + " at "@ + decimal(freq_mhz as nat) + "MHz (vbias_mv="@ + signed_decimal(
        vbias_mv_at_loss as int,
    ) + "). If the VTX is on a current-limited supply, it may have powered off."@
}

pub fn connection_lost_text(
    level: u8,
    freq_mhz: u16,
    vbias_mv_at_loss: i32,
    reason: ConnectionLossReason,
) -> (r: String)
    ensures
        r@ == connection_lost_words(level, freq_mhz, vbias_mv_at_loss, reason),
{
    let mut r = String::new();
    r.append("Lost communication with ");
    r.append(cause(reason));
    r.append(" while calibrating level ");
    push_decimal(&mut r, level as u64);
    r.append(" at ");
    push_decimal(&mut r, freq_mhz as u64);
    r.append("MHz (vbias_mv=");
    push_signed(&mut r, vbias_mv_at_loss);
    r.append("). If the VTX is on a current-limited supply, it may have powered off.");
    assert(r@ =~= connection_lost_words(level, freq_mhz, vbias_mv_at_loss, reason));
    r
}

/// A number that may be missing, for display.
pub fn number_or_none(n: Option<i32>) -> (r: String)
    ensures
        r@ == (match n {
            Some(v) => signed_decimal(v as int),
            None => "None"@,
        }),
{
    match n {
        Some(v) => signed_text(v),
        None => "None".to_string(),
    }
}

/// A cell shows what the entry holds, each column its own part; while the point of a cell is
/// under way, it shows how far that is.
pub proof fn law_a_cell_shows_its_value(
    entry: PaCalibrationView,
    i: int,
    current: Option<CurrentStep>,
    limit: Option<i32>,
    status: Option<LevelStatusView>,
)
    requires
        0 <= i < 7,
        entry.value.len() == 7,
        entry.detector.len() == 7,
    ensures
        ({
            let text = |col: int| spec_cell_text(entry, col as nat, current, limit, status);
            let here = current matches Some(cs) && cs.level == entry.idx && cs.freq_idx == i;
            &&& parse_unsigned(text(1), 255) == Some(entry.idx as nat)
            &&& parse_unsigned(text(2), 65535) == Some(entry.m_w as nat)
            &&& parse_unsigned(text(18), 255) == Some(entry.rtc6705_level as nat)
            &&& if here && current->0.vbias_mv is Some {
                text(3 + i) == signed_decimal(current->0.vbias_mv->0 as int)
            } else {
                parse_unsigned(text(3 + i), 65535) == Some(entry.value[i] as nat)
            }
            &&& if here && current->0.detector_mv is Some {
                text(10 + i) == signed_decimal(current->0.detector_mv->0 as int)
            } else {
                parse_unsigned(text(10 + i), 65535) == Some(entry.detector[i] as nat)
            }
            &&& text(17) == "Yes"@ <==> entry.ext_pa_enable
            &&& text(17) == "No"@ <==> !entry.ext_pa_enable
            &&& text(19) == match limit {
                Some(mv) => signed_decimal(mv as int),
                None => "-"@,
            }
            &&& text(20) == level_status_text(status)
        }),
{
    law_decimal_reads_back(entry.idx as nat, 255);
    law_decimal_reads_back(entry.m_w as nat, 65535);
    law_decimal_reads_back(entry.rtc6705_level as nat, 255);
    law_decimal_reads_back(entry.value[i] as nat, 65535);
    law_decimal_reads_back(entry.detector[i] as nat, 65535);
    reveal_strlit("Yes");
    reveal_strlit("No");
    assert("Yes"@.len() == 3 && "No"@.len() == 2);
}

/// Each frequency heads two columns: that of its bias and that of its detector voltage.
pub proof fn law_a_frequency_heads_its_columns(frequencies: Seq<u16>, i: int)
    requires
        0 <= i < 7,
        frequencies.len() >= 7,
    ensures
        parse_unsigned(heading(frequencies, (3 + i) as nat), 65535) == Some(frequencies[i] as nat),
        parse_unsigned(heading(frequencies, (10 + i) as nat), 65535) == Some(frequencies[i] as nat),
{
    law_decimal_reads_back(frequencies[i] as nat, 65535);
}

/// What has become of a level is told apart by its words, and what has become of a point by
/// its colour.
pub proof fn law_what_became_of_a_point_is_told_apart(
    a: LevelStatusView,
    b: LevelStatusView,
    c: CellStatus,
    d: CellStatus,
)
    requires
        !(a is InProgress),
        !(b is InProgress),
    ensures
        level_status_text(Some(a)) == level_status_text(Some(b)) ==> a == b,
        level_status_text(None) == level_status_text(Some(LevelStatusView::NotCalibrated)),
        spec_cell_color(c) == spec_cell_color(d) ==> c == d,
        spec_cell_color(c) is None <==> c is Default,
{
    reveal_strlit("Not calibrated");
    reveal_strlit("Pending");
    reveal_strlit("Done");
    reveal_strlit("Aborted");
    reveal_strlit("Skipped");
    reveal_strlit("PA Failure");
    reveal_strlit("Not Settled");
    assert("Not calibrated"@.len() == 14 && "Done"@.len() == 4);
    assert("PA Failure"@.len() == 10 && "Not Settled"@.len() == 11);
    assert("Pending"@.len() == 7 && "Aborted"@.len() == 7 && "Skipped"@.len() == 7);
    assert("Pending"@[0] == 'P' && "Aborted"@[0] == 'A' && "Skipped"@[0] == 'S');
}

/// Who fell silent is named.
pub proof fn law_causes_are_told_apart(a: ConnectionLossReason, b: ConnectionLossReason)
    ensures
        cause_text(a) == cause_text(b) ==> a == b,
{
    reveal_strlit("the VTX");
    reveal_strlit("the power meter");
    reveal_strlit("the VTX and the power meter");
    assert("the VTX"@.len() == 7 && "the power meter"@.len() == 15);
    assert("the VTX and the power meter"@.len() == 27);
}

} // verus!
