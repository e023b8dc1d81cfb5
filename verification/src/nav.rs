//! The panel at the side: pages, connections, the selected frequency and the status of
//! the VTX.

use vstd::prelude::*;
#[allow(unused_imports)]
use vstd::string::*;

use crate::conn_status::{OverallState, PortState};
use crate::msp::{VtxBand, VtxBandView, VtxPowerLevelView};
use crate::state::VtxStatus;
use crate::text::{
    decimal,
    decimal_text,
    law_decimal_reads_back,
    parse_unsigned,
    push_decimal,
};
use crate::vtxtable::{
    band_views,
    band_with_index,
    power_level_views,
    VtxSelectionState,
    VtxTableConfig,
};

verus! {

#[derive(Clone, Copy, Debug, PartialEq, Eq, Structural)]
pub enum Page {
    Home,
    VtxTable,
    Calibration,
}

impl Page {
    pub fn title(self) -> (r: &'static str)
        ensures
            r@ == (match self {
                Page::Home => "Home"@,
                Page::VtxTable => "VTX Table"@,
                Page::Calibration => "Calibration"@,
            }),
    {
        match self {
            Page::Home => "Home",
            Page::VtxTable => "VTX Table",
            Page::Calibration => "Calibration",
        }
    }
}

/// What a button for a port does.
#[derive(Clone, Copy, Debug, PartialEq, Eq, Structural)]
pub enum PortAction {
    Connect,
    Disconnect,
    Nothing,
}

/// A port that is ready is disconnected; one that is not in use is connected.
pub open spec fn spec_port_action(state: PortState) -> PortAction {
    match state {
        PortState::Ready => PortAction::Disconnect,
        PortState::Disconnected => PortAction::Connect,
        _ => PortAction::Nothing,
    }
}

pub fn port_action(state: PortState) -> (r: PortAction)
    ensures
        r == spec_port_action(state),
{
    if state.is_ready() {
        PortAction::Disconnect
    } else if state.is_idle() {
        PortAction::Connect
    } else {
        PortAction::Nothing
    }
}

pub fn port_button_label(state: PortState) -> (r: &'static str)
    ensures
        r@ == (if state is Ready {
            "Disconnect"@
        } else {
            "Connect"@
        }),
{
    if state.is_ready() {
        "Disconnect"
    } else {
        "Connect"
    }
}

pub fn all_ports_button_label(overall: OverallState) -> (r: &'static str)
    ensures
        r@ == (if overall is Ready {
            "Disconnect-all"@
        } else {
            "Connect-all"@
        }),
{
    match overall {
        OverallState::Ready => "Disconnect-all",
        OverallState::NotReady => "Connect-all",
    }
}

/// What the button for both ports does to each: where both are ready, it disconnects
/// them; else it connects those that are not in use.
pub fn all_ports_action(vtx: PortState, meter: PortState) -> (r: (PortAction, PortAction))
    ensures
        r == (if vtx is Ready && meter is Ready {
            (PortAction::Disconnect, PortAction::Disconnect)
        } else {
            (
                if vtx is Disconnected {
                    PortAction::Connect
                } else {
                    PortAction::Nothing
                },
                if meter is Disconnected {
                    PortAction::Connect
                } else {
                    PortAction::Nothing
                },
            )
        }),
{
    match OverallState::from_ports(vtx, meter) {
        OverallState::Ready => (PortAction::Disconnect, PortAction::Disconnect),
        OverallState::NotReady => (
            if vtx.is_idle() {
                PortAction::Connect
            } else {
                PortAction::Nothing
            },
            if meter.is_idle() {
                PortAction::Connect
            } else {
                PortAction::Nothing
            },
        ),
    }
}

/// The lowest frequency that can be entered.
pub const MIN_FREQ_KHZ: u32 = 5_600_000;

/// The highest frequency that can be entered.
pub const MAX_FREQ_KHZ: u32 = 6_000_000;

impl VtxSelectionState {
    /// Whether a frequency is selected by itself, not by a band and a channel.
    pub fn is_manual(&self) -> (r: bool)
        ensures
            r == (self.selected_band == 0),
    {
        self.selected_band == 0
    }

    /// Selects by frequency, or by band and channel: the first band where none was.
    pub fn set_manual(&mut self, manual: bool)
        ensures
            *final(self) == (VtxSelectionState {
                selected_band: if manual {
                    0
                } else if old(self).selected_band == 0 {
                    1
                } else {
                    old(self).selected_band
                },
                ..*old(self)
            }),
    {
        if manual {
            self.selected_band = 0;
        } else if self.selected_band == 0 {
            self.selected_band = 1;
        }
    }

    /// Selects a frequency that was entered in kilohertz.
    pub fn set_frequency_khz(&mut self, freq_khz: u32)
        ensures
            *final(self) == (VtxSelectionState {
                selected_freq_mhz: (freq_khz / 1000 % 0x1_0000) as u16,
                ..*old(self)
            }),
    {
        self.selected_freq_mhz = (freq_khz / 1000 % 0x1_0000) as u16;
    }
}

/// A band by its name and its letter.
pub open spec fn band_text(b: VtxBandView) -> Seq<char> {
    b.name + " ("@ + seq![b.letter] + ")"@
}

pub fn band_label(b: &VtxBand) -> (r: String)
    ensures
        r@ == band_text(b@),
{
    let mut r = String::new();
    r.append(b.name.as_str());
    r.append(" (");
    r.push(b.letter);
    r.append(")");
    assert(r@ =~= band_text(b@));
    r
}

/// The place of the first band with this index, or the number of bands.
pub fn find_band(table: &VtxTableConfig, index: u8) -> (r: usize)
    ensures
        r <= table.bands@.len(),
        r < table.bands@.len() ==> band_with_index(table@.bands, index) == Some(
            table.bands@[r as int]@,
        ),
        r == table.bands@.len() ==> band_with_index(table@.bands, index) is None,
{
    let ghost views = band_views(table.bands@);
    let mut i: usize = 0;
    assert(views.skip(0) =~= views);
    while i < table.bands.len()
        invariant
            i <= table.bands@.len(),
            views == band_views(table.bands@),
            band_with_index(views.skip(i as int), index) == band_with_index(views, index),
        decreases table.bands@.len() - i,
    {
        assert(views.skip(i as int)[0] == table.bands@[i as int]@);
        assert(views.skip(i as int).skip(1) =~= views.skip(i + 1));
        if table.bands[i].index == index {
            return i;
        }
        i = i + 1;
    }
    i
}

/// What is shown for the selected band.
pub fn selected_band_label(table: &VtxTableConfig, index: u8) -> (r: String)
    ensures
        r@ == (match band_with_index(table@.bands, index) {
            Some(b) => band_text(b),
            None => "-"@,
        }),
{
    let i = find_band(table, index);
    if i < table.bands.len() {
        band_label(&table.bands[i])
    } else {
        "-".to_string()
    }
}

/// How many channels can be chosen in a band: at least one.
pub fn channel_choices(table: &VtxTableConfig, index: u8) -> (r: u8)
    ensures
        r == (match band_with_index(table@.bands, index) {
            Some(b) => if b.channel_count > 1 {
                b.channel_count
            } else {
                1
            },
            None => 1,
        }),
{
    let i = find_band(table, index);
    if i < table.bands.len() && table.bands[i].channel_count > 1 {
        table.bands[i].channel_count
    } else {
        1
    }
}

/// How many power levels can be chosen, as a byte: at least one, where the table has none.
pub fn power_choices(table: &VtxTableConfig) -> (r: u8)
    ensures
        r == (if table@.power_levels.len() > 1 {
            table@.power_levels.len() % 256
        } else {
            1
        }),
{
    let n: usize = table.power_levels.len();
    if n > 1 {
        (n % 256) as u8
    } else {
        1
    }
}

pub open spec fn level_with_index(levels: Seq<VtxPowerLevelView>, index: u8) -> Option<
    VtxPowerLevelView,
>
    decreases levels.len(),
{
    if levels.len() == 0 {
        None
    } else if levels[0].index == index {
        Some(levels[0])
    } else {
        level_with_index(levels.skip(1), index)
    }
}

pub open spec fn power_level_text(l: VtxPowerLevelView) -> Seq<char> {
    "-> "@ + decimal(l.m_w as nat) + " mW ('"@ + l.label + "')"@
}

/// What is shown for the selected power level, where the table has it.
pub fn selected_power_label(table: &VtxTableConfig, index: u8) -> (r: Option<String>)
    ensures
        match r {
            Some(t) => level_with_index(table@.power_levels, index) matches Some(l) && t@
                == power_level_text(l),
            None => level_with_index(table@.power_levels, index) is None,
        },
{
    let ghost views = power_level_views(table.power_levels@);
    let mut i: usize = 0;
    assert(views.skip(0) =~= views);
    while i < table.power_levels.len()
        invariant
            i <= table.power_levels@.len(),
            views == power_level_views(table.power_levels@),
            level_with_index(views.skip(i as int), index) == level_with_index(views, index),
        decreases table.power_levels@.len() - i,
    {
        let ghost here = views.skip(i as int);
        assert(here[0] == table.power_levels@[i as int]@);
        assert(here.skip(1) =~= views.skip(i + 1));
        if table.power_levels[i].index == index {
            let mut t = String::new();
            t.append("-> ");
            push_decimal(&mut t, table.power_levels[i].m_w as u64);
            t.append(" mW ('");
            t.append(table.power_levels[i].label.as_str());
            t.append("')");
            assert(t@ =~= power_level_text(here[0]));
            return Some(t);
        }
        i = i + 1;
    }
    None
}

/// What is shown for the frequency of the selected channel.
pub fn frequency_label(freq_mhz: u16) -> (r: String)
    ensures
        r@ == "-> "@ + decimal(freq_mhz as nat) + " MHz"@,
{
    let mut r = String::new();
    r.append("-> ");
    push_decimal(&mut r, freq_mhz as u64);
    r.append(" MHz");
    assert(r@ =~= "-> "@ + decimal(freq_mhz as nat) + " MHz"@);
    r
}

/// A value with its unit, or a dash where it is not known.
pub open spec fn known_text(n: Option<u16>, unit: Seq<char>) -> Seq<char> {
    match n {
        Some(v) => decimal(v as nat) + unit,
        None => "\u{2014}"@,
    }
}

pub fn known(n: Option<u16>, unit: &str) -> (r: String)
    ensures
        r@ == known_text(n, unit@),
{
    match n {
        Some(v) => {
            let mut r = decimal_text(v as u64);
            r.append(unit);
            r
        },
        None => "\u{2014}".to_string(),
    }
}

/// One of two words, or a dash where it is not known which.
pub fn known_choice(b: Option<bool>, yes: &'static str, no: &'static str) -> (r: &'static str)
    ensures
        r@ == (match b {
            Some(true) => yes@,
            Some(false) => no@,
            None => "\u{2014}"@,
        }),
{
    match b {
        Some(true) => yes,
        Some(false) => no,
        None => "\u{2014}",
    }
}

/// The output power of the RTC6705 at one of its levels.
pub open spec fn rtc6705_words(level: Option<u8>) -> Seq<char> {
    match level {
        Some(v) => if v == 0 {
            "3 dBm"@
        } else if v == 1 {
            "7 dBm"@
        } else if v == 2 {
            "11 dBm"@
        } else if v == 3 {
            "13 dBm"@
        } else {
            "? ("@ + decimal(v as nat) + ")"@
        },
        None => "\u{2014}"@,
    }
}

pub fn rtc6705_text(level: Option<u8>) -> (r: String)
    ensures
        r@ == rtc6705_words(level),
{
    match level {
        Some(v) => if v == 0 {
            "3 dBm".to_string()
        } else if v == 1 {
            "7 dBm".to_string()
        } else if v == 2 {
            "11 dBm".to_string()
        } else if v == 3 {
            "13 dBm".to_string()
        } else {
            let mut r = String::new();
            r.append("? (");
            push_decimal(&mut r, v as u64);
            r.append(")");
            assert(r@ =~= "? ("@ + decimal(v as nat) + ")"@);
            r
        },
        None => "\u{2014}".to_string(),
    }
}

/// A temperature in tenths of a degree, with one decimal.
pub open spec fn temperature_words(x10: Option<i16>) -> Seq<char> {
    match x10 {
        Some(t) => {
            let whole = if t < 0 {
                -(t as int)
            } else {
                t as int
            };
            (if t < 0 {
                seq!['-']
            } else {
                seq![]
            }) + decimal((whole / 10) as nat) + "."@ + decimal((whole % 10) as nat) + " \u{b0}C"@
        },
        None => "\u{2014}"@,
    }
}

pub fn temperature_text(x10: Option<i16>) -> (r: String)
    ensures
        r@ == temperature_words(x10),
{
    match x10 {
        Some(t) => {
            let whole: u64 = if t < 0 { (-(t as i32)) as u64 } else { t as u64 };
            let mut r = String::new();
            if t < 0 {
                r.push('-');
            }
            push_decimal(&mut r, whole / 10);
            r.append(".");
            push_decimal(&mut r, whole % 10);
            r.append(" \u{b0}C");
            assert(r@ =~= temperature_words(x10));
            r
        },
        None => "\u{2014}".to_string(),
    }
}

/// The texts of the status of the VTX.
#[derive(Debug)]
pub struct StatusTexts {
    pub level: String,
    pub power: String,
    pub pa: &'static str,
    pub rtc6705_level: String,
    pub frequency: String,
    pub vbias: String,
    pub vdetector: String,
    pub pid_loop: &'static str,
    pub session: &'static str,
    pub mcu_temperature: String,
    pub pa_temperature: String,
    pub ntc_raw: String,
}

pub fn status_texts(s: &VtxStatus) -> (r: StatusTexts)
    ensures
        r.level@ == decimal(s.level as nat),
        r.power@ == known_text(s.power_mw, " mW"@),
        r.pa@ == (match s.boost_on {
            Some(true) => "ON"@,
            Some(false) => "OFF"@,
            None => "\u{2014}"@,
        }),
        r.rtc6705_level@ == rtc6705_words(s.rtc6705_level),
        r.frequency@ == known_text(s.frequency_mhz, " MHz"@),
        r.vbias@ == known_text(Some(s.vbias_mv), " mV"@),
        r.vdetector@ == known_text(Some(s.detector_mv), " mV"@),
        r.pid_loop@ == (match s.pid_active {
            Some(true) => "Active"@,
            Some(false) => "Inactive"@,
            None => "\u{2014}"@,
        }),
        r.session@ == (match s.session_active {
            Some(true) => "Open"@,
            Some(false) => "Closed"@,
            None => "\u{2014}"@,
        }),
        r.mcu_temperature@ == temperature_words(s.mcu_temp_c_x10),
        r.pa_temperature@ == temperature_words(s.pa_temp_c_x10),
        r.ntc_raw@ == known_text(s.ntc_raw, ""@),
{
    StatusTexts {
        level: decimal_text(s.level as u64),
        power: known(s.power_mw, " mW"),
        pa: known_choice(s.boost_on, "ON", "OFF"),
        rtc6705_level: rtc6705_text(s.rtc6705_level),
        frequency: known(s.frequency_mhz, " MHz"),
        vbias: known(Some(s.vbias_mv), " mV"),
        vdetector: known(Some(s.detector_mv), " mV"),
        pid_loop: known_choice(s.pid_active, "Active", "Inactive"),
        session: known_choice(s.session_active, "Open", "Closed"),
        mcu_temperature: temperature_text(s.mcu_temp_c_x10),
        pa_temperature: temperature_text(s.pa_temp_c_x10),
        ntc_raw: known(s.ntc_raw, ""),
    }
}

/// The size of the canvas of the OSD.
pub fn canvas_text(canvas: Option<(u8, u8)>) -> (r: String)
    ensures
        r@ == (match canvas {
            Some((cols, rows)) => decimal(cols as nat) + "x"@ + decimal(rows as nat),
            None => "None"@,
        }),
{
    match canvas {
        Some((cols, rows)) => {
            let mut r = decimal_text(cols as u64);
            r.append("x");
            push_decimal(&mut r, rows as u64);
            r
        },
        None => "None".to_string(),
    }
}

/// When the OSD was last told that it is in use.
pub fn keepalive_text(at: Option<&String>) -> (r: String)
    ensures
        r@ == (match at {
            Some(ts) => "Keepalive ("@ + ts@ + ")"@,
            None => "None"@,
        }),
{
    match at {
        Some(ts) => {
            let mut r = String::new();
            r.append("Keepalive (");
            r.append(ts.as_str());
            r.append(")");
            assert(r@ =~= "Keepalive ("@ + ts@ + ")"@);
            r
        },
        None => "None".to_string(),
    }
}

/// A port that is closed can be connected, one that is ready can be disconnected, and nothing
/// can be done with one that is on its way.
pub proof fn law_what_can_be_done_with_a_port(state: PortState)
    ensures
        spec_port_action(state) is Connect <==> state is Disconnected,
        spec_port_action(state) is Disconnect <==> state is Ready,
        spec_port_action(state) is Nothing <==> state is Connecting || state is Disconnecting
            || state is LostCommunication,
{
}

/// A power level is found by its number: the first that has it.
pub proof fn law_a_level_is_found_by_its_number(
    levels: Seq<VtxPowerLevelView>,
    index: u8,
    i: int,
)
    ensures
        0 <= i < levels.len() && levels[i].index == index && (forall|k: int|
            0 <= k < i ==> (#[trigger] levels[k]).index != index) ==> level_with_index(
            levels,
            index,
        ) == Some(levels[i]),
        (forall|k: int| 0 <= k < levels.len() ==> (#[trigger] levels[k]).index != index)
            ==> level_with_index(levels, index) is None,
        level_with_index(levels, index) matches Some(l) ==> l.index == index,
    decreases levels.len(),
{
    if levels.len() > 0 {
        let rest = levels.skip(1);
        law_a_level_is_found_by_its_number(rest, index, i - 1);
        assert(forall|k: int| 0 <= k < rest.len() ==> rest[k] == #[trigger] levels[k + 1]);
        if 0 < i < levels.len() && levels[i].index == index && (forall|k: int|
            0 <= k < i ==> (#[trigger] levels[k]).index != index) {
            assert(levels[0].index != index);
            assert(rest[i - 1] == levels[i]);
            assert forall|k: int| 0 <= k < i - 1 implies (#[trigger] rest[k]).index != index by {
                assert(rest[k] == levels[k + 1]);
            }
        }
        if forall|k: int| 0 <= k < levels.len() ==> (#[trigger] levels[k]).index != index {
            assert(levels[0].index != index);
            assert forall|k: int| 0 <= k < rest.len() implies (#[trigger] rest[k]).index
                != index by {
                assert(rest[k] == levels[k + 1]);
            }
        }
    }
}

/// A temperature is told in degrees and tenths, below zero with a minus sign.
pub proof fn law_a_temperature_is_its_tenths(t: i16, degrees: nat, tenths: nat)
    requires
        tenths < 10,
        10 * degrees + tenths == if t < 0 {
            -t
        } else {
            t as int
        },
    ensures
        t >= 0 ==> temperature_words(Some(t)) == decimal(degrees) + "."@ + decimal(tenths)
            + " \u{b0}C"@,
        t < 0 ==> temperature_words(Some(t)) == "-"@ + decimal(degrees) + "."@ + decimal(tenths)
            + " \u{b0}C"@,
{
    reveal_strlit("-");
    assert("-"@ =~= seq!['-']);
    assert(seq![] + decimal(degrees) =~= decimal(degrees));
}

/// The four levels of the transmitter are told by their power, which grows with them: 3 dBm
/// and four more for each of the first two, and 13 dBm for the last.
pub proof fn law_a_transmitter_level_is_told_by_its_power(level: u8, dbm: nat)
    requires
        level < 4,
        dbm == if level < 3 {
            3 + 4 * level as int
        } else {
            13
        },
    ensures
        rtc6705_words(Some(level)) == decimal(dbm) + " dBm"@,
{
    reveal_strlit("3 dBm");
    reveal_strlit("7 dBm");
    reveal_strlit("11 dBm");
    reveal_strlit("13 dBm");
    reveal_strlit(" dBm");
    reveal_with_fuel(decimal, 3);
    assert(rtc6705_words(Some(level)) =~= decimal(dbm) + " dBm"@);
}

/// A number that is known is read back from its text, before its unit.
pub proof fn law_a_known_number_reads_back(n: u16, unit: Seq<char>)
    ensures
        ({
            let t = known_text(Some(n), unit);
            &&& t.len() > unit.len()
            &&& t.skip(t.len() - unit.len()) == unit
            &&& parse_unsigned(t.take(t.len() - unit.len()), 65535) == Some(n as nat)
        }),
{
    let d = decimal(n as nat);
    let t = known_text(Some(n), unit);
    law_decimal_reads_back(n as nat, 65535);
    assert(d.len() > 0);
    assert(t.skip(t.len() - unit.len()) =~= unit);
    assert(t.take(t.len() - unit.len()) =~= d);
}

/// A band is shown by its name and, in brackets, its letter.
pub proof fn law_a_band_is_shown_with_its_letter(b: VtxBandView)
    ensures
        ({
            let t = band_text(b);
            let n = b.name.len() as int;
            &&& t.len() == n + 4
            &&& t.take(n) == b.name
            &&& t[n] == ' ' && t[n + 1] == '(' && t[n + 2] == b.letter && t[n + 3] == ')'
        }),
{
    reveal_strlit(" (");
    reveal_strlit(")");
    assert(" ("@.len() == 2 && ")"@.len() == 1);
    assert(band_text(b).take(b.name.len() as int) =~= b.name);
}

} // verus!
