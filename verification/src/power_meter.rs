//! The power meters that the tool knows: what they are called, which
//! frequencies they can be set to, and what is sent to them.

use vstd::prelude::*;
#[allow(unused_imports)]
use vstd::string::*;

use crate::text::{
    decimal,
    eq_ignoring_case,
    parse_number,
    parse_unsigned,
    push_decimal,
    same_ignoring_case,
    trim_end,
    trim_start,
    trimmed,
    upper,
    upper_text,
};

verus! {

/// How a meter is told the frequency that it measures.
#[derive(Debug)]
pub enum FrequencyCapability {
    /// By hand, to any frequency of the range.
    Manual { min_mhz: u32, max_mhz: u32 },
    /// By hand, to one of the bands.
    ManualBand { bands_mhz: Vec<u32> },
    /// By a command, to one of the bands.
    ProgrammableBand { bands_mhz: Vec<u32> },
    /// By a command, to any frequency of the range.
    FullyProgrammable { min_mhz: u32, max_mhz: u32 },
}

#[verifier::ext_equal]
pub enum CapabilityView {
    Manual { min_mhz: u32, max_mhz: u32 },
    ManualBand { bands_mhz: Seq<u32> },
    ProgrammableBand { bands_mhz: Seq<u32> },
    FullyProgrammable { min_mhz: u32, max_mhz: u32 },
}

impl View for FrequencyCapability {
    type V = CapabilityView;

    open spec fn view(&self) -> CapabilityView {
        match *self {
            FrequencyCapability::Manual { min_mhz, max_mhz } => CapabilityView::Manual {
                min_mhz,
                max_mhz,
            },
            FrequencyCapability::ManualBand { bands_mhz } => CapabilityView::ManualBand {
                bands_mhz: bands_mhz@,
            },
            FrequencyCapability::ProgrammableBand { bands_mhz } => CapabilityView::ProgrammableBand {
                bands_mhz: bands_mhz@,
            },
            FrequencyCapability::FullyProgrammable { min_mhz, max_mhz } =>
                CapabilityView::FullyProgrammable { min_mhz, max_mhz },
        }
    }
}

#[derive(Clone, Copy, Debug, PartialEq, Eq, Structural)]
pub enum PowerMeterKind {
    ImmersionRcV1,
    ImmersionRcV2,
    GenericManual,
    GenericFullyProgrammable,
}

pub open spec fn immersionrc_v1_bands() -> Seq<u32> {
    seq![5800u32, 2400, 1200, 900, 868, 433, 72, 35]
}

pub open spec fn immersionrc_v2_frequencies() -> Seq<u32> {
    seq![
        35u32,
        72,
        433,
        868,
        915,
        1200,
        2400,
        5600,
        5650,
        5700,
        5750,
        5800,
        5850,
        5900,
        5950,
        6000,
    ]
}

fn immersionrc_v2_table() -> (r: Vec<u32>)
    ensures
        r@ == immersionrc_v2_frequencies(),
{
    vec![
        35,
        72,
        433,
        868,
        915,
        1200,
        2400,
        5600,
        5650,
        5700,
        5750,
        5800,
        5850,
        5900,
        5950,
        6000,
    ]
}

/// What a meter can be asked for.
#[derive(Clone, Copy, Debug, PartialEq, Eq, Structural)]
pub enum MeterQuery {
    ReadDbm,
    CheckAlive,
    ReadPeakDbm,
    ReadFrequencyRaw,
}

impl MeterQuery {
    pub open spec fn spec_name(self) -> Seq<char> {
        match self {
            MeterQuery::ReadDbm => "read_dbm"@,
            MeterQuery::CheckAlive => "check_alive"@,
            MeterQuery::ReadPeakDbm => "read_peak_dbm"@,
            MeterQuery::ReadFrequencyRaw => "read_frequency_raw"@,
        }
    }

    fn name(self) -> (r: &'static str)
        ensures
            r@ == self.spec_name(),
    {
        match self {
            MeterQuery::ReadDbm => "read_dbm",
            MeterQuery::CheckAlive => "check_alive",
            MeterQuery::ReadPeakDbm => "read_peak_dbm",
            MeterQuery::ReadFrequencyRaw => "read_frequency_raw",
        }
    }

    /// Why a meter that cannot answer cannot.
    pub open spec fn spec_reason(self) -> Seq<char> {
        match self {
            MeterQuery::ReadDbm => " (protocol unknown)"@,
            MeterQuery::CheckAlive => " (protocol unknown)"@,
            MeterQuery::ReadPeakDbm => " (only confirmed for ImmersionRC V2)"@,
            MeterQuery::ReadFrequencyRaw => " (only confirmed for ImmersionRC V2)"@,
        }
    }

    fn reason(self) -> (r: &'static str)
        ensures
            r@ == self.spec_reason(),
    {
        match self {
            MeterQuery::ReadDbm => " (protocol unknown)",
            MeterQuery::CheckAlive => " (protocol unknown)",
            MeterQuery::ReadPeakDbm => " (only confirmed for ImmersionRC V2)",
            MeterQuery::ReadFrequencyRaw => " (only confirmed for ImmersionRC V2)",
        }
    }
}

impl PowerMeterKind {
    pub const ALL: [PowerMeterKind; 4] = [
        PowerMeterKind::ImmersionRcV1,
        PowerMeterKind::ImmersionRcV2,
        PowerMeterKind::GenericManual,
        PowerMeterKind::GenericFullyProgrammable,
    ];

    pub open spec fn spec_name(self) -> Seq<char> {
        match self {
            PowerMeterKind::ImmersionRcV1 => "ImmersionRC V1"@,
            PowerMeterKind::ImmersionRcV2 => "ImmersionRC V2"@,
            PowerMeterKind::GenericManual => "Generic Manual"@,
            PowerMeterKind::GenericFullyProgrammable => "Generic Fully Programmable"@,
        }
    }

    pub fn name(self) -> (r: &'static str)
        ensures
            r@ == self.spec_name(),
    {
        match self {
            PowerMeterKind::ImmersionRcV1 => "ImmersionRC V1",
            PowerMeterKind::ImmersionRcV2 => "ImmersionRC V2",
            PowerMeterKind::GenericManual => "Generic Manual",
            PowerMeterKind::GenericFullyProgrammable => "Generic Fully Programmable",
        }
    }

    pub open spec fn spec_cli_name(self) -> Seq<char> {
        match self {
            PowerMeterKind::ImmersionRcV1 => "immersionrc-v1"@,
            PowerMeterKind::ImmersionRcV2 => "immersionrc-v2"@,
            PowerMeterKind::GenericManual => "generic-manual"@,
            PowerMeterKind::GenericFullyProgrammable => "generic-fully-programmable"@,
        }
    }

    /// The name of the kind on the command line.
    pub fn cli_name(self) -> (r: &'static str)
        ensures
            r@ == self.spec_cli_name(),
    {
        match self {
            PowerMeterKind::ImmersionRcV1 => "immersionrc-v1",
            PowerMeterKind::ImmersionRcV2 => "immersionrc-v2",
            PowerMeterKind::GenericManual => "generic-manual",
            PowerMeterKind::GenericFullyProgrammable => "generic-fully-programmable",
        }
    }

    pub fn default_baud(self) -> (r: u32)
        ensures
            r == 115200,
    {
        match self {
            PowerMeterKind::ImmersionRcV1 => 115200,
            PowerMeterKind::ImmersionRcV2 => 115200,
            PowerMeterKind::GenericManual => 115200,
            PowerMeterKind::GenericFullyProgrammable => 115200,
        }
    }

    pub open spec fn fastest_hz(self) -> u32 {
        match self {
            PowerMeterKind::ImmersionRcV1 => 5,
            PowerMeterKind::ImmersionRcV2 => 5,
            PowerMeterKind::GenericManual => 1,
            PowerMeterKind::GenericFullyProgrammable => 1,
        }
    }

    /// How often in a second the meter can be read.
    pub fn max_update_hz(self) -> (r: u32)
        ensures
            r == self.fastest_hz(),
    {
        match self {
            PowerMeterKind::ImmersionRcV1 => 5,
            PowerMeterKind::ImmersionRcV2 => 5,
            PowerMeterKind::GenericManual => 1,
            PowerMeterKind::GenericFullyProgrammable => 1,
        }
    }

    pub open spec fn spec_capability(self) -> CapabilityView {
        match self {
            PowerMeterKind::ImmersionRcV1 => CapabilityView::ManualBand {
                bands_mhz: immersionrc_v1_bands(),
            },
            PowerMeterKind::ImmersionRcV2 => CapabilityView::ProgrammableBand {
                bands_mhz: immersionrc_v2_frequencies(),
            },
            PowerMeterKind::GenericManual => CapabilityView::Manual {
                min_mhz: 5000,
                max_mhz: 10000,
            },
            PowerMeterKind::GenericFullyProgrammable => CapabilityView::FullyProgrammable {
                min_mhz: 5000,
                max_mhz: 10000,
            },
        }
    }

    pub fn capability(self) -> (r: FrequencyCapability)
        ensures
            r@ == self.spec_capability(),
    {
        match self {
            PowerMeterKind::ImmersionRcV1 => {
                let bands_mhz: Vec<u32> = vec![5800, 2400, 1200, 900, 868, 433, 72, 35];
                assert(bands_mhz@ =~= immersionrc_v1_bands());
                FrequencyCapability::ManualBand { bands_mhz }
            },
            PowerMeterKind::ImmersionRcV2 => FrequencyCapability::ProgrammableBand {
                bands_mhz: immersionrc_v2_table(),
            },
            PowerMeterKind::GenericManual => FrequencyCapability::Manual {
                min_mhz: 5000,
                max_mhz: 10000,
            },
            PowerMeterKind::GenericFullyProgrammable => FrequencyCapability::FullyProgrammable {
                min_mhz: 5000,
                max_mhz: 10000,
            },
        }
    }

    /// What asks a meter of this kind, where its protocol is known.
    pub open spec fn spec_command(self, query: MeterQuery) -> Option<Seq<char>> {
        match query {
            MeterQuery::ReadDbm => if self is ImmersionRcV1 || self is ImmersionRcV2 {
                Some("D\r\n"@)
            } else {
                None
            },
            MeterQuery::CheckAlive => if self is ImmersionRcV1 || self is ImmersionRcV2 {
                Some("V\r\n"@)
            } else {
                None
            },
            MeterQuery::ReadPeakDbm => if self is ImmersionRcV2 {
                Some("E\r\n"@)
            } else {
                None
            },
            MeterQuery::ReadFrequencyRaw => if self is ImmersionRcV2 {
                Some("F\r\n"@)
            } else {
                None
            },
        }
    }

    /// The command that asks a meter of this kind, or why there is none.
    pub fn command(self, query: MeterQuery) -> (r: Result<&'static str, String>)
        ensures
            match r {
                Ok(c) => self.spec_command(query) == Some(c@),
                Err(m) => self.spec_command(query) is None && m@ == query.spec_name()
                    + " not implemented for "@ + self.spec_name() + query.spec_reason(),
            },
    {
        let known = match query {
            MeterQuery::ReadDbm => match self {
                PowerMeterKind::ImmersionRcV1 => Some("D\r\n"),
                PowerMeterKind::ImmersionRcV2 => Some("D\r\n"),
                _ => None,
            },
            MeterQuery::CheckAlive => match self {
                PowerMeterKind::ImmersionRcV1 => Some("V\r\n"),
                PowerMeterKind::ImmersionRcV2 => Some("V\r\n"),
                _ => None,
            },
            MeterQuery::ReadPeakDbm => match self {
                PowerMeterKind::ImmersionRcV2 => Some("E\r\n"),
                _ => None,
            },
            MeterQuery::ReadFrequencyRaw => match self {
                PowerMeterKind::ImmersionRcV2 => Some("F\r\n"),
                _ => None,
            },
        };
        match known {
            Some(c) => Ok(c),
            None => {
                let mut m = String::new();
                m.append(query.name());
                m.append(" not implemented for ");
                m.append(self.name());
                m.append(query.reason());
                assert(m@ =~= query.spec_name() + " not implemented for "@ + self.spec_name()
                    + query.spec_reason());
                Err(m)
            },
        }
    }

    /// The command that sets a meter of this kind to the frequency, where it has one.
    pub fn retune_command(self, freq_mhz: u32) -> (r: Option<String>)
        ensures
            match r {
                Some(c) => self is ImmersionRcV2 && c@ == "F"@ + decimal(
                    nearest_index(immersionrc_v2_frequencies(), freq_mhz) as nat,
                ) + "\r\n"@,
                None => !(self is ImmersionRcV2),
            },
    {
        match self {
            PowerMeterKind::ImmersionRcV2 => {
                let mut c = String::new();
                c.append("F");
                push_decimal(&mut c, freq_to_v2_index(freq_mhz) as u64);
                c.append("\r\n");
                assert(c@ =~= "F"@ + decimal(
                    nearest_index(immersionrc_v2_frequencies(), freq_mhz) as nat,
                ) + "\r\n"@);
                Some(c)
            },
            _ => None,
        }
    }
}

impl Default for PowerMeterKind {
    fn default() -> (r: Self)
        ensures
            r == PowerMeterKind::ImmersionRcV1,
    {
        PowerMeterKind::ImmersionRcV1
    }
}

/// How far apart two frequencies are.
pub open spec fn apart(a: u32, b: u32) -> nat {
    if a < b {
        (b - a) as nat
    } else {
        (a - b) as nat
    }
}

/// Band `i` is nearest to the frequency, and the first of those that are as near.
pub open spec fn is_nearest(bands: Seq<u32>, freq_mhz: u32, i: int) -> bool {
    &&& 0 <= i < bands.len()
    &&& forall|j: int|
        0 <= j < bands.len() ==> apart(freq_mhz, bands[i]) <= apart(freq_mhz, #[trigger] bands[j])
    &&& forall|j: int|
        0 <= j < i ==> apart(freq_mhz, bands[i]) < apart(freq_mhz, #[trigger] bands[j])
}

pub open spec fn nearest_index(bands: Seq<u32>, freq_mhz: u32) -> int {
    choose|i: int| is_nearest(bands, freq_mhz, i)
}

/// The band that is nearest to the frequency; the frequency itself where there is none.
pub open spec fn nearest(bands: Seq<u32>, freq_mhz: u32) -> u32 {
    if bands.len() == 0 {
        freq_mhz
    } else {
        bands[nearest_index(bands, freq_mhz)]
    }
}

proof fn lemma_nearest_index(bands: Seq<u32>, freq_mhz: u32, i: int)
    requires
        is_nearest(bands, freq_mhz, i),
    ensures
        nearest_index(bands, freq_mhz) == i,
{
    let k = nearest_index(bands, freq_mhz);
    assert(is_nearest(bands, freq_mhz, k));
    if i < k {
        assert(apart(freq_mhz, bands[k]) < apart(freq_mhz, bands[i]));
    } else if k < i {
        assert(apart(freq_mhz, bands[i]) < apart(freq_mhz, bands[k]));
    }
}

fn distance(a: u32, b: u32) -> (r: u32)
    ensures
        r == apart(a, b),
{
    if a < b {
        b - a
    } else {
        a - b
    }
}

fn index_of_nearest(bands: &[u32], freq_mhz: u32) -> (r: usize)
    requires
        bands@.len() > 0,
    ensures
        is_nearest(bands@, freq_mhz, r as int),
        r == nearest_index(bands@, freq_mhz),
{
    let mut best: usize = 0;
    let mut i: usize = 1;
    while i < bands.len()
        invariant
            1 <= i <= bands@.len(),
            best < i,
            is_nearest(bands@.take(i as int), freq_mhz, best as int),
        decreases bands@.len() - i,
    {
        let ghost t = bands@.take(i as int);
        let ghost u = bands@.take(i + 1);
        assert forall|j: int| 0 <= j < i implies t[j] == #[trigger] u[j] by {}
        if distance(freq_mhz, bands[i]) < distance(freq_mhz, bands[best]) {
            assert forall|j: int| 0 <= j < i implies apart(freq_mhz, u[i as int]) < apart(
                freq_mhz,
                #[trigger] u[j],
            ) by {
                assert(apart(freq_mhz, t[best as int]) <= apart(freq_mhz, t[j]));
            }
            best = i;
        } else {
            assert forall|j: int| 0 <= j < best implies apart(freq_mhz, u[best as int]) < apart(
                freq_mhz,
                #[trigger] u[j],
            ) by {
                assert(apart(freq_mhz, t[best as int]) < apart(freq_mhz, t[j]));
            }
            assert forall|j: int| 0 <= j < u.len() implies apart(freq_mhz, u[best as int]) <= apart(
                freq_mhz,
                #[trigger] u[j],
            ) by {
                if j < i {
                    assert(apart(freq_mhz, t[best as int]) <= apart(freq_mhz, t[j]));
                }
            }
        }
        i = i + 1;
    }
    assert(bands@.take(i as int) =~= bands@);
    proof {
        lemma_nearest_index(bands@, freq_mhz, best as int);
    }
    best
}

pub fn nearest_band(bands: &[u32], freq_mhz: u32) -> (r: u32)
    ensures
        r == nearest(bands@, freq_mhz),
        bands@.len() > 0 ==> is_nearest(bands@, freq_mhz, nearest_index(bands@, freq_mhz)),
{
    if bands.len() == 0 {
        freq_mhz
    } else {
        bands[index_of_nearest(bands, freq_mhz)]
    }
}

/// The place of the nearest frequency in the table of an ImmersionRC V2.
pub fn freq_to_v2_index(freq_mhz: u32) -> (r: u8)
    ensures
        r == nearest_index(immersionrc_v2_frequencies(), freq_mhz),
        is_nearest(immersionrc_v2_frequencies(), freq_mhz, r as int),
{
    let table = immersionrc_v2_table();
    let i = index_of_nearest(table.as_slice(), freq_mhz);
    i as u8
}

/// The error for a kind that is none.
pub open spec fn unknown_kind(s: Seq<char>) -> Seq<char> {
    "unknown power meter kind '"@ + s
        + "' (expected one of: immersionrc-v1, immersionrc-v2, generic-manual, generic-fully-programmable)"@
}

/// The kind that `s` names, in any case of its letters.
pub fn parse_cli(s: &str) -> (r: Result<PowerMeterKind, String>)
    ensures
        match r {
            Ok(k) => same_ignoring_case(k.spec_cli_name(), s@),
            Err(m) => m@ == unknown_kind(s@) && forall|k: PowerMeterKind|
                !same_ignoring_case(#[trigger] k.spec_cli_name(), s@),
        },
{
    if eq_ignoring_case(PowerMeterKind::ImmersionRcV1.cli_name(), s) {
        return Ok(PowerMeterKind::ImmersionRcV1);
    }
    if eq_ignoring_case(PowerMeterKind::ImmersionRcV2.cli_name(), s) {
        return Ok(PowerMeterKind::ImmersionRcV2);
    }
    if eq_ignoring_case(PowerMeterKind::GenericManual.cli_name(), s) {
        return Ok(PowerMeterKind::GenericManual);
    }
    if eq_ignoring_case(PowerMeterKind::GenericFullyProgrammable.cli_name(), s) {
        return Ok(PowerMeterKind::GenericFullyProgrammable);
    }
    let mut m = String::new();
    m.append("unknown power meter kind '");
    m.append(s);
    m.append(
        "' (expected one of: immersionrc-v1, immersionrc-v2, generic-manual, generic-fully-programmable)",
    );
    assert(m@ =~= unknown_kind(s@));
    assert forall|k: PowerMeterKind| !same_ignoring_case(#[trigger] k.spec_cli_name(), s@) by {
        match k {
            PowerMeterKind::ImmersionRcV1 => {},
            PowerMeterKind::ImmersionRcV2 => {},
            PowerMeterKind::GenericManual => {},
            PowerMeterKind::GenericFullyProgrammable => {},
        }
    }
    Err(m)
}

/// No text names two kinds, so that the kind which a text names is the one that is parsed.
pub proof fn law_names_tell_kinds_apart(a: PowerMeterKind, b: PowerMeterKind, s: Seq<char>)
    requires
        same_ignoring_case(a.spec_cli_name(), s),
        same_ignoring_case(b.spec_cli_name(), s),
    ensures
        a == b,
{
    reveal_strlit("immersionrc-v1");
    reveal_strlit("immersionrc-v2");
    reveal_strlit("generic-manual");
    reveal_strlit("generic-fully-programmable");
    let (x, y) = (a.spec_cli_name(), b.spec_cli_name());
    assert(upper_text(x).len() == x.len());
    assert(upper_text(y).len() == y.len());
    assert(upper_text(x)[0] == upper(x[0]));
    assert(upper_text(y)[0] == upper(y[0]));
    assert(upper_text(x)[13] == upper(x[13]));
    assert(upper_text(y)[13] == upper(y[13]));
}

/// A line of a meter's answer without the white space around it, unless it is blank.
pub fn answer_line(line: &str) -> (r: Option<String>)
    ensures
        match r {
            Some(t) => t@ == trim_end(trim_start(line@)) && t@.len() > 0,
            None => trim_end(trim_start(line@)).len() == 0,
        },
{
    let t = trimmed(line);
    if t.as_str().unicode_len() == 0 {
        None
    } else {
        Some(t)
    }
}

/// The frequency that a meter answered with.
pub fn parse_frequency_raw(line: &str) -> (r: Option<u32>)
    ensures
        match r {
            Some(n) => parse_unsigned(line@, u32::MAX as nat) == Some(n as nat),
            None => parse_unsigned(line@, u32::MAX as nat) is None,
        },
{
    parse_number(line, u32::MAX)
}

proof fn lemma_some_band_is_nearest(bands: Seq<u32>, freq_mhz: u32) -> (i: int)
    requires
        bands.len() > 0,
    ensures
        is_nearest(bands, freq_mhz, i),
    decreases bands.len(),
{
    if bands.len() == 1 {
        0
    } else {
        let d = bands.drop_last();
        let last = bands.len() - 1;
        let k = lemma_some_band_is_nearest(d, freq_mhz);
        assert forall|j: int| 0 <= j < d.len() implies d[j] == #[trigger] bands[j] by {}
        if apart(freq_mhz, bands[last]) < apart(freq_mhz, bands[k]) {
            assert forall|j: int| 0 <= j < last implies apart(freq_mhz, bands[last]) < apart(
                freq_mhz,
                #[trigger] bands[j],
            ) by {
                assert(apart(freq_mhz, d[k]) <= apart(freq_mhz, d[j]));
            }
            last
        } else {
            assert forall|j: int| 0 <= j < bands.len() implies apart(freq_mhz, bands[k]) <= apart(
                freq_mhz,
                #[trigger] bands[j],
            ) by {
                if j < last {
                    assert(apart(freq_mhz, d[k]) <= apart(freq_mhz, d[j]));
                }
            }
            assert forall|j: int| 0 <= j < k implies apart(freq_mhz, bands[k]) < apart(
                freq_mhz,
                #[trigger] bands[j],
            ) by {
                assert(apart(freq_mhz, d[k]) < apart(freq_mhz, d[j]));
            }
            k
        }
    }
}

/// The nearest band is one of the bands, and none is nearer, below or above; of two that are
/// as near it is the first. A frequency that is a band is its own.
pub proof fn law_no_band_is_nearer(bands: Seq<u32>, freq_mhz: u32, j: int)
    requires
        0 <= j < bands.len(),
    ensures
        ({
            let i = nearest_index(bands, freq_mhz);
            let off = nearest(bands, freq_mhz) as int - freq_mhz as int;
            let other = bands[j] as int - freq_mhz as int;
            &&& 0 <= i < bands.len()
            &&& nearest(bands, freq_mhz) == bands[i]
            &&& other >= 0 ==> -other <= off <= other
            &&& other <= 0 ==> other <= off <= -other
            &&& j < i ==> off != other && off != -other
            &&& other == 0 ==> nearest(bands, freq_mhz) == freq_mhz
        }),
{
    let i = lemma_some_band_is_nearest(bands, freq_mhz);
    lemma_nearest_index(bands, freq_mhz, i);
    assert(apart(freq_mhz, bands[i]) <= apart(freq_mhz, bands[j]));
}

/// Only an ImmersionRC V2 and a meter that can be set to anything are set from here; the
/// others are set by the user. No meter is read more than five times a second.
pub proof fn law_what_a_meter_can_do(kind: PowerMeterKind)
    ensures
        kind.spec_capability() is ManualBand <==> kind is ImmersionRcV1,
        kind.spec_capability() is ProgrammableBand <==> kind is ImmersionRcV2,
        kind.spec_capability() is Manual <==> kind is GenericManual,
        kind.spec_capability() is FullyProgrammable <==> kind is GenericFullyProgrammable,
        kind.fastest_hz() == 5 <==> kind is ImmersionRcV1 || kind is ImmersionRcV2,
        kind.fastest_hz() == 1 <==> kind is GenericManual || kind is GenericFullyProgrammable,
{
}

/// The frequencies of an ImmersionRC V2 ascend and the bands of a V1 descend, so that no two
/// places stand for one frequency.
pub proof fn law_the_frequencies_of_a_meter_are_in_order(i: int, j: int)
    ensures
        0 <= i < j < immersionrc_v2_frequencies().len() ==> immersionrc_v2_frequencies()[i]
            < immersionrc_v2_frequencies()[j],
        0 <= i < j < immersionrc_v1_bands().len() ==> immersionrc_v1_bands()[i]
            > immersionrc_v1_bands()[j],
        immersionrc_v2_frequencies().len() == 16,
        immersionrc_v1_bands().len() == 8,
        7 <= i < 16 ==> immersionrc_v2_frequencies()[i] == 5250 + 50 * i,
{
}

/// A meter with a known protocol is asked with one letter and the end of a line; two
/// questions are never asked alike, and a V1 knows no other than a V2.
pub proof fn law_questions_are_told_apart(kind: PowerMeterKind, a: MeterQuery, b: MeterQuery)
    ensures
        kind.spec_command(a) matches Some(c) ==> c.len() == 3 && c[1] == '\r' && c[2] == '\n',
        kind.spec_command(a) is Some && kind.spec_command(a) == kind.spec_command(b) ==> a == b,
        kind.spec_command(a) is Some ==> kind is ImmersionRcV1 || kind is ImmersionRcV2,
        PowerMeterKind::ImmersionRcV2.spec_command(a) is Some,
        PowerMeterKind::ImmersionRcV1.spec_command(a) is Some <==> a is ReadDbm || a is CheckAlive,
        kind.spec_command(a) is Some ==> kind.spec_command(a)
            == PowerMeterKind::ImmersionRcV2.spec_command(a),
        a is ReadDbm && kind is ImmersionRcV1 ==> kind.spec_command(a)->0[0] == 'D',
        a is CheckAlive && kind is ImmersionRcV1 ==> kind.spec_command(a)->0[0] == 'V',
        a is ReadPeakDbm && kind is ImmersionRcV2 ==> kind.spec_command(a)->0[0] == 'E',
        a is ReadFrequencyRaw && kind is ImmersionRcV2 ==> kind.spec_command(a)->0[0] == 'F',
{
    reveal_strlit("D\r\n");
    reveal_strlit("V\r\n");
    reveal_strlit("E\r\n");
    reveal_strlit("F\r\n");
    assert("D\r\n"@[0] == 'D' && "V\r\n"@[0] == 'V' && "E\r\n"@[0] == 'E' && "F\r\n"@[0]
        == 'F');
}

/// The kinds of meters are shown under names of their own.
pub proof fn law_kinds_are_shown_apart(a: PowerMeterKind, b: PowerMeterKind)
    ensures
        a.spec_name() == b.spec_name() ==> a == b,
{
    reveal_strlit("ImmersionRC V1");
    reveal_strlit("ImmersionRC V2");
    reveal_strlit("Generic Manual");
    reveal_strlit("Generic Fully Programmable");
    assert("ImmersionRC V1"@[13] == '1' && "ImmersionRC V2"@[13] == '2');
    assert("Generic Manual"@[0] == 'G' && "Generic Manual"@.len() == 14);
    assert("ImmersionRC V1"@[0] == 'I' && "ImmersionRC V2"@[0] == 'I');
    assert("Generic Fully Programmable"@.len() == 26);
}

} // verus!
