//! What is known of the VTX, of the meter, of the OSD and of the VTX table.

use vstd::prelude::*;
#[allow(unused_imports)]
use vstd::string::*;

use crate::conn_status::PortState;
use crate::msp::{PaCalibration, VtxConfig};
use crate::power_meter::PowerMeterKind;
use crate::text::{decimal, decimal_text, push_zero_padded, zero_padded};

verus! {

/// How often a meter is read until the user chooses otherwise.
pub const DEFAULT_UPDATE_MILLIHZ: u32 = 1000;

/// The last status of the VTX.
#[derive(Clone, Copy, Debug, PartialEq, Eq, Structural)]
pub struct VtxStatus {
    pub level: u8,
    pub power_mw: Option<u16>,
    pub boost_on: Option<bool>,
    pub rtc6705_level: Option<u8>,
    pub frequency_mhz: Option<u16>,
    pub vbias_mv: u16,
    pub detector_mv: u16,
    pub pid_active: Option<bool>,
    pub session_active: Option<bool>,
    /// Tenths of a degree Celsius.
    pub mcu_temp_c_x10: Option<i16>,
    pub ntc_raw: Option<u16>,
    /// Tenths of a degree Celsius.
    pub pa_temp_c_x10: Option<i16>,
}

pub struct MeterState {
    pub port_state: PortState,
    pub kind: PowerMeterKind,
    /// How often in a thousand seconds the meter is read.
    pub update_millihz: u32,
    /// How often it was read before a sweep.
    pub pre_sweep_update_millihz: Option<u32>,
    /// How many readings there were.
    pub reading_seq: u64,
}

impl Default for MeterState {
    fn default() -> (r: Self)
        ensures
            r.port_state is Disconnected,
            r.kind is ImmersionRcV1,
            r.update_millihz == DEFAULT_UPDATE_MILLIHZ,
            r.pre_sweep_update_millihz is None,
            r.reading_seq == 0,
    {
        MeterState {
            port_state: PortState::Disconnected,
            kind: PowerMeterKind::default(),
            update_millihz: DEFAULT_UPDATE_MILLIHZ,
            pre_sweep_update_millihz: None,
            reading_seq: 0,
        }
    }
}

/// The least rate at which a meter is read.
pub const LEAST_UPDATE_MILLIHZ: u32 = 10;

impl MeterState {
    /// At most as often as a meter of this kind can be read.
    pub open spec fn with_kind(self, kind: PowerMeterKind) -> MeterState {
        MeterState {
            kind,
            update_millihz: if self.update_millihz > kind.fastest_hz() * 1000 {
                (kind.fastest_hz() * 1000) as u32
            } else {
                self.update_millihz
            },
            ..self
        }
    }

    /// The user chose a kind of meter.
    pub fn choose_kind(&mut self, kind: PowerMeterKind)
        ensures
            *final(self) == old(self).with_kind(kind),
    {
        let fastest: u32 = kind.max_update_hz() * 1000;
        self.kind = kind;
        if self.update_millihz > fastest {
            self.update_millihz = fastest;
        }
    }

    /// At least as often as any meter is read.
    pub open spec fn not_too_slow(self) -> MeterState {
        MeterState {
            update_millihz: if self.update_millihz < LEAST_UPDATE_MILLIHZ {
                LEAST_UPDATE_MILLIHZ
            } else {
                self.update_millihz
            },
            ..self
        }
    }

    pub open spec fn for_sweep(self, sweep_hz: u32) -> MeterState {
        MeterState {
            pre_sweep_update_millihz: Some(self.update_millihz),
            update_millihz: (sweep_hz * 1000) as u32,
            ..self
        }
    }

    /// A sweep begins, which wants the meter read so often in a second.
    pub fn begin_sweep(&mut self, sweep_hz: u32)
        requires
            sweep_hz <= 10,
        ensures
            *final(self) == old(self).for_sweep(sweep_hz),
    {
        self.pre_sweep_update_millihz = Some(self.update_millihz);
        self.update_millihz = sweep_hz * 1000;
    }

    pub open spec fn after_sweep(self) -> MeterState {
        match self.pre_sweep_update_millihz {
            Some(rate) => MeterState {
                update_millihz: rate,
                pre_sweep_update_millihz: None,
                ..self
            },
            None => self,
        }
    }

    /// A sweep has ended: the meter is read as often as before it.
    pub fn end_sweep(&mut self)
        ensures
            *final(self) == old(self).after_sweep(),
    {
        if let Some(rate) = self.pre_sweep_update_millihz {
            self.update_millihz = rate;
            self.pre_sweep_update_millihz = None;
        }
    }

    /// The time between two readings.
    pub open spec fn interval(self) -> int {
        1_000_000_000_000int / (self.not_too_slow().update_millihz as int)
    }

    pub fn read_interval(&self) -> (r: u64)
        ensures
            r == self.interval(),
    {
        let rate: u64 = if self.update_millihz < LEAST_UPDATE_MILLIHZ {
            LEAST_UPDATE_MILLIHZ as u64
        } else {
            self.update_millihz as u64
        };
        1_000_000_000_000 / rate
    }
}

/// A sweep that has ended leaves the meter read as often as before it began.
pub proof fn law_a_sweep_gives_the_rate_back(m: MeterState, sweep_hz: u32)
    requires
        m.pre_sweep_update_millihz is None,
    ensures
        m.for_sweep(sweep_hz).after_sweep() == m,
{
}

/// How often a meter can be read, for the user to choose from.
pub fn rate_choices() -> (r: Vec<(u32, &'static str)>)
    ensures
        r@.len() == 5,
        r@[0].0 == 20_000 && r@[0].1@ == "20 Hz (50ms)"@,
        r@[1].0 == 10_000 && r@[1].1@ == "10 Hz (100ms)"@,
        r@[2].0 == 5_000 && r@[2].1@ == "5 Hz (200ms)"@,
        r@[3].0 == 1_000 && r@[3].1@ == "1 Hz (1 second)"@,
        r@[4].0 == 500 && r@[4].1@ == "0.5 Hz (2 seconds)"@,
{
    let mut r: Vec<(u32, &'static str)> = Vec::new();
    r.push((20_000, "20 Hz (50ms)"));
    r.push((10_000, "10 Hz (100ms)"));
    r.push((5_000, "5 Hz (200ms)"));
    r.push((1_000, "1 Hz (1 second)"));
    r.push((500, "0.5 Hz (2 seconds)"));
    r
}

/// A rate in hertz, without zeros at its end.
pub open spec fn hertz(millihz: u32) -> Seq<char> {
    let (whole, part) = ((millihz / 1000) as nat, (millihz % 1000) as nat);
    decimal(whole) + if part == 0 {
        seq![]
    } else if part % 10 != 0 {
        "."@ + zero_padded(part, 3)
    } else if part % 100 != 0 {
        "."@ + zero_padded(part / 10, 2)
    } else {
        "."@ + zero_padded(part / 100, 1)
    }
}

/// The name of a rate: that under which it is offered, or else the rate itself.
pub fn rate_label(millihz: u32) -> (r: String)
    ensures
        r@ == (if millihz == 20_000 {
            "20 Hz (50ms)"@
        } else if millihz == 10_000 {
            "10 Hz (100ms)"@
        } else if millihz == 5_000 {
            "5 Hz (200ms)"@
        } else if millihz == 1_000 {
            "1 Hz (1 second)"@
        } else if millihz == 500 {
            "0.5 Hz (2 seconds)"@
        } else {
            hertz(millihz) + " Hz"@
        }),
{
    let choices = rate_choices();
    let mut i: usize = 0;
    while i < choices.len()
        invariant
            i <= choices@.len() == 5,
            choices@[0].0 == 20_000 && choices@[0].1@ == "20 Hz (50ms)"@,
            choices@[1].0 == 10_000 && choices@[1].1@ == "10 Hz (100ms)"@,
            choices@[2].0 == 5_000 && choices@[2].1@ == "5 Hz (200ms)"@,
            choices@[3].0 == 1_000 && choices@[3].1@ == "1 Hz (1 second)"@,
            choices@[4].0 == 500 && choices@[4].1@ == "0.5 Hz (2 seconds)"@,
            forall|k: int| 0 <= k < i ==> (#[trigger] choices@[k]).0 != millihz,
        decreases choices@.len() - i,
    {
        if choices[i].0 == millihz {
            return choices[i].1.to_string();
        }
        i = i + 1;
    }
    assert(choices@[0].0 != millihz && choices@[1].0 != millihz && choices@[2].0 != millihz
        && choices@[3].0 != millihz && choices@[4].0 != millihz);
    let (whole, part): (u32, u32) = (millihz / 1000, millihz % 1000);
    let mut r = decimal_text(whole as u64);
    if part != 0 {
        r.append(".");
        if part % 10 != 0 {
            push_zero_padded(&mut r, part as u64, 3);
        } else if part % 100 != 0 {
            push_zero_padded(&mut r, (part / 10) as u64, 2);
        } else {
            push_zero_padded(&mut r, (part / 100) as u64, 1);
        }
    }
    assert(r@ =~= hertz(millihz));
    r.append(" Hz");
    r
}

/// Whether a meter of this kind can be read so often.
pub fn rate_is_offered(kind: PowerMeterKind, millihz: u32) -> (r: bool)
    ensures
        r == (millihz <= kind.fastest_hz() * 1000),
{
    millihz <= kind.max_update_hz() * 1000
}

pub struct VtxState {
    pub port_state: PortState,
    pub ready: bool,
    pub last_seen_at: Option<String>,
    pub status: Option<VtxStatus>,
    pub config: Option<VtxConfig>,
    pub pa_table: Vec<PaCalibration>,
}

impl Default for VtxState {
    fn default() -> (r: Self)
        ensures
            r.port_state is Disconnected,
            !r.ready,
            r.last_seen_at is None,
            r.status is None,
            r.config is None,
            r.pa_table@.len() == 0,
    {
        VtxState {
            port_state: PortState::Disconnected,
            ready: false,
            last_seen_at: None,
            status: None,
            config: None,
            pa_table: Vec::new(),
        }
    }
}

pub struct OsdState {
    pub canvas: Option<(u8, u8)>,
    pub keepalive_at: Option<String>,
    pub debug_overlay_enabled: bool,
}

impl Default for OsdState {
    fn default() -> (r: Self)
        ensures
            r.canvas is None,
            r.keepalive_at is None,
            r.debug_overlay_enabled,
    {
        OsdState { canvas: None, keepalive_at: None, debug_overlay_enabled: true }
    }
}

/// Whether the table may be handed to the VTX, and whether it was.
#[derive(Clone, Copy, Debug, PartialEq, Eq, Structural)]
pub struct VtxTableSyncState {
    pub ready: bool,
    pub synchronized: bool,
}

impl Default for VtxTableSyncState {
    fn default() -> (r: Self)
        ensures
            !r.ready,
            !r.synchronized,
    {
        VtxTableSyncState { ready: false, synchronized: false }
    }
}

impl VtxTableSyncState {
    /// The table was edited: the VTX does not have it, and does not get it yet.
    pub fn table_modified(&mut self)
        ensures
            !final(self).ready,
            !final(self).synchronized,
    {
        self.ready = false;
        self.synchronized = false;
    }
}

/// A meter is read no more often than its kind allows and no less often than once in a
/// hundred seconds; otherwise as often as was chosen. A choice of a kind changes nothing else.
pub proof fn law_a_rate_suits_the_meter(m: MeterState, kind: PowerMeterKind)
    ensures
        ({
            let r = m.with_kind(kind);
            &&& r.kind == kind
            &&& r.update_millihz <= kind.fastest_hz() * 1000
            &&& r.update_millihz <= m.update_millihz
            &&& r.update_millihz == m.update_millihz || r.update_millihz == kind.fastest_hz() * 1000
            &&& r == (MeterState { kind, update_millihz: r.update_millihz, ..m })
        }),
        m.not_too_slow().update_millihz >= 10,
        m.update_millihz >= 10 ==> m.not_too_slow() == m,
        m.update_millihz < 10 ==> m.not_too_slow() == (MeterState { update_millihz: 10, ..m }),
{
}

/// During a sweep the meter is read as often as the sweep wants; the rate before it is kept.
pub proof fn law_a_sweep_sets_the_rate(m: MeterState, sweep_hz: u32)
    requires
        sweep_hz <= 10,
    ensures
        m.for_sweep(sweep_hz).update_millihz == 1000 * sweep_hz,
        m.for_sweep(sweep_hz).pre_sweep_update_millihz == Some(m.update_millihz),
        m.pre_sweep_update_millihz is None ==> m.after_sweep() == m,
        m.after_sweep().pre_sweep_update_millihz is None,
        m.after_sweep().kind == m.kind && m.after_sweep().port_state == m.port_state,
{
}

/// As many intervals as a rate counts fill a thousand seconds, and no more would.
pub proof fn law_an_interval_fits_the_rate(m: MeterState)
    requires
        m.update_millihz >= 10,
    ensures
        m.interval() * m.update_millihz <= 1_000_000_000_000,
        (m.interval() + 1) * m.update_millihz > 1_000_000_000_000,
{
    let (n, d) = (1_000_000_000_000int, m.update_millihz as int);
    vstd::arithmetic::div_mod::lemma_fundamental_div_mod(n, d);
    assert((n / d + 1) * d == d * (n / d) + d) by (nonlinear_arith);
    assert(d * (n / d) == (n / d) * d) by (nonlinear_arith);
}

/// A rate is told in hertz and up to three decimals, no more than it has.
pub proof fn law_a_rate_is_told_in_hertz(millihz: u32, whole: nat, part: nat)
    requires
        part < 1000,
        1000 * whole + part == millihz,
    ensures
        part == 0 ==> hertz(millihz) == decimal(whole),
        part > 0 && part % 10 == 0 && part % 100 == 0 ==> hertz(millihz) == decimal(whole) + "."@
            + decimal(part / 100),
        part > 0 && part % 100 != 0 && part % 10 == 0 ==> hertz(millihz) == decimal(whole) + "."@
            + zero_padded(part / 10, 2),
        part % 10 != 0 ==> hertz(millihz) == decimal(whole) + "."@ + zero_padded(part, 3),
{
    assert(decimal(whole) + seq![] =~= decimal(whole));
    if part > 0 && part % 100 == 0 {
        assert(decimal(part / 100).len() == 1);
    }
    assert(decimal(whole) + ("."@ + zero_padded(part, 3)) =~= decimal(whole) + "."@ + zero_padded(
        part,
        3,
    ));
    assert(decimal(whole) + ("."@ + zero_padded(part / 10, 2)) =~= decimal(whole) + "."@
        + zero_padded(part / 10, 2));
    assert(decimal(whole) + ("."@ + zero_padded(part / 100, 1)) =~= decimal(whole) + "."@
        + zero_padded(part / 100, 1));
}

} // verus!
