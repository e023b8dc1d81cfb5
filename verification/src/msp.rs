//! The MSP payloads that the VTX and the tool exchange.

use vstd::prelude::*;
#[allow(unused_imports)]
use vstd::string::*;
#[allow(unused_imports)]
use vstd::utf8::*;

use crate::text::{decimal, push_decimal, trim_end, trimmed_end};

pub mod displayport_cmd;
pub mod frame;
pub mod function;
pub mod laws;
pub mod link;

verus! {

/// The number that two bytes write, the low byte first.
pub open spec fn le16(lo: u8, hi: u8) -> u16 {
    (lo + 256 * hi) as u16
}

pub open spec fn low_byte(v: u16) -> u8 {
    (v % 256) as u8
}

pub open spec fn high_byte(v: u16) -> u8 {
    (v / 256) as u8
}

pub fn u16_le(lo: u8, hi: u8) -> (r: u16)
    ensures
        r == le16(lo, hi),
{
    lo as u16 + 256 * (hi as u16)
}

pub fn low(v: u16) -> (r: u8)
    ensures
        r == low_byte(v),
{
    (v % 256) as u8
}

pub fn high(v: u16) -> (r: u8)
    ensures
        r == high_byte(v),
{
    (v / 256) as u8
}

pub proof fn lemma_le16_bytes(v: u16)
    ensures
        le16(low_byte(v), high_byte(v)) == v,
{
}

/// The words `v`, each with its low byte first.
pub open spec fn le_bytes(v: Seq<u16>) -> Seq<u8> {
    Seq::new(
        2 * v.len(),
        |i: int| if i % 2 == 0 { low_byte(v[i / 2]) } else { high_byte(v[i / 2]) },
    )
}

/// The `n` words at `at` in `p`.
pub open spec fn le_words(p: Seq<u8>, at: int, n: nat) -> Seq<u16> {
    Seq::new(n, |i: int| le16(p[at + 2 * i], p[at + 2 * i + 1]))
}

/// One for true, zero for false.
pub open spec fn flag_byte(b: bool) -> u8 {
    if b {
        1
    } else {
        0
    }
}

pub fn flag(b: bool) -> (r: u8)
    ensures
        r == flag_byte(b),
{
    if b {
        1
    } else {
        0
    }
}

/// The payloads that are decoded.
#[derive(Clone, Copy, Debug, PartialEq, Eq, Structural)]
pub enum PayloadKind {
    PaCalibrationReading,
    VtxConfig,
    VtxBand,
    VtxPowerLevel,
    PaCalibration,
}

impl PayloadKind {
    pub open spec fn spec_name(self) -> Seq<char> {
        match self {
            PayloadKind::PaCalibrationReading => "PACALIBRATION"@,
            PayloadKind::VtxConfig => "MSP_VTX_CONFIG"@,
            PayloadKind::VtxBand => "SET_VTXTABLE_BAND"@,
            PayloadKind::VtxPowerLevel => "SET_VTXTABLE_POWERLEVEL"@,
            PayloadKind::PaCalibration => "PACALTABLE"@,
        }
    }

    pub fn name(self) -> (r: &'static str)
        ensures
            r@ == self.spec_name(),
    {
        match self {
            PayloadKind::PaCalibrationReading => "PACALIBRATION",
            PayloadKind::VtxConfig => "MSP_VTX_CONFIG",
            PayloadKind::VtxBand => "SET_VTXTABLE_BAND",
            PayloadKind::VtxPowerLevel => "SET_VTXTABLE_POWERLEVEL",
            PayloadKind::PaCalibration => "PACALTABLE",
        }
    }
}

/// A payload of `len` bytes, which is less than its kind has.
#[derive(Clone, Copy, Debug, PartialEq, Eq, Structural)]
pub struct PayloadTooShort {
    pub kind: PayloadKind,
    pub len: usize,
}

impl PayloadTooShort {
    /// The error in words.
    pub fn message(self) -> (r: String)
        ensures
            r@ == self.kind.spec_name() + " payload too short: "@ + decimal(self.len as nat)
                + " bytes"@,
    {
        let mut r = String::new();
        r.append(self.kind.name());
        r.append(" payload too short: ");
        push_decimal(&mut r, self.len as u64);
        r.append(" bytes");
        assert(r@ =~= self.kind.spec_name() + " payload too short: "@ + decimal(self.len as nat)
            + " bytes"@);
        r
    }
}

/// What the VTX reports of the calibration in progress. A field that the
/// payload is too short for is `None`.
#[derive(Clone, Copy, Debug, PartialEq, Eq, Structural)]
pub struct PaCalibrationReading {
    pub power_level: u8,
    pub vref_mv: u16,
    pub detector_mv: u16,
    pub boost_on: Option<bool>,
    pub rtc6705_level: Option<u8>,
    pub pid_active: Option<bool>,
    pub frequency_mhz: Option<u16>,
    pub session_active: Option<bool>,
    pub ntc_raw: Option<u16>,
    /// The temperature of the amplifier in tenths of a degree Celsius.
    pub pa_temp_c_x10: Option<i16>,
}

/// The number that two bytes write in two's complement, the low byte first.
pub open spec fn le_i16(lo: u8, hi: u8) -> i16 {
    if hi < 128 {
        (lo + 256 * hi) as i16
    } else {
        (lo + 256 * hi - 0x1_0000) as i16
    }
}

fn i16_le(lo: u8, hi: u8) -> (r: i16)
    ensures
        r == le_i16(lo, hi),
{
    let v: i32 = lo as i32 + 256 * (hi as i32);
    if hi < 128 {
        v as i16
    } else {
        (v - 0x1_0000) as i16
    }
}

pub open spec fn pa_calibration_reading_of(p: Seq<u8>) -> PaCalibrationReading {
    PaCalibrationReading {
        power_level: p[0],
        vref_mv: le16(p[1], p[2]),
        detector_mv: le16(p[3], p[4]),
        boost_on: if p.len() >= 10 { Some(p[5] != 0) } else { None },
        rtc6705_level: if p.len() >= 10 { Some(p[6]) } else { None },
        pid_active: if p.len() >= 10 { Some(p[7] != 0) } else { None },
        frequency_mhz: if p.len() >= 10 { Some(le16(p[8], p[9])) } else { None },
        session_active: if p.len() >= 11 { Some(p[10] != 0) } else { None },
        ntc_raw: if p.len() >= 15 { Some(le16(p[11], p[12])) } else { None },
        pa_temp_c_x10: if p.len() >= 15 { Some(le_i16(p[13], p[14])) } else { None },
    }
}

pub fn decode_pa_calibration_reading(payload: &[u8]) -> (r: Result<
    PaCalibrationReading,
    PayloadTooShort,
>)
    ensures
        match r {
            Ok(v) => payload@.len() >= 5 && v == pa_calibration_reading_of(payload@),
            Err(e) => payload@.len() < 5 && e.kind == PayloadKind::PaCalibrationReading && e.len
                == payload@.len(),
        },
{
    let n = payload.len();
    if n < 5 {
        return Err(PayloadTooShort { kind: PayloadKind::PaCalibrationReading, len: n });
    }
    Ok(
        PaCalibrationReading {
            power_level: payload[0],
            vref_mv: u16_le(payload[1], payload[2]),
            detector_mv: u16_le(payload[3], payload[4]),
            boost_on: if n >= 10 { Some(payload[5] != 0) } else { None },
            rtc6705_level: if n >= 10 { Some(payload[6]) } else { None },
            pid_active: if n >= 10 { Some(payload[7] != 0) } else { None },
            frequency_mhz: if n >= 10 { Some(u16_le(payload[8], payload[9])) } else { None },
            session_active: if n >= 11 { Some(payload[10] != 0) } else { None },
            ntc_raw: if n >= 15 { Some(u16_le(payload[11], payload[12])) } else { None },
            pa_temp_c_x10: if n >= 15 { Some(i16_le(payload[13], payload[14])) } else { None },
        },
    )
}

/// The payload that asks the VTX to put `mv` on the bias DAC for `power_level`.
pub open spec fn pa_calibration_request(
    power_level: u8,
    mv: Option<u16>,
    session_active: bool,
    boost_mode: u8,
) -> Seq<u8> {
    let mv = match mv {
        Some(v) => v,
        None => 0,
    };
    seq![power_level, low_byte(mv), high_byte(mv), flag_byte(session_active), boost_mode]
}

pub fn encode_pa_calibration_request(
    power_level: u8,
    mv: Option<u16>,
    session_active: bool,
    boost_mode: u8,
) -> (r: Vec<u8>)
    ensures
        r@ == pa_calibration_request(power_level, mv, session_active, boost_mode),
{
    let mv: u16 = match mv {
        Some(v) => v,
        None => 0,
    };
    let r = vec![power_level, low(mv), high(mv), flag(session_active), boost_mode];
    r
}

pub const DISPLAYPORT_COLUMNS: u8 = 30;

pub const DISPLAYPORT_ROWS: u8 = 16;

pub fn encode_displayport_keepalive() -> (r: Vec<u8>)
    ensures
        r@ == seq![displayport_cmd::KEEPALIVE],
{
    vec![displayport_cmd::KEEPALIVE]
}

pub fn encode_displayport_release() -> (r: Vec<u8>)
    ensures
        r@ == seq![displayport_cmd::RELEASE],
{
    vec![displayport_cmd::RELEASE]
}

pub fn encode_displayport_clear() -> (r: Vec<u8>)
    ensures
        r@ == seq![displayport_cmd::CLEAR],
{
    vec![displayport_cmd::CLEAR]
}

pub fn encode_displayport_draw_screen() -> (r: Vec<u8>)
    ensures
        r@ == seq![displayport_cmd::DRAW_SCREEN],
{
    vec![displayport_cmd::DRAW_SCREEN]
}

/// The first `n` of `s`, or all of it where it holds no more.
pub open spec fn at_most_first<T>(s: Seq<T>, n: nat) -> Seq<T> {
    if s.len() > n {
        s.take(n as int)
    } else {
        s
    }
}

/// How many columns are left of a row from `col` on.
pub open spec fn columns_from(col: u8) -> nat {
    if col < DISPLAYPORT_COLUMNS {
        (DISPLAYPORT_COLUMNS - col) as nat
    } else {
        0
    }
}

pub open spec fn displayport_string(row: u8, col: u8, text: Seq<char>) -> Seq<u8> {
    seq![displayport_cmd::DRAW_STRING, row, col, 0u8] + at_most_first(
        encode_utf8(text),
        columns_from(col),
    )
}

/// Appends `bytes[from..to]` to `v`.
pub fn push_bytes(v: &mut Vec<u8>, bytes: &[u8], from: usize, to: usize)
    requires
        from <= to <= bytes@.len(),
    ensures
        final(v)@ == old(v)@ + bytes@.subrange(from as int, to as int),
{
    let ghost before = v@;
    let mut i: usize = from;
    while i < to
        invariant
            from <= i <= to <= bytes@.len(),
            v@ == before + bytes@.subrange(from as int, i as int),
        decreases to - i,
    {
        v.push(bytes[i]);
        i = i + 1;
        assert(v@ =~= before + bytes@.subrange(from as int, i as int));
    }
}

/// Draws `text` from (`row`, `col`) on; what would pass the last column is cut off.
pub fn encode_displayport_draw_string(row: u8, col: u8, text: &str) -> (r: Vec<u8>)
    ensures
        r@ == displayport_string(row, col, text@),
{
    let room: usize = if col < DISPLAYPORT_COLUMNS { (DISPLAYPORT_COLUMNS - col) as usize } else { 0 };
    let bytes = text.as_bytes();
    let n: usize = if bytes.len() > room { room } else { bytes.len() };
    let mut v: Vec<u8> = vec![displayport_cmd::DRAW_STRING, row, col, 0];
    push_bytes(&mut v, bytes, 0, n);
    assert(bytes@.subrange(0, n as int) =~= at_most_first(encode_utf8(text@), columns_from(col)));
    v
}

/// The columns and rows of the OSD canvas.
pub fn decode_osd_canvas(payload: &[u8]) -> (r: Option<(u8, u8)>)
    ensures
        r == (if payload@.len() < 2 { None } else { Some((payload@[0], payload@[1])) }),
{
    if payload.len() < 2 {
        return None;
    }
    Some((payload[0], payload[1]))
}

/// One power level of the calibration table; level 0 holds the frequencies instead.
#[derive(Debug)]
pub struct PaCalibration {
    pub idx: u8,
    pub m_w: u16,
    pub value: [u16; 7],
    pub detector: [u16; 7],
    pub ext_pa_enable: bool,
    pub rtc6705_level: u8,
    pub dac_sign_inverted: bool,
}

#[verifier::ext_equal]
pub struct PaCalibrationView {
    pub idx: u8,
    pub m_w: u16,
    pub value: Seq<u16>,
    pub detector: Seq<u16>,
    pub ext_pa_enable: bool,
    pub rtc6705_level: u8,
    pub dac_sign_inverted: bool,
}

impl View for PaCalibration {
    type V = PaCalibrationView;

    open spec fn view(&self) -> PaCalibrationView {
        PaCalibrationView {
            idx: self.idx,
            m_w: self.m_w,
            value: self.value@,
            detector: self.detector@,
            ext_pa_enable: self.ext_pa_enable,
            rtc6705_level: self.rtc6705_level,
            dac_sign_inverted: self.dac_sign_inverted,
        }
    }
}

impl Clone for PaCalibration {
    fn clone(&self) -> (r: Self)
        ensures
            r@ == self@,
    {
        PaCalibration {
            idx: self.idx,
            m_w: self.m_w,
            value: self.value,
            detector: self.detector,
            ext_pa_enable: self.ext_pa_enable,
            rtc6705_level: self.rtc6705_level,
            dac_sign_inverted: self.dac_sign_inverted,
        }
    }
}

impl Default for PaCalibration {
    fn default() -> (r: Self)
        ensures
            r@ == (PaCalibrationView {
                idx: 0,
                m_w: 0,
                value: Seq::new(7, |i: int| 0u16),
                detector: Seq::new(7, |i: int| 0u16),
                ext_pa_enable: false,
                rtc6705_level: 0,
                dac_sign_inverted: false,
            }),
    {
        let r = PaCalibration {
            idx: 0,
            m_w: 0,
            value: [0;7],
            detector: [0;7],
            ext_pa_enable: false,
            rtc6705_level: 0,
            dac_sign_inverted: false,
        };
        assert(r.value@ =~= Seq::new(7, |i: int| 0u16));
        assert(r.detector@ =~= Seq::new(7, |i: int| 0u16));
        r
    }
}

/// What an MSP_VTX_CONFIG payload says.
#[derive(Clone, Copy, Debug, PartialEq, Eq, Structural)]
pub struct VtxConfig {
    pub vtx_type: u8,
    pub band: u8,
    pub channel: u8,
    pub power: u8,
    pub pitmode: bool,
    pub frequency_mhz: u16,
    pub device_ready: bool,
    pub low_power_disarm: u8,
    pub pit_mode_freq: u16,
    pub vtx_table_available: bool,
    pub band_count: u8,
    pub channel_count: u8,
    pub power_level_count: u8,
}

impl Default for VtxConfig {
    fn default() -> (r: Self)
        ensures
            r == (VtxConfig {
                vtx_type: 0,
                band: 0,
                channel: 0,
                power: 0,
                pitmode: false,
                frequency_mhz: 0,
                device_ready: false,
                low_power_disarm: 0,
                pit_mode_freq: 0,
                vtx_table_available: false,
                band_count: 0,
                channel_count: 0,
                power_level_count: 0,
            }),
    {
        VtxConfig {
            vtx_type: 0,
            band: 0,
            channel: 0,
            power: 0,
            pitmode: false,
            frequency_mhz: 0,
            device_ready: false,
            low_power_disarm: 0,
            pit_mode_freq: 0,
            vtx_table_available: false,
            band_count: 0,
            channel_count: 0,
            power_level_count: 0,
        }
    }
}

pub open spec fn vtx_config_of(p: Seq<u8>) -> VtxConfig {
    VtxConfig {
        vtx_type: p[0],
        band: p[1],
        channel: p[2],
        power: p[3],
        pitmode: p[4] != 0,
        frequency_mhz: le16(p[5], p[6]),
        device_ready: p[7] != 0,
        low_power_disarm: p[8],
        pit_mode_freq: le16(p[9], p[10]),
        vtx_table_available: p[11] != 0,
        band_count: p[12],
        channel_count: p[13],
        power_level_count: p[14],
    }
}

pub fn decode_vtx_config(payload: &[u8]) -> (r: Result<VtxConfig, PayloadTooShort>)
    ensures
        match r {
            Ok(c) => payload@.len() >= 15 && c == vtx_config_of(payload@),
            Err(e) => payload@.len() < 15 && e.kind == PayloadKind::VtxConfig && e.len
                == payload@.len(),
        },
{
    if payload.len() < 15 {
        return Err(PayloadTooShort { kind: PayloadKind::VtxConfig, len: payload.len() });
    }
    Ok(
        VtxConfig {
            vtx_type: payload[0],
            band: payload[1],
            channel: payload[2],
            power: payload[3],
            pitmode: payload[4] != 0,
            frequency_mhz: u16_le(payload[5], payload[6]),
            device_ready: payload[7] != 0,
            low_power_disarm: payload[8],
            pit_mode_freq: u16_le(payload[9], payload[10]),
            vtx_table_available: payload[11] != 0,
            band_count: payload[12],
            channel_count: payload[13],
            power_level_count: payload[14],
        },
    )
}

/// One band of the VTX table.
#[derive(Debug)]
pub struct VtxBand {
    pub index: u8,
    pub name: String,
    pub letter: char,
    pub is_factory: bool,
    pub channel_count: u8,
    pub freqs_mhz: [u16; 8],
}

#[verifier::ext_equal]
pub struct VtxBandView {
    pub index: u8,
    pub name: Seq<char>,
    pub letter: char,
    pub is_factory: bool,
    pub channel_count: u8,
    pub freqs_mhz: Seq<u16>,
}

impl View for VtxBand {
    type V = VtxBandView;

    open spec fn view(&self) -> VtxBandView {
        VtxBandView {
            index: self.index,
            name: self.name@,
            letter: self.letter,
            is_factory: self.is_factory,
            channel_count: self.channel_count,
            freqs_mhz: self.freqs_mhz@,
        }
    }
}

impl Clone for VtxBand {
    fn clone(&self) -> (r: Self)
        ensures
            r@ == self@,
    {
        VtxBand {
            index: self.index,
            name: self.name.clone(),
            letter: self.letter,
            is_factory: self.is_factory,
            channel_count: self.channel_count,
            freqs_mhz: self.freqs_mhz,
        }
    }
}

impl Default for VtxBand {
    fn default() -> (r: Self)
        ensures
            r@ == (VtxBandView {
                index: 0,
                name: seq![],
                letter: '?',
                is_factory: false,
                channel_count: 8,
                freqs_mhz: Seq::new(8, |i: int| 0u16),
            }),
    {
        let r = VtxBand {
            index: 0,
            name: String::new(),
            letter: '?',
            is_factory: false,
            channel_count: 8,
            freqs_mhz: [0;8],
        };
        assert(r.freqs_mhz@ =~= Seq::new(8, |i: int| 0u16));
        r
    }
}

/// What `String::from_utf8_lossy` makes of bytes that are not UTF-8.
pub uninterp spec fn lossy_text(bytes: Seq<u8>) -> Seq<char>;

/// The text of `bytes`: what they write in UTF-8, or the lossy reading of them.
pub open spec fn text_of(bytes: Seq<u8>) -> Seq<char> {
    if valid_utf8(bytes) {
        decode_utf8(bytes)
    } else {
        lossy_text(bytes)
    }
}

/// `String::from_utf8_lossy`: valid UTF-8 is decoded; of other bytes the result
/// depends on the bytes alone, and is not described further.
#[verifier::external_body]
fn from_utf8_lossy(bytes: &[u8]) -> (r: String)
    ensures
        r@ == (if valid_utf8(bytes@) { decode_utf8(bytes@) } else { lossy_text(bytes@) }),
{
    String::from_utf8_lossy(bytes).into_owned()
}

/// How many bytes of a band payload hold the name.
pub open spec fn name_len(p: Seq<u8>) -> nat {
    if p[1] < 8 {
        p[1] as nat
    } else {
        8
    }
}

/// A band payload, with `name` for the bytes of its name.
pub open spec fn vtx_band_with_name(p: Seq<u8>, name: Seq<char>) -> VtxBandView {
    VtxBandView {
        index: p[0],
        name: trim_end(name),
        letter: p[10] as char,
        is_factory: p[11] != 0,
        channel_count: p[12],
        freqs_mhz: le_words(p, 13, 8),
    }
}

pub open spec fn vtx_band_of(p: Seq<u8>) -> VtxBandView {
    vtx_band_with_name(p, text_of(p.subrange(2, 2 + name_len(p) as int)))
}

/// The band in a payload whose name reads `name`.
pub fn vtx_band_named(payload: &[u8], name: &str) -> (r: VtxBand)
    requires
        payload@.len() >= 29,
    ensures
        r@ == vtx_band_with_name(payload@, name@),
{
    let mut freqs_mhz: [u16; 8] = [0;8];
    let mut i: usize = 0;
    while i < 8
        invariant
            i <= 8,
            payload@.len() >= 29,
            forall|k: int| 0 <= k < i ==> freqs_mhz@[k] == le_words(payload@, 13, 8)[k],
        decreases 8 - i,
    {
        freqs_mhz[i] = u16_le(payload[13 + 2 * i], payload[14 + 2 * i]);
        i = i + 1;
    }
    assert(freqs_mhz@ =~= le_words(payload@, 13, 8));
    VtxBand {
        index: payload[0],
        name: trimmed_end(name),
        letter: payload[10] as char,
        is_factory: payload[11] != 0,
        channel_count: payload[12],
        freqs_mhz,
    }
}

/// `bytes[from..to]`, as a vector.
pub(crate) fn part(bytes: &[u8], from: usize, to: usize) -> (r: Vec<u8>)
    requires
        from <= to <= bytes@.len(),
    ensures
        r@ == bytes@.subrange(from as int, to as int),
{
    let mut r: Vec<u8> = Vec::new();
    push_bytes(&mut r, bytes, from, to);
    assert(r@ =~= bytes@.subrange(from as int, to as int));
    r
}

pub fn decode_vtx_band(payload: &[u8]) -> (r: Result<VtxBand, PayloadTooShort>)
    ensures
        match r {
            Ok(b) => payload@.len() >= 29 && b@ == vtx_band_of(payload@),
            Err(e) => payload@.len() < 29 && e.kind == PayloadKind::VtxBand && e.len
                == payload@.len(),
        },
{
    if payload.len() < 29 {
        return Err(PayloadTooShort { kind: PayloadKind::VtxBand, len: payload.len() });
    }
    let n: usize = if payload[1] < 8 { payload[1] as usize } else { 8 };
    let bytes = part(payload, 2, 2 + n);
    let name = from_utf8_lossy(bytes.as_slice());
    Ok(vtx_band_named(payload, name.as_str()))
}

/// The `i`th of eight name bytes: a space where the name is shorter.
pub open spec fn name_byte(name: Seq<char>, i: int) -> u8 {
    let bytes = encode_utf8(name);
    if i < bytes.len() {
        bytes[i]
    } else {
        32
    }
}

pub open spec fn vtx_band_bytes(b: VtxBandView) -> Seq<u8> {
    seq![b.index, 8u8] + Seq::new(8, |i: int| name_byte(b.name, i)) + seq![
        (b.letter as int % 256) as u8,
        flag_byte(b.is_factory),
        b.channel_count,
    ] + le_bytes(b.freqs_mhz)
}

pub fn encode_vtx_band(band: &VtxBand) -> (r: Vec<u8>)
    ensures
        r@ == vtx_band_bytes(band@),
        r@.len() == 29,
{
    let mut p: Vec<u8> = vec![band.index, 8];
    let name_bytes = band.name.as_str().as_bytes();
    let mut i: usize = 0;
    while i < 8
        invariant
            i <= 8,
            name_bytes@ == encode_utf8(band.name@),
            p@ == seq![band.index, 8u8] + Seq::new(i as nat, |k: int| name_byte(band.name@, k)),
        decreases 8 - i,
    {
        if i < name_bytes.len() {
            p.push(name_bytes[i]);
        } else {
            p.push(32);
        }
        i = i + 1;
        assert(p@ =~= seq![band.index, 8u8] + Seq::new(
            i as nat,
            |k: int| name_byte(band.name@, k),
        ));
    }
    p.push((band.letter as u32 % 256) as u8);
    p.push(flag(band.is_factory));
    p.push(band.channel_count);
    push_words(&mut p, &band.freqs_mhz);
    assert(p@ =~= vtx_band_bytes(band@));
    p
}

/// Appends the words `v` to `p`, each with its low byte first.
fn push_words<const N: usize>(p: &mut Vec<u8>, v: &[u16; N])
    requires
        N <= 1000,
    ensures
        final(p)@ == old(p)@ + le_bytes(v@),
{
    let ghost before = p@;
    let mut i: usize = 0;
    while i < N
        invariant
            i <= N <= 1000,
            p@ == before + le_bytes(v@.take(i as int)),
        decreases N - i,
    {
        p.push(low(v[i]));
        p.push(high(v[i]));
        i = i + 1;
        assert(p@ =~= before + le_bytes(v@.take(i as int)));
    }
    assert(v@.take(N as int) =~= v@);
}

/// One power level of the VTX table.
#[derive(Debug)]
pub struct VtxPowerLevel {
    pub index: u8,
    pub m_w: u16,
    pub label: String,
}

#[verifier::ext_equal]
pub struct VtxPowerLevelView {
    pub index: u8,
    pub m_w: u16,
    pub label: Seq<char>,
}

impl View for VtxPowerLevel {
    type V = VtxPowerLevelView;

    open spec fn view(&self) -> VtxPowerLevelView {
        VtxPowerLevelView { index: self.index, m_w: self.m_w, label: self.label@ }
    }
}

impl Clone for VtxPowerLevel {
    fn clone(&self) -> (r: Self)
        ensures
            r@ == self@,
    {
        VtxPowerLevel { index: self.index, m_w: self.m_w, label: self.label.clone() }
    }
}

impl Default for VtxPowerLevel {
    fn default() -> (r: Self)
        ensures
            r@ == (VtxPowerLevelView { index: 0, m_w: 0, label: seq![] }),
    {
        VtxPowerLevel { index: 0, m_w: 0, label: String::new() }
    }
}

/// How many bytes of a power level payload hold the label.
pub open spec fn label_len(p: Seq<u8>) -> nat {
    if p[3] < p.len() - 4 {
        p[3] as nat
    } else {
        (p.len() - 4) as nat
    }
}

pub open spec fn vtx_power_level_of(p: Seq<u8>) -> VtxPowerLevelView {
    VtxPowerLevelView {
        index: p[0],
        m_w: le16(p[1], p[2]),
        label: text_of(p.subrange(4, 4 + label_len(p) as int)),
    }
}

/// The power level in a payload whose label reads `label`.
pub fn vtx_power_level_labelled(payload: &[u8], label: String) -> (r: VtxPowerLevel)
    requires
        payload@.len() >= 4,
    ensures
        r@ == (VtxPowerLevelView {
            index: payload@[0],
            m_w: le16(payload@[1], payload@[2]),
            label: label@,
        }),
{
    VtxPowerLevel { index: payload[0], m_w: u16_le(payload[1], payload[2]), label }
}

pub fn decode_vtx_power_level(payload: &[u8]) -> (r: Result<VtxPowerLevel, PayloadTooShort>)
    ensures
        match r {
            Ok(l) => payload@.len() >= 4 && l@ == vtx_power_level_of(payload@),
            Err(e) => payload@.len() < 4 && e.kind == PayloadKind::VtxPowerLevel && e.len
                == payload@.len(),
        },
{
    let len = payload.len();
    if len < 4 {
        return Err(PayloadTooShort { kind: PayloadKind::VtxPowerLevel, len });
    }
    let n: usize = if (payload[3] as usize) < len - 4 { payload[3] as usize } else { len - 4 };
    let bytes = part(payload, 4, 4 + n);
    let label = from_utf8_lossy(bytes.as_slice());
    Ok(vtx_power_level_labelled(payload, label))
}

pub open spec fn vtx_power_level_bytes(l: VtxPowerLevelView) -> Seq<u8> {
    let label = at_most_first(encode_utf8(l.label), 255);
    seq![l.index, low_byte(l.m_w), high_byte(l.m_w), label.len() as u8] + label
}

pub fn encode_vtx_power_level(pl: &VtxPowerLevel) -> (r: Vec<u8>)
    ensures
        r@ == vtx_power_level_bytes(pl@),
{
    let label_bytes = pl.label.as_str().as_bytes();
    let n: usize = if label_bytes.len() > 255 { 255 } else { label_bytes.len() };
    let mut p: Vec<u8> = vec![pl.index, low(pl.m_w), high(pl.m_w), n as u8];
    push_bytes(&mut p, label_bytes, 0, n);
    assert(label_bytes@.subrange(0, n as int) =~= at_most_first(encode_utf8(pl.label@), 255));
    p
}

pub open spec fn pa_calibration_of(p: Seq<u8>) -> PaCalibrationView {
    PaCalibrationView {
        idx: p[0],
        m_w: le16(p[1], p[2]),
        value: le_words(p, 3, 7),
        detector: le_words(p, 17, 7),
        ext_pa_enable: p.len() >= 33 && p[0] != 0 && p[31] != 0,
        rtc6705_level: if p.len() >= 33 { p[32] } else { 0 },
        dac_sign_inverted: p.len() >= 33 && p[0] == 0 && p[31] != 0,
    }
}

pub fn decode_pa_calibration(payload: &[u8]) -> (r: Result<PaCalibration, PayloadTooShort>)
    ensures
        match r {
            Ok(e) => payload@.len() >= 31 && e@ == pa_calibration_of(payload@),
            Err(e) => payload@.len() < 31 && e.kind == PayloadKind::PaCalibration && e.len
                == payload@.len(),
        },
{
    if payload.len() < 31 {
        return Err(PayloadTooShort { kind: PayloadKind::PaCalibration, len: payload.len() });
    }
    let mut value: [u16; 7] = [0;7];
    let mut detector: [u16; 7] = [0;7];
    let mut i: usize = 0;
    while i < 7
        invariant
            i <= 7,
            payload@.len() >= 31,
            forall|k: int| 0 <= k < i ==> value@[k] == le_words(payload@, 3, 7)[k],
            forall|k: int| 0 <= k < i ==> detector@[k] == le_words(payload@, 17, 7)[k],
        decreases 7 - i,
    {
        value[i] = u16_le(payload[3 + 2 * i], payload[4 + 2 * i]);
        detector[i] = u16_le(payload[17 + 2 * i], payload[18 + 2 * i]);
        i = i + 1;
    }
    assert(value@ =~= le_words(payload@, 3, 7));
    assert(detector@ =~= le_words(payload@, 17, 7));
    let mut entry = PaCalibration {
        idx: payload[0],
        m_w: u16_le(payload[1], payload[2]),
        value,
        detector,
        ext_pa_enable: false,
        rtc6705_level: 0,
        dac_sign_inverted: false,
    };
    if payload.len() >= 33 {
        if entry.idx == 0 {
            entry.dac_sign_inverted = payload[31] != 0;
        } else {
            entry.ext_pa_enable = payload[31] != 0;
        }
        entry.rtc6705_level = payload[32];
    }
    Ok(entry)
}

pub open spec fn pa_calibration_bytes(e: PaCalibrationView) -> Seq<u8> {
    seq![e.idx, low_byte(e.m_w), high_byte(e.m_w)] + le_bytes(e.value) + le_bytes(e.detector)
}

pub fn encode_pa_calibration(entry: &PaCalibration) -> (r: Vec<u8>)
    ensures
        r@ == pa_calibration_bytes(entry@),
        r@.len() == 31,
{
    let mut p: Vec<u8> = vec![entry.idx, low(entry.m_w), high(entry.m_w)];
    push_words(&mut p, &entry.value);
    push_words(&mut p, &entry.detector);
    p
}

} // verus!
