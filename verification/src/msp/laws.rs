//! What is written is read back.

use vstd::prelude::*;
use vstd::utf8::*;

use crate::msp::{
    displayport_string,
    high_byte,
    label_len,
    le16,
    le_bytes,
    le_words,
    lemma_le16_bytes,
    low_byte,
    name_byte,
    name_len,
    pa_calibration_bytes,
    pa_calibration_of,
    pa_calibration_reading_of,
    pa_calibration_request,
    vtx_band_bytes,
    vtx_band_of,
    vtx_config_of,
    vtx_power_level_bytes,
    vtx_power_level_of,
    PaCalibrationView,
    VtxBandView,
    VtxPowerLevelView,
};
use crate::text::trim_end;
use crate::vtxtable::{VtxSelectionState, VtxTableView};

verus! {

/// Words that were written at `at` are read there.
proof fn lemma_words_read_back(p: Seq<u8>, at: int, v: Seq<u16>)
    requires
        0 <= at,
        at + 2 * v.len() <= p.len(),
        p.subrange(at, at + 2 * v.len()) == le_bytes(v),
    ensures
        le_words(p, at, v.len()) == v,
{
    let b = le_bytes(v);
    assert forall|i: int| 0 <= i < v.len() implies #[trigger] le_words(p, at, v.len())[i] == v[i] by {
        assert(p.subrange(at, at + 2 * v.len())[2 * i] == p[at + 2 * i]);
        assert(p.subrange(at, at + 2 * v.len())[2 * i + 1] == p[at + 2 * i + 1]);
        assert(2 * i / 2 == i && (2 * i + 1) / 2 == i);
        lemma_le16_bytes(v[i]);
    }
    assert(le_words(p, at, v.len()) =~= v);
}

/// A calibration entry is read back with its power, its bias and its detector
/// voltages. The wire has no room for the rest of it.
pub proof fn law_pa_calibration_reads_back(e: PaCalibrationView)
    requires
        e.value.len() == 7,
        e.detector.len() == 7,
    ensures
        pa_calibration_bytes(e).len() == 31,
        pa_calibration_of(pa_calibration_bytes(e)) == (PaCalibrationView {
            ext_pa_enable: false,
            rtc6705_level: 0,
            dac_sign_inverted: false,
            ..e
        }),
{
    let p = pa_calibration_bytes(e);
    assert(p.subrange(3, 17) =~= le_bytes(e.value));
    assert(p.subrange(17, 31) =~= le_bytes(e.detector));
    lemma_words_read_back(p, 3, e.value);
    lemma_words_read_back(p, 17, e.detector);
    lemma_le16_bytes(e.m_w);
}

proof fn lemma_encode_concat(a: Seq<char>, b: Seq<char>)
    ensures
        encode_utf8(a + b) == encode_utf8(a) + encode_utf8(b),
    decreases a.len(),
{
    if a.len() == 0 {
        assert(a + b =~= b);
        assert(encode_utf8(a) + encode_utf8(b) =~= encode_utf8(b));
    } else {
        assert((a + b).drop_first() =~= a.drop_first() + b);
        lemma_encode_concat(a.drop_first(), b);
        assert(encode_utf8(a + b) =~= encode_utf8(a) + encode_utf8(b));
    }
}

proof fn lemma_trim_spaces(s: Seq<char>, n: nat)
    ensures
        trim_end(s + Seq::new(n, |i: int| ' ')) == trim_end(s),
    decreases n,
{
    let spaces = Seq::new(n, |i: int| ' ');
    if n == 0 {
        assert(s + spaces =~= s);
    } else {
        assert((s + spaces).last() == ' ');
        assert((s + spaces).drop_last() =~= s + Seq::new((n - 1) as nat, |i: int| ' '));
        lemma_trim_spaces(s, (n - 1) as nat);
    }
}

/// A band of eight frequencies is read back as it was written, where its name fits the
/// eight bytes that there are for it and does not end with white space, and where its
/// letter is a single byte.
pub proof fn law_vtx_band_reads_back(b: VtxBandView)
    requires
        b.freqs_mhz.len() == 8,
        encode_utf8(b.name).len() <= 8,
        trim_end(b.name) == b.name,
        b.letter as u32 <= 255,
    ensures
        vtx_band_bytes(b).len() == 29,
        vtx_band_of(vtx_band_bytes(b)) == b,
{
    let p = vtx_band_bytes(b);
    assert(p.subrange(13, 29) =~= le_bytes(b.freqs_mhz));
    lemma_words_read_back(p, 13, b.freqs_mhz);
    let bytes = encode_utf8(b.name);
    let n = (8 - bytes.len()) as nat;
    let spaces = Seq::new(n, |i: int| ' ');
    assert(is_ascii_chars(spaces));
    is_ascii_chars_encode_utf8(spaces);
    assert forall|i: int| 0 <= i < n implies #[trigger] encode_utf8(spaces)[i] == 32 by {
        assert(spaces[i] == ' ');
    }
    lemma_encode_concat(b.name, spaces);
    let field = p.subrange(2, 10);
    assert forall|i: int| 0 <= i < 8 implies #[trigger] field[i] == encode_utf8(b.name + spaces)[i] by {
        assert(field[i] == name_byte(b.name, i));
    }
    assert(field =~= encode_utf8(b.name + spaces));
    encode_utf8_valid_utf8(b.name + spaces);
    encode_utf8_decode_utf8(b.name + spaces);
    lemma_trim_spaces(b.name, n);
    assert(p[10] as char == b.letter);
    assert(vtx_band_of(p) =~= b);
}

/// A power level whose label fits is read back as it was written.
pub proof fn law_vtx_power_level_reads_back(l: VtxPowerLevelView)
    requires
        encode_utf8(l.label).len() <= 255,
    ensures
        vtx_power_level_of(vtx_power_level_bytes(l)) == l,
{
    let p = vtx_power_level_bytes(l);
    assert(p.subrange(4, p.len() as int) =~= encode_utf8(l.label));
    lemma_le16_bytes(l.m_w);
    encode_utf8_valid_utf8(l.label);
    encode_utf8_decode_utf8(l.label);
}

/// What a selection puts on the wire says what is selected, and how large the table is.
pub proof fn law_vtx_config_reads_back(sel: VtxSelectionState, table: VtxTableView)
    ensures
        ({
            let c = vtx_config_of(sel.config_bytes(table));
            &&& sel.config_bytes(table).len() == 15
            &&& c.vtx_type == 5
            &&& c.band == sel.selected_band
            &&& c.channel == sel.selected_channel
            &&& c.power == sel.selected_power
            &&& c.pitmode == sel.pitmode
            &&& c.frequency_mhz == sel.spec_frequency_mhz(table)
            &&& c.device_ready
            &&& c.low_power_disarm == 0
            &&& c.pit_mode_freq == 0
            &&& c.vtx_table_available
            &&& c.band_count == table.bands.len() % 256
            &&& c.channel_count == table.channels
            &&& c.power_level_count == table.power_levels.len() % 256
        }),
{
    lemma_le16_bytes(sel.spec_frequency_mhz(table));
}

/// A word is written with its low byte first, and is read back from its two bytes.
pub proof fn law_words_are_little_endian(v: u16, lo: u8, hi: u8)
    ensures
        low_byte(v) + 256 * high_byte(v) == v,
        le16(lo, hi) == lo + 256 * hi,
        le16(low_byte(v), high_byte(v)) == v,
        low_byte(le16(lo, hi)) == lo && high_byte(le16(lo, hi)) == hi,
{
}

/// What the VTX is told to do says the level, the bias in millivolts, none being told as
/// zero, whether calibration goes on, and what the amplifier is to do.
pub proof fn law_a_request_says_what_to_do(
    power_level: u8,
    mv: Option<u16>,
    session_active: bool,
    boost_mode: u8,
)
    ensures
        ({
            let p = pa_calibration_request(power_level, mv, session_active, boost_mode);
            &&& p.len() == 5
            &&& p[0] == power_level
            &&& mv matches Some(v) ==> p[1] + 256 * p[2] == v
            &&& mv is None ==> p[1] == 0 && p[2] == 0
            &&& p[3] == if session_active {
                1int
            } else {
                0
            }
            &&& p[4] == boost_mode
        }),
{
}

/// The bytes of a whole report.
pub open spec fn report_bytes(
    level: u8,
    vref_mv: u16,
    detector_mv: u16,
    boost_on: u8,
    rtc6705_level: u8,
    pid_active: u8,
    frequency_mhz: u16,
    session_active: u8,
    ntc_raw: u16,
    pa_temp_c_x10: i16,
) -> Seq<u8> {
    let temp = pa_temp_c_x10 as int % 0x1_0000;
    seq![
        level,
        (vref_mv as int % 256) as u8,
        (vref_mv as int / 256) as u8,
        (detector_mv as int % 256) as u8,
        (detector_mv as int / 256) as u8,
        boost_on,
        rtc6705_level,
        pid_active,
        (frequency_mhz as int % 256) as u8,
        (frequency_mhz as int / 256) as u8,
        session_active,
        (ntc_raw as int % 256) as u8,
        (ntc_raw as int / 256) as u8,
        (temp % 256) as u8,
        (temp / 256) as u8,
    ]
}

/// A report is read as it was written, temperatures below zero among the rest. A shorter one
/// lacks what it has no room for, and says the rest alike.
pub proof fn law_a_report_reads_back(
    level: u8,
    vref_mv: u16,
    detector_mv: u16,
    boost_on: u8,
    rtc6705_level: u8,
    pid_active: u8,
    frequency_mhz: u16,
    session_active: u8,
    ntc_raw: u16,
    pa_temp_c_x10: i16,
    len: int,
)
    requires
        5 <= len <= 15,
    ensures
        ({
            let p = report_bytes(
                level,
                vref_mv,
                detector_mv,
                boost_on,
                rtc6705_level,
                pid_active,
                frequency_mhz,
                session_active,
                ntc_raw,
                pa_temp_c_x10,
            );
            let r = pa_calibration_reading_of(p.take(len));
            &&& r.power_level == level && r.vref_mv == vref_mv && r.detector_mv == detector_mv
            &&& if len >= 10 {
                &&& r.boost_on == Some(boost_on != 0)
                &&& r.rtc6705_level == Some(rtc6705_level)
                &&& r.pid_active == Some(pid_active != 0)
                &&& r.frequency_mhz == Some(frequency_mhz)
            } else {
                &&& r.boost_on is None && r.rtc6705_level is None
                &&& r.pid_active is None && r.frequency_mhz is None
            }
            &&& r.session_active == if len >= 11 {
                Some(session_active != 0)
            } else {
                None
            }
            &&& r.ntc_raw == if len >= 15 {
                Some(ntc_raw)
            } else {
                None
            }
            &&& r.pa_temp_c_x10 == if len >= 15 {
                Some(pa_temp_c_x10)
            } else {
                None
            }
        }),
{
    let p = report_bytes(
        level,
        vref_mv,
        detector_mv,
        boost_on,
        rtc6705_level,
        pid_active,
        frequency_mhz,
        session_active,
        ntc_raw,
        pa_temp_c_x10,
    );
    let temp = pa_temp_c_x10 as int % 0x1_0000;
    assert(p.len() == 15);
    assert(forall|i: int| 0 <= i < len ==> #[trigger] p.take(len)[i] == p[i]);
    assert(p[13] + 256 * p[14] == temp);
    assert(temp == pa_temp_c_x10 || temp == pa_temp_c_x10 + 0x1_0000);
    assert(p[14] < 128 <==> temp < 0x8000);
}

/// An entry that the VTX sends with its flags has them: for a power level, whether the
/// amplifier is on, and for the entry of the frequencies, whether more bias is less power.
/// The level of the transmitter goes with either.
pub proof fn law_a_calibration_comes_with_its_flags(e: PaCalibrationView, flag: u8, rtc: u8)
    requires
        e.value.len() == 7,
        e.detector.len() == 7,
    ensures
        pa_calibration_of(pa_calibration_bytes(e) + seq![flag, rtc]) == (PaCalibrationView {
            ext_pa_enable: e.idx != 0 && flag != 0,
            rtc6705_level: rtc,
            dac_sign_inverted: e.idx == 0 && flag != 0,
            ..e
        }),
{
    let b = pa_calibration_bytes(e);
    let p = b + seq![flag, rtc];
    law_pa_calibration_reads_back(e);
    assert(p.len() == 33 && p[31] == flag && p[32] == rtc);
    assert(p[0] == b[0] && p[1] == b[1] && p[2] == b[2]);
    assert(le_words(p, 3, 7) =~= le_words(b, 3, 7));
    assert(le_words(p, 17, 7) =~= le_words(b, 17, 7));
}

/// What the VTX uses is read byte by byte.
pub proof fn law_a_config_is_read_byte_by_byte(p: Seq<u8>)
    requires
        p.len() >= 15,
    ensures
        ({
            let c = vtx_config_of(p);
            &&& p[0] == c.vtx_type && p[1] == c.band && p[2] == c.channel && p[3] == c.power
            &&& c.pitmode <==> p[4] > 0
            &&& c.frequency_mhz == p[5] + 256 * p[6]
            &&& c.device_ready <==> p[7] > 0
            &&& c.low_power_disarm == p[8]
            &&& c.pit_mode_freq == p[9] + 256 * p[10]
            &&& c.vtx_table_available <==> p[11] > 0
            &&& p[12] == c.band_count && p[13] == c.channel_count && p[14]
                == c.power_level_count
        }),
{
}

/// A text is drawn at its row and column, from its beginning and no further than the last
/// of thirty columns; one that fits is drawn whole.
pub proof fn law_a_text_is_drawn_within_the_screen(row: u8, col: u8, text: Seq<char>)
    ensures
        ({
            let p = displayport_string(row, col, text);
            let t = encode_utf8(text);
            &&& p.len() >= 4
            &&& p[0] == 3 && p[1] == row && p[2] == col && p[3] == 0
            &&& p.len() - 4 <= t.len()
            &&& p.skip(4) == t.take(p.len() - 4)
            &&& p.len() > 4 ==> col + (p.len() - 4) <= 30
            &&& col + t.len() <= 30 ==> p.skip(4) == t
            &&& col + t.len() > 30 && col <= 30 ==> col + (p.len() - 4) == 30
        }),
{
    let p = displayport_string(row, col, text);
    let t = encode_utf8(text);
    assert(p.skip(4) =~= t.take(p.len() - 4));
    assert(t.take(t.len() as int) =~= t);
}

/// What stands behind a payload does not matter to what it says.
pub proof fn law_what_stands_behind_does_not_matter(p: Seq<u8>, rest: Seq<u8>)
    ensures
        p.len() >= 29 ==> vtx_band_of(p + rest) == vtx_band_of(p),
        p.len() >= 15 ==> vtx_config_of(p + rest) == vtx_config_of(p),
        p.len() >= 33 ==> pa_calibration_of(p + rest) == pa_calibration_of(p),
        p.len() >= 15 ==> pa_calibration_reading_of(p + rest) == pa_calibration_reading_of(p),
        p.len() >= 4 && p[3] <= p.len() - 4 ==> vtx_power_level_of(p + rest) == vtx_power_level_of(
            p,
        ),
{
    let q = p + rest;
    if p.len() >= 29 {
        assert(q.subrange(2, 2 + name_len(q) as int) =~= p.subrange(2, 2 + name_len(p) as int));
        assert(le_words(q, 13, 8) =~= le_words(p, 13, 8));
    }
    if p.len() >= 33 {
        assert(le_words(q, 3, 7) =~= le_words(p, 3, 7));
        assert(le_words(q, 17, 7) =~= le_words(p, 17, 7));
    }
    if p.len() >= 4 && p[3] <= p.len() - 4 {
        assert(q.subrange(4, 4 + label_len(q) as int) =~= p.subrange(4, 4 + label_len(p) as int));
    }
}

/// Where the parts of an entry, of a band and of a power level stand on the wire.
pub proof fn law_parts_have_their_places(
    e: PaCalibrationView,
    b: VtxBandView,
    l: VtxPowerLevelView,
    i: int,
)
    requires
        e.value.len() == 7,
        e.detector.len() == 7,
        b.freqs_mhz.len() == 8,
        encode_utf8(l.label).len() <= 255,
    ensures
        ({
            let p = pa_calibration_bytes(e);
            &&& p[0] == e.idx && p[1] + 256 * p[2] == e.m_w
            &&& 0 <= i < 7 ==> p[3 + 2 * i] + 256 * p[4 + 2 * i] == e.value[i]
            &&& 0 <= i < 7 ==> p[17 + 2 * i] + 256 * p[18 + 2 * i] == e.detector[i]
        }),
        ({
            let p = vtx_band_bytes(b);
            &&& p[0] == b.index && p[1] == 8
            &&& b.letter as int <= 255 ==> p[10] == b.letter as int
            &&& p[11] == if b.is_factory {
                1int
            } else {
                0
            }
            &&& p[12] == b.channel_count
            &&& 0 <= i < 8 ==> p[13 + 2 * i] + 256 * p[14 + 2 * i] == b.freqs_mhz[i]
            &&& 0 <= i < 8 ==> p[2 + i] == if i < encode_utf8(b.name).len() {
                encode_utf8(b.name)[i]
            } else {
                32
            }
        }),
        ({
            let p = vtx_power_level_bytes(l);
            &&& p[0] == l.index && p[1] + 256 * p[2] == l.m_w
            &&& p[3] == encode_utf8(l.label).len()
            &&& p.skip(4) == encode_utf8(l.label)
        }),
{
    assert(2 * i / 2 == i && (2 * i + 1) / 2 == i && (2 * i) % 2 == 0 && (2 * i + 1) % 2 == 1);
    let p = pa_calibration_bytes(e);
    if 0 <= i < 7 {
        assert(p[3 + 2 * i] == le_bytes(e.value)[2 * i]);
        assert(p[4 + 2 * i] == le_bytes(e.value)[2 * i + 1]);
        assert(p[17 + 2 * i] == le_bytes(e.detector)[2 * i]);
        assert(p[18 + 2 * i] == le_bytes(e.detector)[2 * i + 1]);
    }
    let q = vtx_band_bytes(b);
    if 0 <= i < 8 {
        assert(q[13 + 2 * i] == le_bytes(b.freqs_mhz)[2 * i]);
        assert(q[14 + 2 * i] == le_bytes(b.freqs_mhz)[2 * i + 1]);
        assert(q[2 + i] == name_byte(b.name, i));
    }
    assert(vtx_power_level_bytes(l).skip(4) =~= encode_utf8(l.label));
}

} // verus!
