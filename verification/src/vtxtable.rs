//! The VTX table: its bands and power levels, how it is read from Betaflight
//! CLI text, and what a selection in it is on the wire.

use vstd::prelude::*;
#[allow(unused_imports)]
use vstd::string::*;

use crate::msp::{
    flag,
    flag_byte,
    high,
    high_byte,
    low,
    low_byte,
    VtxBand,
    VtxBandView,
    VtxPowerLevel,
    VtxPowerLevelView,
};
use crate::text::{
    chars_of,
    decimal,
    decimal_text,
    ended,
    eq_ignoring_case,
    is_line,
    is_white,
    is_word,
    law_case_does_not_matter,
    law_decimal_reads_back,
    law_lines_read_back,
    law_words_read_back,
    lemma_decimal_is_a_word,
    lemma_spaced_is_a_line,
    line_end,
    line_len,
    lines,
    parse_number,
    parse_unsigned,
    same_ignoring_case,
    spaced,
    text_eq,
    texts,
    words,
    words_of,
};

verus! {

#[derive(Debug)]
pub struct VtxTableConfig {
    pub channels: u8,
    pub bands: Vec<VtxBand>,
    pub power_levels: Vec<VtxPowerLevel>,
}

#[verifier::ext_equal]
pub struct VtxTableView {
    pub channels: u8,
    pub bands: Seq<VtxBandView>,
    pub power_levels: Seq<VtxPowerLevelView>,
}

pub open spec fn band_views(bands: Seq<VtxBand>) -> Seq<VtxBandView> {
    bands.map_values(|b: VtxBand| b@)
}

pub open spec fn power_level_views(levels: Seq<VtxPowerLevel>) -> Seq<VtxPowerLevelView> {
    levels.map_values(|l: VtxPowerLevel| l@)
}

impl View for VtxTableConfig {
    type V = VtxTableView;

    open spec fn view(&self) -> VtxTableView {
        VtxTableView {
            channels: self.channels,
            bands: band_views(self.bands@),
            power_levels: power_level_views(self.power_levels@),
        }
    }
}

pub open spec fn empty_table() -> VtxTableView {
    VtxTableView { channels: 8, bands: seq![], power_levels: seq![] }
}

impl Default for VtxTableConfig {
    fn default() -> (r: Self)
        ensures
            r@ == empty_table(),
    {
        let r = VtxTableConfig { channels: 8, bands: Vec::new(), power_levels: Vec::new() };
        assert(r@ =~= empty_table());
        r
    }
}

impl Clone for VtxTableConfig {
    fn clone(&self) -> (r: Self)
        ensures
            r@ == self@,
    {
        let mut bands: Vec<VtxBand> = Vec::new();
        let mut i: usize = 0;
        while i < self.bands.len()
            invariant
                i <= self.bands@.len(),
                bands@.len() == i,
                forall|k: int| 0 <= k < i ==> (#[trigger] bands@[k])@ == self.bands@[k]@,
            decreases self.bands@.len() - i,
        {
            bands.push(self.bands[i].clone());
            i = i + 1;
        }
        assert(band_views(bands@) =~= band_views(self.bands@));
        let mut power_levels: Vec<VtxPowerLevel> = Vec::new();
        let mut k: usize = 0;
        while k < self.power_levels.len()
            invariant
                k <= self.power_levels@.len(),
                power_levels@.len() == k,
                forall|j: int|
                    0 <= j < k ==> (#[trigger] power_levels@[j])@ == self.power_levels@[j]@,
            decreases self.power_levels@.len() - k,
        {
            power_levels.push(self.power_levels[k].clone());
            k = k + 1;
        }
        assert(power_level_views(power_levels@) =~= power_level_views(self.power_levels@));
        VtxTableConfig { channels: self.channels, bands, power_levels }
    }
}

/// What the lines read so far have said.
#[verifier::ext_equal]
pub struct CliView {
    pub channels: u8,
    pub bands: Seq<VtxBandView>,
    pub values: Seq<u16>,
    pub labels: Seq<Seq<char>>,
}

/// The number that `s` writes, or zero where it writes none of at most `max`.
pub open spec fn number_or_zero(s: Seq<char>, max: nat) -> nat {
    match parse_unsigned(s, max) {
        Some(n) => n,
        None => 0,
    }
}

/// The band that the words of a `vtxtable band` line describe.
pub open spec fn cli_band(w: Seq<Seq<char>>) -> VtxBandView {
    VtxBandView {
        index: number_or_zero(w[2], 255) as u8,
        name: w[3],
        letter: if w[4].len() > 0 { w[4][0] } else { '?' },
        is_factory: same_ignoring_case(w[5], "FACTORY"@),
        channel_count: if w.len() - 6 < 8 { (w.len() - 6) as u8 } else { 8 },
        freqs_mhz: Seq::new(
            8,
            |i: int| if 6 + i < w.len() { number_or_zero(w[6 + i], 0xffff) as u16 } else { 0u16 },
        ),
    }
}

/// The numbers among the words, in order.
pub open spec fn numbers_among(w: Seq<Seq<char>>) -> Seq<u16>
    decreases w.len(),
{
    if w.len() == 0 {
        seq![]
    } else {
        let before = numbers_among(w.drop_last());
        match parse_unsigned(w.last(), 0xffff) {
            Some(n) => before.push(n as u16),
            None => before,
        }
    }
}

/// The words of one line, on top of what was read before.
pub open spec fn cli_line(c: CliView, w: Seq<Seq<char>>) -> CliView {
    if w.len() < 2 || w[0] != "vtxtable"@ {
        c
    } else if w[1] == "channels"@ {
        if w.len() > 2 && parse_unsigned(w[2], 255) is Some {
            CliView { channels: number_or_zero(w[2], 255) as u8, ..c }
        } else {
            c
        }
    } else if w[1] == "band"@ {
        if w.len() < 6 {
            c
        } else {
            CliView { bands: c.bands.push(cli_band(w)), ..c }
        }
    } else if w[1] == "powervalues"@ {
        CliView { values: numbers_among(w.skip(2)), ..c }
    } else if w[1] == "powerlabels"@ {
        CliView { labels: w.skip(2), ..c }
    } else {
        c
    }
}

pub open spec fn cli_lines(c: CliView, ls: Seq<Seq<char>>) -> CliView
    decreases ls.len(),
{
    if ls.len() == 0 {
        c
    } else {
        cli_lines(cli_line(c, words(ls[0])), ls.skip(1))
    }
}

/// `bands` with `b` behind the last band whose index is not greater.
pub open spec fn inserted(bands: Seq<VtxBandView>, b: VtxBandView) -> Seq<VtxBandView>
    decreases bands.len(),
{
    if bands.len() == 0 || bands.last().index <= b.index {
        bands.push(b)
    } else {
        inserted(bands.drop_last(), b).push(bands.last())
    }
}

/// The bands in the order of their indices; those with one index stay in order.
pub open spec fn by_index(bands: Seq<VtxBandView>) -> Seq<VtxBandView>
    decreases bands.len(),
{
    if bands.len() == 0 {
        seq![]
    } else {
        inserted(by_index(bands.drop_last()), bands.last())
    }
}

/// The power levels, numbered from 1. A level without a label has its value for one.
pub open spec fn cli_power_levels(c: CliView) -> Seq<VtxPowerLevelView> {
    Seq::new(
        c.values.len(),
        |i: int|
            VtxPowerLevelView {
                index: ((i + 1) % 256) as u8,
                m_w: c.values[i],
                label: if i < c.labels.len() { c.labels[i] } else { decimal(c.values[i] as nat) },
            },
    )
}

pub open spec fn nothing_read() -> CliView {
    CliView { channels: 8, bands: seq![], values: seq![], labels: seq![] }
}

/// The table that a CLI text describes.
pub open spec fn cli_table(text: Seq<char>) -> VtxTableView {
    let c = cli_lines(nothing_read(), lines(text));
    VtxTableView {
        channels: c.channels,
        bands: by_index(c.bands),
        power_levels: cli_power_levels(c),
    }
}

/// The text has no line that describes a band or the power levels.
#[derive(Clone, Copy, Debug, PartialEq, Eq, Structural)]
pub struct NoTableLines;

impl NoTableLines {
    pub fn message(self) -> (r: &'static str)
        ensures
            r@ == "no 'vtxtable band'/'vtxtable powervalues' lines found in the pasted text"@,
    {
        "no 'vtxtable band'/'vtxtable powervalues' lines found in the pasted text"
    }
}

struct CliDraft {
    channels: u8,
    bands: Vec<VtxBand>,
    values: Vec<u16>,
    labels: Vec<String>,
}

impl View for CliDraft {
    type V = CliView;

    closed spec fn view(&self) -> CliView {
        CliView {
            channels: self.channels,
            bands: band_views(self.bands@),
            values: self.values@,
            labels: texts(self.labels@),
        }
    }
}

fn or_zero(s: &String, max: u32) -> (r: u32)
    ensures
        r == number_or_zero(s@, max as nat),
        r <= max,
{
    match parse_number(s.as_str(), max) {
        Some(n) => n,
        None => 0,
    }
}

fn band_from(parts: &Vec<String>) -> (r: VtxBand)
    requires
        parts@.len() >= 6,
    ensures
        r@ == cli_band(texts(parts@)),
{
    let ghost w = texts(parts@);
    let mut freqs_mhz: [u16; 8] = [0;8];
    let mut i: usize = 0;
    while i < 8 && i < parts.len() - 6
        invariant
            i <= 8,
            i <= parts@.len() - 6,
            w == texts(parts@),
            parts@.len() >= 6,
            forall|k: int| 0 <= k < i ==> freqs_mhz@[k] == cli_band(w).freqs_mhz[k],
            forall|k: int| i <= k < 8 ==> freqs_mhz@[k] == 0,
        decreases 8 - i,
    {
        freqs_mhz[i] = or_zero(&parts[6 + i], 0xffff) as u16;
        i = i + 1;
    }
    assert(freqs_mhz@ =~= cli_band(w).freqs_mhz);
    let letters = chars_of(parts[4].as_str());
    let count: usize = parts.len() - 6;
    VtxBand {
        index: or_zero(&parts[2], 255) as u8,
        name: parts[3].clone(),
        letter: if letters.len() > 0 { letters[0] } else { '?' },
        is_factory: eq_ignoring_case(parts[5].as_str(), "FACTORY"),
        channel_count: if count < 8 { count as u8 } else { 8 },
        freqs_mhz,
    }
}

fn numbers_from(parts: &Vec<String>) -> (r: Vec<u16>)
    requires
        parts@.len() >= 2,
    ensures
        r@ == numbers_among(texts(parts@).skip(2)),
{
    let ghost w = texts(parts@).skip(2);
    let mut r: Vec<u16> = Vec::new();
    let mut i: usize = 2;
    assert(numbers_among(w.take(0)) =~= seq![]);
    while i < parts.len()
        invariant
            2 <= i <= parts@.len(),
            w == texts(parts@).skip(2),
            r@ == numbers_among(w.take(i - 2)),
        decreases parts@.len() - i,
    {
        assert(w.take(i - 1).drop_last() =~= w.take(i - 2));
        assert(w.take(i - 1).last() == parts@[i as int]@);
        if let Some(n) = parse_number(parts[i].as_str(), 0xffff) {
            r.push(n as u16);
        }
        i = i + 1;
    }
    assert(w.take(i - 2) =~= w);
    r
}

fn labels_from(parts: &Vec<String>) -> (r: Vec<String>)
    requires
        parts@.len() >= 2,
    ensures
        texts(r@) == texts(parts@).skip(2),
{
    let mut r: Vec<String> = Vec::new();
    let mut i: usize = 2;
    while i < parts.len()
        invariant
            2 <= i <= parts@.len(),
            r@.len() == i - 2,
            forall|k: int| 0 <= k < i - 2 ==> (#[trigger] r@[k])@ == parts@[k + 2]@,
        decreases parts@.len() - i,
    {
        r.push(parts[i].clone());
        i = i + 1;
    }
    assert(texts(r@) =~= texts(parts@).skip(2));
    r
}

impl CliDraft {
    fn line(&mut self, parts: &Vec<String>)
        ensures
            final(self)@ == cli_line(old(self)@, texts(parts@)),
    {
        let ghost w = texts(parts@);
        assert(forall|i: int| 0 <= i < parts@.len() ==> #[trigger] w[i] == parts@[i]@);
        if parts.len() < 2 || !text_eq(parts[0].as_str(), "vtxtable") {
            return;
        }
        let ghost before = self@;
        let verb = parts[1].as_str();
        if text_eq(verb, "channels") {
            if parts.len() > 2 {
                if let Some(n) = parse_number(parts[2].as_str(), 255) {
                    self.channels = n as u8;
                }
            }
        } else if text_eq(verb, "band") {
            if parts.len() < 6 {
                return;
            }
            let band = band_from(parts);
            self.bands.push(band);
            assert(self@.bands =~= before.bands.push(cli_band(w)));
        } else if text_eq(verb, "powervalues") {
            self.values = numbers_from(parts);
        } else if text_eq(verb, "powerlabels") {
            self.labels = labels_from(parts);
        }
    }
}

/// Puts `b` behind the last band of `bands` whose index is not greater.
fn insert_by_index(bands: &mut Vec<VtxBand>, b: VtxBand)
    ensures
        band_views(final(bands)@) == inserted(band_views(old(bands)@), b@),
{
    let ghost all = bands@;
    let ghost views = band_views(all);
    let mut at: usize = bands.len();
    assert(views.take(at as int) =~= views);
    assert(inserted(views.take(at as int), b@) + views.skip(at as int) =~= inserted(views, b@));
    while at > 0 && bands[at - 1].index > b.index
        invariant
            at <= bands@.len(),
            bands@ == all,
            views == band_views(all),
            inserted(views.take(at as int), b@) + views.skip(at as int) == inserted(views, b@),
        decreases at,
    {
        proof {
            let t = views.take(at as int);
            assert(t.last() == all[at - 1]@);
            assert(t.drop_last() =~= views.take(at - 1));
            assert(inserted(t, b@) + views.skip(at as int) =~= inserted(views.take(at - 1), b@)
                + views.skip(at - 1));
        }
        at = at - 1;
    }
    proof {
        let t = views.take(at as int);
        if at > 0 {
            assert(t.last() == all[at - 1]@);
        }
        assert(inserted(t, b@) == t.push(b@));
        assert(band_views(all.insert(at as int, b)) =~= t.push(b@) + views.skip(at as int));
    }
    bands.insert(at, b);
}

fn sorted_by_index(bands: Vec<VtxBand>) -> (r: Vec<VtxBand>)
    ensures
        band_views(r@) == by_index(band_views(bands@)),
{
    let ghost views = band_views(bands@);
    let mut r: Vec<VtxBand> = Vec::new();
    let mut i: usize = 0;
    assert(views.take(0) =~= seq![]);
    assert(band_views(r@) =~= by_index(views.take(0)));
    while i < bands.len()
        invariant
            i <= bands@.len(),
            views == band_views(bands@),
            band_views(r@) == by_index(views.take(i as int)),
        decreases bands@.len() - i,
    {
        let b = bands[i].clone();
        insert_by_index(&mut r, b);
        assert(views.take(i + 1).drop_last() =~= views.take(i as int));
        assert(views.take(i + 1).last() == b@);
        i = i + 1;
    }
    assert(views.take(i as int) =~= views);
    r
}

fn power_levels_from(values: &Vec<u16>, labels: &Vec<String>, Ghost(c): Ghost<CliView>) -> (r: Vec<
    VtxPowerLevel,
>)
    requires
        c.values == values@,
        c.labels == texts(labels@),
    ensures
        power_level_views(r@) == cli_power_levels(c),
{
    let mut r: Vec<VtxPowerLevel> = Vec::new();
    let mut i: usize = 0;
    while i < values.len()
        invariant
            i <= values@.len(),
            c.values == values@,
            c.labels == texts(labels@),
            r@.len() == i,
            forall|k: int| 0 <= k < i ==> (#[trigger] r@[k])@ == cli_power_levels(c)[k],
        decreases values@.len() - i,
    {
        let label = if i < labels.len() {
            labels[i].clone()
        } else {
            decimal_text(values[i] as u64)
        };
        let index: u8 = ((i % 256 + 1) % 256) as u8;
        let level = VtxPowerLevel { index, m_w: values[i], label };
        assert(level@ =~= cli_power_levels(c)[i as int]);
        r.push(level);
        i = i + 1;
    }
    assert(power_level_views(r@) =~= cli_power_levels(c));
    r
}

impl VtxTableConfig {
    /// Reads the `vtxtable` lines of a Betaflight CLI text; other lines are passed over.
    pub fn parse_betaflight_cli(text: &str) -> (r: Result<Self, NoTableLines>)
        ensures
            match r {
                Ok(t) => t@ == cli_table(text@) && (t@.bands.len() > 0 || t@.power_levels.len()
                    > 0),
                Err(_) => cli_table(text@).bands.len() == 0 && cli_table(
                    text@,
                ).power_levels.len() == 0,
            },
    {
        let chars = chars_of(text);
        let mut draft = CliDraft {
            channels: 8,
            bands: Vec::new(),
            values: Vec::new(),
            labels: Vec::new(),
        };
        assert(draft@ =~= nothing_read());
        let mut pos: usize = 0;
        assert(chars@.skip(0) =~= text@);
        while pos < chars.len()
            invariant
                pos <= chars@.len(),
                cli_lines(draft@, lines(chars@.skip(pos as int))) == cli_lines(
                    nothing_read(),
                    lines(text@),
                ),
            decreases chars@.len() - pos,
        {
            let end = line_end(&chars, pos);
            let ghost rest = chars@.skip(pos as int);
            let ghost before = draft@;
            let parts = words_of(&chars, pos, end);
            draft.line(&parts);
            proof {
                let n = line_len(rest) as int;
                assert(end == pos + n);
                let first = chars@.subrange(pos as int, end as int);
                if n < rest.len() {
                    assert(rest.take(n) =~= first);
                    assert(rest.skip(n + 1) =~= chars@.skip(end + 1));
                    assert(lines(rest).skip(1) =~= lines(rest.skip(n + 1)));
                } else {
                    assert(rest =~= first);
                    assert(lines(rest).skip(1) =~= seq![]);
                    assert(chars@.skip(end as int).len() == 0);
                    assert(lines(chars@.skip(end as int)) =~= seq![]);
                }
                assert(lines(rest)[0] == first);
                assert(draft@ == cli_line(before, words(first)));
            }
            pos = if end < chars.len() { end + 1 } else { end };
        }
        assert(lines(chars@.skip(pos as int)) =~= seq![]);
        let ghost c = draft@;
        let CliDraft { channels, bands, values, labels } = draft;
        let bands = sorted_by_index(bands);
        let power_levels = power_levels_from(&values, &labels, Ghost(c));
        let table = VtxTableConfig { channels, bands, power_levels };
        assert(table@ =~= cli_table(text@));
        assert(table@.bands.len() == table.bands@.len());
        assert(table@.power_levels.len() == table.power_levels@.len());
        if table.bands.len() == 0 && table.power_levels.len() == 0 {
            return Err(NoTableLines);
        }
        Ok(table)
    }
}

/// The band, channel and power that the VTX is told to use.
#[derive(Clone, Copy, Debug, PartialEq, Eq, Structural)]
pub struct VtxSelectionState {
    pub selected_band: u8,
    pub selected_channel: u8,
    pub selected_power: u8,
    pub selected_freq_mhz: u16,
    pub pitmode: bool,
}

impl Default for VtxSelectionState {
    fn default() -> (r: Self)
        ensures
            r == (VtxSelectionState {
                selected_band: 1,
                selected_channel: 1,
                selected_power: 1,
                selected_freq_mhz: 5800,
                pitmode: false,
            }),
    {
        VtxSelectionState {
            selected_band: 1,
            selected_channel: 1,
            selected_power: 1,
            selected_freq_mhz: 5800,
            pitmode: false,
        }
    }
}

/// The first band with this index.
pub open spec fn band_with_index(bands: Seq<VtxBandView>, index: u8) -> Option<VtxBandView>
    decreases bands.len(),
{
    if bands.len() == 0 {
        None
    } else if bands[0].index == index {
        Some(bands[0])
    } else {
        band_with_index(bands.skip(1), index)
    }
}

/// The place of a channel in its band; channel 0 counts as channel 1.
pub open spec fn channel_place(channel: u8) -> int {
    if channel == 0 {
        0
    } else {
        channel - 1
    }
}

impl VtxSelectionState {
    pub open spec fn spec_frequency_mhz(self, table: VtxTableView) -> u16 {
        if self.selected_band == 0 {
            self.selected_freq_mhz
        } else {
            match band_with_index(table.bands, self.selected_band) {
                Some(b) => if channel_place(self.selected_channel) < 8 {
                    b.freqs_mhz[channel_place(self.selected_channel)]
                } else {
                    self.selected_freq_mhz
                },
                None => self.selected_freq_mhz,
            }
        }
    }

    /// The frequency of the selected channel; the one that is selected by itself
    /// where no band is selected or the table has no such channel.
    pub fn frequency_mhz(&self, table: &VtxTableConfig) -> (r: u16)
        ensures
            r == self.spec_frequency_mhz(table@),
    {
        if self.selected_band == 0 {
            return self.selected_freq_mhz;
        }
        let place: usize = if self.selected_channel == 0 {
            0
        } else {
            (self.selected_channel - 1) as usize
        };
        let ghost views = band_views(table.bands@);
        let mut i: usize = 0;
        assert(views.skip(0) =~= views);
        while i < table.bands.len()
            invariant
                i <= table.bands@.len(),
                views == band_views(table.bands@),
                band_with_index(views.skip(i as int), self.selected_band) == band_with_index(
                    views,
                    self.selected_band,
                ),
                self.selected_band != 0,
                place == channel_place(self.selected_channel),
            decreases table.bands@.len() - i,
        {
            let ghost here = views.skip(i as int);
            assert(here[0] == table.bands@[i as int]@);
            assert(here.skip(1) =~= views.skip(i + 1));
            if table.bands[i].index == self.selected_band {
                if place < 8 {
                    return table.bands[i].freqs_mhz[place];
                }
                return self.selected_freq_mhz;
            }
            i = i + 1;
        }
        self.selected_freq_mhz
    }

    pub open spec fn config_bytes(self, table: VtxTableView) -> Seq<u8> {
        let freq = self.spec_frequency_mhz(table);
        seq![
            5u8,
            self.selected_band,
            self.selected_channel,
            self.selected_power,
            flag_byte(self.pitmode),
            low_byte(freq),
            high_byte(freq),
            1u8,
            0u8,
            0u8,
            0u8,
            1u8,
            (table.bands.len() % 256) as u8,
            table.channels,
            (table.power_levels.len() % 256) as u8,
        ]
    }

    /// The selection as an MSP_VTX_CONFIG payload.
    pub fn encode_vtx_config_response(&self, table: &VtxTableConfig) -> (r: Vec<u8>)
        ensures
            r@ == self.config_bytes(table@),
    {
        let freq = self.frequency_mhz(table);
        let r: Vec<u8> = vec![
            5,
            self.selected_band,
            self.selected_channel,
            self.selected_power,
            flag(self.pitmode),
            low(freq),
            high(freq),
            1,
            0,
            0,
            0,
            1,
            (table.bands.len() % 256) as u8,
            table.channels,
            (table.power_levels.len() % 256) as u8,
        ];
        assert(r@ =~= self.config_bytes(table@));
        r
    }
}

proof fn lemma_inserted(bands: Seq<VtxBandView>, b: VtxBandView, index: u8)
    ensures
        inserted(bands, b).len() == bands.len() + 1,
        inserted(bands, b).filter(|x: VtxBandView| x.index == index) == (if b.index == index {
            bands.filter(|x: VtxBandView| x.index == index).push(b)
        } else {
            bands.filter(|x: VtxBandView| x.index == index)
        }),
        forall|i: int|
            0 <= i < inserted(bands, b).len() ==> #[trigger] inserted(bands, b)[i] == b || exists|
                k: int,
            |
                0 <= k < bands.len() && #[trigger] bands[k] == inserted(bands, b)[i],
    decreases bands.len(),
{
    reveal(Seq::filter);
    let r = inserted(bands, b);
    if bands.len() == 0 || bands.last().index <= b.index {
        assert(r.drop_last() =~= bands);
        assert forall|i: int| 0 <= i < r.len() implies #[trigger] r[i] == b || exists|k: int|
            0 <= k < bands.len() && #[trigger] bands[k] == r[i] by {
            if i < bands.len() {
                assert(bands[i] == r[i]);
            }
        }
    } else {
        let d = bands.drop_last();
        lemma_inserted(d, b, index);
        assert(r.drop_last() =~= inserted(d, b));
        assert forall|i: int| 0 <= i < r.len() implies #[trigger] r[i] == b || exists|k: int|
            0 <= k < bands.len() && #[trigger] bands[k] == r[i] by {
            if i < r.len() - 1 {
                assert(r[i] == inserted(d, b)[i]);
                if r[i] != b {
                    let k = choose|k: int| 0 <= k < d.len() && #[trigger] d[k] == r[i];
                    assert(bands[k] == r[i]);
                }
            } else {
                assert(bands[bands.len() - 1] == r[i]);
            }
        }
    }
}

pub open spec fn in_order(bands: Seq<VtxBandView>) -> bool {
    forall|i: int, j: int| 0 <= i <= j < bands.len() ==> bands[i].index <= bands[j].index
}

proof fn lemma_inserted_in_order(bands: Seq<VtxBandView>, b: VtxBandView)
    requires
        in_order(bands),
    ensures
        in_order(inserted(bands, b)),
    decreases bands.len(),
{
    if bands.len() > 0 && bands.last().index > b.index {
        let d = bands.drop_last();
        lemma_inserted_in_order(d, b);
        lemma_inserted(d, b, 0);
        let r = inserted(bands, b);
        assert forall|i: int, j: int| 0 <= i <= j < r.len() implies r[i].index <= r[j].index by {
            let t = inserted(d, b);
            if j < r.len() - 1 {
                assert(r[i] == t[i] && r[j] == t[j]);
            } else if i < r.len() - 1 {
                assert(r[i] == t[i]);
                if t[i] != b {
                    let k = choose|k: int| 0 <= k < d.len() && #[trigger] d[k] == t[i];
                    assert(bands[k].index <= bands[bands.len() - 1].index);
                }
            }
        }
    }
}

/// The bands of a table that was read from CLI text are the bands of the text, in the
/// order of their indices; bands with one index stay in the order of the text.
pub proof fn law_bands_are_sorted_and_stay_in_order(bands: Seq<VtxBandView>, index: u8)
    ensures
        in_order(by_index(bands)),
        by_index(bands).len() == bands.len(),
        by_index(bands).filter(|b: VtxBandView| b.index == index) == bands.filter(
            |b: VtxBandView| b.index == index,
        ),
    decreases bands.len(),
{
    reveal(Seq::filter);
    if bands.len() > 0 {
        law_bands_are_sorted_and_stay_in_order(bands.drop_last(), index);
        lemma_inserted(by_index(bands.drop_last()), bands.last(), index);
        lemma_inserted_in_order(by_index(bands.drop_last()), bands.last());
    }
}

/// A line whose first word is not `vtxtable` changes nothing, wherever it stands.
pub proof fn law_other_lines_change_nothing(
    c: CliView,
    before: Seq<Seq<char>>,
    line: Seq<char>,
    behind: Seq<Seq<char>>,
)
    requires
        words(line).len() > 0 ==> words(line)[0] != "vtxtable"@,
    ensures
        cli_lines(c, before + seq![line] + behind) == cli_lines(c, before + behind),
    decreases before.len(),
{
    let with = before + seq![line] + behind;
    let without = before + behind;
    if before.len() == 0 {
        assert(with[0] == line);
        assert(with.skip(1) =~= behind);
        assert(without =~= behind);
    } else {
        assert(with.skip(1) =~= before.skip(1) + seq![line] + behind);
        assert(without.skip(1) =~= before.skip(1) + behind);
        law_other_lines_change_nothing(
            cli_line(c, words(before[0])),
            before.skip(1),
            line,
            behind,
        );
    }
}

/// The words of the line that describes a band.
pub open spec fn band_words(b: VtxBandView) -> Seq<Seq<char>> {
    seq![
        "vtxtable"@,
        "band"@,
        decimal(b.index as nat),
        b.name,
        seq![b.letter],
        if b.is_factory {
            "FACTORY"@
        } else {
            "CUSTOM"@
        },
    ] + Seq::new(b.channel_count as nat, |i: int| decimal(b.freqs_mhz[i] as nat))
}

/// A band that a line can describe: its name is one word, its letter no white space, and it
/// has no frequency beyond its channels.
pub open spec fn is_writable_band(b: VtxBandView) -> bool {
    &&& is_word(b.name)
    &&& !is_white(b.letter)
    &&& b.freqs_mhz.len() == 8
    &&& b.channel_count <= 8
    &&& forall|i: int| b.channel_count <= i < 8 ==> #[trigger] b.freqs_mhz[i] == 0
}

proof fn lemma_vtxtable_words()
    ensures
        is_word("vtxtable"@),
        is_word("band"@),
        is_word("channels"@),
        is_word("powervalues"@),
        is_word("powerlabels"@),
        is_word("FACTORY"@),
        is_word("CUSTOM"@),
        "band"@ != "channels"@,
        "powervalues"@ != "channels"@,
        "powervalues"@ != "band"@,
        "powerlabels"@ != "channels"@,
        "powerlabels"@ != "band"@,
        "powerlabels"@ != "powervalues"@,
        !same_ignoring_case("CUSTOM"@, "FACTORY"@),
        same_ignoring_case("FACTORY"@, "FACTORY"@),
{
    reveal_strlit("vtxtable");
    reveal_strlit("band");
    reveal_strlit("channels");
    reveal_strlit("powervalues");
    reveal_strlit("powerlabels");
    reveal_strlit("FACTORY");
    reveal_strlit("CUSTOM");
    assert("band"@.len() == 4 && "channels"@.len() == 8);
    assert("powervalues"@.len() == 11 && "powerlabels"@.len() == 11);
    assert("powervalues"@[5] == 'v' && "powerlabels"@[5] == 'l');
    law_case_does_not_matter("CUSTOM"@, "FACTORY"@);
}

/// Writing a band as a line and reading the line gives the band back, its letter included,
/// behind the bands that were read before.
pub proof fn law_a_band_line_reads_back(c: CliView, b: VtxBandView)
    requires
        is_writable_band(b),
    ensures
        words(spaced(band_words(b))) == band_words(b),
        cli_line(c, band_words(b)) == (CliView { bands: c.bands.push(b), ..c }),
{
    let w = band_words(b);
    lemma_vtxtable_words();
    lemma_decimal_is_a_word(b.index as nat);
    assert forall|i: int| 0 <= i < w.len() implies is_word(#[trigger] w[i]) by {
        if i >= 6 {
            lemma_decimal_is_a_word(b.freqs_mhz[i - 6] as nat);
        }
    }
    law_words_read_back(w);
    law_decimal_reads_back(b.index as nat, 255);
    let r = cli_band(w);
    assert forall|i: int| 0 <= i < 8 implies #[trigger] r.freqs_mhz[i] == b.freqs_mhz[i] by {
        if i < b.channel_count {
            law_decimal_reads_back(b.freqs_mhz[i] as nat, 0xffff);
            assert(w[6 + i] == decimal(b.freqs_mhz[i] as nat));
        }
    }
    assert(r.freqs_mhz =~= b.freqs_mhz);
    assert(r =~= b);
}

/// Two bands that differ are told apart by their lines, in their letters as in the rest.
pub proof fn law_band_lines_tell_bands_apart(a: VtxBandView, b: VtxBandView)
    requires
        is_writable_band(a),
        is_writable_band(b),
        spaced(band_words(a)) == spaced(band_words(b)),
    ensures
        a == b,
{
    law_a_band_line_reads_back(nothing_read(), a);
    law_a_band_line_reads_back(nothing_read(), b);
    assert(seq![].push(a) =~= seq![].push(b));
    assert(nothing_read().bands.push(a)[0] == a);
    assert(nothing_read().bands.push(b)[0] == b);
}

/// Only the first letter of a word counts as the letter of a band, and whether a band is a
/// factory one does not depend on the case of the word that says so. A frequency that is no
/// number is none.
pub proof fn law_a_band_line_is_read_leniently(
    w: Seq<Seq<char>>,
    letter: Seq<char>,
    kind: Seq<char>,
    i: int,
)
    requires
        w.len() >= 6,
        w[4].len() > 0,
        letter.len() > 0,
        letter[0] == w[4][0],
        same_ignoring_case(kind, w[5]),
    ensures
        cli_band(w.update(4, letter).update(5, kind)) == cli_band(w),
        0 <= i < 8 && 6 + i < w.len() && parse_unsigned(w[6 + i], 0xffff) is None ==> cli_band(
            w,
        ).freqs_mhz[i] == 0,
        0 <= i < 8 && 6 + i >= w.len() ==> cli_band(w).freqs_mhz[i] == 0,
        cli_band(w).channel_count <= 8,
        cli_band(w).channel_count == w.len() - 6 || (w.len() > 14 && cli_band(w).channel_count == 8),
{
    let v = w.update(4, letter).update(5, kind);
    assert(cli_band(v).freqs_mhz =~= cli_band(w).freqs_mhz);
}

/// A line about a band with too few words, one about the channels without a number, and one
/// about anything else say nothing.
pub proof fn law_lines_that_say_nothing(c: CliView, w: Seq<Seq<char>>)
    requires
        w.len() >= 2,
        w[1] == "band"@ ==> w.len() < 6,
        w[1] == "channels"@ ==> w.len() == 2 || parse_unsigned(w[2], 255) is None,
        w[1] != "powervalues"@,
        w[1] != "powerlabels"@,
    ensures
        cli_line(c, w) == c,
{
}

proof fn lemma_numbers_join(a: Seq<Seq<char>>, b: Seq<Seq<char>>)
    ensures
        numbers_among(a + b) == numbers_among(a) + numbers_among(b),
    decreases b.len(),
{
    if b.len() == 0 {
        assert(a + b =~= a);
        assert(numbers_among(a) + numbers_among(b) =~= numbers_among(a));
    } else {
        assert((a + b).drop_last() =~= a + b.drop_last());
        lemma_numbers_join(a, b.drop_last());
        assert(numbers_among(a + b) =~= numbers_among(a) + numbers_among(b));
    }
}

/// A word among power values that is no number is passed over.
pub proof fn law_words_among_the_values_are_passed_over(
    a: Seq<Seq<char>>,
    word: Seq<char>,
    b: Seq<Seq<char>>,
)
    requires
        parse_unsigned(word, 0xffff) is None,
    ensures
        numbers_among(a + seq![word] + b) == numbers_among(a + b),
{
    lemma_numbers_join(a + seq![word], b);
    lemma_numbers_join(a, seq![word]);
    lemma_numbers_join(a, b);
    let none: Seq<Seq<char>> = seq![];
    assert(seq![word].drop_last() =~= none);
    assert(numbers_among(none) =~= seq![]);
    assert(numbers_among(seq![word]) =~= seq![]);
    assert(numbers_among(a) + numbers_among(seq![word]) =~= numbers_among(a));
}

/// Numbers in words.
pub open spec fn number_words(values: Seq<u16>) -> Seq<Seq<char>> {
    values.map_values(|v: u16| decimal(v as nat))
}

proof fn lemma_numbers_read_back(values: Seq<u16>)
    ensures
        numbers_among(number_words(values)) == values,
    decreases values.len(),
{
    let w = number_words(values);
    if values.len() > 0 {
        assert(w.drop_last() =~= number_words(values.drop_last()));
        lemma_numbers_read_back(values.drop_last());
        law_decimal_reads_back(values.last() as nat, 0xffff);
        assert(numbers_among(w) =~= values);
    } else {
        assert(numbers_among(w) =~= values);
    }
}

/// The lines that describe a table.
pub open spec fn table_words(t: VtxTableView) -> Seq<Seq<Seq<char>>> {
    seq![seq!["vtxtable"@, "channels"@, decimal(t.channels as nat)]] + t.bands.map_values(
        |b: VtxBandView| band_words(b),
    ) + seq![
        seq!["vtxtable"@, "powervalues"@] + t.power_levels.map_values(
            |l: VtxPowerLevelView| decimal(l.m_w as nat),
        ),
        seq!["vtxtable"@, "powerlabels"@] + t.power_levels.map_values(
            |l: VtxPowerLevelView| l.label,
        ),
    ]
}

pub open spec fn table_text(t: VtxTableView) -> Seq<char> {
    ended(table_words(t).map_values(|w: Seq<Seq<char>>| spaced(w)))
}

/// A table that can be written as CLI text: bands that can be, in the order of their indices,
/// and power levels with one word each for a label, numbered from 1.
pub open spec fn is_writable(t: VtxTableView) -> bool {
    &&& forall|i: int| 0 <= i < t.bands.len() ==> is_writable_band(#[trigger] t.bands[i])
    &&& in_order(t.bands)
    &&& t.power_levels.len() <= 255
    &&& forall|i: int|
        0 <= i < t.power_levels.len() ==> is_word((#[trigger] t.power_levels[i]).label)
            && t.power_levels[i].index == i + 1
}

proof fn lemma_in_order_stays(bands: Seq<VtxBandView>)
    requires
        in_order(bands),
    ensures
        by_index(bands) == bands,
    decreases bands.len(),
{
    if bands.len() == 0 {
        assert(by_index(bands) =~= bands);
    } else {
        let d = bands.drop_last();
        assert forall|i: int, j: int| 0 <= i <= j < d.len() implies d[i].index <= d[j].index by {
            assert(bands[i].index <= bands[j].index);
        }
        lemma_in_order_stays(d);
        if d.len() > 0 {
            assert(bands[d.len() - 1].index <= bands[d.len() as int].index);
        }
        assert(by_index(bands) =~= bands);
    }
}

proof fn lemma_lines_join(c: CliView, a: Seq<Seq<char>>, b: Seq<Seq<char>>)
    ensures
        cli_lines(c, a + b) == cli_lines(cli_lines(c, a), b),
    decreases a.len(),
{
    if a.len() == 0 {
        assert(a + b =~= b);
    } else {
        assert((a + b).skip(1) =~= a.skip(1) + b);
        lemma_lines_join(cli_line(c, words(a[0])), a.skip(1), b);
    }
}

proof fn lemma_band_lines(c: CliView, bands: Seq<VtxBandView>)
    requires
        forall|i: int| 0 <= i < bands.len() ==> is_writable_band(#[trigger] bands[i]),
    ensures
        cli_lines(c, bands.map_values(|b: VtxBandView| spaced(band_words(b)))) == (CliView {
            bands: c.bands + bands,
            ..c
        }),
    decreases bands.len(),
{
    let ls = bands.map_values(|b: VtxBandView| spaced(band_words(b)));
    if bands.len() == 0 {
        assert(c.bands + bands =~= c.bands);
    } else {
        law_a_band_line_reads_back(c, bands[0]);
        let next = cli_line(c, words(ls[0]));
        assert(ls.skip(1) =~= bands.skip(1).map_values(
            |b: VtxBandView| spaced(band_words(b)),
        ));
        lemma_band_lines(next, bands.skip(1));
        assert(next.bands + bands.skip(1) =~= c.bands + bands);
    }
}

proof fn lemma_table_words_are_words(t: VtxTableView, n: int, i: int)
    requires
        is_writable(t),
        0 <= n < table_words(t).len(),
        0 <= i < table_words(t)[n].len(),
    ensures
        is_word(table_words(t)[n][i]),
{
    lemma_vtxtable_words();
    lemma_decimal_is_a_word(t.channels as nat);
    let k = t.bands.len() as int;
    if 1 <= n <= k {
        let b = t.bands[n - 1];
        assert(is_writable_band(b));
        assert(table_words(t)[n] == band_words(b));
        lemma_decimal_is_a_word(b.index as nat);
        if i >= 6 {
            lemma_decimal_is_a_word(b.freqs_mhz[i - 6] as nat);
        }
    } else if n > k && i >= 2 {
        let l = t.power_levels[i - 2];
        lemma_decimal_is_a_word(l.m_w as nat);
        assert(is_word(l.label));
    }
}

/// Writing a table as CLI text and importing the text gives the table back: its channels,
/// its bands and its power levels with their labels.
#[verifier::rlimit(60)]
pub proof fn law_a_written_table_reads_back(t: VtxTableView)
    requires
        is_writable(t),
    ensures
        cli_table(table_text(t)) == t,
{
    let ws = table_words(t);
    let ls = ws.map_values(|w: Seq<Seq<char>>| spaced(w));
    assert forall|n: int| 0 <= n < ls.len() implies is_line(#[trigger] ls[n]) && words(ls[n])
        == ws[n] by {
        let w = ws[n];
        assert forall|i: int| 0 <= i < w.len() implies is_word(#[trigger] w[i]) by {
            lemma_table_words_are_words(t, n, i);
        }
        lemma_spaced_is_a_line(w);
        law_words_read_back(w);
    }
    law_lines_read_back(ls);
    let k = t.bands.len() as int;
    let band_lines = t.bands.map_values(|b: VtxBandView| spaced(band_words(b)));
    let (first, values, labels) = (ls[0], ls[k + 1], ls[k + 2]);
    assert(ls =~= seq![first] + band_lines + seq![values] + seq![labels]);
    let c0 = nothing_read();
    let c1 = CliView { channels: t.channels, ..c0 };
    lemma_vtxtable_words();
    law_decimal_reads_back(t.channels as nat, 255);
    lemma_one_line(c0, first);
    assert(words(first) == ws[0]);
    assert(cli_lines(c0, seq![first]) == c1);
    lemma_band_lines(c1, t.bands);
    let c2 = CliView { bands: t.bands, ..c1 };
    assert(c1.bands + t.bands =~= t.bands);
    let numbers = t.power_levels.map_values(|l: VtxPowerLevelView| l.m_w);
    let c3 = CliView { values: numbers, ..c2 };
    lemma_one_line(c2, values);
    assert(words(values) == ws[k + 1]);
    assert(ws[k + 1].skip(2) =~= number_words(numbers));
    lemma_numbers_read_back(numbers);
    assert(cli_lines(c2, seq![values]) == c3);
    let c4 = CliView { labels: t.power_levels.map_values(|l: VtxPowerLevelView| l.label), ..c3 };
    lemma_one_line(c3, labels);
    assert(words(labels) == ws[k + 2]);
    assert(ws[k + 2].skip(2) =~= c4.labels);
    assert(cli_lines(c3, seq![labels]) == c4);
    lemma_lines_join(c0, seq![first], band_lines);
    lemma_lines_join(c0, seq![first] + band_lines, seq![values]);
    lemma_lines_join(c0, seq![first] + band_lines + seq![values], seq![labels]);
    lemma_in_order_stays(t.bands);
    assert(cli_power_levels(c4) =~= t.power_levels);
}

proof fn lemma_one_line(c: CliView, line: Seq<char>)
    ensures
        cli_lines(c, seq![line]) == cli_line(c, words(line)),
{
    assert(seq![line].skip(1) =~= seq![]);
    reveal_with_fuel(cli_lines, 2);
}

/// A power level without a label of its own is labelled with its power, and the levels are
/// numbered from 1 in the order of the values.
pub proof fn law_levels_are_numbered_and_labelled(c: CliView, i: int)
    requires
        0 <= i < c.values.len() <= 255,
    ensures
        cli_power_levels(c).len() == c.values.len(),
        cli_power_levels(c)[i].index == i + 1,
        cli_power_levels(c)[i].m_w == c.values[i],
        i < c.labels.len() ==> cli_power_levels(c)[i].label == c.labels[i],
        i >= c.labels.len() ==> parse_unsigned(cli_power_levels(c)[i].label, 0xffff) == Some(
            c.values[i] as nat,
        ),
{
    law_decimal_reads_back(c.values[i] as nat, 0xffff);
}

/// The frequency of a selection is that of its channel in the first band with its index;
/// without such a band or channel, or with no band selected, it is the one that was selected
/// by itself.
pub proof fn law_a_selection_has_the_frequency_of_its_channel(
    sel: VtxSelectionState,
    table: VtxTableView,
    i: int,
)
    ensures
        sel.selected_band == 0 ==> sel.spec_frequency_mhz(table) == sel.selected_freq_mhz,
        sel.selected_band != 0 && (forall|k: int|
            0 <= k < table.bands.len() ==> (#[trigger] table.bands[k]).index != sel.selected_band)
            ==> sel.spec_frequency_mhz(table) == sel.selected_freq_mhz,
        sel.selected_band != 0 && 0 <= i < table.bands.len() && table.bands[i].index
            == sel.selected_band && (forall|k: int|
            0 <= k < i ==> (#[trigger] table.bands[k]).index != sel.selected_band) ==> {
            let freqs = table.bands[i].freqs_mhz;
            &&& 1 <= sel.selected_channel <= 8 ==> sel.spec_frequency_mhz(table)
                == freqs[sel.selected_channel - 1]
            &&& sel.selected_channel == 0 ==> sel.spec_frequency_mhz(table) == freqs[0]
            &&& sel.selected_channel > 8 ==> sel.spec_frequency_mhz(table)
                == sel.selected_freq_mhz
        },
{
    lemma_band_is_found(table.bands, sel.selected_band, i);
}

proof fn lemma_band_is_found(bands: Seq<VtxBandView>, index: u8, i: int)
    ensures
        (forall|k: int| 0 <= k < bands.len() ==> (#[trigger] bands[k]).index != index)
            ==> band_with_index(bands, index) is None,
        0 <= i < bands.len() && bands[i].index == index && (forall|k: int|
            0 <= k < i ==> (#[trigger] bands[k]).index != index) ==> band_with_index(bands, index)
            == Some(bands[i]),
    decreases bands.len(),
{
    if bands.len() > 0 {
        let rest = bands.skip(1);
        lemma_band_is_found(rest, index, i - 1);
        if forall|k: int| 0 <= k < bands.len() ==> (#[trigger] bands[k]).index != index {
            assert forall|k: int| 0 <= k < rest.len() implies (#[trigger] rest[k]).index != index by {
                assert(rest[k] == bands[k + 1]);
            }
        }
        if 0 < i < bands.len() && bands[i].index == index && (forall|k: int|
            0 <= k < i ==> (#[trigger] bands[k]).index != index) {
            assert forall|k: int| 0 <= k < i - 1 implies (#[trigger] rest[k]).index != index by {
                assert(rest[k] == bands[k + 1]);
            }
            assert(rest[i - 1] == bands[i]);
        }
    }
}

/// What a line says does not depend on the lines before it: a line of values, of labels or of
/// channels replaces what was said, and a band is added behind the others.
pub proof fn law_each_line_speaks_for_itself(c: CliView, w: Seq<Seq<char>>)
    requires
        w.len() >= 2,
        w[0] == "vtxtable"@,
    ensures
        ({
            let alone = cli_line(nothing_read(), w);
            let r = cli_line(c, w);
            &&& w[1] == "powervalues"@ ==> r == (CliView { values: alone.values, ..c })
            &&& w[1] == "powerlabels"@ ==> r == (CliView { labels: w.skip(2), ..c })
            &&& w[1] == "channels"@ && w.len() > 2 && parse_unsigned(w[2], 255) is Some ==> r
                == (CliView { channels: alone.channels, ..c }) && parse_unsigned(w[2], 255) == Some(
                r.channels as nat,
            )
            &&& w[1] == "band"@ && w.len() >= 6 ==> r == (CliView {
                bands: c.bands + alone.bands,
                ..c
            }) && alone.bands.len() == 1
        }),
{
    reveal_strlit("channels");
    reveal_strlit("band");
    reveal_strlit("powervalues");
    reveal_strlit("powerlabels");
    assert("channels"@.len() == 8 && "band"@.len() == 4);
    assert("powervalues"@.len() == 11 && "powerlabels"@.len() == 11);
    assert("powervalues"@[5] == 'v' && "powerlabels"@[5] == 'l');
    if w[1] == "band"@ && w.len() >= 6 {
        assert(c.bands.push(cli_band(w)) =~= c.bands + cli_line(nothing_read(), w).bands);
    }
}

proof fn lemma_nothing_is_said(c: CliView, ls: Seq<Seq<char>>)
    requires
        forall|i: int|
            0 <= i < ls.len() ==> words(#[trigger] ls[i]).len() == 0 || words(ls[i])[0]
                != "vtxtable"@,
    ensures
        cli_lines(c, ls) == c,
    decreases ls.len(),
{
    if ls.len() > 0 {
        assert(words(ls[0]).len() == 0 || words(ls[0])[0] != "vtxtable"@);
        assert forall|i: int| 0 <= i < ls.skip(1).len() implies words(
            #[trigger] ls.skip(1)[i],
        ).len() == 0 || words(ls.skip(1)[i])[0] != "vtxtable"@ by {
            assert(ls.skip(1)[i] == ls[i + 1]);
        }
        lemma_nothing_is_said(cli_line(c, words(ls[0])), ls.skip(1));
    }
}

/// A text without a line on the table tells of a table with eight channels and nothing in it.
pub proof fn law_a_text_without_a_table_tells_of_none(text: Seq<char>)
    requires
        forall|i: int|
            0 <= i < lines(text).len() ==> words(#[trigger] lines(text)[i]).len() == 0 || words(
                lines(text)[i],
            )[0] != "vtxtable"@,
    ensures
        cli_table(text).channels == 8,
        cli_table(text).bands.len() == 0,
        cli_table(text).power_levels.len() == 0,
        cli_table(text) == empty_table(),
{
    lemma_nothing_is_said(nothing_read(), lines(text));
    assert(cli_table(text).power_levels =~= seq![]);
    assert(cli_table(text).bands =~= seq![]);
}

} // verus!
