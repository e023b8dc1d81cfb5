//! The status of the VTX on its own screen, over DisplayPort.

use vstd::prelude::*;
#[allow(unused_imports)]
use vstd::string::*;
#[allow(unused_imports)]
use vstd::utf8::*;

use crate::msp::{
    at_most_first,
    displayport_cmd,
    displayport_string,
    encode_displayport_draw_screen,
    encode_displayport_draw_string,
};
use crate::state::VtxStatus;
use crate::text::{
    decimal,
    law_decimal_reads_back,
    law_padding_keeps_the_text,
    left_aligned,
    push_decimal,
    push_left_aligned,
    push_right_aligned,
    right_aligned,
    upper,
    upper_text,
    uppercase,
};

verus! {

/// A label at the left and a value at the right, in capitals.
pub open spec fn row_text(label: Seq<char>, value: Seq<char>) -> Seq<char> {
    upper_text(left_aligned(label, 10) + right_aligned(value, 18))
}

/// A number with its unit, or a dash where there is none.
pub open spec fn number_text(n: Option<int>, unit: Seq<char>) -> Seq<char> {
    match n {
        Some(v) => decimal(v as nat) + unit,
        None => "-"@,
    }
}

/// One of two words, or a question mark where it is not known which.
pub open spec fn choice_text(b: Option<bool>, yes: Seq<char>, no: Seq<char>) -> Seq<char> {
    match b {
        Some(true) => yes,
        Some(false) => no,
        None => "?"@,
    }
}

pub open spec fn of_u16(n: Option<u16>) -> Option<int> {
    match n {
        Some(v) => Some(v as int),
        None => None,
    }
}

pub open spec fn of_u8(n: Option<u8>) -> Option<int> {
    match n {
        Some(v) => Some(v as int),
        None => None,
    }
}

pub open spec fn status_rows(s: VtxStatus) -> Seq<Seq<char>> {
    seq![
        row_text("Level"@, decimal(s.level as nat)),
        row_text("Power mW"@, number_text(of_u16(s.power_mw), "mW"@)),
        row_text("PA"@, choice_text(s.boost_on, "ON"@, "OFF"@)),
        row_text("RTC6705"@, number_text(of_u8(s.rtc6705_level), ""@)),
        row_text("Freq"@, number_text(of_u16(s.frequency_mhz), "MHz"@)),
        row_text("VBIAS"@, decimal(s.vbias_mv as nat) + "mV"@),
        row_text("Vdet"@, decimal(s.detector_mv as nat)),
        row_text("PID"@, choice_text(s.pid_active, "Active"@, "Idle"@)),
        row_text("Session"@, choice_text(s.session_active, "Open"@, "Closed"@)),
    ]
}

/// The payloads that draw the status: one for each row, and one that shows them.
pub open spec fn status_frames(s: VtxStatus) -> Seq<Seq<u8>> {
    Seq::new(
        10,
        |i: int|
            if i < 9 {
                displayport_string((i + 1) as u8, 1, status_rows(s)[i])
            } else {
                seq![displayport_cmd::DRAW_SCREEN]
            },
    )
}

/// The contents of a sequence of payloads.
pub open spec fn payloads(v: Seq<Vec<u8>>) -> Seq<Seq<u8>> {
    v.map_values(|p: Vec<u8>| p@)
}

fn row(label: &str, value: &str) -> (r: String)
    ensures
        r@ == row_text(label@, value@),
{
    let mut s = String::new();
    push_left_aligned(&mut s, label, 10);
    push_right_aligned(&mut s, value, 18);
    assert(s@ =~= left_aligned(label@, 10) + right_aligned(value@, 18));
    uppercase(s.as_str())
}

fn number(n: Option<u16>, unit: &str) -> (r: String)
    ensures
        r@ == number_text(of_u16(n), unit@),
{
    let mut s = String::new();
    match n {
        Some(v) => {
            push_decimal(&mut s, v as u64);
            s.append(unit);
            assert(s@ =~= number_text(of_u16(n), unit@));
        },
        None => {
            s.append("-");
            assert(s@ =~= "-"@);
        },
    }
    s
}

fn choice(b: Option<bool>, yes: &'static str, no: &'static str) -> (r: &'static str)
    ensures
        r@ == choice_text(b, yes@, no@),
{
    match b {
        Some(true) => yes,
        Some(false) => no,
        None => "?",
    }
}

fn rows_of(status: &VtxStatus) -> (r: Vec<String>)
    ensures
        r@.len() == 9,
        forall|i: int| 0 <= i < 9 ==> (#[trigger] r@[i])@ == status_rows(*status)[i],
{
    let level = number(Some(status.level as u16), "");
    assert(level@ =~= decimal(status.level as nat)) by {
        reveal_strlit("");
    }
    let power = number(status.power_mw, "mW");
    let rtc = match status.rtc6705_level {
        Some(v) => number(Some(v as u16), ""),
        None => number(None, ""),
    };
    let freq = number(status.frequency_mhz, "MHz");
    let vbias = number(Some(status.vbias_mv), "mV");
    let vdet = number(Some(status.detector_mv), "");
    assert(vdet@ =~= decimal(status.detector_mv as nat)) by {
        reveal_strlit("");
    }
    let mut r: Vec<String> = Vec::new();
    r.push(row("Level", level.as_str()));
    r.push(row("Power mW", power.as_str()));
    r.push(row("PA", choice(status.boost_on, "ON", "OFF")));
    r.push(row("RTC6705", rtc.as_str()));
    r.push(row("Freq", freq.as_str()));
    r.push(row("VBIAS", vbias.as_str()));
    r.push(row("Vdet", vdet.as_str()));
    r.push(row("PID", choice(status.pid_active, "Active", "Idle")));
    r.push(row("Session", choice(status.session_active, "Open", "Closed")));
    r
}

pub fn build_status_displayport_frames(status: &VtxStatus) -> (r: Vec<Vec<u8>>)
    ensures
        payloads(r@) == status_frames(*status),
{
    let rows = rows_of(status);
    let mut r: Vec<Vec<u8>> = Vec::new();
    let mut i: usize = 0;
    while i < 9
        invariant
            i <= 9,
            rows@.len() == 9,
            forall|k: int| 0 <= k < 9 ==> (#[trigger] rows@[k])@ == status_rows(*status)[k],
            r@.len() == i,
            forall|k: int| 0 <= k < i ==> (#[trigger] r@[k])@ == status_frames(*status)[k],
        decreases 9 - i,
    {
        r.push(encode_displayport_draw_string((i + 1) as u8, 1, rows[i].as_str()));
        i = i + 1;
    }
    r.push(encode_displayport_draw_screen());
    assert(payloads(r@) =~= status_frames(*status));
    r
}

/// A row is twenty-eight characters wide where its label and value fit: the label at its
/// left, the value at its right, and spaces between them, all in capitals.
pub proof fn law_a_row_holds_its_label_and_its_value(label: Seq<char>, value: Seq<char>, i: int)
    requires
        label.len() <= 10,
        value.len() <= 18,
    ensures
        ({
            let row = row_text(label, value);
            &&& row.len() == 28
            &&& 0 <= i < label.len() ==> row[i] == upper(label[i])
            &&& 28 - value.len() <= i < 28 ==> row[i] == upper(value[i - 28 + value.len()])
            &&& label.len() <= i < 28 - value.len() ==> row[i] == ' '
        }),
{
    law_padding_keeps_the_text(label, 10);
    law_padding_keeps_the_text(value, 18);
    let (l, r) = (left_aligned(label, 10), right_aligned(value, 18));
    assert(l.len() == 10 && r.len() == 18);
    assert(row_text(label, value).len() == 28);
    if 0 <= i < 28 {
        assert(row_text(label, value)[i] == upper((l + r)[i]));
        if i < label.len() {
            assert(l[i] == l.take(label.len() as int)[i]);
        }
        if i >= 28 - value.len() {
            assert(r[i - 10] == r.skip(18 - value.len())[i - 28 + value.len()]);
        }
    }
}

/// Each row of the status is drawn on a line of its own, from the second line and the second
/// column on, and nothing is shown before all are drawn.
pub proof fn law_every_row_is_drawn_once(s: VtxStatus, i: int)
    ensures
        status_frames(s).len() == 10,
        0 <= i < 9 ==> ({
            let f = status_frames(s)[i];
            &&& f.len() >= 4
            &&& f[0] == displayport_cmd::DRAW_STRING && f[1] == i + 1 && f[2] == 1 && f[3] == 0
            &&& f.skip(4) == at_most_first(encode_utf8(status_rows(s)[i]), 29)
        }),
        status_frames(s)[9] == seq![displayport_cmd::DRAW_SCREEN],
{
    if 0 <= i < 9 {
        let text = at_most_first(encode_utf8(status_rows(s)[i]), 29);
        assert(status_frames(s)[i].skip(4) =~= text);
    }
}

/// Rows of one label that are alike have values that are alike, in capitals.
proof fn lemma_rows_tell_values_apart(label: Seq<char>, v: Seq<char>, w: Seq<char>)
    requires
        label.len() <= 10,
        0 < v.len() <= 18,
        0 < w.len() <= 18,
        upper(v[0]) != ' ',
        upper(w[0]) != ' ',
        row_text(label, v) == row_text(label, w),
    ensures
        upper_text(v) == upper_text(w),
{
    law_a_row_holds_its_label_and_its_value(label, v, 28 - v.len());
    law_a_row_holds_its_label_and_its_value(label, w, 28 - v.len());
    law_a_row_holds_its_label_and_its_value(label, v, 28 - w.len());
    law_a_row_holds_its_label_and_its_value(label, w, 28 - w.len());
    assert(v.len() == w.len());
    assert forall|k: int| 0 <= k < v.len() implies upper_text(v)[k] == upper_text(w)[k] by {
        law_a_row_holds_its_label_and_its_value(label, v, 28 - v.len() + k);
        law_a_row_holds_its_label_and_its_value(label, w, 28 - v.len() + k);
    }
    assert(upper_text(v) =~= upper_text(w));
}

proof fn lemma_numbers_are_short(n: nat)
    requires
        n < 65536,
    ensures
        1 <= decimal(n).len() <= 5,
        forall|i: int| 0 <= i < decimal(n).len() ==> '0' <= #[trigger] decimal(n)[i] <= '9',
{
    reveal_with_fuel(decimal, 6);
}

/// Rows of one label and one unit that are alike have the same number, or none.
proof fn lemma_rows_tell_numbers_apart(
    label: Seq<char>,
    a: Option<u16>,
    b: Option<u16>,
    unit: Seq<char>,
)
    requires
        label.len() <= 10,
        unit.len() <= 3,
        row_text(label, number_text(of_u16(a), unit)) == row_text(
            label,
            number_text(of_u16(b), unit),
        ),
    ensures
        a == b,
{
    reveal_strlit("-");
    assert("-"@.len() == 1 && "-"@[0] == '-');
    let (v, w) = (number_text(of_u16(a), unit), number_text(of_u16(b), unit));
    if let Some(n) = a {
        lemma_numbers_are_short(n as nat);
        assert(v[0] == decimal(n as nat)[0]);
    }
    if let Some(n) = b {
        lemma_numbers_are_short(n as nat);
        assert(w[0] == decimal(n as nat)[0]);
    }
    lemma_rows_tell_values_apart(label, v, w);
    assert(upper_text(v)[0] == upper(v[0]) && upper_text(w)[0] == upper(w[0]));
    if a is Some && b is Some {
        let (x, y) = (a->0 as nat, b->0 as nat);
        assert(upper_text(v).len() == v.len() && upper_text(w).len() == w.len());
        assert(decimal(x).len() == decimal(y).len());
        assert forall|i: int| 0 <= i < decimal(x).len() implies decimal(x)[i] == decimal(y)[i] by {
            assert(upper_text(v)[i] == upper(decimal(x)[i]));
            assert(upper_text(w)[i] == upper(decimal(y)[i]));
        }
        assert(decimal(x) =~= decimal(y));
        law_decimal_reads_back(x, 65535);
        law_decimal_reads_back(y, 65535);
    }
}

proof fn lemma_rows_tell_choices_apart(
    label: Seq<char>,
    a: Option<bool>,
    b: Option<bool>,
    yes: Seq<char>,
    no: Seq<char>,
)
    requires
        label.len() <= 10,
        1 < yes.len() <= 6,
        1 < no.len() <= 6,
        yes.len() != no.len(),
        upper(yes[0]) != ' ',
        upper(no[0]) != ' ',
        row_text(label, choice_text(a, yes, no)) == row_text(label, choice_text(b, yes, no)),
    ensures
        a == b,
{
    reveal_strlit("?");
    assert("?"@.len() == 1 && "?"@[0] == '?');
    let (v, w) = (choice_text(a, yes, no), choice_text(b, yes, no));
    lemma_rows_tell_values_apart(label, v, w);
    assert(upper_text(v).len() == v.len() && upper_text(w).len() == w.len());
}

/// Each row shows one part of the status: where two statuses have a row alike, they have the
/// part that it shows alike.
pub proof fn law_rows_show_the_status(s: VtxStatus, t: VtxStatus)
    ensures
        status_rows(s).len() == 9,
        status_rows(s)[0] == status_rows(t)[0] <==> s.level == t.level,
        status_rows(s)[1] == status_rows(t)[1] <==> s.power_mw == t.power_mw,
        status_rows(s)[2] == status_rows(t)[2] <==> s.boost_on == t.boost_on,
        status_rows(s)[3] == status_rows(t)[3] <==> s.rtc6705_level == t.rtc6705_level,
        status_rows(s)[4] == status_rows(t)[4] <==> s.frequency_mhz == t.frequency_mhz,
        status_rows(s)[5] == status_rows(t)[5] <==> s.vbias_mv == t.vbias_mv,
        status_rows(s)[6] == status_rows(t)[6] <==> s.detector_mv == t.detector_mv,
        status_rows(s)[7] == status_rows(t)[7] <==> s.pid_active == t.pid_active,
        status_rows(s)[8] == status_rows(t)[8] <==> s.session_active == t.session_active,
{
    lemma_labels_are_short();
    let none = ""@;
    assert forall|n: nat| #[trigger] decimal(n) + none =~= decimal(n) by {}
    let word = |n: Option<u8>|
        match n {
            Some(v) => Some(v as u16),
            None => None::<u16>,
        };
    assert(of_u16(word(s.rtc6705_level)) == of_u8(s.rtc6705_level));
    assert(of_u16(word(t.rtc6705_level)) == of_u8(t.rtc6705_level));
    if status_rows(s)[0] == status_rows(t)[0] {
        lemma_rows_tell_numbers_apart("Level"@, Some(s.level as u16), Some(t.level as u16), none);
    }
    if status_rows(s)[1] == status_rows(t)[1] {
        lemma_rows_tell_numbers_apart("Power mW"@, s.power_mw, t.power_mw, "mW"@);
    }
    if status_rows(s)[2] == status_rows(t)[2] {
        lemma_rows_tell_choices_apart("PA"@, s.boost_on, t.boost_on, "ON"@, "OFF"@);
    }
    if status_rows(s)[3] == status_rows(t)[3] {
        lemma_rows_tell_numbers_apart(
            "RTC6705"@,
            word(s.rtc6705_level),
            word(t.rtc6705_level),
            none,
        );
    }
    if status_rows(s)[4] == status_rows(t)[4] {
        lemma_rows_tell_numbers_apart("Freq"@, s.frequency_mhz, t.frequency_mhz, "MHz"@);
    }
    if status_rows(s)[5] == status_rows(t)[5] {
        lemma_rows_tell_numbers_apart("VBIAS"@, Some(s.vbias_mv), Some(t.vbias_mv), "mV"@);
    }
    if status_rows(s)[6] == status_rows(t)[6] {
        lemma_rows_tell_numbers_apart("Vdet"@, Some(s.detector_mv), Some(t.detector_mv), none);
    }
    if status_rows(s)[7] == status_rows(t)[7] {
        lemma_rows_tell_choices_apart("PID"@, s.pid_active, t.pid_active, "Active"@, "Idle"@);
    }
    if status_rows(s)[8] == status_rows(t)[8] {
        lemma_rows_tell_choices_apart(
            "Session"@,
            s.session_active,
            t.session_active,
            "Open"@,
            "Closed"@,
        );
    }
}

proof fn lemma_labels_are_short()
    ensures
        "Level"@.len() <= 10 && "Power mW"@.len() <= 10 && "PA"@.len() <= 10,
        "RTC6705"@.len() <= 10 && "Freq"@.len() <= 10 && "VBIAS"@.len() <= 10,
        "Vdet"@.len() <= 10 && "PID"@.len() <= 10 && "Session"@.len() <= 10,
        ""@.len() == 0 && "mW"@.len() == 2 && "mV"@.len() == 2 && "MHz"@.len() == 3,
        "ON"@.len() == 2 && "OFF"@.len() == 3 && "ON"@[0] == 'O' && "OFF"@[0] == 'O',
        "Active"@.len() == 6 && "Idle"@.len() == 4 && "Active"@[0] == 'A' && "Idle"@[0] == 'I',
        "Open"@.len() == 4 && "Closed"@.len() == 6 && "Open"@[0] == 'O' && "Closed"@[0] == 'C',
{
    reveal_strlit("Level");
    reveal_strlit("Power mW");
    reveal_strlit("PA");
    reveal_strlit("RTC6705");
    reveal_strlit("Freq");
    reveal_strlit("VBIAS");
    reveal_strlit("Vdet");
    reveal_strlit("PID");
    reveal_strlit("Session");
    reveal_strlit("");
    reveal_strlit("mW");
    reveal_strlit("mV");
    reveal_strlit("MHz");
    reveal_strlit("ON");
    reveal_strlit("OFF");
    reveal_strlit("Active");
    reveal_strlit("Idle");
    reveal_strlit("Open");
    reveal_strlit("Closed");
}

/// What is on is said to be: the rows of the amplifier, the regulator and the session end
/// with the word for it.
pub proof fn law_rows_say_what_is_on(s: VtxStatus)
    ensures
        s.boost_on == Some(true) ==> status_rows(s)[2].skip(26) == seq!['O', 'N'],
        s.boost_on == Some(false) ==> status_rows(s)[2].skip(25) == seq!['O', 'F', 'F'],
        s.pid_active == Some(false) ==> status_rows(s)[7].skip(24) == seq!['I', 'D', 'L', 'E'],
        s.session_active == Some(true) ==> status_rows(s)[8].skip(24) == seq!['O', 'P', 'E', 'N'],
{
    lemma_labels_are_short();
    reveal_strlit("ON");
    reveal_strlit("OFF");
    reveal_strlit("Idle");
    reveal_strlit("Open");
    lemma_a_row_ends_with_its_value("PA"@, "ON"@);
    lemma_a_row_ends_with_its_value("PA"@, "OFF"@);
    lemma_a_row_ends_with_its_value("PID"@, "Idle"@);
    lemma_a_row_ends_with_its_value("Session"@, "Open"@);
    assert(upper_text("ON"@) =~= seq!['O', 'N']);
    assert(upper_text("OFF"@) =~= seq!['O', 'F', 'F']);
    assert(upper_text("Idle"@) =~= seq!['I', 'D', 'L', 'E']);
    assert(upper_text("Open"@) =~= seq!['O', 'P', 'E', 'N']);
}

proof fn lemma_a_row_ends_with_its_value(label: Seq<char>, value: Seq<char>)
    requires
        label.len() <= 10,
        value.len() <= 18,
    ensures
        row_text(label, value).skip(28 - value.len()) == upper_text(value),
{
    let end = row_text(label, value).skip(28 - value.len());
    law_a_row_holds_its_label_and_its_value(label, value, 0);
    assert forall|k: int| 0 <= k < value.len() implies end[k] == upper_text(value)[k] by {
        law_a_row_holds_its_label_and_its_value(label, value, 28 - value.len() + k);
    }
    assert(end =~= upper_text(value));
}

} // verus!
