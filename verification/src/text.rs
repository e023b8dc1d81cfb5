//! Text: white space, words, lines, decimal numbers and ASCII letter case.

use vstd::prelude::*;
#[allow(unused_imports)]
use vstd::string::*;

verus! {

/// `String::push`: the string's characters, with `ch` after the last of them.
pub assume_specification[ String::push ](s: &mut String, ch: char)
    ensures
        final(s)@ == old(s)@.push(ch),
;

/// The characters with Unicode's `White_Space` property.
pub open spec fn is_white(c: char) -> bool {
    ||| '\u{9}' <= c <= '\u{d}'
    ||| c == ' '
    ||| c == '\u{85}'
    ||| c == '\u{a0}'
    ||| c == '\u{1680}'
    ||| '\u{2000}' <= c <= '\u{200a}'
    ||| c == '\u{2028}'
    ||| c == '\u{2029}'
    ||| c == '\u{202f}'
    ||| c == '\u{205f}'
    ||| c == '\u{3000}'
}

pub fn is_white_char(c: char) -> (r: bool)
    ensures
        r == is_white(c),
{
    ('\u{9}' <= c && c <= '\u{d}') || c == ' ' || c == '\u{85}' || c == '\u{a0}' || c == '\u{1680}'
        || ('\u{2000}' <= c && c <= '\u{200a}') || c == '\u{2028}' || c == '\u{2029}' || c
        == '\u{202f}' || c == '\u{205f}' || c == '\u{3000}'
}

/// The characters of `s`, in order.
pub fn chars_of(s: &str) -> (r: Vec<char>)
    ensures
        r@ == s@,
{
    let mut r: Vec<char> = Vec::new();
    for c in it: s.chars()
        invariant
            r@ == it.seq().take(it.index() as int),
            it.seq() == s@,
    {
        r.push(c);
    }
    r
}

/// The string that holds the characters `chars[from..to]`.
pub fn string_of(chars: &Vec<char>, from: usize, to: usize) -> (r: String)
    requires
        from <= to <= chars@.len(),
    ensures
        r@ == chars@.subrange(from as int, to as int),
{
    let mut r = String::new();
    let mut i: usize = from;
    while i < to
        invariant
            from <= i <= to <= chars@.len(),
            r@ == chars@.subrange(from as int, i as int),
        decreases to - i,
    {
        r.push(chars[i]);
        i = i + 1;
    }
    r
}

/// The texts of a sequence of strings.
pub open spec fn texts(v: Seq<String>) -> Seq<Seq<char>> {
    v.map_values(|s: String| s@)
}

/// How many characters at the start of `s` are not white space.
pub open spec fn word_len(s: Seq<char>) -> nat
    decreases s.len(),
{
    if s.len() == 0 || is_white(s[0]) {
        0
    } else {
        1 + word_len(s.skip(1))
    }
}

/// The words of `s`: its longest runs of characters other than white space.
pub open spec fn words(s: Seq<char>) -> Seq<Seq<char>>
    decreases s.len(),
{
    if s.len() == 0 {
        seq![]
    } else if is_white(s[0]) {
        words(s.skip(1))
    } else {
        let n = word_len(s) as int;
        if 0 < n <= s.len() {
            seq![s.take(n)] + words(s.skip(n))
        } else {
            seq![]
        }
    }
}

proof fn lemma_word_len_at(s: Seq<char>, n: int)
    requires
        0 <= n <= s.len(),
        forall|i: int| 0 <= i < n ==> !is_white(#[trigger] s[i]),
        n == s.len() || is_white(s[n]),
    ensures
        word_len(s) == n,
    decreases s.len(),
{
    if n > 0 {
        let t = s.skip(1);
        assert forall|i: int| 0 <= i < n - 1 implies !is_white(#[trigger] t[i]) by {
            assert(t[i] == s[i + 1]);
        }
        lemma_word_len_at(t, n - 1);
    }
}

/// The words of `chars[from..to]`.
pub fn words_of(chars: &Vec<char>, from: usize, to: usize) -> (r: Vec<String>)
    requires
        from <= to <= chars@.len(),
    ensures
        texts(r@) == words(chars@.subrange(from as int, to as int)),
{
    let ghost all = chars@.subrange(from as int, to as int);
    let mut r: Vec<String> = Vec::new();
    let mut i: usize = from;
    assert(all.skip(0) =~= all);
    assert(texts(r@) + words(all) =~= words(all));
    while i < to
        invariant
            from <= i <= to <= chars@.len(),
            all == chars@.subrange(from as int, to as int),
            texts(r@) + words(all.skip(i - from)) == words(all),
        decreases to - i,
    {
        let ghost here = all.skip(i - from);
        assert(here[0] == chars@[i as int]);
        if is_white_char(chars[i]) {
            assert(here.skip(1) =~= all.skip(i + 1 - from));
            i = i + 1;
        } else {
            let mut j: usize = i;
            while j < to && !is_white_char(chars[j])
                invariant
                    from <= i <= j <= to <= chars@.len(),
                    forall|k: int| i <= k < j ==> !is_white(#[trigger] chars@[k]),
                decreases to - j,
            {
                j = j + 1;
            }
            let word = string_of(chars, i, j);
            proof {
                let n = j - i;
                assert forall|k: int| 0 <= k < n implies !is_white(#[trigger] here[k]) by {
                    assert(here[k] == chars@[i + k]);
                }
                if n < here.len() {
                    assert(here[n] == chars@[j as int]);
                }
                lemma_word_len_at(here, n as int);
                assert(here.take(n as int) =~= word@);
                assert(here.skip(n as int) =~= all.skip(j - from));
                assert(texts(r@.push(word)) =~= texts(r@) + seq![word@]);
                assert(texts(r@.push(word)) + words(all.skip(j - from)) =~= texts(r@) + words(here));
            }
            r.push(word);
            i = j;
        }
    }
    assert(words(all.skip(to - from)) =~= seq![]);
    assert(texts(r@) + words(all.skip(to - from)) =~= texts(r@));
    r
}

/// How many characters stand before the first line feed of `s`, or in `s` where it holds none.
pub open spec fn line_len(s: Seq<char>) -> nat
    decreases s.len(),
{
    if s.len() == 0 || s[0] == '\n' {
        0
    } else {
        1 + line_len(s.skip(1))
    }
}

/// The lines of `s`: what stands before, between and after its line feeds. A
/// carriage return before a line feed belongs to its line, as white space at its
/// end; nothing follows a line feed at the very end.
pub open spec fn lines(s: Seq<char>) -> Seq<Seq<char>>
    decreases s.len(),
{
    if s.len() == 0 {
        seq![]
    } else {
        let n = line_len(s) as int;
        if 0 <= n < s.len() {
            seq![s.take(n)] + lines(s.skip(n + 1))
        } else {
            seq![s]
        }
    }
}

pub proof fn lemma_line_len_at(s: Seq<char>, n: int)
    requires
        0 <= n <= s.len(),
        forall|i: int| 0 <= i < n ==> #[trigger] s[i] != '\n',
        n == s.len() || s[n] == '\n',
    ensures
        line_len(s) == n,
    decreases s.len(),
{
    if n > 0 {
        let t = s.skip(1);
        assert forall|i: int| 0 <= i < n - 1 implies #[trigger] t[i] != '\n' by {
            assert(t[i] == s[i + 1]);
        }
        lemma_line_len_at(t, n - 1);
    }
}

/// The index of the first line feed of `chars` at or after `from`, or the length.
pub fn line_end(chars: &Vec<char>, from: usize) -> (r: usize)
    requires
        from <= chars@.len(),
    ensures
        r == from + line_len(chars@.skip(from as int)),
        from <= r <= chars@.len(),
        r < chars@.len() ==> chars@[r as int] == '\n',
{
    let mut i: usize = from;
    while i < chars.len() && chars[i] != '\n'
        invariant
            from <= i <= chars@.len(),
            forall|k: int| from <= k < i ==> #[trigger] chars@[k] != '\n',
        decreases chars@.len() - i,
    {
        i = i + 1;
    }
    proof {
        let s = chars@.skip(from as int);
        assert forall|k: int| 0 <= k < i - from implies #[trigger] s[k] != '\n' by {
            assert(s[k] == chars@[from + k]);
        }
        lemma_line_len_at(s, i - from);
    }
    i
}

/// `s` without the white space at its end.
pub open spec fn trim_end(s: Seq<char>) -> Seq<char>
    decreases s.len(),
{
    if s.len() > 0 && is_white(s.last()) {
        trim_end(s.drop_last())
    } else {
        s
    }
}

/// `s` without the white space at its start.
pub open spec fn trim_start(s: Seq<char>) -> Seq<char>
    decreases s.len(),
{
    if s.len() > 0 && is_white(s[0]) {
        trim_start(s.skip(1))
    } else {
        s
    }
}

pub fn trimmed_end(s: &str) -> (r: String)
    ensures
        r@ == trim_end(s@),
{
    let chars = chars_of(s);
    let mut n: usize = chars.len();
    assert(chars@.take(n as int) =~= s@);
    while n > 0 && is_white_char(chars[n - 1])
        invariant
            n <= chars@.len(),
            trim_end(chars@.take(n as int)) == trim_end(s@),
        decreases n,
    {
        assert(chars@.take(n as int).drop_last() =~= chars@.take(n - 1));
        n = n - 1;
    }
    assert(chars@.take(n as int) =~= chars@.subrange(0, n as int));
    string_of(&chars, 0, n)
}

/// `s` without the white space at either end.
pub fn trimmed(s: &str) -> (r: String)
    ensures
        r@ == trim_end(trim_start(s@)),
{
    let chars = chars_of(s);
    let mut i: usize = 0;
    assert(chars@.skip(0) =~= s@);
    while i < chars.len() && is_white_char(chars[i])
        invariant
            i <= chars@.len(),
            trim_start(chars@.skip(i as int)) == trim_start(s@),
        decreases chars@.len() - i,
    {
        assert(chars@.skip(i as int).skip(1) =~= chars@.skip(i + 1));
        i = i + 1;
    }
    assert(chars@.skip(i as int) =~= chars@.subrange(i as int, chars@.len() as int));
    let rest = string_of(&chars, i, chars.len());
    trimmed_end(rest.as_str())
}

pub open spec fn is_digit(c: char) -> bool {
    '0' <= c <= '9'
}

/// The value of a decimal digit.
pub open spec fn digit_value(c: char) -> nat {
    (c as int - '0' as int) as nat
}

pub open spec fn all_digits(s: Seq<char>) -> bool {
    forall|i: int| 0 <= i < s.len() ==> is_digit(#[trigger] s[i])
}

/// The number that the decimal digits `s` write.
pub open spec fn digits_value(s: Seq<char>) -> nat
    decreases s.len(),
{
    if s.len() == 0 {
        0
    } else {
        digits_value(s.drop_last()) * 10 + digit_value(s.last())
    }
}

/// The number that `s` writes in decimal, where it writes one of at most `max`:
/// one or more digits, with or without a plus sign before them.
pub open spec fn parse_unsigned(s: Seq<char>, max: nat) -> Option<nat> {
    let d = if s.len() > 0 && s[0] == '+' { s.skip(1) } else { s };
    if d.len() > 0 && all_digits(d) && digits_value(d) <= max {
        Some(digits_value(d))
    } else {
        None
    }
}

proof fn lemma_digits_value_grows(s: Seq<char>, n: int)
    requires
        0 <= n <= s.len(),
    ensures
        digits_value(s.take(n)) <= digits_value(s),
    decreases s.len(),
{
    if n < s.len() {
        lemma_digits_value_grows(s.drop_last(), n);
        assert(s.drop_last().take(n) =~= s.take(n));
    } else {
        assert(s.take(n) =~= s);
    }
}

/// [`parse_unsigned`], for limits that fit.
pub fn parse_number(s: &str, max: u32) -> (r: Option<u32>)
    ensures
        match r {
            Some(n) => parse_unsigned(s@, max as nat) == Some(n as nat),
            None => parse_unsigned(s@, max as nat) is None,
        },
{
    let chars = chars_of(s);
    let start: usize = if chars.len() > 0 && chars[0] == '+' { 1 } else { 0 };
    let ghost d = chars@.skip(start as int);
    assert(start == 0 ==> d =~= s@);
    if start == chars.len() {
        return None;
    }
    let mut n: u32 = 0;
    let mut i: usize = start;
    assert(d.take(0) =~= seq![]);
    while i < chars.len()
        invariant
            start <= i <= chars@.len(),
            d == chars@.skip(start as int),
            d == (if s@.len() > 0 && s@[0] == '+' { s@.skip(1) } else { s@ }),
            d.len() > 0,
            n <= max,
            n == digits_value(d.take(i - start)),
            forall|k: int| 0 <= k < i - start ==> is_digit(#[trigger] d[k]),
        decreases chars@.len() - i,
    {
        let c = chars[i];
        let ghost k = i - start;
        assert(d[k] == c);
        if c < '0' || c > '9' {
            assert(!is_digit(d[k]));
            return None;
        }
        let v: u64 = (c as u32 - '0' as u32) as u64;
        let next: u64 = n as u64 * 10 + v;
        proof {
            assert(d.take(k + 1).drop_last() =~= d.take(k));
            assert(d.take(k + 1).last() == c);
            assert(next == digits_value(d.take(k + 1)));
        }
        if next > max as u64 {
            proof {
                lemma_digits_value_grows(d, k + 1);
            }
            return None;
        }
        n = next as u32;
        i = i + 1;
    }
    assert(d.take(d.len() as int) =~= d);
    Some(n)
}

/// The decimal digit for `d`.
pub open spec fn digit_char(d: nat) -> char {
    ('0' as int + d) as char
}

/// `n` in decimal, without leading zeros.
pub open spec fn decimal(n: nat) -> Seq<char>
    decreases n,
{
    if n < 10 {
        seq![digit_char(n)]
    } else {
        decimal(n / 10).push(digit_char(n % 10))
    }
}

/// `n` in decimal, with a minus sign before it where it is negative.
pub open spec fn signed_decimal(n: int) -> Seq<char> {
    if n < 0 {
        seq!['-'] + decimal((-n) as nat)
    } else {
        decimal(n as nat)
    }
}

fn digit_of(d: u8) -> (c: char)
    requires
        d < 10,
    ensures
        c == digit_char(d as nat),
{
    (48u8 + d) as char
}

pub fn push_decimal(s: &mut String, n: u64)
    ensures
        final(s)@ == old(s)@ + decimal(n as nat),
    decreases n,
{
    let ghost before = s@;
    if n >= 10 {
        push_decimal(s, n / 10);
    }
    s.push(digit_of((n % 10) as u8));
    assert(s@ =~= before + decimal(n as nat));
}

pub fn push_signed(s: &mut String, n: i32)
    ensures
        final(s)@ == old(s)@ + signed_decimal(n as int),
{
    let ghost before = s@;
    if n < 0 {
        s.push('-');
        push_decimal(s, (-(n as i64)) as u64);
        assert(s@ =~= before + signed_decimal(n as int));
    } else {
        push_decimal(s, n as u64);
    }
}

pub fn decimal_text(n: u64) -> (r: String)
    ensures
        r@ == decimal(n as nat),
{
    let mut r = String::new();
    push_decimal(&mut r, n);
    assert(r@ =~= decimal(n as nat));
    r
}

/// `n` in decimal, with zeros before it up to `width` digits.
pub open spec fn zero_padded(n: nat, width: nat) -> Seq<char> {
    let d = decimal(n);
    if d.len() < width {
        repeated('0', (width - d.len()) as nat) + d
    } else {
        d
    }
}

/// `n` times the character `c`.
pub open spec fn repeated(c: char, n: nat) -> Seq<char> {
    Seq::new(n, |i: int| c)
}

fn push_repeated(s: &mut String, c: char, n: usize)
    ensures
        final(s)@ == old(s)@ + repeated(c, n as nat),
{
    let ghost before = s@;
    let mut i: usize = 0;
    while i < n
        invariant
            i <= n,
            s@ == before + repeated(c, i as nat),
        decreases n - i,
    {
        s.push(c);
        i = i + 1;
        assert(s@ =~= before + repeated(c, i as nat));
    }
}

pub fn push_zero_padded(s: &mut String, n: u64, width: usize)
    ensures
        final(s)@ == old(s)@ + zero_padded(n as nat, width as nat),
{
    let ghost before = s@;
    let d = decimal_text(n);
    let len = d.as_str().unicode_len();
    if len < width {
        push_repeated(s, '0', width - len);
    }
    s.append(d.as_str());
    assert(s@ =~= before + zero_padded(n as nat, width as nat));
}

/// `s`, with spaces behind it up to `width` characters.
pub open spec fn left_aligned(s: Seq<char>, width: nat) -> Seq<char> {
    if s.len() < width {
        s + repeated(' ', (width - s.len()) as nat)
    } else {
        s
    }
}

/// `s`, with spaces before it up to `width` characters.
pub open spec fn right_aligned(s: Seq<char>, width: nat) -> Seq<char> {
    if s.len() < width {
        repeated(' ', (width - s.len()) as nat) + s
    } else {
        s
    }
}

pub fn push_left_aligned(s: &mut String, text: &str, width: usize)
    ensures
        final(s)@ == old(s)@ + left_aligned(text@, width as nat),
{
    let ghost before = s@;
    let len = text.unicode_len();
    s.append(text);
    if len < width {
        push_repeated(s, ' ', width - len);
    }
    assert(s@ =~= before + left_aligned(text@, width as nat));
}

pub fn push_right_aligned(s: &mut String, text: &str, width: usize)
    ensures
        final(s)@ == old(s)@ + right_aligned(text@, width as nat),
{
    let ghost before = s@;
    let len = text.unicode_len();
    if len < width {
        push_repeated(s, ' ', width - len);
    }
    s.append(text);
    assert(s@ =~= before + right_aligned(text@, width as nat));
}

/// The time of day that lies `secs` after midnight, as hours, minutes and seconds.
pub open spec fn time_of_day(secs: nat) -> Seq<char> {
    zero_padded(secs / 3600 % 24, 2) + ":"@ + zero_padded(secs / 60 % 60, 2) + ":"@ + zero_padded(
        secs % 60,
        2,
    )
}

pub fn push_time_of_day(s: &mut String, secs: u64)
    ensures
        final(s)@ == old(s)@ + time_of_day(secs as nat),
{
    let ghost before = s@;
    push_zero_padded(s, secs / 3600 % 24, 2);
    s.append(":");
    push_zero_padded(s, secs / 60 % 60, 2);
    s.append(":");
    push_zero_padded(s, secs % 60, 2);
    assert(s@ =~= before + time_of_day(secs as nat));
}

/// Writing a number and reading it back gives the number.
pub proof fn law_decimal_reads_back(n: nat, max: nat)
    requires
        n <= max,
    ensures
        parse_unsigned(decimal(n), max) == Some(n),
{
    lemma_decimal_digits(n);
    assert(is_digit(decimal(n)[0]));
}

proof fn lemma_decimal_digits(n: nat)
    ensures
        decimal(n).len() > 0,
        all_digits(decimal(n)),
        digits_value(decimal(n)) == n,
    decreases n,
{
    if n >= 10 {
        lemma_decimal_digits(n / 10);
        let d = decimal(n);
        assert(d.drop_last() =~= decimal(n / 10));
        assert forall|i: int| 0 <= i < d.len() implies is_digit(#[trigger] d[i]) by {
            if i < d.len() - 1 {
                assert(d[i] == decimal(n / 10)[i]);
            }
        }
    } else {
        let d = decimal(n);
        assert(d.drop_last() =~= seq![]);
        assert(digits_value(d.drop_last()) == 0);
    }
}

pub open spec fn upper(c: char) -> char {
    if 'a' <= c <= 'z' {
        (c as int - 32) as char
    } else {
        c
    }
}

/// `s` with its ASCII letters in upper case.
pub open spec fn upper_text(s: Seq<char>) -> Seq<char> {
    s.map_values(|c: char| upper(c))
}

pub fn upper_char(c: char) -> (r: char)
    ensures
        r == upper(c),
{
    if 'a' <= c && c <= 'z' {
        (c as u8 - 32) as char
    } else {
        c
    }
}

pub fn uppercase(s: &str) -> (r: String)
    ensures
        r@ == upper_text(s@),
{
    let chars = chars_of(s);
    let mut r = String::new();
    let mut i: usize = 0;
    while i < chars.len()
        invariant
            i <= chars@.len(),
            r@ == upper_text(chars@.take(i as int)),
        decreases chars@.len() - i,
    {
        r.push(upper_char(chars[i]));
        assert(r@ =~= upper_text(chars@.take(i + 1)));
        i = i + 1;
    }
    assert(chars@.take(i as int) =~= s@);
    r
}

/// Whether two texts are the same but for the case of ASCII letters.
pub open spec fn same_ignoring_case(a: Seq<char>, b: Seq<char>) -> bool {
    upper_text(a) == upper_text(b)
}

pub fn text_eq(a: &str, b: &str) -> (r: bool)
    ensures
        r == (a@ == b@),
{
    let x = chars_of(a);
    let y = chars_of(b);
    if x.len() != y.len() {
        return false;
    }
    let mut i: usize = 0;
    while i < x.len()
        invariant
            i <= x@.len() == y@.len(),
            x@ == a@,
            y@ == b@,
            forall|k: int| 0 <= k < i ==> x@[k] == y@[k],
        decreases x@.len() - i,
    {
        if x[i] != y[i] {
            return false;
        }
        i = i + 1;
    }
    assert(a@ =~= b@);
    true
}

pub fn eq_ignoring_case(a: &str, b: &str) -> (r: bool)
    ensures
        r == same_ignoring_case(a@, b@),
{
    let x = uppercase(a);
    let y = uppercase(b);
    text_eq(x.as_str(), y.as_str())
}

/// A text that is one word.
pub open spec fn is_word(w: Seq<char>) -> bool {
    w.len() > 0 && forall|i: int| 0 <= i < w.len() ==> !is_white(#[trigger] w[i])
}

/// The words with a space between each two.
pub open spec fn spaced(ws: Seq<Seq<char>>) -> Seq<char>
    decreases ws.len(),
{
    if ws.len() == 0 {
        seq![]
    } else if ws.len() == 1 {
        ws[0]
    } else {
        ws[0] + seq![' '] + spaced(ws.skip(1))
    }
}

proof fn lemma_word_len(w: Seq<char>, rest: Seq<char>)
    requires
        forall|i: int| 0 <= i < w.len() ==> !is_white(#[trigger] w[i]),
        rest.len() > 0 ==> is_white(rest[0]),
    ensures
        word_len(w + rest) == w.len(),
    decreases w.len(),
{
    let s = w + rest;
    if w.len() == 0 {
        assert(s =~= rest);
    } else {
        assert(s[0] == w[0]);
        assert(s.skip(1) =~= w.skip(1) + rest);
        lemma_word_len(w.skip(1), rest);
    }
}

/// Words that are written with a space between each two are read back, however much white
/// space stands before them.
pub proof fn law_words_read_back(ws: Seq<Seq<char>>)
    requires
        forall|i: int| 0 <= i < ws.len() ==> is_word(#[trigger] ws[i]),
    ensures
        words(spaced(ws)) == ws,
    decreases ws.len(),
{
    let s = spaced(ws);
    let none: Seq<char> = seq![];
    if ws.len() == 0 {
        assert(words(s) =~= ws);
    } else if ws.len() == 1 {
        lemma_word_len(ws[0], none);
        assert(ws[0] + none =~= ws[0]);
        assert(s.take(s.len() as int) =~= ws[0]);
        assert(s.skip(s.len() as int) =~= none);
        assert(words(none) =~= seq![]);
        assert(!is_white(s[0])) by {
            assert(s[0] == ws[0][0]);
        }
        assert(words(s) =~= ws);
    } else {
        let tail = spaced(ws.skip(1));
        let rest = seq![' '] + tail;
        let n = ws[0].len() as int;
        assert(s =~= ws[0] + rest);
        lemma_word_len(ws[0], rest);
        assert(s[0] == ws[0][0]);
        assert(s.take(n) =~= ws[0]);
        assert(s.skip(n) =~= rest);
        assert(rest.skip(1) =~= tail);
        assert(words(rest) == words(tail));
        law_words_read_back(ws.skip(1));
        assert(words(s) =~= ws);
    }
}

/// White space before the words of a text does not matter.
pub proof fn law_leading_white_space_does_not_matter(c: char, s: Seq<char>)
    requires
        is_white(c),
    ensures
        words(seq![c] + s) == words(s),
{
    assert((seq![c] + s).skip(1) =~= s);
}

/// The lines, each with its end.
pub open spec fn ended(ls: Seq<Seq<char>>) -> Seq<char>
    decreases ls.len(),
{
    if ls.len() == 0 {
        seq![]
    } else {
        ls[0] + seq!['\n'] + ended(ls.skip(1))
    }
}

pub open spec fn is_line(l: Seq<char>) -> bool {
    forall|i: int| 0 <= i < l.len() ==> #[trigger] l[i] != '\n'
}

proof fn lemma_line_len(l: Seq<char>, rest: Seq<char>)
    requires
        is_line(l),
        rest.len() > 0,
        rest[0] == '\n',
    ensures
        line_len(l + rest) == l.len(),
    decreases l.len(),
{
    let s = l + rest;
    if l.len() == 0 {
        assert(s =~= rest);
    } else {
        assert(s[0] == l[0]);
        assert(s.skip(1) =~= l.skip(1) + rest);
        lemma_line_len(l.skip(1), rest);
    }
}

/// Lines that are written with an end behind each are read back.
pub proof fn law_lines_read_back(ls: Seq<Seq<char>>)
    requires
        forall|i: int| 0 <= i < ls.len() ==> is_line(#[trigger] ls[i]),
    ensures
        lines(ended(ls)) == ls,
    decreases ls.len(),
{
    let s = ended(ls);
    if ls.len() == 0 {
        assert(lines(s) =~= ls);
    } else {
        let tail = ended(ls.skip(1));
        let rest = seq!['\n'] + tail;
        let n = ls[0].len() as int;
        assert(s =~= ls[0] + rest);
        lemma_line_len(ls[0], rest);
        assert(s.take(n) =~= ls[0]);
        assert(s.skip(n + 1) =~= tail);
        law_lines_read_back(ls.skip(1));
        assert(lines(s) =~= ls);
    }
}

/// Words with spaces between them are on one line.
pub proof fn lemma_spaced_is_a_line(ws: Seq<Seq<char>>)
    requires
        forall|i: int| 0 <= i < ws.len() ==> is_word(#[trigger] ws[i]),
    ensures
        is_line(spaced(ws)),
    decreases ws.len(),
{
    assert(is_white('\n'));
    if ws.len() > 0 {
        assert(is_word(ws[0]));
        lemma_spaced_is_a_line(ws.skip(1));
        let s = spaced(ws);
        assert forall|i: int| 0 <= i < s.len() implies #[trigger] s[i] != '\n' by {
            let n = ws[0].len();
            if i < n {
                assert(s[i] == ws[0][i]);
            } else if i > n {
                assert(s[i] == spaced(ws.skip(1))[i - n - 1]);
            }
        }
    }
}

/// A number is written as one word.
pub proof fn lemma_decimal_is_a_word(n: nat)
    ensures
        is_word(decimal(n)),
    decreases n,
{
    if n >= 10 {
        lemma_decimal_is_a_word(n / 10);
    }
}

/// A number with a sign is written with its digits, behind a dash where it is below zero.
pub proof fn law_signed_numbers_read_back(n: int, max: nat)
    requires
        -max <= n <= max,
    ensures
        n >= 0 ==> parse_unsigned(signed_decimal(n), max) == Some(n as nat),
        n < 0 ==> signed_decimal(n)[0] == '-' && parse_unsigned(signed_decimal(n).skip(1), max)
            == Some((-n) as nat),
{
    if n >= 0 {
        law_decimal_reads_back(n as nat, max);
    } else {
        law_decimal_reads_back((-n) as nat, max);
        assert(signed_decimal(n).skip(1) =~= decimal((-n) as nat));
    }
}

/// What is not digits, but for a plus before them, or is too large, is no number.
pub proof fn law_a_number_is_digits_within_its_range(s: Seq<char>, max: nat)
    ensures
        parse_unsigned(s, max) matches Some(n) ==> n <= max && s.len() > 0 && forall|i: int|
            1 <= i < s.len() ==> '0' <= #[trigger] s[i] <= '9',
        s.len() > 0 && !('0' <= s[0] <= '9') && s[0] != '+' ==> parse_unsigned(s, max) is None,
        s.len() == 0 ==> parse_unsigned(s, max) is None,
{
    if s.len() > 0 {
        let d = if s[0] == '+' {
            s.skip(1)
        } else {
            s
        };
        if parse_unsigned(s, max) is Some {
            assert forall|i: int| 1 <= i < s.len() implies '0' <= #[trigger] s[i] <= '9' by {
                if s[0] == '+' {
                    assert(is_digit(d[i - 1]));
                } else {
                    assert(is_digit(d[i]));
                }
            }
        }
        if s[0] != '+' && parse_unsigned(s, max) is Some {
            assert(is_digit(d[0]));
        }
    }
}

/// A text that is padded is as wide as is wanted at least, and holds itself at one end.
pub proof fn law_padding_keeps_the_text(s: Seq<char>, width: nat)
    ensures
        left_aligned(s, width).len() >= width,
        left_aligned(s, width).take(s.len() as int) == s,
        right_aligned(s, width).len() >= width,
        right_aligned(s, width).skip(right_aligned(s, width).len() - s.len()) == s,
        s.len() >= width ==> left_aligned(s, width) == s && right_aligned(s, width) == s,
        forall|i: int|
            s.len() <= i < left_aligned(s, width).len() ==> #[trigger] left_aligned(s, width)[i]
                == ' ',
        forall|i: int|
            0 <= i < right_aligned(s, width).len() - s.len() ==> #[trigger] right_aligned(
                s,
                width,
            )[i] == ' ',
{
    assert(left_aligned(s, width).take(s.len() as int) =~= s);
    assert(right_aligned(s, width).skip(right_aligned(s, width).len() - s.len()) =~= s);
}

proof fn lemma_leading_zeros(n: nat, zeros: nat)
    ensures
        all_digits(repeated('0', zeros) + decimal(n)),
        digits_value(repeated('0', zeros) + decimal(n)) == n,
    decreases n,
{
    let s = repeated('0', zeros) + decimal(n);
    if n < 10 {
        lemma_zeros(zeros);
        assert(s.drop_last() =~= repeated('0', zeros));
        assert(s.last() == digit_char(n));
    } else {
        lemma_leading_zeros(n / 10, zeros);
        assert(s.drop_last() =~= repeated('0', zeros) + decimal(n / 10));
        assert(s.last() == digit_char(n % 10));
        assert forall|i: int| 0 <= i < s.len() implies is_digit(#[trigger] s[i]) by {
            if i < s.len() - 1 {
                assert(s[i] == s.drop_last()[i]);
            }
        }
    }
}

proof fn lemma_zeros(zeros: nat)
    ensures
        digits_value(repeated('0', zeros)) == 0,
        all_digits(repeated('0', zeros)),
    decreases zeros,
{
    if zeros > 0 {
        lemma_zeros((zeros - 1) as nat);
        assert(repeated('0', zeros).drop_last() =~= repeated('0', (zeros - 1) as nat));
    }
}

/// A number that is padded with zeros is that number.
pub proof fn law_zero_padding_keeps_the_number(n: nat, width: nat, max: nat)
    requires
        n <= max,
    ensures
        zero_padded(n, width).len() >= width,
        parse_unsigned(zero_padded(n, width), max) == Some(n),
{
    let d = decimal(n);
    lemma_decimal_is_a_word(n);
    let zeros = if d.len() < width {
        (width - d.len()) as nat
    } else {
        0
    };
    lemma_leading_zeros(n, zeros);
    let s = zero_padded(n, width);
    assert(s =~= repeated('0', zeros) + d);
    assert(is_digit(s[0]));
}

/// The time of day is hours, minutes and seconds of two digits each, which make up the
/// seconds since midnight.
#[verifier::rlimit(60)]
pub proof fn law_the_time_of_day_reads_back(secs: nat)
    ensures
        ({
            let t = time_of_day(secs);
            let h = parse_unsigned(t.subrange(0, 2), 99);
            let m = parse_unsigned(t.subrange(3, 5), 99);
            let s = parse_unsigned(t.subrange(6, 8), 99);
            &&& t.len() == 8
            &&& t[2] == ':' && t[5] == ':'
            &&& h is Some && m is Some && s is Some
            &&& h->0 < 24 && m->0 < 60 && s->0 < 60
            &&& h->0 * 3600 + m->0 * 60 + s->0 == secs % 86400
        }),
{
    let t = time_of_day(secs);
    let (h, m, s) = (secs / 3600 % 24, secs / 60 % 60, secs % 60);
    law_zero_padding_keeps_the_number(h, 2, 99);
    law_zero_padding_keeps_the_number(m, 2, 99);
    law_zero_padding_keeps_the_number(s, 2, 99);
    lemma_two_digits(h);
    lemma_two_digits(m);
    lemma_two_digits(s);
    lemma_parts_of_a_day(secs);
    reveal_strlit(":");
    assert(t.subrange(0, 2) =~= zero_padded(h, 2));
    assert(t.subrange(3, 5) =~= zero_padded(m, 2));
    assert(t.subrange(6, 8) =~= zero_padded(s, 2));
}

proof fn lemma_parts_of_a_day(secs: nat)
    ensures
        (secs / 3600 % 24) * 3600 + (secs / 60 % 60) * 60 + secs % 60 == secs % 86400,
{
    let minutes = secs / 60;
    let hours = minutes / 60;
    assert(secs / 3600 == hours);
    let days = hours / 24;
    assert(secs == 86400 * days + (hours % 24) * 3600 + (minutes % 60) * 60 + secs % 60);
}

proof fn lemma_two_digits(n: nat)
    requires
        n < 100,
    ensures
        zero_padded(n, 2).len() == 2,
{
    reveal_with_fuel(decimal, 2);
}

/// Letters count as the same in either case, and nothing else does.
pub proof fn law_case_does_not_matter(a: Seq<char>, b: Seq<char>)
    ensures
        same_ignoring_case(a, b) <==> a.len() == b.len() && forall|i: int|
            0 <= i < a.len() ==> {
                ||| #[trigger] a[i] == b[i]
                ||| 'a' <= a[i] <= 'z' && a[i] as int - 32 == b[i] as int
                ||| 'a' <= b[i] <= 'z' && b[i] as int - 32 == a[i] as int
            },
{
    let (ua, ub) = (upper_text(a), upper_text(b));
    if same_ignoring_case(a, b) {
        assert(ua.len() == ub.len());
        assert forall|i: int| 0 <= i < a.len() implies {
            ||| #[trigger] a[i] == b[i]
            ||| 'a' <= a[i] <= 'z' && a[i] as int - 32 == b[i] as int
            ||| 'a' <= b[i] <= 'z' && b[i] as int - 32 == a[i] as int
        } by {
            assert(ua[i] == upper(a[i]) && ub[i] == upper(b[i]));
        }
    }
    if a.len() == b.len() && forall|i: int|
        0 <= i < a.len() ==> {
            ||| #[trigger] a[i] == b[i]
            ||| 'a' <= a[i] <= 'z' && a[i] as int - 32 == b[i] as int
            ||| 'a' <= b[i] <= 'z' && b[i] as int - 32 == a[i] as int
        } {
        assert(ua =~= ub);
    }
}

/// Trimming takes white space off the ends of a text and nothing else: what is left has none
/// at its ends, and what was taken is white.
pub proof fn law_trimming_takes_white_space(s: Seq<char>)
    ensures
        ({
            let t = trim_end(s);
            &&& t.len() <= s.len()
            &&& t == s.take(t.len() as int)
            &&& t.len() > 0 ==> !is_white(t.last())
            &&& forall|i: int| t.len() <= i < s.len() ==> is_white(#[trigger] s[i])
        }),
        ({
            let t = trim_start(s);
            &&& t.len() <= s.len()
            &&& t == s.skip(s.len() - t.len())
            &&& t.len() > 0 ==> !is_white(t[0])
            &&& forall|i: int| 0 <= i < s.len() - t.len() ==> is_white(#[trigger] s[i])
        }),
    decreases s.len(),
{
    if s.len() == 0 {
        assert(trim_end(s) =~= s.take(0));
        assert(trim_start(s) =~= s.skip(0));
    } else {
        law_trimming_takes_white_space(s.drop_last());
        law_trimming_takes_white_space(s.skip(1));
        let t = trim_end(s);
        if is_white(s.last()) {
            assert(t =~= s.take(t.len() as int));
            assert forall|i: int| t.len() <= i < s.len() implies is_white(#[trigger] s[i]) by {
                if i < s.len() - 1 {
                    assert(s[i] == s.drop_last()[i]);
                }
            }
        } else {
            assert(t =~= s.take(t.len() as int));
        }
        let u = trim_start(s);
        if is_white(s[0]) {
            assert(u =~= s.skip(s.len() - u.len()));
            assert forall|i: int| 0 <= i < s.len() - u.len() implies is_white(#[trigger] s[i]) by {
                if i > 0 {
                    assert(s[i] == s.skip(1)[i - 1]);
                }
            }
        } else {
            assert(u =~= s.skip(s.len() - u.len()));
        }
    }
}

/// White space is what separates words in any text: the space, the tabulator, the ends of
/// lines and what Unicode counts to it; no letter, digit or sign of ASCII is.
pub proof fn law_no_printable_sign_is_white_space(c: char)
    ensures
        '!' <= c <= '~' ==> !is_white(c),
        c == ' ' || c == '\t' || c == '\n' || c == '\r' ==> is_white(c),
{
}

/// A number may have a plus sign before it, and no more than one.
pub proof fn law_a_plus_sign_does_not_matter(n: nat, max: nat)
    requires
        n <= max,
    ensures
        parse_unsigned(seq!['+'] + decimal(n), max) == Some(n),
        parse_unsigned(seq!['+', '+'] + decimal(n), max) is None,
        parse_unsigned(seq!['+'], max) is None,
{
    law_decimal_reads_back(n, max);
    lemma_a_decimal_is_all_digits(n);
    let (one, two) = (seq!['+'] + decimal(n), seq!['+', '+'] + decimal(n));
    assert(is_digit(decimal(n)[0]));
    assert(one.skip(1) =~= decimal(n));
    assert(two.skip(1)[0] == '+');
}

proof fn lemma_a_decimal_is_all_digits(n: nat)
    ensures
        decimal(n).len() > 0,
        all_digits(decimal(n)),
    decreases n,
{
    if n >= 10 {
        lemma_a_decimal_is_all_digits(n / 10);
    }
}

} // verus!
