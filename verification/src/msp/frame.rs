//! MSP frames: how they are written, and how they are found in a stream of bytes.

use vstd::prelude::*;

use crate::msp::{high, high_byte, le16, low, low_byte, part, push_bytes, u16_le};

verus! {

pub struct MspFrame {
    pub is_v2: bool,
    pub msp_type: u8,
    pub function: u16,
    pub payload: Vec<u8>,
}

#[verifier::ext_equal]
pub struct MspFrameView {
    pub is_v2: bool,
    pub msp_type: u8,
    pub function: u16,
    pub payload: Seq<u8>,
}

impl View for MspFrame {
    type V = MspFrameView;

    open spec fn view(&self) -> MspFrameView {
        MspFrameView {
            is_v2: self.is_v2,
            msp_type: self.msp_type,
            function: self.function,
            payload: self.payload@,
        }
    }
}

/// The exclusive or of all bytes.
pub open spec fn xor_sum(data: Seq<u8>) -> u8
    decreases data.len(),
{
    if data.len() == 0 {
        0
    } else {
        xor_sum(data.drop_last()) ^ data.last()
    }
}

pub fn checksum_v1(data: &[u8]) -> (r: u8)
    ensures
        r == xor_sum(data@),
{
    let mut csum: u8 = 0;
    let mut i: usize = 0;
    while i < data.len()
        invariant
            i <= data@.len(),
            csum == xor_sum(data@.take(i as int)),
        decreases data@.len() - i,
    {
        csum = csum ^ data[i];
        assert(data@.take(i + 1).drop_last() =~= data@.take(i as int));
        i = i + 1;
    }
    assert(data@.take(i as int) =~= data@);
    csum
}

/// One step of the division by the polynomial 0x1D5.
pub open spec fn crc_bit(crc: u8) -> u8 {
    if crc & 0x80 != 0 {
        (crc << 1) ^ 0xD5
    } else {
        crc << 1
    }
}

/// `n` steps of the division.
pub open spec fn crc_bits(crc: u8, n: nat) -> u8
    decreases n,
{
    if n == 0 {
        crc
    } else {
        crc_bit(crc_bits(crc, (n - 1) as nat))
    }
}

/// The remainder after one more byte.
pub open spec fn crc_byte(crc: u8, byte: u8) -> u8 {
    crc_bits(crc ^ byte, 8)
}

/// The CRC-8/DVB-S2 remainder of all bytes.
pub open spec fn crc_sum(data: Seq<u8>) -> u8
    decreases data.len(),
{
    if data.len() == 0 {
        0
    } else {
        crc_byte(crc_sum(data.drop_last()), data.last())
    }
}

pub fn crc8_dvb_s2(crc: u8, byte: u8) -> (r: u8)
    ensures
        r == crc_byte(crc, byte),
{
    let mut c: u8 = crc ^ byte;
    let mut n: u8 = 0;
    while n < 8
        invariant
            n <= 8,
            c == crc_bits(crc ^ byte, n as nat),
        decreases 8 - n,
    {
        c = if c & 0x80 != 0 {
            (c << 1) ^ 0xD5
        } else {
            c << 1
        };
        n = n + 1;
    }
    c
}

pub fn checksum_v2(data: &[u8]) -> (r: u8)
    ensures
        r == crc_sum(data@),
{
    let mut crc: u8 = 0;
    let mut i: usize = 0;
    while i < data.len()
        invariant
            i <= data@.len(),
            crc == crc_sum(data@.take(i as int)),
        decreases data@.len() - i,
    {
        crc = crc8_dvb_s2(crc, data[i]);
        assert(data@.take(i + 1).drop_last() =~= data@.take(i as int));
        i = i + 1;
    }
    assert(data@.take(i as int) =~= data@);
    crc
}

/// What the checksum of a version 1 frame covers.
pub open spec fn body_v1(cmd: u8, payload: Seq<u8>) -> Seq<u8> {
    seq![(payload.len() % 256) as u8, cmd] + payload
}

/// A version 1 command: `$M<`, the body and its checksum.
pub open spec fn command_v1(cmd: u8, payload: Seq<u8>) -> Seq<u8> {
    seq![36u8, 77u8, 60u8] + body_v1(cmd, payload) + seq![xor_sum(body_v1(cmd, payload))]
}

/// What the checksum of a version 2 frame covers.
pub open spec fn body_v2(cmd: u16, payload: Seq<u8>) -> Seq<u8> {
    seq![
        0u8,
        low_byte(cmd),
        high_byte(cmd),
        (payload.len() % 256) as u8,
        (payload.len() / 256 % 256) as u8,
    ] + payload
}

/// A version 2 command: `$X<`, the body and its checksum.
pub open spec fn command_v2(cmd: u16, payload: Seq<u8>) -> Seq<u8> {
    seq![36u8, 88u8, 60u8] + body_v2(cmd, payload) + seq![crc_sum(body_v2(cmd, payload))]
}

pub fn build_command_v1(cmd: u8, payload: &[u8]) -> (r: Vec<u8>)
    ensures
        r@ == command_v1(cmd, payload@),
{
    let mut frame: Vec<u8> = vec![(payload.len() % 256) as u8, cmd];
    push_bytes(&mut frame, payload, 0, payload.len());
    assert(frame@ =~= body_v1(cmd, payload@));
    let csum = checksum_v1(frame.as_slice());
    let mut out: Vec<u8> = vec![36, 77, 60];
    push_bytes(&mut out, frame.as_slice(), 0, frame.len());
    out.push(csum);
    assert(out@ =~= command_v1(cmd, payload@));
    out
}

/// The payload, or an empty one where there is none.
pub open spec fn payload_or_empty(payload: Option<&[u8]>) -> Seq<u8> {
    match payload {
        Some(p) => p@,
        None => seq![],
    }
}

pub fn build_command_v2(cmd: u16, payload: Option<&[u8]>) -> (r: Vec<u8>)
    ensures
        r@ == command_v2(cmd, payload_or_empty(payload)),
{
    let mut frame: Vec<u8> = vec![0, low(cmd), high(cmd)];
    match payload {
        Some(p) => {
            frame.push((p.len() % 256) as u8);
            frame.push((p.len() / 256 % 256) as u8);
            push_bytes(&mut frame, p, 0, p.len());
        },
        None => {
            frame.push(0);
            frame.push(0);
        },
    }
    assert(frame@ =~= body_v2(cmd, payload_or_empty(payload)));
    let csum = checksum_v2(frame.as_slice());
    let mut out: Vec<u8> = vec![36, 88, 60];
    push_bytes(&mut out, frame.as_slice(), 0, frame.len());
    out.push(csum);
    assert(out@ =~= command_v2(cmd, payload_or_empty(payload)));
    out
}

/// What the bytes after a dollar sign amount to.
pub enum Candidate {
    /// More bytes are needed to tell.
    Incomplete,
    /// They begin no frame.
    Rejected,
    /// They are a frame.
    Complete(MspFrameView),
}

pub open spec fn is_frame_type(b: u8) -> bool {
    b == 60 || b == 62 || b == 33
}

/// `c` holds the bytes after a dollar sign: the marker, the type, the header, the
/// payload and the checksum.
pub open spec fn candidate(c: Seq<u8>) -> Candidate {
    if c.len() == 0 {
        Candidate::Incomplete
    } else if c[0] != 77 && c[0] != 88 {
        Candidate::Rejected
    } else if c.len() == 1 {
        Candidate::Incomplete
    } else if !is_frame_type(c[1]) {
        Candidate::Rejected
    } else if c[0] == 88 {
        let size = le16(c[5], c[6]);
        if c.len() < 7 || c.len() < 8 + size {
            Candidate::Incomplete
        } else if c[7 + size] != crc_sum(c.subrange(2, 7 + size)) {
            Candidate::Rejected
        } else {
            Candidate::Complete(
                MspFrameView {
                    is_v2: true,
                    msp_type: c[1],
                    function: le16(c[3], c[4]),
                    payload: c.subrange(7, 7 + size),
                },
            )
        }
    } else {
        let size = c[2];
        if c.len() < 4 || c.len() < 5 + size {
            Candidate::Incomplete
        } else if c[4 + size] != xor_sum(c.subrange(2, 4 + size)) {
            Candidate::Rejected
        } else {
            Candidate::Complete(
                MspFrameView {
                    is_v2: false,
                    msp_type: c[1],
                    function: c[3] as u16,
                    payload: c.subrange(4, 4 + size),
                },
            )
        }
    }
}

/// What is known of a stream so far: the bytes since the dollar sign that a frame
/// may have begun with, or `None` while no dollar sign was seen.
pub type Progress = Option<Seq<u8>>;

/// The progress after `byte`, and the frame that it completes.
pub open spec fn parser_step(progress: Progress, byte: u8) -> (Progress, Option<MspFrameView>) {
    match progress {
        None => if byte == 36 {
            (Some(seq![]), None)
        } else {
            (None, None)
        },
        Some(c) => match candidate(c.push(byte)) {
            Candidate::Incomplete => (Some(c.push(byte)), None),
            Candidate::Rejected => (None, None),
            Candidate::Complete(f) => (None, Some(f)),
        },
    }
}

/// The first frame in `stream`, and how many bytes were read when it was complete.
pub open spec fn first_frame(progress: Progress, stream: Seq<u8>) -> Option<(MspFrameView, nat)>
    decreases stream.len(),
{
    if stream.len() == 0 {
        None
    } else {
        let (next, found) = parser_step(progress, stream[0]);
        match found {
            Some(f) => Some((f, 1)),
            None => match first_frame(next, stream.skip(1)) {
                Some((f, n)) => Some((f, n + 1)),
                None => None,
            },
        }
    }
}

/// Finds frames in a stream that is handed in byte by byte.
pub struct FrameParser {
    candidate: Option<Vec<u8>>,
}

impl View for FrameParser {
    type V = Progress;

    closed spec fn view(&self) -> Progress {
        match self.candidate {
            Some(v) => Some(v@),
            None => None,
        }
    }
}

/// [`candidate`], with the frame itself.
enum Judged {
    Incomplete,
    Rejected,
    Complete(MspFrame),
}

fn judge(c: &Vec<u8>) -> (r: Judged)
    ensures
        match r {
            Judged::Incomplete => candidate(c@) is Incomplete,
            Judged::Rejected => candidate(c@) is Rejected,
            Judged::Complete(f) => candidate(c@) == Candidate::Complete(f@),
        },
{
    let n = c.len();
    if n == 0 {
        return Judged::Incomplete;
    }
    if c[0] != 77 && c[0] != 88 {
        return Judged::Rejected;
    }
    if n == 1 {
        return Judged::Incomplete;
    }
    if c[1] != 60 && c[1] != 62 && c[1] != 33 {
        return Judged::Rejected;
    }
    if c[0] == 88 {
        if n < 7 {
            return Judged::Incomplete;
        }
        let size: usize = u16_le(c[5], c[6]) as usize;
        if n < 8 + size {
            return Judged::Incomplete;
        }
        let covered = part(c.as_slice(), 2, 7 + size);
        if c[7 + size] != checksum_v2(covered.as_slice()) {
            return Judged::Rejected;
        }
        Judged::Complete(
            MspFrame {
                is_v2: true,
                msp_type: c[1],
                function: u16_le(c[3], c[4]),
                payload: part(c.as_slice(), 7, 7 + size),
            },
        )
    } else {
        if n < 4 {
            return Judged::Incomplete;
        }
        let size: usize = c[2] as usize;
        if n < 5 + size {
            return Judged::Incomplete;
        }
        let covered = part(c.as_slice(), 2, 4 + size);
        if c[4 + size] != checksum_v1(covered.as_slice()) {
            return Judged::Rejected;
        }
        Judged::Complete(
            MspFrame {
                is_v2: false,
                msp_type: c[1],
                function: c[3] as u16,
                payload: part(c.as_slice(), 4, 4 + size),
            },
        )
    }
}

impl FrameParser {
    pub fn new() -> (r: Self)
        ensures
            r@ is None,
    {
        FrameParser { candidate: None }
    }

    /// Takes the next byte of the stream, and returns the frame that it completes.
    /// A byte that shows that no frame has begun is spent.
    pub fn push(&mut self, byte: u8) -> (r: Option<MspFrame>)
        ensures
            final(self)@ == parser_step(old(self)@, byte).0,
            match r {
                Some(f) => parser_step(old(self)@, byte).1 == Some(f@),
                None => parser_step(old(self)@, byte).1 is None,
            },
    {
        match self.candidate.take() {
            None => {
                if byte == 36 {
                    let empty: Vec<u8> = Vec::new();
                    self.candidate = Some(empty);
                    assert(self@ =~= Some(Seq::<u8>::empty()));
                }
                None
            },
            Some(c) => {
                let mut c = c;
                c.push(byte);
                match judge(&c) {
                    Judged::Incomplete => {
                        self.candidate = Some(c);
                        None
                    },
                    Judged::Rejected => None,
                    Judged::Complete(f) => Some(f),
                }
            },
        }
    }
}

/// Bytes other than a dollar sign are passed over.
proof fn lemma_skip_noise(noise: Seq<u8>, rest: Seq<u8>)
    requires
        forall|i: int| 0 <= i < noise.len() ==> #[trigger] noise[i] != 36,
    ensures
        first_frame(None, noise + rest) == (match first_frame(None, rest) {
            Some((f, n)) => Some((f, n + noise.len())),
            None => None,
        }),
    decreases noise.len(),
{
    if noise.len() == 0 {
        assert(noise + rest =~= rest);
    } else {
        let s = noise + rest;
        assert(s[0] == noise[0]);
        assert(s.skip(1) =~= noise.skip(1) + rest);
        lemma_skip_noise(noise.skip(1), rest);
    }
}

/// A candidate that is complete with its last byte and not before is found.
proof fn lemma_candidate_found(c: Seq<u8>, k: int, rest: Seq<u8>, f: MspFrameView)
    requires
        0 <= k < c.len(),
        candidate(c) == Candidate::Complete(f),
        forall|i: int| 0 <= i < c.len() ==> candidate(#[trigger] c.take(i)) is Incomplete,
    ensures
        first_frame(Some(c.take(k)), c.skip(k) + rest) == Some((f, (c.len() - k) as nat)),
    decreases c.len() - k,
{
    let s = c.skip(k) + rest;
    assert(s[0] == c[k]);
    assert(c.take(k).push(c[k]) =~= c.take(k + 1));
    if k + 1 == c.len() {
        assert(c.take(k + 1) =~= c);
    } else {
        assert(s.skip(1) =~= c.skip(k + 1) + rest);
        lemma_candidate_found(c, k + 1, rest, f);
        assert(candidate(c.take(k + 1)) is Incomplete);
    }
}

/// A stream that begins with a dollar sign and such a candidate yields it.
proof fn lemma_frame_found(c: Seq<u8>, noise: Seq<u8>, rest: Seq<u8>, f: MspFrameView)
    requires
        c.len() > 0,
        forall|i: int| 0 <= i < noise.len() ==> #[trigger] noise[i] != 36,
        candidate(c) == Candidate::Complete(f),
        forall|i: int| 0 <= i < c.len() ==> candidate(#[trigger] c.take(i)) is Incomplete,
    ensures
        first_frame(None, noise + (seq![36u8] + c) + rest) == Some(
            (f, (noise.len() + 1 + c.len()) as nat),
        ),
{
    let s = seq![36u8] + c + rest;
    assert(s[0] == 36);
    assert(s.skip(1) =~= c.skip(0) + rest);
    assert(c.take(0) =~= seq![]);
    lemma_candidate_found(c, 0, rest, f);
    lemma_skip_noise(noise, s);
    assert(noise + (seq![36u8] + c) + rest =~= noise + s);
}

/// The bytes after the dollar sign of a version 1 command are a frame, and no fewer are.
#[verifier::rlimit(60)]
proof fn lemma_command_v1(cmd: u8, payload: Seq<u8>)
    requires
        payload.len() <= 255,
    ensures
        ({
            let c = command_v1(cmd, payload).skip(1);
            &&& candidate(c) == Candidate::Complete(
                MspFrameView { is_v2: false, msp_type: 60, function: cmd as u16, payload },
            )
            &&& forall|i: int| 0 <= i < c.len() ==> candidate(#[trigger] c.take(i)) is Incomplete
        }),
{
    let c = command_v1(cmd, payload).skip(1);
    let n = payload.len() as int;
    assert(c.len() == 5 + n);
    assert(c[0] == 77 && c[1] == 60 && c[2] == n && c[3] == cmd);
    assert(c.subrange(2, 4 + n) =~= body_v1(cmd, payload));
    assert(c[4 + n] == xor_sum(body_v1(cmd, payload)));
    assert(c.subrange(4, 4 + n) =~= payload);
    assert forall|i: int| 0 <= i < c.len() implies candidate(#[trigger] c.take(i)) is Incomplete by {
        let t = c.take(i);
        assert(i > 0 ==> t[0] == 77);
        assert(i > 1 ==> t[1] == 60);
        assert(i > 2 ==> t[2] == n);
    }
}

/// The bytes after the dollar sign of a version 2 command are a frame, and no fewer are.
#[verifier::rlimit(60)]
proof fn lemma_command_v2(cmd: u16, payload: Seq<u8>)
    requires
        payload.len() <= 0xffff,
    ensures
        ({
            let c = command_v2(cmd, payload).skip(1);
            &&& candidate(c) == Candidate::Complete(
                MspFrameView { is_v2: true, msp_type: 60, function: cmd, payload },
            )
            &&& forall|i: int| 0 <= i < c.len() ==> candidate(#[trigger] c.take(i)) is Incomplete
        }),
{
    let c = command_v2(cmd, payload).skip(1);
    let n = payload.len() as int;
    assert(c.len() == 8 + n);
    assert(c[0] == 88 && c[1] == 60);
    assert(c[3] == low_byte(cmd) && c[4] == high_byte(cmd));
    assert(le16(c[3], c[4]) == cmd);
    assert(c[5] == n % 256 && c[6] == n / 256);
    assert(le16(c[5], c[6]) == n);
    assert(c.subrange(2, 7 + n) =~= body_v2(cmd, payload));
    assert(c[7 + n] == crc_sum(body_v2(cmd, payload)));
    assert(c.subrange(7, 7 + n) =~= payload);
    assert forall|i: int| 0 <= i < c.len() implies candidate(#[trigger] c.take(i)) is Incomplete by {
        let t = c.take(i);
        assert(i > 0 ==> t[0] == 88);
        assert(i > 1 ==> t[1] == 60);
        assert(i > 6 ==> t[5] == c[5] && t[6] == c[6]);
    }
}

/// A version 1 command in a stream, with anything but a dollar sign before it and
/// anything after it, is read back as it was written, when its last byte is in.
pub proof fn law_command_v1_reads_back(cmd: u8, payload: Seq<u8>, noise: Seq<u8>, rest: Seq<u8>)
    requires
        payload.len() <= 255,
        forall|i: int| 0 <= i < noise.len() ==> #[trigger] noise[i] != 36,
    ensures
        first_frame(None, noise + command_v1(cmd, payload) + rest) == Some(
            (
                MspFrameView { is_v2: false, msp_type: 60, function: cmd as u16, payload },
                noise.len() + command_v1(cmd, payload).len(),
            ),
        ),
{
    let w = command_v1(cmd, payload);
    lemma_command_v1(cmd, payload);
    assert(seq![36u8] + w.skip(1) =~= w);
    lemma_frame_found(
        w.skip(1),
        noise,
        rest,
        MspFrameView { is_v2: false, msp_type: 60, function: cmd as u16, payload },
    );
}

/// A version 2 command in a stream, with anything but a dollar sign before it and
/// anything after it, is read back as it was written, when its last byte is in.
pub proof fn law_command_v2_reads_back(cmd: u16, payload: Seq<u8>, noise: Seq<u8>, rest: Seq<u8>)
    requires
        payload.len() <= 0xffff,
        forall|i: int| 0 <= i < noise.len() ==> #[trigger] noise[i] != 36,
    ensures
        first_frame(None, noise + command_v2(cmd, payload) + rest) == Some(
            (
                MspFrameView { is_v2: true, msp_type: 60, function: cmd, payload },
                noise.len() + command_v2(cmd, payload).len(),
            ),
        ),
{
    let w = command_v2(cmd, payload);
    lemma_command_v2(cmd, payload);
    assert(seq![36u8] + w.skip(1) =~= w);
    lemma_frame_found(
        w.skip(1),
        noise,
        rest,
        MspFrameView { is_v2: true, msp_type: 60, function: cmd, payload },
    );
}

/// What is found in a stream, with `n` bytes read before.
pub open spec fn behind(found: Option<(MspFrameView, nat)>, n: nat) -> Option<(MspFrameView, nat)> {
    match found {
        Some((f, read)) => Some((f, read + n)),
        None => None,
    }
}

/// A candidate that is rejected with its last byte and not before is passed over.
proof fn lemma_candidate_rejected(c: Seq<u8>, k: int, rest: Seq<u8>)
    requires
        0 <= k < c.len(),
        candidate(c) is Rejected,
        forall|i: int| 0 <= i < c.len() ==> candidate(#[trigger] c.take(i)) is Incomplete,
    ensures
        first_frame(Some(c.take(k)), c.skip(k) + rest) == behind(
            first_frame(None, rest),
            (c.len() - k) as nat,
        ),
    decreases c.len() - k,
{
    let s = c.skip(k) + rest;
    assert(s[0] == c[k]);
    assert(c.take(k).push(c[k]) =~= c.take(k + 1));
    if k + 1 == c.len() {
        assert(c.take(k + 1) =~= c);
        assert(s.skip(1) =~= rest);
    } else {
        assert(s.skip(1) =~= c.skip(k + 1) + rest);
        lemma_candidate_rejected(c, k + 1, rest);
        assert(candidate(c.take(k + 1)) is Incomplete);
    }
}

/// `w` is a dollar sign and a candidate that is complete with its last byte. With
/// another last byte, it is passed over.
proof fn lemma_wrong_last_byte(w: Seq<u8>, wrong: u8, rest: Seq<u8>)
    requires
        w.len() > 5,
        w[0] == 36,
        candidate(w.skip(1)) is Complete,
        forall|i: int|
            0 <= i < w.len() - 1 ==> candidate(#[trigger] w.skip(1).take(i)) is Incomplete,
        candidate(w.update(w.len() - 1, wrong).skip(1)) is Rejected,
    ensures
        first_frame(None, w.update(w.len() - 1, wrong) + rest) == behind(
            first_frame(None, rest),
            w.len(),
        ),
{
    let bad = w.update(w.len() - 1, wrong);
    let c = bad.skip(1);
    assert forall|i: int| 0 <= i < c.len() implies candidate(#[trigger] c.take(i)) is Incomplete by {
        assert(c.take(i) =~= w.skip(1).take(i));
    }
    let s = bad + rest;
    assert(s[0] == 36);
    assert(s.skip(1) =~= c.skip(0) + rest);
    assert(c.take(0) =~= seq![]);
    lemma_candidate_rejected(c, 0, rest);
}

/// A version 1 command with a wrong checksum is no frame: reading goes on behind it.
#[verifier::rlimit(60)]
pub proof fn law_a_wrong_v1_checksum_is_refused(
    cmd: u8,
    payload: Seq<u8>,
    wrong: u8,
    rest: Seq<u8>,
)
    requires
        payload.len() <= 255,
        wrong != xor_sum(body_v1(cmd, payload)),
    ensures
        ({
            let w = command_v1(cmd, payload);
            first_frame(None, w.update(w.len() - 1, wrong) + rest) == behind(
                first_frame(None, rest),
                w.len(),
            )
        }),
{
    let w = command_v1(cmd, payload);
    let c = w.update(w.len() - 1, wrong).skip(1);
    let n = payload.len() as int;
    lemma_command_v1(cmd, payload);
    assert(c[0] == 77 && c[1] == 60 && c[2] == n && c[4 + n] == wrong);
    assert(c.subrange(2, 4 + n) =~= body_v1(cmd, payload));
    lemma_wrong_last_byte(w, wrong, rest);
}

/// A version 2 command with a wrong checksum is no frame: reading goes on behind it.
#[verifier::rlimit(60)]
pub proof fn law_a_wrong_v2_checksum_is_refused(
    cmd: u16,
    payload: Seq<u8>,
    wrong: u8,
    rest: Seq<u8>,
)
    requires
        payload.len() <= 0xffff,
        wrong != crc_sum(body_v2(cmd, payload)),
    ensures
        ({
            let w = command_v2(cmd, payload);
            first_frame(None, w.update(w.len() - 1, wrong) + rest) == behind(
                first_frame(None, rest),
                w.len(),
            )
        }),
{
    let w = command_v2(cmd, payload);
    let c = w.update(w.len() - 1, wrong).skip(1);
    let n = payload.len() as int;
    lemma_command_v2(cmd, payload);
    assert(c[0] == 88 && c[1] == 60);
    assert(c[5] == n % 256 && c[6] == n / 256);
    assert(le16(c[5], c[6]) == n);
    assert(c[7 + n] == wrong);
    assert(c.subrange(2, 7 + n) =~= body_v2(cmd, payload));
    lemma_wrong_last_byte(w, wrong, rest);
}

/// Behind a frame, reading goes on as on a new stream.
pub proof fn law_a_parser_is_new_after_a_frame(progress: Progress, byte: u8)
    ensures
        parser_step(progress, byte).1 is Some ==> parser_step(progress, byte).0 is None,
{
}

/// A version 1 command on the wire: a dollar sign, an M and the sign for a request, the
/// length of the payload in one byte, the function, the payload, and a checksum with which
/// the bytes behind the three signs cancel out.
pub proof fn law_a_v1_command_on_the_wire(cmd: u8, payload: Seq<u8>)
    requires
        payload.len() <= 255,
    ensures
        ({
            let w = command_v1(cmd, payload);
            &&& w.len() == 6 + payload.len()
            &&& w[0] == '$' as u8 && w[1] == 'M' as u8 && w[2] == '<' as u8
            &&& w[3] == payload.len()
            &&& w[4] == cmd
            &&& w.subrange(5, w.len() - 1) == payload
            &&& xor_sum(w.skip(3)) == 0
        }),
{
    let w = command_v1(cmd, payload);
    assert(w.subrange(5, w.len() - 1) =~= payload);
    let x = xor_sum(body_v1(cmd, payload));
    assert(w.skip(3) =~= body_v1(cmd, payload).push(x));
    assert(w.skip(3).drop_last() =~= body_v1(cmd, payload));
    assert(x ^ x == 0) by (bit_vector);
}

/// A version 2 command on the wire: a dollar sign, an X and the sign for a request, no
/// flags, the function and the length of the payload with their low bytes first, the
/// payload, and a checksum that leaves no remainder behind the three signs.
pub proof fn law_a_v2_command_on_the_wire(cmd: u16, payload: Seq<u8>)
    requires
        payload.len() <= 0xffff,
    ensures
        ({
            let w = command_v2(cmd, payload);
            &&& w.len() == 9 + payload.len()
            &&& w[0] == '$' as u8 && w[1] == 'X' as u8 && w[2] == '<' as u8
            &&& w[3] == 0
            &&& w[4] + 256 * w[5] == cmd
            &&& w[6] + 256 * w[7] == payload.len()
            &&& w.subrange(8, w.len() - 1) == payload
            &&& crc_sum(w.skip(3)) == 0
        }),
{
    let w = command_v2(cmd, payload);
    assert(w.subrange(8, w.len() - 1) =~= payload);
    let x = crc_sum(body_v2(cmd, payload));
    assert(w.skip(3) =~= body_v2(cmd, payload).push(x));
    assert(w.skip(3).drop_last() =~= body_v2(cmd, payload));
    assert(x ^ x == 0) by (bit_vector);
    lemma_no_bits(8);
}

proof fn lemma_no_bits(n: nat)
    ensures
        crc_bits(0, n) == 0,
    decreases n,
{
    if n > 0 {
        lemma_no_bits((n - 1) as nat);
        assert(crc_bit(0) == 0) by (bit_vector);
    }
}

/// The checksum of version 1 is the bytes one upon the other: it does not matter where a
/// text is cut, nor in which order its parts come.
pub proof fn law_the_v1_checksum_adds_up(a: Seq<u8>, b: Seq<u8>, x: u8)
    ensures
        xor_sum(a + b) == xor_sum(a) ^ xor_sum(b),
        xor_sum(a + b) == xor_sum(b + a),
        xor_sum(seq![x]) == x,
        xor_sum(seq![]) == 0,
{
    assert(seq![x].drop_last() =~= seq![]);
    assert(xor_sum(seq![]) == 0);
    assert(0u8 ^ x == x) by (bit_vector);
    lemma_xor_of_both(a, b);
    lemma_xor_of_both(b, a);
    let (p, q) = (xor_sum(a), xor_sum(b));
    assert(p ^ q == q ^ p) by (bit_vector);
}

proof fn lemma_xor_of_both(a: Seq<u8>, b: Seq<u8>)
    ensures
        xor_sum(a + b) == xor_sum(a) ^ xor_sum(b),
    decreases b.len(),
{
    let p = xor_sum(a);
    if b.len() == 0 {
        assert(a + b =~= a);
        assert(p ^ 0 == p) by (bit_vector);
    } else {
        assert((a + b).drop_last() =~= a + b.drop_last());
        lemma_xor_of_both(a, b.drop_last());
        let (q, l) = (xor_sum(b.drop_last()), b.last());
        assert((p ^ q) ^ l == p ^ (q ^ l)) by (bit_vector);
    }
}

/// The checksum of version 2 is a remainder: each bit doubles it, and where that goes
/// beyond a byte, the generator 0x1D5 is taken off.
pub proof fn law_the_v2_checksum_is_a_remainder(crc: u8)
    ensures
        crc < 128 ==> crc_bit(crc) == 2 * crc,
        crc >= 128 ==> (0x100 + (crc_bit(crc) as int)) as u16 ^ 0x1D5u16 == (2 * crc - 256) as u16,
        crc_sum(seq![]) == 0,
        crc_sum(seq![crc]) == crc_bits(crc, 8),
{
    assert(crc < 128 ==> crc_bit(crc) == 2 * crc) by (bit_vector);
    assert(crc >= 128 ==> (0x100 + crc_bit(crc)) as u16 ^ 0x1D5u16 == (2 * crc - 256) as u16)
        by (bit_vector);
    assert(seq![crc].drop_last() =~= seq![]);
    assert(0 ^ crc == crc) by (bit_vector);
}

proof fn lemma_bits_tell_apart(a: u8, b: u8, n: nat)
    requires
        a != b,
    ensures
        crc_bits(a, n) != crc_bits(b, n),
    decreases n,
{
    if n > 0 {
        lemma_bits_tell_apart(a, b, (n - 1) as nat);
        let (p, q) = (crc_bits(a, (n - 1) as nat), crc_bits(b, (n - 1) as nat));
        assert(p != q ==> crc_bit(p) != crc_bit(q)) by (bit_vector);
    }
}

/// One wrong byte always shows: neither checksum stays what it was.
pub proof fn law_one_wrong_byte_shows(data: Seq<u8>, at: int, wrong: u8)
    requires
        0 <= at < data.len(),
        data[at] != wrong,
    ensures
        xor_sum(data.update(at, wrong)) != xor_sum(data),
        crc_sum(data.update(at, wrong)) != crc_sum(data),
    decreases data.len(),
{
    let bad = data.update(at, wrong);
    let d = data.drop_last();
    if at == data.len() - 1 {
        assert(bad.drop_last() =~= d);
        let (x, c, l) = (xor_sum(d), crc_sum(d), data.last());
        assert(l != wrong ==> x ^ l != x ^ wrong) by (bit_vector);
        assert(l != wrong ==> c ^ l != c ^ wrong) by (bit_vector);
        lemma_bits_tell_apart(c ^ l, c ^ wrong, 8);
    } else {
        assert(bad.drop_last() =~= d.update(at, wrong));
        assert(bad.last() == data.last());
        law_one_wrong_byte_shows(d, at, wrong);
        let l = data.last();
        let (x, y) = (xor_sum(d), xor_sum(d.update(at, wrong)));
        let (c, e) = (crc_sum(d), crc_sum(d.update(at, wrong)));
        assert(x != y ==> x ^ l != y ^ l) by (bit_vector);
        assert(c != e ==> c ^ l != e ^ l) by (bit_vector);
        lemma_bits_tell_apart(c ^ l, e ^ l, 8);
    }
}

/// An answer and a refusal are read as a request is, and say that they are one; a frame of
/// no such type is none.
pub proof fn law_a_frame_is_of_its_type(cmd: u8, function: u16, payload: Seq<u8>, msp_type: u8)
    requires
        payload.len() <= 255,
    ensures
        ({
            let (a, b) = (
                candidate(command_v1(cmd, payload).skip(1).update(1, msp_type)),
                candidate(command_v2(function, payload).skip(1).update(1, msp_type)),
            );
            if msp_type == '<' as u8 || msp_type == '>' as u8 || msp_type == '!' as u8 {
                &&& a == Candidate::Complete(
                    MspFrameView { is_v2: false, msp_type, function: cmd as u16, payload },
                )
                &&& b == Candidate::Complete(
                    MspFrameView { is_v2: true, msp_type, function, payload },
                )
            } else {
                a is Rejected && b is Rejected
            }
        }),
{
    let n = payload.len() as int;
    let c = command_v1(cmd, payload).skip(1).update(1, msp_type);
    assert(c.len() == 5 + n);
    assert(c[0] == 77 && c[1] == msp_type && c[2] == n && c[3] == cmd);
    assert(c.subrange(2, 4 + n) =~= body_v1(cmd, payload));
    assert(c[4 + n] == xor_sum(body_v1(cmd, payload)));
    assert(c.subrange(4, 4 + n) =~= payload);
    let d = command_v2(function, payload).skip(1).update(1, msp_type);
    assert(d.len() == 8 + n);
    assert(d[0] == 88 && d[1] == msp_type);
    assert(d[3] == low_byte(function) && d[4] == high_byte(function));
    assert(le16(d[3], d[4]) == function);
    assert(d[5] == n % 256 && d[6] == n / 256);
    assert(le16(d[5], d[6]) == n);
    assert(d.subrange(2, 7 + n) =~= body_v2(function, payload));
    assert(d[7 + n] == crc_sum(body_v2(function, payload)));
    assert(d.subrange(7, 7 + n) =~= payload);
}

} // verus!
