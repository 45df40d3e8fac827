//! Readings and the fixed JSON object they travel in.
use vstd::prelude::*;

verus! {

/// One acquisition cycle's values, each already truncated toward zero to a whole
/// number in its natural unit (degrees Celsius, percent RH, hPa, ohms).
#[derive(Clone, Copy, Debug, PartialEq, Eq, Structural)]
pub struct Reading {
    pub temperature: u32,
    pub humidity: u32,
    pub pressure: u32,
    pub gas_resistance: u32,
}

/// The application-level message shape: one string field named `message`.
#[derive(Debug)]
pub struct MqttMessage {
    pub message: String,
}

/// The ASCII decimal digits of `n`, most significant first, without leading zeros.
pub open spec fn decimal(n: nat) -> Seq<u8>
    decreases n,
{
    if n < 10 {
        seq![(48 + n) as u8]
    } else {
        decimal(n / 10).push((48 + n % 10) as u8)
    }
}

/// The separator between two values: a comma and a space.
pub open spec fn separator() -> Seq<u8> {
    seq![44u8, 32u8]
}

/// The text of a reading: its four values in decimal, comma-and-space separated.
pub open spec fn reading_text_spec(r: Reading) -> Seq<u8> {
    decimal(r.temperature as nat) + separator() + decimal(r.humidity as nat) + separator()
        + decimal(r.pressure as nat) + separator() + decimal(r.gas_resistance as nat)
}

/// The bytes that open the wire object: `{"message":"`.
pub open spec fn frame_open() -> Seq<u8> {
    seq![123u8, 34u8, 109u8, 101u8, 115u8, 115u8, 97u8, 103u8, 101u8, 34u8, 58u8, 34u8]
}

/// The bytes that close the wire object: `"}`.
pub open spec fn frame_close() -> Seq<u8> {
    seq![34u8, 125u8]
}

/// The compact JSON object `{"message":"<text>"}` around `text`.
pub open spec fn framed(text: Seq<u8>) -> Seq<u8> {
    frame_open() + text + frame_close()
}

/// A byte that stands for itself inside a JSON string: no control character,
/// no quote and no backslash.
pub open spec fn plain_byte(c: u8) -> bool {
    c >= 32 && c != 34 && c != 92
}

pub open spec fn plain_text(s: Seq<u8>) -> bool {
    forall|i: int| 0 <= i < s.len() ==> plain_byte(#[trigger] s[i])
}

/// What a payload decodes to: the text of its `message` field, where the payload is
/// exactly the compact object around text that needs no escapes; nothing otherwise.
pub open spec fn decode_spec(b: Seq<u8>) -> Option<Seq<u8>> {
    let n = b.len();
    if n >= 14 && b.subrange(0, 12) == frame_open() && b.subrange(n - 2, n as int)
        == frame_close() && plain_text(b.subrange(12, n - 2)) {
        Some(b.subrange(12, n - 2))
    } else {
        None
    }
}

/// Appends the decimal digits of `n` to `out`.
pub fn push_decimal(out: &mut Vec<u8>, n: u32)
    ensures
        final(out)@ == old(out)@ + decimal(n as nat),
    decreases n,
{
    if n >= 10 {
        push_decimal(out, n / 10);
    }
    out.push((48 + n % 10) as u8);
    assert(final(out)@ =~= old(out)@ + decimal(n as nat));
}


fn push_separator(out: &mut Vec<u8>)
    ensures
        final(out)@ == old(out)@ + separator(),
{
    out.push(44u8);
    out.push(32u8);
    assert(final(out)@ =~= old(out)@ + separator());
}

/// The text of a reading, as carried in the `message` field.
pub fn reading_text(r: &Reading) -> (t: Vec<u8>)
    ensures
        t@ == reading_text_spec(*r),
{
    let mut t: Vec<u8> = Vec::new();
    push_decimal(&mut t, r.temperature);
    push_separator(&mut t);
    push_decimal(&mut t, r.humidity);
    push_separator(&mut t);
    push_decimal(&mut t, r.pressure);
    push_separator(&mut t);
    push_decimal(&mut t, r.gas_resistance);
    assert(t@ =~= reading_text_spec(*r));
    t
}

/// The wire payload for a reading: `{"message":"<t>, <h>, <p>, <g>"}`.
pub fn encode_reading(r: &Reading) -> (b: Vec<u8>)
    ensures
        b@ == framed(reading_text_spec(*r)),
{
    let text = reading_text(r);
    let mut b: Vec<u8> = Vec::new();
    let open: [u8; 12] = [123u8, 34u8, 109u8, 101u8, 115u8, 115u8, 97u8, 103u8, 101u8, 34u8, 58u8, 34u8];
    let mut i: usize = 0;
    while i < 12
        invariant
            0 <= i <= 12,
            open@ == frame_open(),
            b@ == frame_open().subrange(0, i as int),
        decreases 12 - i,
    {
        b.push(open[i]);
        i = i + 1;
        assert(b@ =~= frame_open().subrange(0, i as int));
    }
    let mut j: usize = 0;
    while j < text.len()
        invariant
            0 <= j <= text@.len(),
            b@ == frame_open() + text@.subrange(0, j as int),
        decreases text@.len() - j,
    {
        b.push(text[j]);
        j = j + 1;
        assert(b@ =~= frame_open() + text@.subrange(0, j as int));
    }
    b.push(34u8);
    b.push(125u8);
    assert(text@.subrange(0, text@.len() as int) =~= text@);
    assert(b@ =~= framed(reading_text_spec(*r)));
    b
}

/// Reads the `message` text out of a payload in the compact form that
/// `encode_reading` writes; anything else, valid JSON in another layout included,
/// is refused with `None`. It checks outbound frames; it is no general JSON decoder.
pub fn decode_payload(b: &[u8]) -> (r: Option<Vec<u8>>)
    ensures
        match r {
            Some(t) => decode_spec(b@) == Some(t@),
            None => decode_spec(b@) is None,
        },
{
    let n = b.len();
    if n < 14 {
        return None;
    }
    let open: [u8; 12] = [123u8, 34u8, 109u8, 101u8, 115u8, 115u8, 97u8, 103u8, 101u8, 34u8, 58u8, 34u8];
    let mut i: usize = 0;
    while i < 12
        invariant
            0 <= i <= 12,
            n == b@.len(),
            n >= 14,
            open@ == frame_open(),
            forall|k: int| 0 <= k < i ==> b@[k] == frame_open()[k],
        decreases 12 - i,
    {
        if b[i] != open[i] {
            assert(b@.subrange(0, 12)[i as int] != frame_open()[i as int]);
            return None;
        }
        i = i + 1;
    }
    assert(b@.subrange(0, 12) =~= frame_open());
    if b[n - 2] != 34u8 || b[n - 1] != 125u8 {
        assert(b@.subrange(n - 2, n as int)[0] == b@[n - 2]);
        assert(b@.subrange(n - 2, n as int)[1] == b@[n - 1]);
        return None;
    }
    assert(b@.subrange(n - 2, n as int) =~= frame_close());
    let mut t: Vec<u8> = Vec::new();
    let mut j: usize = 12;
    while j < n - 2
        invariant
            12 <= j <= n - 2,
            n == b@.len(),
            n >= 14,
            t@ == b@.subrange(12, j as int),
            plain_text(t@),
        decreases n - 2 - j,
    {
        let c = b[j];
        if c < 32u8 || c == 34u8 || c == 92u8 {
            assert(b@.subrange(12, n - 2)[j - 12] == c);
            return None;
        }
        t.push(c);
        j = j + 1;
        assert(t@ =~= b@.subrange(12, j as int));
    }
    Some(t)
}

proof fn lemma_decimal_plain(n: nat)
    ensures
        plain_text(decimal(n)),
        decimal(n).len() >= 1,
    decreases n,
{
    if n >= 10 {
        lemma_decimal_plain(n / 10);
    }
}

/// Decoding the payload of a reading gives back the reading's text: each value
/// truncated, comma-and-space separated.
pub proof fn lemma_decode_encoded(r: Reading)
    ensures
        decode_spec(framed(reading_text_spec(r))) == Some(reading_text_spec(r)),
{
    let t = reading_text_spec(r);
    lemma_decimal_plain(r.temperature as nat);
    lemma_decimal_plain(r.humidity as nat);
    lemma_decimal_plain(r.pressure as nat);
    lemma_decimal_plain(r.gas_resistance as nat);
    let b = framed(t);
    let n = b.len();
    assert(b.subrange(0, 12) =~= frame_open());
    assert(b.subrange(n - 2, n as int) =~= frame_close());
    assert(b.subrange(12, n - 2) =~= t);
    assert(plain_text(t)) by {
        let d1 = decimal(r.temperature as nat);
        let d2 = decimal(r.humidity as nat);
        let d3 = decimal(r.pressure as nat);
        let d4 = decimal(r.gas_resistance as nat);
        assert(plain_text(separator()));
        assert forall|i: int| 0 <= i < t.len() implies plain_byte(#[trigger] t[i]) by {
            let s = separator();
            if i < d1.len() {
                assert(t[i] == d1[i]);
            } else if i < d1.len() + 2 {
                assert(t[i] == s[i - d1.len()]);
            } else if i < d1.len() + 2 + d2.len() {
                assert(t[i] == d2[i - d1.len() - 2]);
            } else if i < d1.len() + 4 + d2.len() {
                assert(t[i] == s[i - d1.len() - 2 - d2.len()]);
            } else if i < d1.len() + 4 + d2.len() + d3.len() {
                assert(t[i] == d3[i - d1.len() - 4 - d2.len()]);
            } else if i < d1.len() + 6 + d2.len() + d3.len() {
                assert(t[i] == s[i - d1.len() - 4 - d2.len() - d3.len()]);
            } else {
                assert(t[i] == d4[i - d1.len() - 6 - d2.len() - d3.len()]);
            }
        }
    }
}

/// What becomes of one inbound message; none of them is an error to the cycle.
#[derive(Debug)]
pub enum Inbound {
    /// An empty payload: nothing to report.
    Empty,
    /// A payload that decoded into the message shape.
    Received { message: MqttMessage },
    /// A payload that did not decode: reported and dropped.
    Malformed,
}

/// Sorts an inbound payload by the outcome of decoding it (`decoded`).
pub fn classify_inbound(payload: &[u8], decoded: Option<MqttMessage>) -> (r: Inbound)
    ensures
        payload@.len() == 0 <==> r is Empty,
        payload@.len() > 0 && decoded is None <==> r is Malformed,
        r matches Inbound::Received { message } ==> decoded == Some(message),
        payload@.len() > 0 && decoded is Some ==> r is Received,
{
    if payload.len() == 0 {
        Inbound::Empty
    } else {
        match decoded {
            Some(message) => Inbound::Received { message },
            None => Inbound::Malformed,
        }
    }
}

} // verus!
