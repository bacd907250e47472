//! Verification of webhook signatures (HMAC-SHA256 over
//! `"{timestamp}.{payload}"`, hex encoded).

use vstd::prelude::*;
use crate::error::Error;
use crate::sse::first_index_of;
use crate::sse_frame::{is_whitespace, lemma_first_index_range, trim_start};
use crate::text::{chars_of, str_eq, string_from_chars};

verus! {

/// The HMAC-SHA256 tag of `message` under `key`.
pub uninterp spec fn hmac_sha256(key: Seq<u8>, message: Seq<u8>) -> Seq<u8>;

/// HMAC-SHA256 of `message` keyed with `key` (ring's `hmac::sign` with
/// `HMAC_SHA256`); the tag is the 32 bytes of a SHA-256 output.
#[verifier::external_body]
fn hmac_sha256_sign(key: &[u8], message: &[u8]) -> (tag: Vec<u8>)
    ensures
        tag@ == hmac_sha256(key@, message@),
        tag@.len() == 32,
{
    let key = ring::hmac::Key::new(ring::hmac::HMAC_SHA256, key);
    ring::hmac::sign(&key, message).as_ref().to_vec()
}

/// Lower-case hexadecimal digit for a nibble.
pub open spec fn hex_lower_digit(n: int) -> char {
    if n < 10 {
        (n + 0x30) as char
    } else {
        (n - 10 + 0x61) as char
    }
}

/// Lower-case hex encoding: two digits per byte, high nibble first.
pub open spec fn spec_hex_lower(bytes: Seq<u8>) -> Seq<char>
    decreases bytes.len(),
{
    if bytes.len() == 0 {
        Seq::empty()
    } else {
        spec_hex_lower(bytes.drop_last()) + seq![
            hex_lower_digit((bytes.last() / 16) as int),
            hex_lower_digit((bytes.last() % 16) as int),
        ]
    }
}

fn hex_lower_nibble(n: u8) -> (c: char)
    requires
        n < 16,
    ensures
        c == hex_lower_digit(n as int),
{
    if n < 10 {
        (n + 0x30) as char
    } else {
        (n - 10 + 0x61) as char
    }
}

/// Encodes bytes as lower-case hexadecimal.
pub fn hex_lower(bytes: &[u8]) -> (s: String)
    ensures
        s@ == spec_hex_lower(bytes@),
{
    let mut out: Vec<char> = Vec::new();
    let mut i: usize = 0;
    while i < bytes.len()
        invariant
            i <= bytes@.len(),
            out@ == spec_hex_lower(bytes@.take(i as int)),
        decreases bytes@.len() - i,
    {
        let b = bytes[i];
        out.push(hex_lower_nibble(b / 16));
        out.push(hex_lower_nibble(b % 16));
        assert(bytes@.take(i + 1).drop_last() =~= bytes@.take(i as int));
        i = i + 1;
        assert(out@ =~= spec_hex_lower(bytes@.take(i as int)));
    }
    assert(bytes@.take(i as int) =~= bytes@);
    string_from_chars(&out)
}

/// Compares two byte strings, looking at every byte when the lengths agree.
pub fn constant_time_eq(left: &[u8], right: &[u8]) -> (r: bool)
    ensures
        r == (left@ == right@),
{
    if left.len() != right.len() {
        return false;
    }
    let mut diff: u8 = 0;
    let mut i: usize = 0;
    while i < left.len()
        invariant
            i <= left@.len() == right@.len(),
            (diff == 0) == (forall|j: int| 0 <= j < i ==> left@[j] == right@[j]),
        decreases left@.len() - i,
    {
        let a = left[i];
        let b = right[i];
        let old_diff = diff;
        diff = diff | (a ^ b);
        assert(((old_diff | (a ^ b)) == 0) == (old_diff == 0 && a == b)) by (bit_vector);
        i = i + 1;
    }
    proof {
        if diff == 0 {
            assert(left@ =~= right@);
        }
    }
    diff == 0
}

/// The expected signature: hex of HMAC-SHA256 under the secret's UTF-8 bytes
/// over the timestamp's bytes, a `.`, and the payload.
pub open spec fn spec_webhook_signature(secret: Seq<char>, timestamp: Seq<char>, payload: Seq<u8>) -> Seq<char> {
    spec_hex_lower(
        hmac_sha256(
            vstd::utf8::encode_utf8(secret),
            vstd::utf8::encode_utf8(timestamp).push(0x2e) + payload,
        ),
    )
}

/// Computes the signature a webhook with this timestamp and payload must
/// carry.
pub fn webhook_signature(secret: &str, timestamp: &str, payload: &[u8]) -> (sig: String)
    ensures
        sig@ == spec_webhook_signature(secret@, timestamp@, payload@),
{
    let mut body: Vec<u8> = Vec::new();
    let ts = timestamp.as_bytes();
    let mut i: usize = 0;
    while i < ts.len()
        invariant
            i <= ts@.len(),
            body@ == ts@.take(i as int),
        decreases ts@.len() - i,
    {
        body.push(ts[i]);
        i = i + 1;
        assert(body@ =~= ts@.take(i as int));
    }
    assert(ts@.take(i as int) =~= ts@);
    body.push(0x2e);
    let ghost head = body@;
    let mut j: usize = 0;
    while j < payload.len()
        invariant
            j <= payload@.len(),
            body@ == head + payload@.take(j as int),
        decreases payload@.len() - j,
    {
        body.push(payload[j]);
        j = j + 1;
        assert(body@ =~= head + payload@.take(j as int));
    }
    assert(payload@.take(j as int) =~= payload@);
    let tag = hmac_sha256_sign(secret.as_bytes(), body.as_slice());
    hex_lower(tag.as_slice())
}

/// `s` without its trailing whitespace.
pub open spec fn trim_end(s: Seq<char>) -> Seq<char>
    decreases s.len(),
{
    if s.len() > 0 && is_whitespace(s.last()) {
        trim_end(s.drop_last())
    } else {
        s
    }
}

/// `s` without leading and trailing whitespace (`str::trim`).
pub open spec fn trim(s: Seq<char>) -> Seq<char> {
    trim_end(trim_start(s))
}

/// The pieces of `s` between commas (`str::split(',')`).
pub open spec fn split_commas(s: Seq<char>) -> Seq<Seq<char>>
    decreases s.len(),
{
    match first_index_of(s, ',', 0) {
        None => seq![s],
        Some(i) => {
            proof {
                lemma_first_index_range(s, ',', 0);
            }
            seq![s.take(i)] + split_commas(s.skip(i + 1))
        },
    }
}

/// The `v1=` signature among comma-separated parts: the first part that,
/// trimmed, starts with `v1=`, without that prefix.
pub open spec fn first_v1(parts: Seq<Seq<char>>) -> Option<Seq<char>>
    decreases parts.len(),
{
    if parts.len() == 0 {
        None
    } else {
        let t = trim(parts[0]);
        if t.len() >= 3 && t.take(3) == "v1="@ {
            Some(t.skip(3))
        } else {
            first_v1(parts.drop_first())
        }
    }
}

/// The signature a header carries: its `v1=` part, or the whole header
/// trimmed.
pub open spec fn provided_signature(header: Seq<char>) -> Seq<char> {
    match first_v1(split_commas(header)) {
        Some(s) => s,
        None => trim(header),
    }
}

fn copy_range(v: &Vec<char>, from: usize, to: usize) -> (r: Vec<char>)
    requires
        from <= to <= v@.len(),
    ensures
        r@ == v@.subrange(from as int, to as int),
{
    let mut r: Vec<char> = Vec::new();
    let mut i: usize = from;
    while i < to
        invariant
            from <= i <= to <= v@.len(),
            r@ == v@.subrange(from as int, i as int),
        decreases to - i,
    {
        r.push(v[i]);
        i = i + 1;
        assert(r@ =~= v@.subrange(from as int, i as int));
    }
    r
}

fn trim_exec(v: &Vec<char>) -> (r: Vec<char>)
    ensures
        r@ == trim(v@),
{
    let mut start: usize = 0;
    assert(v@.skip(0) =~= v@);
    while start < v.len() && crate::sse_frame::is_whitespace_exec(v[start])
        invariant
            start <= v@.len(),
            trim_start(v@) == trim_start(v@.skip(start as int)),
        decreases v@.len() - start,
    {
        assert(v@.skip(start as int).drop_first() =~= v@.skip(start + 1));
        start = start + 1;
    }
    let mut end: usize = v.len();
    let ghost ts = v@.skip(start as int);
    assert(ts.take(ts.len() as int) =~= ts);
    while end > start && crate::sse_frame::is_whitespace_exec(v[end - 1])
        invariant
            start <= end <= v@.len(),
            ts == v@.skip(start as int),
            trim_end(ts) == trim_end(ts.take(end - start)),
        decreases end - start,
    {
        assert(ts.take(end - start).drop_last() =~= ts.take(end - start - 1));
        end = end - 1;
    }
    assert(v@.subrange(start as int, end as int) =~= ts.take(end - start));
    copy_range(v, start, end)
}

/// `s` without leading and trailing whitespace (`str::trim`).
pub fn trim_whitespace(s: &str) -> (r: String)
    ensures
        r@ == trim(s@),
{
    let chars = chars_of(s);
    let t = trim_exec(&chars);
    string_from_chars(&t)
}

fn strip_v1(t: &Vec<char>) -> (r: Option<Vec<char>>)
    ensures
        match r {
            Some(x) => t@.len() >= 3 && t@.take(3) == "v1="@ && x@ == t@.skip(3),
            None => !(t@.len() >= 3 && t@.take(3) == "v1="@),
        },
{
    proof {
        reveal_strlit("v1=");
    }
    if t.len() >= 3 {
        let head = copy_range(t, 0, 3);
        let head_s = string_from_chars(&head);
        assert(t@.subrange(0, 3) =~= t@.take(3));
        if str_eq(head_s.as_str(), "v1=") {
            let tail = copy_range(t, 3, t.len());
            assert(t@.subrange(3, t@.len() as int) =~= t@.skip(3));
            return Some(tail);
        }
    }
    None
}

/// The signature carried by a `webhook-signature` header value.
pub fn signature_from_header(header: &str) -> (sig: String)
    ensures
        sig@ == provided_signature(header@),
{
    let chars = chars_of(header);
    let mut pos: usize = 0;
    assert(chars@.skip(0) =~= chars@);
    loop
        invariant
            pos <= chars@.len(),
            chars@ == header@,
            first_v1(split_commas(chars@)) == first_v1(split_commas(chars@.skip(pos as int))),
        ensures
            chars@ == header@,
            first_v1(split_commas(chars@)) is None,
        decreases chars@.len() - pos,
    {
        let ghost rest = chars@.skip(pos as int);
        let mut j: usize = pos;
        while j < chars.len() && chars[j] != ','
            invariant
                pos <= j <= chars@.len(),
                forall|k: int| pos <= k < j ==> #[trigger] chars@[k] != ',',
            decreases chars@.len() - j,
        {
            j = j + 1;
        }
        let part = copy_range(&chars, pos, j);
        proof {
            assert forall|k: int| 0 <= k < j - pos implies #[trigger] rest[k] != ',' by {
                assert(rest[k] == chars@[pos + k]);
            }
            if j < chars@.len() {
                crate::sse_frame::lemma_first_index_found_pub(rest, ',', 0, j - pos);
                assert(rest.take(j - pos) =~= part@);
                assert(rest.skip(j - pos + 1) =~= chars@.skip(j + 1));
            } else {
                crate::sse_frame::lemma_first_index_none_pub(rest, ',', 0);
                assert(rest =~= part@);
            }
            let parts = split_commas(rest);
            assert(parts[0] == part@);
            assert(parts.drop_first() =~= if j < chars@.len() {
                split_commas(chars@.skip(j + 1))
            } else {
                Seq::<Seq<char>>::empty()
            });
        }
        let t = trim_exec(&part);
        match strip_v1(&t) {
            Some(tail) => {
                return string_from_chars(&tail);
            },
            None => {},
        }
        proof {
            let parts = split_commas(rest);
            assert(first_v1(parts) == first_v1(parts.drop_first()));
        }
        if j == chars.len() {
            assert(first_v1(split_commas(chars@)) is None);
            break;
        }
        pos = j + 1;
    }
    let t = trim_exec(&chars);
    string_from_chars(&t)
}

/// Checks a webhook's signature against the secret. The signature comes from
/// the `webhook-signature` header (or `OpenAI-Signature`), the timestamp from
/// `webhook-timestamp` (or `OpenAI-Timestamp`); a missing header or a
/// signature that differs from the expected one is an error.
pub fn verify_webhook_signature(
    secret: &str,
    payload: &[u8],
    signature_header: Option<&str>,
    timestamp_header: Option<&str>,
) -> (r: Result<(), Error>)
    ensures
        match (signature_header, timestamp_header) {
            (None, _) => r matches Err(Error::WebhookVerification(m)) && m@
                == "missing signature header"@,
            (Some(_), None) => r matches Err(Error::WebhookVerification(m)) && m@
                == "missing timestamp header"@,
            (Some(sig), Some(ts)) => if provided_signature(sig@) == spec_webhook_signature(
                secret@,
                ts@,
                payload@,
            ) {
                r is Ok
            } else {
                r matches Err(Error::WebhookVerification(m)) && m@ == "signature mismatch"@
            },
        },
{
    let signature = match signature_header {
        Some(s) => s,
        None => {
            return Err(Error::WebhookVerification("missing signature header".to_string()));
        },
    };
    let timestamp = match timestamp_header {
        Some(t) => t,
        None => {
            return Err(Error::WebhookVerification("missing timestamp header".to_string()));
        },
    };
    let expected = webhook_signature(secret, timestamp, payload);
    let provided = signature_from_header(signature);
    let same = constant_time_eq(expected.as_str().as_bytes(), provided.as_str().as_bytes());
    proof {
        vstd::utf8::encode_utf8_decode_utf8(expected@);
        vstd::utf8::encode_utf8_decode_utf8(provided@);
    }
    if same {
        Ok(())
    } else {
        Err(Error::WebhookVerification("signature mismatch".to_string()))
    }
}

/// Whether `c` is a lower-case hexadecimal digit.
pub open spec fn is_lower_hex(c: char) -> bool {
    ('0' <= c && c <= '9') || ('a' <= c && c <= 'f')
}

proof fn lemma_hex_lower_digits(bytes: Seq<u8>)
    ensures
        forall|i: int| 0 <= i < spec_hex_lower(bytes).len() ==> is_lower_hex(#[trigger] spec_hex_lower(bytes)[i]),
    decreases bytes.len(),
{
    if bytes.len() > 0 {
        lemma_hex_lower_digits(bytes.drop_last());
        let prev = spec_hex_lower(bytes.drop_last());
        let pair = seq![
            hex_lower_digit((bytes.last() / 16) as int),
            hex_lower_digit((bytes.last() % 16) as int),
        ];
        assert forall|i: int| 0 <= i < (prev + pair).len() implies is_lower_hex(#[trigger] (prev + pair)[i]) by {
            if i >= prev.len() {
                assert((prev + pair)[i] == pair[i - prev.len()]);
            }
        }
    }
}

/// A webhook signed by this library verifies: the header `v1=<signature>`,
/// with the signature computed for the same secret, timestamp and payload,
/// carries exactly that signature, so `verify_webhook_signature` accepts it.
pub proof fn law_signed_webhook_verifies(secret: Seq<char>, timestamp: Seq<char>, payload: Seq<u8>)
    ensures
        provided_signature("v1="@ + spec_webhook_signature(secret, timestamp, payload))
            == spec_webhook_signature(secret, timestamp, payload),
{
    let sig = spec_webhook_signature(secret, timestamp, payload);
    reveal_strlit("v1=");
    let h = "v1="@ + sig;
    lemma_hex_lower_digits(
        hmac_sha256(
            vstd::utf8::encode_utf8(secret),
            vstd::utf8::encode_utf8(timestamp).push(0x2e) + payload,
        ),
    );
    assert forall|j: int| 0 <= j < h.len() implies #[trigger] h[j] != ',' by {
        if j >= 3 {
            assert(h[j] == sig[j - 3]);
            assert(is_lower_hex(sig[j - 3]));
        }
    }
    crate::sse_frame::lemma_first_index_none_pub(h, ',', 0);
    assert(split_commas(h) =~= seq![h]);
    assert(!is_whitespace(h[0]));
    assert(trim_start(h) == h);
    assert(h.len() > 0);
    assert(!is_whitespace(h.last())) by {
        if h.len() > 3 {
            assert(h.last() == sig[sig.len() - 1]);
            assert(is_lower_hex(sig[sig.len() - 1]));
        }
    }
    assert(trim_end(h) == h);
    assert(trim(h) == h);
    assert(h.take(3) =~= "v1="@);
    assert(h.skip(3) =~= sig);
    assert(seq![h].drop_first() =~= Seq::<Seq<char>>::empty());
}

/// The lower-case hexadecimal digits, by value.
pub open spec fn lower_hex_table() -> Seq<char> {
    "0123456789abcdef"@
}

proof fn lemma_hex_digit_table(n: int)
    requires
        0 <= n < 16,
    ensures
        hex_lower_digit(n) == lower_hex_table()[n],
{
    reveal_strlit("0123456789abcdef");
    if n == 0 {
    } else if n == 1 {
    } else if n == 2 {
    } else if n == 3 {
    } else if n == 4 {
    } else if n == 5 {
    } else if n == 6 {
    } else if n == 7 {
    } else if n == 8 {
    } else if n == 9 {
    } else if n == 10 {
    } else if n == 11 {
    } else if n == 12 {
    } else if n == 13 {
    } else if n == 14 {
    } else {
    }
}

proof fn lemma_hex_lower_layout(bytes: Seq<u8>)
    ensures
        spec_hex_lower(bytes).len() == 2 * bytes.len(),
        forall|i: int|
            0 <= i < bytes.len() ==> spec_hex_lower(bytes)[2 * i] == lower_hex_table()[(bytes[i] / 16) as int]
                && spec_hex_lower(bytes)[2 * i + 1] == lower_hex_table()[(bytes[i] % 16) as int],
    decreases bytes.len(),
{
    if bytes.len() > 0 {
        let prev = bytes.drop_last();
        lemma_hex_lower_layout(prev);
        let b = bytes.last();
        lemma_hex_digit_table((b / 16) as int);
        lemma_hex_digit_table((b % 16) as int);
        let h = spec_hex_lower(bytes);
        assert forall|i: int| 0 <= i < bytes.len() implies h[2 * i] == lower_hex_table()[(bytes[i] / 16) as int]
            && h[2 * i + 1] == lower_hex_table()[(bytes[i] % 16) as int] by {
            if i < prev.len() {
                assert(bytes[i] == prev[i]);
            }
        }
    }
}

/// A webhook's signature is the lower-case hex of the HMAC-SHA256 tag, keyed
/// by the secret's UTF-8 bytes, of the timestamp's bytes, then one `.` byte,
/// then the payload: two digits per tag byte, high nibble first.
pub proof fn law_webhook_signature_message(secret: Seq<char>, timestamp: Seq<char>, payload: Seq<u8>)
    ensures
        ({
            let ts = vstd::utf8::encode_utf8(timestamp);
            let msg = ts + seq![0x2eu8] + payload;
            let tag = hmac_sha256(vstd::utf8::encode_utf8(secret), msg);
            let sig = spec_webhook_signature(secret, timestamp, payload);
            &&& msg.len() == ts.len() + 1 + payload.len()
            &&& msg.take(ts.len() as int) == ts
            &&& msg[ts.len() as int] == 0x2e
            &&& msg.skip(ts.len() + 1int) == payload
            &&& sig.len() == 2 * tag.len()
            &&& forall|i: int|
                0 <= i < tag.len() ==> sig[2 * i] == lower_hex_table()[(tag[i] / 16) as int] && sig[2 * i + 1]
                    == lower_hex_table()[(tag[i] % 16) as int]
        }),
{
    let ts = vstd::utf8::encode_utf8(timestamp);
    let msg = ts + seq![0x2eu8] + payload;
    assert(ts.push(0x2e) + payload =~= msg);
    assert(msg.take(ts.len() as int) =~= ts);
    assert(msg.skip(ts.len() + 1int) =~= payload);
    lemma_hex_lower_layout(hmac_sha256(vstd::utf8::encode_utf8(secret), msg));
}

} // verus!
