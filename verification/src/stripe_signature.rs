//! Checking the `Stripe-Signature` header of a webhook request.
//!
//! The header is a comma separated list of `key=value` items; `t` gives the timestamp and
//! each `v1` a signature. A request is authentic when some `v1` equals the lowercase hex
//! HMAC-SHA256, under the webhook secret, of the timestamp, a dot and the body.
use vstd::prelude::*;
use vstd::utf8::encode_utf8;
use crate::codec::{hex_encode, hex_lower, hmac_sha256, hmac_sha256_tag, utf8_lossy, utf8_lossy_bytes};
use crate::stripe::StripeError;
use crate::text::{chars_of, owned, string_of};

verus! {

/// `char::is_whitespace`: the characters with the Unicode `White_Space` property.
pub open spec fn is_white_space(c: char) -> bool {
    ||| ('\u{9}' <= c <= '\u{d}')
    ||| c == ' '
    ||| c == '\u{85}'
    ||| c == '\u{a0}'
    ||| c == '\u{1680}'
    ||| ('\u{2000}' <= c <= '\u{200a}')
    ||| c == '\u{2028}'
    ||| c == '\u{2029}'
    ||| c == '\u{202f}'
    ||| c == '\u{205f}'
    ||| c == '\u{3000}'
}

pub open spec fn trim_start_ws(s: Seq<char>) -> Seq<char>
    decreases s.len(),
{
    if s.len() > 0 && is_white_space(s[0]) {
        trim_start_ws(s.drop_first())
    } else {
        s
    }
}

pub open spec fn trim_end_ws(s: Seq<char>) -> Seq<char>
    decreases s.len(),
{
    if s.len() > 0 && is_white_space(s.last()) {
        trim_end_ws(s.drop_last())
    } else {
        s
    }
}

/// `str::trim`.
pub open spec fn trim_ws(s: Seq<char>) -> Seq<char> {
    trim_end_ws(trim_start_ws(s))
}

/// `str::split` on a character: the pieces between separators, always at least one.
pub open spec fn split_on(s: Seq<char>, sep: char) -> Seq<Seq<char>>
    decreases s.len(),
{
    if s.len() == 0 {
        seq![seq![]]
    } else {
        let r = split_on(s.drop_last(), sep);
        if s.last() == sep {
            r.push(seq![])
        } else {
            r.update(r.len() - 1, r.last().push(s.last()))
        }
    }
}

pub open spec fn first_index_is(s: Seq<char>, c: char, i: int) -> bool {
    0 <= i < s.len() && s[i] == c && forall|j: int| 0 <= j < i ==> s[j] != c
}

/// `splitn(2, '=')` when it gives two parts: the text before the first `=` and after it.
pub open spec fn key_value(item: Seq<char>) -> Option<(Seq<char>, Seq<char>)> {
    if exists|i: int| first_index_is(item, '=', i) {
        let i = choose|i: int| first_index_is(item, '=', i);
        Some((item.take(i), item.skip(i + 1)))
    } else {
        None
    }
}

/// The last `t` value and all `v1` values of the items, in order.
pub open spec fn fold_fields(items: Seq<Seq<char>>) -> (Option<Seq<char>>, Seq<Seq<char>>)
    decreases items.len(),
{
    if items.len() == 0 {
        (None, seq![])
    } else {
        let (t, v) = fold_fields(items.drop_last());
        match key_value(trim_ws(items.last())) {
            Some((k, val)) => if k == seq!['t'] {
                (Some(val), v)
            } else if k == seq!['v', '1'] {
                (t, v.push(val))
            } else {
                (t, v)
            },
            None => (t, v),
        }
    }
}

pub open spec fn signature_fields(h: Seq<char>) -> (Option<Seq<char>>, Seq<Seq<char>>) {
    fold_fields(split_on(h, ','))
}

pub open spec fn is_digit(c: char) -> bool {
    '0' <= c <= '9'
}

pub open spec fn all_digits(s: Seq<char>) -> bool {
    forall|i: int| 0 <= i < s.len() ==> is_digit(#[trigger] s[i])
}

pub open spec fn digits_value(s: Seq<char>) -> int
    decreases s.len(),
{
    if s.len() == 0 {
        0
    } else {
        digits_value(s.drop_last()) * 10 + (s.last() as int - '0' as int)
    }
}

/// `i64::from_str`: an optional sign, then one or more ASCII digits, within range.
pub open spec fn parse_i64(s: Seq<char>) -> Option<int> {
    if s.len() == 0 {
        None
    } else {
        let neg = s[0] == '-';
        let body = if s[0] == '-' || s[0] == '+' {
            s.drop_first()
        } else {
            s
        };
        if body.len() == 0 || !all_digits(body) {
            None
        } else {
            let v = if neg {
                -digits_value(body)
            } else {
                digits_value(body)
            };
            if i64::MIN <= v <= i64::MAX {
                Some(v)
            } else {
                None
            }
        }
    }
}

/// The bytes that are signed: the timestamp text, a dot, and the body read as UTF-8.
pub open spec fn signed_payload(ts: Seq<char>, payload: Seq<u8>) -> Seq<u8> {
    encode_utf8(ts) + seq![0x2eu8] + utf8_lossy_bytes(payload)
}

pub open spec fn expected_signature(secret: Seq<char>, ts: Seq<char>, payload: Seq<u8>) -> Seq<u8> {
    encode_utf8(hex_lower(hmac_sha256_tag(encode_utf8(secret), signed_payload(ts, payload))))
}

/// `None` when the signature checks out, otherwise the reason it does not.
pub open spec fn signature_verdict(payload: Seq<u8>, header: Option<Seq<char>>, secret: Seq<char>) -> Option<Seq<char>> {
    match header {
        None => Some("Missing Stripe-Signature header"@),
        Some(h) => {
            let (t, v1) = signature_fields(h);
            match t {
                None => Some("Missing timestamp 't' in Stripe-Signature"@),
                Some(ts) => if parse_i64(ts) is None {
                    Some("Invalid timestamp format in Stripe-Signature"@)
                } else if v1.len() == 0 {
                    Some("Missing v1 signature in Stripe-Signature"@)
                } else if exists|i: int|
                    0 <= i < v1.len() && encode_utf8(#[trigger] v1[i]) == expected_signature(
                        secret,
                        ts,
                        payload,
                    ) {
                    None
                } else {
                    Some("Signature mismatch"@)
                },
            }
        },
    }
}

/// Compares two byte strings in time that depends only on their length.
pub fn constant_time_eq(a: &[u8], b: &[u8]) -> (r: bool)
    ensures
        r == (a@ == b@),
{
    if a.len() != b.len() {
        return false;
    }
    let mut result: u8 = 0;
    let mut i: usize = 0;
    while i < a.len()
        invariant
            a@.len() == b@.len(),
            0 <= i <= a@.len(),
            (result == 0) == (forall|k: int| 0 <= k < i ==> a@[k] == b@[k]),
        decreases a@.len() - i,
    {
        let x = a[i];
        let y = b[i];
        let old_result = result;
        result = result | (x ^ y);
        assert((old_result | (x ^ y)) == 0 <==> (old_result == 0 && x == y)) by (bit_vector);
        i += 1;
    }
    if result == 0 {
        assert(a@ =~= b@);
    }
    result == 0
}

fn is_ws(c: char) -> (b: bool)
    ensures
        b == is_white_space(c),
{
    ('\u{9}' <= c && c <= '\u{d}') || c == ' ' || c == '\u{85}' || c == '\u{a0}' || c == '\u{1680}'
        || ('\u{2000}' <= c && c <= '\u{200a}') || c == '\u{2028}' || c == '\u{2029}' || c
        == '\u{202f}' || c == '\u{205f}' || c == '\u{3000}'
}

proof fn lemma_trim_start(s: Seq<char>, a: int)
    requires
        0 <= a <= s.len(),
        forall|j: int| 0 <= j < a ==> is_white_space(#[trigger] s[j]),
        a < s.len() ==> !is_white_space(s[a]),
    ensures
        trim_start_ws(s) == s.skip(a),
    decreases a,
{
    if a == 0 {
        assert(s.skip(0) =~= s);
    } else {
        lemma_trim_start(s.drop_first(), a - 1);
        assert(s.drop_first().skip(a - 1) =~= s.skip(a));
    }
}

proof fn lemma_trim_end(s: Seq<char>, b: int)
    requires
        0 <= b <= s.len(),
        forall|j: int| b <= j < s.len() ==> is_white_space(#[trigger] s[j]),
        b > 0 ==> !is_white_space(s[b - 1]),
    ensures
        trim_end_ws(s) == s.take(b),
    decreases s.len() - b,
{
    if b == s.len() {
        assert(s.take(b) =~= s);
    } else {
        lemma_trim_end(s.drop_last(), b);
        assert(s.drop_last().take(b) =~= s.take(b));
    }
}

fn trim_chars(s: &Vec<char>) -> (t: Vec<char>)
    ensures
        t@ == trim_ws(s@),
{
    let mut a: usize = 0;
    while a < s.len() && is_ws(s[a])
        invariant
            0 <= a <= s@.len(),
            forall|j: int| 0 <= j < a ==> is_white_space(#[trigger] s@[j]),
        decreases s@.len() - a,
    {
        a += 1;
    }
    proof {
        lemma_trim_start(s@, a as int);
    }
    let ghost u = s@.skip(a as int);
    let mut b: usize = s.len();
    while b > a && is_ws(s[b - 1])
        invariant
            a <= b <= s@.len(),
            forall|j: int| b <= j < s@.len() ==> is_white_space(#[trigger] s@[j]),
        decreases b,
    {
        b -= 1;
    }
    proof {
        assert forall|j: int| b - a <= j < u.len() implies is_white_space(#[trigger] u[j]) by {
            assert(u[j] == s@[j + a]);
        }
        if b > a {
            assert(u[b - a - 1] == s@[b - 1]);
        }
        lemma_trim_end(u, (b - a) as int);
    }
    let mut t: Vec<char> = Vec::new();
    let mut k: usize = a;
    while k < b
        invariant
            a <= k <= b <= s@.len(),
            t@ == s@.subrange(a as int, k as int),
        decreases b - k,
    {
        t.push(s[k]);
        assert(s@.subrange(a as int, k + 1) =~= s@.subrange(a as int, k as int).push(s@[k as int]));
        k += 1;
    }
    assert(t@ =~= u.take(b - a));
    t
}

fn split_commas(s: &Vec<char>) -> (pieces: Vec<Vec<char>>)
    ensures
        pieces@.map_values(|p: Vec<char>| p@) == split_on(s@, ','),
{
    let mut pieces: Vec<Vec<char>> = Vec::new();
    let mut cur: Vec<char> = Vec::new();
    let mut i: usize = 0;
    assert(s@.take(0) =~= Seq::<char>::empty());
    while i < s.len()
        invariant
            0 <= i <= s@.len(),
            pieces@.map_values(|p: Vec<char>| p@).push(cur@) == split_on(s@.take(i as int), ','),
        decreases s@.len() - i,
    {
        let c = s[i];
        let ghost before = pieces@.map_values(|p: Vec<char>| p@).push(cur@);
        assert(s@.take(i + 1).drop_last() =~= s@.take(i as int));
        if c == ',' {
            let done = cur;
            pieces.push(done);
            cur = Vec::new();
            assert(pieces@.map_values(|p: Vec<char>| p@).push(cur@) =~= before.push(seq![]));
        } else {
            cur.push(c);
            assert(pieces@.map_values(|p: Vec<char>| p@).push(cur@) =~= before.update(
                before.len() - 1,
                before.last().push(c),
            ));
        }
        i += 1;
    }
    assert(s@.take(s@.len() as int) =~= s@);
    let ghost before = pieces@.map_values(|p: Vec<char>| p@).push(cur@);
    pieces.push(cur);
    assert(pieces@.map_values(|p: Vec<char>| p@) =~= before);
    pieces
}

fn key_value_of(item: &Vec<char>) -> (r: Option<(Vec<char>, Vec<char>)>)
    ensures
        match key_value(item@) {
            Some((k, v)) => r matches Some(x) && x.0@ == k && x.1@ == v,
            None => r is None,
        },
{
    let mut i: usize = 0;
    while i < item.len() && item[i] != '='
        invariant
            0 <= i <= item@.len(),
            forall|j: int| 0 <= j < i ==> item@[j] != '=',
        decreases item@.len() - i,
    {
        i += 1;
    }
    if i == item.len() {
        assert(!exists|k: int| first_index_is(item@, '=', k));
        return None;
    }
    assert(first_index_is(item@, '=', i as int));
    proof {
        let c = choose|k: int| first_index_is(item@, '=', k);
        assert(c == i) by {
            if c < i {
            } else if c > i {
            }
        }
    }
    let mut k: Vec<char> = Vec::new();
    let mut j: usize = 0;
    while j < i
        invariant
            0 <= j <= i < item@.len(),
            k@ == item@.take(j as int),
        decreases i - j,
    {
        k.push(item[j]);
        assert(item@.take(j + 1) =~= item@.take(j as int).push(item@[j as int]));
        j += 1;
    }
    let mut v: Vec<char> = Vec::new();
    let mut m: usize = i + 1;
    while m < item.len()
        invariant
            i + 1 <= m <= item@.len(),
            v@ == item@.subrange(i + 1, m as int),
        decreases item@.len() - m,
    {
        v.push(item[m]);
        assert(item@.subrange(i + 1, m + 1) =~= item@.subrange(i + 1, m as int).push(item@[m as int]));
        m += 1;
    }
    assert(v@ =~= item@.skip(i + 1));
    Some((k, v))
}

fn is_t_key(k: &Vec<char>) -> (b: bool)
    ensures
        b == (k@ == seq!['t']),
{
    let r = k.len() == 1 && k[0] == 't';
    if r {
        assert(k@ =~= seq!['t']);
    }
    r
}

fn is_v1_key(k: &Vec<char>) -> (b: bool)
    ensures
        b == (k@ == seq!['v', '1']),
{
    let r = k.len() == 2 && k[0] == 'v' && k[1] == '1';
    if r {
        assert(k@ =~= seq!['v', '1']);
    }
    r
}

fn header_fields(h: &str) -> (r: (Option<Vec<char>>, Vec<Vec<char>>))
    ensures
        ({
            let (t, v) = signature_fields(h@);
            &&& match t {
                Some(x) => r.0 matches Some(y) && y@ == x,
                None => r.0 is None,
            }
            &&& r.1@.map_values(|p: Vec<char>| p@) == v
        }),
{
    let chars = chars_of(h);
    let items = split_commas(&chars);
    let ghost spec_items = items@.map_values(|p: Vec<char>| p@);
    let mut t: Option<Vec<char>> = None;
    let mut v1: Vec<Vec<char>> = Vec::new();
    let mut i: usize = 0;
    assert(spec_items.take(0) =~= Seq::<Seq<char>>::empty());
    while i < items.len()
        invariant
            0 <= i <= items@.len(),
            spec_items == items@.map_values(|p: Vec<char>| p@),
            spec_items == split_on(h@, ','),
            ({
                let (ft, fv) = fold_fields(spec_items.take(i as int));
                &&& match ft {
                    Some(x) => t matches Some(y) && y@ == x,
                    None => t is None,
                }
                &&& v1@.map_values(|p: Vec<char>| p@) == fv
            }),
        decreases items@.len() - i,
    {
        let trimmed = trim_chars(&items[i]);
        assert(spec_items.take(i + 1).drop_last() =~= spec_items.take(i as int));
        assert(spec_items.take(i + 1).last() == items@[i as int]@);
        let ghost old_v1 = v1@.map_values(|p: Vec<char>| p@);
        match key_value_of(&trimmed) {
            Some((k, val)) => {
                if is_t_key(&k) {
                    t = Some(val);
                } else if is_v1_key(&k) {
                    v1.push(val);
                    assert(v1@.map_values(|p: Vec<char>| p@) =~= old_v1.push(val@));
                }
            },
            None => {},
        }
        i += 1;
    }
    assert(spec_items.take(items@.len() as int) =~= spec_items);
    (t, v1)
}

proof fn lemma_digits_grow(s: Seq<char>, k: int)
    requires
        0 <= k <= s.len(),
        all_digits(s),
    ensures
        digits_value(s) >= digits_value(s.take(k)),
        digits_value(s.take(k)) >= 0,
    decreases s.len() - k,
{
    if k == s.len() {
        assert(s.take(k) =~= s);
        lemma_digits_nonneg(s);
    } else {
        lemma_digits_grow(s, k + 1);
        assert(s.take(k + 1).drop_last() =~= s.take(k));
        lemma_digits_nonneg(s.take(k));
    }
}

proof fn lemma_digits_nonneg(s: Seq<char>)
    requires
        all_digits(s),
    ensures
        digits_value(s) >= 0,
    decreases s.len(),
{
    if s.len() > 0 {
        assert(all_digits(s.drop_last()));
        lemma_digits_nonneg(s.drop_last());
    }
}

/// Whether `i64::from_str` accepts the text.
/// `i64::from_str` of the characters.
pub fn parse_i64_chars(s: &Vec<char>) -> (r: Option<i64>)
    ensures
        match parse_i64(s@) {
            Some(v) => r == Some(v as i64),
            None => r is None,
        },
{
    if s.len() == 0 {
        return None;
    }
    let neg = s[0] == '-';
    let start: usize = if s[0] == '-' || s[0] == '+' {
        1
    } else {
        0
    };
    let ghost body = if s@[0] == '-' || s@[0] == '+' {
        s@.drop_first()
    } else {
        s@
    };
    assert(body =~= s@.skip(start as int));
    if start == s.len() {
        return None;
    }
    let mut acc: u128 = 0;
    let mut i: usize = start;
    while i < s.len()
        invariant
            start <= i <= s@.len(),
            s@.len() > 0,
            start < s@.len(),
            start as int == (if s@[0] == '-' || s@[0] == '+' { 1int } else { 0int }),
            neg == (s@[0] == '-'),
            body == s@.skip(start as int),
            all_digits(body.take(i - start)),
            acc as int == digits_value(body.take(i - start)),
            acc <= 9_223_372_036_854_775_808,
        decreases s@.len() - i,
    {
        let c = s[i];
        if !('0' <= c && c <= '9') {
            assert(!all_digits(body)) by {
                assert(body[i - start] == c);
                assert(!is_digit(body[i - start]));
            }
            return None;
        }
        let d = (c as u32 - '0' as u32) as u128;
        assert(body.take(i + 1 - start).drop_last() =~= body.take(i - start));
        assert(body.take(i + 1 - start).last() == c);
        acc = acc * 10 + d;
        assert(acc as int == digits_value(body.take(i + 1 - start)));
        assert(all_digits(body.take(i + 1 - start))) by {
            assert forall|j: int| 0 <= j < i + 1 - start implies is_digit(#[trigger] body.take(i + 1 - start)[j]) by {
                if j < i - start {
                    assert(body.take(i + 1 - start)[j] == body.take(i - start)[j]);
                }
            }
        }
        if acc > 9_223_372_036_854_775_808 {
            proof {
                assert(body =~= (if s@[0] == '-' || s@[0] == '+' { s@.drop_first() } else { s@ }));
                if all_digits(body) {
                    lemma_digits_grow(body, i + 1 - start);
                    assert(digits_value(body) > 9_223_372_036_854_775_808);
                }
            }
            return None;
        }
        i += 1;
    }
    assert(body.take(s@.len() - start) =~= body);
    let limit: u128 = if neg {
        9_223_372_036_854_775_808
    } else {
        9_223_372_036_854_775_807
    };
    if acc <= limit {
        assert(body.take(s@.len() - start) =~= body);
        if neg {
            Some((-(acc as i128)) as i64)
        } else {
            Some(acc as i64)
        }
    } else {
        None
    }
}

/// Verifies the signature of an incoming Stripe webhook request: `Ok` exactly when the
/// header is present, names a timestamp `t` that parses as an `i64` and at least one
/// `v1` signature, and some `v1` equals the expected signature.
pub fn verify_stripe_signature(payload_bytes: &[u8], sig_header: Option<&str>, secret: &str) -> (res: Result<(), StripeError>)
    ensures
        match signature_verdict(
            payload_bytes@,
            match sig_header {
                Some(h) => Some(h@),
                None => None,
            },
            secret@,
        ) {
            None => res is Ok,
            Some(m) => res matches Err(StripeError::WebhookSignatureError(x)) && x@ == m,
        },
{
    let h = match sig_header {
        None => {
            return Err(StripeError::WebhookSignatureError(owned("Missing Stripe-Signature header")));
        },
        Some(h) => h,
    };
    let (t, v1) = header_fields(h);
    let ts = match t {
        None => {
            return Err(
                StripeError::WebhookSignatureError(owned("Missing timestamp 't' in Stripe-Signature")),
            );
        },
        Some(ts) => ts,
    };
    if parse_i64_chars(&ts).is_none() {
        return Err(
            StripeError::WebhookSignatureError(owned("Invalid timestamp format in Stripe-Signature")),
        );
    }
    if v1.len() == 0 {
        return Err(
            StripeError::WebhookSignatureError(owned("Missing v1 signature in Stripe-Signature")),
        );
    }
    let ts_text = string_of(ts.as_slice());
    let mut msg: Vec<u8> = Vec::new();
    msg.extend_from_slice(ts_text.as_str().as_bytes());
    msg.push(0x2e);
    let body = utf8_lossy(payload_bytes);
    msg.extend_from_slice(body.as_slice());
    assert(msg@ =~= signed_payload(ts@, payload_bytes@));
    let tag = hmac_sha256(secret.as_bytes(), msg.as_slice());
    let calculated = hex_encode(tag.as_slice());
    let expected = calculated.as_str().as_bytes();
    let ghost fv = v1@.map_values(|p: Vec<char>| p@);
    let mut i: usize = 0;
    while i < v1.len()
        invariant
            0 <= i <= v1@.len(),
            fv == v1@.map_values(|p: Vec<char>| p@),
            fv == signature_fields(h@).1,
            signature_fields(h@).0 == Some(ts@),
            parse_i64(ts@) is Some,
            sig_header == Some(h),
            expected@ == expected_signature(secret@, ts@, payload_bytes@),
            forall|k: int| 0 <= k < i ==> encode_utf8(#[trigger] fv[k]) != expected@,
        decreases v1@.len() - i,
    {
        let provided = string_of(v1[i].as_slice());
        if constant_time_eq(expected, provided.as_str().as_bytes()) {
            assert(encode_utf8(fv[i as int]) == expected@);
            return Ok(());
        }
        i += 1;
    }
    Err(StripeError::WebhookSignatureError(owned("Signature mismatch")))
}

} // verus!
