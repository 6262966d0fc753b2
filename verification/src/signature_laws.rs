//! What holds of Stripe signature headers: a header that carries the signature of the
//! body under the secret is accepted, one matching `v1` among several suffices, wrong
//! ones are a mismatch, and items with other keys change nothing.
use vstd::prelude::*;
use vstd::utf8::encode_utf8;
use crate::codec::{hex_digit, hex_lower, hmac_sha256_tag};
use crate::stripe_signature::{
    all_digits, expected_signature, first_index_is, fold_fields, is_digit, is_white_space, key_value, parse_i64,
    signature_fields, signature_verdict, signed_payload, split_on, trim_end_ws, trim_start_ws, trim_ws,
};

verus! {

/// The `Stripe-Signature` header of a request signed at `ts` with signature `sig`.
pub open spec fn stripe_header(ts: Seq<char>, sig: Seq<char>) -> Seq<char> {
    "t="@ + ts + ",v1="@ + sig
}

/// A character that ends no item and is no whitespace.
pub open spec fn plain_char(c: char) -> bool {
    c != ',' && !is_white_space(c)
}

pub open spec fn plain(s: Seq<char>) -> bool {
    forall|i: int| 0 <= i < s.len() ==> plain_char(#[trigger] s[i])
}

proof fn lemma_split_plain(s: Seq<char>)
    requires
        forall|i: int| 0 <= i < s.len() ==> #[trigger] s[i] != ',',
    ensures
        split_on(s, ',') == seq![s],
    decreases s.len(),
{
    if s.len() > 0 {
        lemma_split_plain(s.drop_last());
        assert(s[s.len() - 1] != ',');
        assert(s.drop_last().push(s.last()) =~= s);
        assert(seq![s.drop_last()].update(0, s.drop_last().push(s.last())) =~= seq![s]);
    } else {
        assert(s =~= Seq::<char>::empty());
    }
}

proof fn lemma_split_append(a: Seq<char>, b: Seq<char>)
    requires
        forall|i: int| 0 <= i < b.len() ==> #[trigger] b[i] != ',',
    ensures
        split_on(a + seq![','] + b, ',') == split_on(a, ',').push(b),
    decreases b.len(),
{
    let s = a + seq![','] + b;
    if b.len() == 0 {
        assert(s =~= a.push(','));
        assert(s.drop_last() =~= a);
        assert(b =~= Seq::<char>::empty());
    } else {
        lemma_split_append(a, b.drop_last());
        assert(s.drop_last() =~= a + seq![','] + b.drop_last());
        assert(s.last() == b.last());
        assert(b[b.len() - 1] != ',');
        let r = split_on(a, ',').push(b.drop_last());
        assert(b.drop_last().push(b.last()) =~= b);
        assert(r.last() == b.drop_last());
        assert(r.update(r.len() - 1, r.last().push(b.last())) =~= split_on(a, ',').push(b));
    }
}

proof fn lemma_trim_plain(s: Seq<char>)
    requires
        s.len() > 0,
        !is_white_space(s[0]),
        !is_white_space(s.last()),
    ensures
        trim_ws(s) == s,
{
    assert(trim_start_ws(s) == s);
    assert(trim_end_ws(s) == s);
}

proof fn lemma_key_at(s: Seq<char>, i: int)
    requires
        first_index_is(s, '=', i),
    ensures
        key_value(s) == Some((s.take(i), s.skip(i + 1))),
{
    let c = choose|k: int| first_index_is(s, '=', k);
    assert(first_index_is(s, '=', c));
    assert(c == i) by {
        if c < i {
            assert(s[c] == '=');
        } else if c > i {
            assert(s[i] == '=');
        }
    }
}

proof fn lemma_hex_plain(b: Seq<u8>)
    ensures
        plain(hex_lower(b)),
    decreases b.len(),
{
    if b.len() > 0 {
        lemma_hex_plain(b.drop_last());
        let h = hex_lower(b.drop_last());
        let t = seq![hex_digit(b.last() as int / 16), hex_digit(b.last() as int % 16)];
        assert(hex_lower(b) == h + t);
        assert forall|i: int| 0 <= i < hex_lower(b).len() implies plain_char(#[trigger] hex_lower(b)[i]) by {
            if i >= h.len() {
                let d = if i == h.len() {
                    b.last() as int / 16
                } else {
                    b.last() as int % 16
                };
                assert(hex_lower(b)[i] == hex_digit(d));
            }
        }
    }
}

proof fn lemma_timestamp_plain(ts: Seq<char>)
    requires
        parse_i64(ts) is Some,
    ensures
        plain(ts),
        ts.len() > 0,
{
    let body = if ts[0] == '-' || ts[0] == '+' {
        ts.drop_first()
    } else {
        ts
    };
    assert(all_digits(body));
    assert forall|i: int| 0 <= i < ts.len() implies plain_char(#[trigger] ts[i]) by {
        if ts[0] == '-' || ts[0] == '+' {
            if i > 0 {
                assert(ts[i] == body[i - 1]);
                assert(is_digit(body[i - 1]));
            }
        } else {
            assert(is_digit(body[i]));
        }
    }
}

/// A request whose `Stripe-Signature` header names, with a timestamp that reads as an
/// `i64`, the lowercase hex HMAC-SHA256 of the timestamp, a dot and the body under the
/// secret is accepted.
pub proof fn law_signed_header_verifies(payload: Seq<u8>, secret: Seq<char>, ts: Seq<char>)
    requires
        parse_i64(ts) is Some,
    ensures
        signature_verdict(
            payload,
            Some(stripe_header(ts, hex_lower(hmac_sha256_tag(encode_utf8(secret), signed_payload(ts, payload))))),
            secret,
        ) is None,
{
    let sig = hex_lower(hmac_sha256_tag(encode_utf8(secret), signed_payload(ts, payload)));
    lemma_timestamp_plain(ts);
    lemma_hex_plain(hmac_sha256_tag(encode_utf8(secret), signed_payload(ts, payload)));
    reveal_strlit("t=");
    reveal_strlit(",v1=");
    let t_item = seq!['t', '='] + ts;
    let v_item = seq!['v', '1', '='] + sig;
    let h = stripe_header(ts, sig);
    assert(h =~= t_item + seq![','] + v_item);
    assert forall|i: int| 0 <= i < v_item.len() implies #[trigger] v_item[i] != ',' by {
        if i >= 3 {
            assert(v_item[i] == sig[i - 3]);
            assert(plain_char(sig[i - 3]));
        }
    }
    assert forall|i: int| 0 <= i < t_item.len() implies #[trigger] t_item[i] != ',' by {
        if i >= 2 {
            assert(t_item[i] == ts[i - 2]);
            assert(plain_char(ts[i - 2]));
        }
    }
    lemma_split_append(t_item, v_item);
    lemma_split_plain(t_item);
    let items = split_on(h, ',');
    assert(items =~= seq![t_item, v_item]);
    assert(t_item.last() == ts.last());
    assert(plain_char(ts[ts.len() - 1]));
    lemma_trim_plain(t_item);
    if sig.len() > 0 {
        assert(v_item.last() == sig.last());
        assert(plain_char(sig[sig.len() - 1]));
    }
    lemma_trim_plain(v_item);
    assert(first_index_is(t_item, '=', 1));
    lemma_key_at(t_item, 1);
    assert(t_item.take(1) =~= seq!['t']);
    assert(t_item.skip(2) =~= ts);
    assert(first_index_is(v_item, '=', 2));
    lemma_key_at(v_item, 2);
    assert(v_item.take(2) =~= seq!['v', '1']);
    assert(v_item.skip(3) =~= sig);
    assert(seq!['v', '1'] != seq!['t']) by {
        assert(seq!['v', '1'].len() != seq!['t'].len());
    }
    assert(items.drop_last() =~= seq![t_item]);
    assert(seq![t_item].drop_last() =~= Seq::<Seq<char>>::empty());
    assert(seq![t_item].last() == t_item);
    assert(fold_fields(Seq::<Seq<char>>::empty()) == (None::<Seq<char>>, Seq::<Seq<char>>::empty()));
    assert(key_value(trim_ws(t_item)) == Some((seq!['t'], ts)));
    assert(fold_fields(seq![t_item]) == (Some(ts), Seq::<Seq<char>>::empty()));
    assert(fold_fields(items) == (Some(ts), seq![sig]));
    assert(signature_fields(h) == (Some(ts), seq![sig]));
    let v1 = seq![sig];
    assert(encode_utf8(v1[0]) == expected_signature(secret, ts, payload));
}

/// The `Stripe-Signature` header of a request signed at `ts` that carries the `v1`
/// signatures `sigs`, in order: `t=ts,v1=s0,v1=s1,...`.
pub open spec fn stripe_header_with(ts: Seq<char>, sigs: Seq<Seq<char>>) -> Seq<char>
    decreases sigs.len(),
{
    if sigs.len() == 0 {
        "t="@ + ts
    } else {
        stripe_header_with(ts, sigs.drop_last()) + ",v1="@ + sigs.last()
    }
}

proof fn lemma_plain_no_comma(s: Seq<char>, pre: Seq<char>)
    requires
        plain(s),
        forall|i: int| 0 <= i < pre.len() ==> #[trigger] pre[i] != ',',
    ensures
        forall|i: int| 0 <= i < (pre + s).len() ==> #[trigger] (pre + s)[i] != ',',
{
    assert forall|i: int| 0 <= i < (pre + s).len() implies #[trigger] (pre + s)[i] != ',' by {
        if i >= pre.len() {
            assert((pre + s)[i] == s[i - pre.len()]);
            assert(plain_char(s[i - pre.len()]));
        }
    }
}

proof fn lemma_header_fields(ts: Seq<char>, sigs: Seq<Seq<char>>)
    requires
        parse_i64(ts) is Some,
        forall|i: int| 0 <= i < sigs.len() ==> plain(#[trigger] sigs[i]),
    ensures
        signature_fields(stripe_header_with(ts, sigs)) == (Some(ts), sigs),
    decreases sigs.len(),
{
    reveal_strlit("t=");
    reveal_strlit(",v1=");
    lemma_timestamp_plain(ts);
    if sigs.len() == 0 {
        let t_item = seq!['t', '='] + ts;
        assert(stripe_header_with(ts, sigs) =~= t_item);
        lemma_plain_no_comma(ts, seq!['t', '=']);
        lemma_split_plain(t_item);
        assert(t_item.last() == ts.last());
        assert(plain_char(ts[ts.len() - 1]));
        lemma_trim_plain(t_item);
        assert(first_index_is(t_item, '=', 1));
        lemma_key_at(t_item, 1);
        assert(t_item.take(1) =~= seq!['t']);
        assert(t_item.skip(2) =~= ts);
        let items = seq![t_item];
        assert(items.drop_last() =~= Seq::<Seq<char>>::empty());
        assert(fold_fields(Seq::<Seq<char>>::empty()) == (None::<Seq<char>>, Seq::<Seq<char>>::empty()));
        assert(fold_fields(items) == (Some(ts), Seq::<Seq<char>>::empty()));
        assert(sigs =~= Seq::<Seq<char>>::empty());
    } else {
        let rest = sigs.drop_last();
        let sig = sigs.last();
        assert forall|i: int| 0 <= i < rest.len() implies plain(#[trigger] rest[i]) by {
            assert(rest[i] == sigs[i]);
        }
        lemma_header_fields(ts, rest);
        assert(plain(sigs[sigs.len() - 1]));
        let prefix = stripe_header_with(ts, rest);
        let v_item = seq!['v', '1', '='] + sig;
        assert(stripe_header_with(ts, sigs) =~= prefix + seq![','] + v_item);
        lemma_plain_no_comma(sig, seq!['v', '1', '=']);
        lemma_split_append(prefix, v_item);
        let items = split_on(stripe_header_with(ts, sigs), ',');
        assert(items.drop_last() =~= split_on(prefix, ','));
        assert(items.last() == v_item);
        if sig.len() > 0 {
            assert(v_item.last() == sig.last());
            assert(plain_char(sig[sig.len() - 1]));
        }
        lemma_trim_plain(v_item);
        assert(first_index_is(v_item, '=', 2));
        lemma_key_at(v_item, 2);
        assert(v_item.take(2) =~= seq!['v', '1']);
        assert(v_item.skip(3) =~= sig);
        assert(seq!['v', '1'] != seq!['t']) by {
            assert(seq!['v', '1'].len() != seq!['t'].len());
        }
        assert(rest.push(sig) =~= sigs);
    }
}

/// One `v1` that holds the body's signature is enough: a header whose timestamp reads as
/// an `i64` and whose `v1` signatures (none holding a comma or whitespace) include the
/// lowercase hex HMAC-SHA256 of the timestamp, a dot and the body under the secret is
/// accepted, whatever the other `v1` signatures are.
pub proof fn law_one_matching_signature_suffices(
    payload: Seq<u8>,
    secret: Seq<char>,
    ts: Seq<char>,
    sigs: Seq<Seq<char>>,
    k: int,
)
    requires
        parse_i64(ts) is Some,
        forall|i: int| 0 <= i < sigs.len() ==> plain(#[trigger] sigs[i]),
        0 <= k < sigs.len(),
        encode_utf8(sigs[k]) == expected_signature(secret, ts, payload),
    ensures
        signature_verdict(payload, Some(stripe_header_with(ts, sigs)), secret) is None,
{
    lemma_header_fields(ts, sigs);
}

/// A header whose timestamp reads as an `i64` and whose `v1` signatures (at least one,
/// none holding a comma or whitespace) all differ from the body's signature is refused
/// with "Signature mismatch".
pub proof fn law_wrong_signatures_mismatch(payload: Seq<u8>, secret: Seq<char>, ts: Seq<char>, sigs: Seq<Seq<char>>)
    requires
        parse_i64(ts) is Some,
        sigs.len() > 0,
        forall|i: int| 0 <= i < sigs.len() ==> plain(#[trigger] sigs[i]),
        forall|i: int| 0 <= i < sigs.len() ==> encode_utf8(#[trigger] sigs[i]) != expected_signature(secret, ts, payload),
    ensures
        signature_verdict(payload, Some(stripe_header_with(ts, sigs)), secret) == Some("Signature mismatch"@),
{
    lemma_header_fields(ts, sigs);
}

/// Items whose key is neither `t` nor `v1` (such as Stripe's `v0`) change nothing: a
/// header followed by one more item `k=x` (no comma, whitespace or `=` in `k`, no comma or
/// whitespace in `x`) gets the verdict that the header alone gets.
pub proof fn law_other_items_ignored(payload: Seq<u8>, secret: Seq<char>, h: Seq<char>, k: Seq<char>, x: Seq<char>)
    requires
        k.len() > 0,
        plain(k),
        plain(x),
        forall|i: int| 0 <= i < k.len() ==> #[trigger] k[i] != '=',
        k != seq!['t'],
        k != seq!['v', '1'],
    ensures
        signature_verdict(payload, Some(h + seq![','] + k + seq!['='] + x), secret) == signature_verdict(
            payload,
            Some(h),
            secret,
        ),
{
    let item = k + seq!['='] + x;
    assert(h + seq![','] + k + seq!['='] + x =~= h + seq![','] + item);
    assert forall|i: int| 0 <= i < item.len() implies #[trigger] item[i] != ',' by {
        if i < k.len() {
            assert(item[i] == k[i]);
            assert(plain_char(k[i]));
        } else if i > k.len() {
            assert(item[i] == x[i - k.len() - 1]);
            assert(plain_char(x[i - k.len() - 1]));
        }
    }
    lemma_split_append(h, item);
    assert(item[0] == k[0]);
    assert(plain_char(k[0]));
    if x.len() > 0 {
        assert(item.last() == x.last());
        assert(plain_char(x[x.len() - 1]));
    }
    lemma_trim_plain(item);
    assert(first_index_is(item, '=', k.len() as int)) by {
        assert forall|j: int| 0 <= j < k.len() implies item[j] != '=' by {
            assert(item[j] == k[j]);
        }
    }
    lemma_key_at(item, k.len() as int);
    assert(item.take(k.len() as int) =~= k);
    assert(item.skip(k.len() as int + 1) =~= x);
    let items = split_on(h, ',');
    assert(items.push(item).drop_last() =~= items);
    assert(items.push(item).last() == item);
    assert(fold_fields(items.push(item)) == fold_fields(items));
}

} // verus!
