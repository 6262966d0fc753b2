//! Text helpers: characters of a string, decimal numerals, substrings, and building
//! strings from pieces.
use vstd::prelude::*;

verus! {

broadcast use vstd::string::axiom_spec_iter;

/// Appends one character (`String::push`).
#[verifier::external_body]
pub(crate) fn push_char(s: &mut String, c: char)
    ensures
        final(s)@ == old(s)@.push(c),
{
    s.push(c);
}

/// The characters of `s`, in order.
pub fn chars_of(s: &str) -> (v: Vec<char>)
    ensures
        v@ == s@,
{
    let mut v: Vec<char> = Vec::new();
    for c in it: s.chars()
        invariant
            v@ == it.seq().take(it.index() as int),
            it.seq() == s@,
    {
        v.push(c);
    }
    v
}

/// The string made of `v`'s characters.
pub fn string_of(v: &[char]) -> (s: String)
    ensures
        s@ == v@,
{
    let mut s = String::new();
    let mut i: usize = 0;
    while i < v.len()
        invariant
            0 <= i <= v@.len(),
            s@ == v@.take(i as int),
        decreases v@.len() - i,
    {
        push_char(&mut s, v[i]);
        assert(v@.take(i + 1) =~= v@.take(i as int).push(v@[i as int]));
        i += 1;
    }
    assert(v@.take(v@.len() as int) =~= v@);
    s
}

/// A copy of a string literal or slice.
pub fn owned(s: &str) -> (r: String)
    ensures
        r@ == s@,
{
    s.to_owned()
}

/// The concatenation of two strings.
pub fn concat(a: &str, b: &str) -> (r: String)
    ensures
        r@ == a@ + b@,
{
    let mut r = a.to_owned();
    r.append(b);
    r
}


pub open spec fn digit_char(d: int) -> char {
    if d == 0 {
        '0'
    } else if d == 1 {
        '1'
    } else if d == 2 {
        '2'
    } else if d == 3 {
        '3'
    } else if d == 4 {
        '4'
    } else if d == 5 {
        '5'
    } else if d == 6 {
        '6'
    } else if d == 7 {
        '7'
    } else if d == 8 {
        '8'
    } else {
        '9'
    }
}

/// Decimal numeral of a natural number, as `Display` writes it.
pub open spec fn nat_text(n: nat) -> Seq<char>
    decreases n,
{
    if n < 10 {
        seq![digit_char(n as int)]
    } else {
        nat_text((n / 10) as nat).push(digit_char((n % 10) as int))
    }
}

/// Decimal numeral of an integer, with a minus sign when negative.
pub open spec fn int_text(n: int) -> Seq<char> {
    if n < 0 {
        seq!['-'] + nat_text((-n) as nat)
    } else {
        nat_text(n as nat)
    }
}

fn digit(d: u128) -> (c: char)
    requires
        d < 10,
    ensures
        c == digit_char(d as int),
{
    if d == 0 {
        '0'
    } else if d == 1 {
        '1'
    } else if d == 2 {
        '2'
    } else if d == 3 {
        '3'
    } else if d == 4 {
        '4'
    } else if d == 5 {
        '5'
    } else if d == 6 {
        '6'
    } else if d == 7 {
        '7'
    } else if d == 8 {
        '8'
    } else {
        '9'
    }
}

fn nat_chars(n: u128) -> (v: Vec<char>)
    ensures
        v@ == nat_text(n as nat),
    decreases n,
{
    if n < 10 {
        let mut v = Vec::new();
        v.push(digit(n));
        assert(v@ =~= seq![digit_char(n as int)]);
        v
    } else {
        let mut v = nat_chars(n / 10);
        v.push(digit(n % 10));
        v
    }
}

/// `to_string` of a signed integer.
pub fn int_to_string(n: i128) -> (s: String)
    requires
        n > i128::MIN,
    ensures
        s@ == int_text(n as int),
{
    if n < 0 {
        let v = nat_chars((-n) as u128);
        let mut s = String::new();
        push_char(&mut s, '-');
        let t = string_of(v.as_slice());
        s.append(t.as_str());
        assert(s@ =~= seq!['-'] + nat_text((-n) as nat));
        s
    } else {
        let v = nat_chars(n as u128);
        string_of(v.as_slice())
    }
}

/// Whether `needle` occurs in `hay` at position `i`.
pub open spec fn occurs_at(hay: Seq<char>, needle: Seq<char>, i: int) -> bool {
    0 <= i && i + needle.len() <= hay.len() && hay.subrange(i, i + needle.len()) == needle
}

/// `str::contains` with a string pattern.
pub open spec fn has_substring(hay: Seq<char>, needle: Seq<char>) -> bool {
    exists|i: int| occurs_at(hay, needle, i)
}

pub fn contains_text(hay: &str, needle: &str) -> (b: bool)
    ensures
        b == has_substring(hay@, needle@),
{
    let h = chars_of(hay);
    let n = chars_of(needle);
    if n.len() > h.len() {
        assert forall|i: int| !occurs_at(h@, n@, i) by {}
        return false;
    }
    let mut i: usize = 0;
    while i <= h.len() - n.len()
        invariant
            h@ == hay@,
            n@ == needle@,
            n@.len() <= h@.len(),
            0 <= i <= h@.len() - n@.len() + 1,
            forall|k: int| 0 <= k < i ==> !occurs_at(h@, n@, k),
        decreases h@.len() - i,
    {
        let mut j: usize = 0;
        let mut same = true;
        while j < n.len()
            invariant
                0 <= j <= n@.len(),
                i + n@.len() <= h@.len(),
                h@.len() == h.len(),
                n@.len() == n.len(),
                same == forall|k: int| 0 <= k < j ==> h@[i + k] == n@[k],
            decreases n@.len() - j,
        {
            if h[i + j] != n[j] {
                same = false;
            }
            j += 1;
        }
        if same {
            assert(h@.subrange(i as int, i + n@.len()) =~= n@);
            assert(occurs_at(h@, n@, i as int));
            return true;
        }
        assert(!occurs_at(h@, n@, i as int)) by {
            if occurs_at(h@, n@, i as int) {
                assert forall|k: int| 0 <= k < n@.len() implies h@[i + k] == n@[k] by {
                    assert(h@.subrange(i as int, i + n@.len())[k] == h@[i + k]);
                }
            }
        }
        i += 1;
    }
    assert forall|k: int| !occurs_at(h@, n@, k) by {
        if 0 <= k < i {
        }
    }
    false
}

/// Whether two strings hold the same characters.
pub fn same_text(a: &str, b: &str) -> (r: bool)
    ensures
        r == (a@ == b@),
{
    let x = chars_of(a);
    let y = chars_of(b);
    if x.len() != y.len() {
        return false;
    }
    let mut i: usize = 0;
    while i < x.len()
        invariant
            x@ == a@,
            y@ == b@,
            x@.len() == y@.len(),
            0 <= i <= x@.len(),
            forall|k: int| 0 <= k < i ==> x@[k] == y@[k],
        decreases x@.len() - i,
    {
        if x[i] != y[i] {
            return false;
        }
        i += 1;
    }
    assert(x@ =~= y@);
    true
}


/// `str::to_lowercase`: each character replaced by its Unicode lowercase mapping.
pub uninterp spec fn lowercase_text(s: Seq<char>) -> Seq<char>;

/// ASCII lowercase of one character.
pub open spec fn ascii_lower(c: char) -> char {
    if 'A' <= c <= 'Z' {
        ((c as int) + 32) as char
    } else {
        c
    }
}

/// `str::to_lowercase`. The result is named; for ASCII text the contract states what the
/// documentation gives: each letter `A`..`Z` becomes `a`..`z`, every other character stays.
#[verifier::external_body]
pub(crate) fn to_lowercase(s: &str) -> (r: String)
    ensures
        r@ == lowercase_text(s@),
        (forall|i: int| 0 <= i < s@.len() ==> (#[trigger] s@[i]) < '\u{80}') ==> r@ == s@.map_values(
            |c: char| ascii_lower(c),
        ),
{
    s.to_lowercase()
}

} // verus!
