//! Byte strings: the order that ranks block identifiers.

use vstd::prelude::*;

verus! {

/// `a` and `b` hold the same bytes at every position before `k`.
pub open spec fn agree_before(a: Seq<u8>, b: Seq<u8>, k: int) -> bool {
    &&& 0 <= k <= a.len()
    &&& k <= b.len()
    &&& forall|i: int| 0 <= i < k ==> a[i] == b[i]
}

/// Byte-lexicographic order: `a` comes strictly before `b` when, at the
/// first position where they part, `a` has ended or holds the smaller byte.
pub open spec fn lex_less(a: Seq<u8>, b: Seq<u8>) -> bool {
    exists|k: int| #[trigger]
        agree_before(a, b, k) && k < b.len() && (k == a.len() || a[k] < b[k])
}

/// No byte string comes before itself.
pub proof fn lemma_lex_irreflexive(a: Seq<u8>)
    ensures
        !lex_less(a, a),
{
}

/// Of two byte strings at most one comes before the other.
pub proof fn lemma_lex_asymmetric(a: Seq<u8>, b: Seq<u8>)
    ensures
        !(lex_less(a, b) && lex_less(b, a)),
{
    if lex_less(a, b) && lex_less(b, a) {
        let k1 = choose|k: int| #[trigger]
            agree_before(a, b, k) && k < b.len() && (k == a.len() || a[k] < b[k]);
        let k2 = choose|k: int| #[trigger]
            agree_before(b, a, k) && k < a.len() && (k == b.len() || b[k] < a[k]);
        if k1 < k2 {
            assert(b[k1] == a[k1]);
        } else if k2 < k1 {
            assert(a[k2] == b[k2]);
        }
    }
}

proof fn lemma_lex_total_from(a: Seq<u8>, b: Seq<u8>, k: int)
    requires
        agree_before(a, b, k),
        a != b,
    ensures
        lex_less(a, b) || lex_less(b, a),
    decreases a.len() - k,
{
    if k < a.len() && k < b.len() && a[k] == b[k] {
        assert(agree_before(a, b, k + 1));
        lemma_lex_total_from(a, b, k + 1);
    } else if k == a.len() && k == b.len() {
        assert(a =~= b);
    } else {
        assert(agree_before(b, a, k));
    }
}

/// Two different byte strings are always ordered, one way or the other.
pub proof fn lemma_lex_total(a: Seq<u8>, b: Seq<u8>)
    requires
        a != b,
    ensures
        lex_less(a, b) || lex_less(b, a),
{
    lemma_lex_total_from(a, b, 0);
}

/// Whether `a` comes strictly after `b` in byte-lexicographic order.
pub fn bytes_greater(a: &[u8], b: &[u8]) -> (greater: bool)
    ensures
        greater == lex_less(b@, a@),
{
    let mut i: usize = 0;
    while i < a.len() && i < b.len()
        invariant
            agree_before(b@, a@, i as int),
        decreases a.len() - i,
    {
        if a[i] != b[i] {
            let greater = a[i] > b[i];
            proof {
                lemma_decided_at(b@, a@, i as int);
            }
            return greater;
        }
        i += 1;
    }
    proof {
        lemma_decided_at(b@, a@, i as int);
    }
    i < a.len()
}

/// Once the first position where two strings part is known, so is their order.
proof fn lemma_decided_at(a: Seq<u8>, b: Seq<u8>, k: int)
    requires
        agree_before(a, b, k),
        k == a.len() || k == b.len() || a[k] != b[k],
    ensures
        lex_less(a, b) <==> k < b.len() && (k == a.len() || a[k] < b[k]),
{
    if lex_less(a, b) {
        let j = choose|j: int| #[trigger]
            agree_before(a, b, j) && j < b.len() && (j == a.len() || a[j] < b[j]);
        if j < k {
            assert(a[j] == b[j]);
        } else if k < j {
            assert(a[k] == b[k]);
        }
    }
}

/// Whether two byte strings hold the same bytes.
pub fn bytes_equal(a: &[u8], b: &[u8]) -> (same: bool)
    ensures
        same == (a@ == b@),
{
    if a.len() != b.len() {
        return false;
    }
    let mut i: usize = 0;
    while i < a.len()
        invariant
            a.len() == b.len(),
            agree_before(a@, b@, i as int),
        decreases a.len() - i,
    {
        if a[i] != b[i] {
            return false;
        }
        i += 1;
    }
    assert(a@ =~= b@);
    true
}

/// The sixteen hexadecimal digits, in order.
pub open spec fn hex_digits() -> Seq<char> {
    "0123456789abcdef"@
}

/// A byte in hexadecimal, in lower case and without a leading zero: one
/// digit below sixteen, two from there on.
pub open spec fn hex_of_byte(b: u8) -> Seq<char> {
    if b < 16 {
        seq![hex_digits()[b as int]]
    } else {
        seq![hex_digits()[b as int / 16], hex_digits()[b as int % 16]]
    }
}

/// A byte string in hexadecimal: its bytes one after the other, each
/// without a leading zero.
pub open spec fn hex_of(bytes: Seq<u8>) -> Seq<char>
    decreases bytes.len(),
{
    if bytes.len() == 0 {
        Seq::empty()
    } else {
        hex_of(bytes.drop_last()) + hex_of_byte(bytes.last())
    }
}

fn hex_digit(n: u8) -> (digit: &'static str)
    requires
        n < 16,
    ensures
        digit@ == seq![hex_digits()[n as int]],
{
    let digits: &'static str = "0123456789abcdef";
    proof {
        reveal_strlit("0123456789abcdef");
    }
    digits.substring_ascii(n as usize, n as usize + 1)
}

/// Writes a byte string in hexadecimal. A byte below sixteen gives a
/// single digit.
pub fn to_hex(bytes: &[u8]) -> (text: String)
    ensures
        text@ == hex_of(bytes@),
{
    let mut text = String::new();
    let mut i: usize = 0;
    while i < bytes.len()
        invariant
            i <= bytes.len(),
            text@ == hex_of(bytes@.take(i as int)),
        decreases bytes.len() - i,
    {
        let b = bytes[i];
        if b >= 16 {
            text.append(hex_digit(b / 16));
        }
        text.append(hex_digit(b % 16));
        assert(bytes@.take(i + 1).drop_last() =~= bytes@.take(i as int));
        i += 1;
    }
    assert(bytes@.take(i as int) =~= bytes@);
    text
}

/// A copy of a byte string.
pub fn copy_bytes(bytes: &Vec<u8>) -> (copy: Vec<u8>)
    ensures
        copy@ == bytes@,
{
    bytes.clone()
}

} // verus!
