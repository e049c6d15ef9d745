//! Comparing text: equality, and the byte-wise lexicographic order in which
//! the two participants of a chat are stored.

use vstd::prelude::*;
use vstd::utf8::*;

verus! {

/// Equality of string slices. Two slices are equal exactly when they hold the
/// same characters in the same order. This states the documented behaviour of
/// `str`'s `PartialEq` impl and is believed, not proved.
pub assume_specification[ <str as PartialEq>::eq ](a: &str, b: &str) -> (result: bool)
    ensures
        result == (a@ == b@),
;

/// `a` and `b` hold the same bytes at every position below `end`.
pub open spec fn agree_before(a: Seq<u8>, b: Seq<u8>, end: int) -> bool {
    forall|j: int| 0 <= j < end ==> #[trigger] a[j] == b[j]
}

/// `a` differs from `b` at position `at`, after a common prefix, in a way that
/// puts `a` first: either `a` ends there and `b` goes on, or `a` holds the
/// smaller byte.
pub open spec fn decides_before(a: Seq<u8>, b: Seq<u8>, at: int) -> bool {
    &&& 0 <= at <= a.len()
    &&& at < b.len()
    &&& agree_before(a, b, at)
    &&& (at < a.len() ==> a[at] < b[at])
}

/// Strict lexicographic order on byte strings.
pub open spec fn bytes_precede(a: Seq<u8>, b: Seq<u8>) -> bool {
    exists|at: int| decides_before(a, b, at)
}

/// Strict lexicographic order on text, taken over its UTF-8 bytes. This is the
/// order of Unicode code points.
pub open spec fn text_precedes(a: Seq<char>, b: Seq<char>) -> bool {
    bytes_precede(encode_utf8(a), encode_utf8(b))
}

/// No byte string precedes itself, and of two byte strings at most one
/// precedes the other.
pub proof fn lemma_bytes_precede_asymmetric(a: Seq<u8>, b: Seq<u8>)
    requires
        bytes_precede(a, b),
    ensures
        !bytes_precede(b, a),
        a != b,
{
    let i = choose|at: int| decides_before(a, b, at);
    if bytes_precede(b, a) {
        let j = choose|at: int| decides_before(b, a, at);
        if i < j {
            assert(b[i] == a[i]);
        } else if j < i {
            assert(a[j] == b[j]);
        }
    }
}

/// Two different byte strings are ordered one way or the other.
pub proof fn lemma_bytes_precede_total(a: Seq<u8>, b: Seq<u8>)
    requires
        !bytes_precede(a, b),
        !bytes_precede(b, a),
    ensures
        a == b,
{
    lemma_common_prefix(a, b, 0);
}

/// Two byte strings that agree before `from`, neither of which precedes the
/// other, are equal.
proof fn lemma_common_prefix(a: Seq<u8>, b: Seq<u8>, from: int)
    requires
        0 <= from <= a.len(),
        from <= b.len(),
        agree_before(a, b, from),
        !bytes_precede(a, b),
        !bytes_precede(b, a),
    ensures
        a == b,
    decreases a.len() - from,
{
    if from == a.len() {
        if from < b.len() {
            assert(decides_before(a, b, from));
        }
        assert(a =~= b);
    } else if from == b.len() {
        assert(agree_before(b, a, from));
        assert(decides_before(b, a, from));
    } else {
        if a[from] < b[from] {
            assert(decides_before(a, b, from));
        } else if b[from] < a[from] {
            assert(agree_before(b, a, from));
            assert(decides_before(b, a, from));
        } else {
            assert(agree_before(a, b, from + 1));
            lemma_common_prefix(a, b, from + 1);
        }
    }
}

/// Text that neither precedes nor follows another text equals it.
pub proof fn lemma_text_precedes_total(a: Seq<char>, b: Seq<char>)
    requires
        !text_precedes(a, b),
        !text_precedes(b, a),
    ensures
        a == b,
{
    lemma_bytes_precede_total(encode_utf8(a), encode_utf8(b));
    encode_utf8_decode_utf8(a);
    encode_utf8_decode_utf8(b);
}

/// Whether `a` comes strictly before `b` in lexicographic order.
pub fn precedes(a: &str, b: &str) -> (result: bool)
    ensures
        result == text_precedes(a@, b@),
{
    let x = a.as_bytes();
    let y = b.as_bytes();
    let mut i: usize = 0;
    while i < x.len() && i < y.len()
        invariant
            i <= x.len(),
            i <= y.len(),
            x@ == encode_utf8(a@),
            y@ == encode_utf8(b@),
            agree_before(x@, y@, i as int),
        decreases x.len() - i,
    {
        if x[i] != y[i] {
            let smaller = x[i] < y[i];
            proof {
                if smaller {
                    assert(decides_before(x@, y@, i as int));
                } else {
                    assert(agree_before(y@, x@, i as int));
                    assert(decides_before(y@, x@, i as int));
                    if bytes_precede(x@, y@) {
                        lemma_bytes_precede_asymmetric(x@, y@);
                    }
                }
            }
            return smaller;
        }
        i += 1;
    }
    let shorter = x.len() < y.len();
    proof {
        if shorter {
            assert(decides_before(x@, y@, i as int));
        } else {
            assert(i == y.len());
            if bytes_precede(x@, y@) {
                let at = choose|at: int| decides_before(x@, y@, at);
                assert(at < y.len());
                assert(x@[at] == y@[at]);
            }
        }
    }
    shorter
}

} // verus!
