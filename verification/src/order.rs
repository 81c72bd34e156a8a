//! The lexicographic order on paths, by the bytes of their encoding.

use vstd::prelude::*;
use vstd::string::StringSliceAdditionalSpecFns;
use vstd::utf8::encode_utf8;
use crate::text::lemma_encoding_is_injective;

verus! {

/// How one value stands to another in an order.
#[derive(Clone, Copy, Debug, PartialEq, Eq, Structural)]
pub enum Rank {
    Before,
    Same,
    After,
}

/// Whether `a` comes before `b` or equals it in the lexicographic order on
/// byte sequences: a proper prefix comes first, and otherwise the first
/// byte that differs decides.
pub open spec fn bytes_le(a: Seq<u8>, b: Seq<u8>) -> bool
    decreases a.len(),
{
    if a.len() == 0 {
        true
    } else if b.len() == 0 {
        false
    } else if a[0] != b[0] {
        a[0] < b[0]
    } else {
        bytes_le(a.skip(1), b.skip(1))
    }
}

/// How `a` stands to `b` in the lexicographic order.
pub open spec fn bytes_rank(a: Seq<u8>, b: Seq<u8>) -> Rank {
    if a == b {
        Rank::Same
    } else if bytes_le(a, b) {
        Rank::Before
    } else {
        Rank::After
    }
}

/// Whether the path `a` comes before the path `b` or equals it.
pub open spec fn path_le(a: Seq<char>, b: Seq<char>) -> bool {
    bytes_le(encode_utf8(a), encode_utf8(b))
}

/// How the path `a` stands to the path `b`.
pub open spec fn path_rank(a: Seq<char>, b: Seq<char>) -> Rank {
    bytes_rank(encode_utf8(a), encode_utf8(b))
}

/// Every sequence stands before or at itself.
pub proof fn lemma_bytes_le_reflexive(a: Seq<u8>)
    ensures
        bytes_le(a, a),
    decreases a.len(),
{
    if a.len() > 0 {
        lemma_bytes_le_reflexive(a.skip(1));
    }
}

/// Two sequences that stand before or at each other are equal.
pub proof fn lemma_bytes_le_antisymmetric(a: Seq<u8>, b: Seq<u8>)
    requires
        bytes_le(a, b),
        bytes_le(b, a),
    ensures
        a == b,
    decreases a.len(),
{
    if a.len() == 0 {
        assert(b.len() == 0);
        assert(a =~= b);
    } else {
        assert(b.len() > 0);
        assert(a[0] == b[0]);
        lemma_bytes_le_antisymmetric(a.skip(1), b.skip(1));
        assert(a =~= seq![a[0]] + a.skip(1));
        assert(b =~= seq![b[0]] + b.skip(1));
    }
}

/// The order passes along a chain.
pub proof fn lemma_bytes_le_transitive(a: Seq<u8>, b: Seq<u8>, c: Seq<u8>)
    requires
        bytes_le(a, b),
        bytes_le(b, c),
    ensures
        bytes_le(a, c),
    decreases a.len(),
{
    if a.len() == 0 {
    } else {
        assert(b.len() > 0);
        assert(c.len() > 0);
        if a[0] == b[0] && b[0] == c[0] {
            lemma_bytes_le_transitive(a.skip(1), b.skip(1), c.skip(1));
        }
    }
}

/// Of two sequences one stands before or at the other.
pub proof fn lemma_bytes_le_total(a: Seq<u8>, b: Seq<u8>)
    ensures
        bytes_le(a, b) || bytes_le(b, a),
    decreases a.len(),
{
    if a.len() > 0 && b.len() > 0 && a[0] == b[0] {
        lemma_bytes_le_total(a.skip(1), b.skip(1));
    }
}

/// The order on paths is a total order: reflexive, antisymmetric, transitive
/// and total.
pub proof fn lemma_path_le_is_total_order(a: Seq<char>, b: Seq<char>, c: Seq<char>)
    ensures
        path_le(a, a),
        path_le(a, b) && path_le(b, a) ==> a == b,
        path_le(a, b) && path_le(b, c) ==> path_le(a, c),
        path_le(a, b) || path_le(b, a),
        path_rank(a, b) == Rank::Same <==> a == b,
        path_rank(a, b) == Rank::Before <==> path_le(a, b) && a != b,
        path_rank(a, b) == Rank::After <==> !path_le(a, b),
{
    let x = encode_utf8(a);
    let y = encode_utf8(b);
    let z = encode_utf8(c);
    lemma_bytes_le_reflexive(x);
    lemma_bytes_le_total(x, y);
    if bytes_le(x, y) && bytes_le(y, x) {
        lemma_bytes_le_antisymmetric(x, y);
        lemma_encoding_is_injective(a, b);
    }
    if bytes_le(x, y) && bytes_le(y, z) {
        lemma_bytes_le_transitive(x, y, z);
    }
    if x == y {
        lemma_encoding_is_injective(a, b);
    }
}

/// Where two sequences agree on their first `n` bytes, the bytes after
/// those decide how they stand.
proof fn lemma_bytes_le_after_common_prefix(a: Seq<u8>, b: Seq<u8>, n: int)
    requires
        0 <= n <= a.len(),
        n <= b.len(),
        forall|k: int| 0 <= k < n ==> a[k] == b[k],
    ensures
        bytes_le(a, b) == bytes_le(a.skip(n), b.skip(n)),
    decreases n,
{
    if n > 0 {
        let x = a.skip(1);
        let y = b.skip(1);
        assert forall|k: int| 0 <= k < n - 1 implies x[k] == y[k] by {
            assert(x[k] == a[k + 1]);
            assert(y[k] == b[k + 1]);
        }
        lemma_bytes_le_after_common_prefix(x, y, n - 1);
        assert(x.skip(n - 1) =~= a.skip(n));
        assert(y.skip(n - 1) =~= b.skip(n));
    } else {
        assert(a.skip(0) =~= a);
        assert(b.skip(0) =~= b);
    }
}

/// Compares two paths in the lexicographic order of their bytes.
pub fn rank_paths(a: &str, b: &str) -> (r: Rank)
    ensures
        r == path_rank(a@, b@),
{
    let x = a.as_bytes();
    let y = b.as_bytes();
    let n = if x.len() < y.len() {
        x.len()
    } else {
        y.len()
    };
    let mut i: usize = 0;
    while i < n
        invariant
            x@ == a.spec_bytes(),
            y@ == b.spec_bytes(),
            n <= x@.len(),
            n <= y@.len(),
            n == x@.len() || n == y@.len(),
            i <= n,
            forall|k: int| 0 <= k < i ==> x@[k] == y@[k],
        decreases n - i,
    {
        if x[i] != y[i] {
            proof {
                lemma_bytes_le_after_common_prefix(x@, y@, i as int);
                assert(x@.skip(i as int)[0] == x@[i as int]);
                assert(y@.skip(i as int)[0] == y@[i as int]);
            }
            if x[i] < y[i] {
                return Rank::Before;
            } else {
                return Rank::After;
            }
        }
        i += 1;
    }
    proof {
        lemma_bytes_le_after_common_prefix(x@, y@, n as int);
        if x@.len() == y@.len() {
            assert(x@ =~= y@);
        }
    }
    if x.len() == y.len() {
        Rank::Same
    } else if x.len() < y.len() {
        Rank::Before
    } else {
        Rank::After
    }
}

} // verus!
