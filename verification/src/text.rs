//! Text handling shared by the interpreters: comparing and splitting
//! strings, each against a model over sequences of characters.

use vstd::prelude::*;
use vstd::string::StringSliceAdditionalSpecFns;
use vstd::utf8::{encode_utf8, encode_utf8_decode_utf8};

verus! {

/// What separates the pieces of a line.
#[derive(Clone, Copy, Debug, PartialEq, Eq, Structural)]
pub enum Separator {
    /// Any character with the Unicode property `White_Space`.
    Whitespace,
    /// The plus sign that joins the names of a chord.
    Plus,
}

/// Whether `c` has the Unicode property `White_Space`.
pub open spec fn is_whitespace(c: char) -> bool {
    let u = c as u32;
    ||| 0x09 <= u <= 0x0D
    ||| u == 0x20
    ||| u == 0x85
    ||| u == 0xA0
    ||| u == 0x1680
    ||| 0x2000 <= u <= 0x200A
    ||| u == 0x2028
    ||| u == 0x2029
    ||| u == 0x202F
    ||| u == 0x205F
    ||| u == 0x3000
}

impl Separator {
    /// Whether the character `c` separates two pieces.
    pub open spec fn splits(self, c: char) -> bool {
        match self {
            Separator::Whitespace => is_whitespace(c),
            Separator::Plus => c == '+',
        }
    }

    /// Tests whether the character `c` separates two pieces.
    pub fn matches(self, c: char) -> (r: bool)
        ensures
            r == self.splits(c),
    {
        match self {
            Separator::Whitespace => {
                let u: u32 = c as u32;
                (0x09 <= u && u <= 0x0D) || u == 0x20 || u == 0x85 || u == 0xA0 || u == 0x1680 || (
                0x2000 <= u && u <= 0x200A) || u == 0x2028 || u == 0x2029 || u == 0x202F || u
                    == 0x205F || u == 0x3000
            },
            Separator::Plus => c == '+',
        }
    }
}

/// Position of the first separator in `s`, or the length of `s` where it
/// holds none.
pub open spec fn first_separator(s: Seq<char>, sep: Separator) -> int
    decreases s.len(),
{
    if s.len() == 0 || sep.splits(s[0]) {
        0
    } else {
        1 + first_separator(s.skip(1), sep)
    }
}

/// The pieces of `s` between its separators, in order, empty ones included:
/// a text with `k` separators has `k + 1` fields.
pub open spec fn fields(s: Seq<char>, sep: Separator) -> Seq<Seq<char>>
    decreases s.len(),
{
    let n = first_separator(s, sep);
    if 0 <= n < s.len() {
        seq![s.take(n)] + fields(s.skip(n + 1), sep)
    } else {
        seq![s]
    }
}

/// The words of `s`: its fields between white space, without the empty ones.
pub open spec fn tokens(s: Seq<char>) -> Seq<Seq<char>> {
    fields(s, Separator::Whitespace).filter(|f: Seq<char>| f.len() > 0)
}

/// Whether `s` begins with the characters of `prefix`.
pub open spec fn starts_with(s: Seq<char>, prefix: Seq<char>) -> bool {
    prefix.len() <= s.len() && s.take(prefix.len() as int) == prefix
}

/// Whether `s` ends with the characters of `suffix`.
pub open spec fn ends_with(s: Seq<char>, suffix: Seq<char>) -> bool {
    suffix.len() <= s.len() && s.skip(s.len() - suffix.len()) == suffix
}

/// `first_separator` is the one position that holds a separator, or the end,
/// with no separator before it.
pub proof fn lemma_first_separator(s: Seq<char>, sep: Separator, n: int)
    requires
        0 <= n <= s.len(),
        forall|k: int| 0 <= k < n ==> !sep.splits(#[trigger] s[k]),
        n < s.len() ==> sep.splits(s[n]),
    ensures
        first_separator(s, sep) == n,
    decreases n,
{
    if n > 0 {
        assert(!sep.splits(s[0]));
        let t = s.skip(1);
        assert forall|k: int| 0 <= k < n - 1 implies !sep.splits(#[trigger] t[k]) by {
            assert(t[k] == s[k + 1]);
        }
        lemma_first_separator(t, sep, n - 1);
    }
}

/// The first separator lies within the text, and nothing before it separates.
pub proof fn lemma_first_separator_bounds(s: Seq<char>, sep: Separator)
    ensures
        0 <= first_separator(s, sep) <= s.len(),
        forall|k: int| 0 <= k < first_separator(s, sep) ==> !sep.splits(#[trigger] s[k]),
        first_separator(s, sep) < s.len() ==> sep.splits(s[first_separator(s, sep)]),
    decreases s.len(),
{
    if s.len() == 0 || sep.splits(s[0]) {
    } else {
        let t = s.skip(1);
        lemma_first_separator_bounds(t, sep);
        let n = first_separator(s, sep);
        assert forall|k: int| 0 <= k < n implies !sep.splits(#[trigger] s[k]) by {
            if k > 0 {
                assert(s[k] == t[k - 1]);
            }
        }
        if n < s.len() {
            assert(s[n] == t[n - 1]);
        }
    }
}

/// A text always has at least one field, and none of them holds a separator.
pub proof fn lemma_fields_are_free_of_separators(s: Seq<char>, sep: Separator)
    ensures
        fields(s, sep).len() >= 1,
        forall|i: int, k: int|
            0 <= i < fields(s, sep).len() && 0 <= k < fields(s, sep)[i].len() ==> !sep.splits(
                #[trigger] fields(s, sep)[i][k],
            ),
    decreases s.len(),
{
    lemma_first_separator_bounds(s, sep);
    let n = first_separator(s, sep);
    if 0 <= n < s.len() {
        let rest = s.skip(n + 1);
        lemma_fields_are_free_of_separators(rest, sep);
        let fs = fields(s, sep);
        assert forall|i: int, k: int| 0 <= i < fs.len() && 0 <= k < fs[i].len() implies !sep.splits(
            #[trigger] fs[i][k],
        ) by {
            if i == 0 {
                assert(fs[0] == s.take(n));
                assert(fs[0][k] == s[k]);
            } else {
                assert(fs[i] == fields(rest, sep)[i - 1]);
            }
        }
    } else {
        assert(n == s.len());
    }
}

/// Two texts with the same encoding are the same text.
pub proof fn lemma_encoding_is_injective(a: Seq<char>, b: Seq<char>)
    requires
        encode_utf8(a) == encode_utf8(b),
    ensures
        a == b,
{
    encode_utf8_decode_utf8(a);
    encode_utf8_decode_utf8(b);
}

/// The characters of `s`, in order.
pub fn chars_of(s: &str) -> (v: Vec<char>)
    ensures
        v@ == s@,
{
    let mut v: Vec<char> = Vec::new();
    for c in it: s.chars()
        invariant
            v@ == it.seq().take(it.index() as int),
            it.seq() == s@,
    {
        v.push(c);
    }
    v
}

/// Whether `a` and `b` hold the same characters.
pub fn same_text(a: &str, b: &str) -> (r: bool)
    ensures
        r == (a@ == b@),
{
    let x = a.as_bytes();
    let y = b.as_bytes();
    if x.len() != y.len() {
        return false;
    }
    let n = x.len();
    let mut i: usize = 0;
    while i < n
        invariant
            n == x@.len(),
            n == y@.len(),
            x@ == a.spec_bytes(),
            y@ == b.spec_bytes(),
            i <= n,
            forall|k: int| 0 <= k < i ==> x@[k] == y@[k],
        decreases n - i,
    {
        if x[i] != y[i] {
            return false;
        }
        i += 1;
    }
    proof {
        assert(x@ =~= y@);
        lemma_encoding_is_injective(a@, b@);
    }
    true
}

/// Whether `s` begins with the characters of `prefix`.
pub fn has_prefix(s: &str, prefix: &str) -> (r: bool)
    ensures
        r == starts_with(s@, prefix@),
{
    let x = chars_of(s);
    let p = chars_of(prefix);
    if p.len() > x.len() {
        return false;
    }
    let n = p.len();
    let mut i: usize = 0;
    while i < n
        invariant
            n == p@.len(),
            n <= x@.len(),
            x@ == s@,
            p@ == prefix@,
            i <= n,
            forall|k: int| 0 <= k < i ==> x@[k] == p@[k],
        decreases n - i,
    {
        if x[i] != p[i] {
            proof {
                assert(s@.take(n as int)[i as int] == x@[i as int]);
            }
            return false;
        }
        i += 1;
    }
    proof {
        assert(s@.take(n as int) =~= prefix@);
    }
    true
}

/// Whether `s` ends with the characters of `suffix`.
pub fn has_suffix(s: &str, suffix: &str) -> (r: bool)
    ensures
        r == ends_with(s@, suffix@),
{
    let x = chars_of(s);
    let p = chars_of(suffix);
    if p.len() > x.len() {
        return false;
    }
    let n = p.len();
    let d = x.len() - n;
    let mut i: usize = 0;
    while i < n
        invariant
            n == p@.len(),
            d + n == x.len(),
            x@ == s@,
            p@ == suffix@,
            i <= n,
            forall|k: int| 0 <= k < i ==> x@[d + k] == p@[k],
        decreases n - i,
    {
        if x[d + i] != p[i] {
            proof {
                assert(s@.skip(d as int)[i as int] == x@[d + i]);
            }
            return false;
        }
        i += 1;
    }
    proof {
        assert(s@.skip(d as int) =~= suffix@);
    }
    true
}

/// Splits `s` at every separator and hands out the pieces, empty ones too.
pub fn split(s: &str, sep: Separator) -> (out: Vec<String>)
    ensures
        out.deep_view() == fields(s@, sep),
{
    let chars = chars_of(s);
    let n = chars.len();
    let mut out: Vec<String> = Vec::new();
    let mut start: usize = 0;
    let mut i: usize = 0;
    assert(s@.skip(0) =~= s@);
    assert(out.deep_view() =~= Seq::<Seq<char>>::empty());
    while i < n
        invariant
            chars@ == s@,
            n == chars@.len(),
            start <= i <= n,
            forall|k: int| start <= k < i ==> !sep.splits(#[trigger] chars@[k]),
            fields(s@, sep) == out.deep_view() + fields(s@.skip(start as int), sep),
        decreases n - i,
    {
        if sep.matches(chars[i]) {
            let piece = s.substring_char(start, i).to_owned();
            proof {
                let rest = s@.skip(start as int);
                lemma_first_separator(rest, sep, i - start);
                assert(rest.take(i - start) =~= s@.subrange(start as int, i as int));
                assert(rest.skip(i - start + 1) =~= s@.skip(i + 1));
                assert(out.deep_view().push(piece@) + fields(s@.skip(i + 1), sep) =~= out.deep_view()
                    + fields(rest, sep));
            }
            let ghost before = out.deep_view();
            out.push(piece);
            assert(out.deep_view() =~= before.push(piece@));
            start = i + 1;
        }
        i += 1;
    }
    let piece = s.substring_char(start, n).to_owned();
    proof {
        let rest = s@.skip(start as int);
        lemma_first_separator(rest, sep, n - start);
        assert(rest =~= s@.subrange(start as int, n as int));
        assert(out.deep_view().push(piece@) =~= out.deep_view() + fields(rest, sep));
    }
    let ghost before = out.deep_view();
    out.push(piece);
    assert(out.deep_view() =~= before.push(piece@));
    out
}

/// The words of `s`: the pieces between white space that are not empty.
pub fn split_whitespace(s: &str) -> (out: Vec<String>)
    ensures
        out.deep_view() == tokens(s@),
        forall|i: int| 0 <= i < out.len() ==> (#[trigger] out[i])@.len() > 0,
{
    let pieces = split(s, Separator::Whitespace);
    let ghost keep = |f: Seq<char>| f.len() > 0;
    let mut out: Vec<String> = Vec::new();
    let mut i: usize = 0;
    assert(out.deep_view() =~= Seq::<Seq<char>>::empty());
    assert(pieces.deep_view().take(0).filter(keep) =~= Seq::<Seq<char>>::empty()) by {
        reveal(Seq::filter);
    }
    while i < pieces.len()
        invariant
            i <= pieces.len(),
            pieces.deep_view() == fields(s@, Separator::Whitespace),
            keep == |f: Seq<char>| f.len() > 0,
            out.deep_view() == pieces.deep_view().take(i as int).filter(keep),
            forall|k: int| 0 <= k < out.len() ==> (#[trigger] out[k])@.len() > 0,
        decreases pieces.len() - i,
    {
        let ghost before = out.deep_view();
        proof {
            let all = pieces.deep_view();
            assert(all.take(i + 1) =~= all.take(i as int).push(all[i as int]));
            all.take(i as int).lemma_filter_push(all[i as int], keep);
            assert(all[i as int] == pieces[i as int]@);
        }
        if !pieces[i].as_str().is_empty() {
            let piece = pieces[i].clone();
            out.push(piece);
            assert(out.deep_view() =~= before.push(piece@));
        }
        i += 1;
    }
    assert(pieces.deep_view().take(pieces.len() as int) =~= pieces.deep_view());
    out
}

} // verus!
