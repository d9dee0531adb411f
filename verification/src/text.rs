//! Text as this library reads it: values that lend a string slice, and the byte-wise
//! view of strings on which equality and ordering of names rest.

use vstd::prelude::*;
use vstd::utf8::{
    encode_utf8, encode_utf8_decode_utf8, is_ascii_chars, is_ascii_chars_encode_utf8,
};

verus! {

/// A value that can be read as a string slice.
pub trait AsText {
    /// The characters this value stands for.
    spec fn text(&self) -> Seq<char>;

    /// Borrows the value as a string slice.
    fn as_text(&self) -> (s: &str)
        ensures
            s@ == self.text(),
    ;
}

impl AsText for String {
    open spec fn text(&self) -> Seq<char> {
        self@
    }

    fn as_text(&self) -> (s: &str) {
        self.as_str()
    }
}

impl AsText for str {
    open spec fn text(&self) -> Seq<char> {
        self@
    }

    fn as_text(&self) -> (s: &str) {
        self
    }
}

impl<'a, T: AsText + ?Sized> AsText for &'a T {
    open spec fn text(&self) -> Seq<char> {
        (**self).text()
    }

    fn as_text(&self) -> (s: &str) {
        (**self).as_text()
    }
}

/// `a` and `b` hold the same bytes at every position before `k`.
pub open spec fn agree_before(a: Seq<u8>, b: Seq<u8>, k: int) -> bool {
    &&& 0 <= k <= a.len()
    &&& k <= b.len()
    &&& forall|j: int| 0 <= j < k ==> a[j] == b[j]
}

/// `a` and `b` agree before `k`, and at `k` the sequence `a` has ended or holds the
/// smaller byte, while `b` goes on.
pub open spec fn less_at(a: Seq<u8>, b: Seq<u8>, k: int) -> bool {
    agree_before(a, b, k) && k < b.len() && (k == a.len() || a[k] < b[k])
}

/// `a` comes strictly before `b` in lexicographic byte order: at the first position where
/// the two part ways, `a` has ended or holds the smaller byte.
pub open spec fn lex_less(a: Seq<u8>, b: Seq<u8>) -> bool {
    exists|k: int| #[trigger] agree_before(a, b, k) && less_at(a, b, k)
}

/// The bytes that a text is stored as.
pub open spec fn bytes_of(text: Seq<char>) -> Seq<u8> {
    encode_utf8(text)
}

/// No byte sequence comes before itself.
pub proof fn lemma_lex_less_irreflexive(a: Seq<u8>)
    ensures
        !lex_less(a, a),
{
}

/// Of two byte sequences at most one comes before the other.
pub proof fn lemma_lex_less_asymmetric(a: Seq<u8>, b: Seq<u8>)
    requires
        lex_less(a, b),
    ensures
        !lex_less(b, a),
{
    let k1 = choose|k: int| #[trigger] agree_before(a, b, k) && less_at(a, b, k);
    if lex_less(b, a) {
        let k2 = choose|k: int| #[trigger] agree_before(b, a, k) && less_at(b, a, k);
        if k1 < k2 {
            assert(b[k1] == a[k1]);
        } else if k2 < k1 {
            assert(a[k2] == b[k2]);
        }
    }
}

/// Lexicographic byte order is transitive.
pub proof fn lemma_lex_less_transitive(a: Seq<u8>, b: Seq<u8>, c: Seq<u8>)
    requires
        lex_less(a, b),
        lex_less(b, c),
    ensures
        lex_less(a, c),
{
    let k1 = choose|k: int| #[trigger] agree_before(a, b, k) && less_at(a, b, k);
    let k2 = choose|k: int| #[trigger] agree_before(b, c, k) && less_at(b, c, k);
    let k = if k1 <= k2 { k1 } else { k2 };
    assert(agree_before(a, c, k));
    if k1 < k2 {
        assert(b[k1] == c[k1]);
    } else if k2 < k1 {
        assert(a[k2] == b[k2]);
    }
}

/// Two byte sequences that agree before `k` and of which neither comes before the other
/// agree up to the end of the shorter one.
proof fn lemma_agree_to_the_end(a: Seq<u8>, b: Seq<u8>, k: int)
    requires
        !lex_less(a, b),
        !lex_less(b, a),
        agree_before(a, b, k),
    ensures
        a.len() == b.len(),
        agree_before(a, b, a.len() as int),
    decreases a.len() - k,
{
    assert(agree_before(b, a, k));
    if k < a.len() && k < b.len() {
        assert(a[k] == b[k]);
        assert(agree_before(a, b, k + 1));
        lemma_agree_to_the_end(a, b, k + 1);
    }
}

/// Of two different byte sequences one comes before the other.
pub proof fn lemma_lex_less_total(a: Seq<u8>, b: Seq<u8>)
    ensures
        a == b || lex_less(a, b) || lex_less(b, a),
{
    if !lex_less(a, b) && !lex_less(b, a) {
        assert(agree_before(a, b, 0));
        lemma_agree_to_the_end(a, b, 0);
        assert(a =~= b);
    }
}

/// Different texts are stored as different bytes.
pub proof fn lemma_bytes_of_injective(s: Seq<char>, t: Seq<char>)
    requires
        bytes_of(s) == bytes_of(t),
    ensures
        s == t,
{
    encode_utf8_decode_utf8(s);
    encode_utf8_decode_utf8(t);
}

/// A text of ASCII characters alone is stored one byte to the character, each byte being
/// the number of its character.
pub proof fn lemma_bytes_of_ascii(text: Seq<char>)
    requires
        is_ascii_chars(text),
    ensures
        bytes_of(text).len() == text.len(),
        forall|i: int| 0 <= i < text.len() ==> #[trigger] bytes_of(text)[i] == text[i] as u8,
{
    is_ascii_chars_encode_utf8(text);
}

/// The length of the longest common prefix of `a` and `b`.
pub fn common_prefix_len(a: &[u8], b: &[u8]) -> (k: usize)
    ensures
        agree_before(a@, b@, k as int),
        k < a@.len() && k < b@.len() ==> a@[k as int] != b@[k as int],
{
    let mut k: usize = 0;
    while k < a.len() && k < b.len() && a[k] == b[k]
        invariant
            agree_before(a@, b@, k as int),
        decreases a@.len() - k,
    {
        k += 1;
    }
    k
}

/// Whether two string slices hold the same text.
pub fn same_text(a: &str, b: &str) -> (same: bool)
    ensures
        same == (a@ == b@),
{
    let x = a.as_bytes();
    let y = b.as_bytes();
    let k = common_prefix_len(x, y);
    let same = k == x.len() && k == y.len();
    proof {
        if same {
            assert(x@ =~= y@);
            lemma_bytes_of_injective(a@, b@);
        }
    }
    same
}

} // verus!
