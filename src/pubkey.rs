use vstd::prelude::*;

verus! {

/// A 32-byte account address.
#[derive(Clone, Copy, Debug, PartialEq, Eq)]
pub struct Pubkey {
    pub bytes: [u8; 32],
}

impl View for Pubkey {
    type V = Seq<u8>;

    open spec fn view(&self) -> Seq<u8> {
        self.bytes@
    }
}

/// `a` comes strictly before `b` in lexicographic byte order.
pub open spec fn lex_lt(a: Seq<u8>, b: Seq<u8>) -> bool {
    exists|i: int|
        #![trigger a[i], b[i]]
        0 <= i < a.len() && i < b.len() && a[i] < b[i] && forall|j: int|
            0 <= j < i ==> a[j] == b[j]
}

/// The pair in canonical order: the lexicographically smaller key first.
pub open spec fn canonical(x: Seq<u8>, y: Seq<u8>) -> (Seq<u8>, Seq<u8>) {
    if lex_lt(y, x) {
        (y, x)
    } else {
        (x, y)
    }
}

/// Two keys in canonical order, as keys.
pub open spec fn canonical_keys(x: Pubkey, y: Pubkey) -> (Pubkey, Pubkey) {
    if lex_lt(y@, x@) {
        (y, x)
    } else {
        (x, y)
    }
}

impl Pubkey {
    pub fn new(bytes: [u8; 32]) -> (r: Pubkey)
        ensures
            r.bytes == bytes,
    {
        Pubkey { bytes }
    }

    /// Whether the two keys hold the same bytes.
    pub fn key_eq(&self, other: &Pubkey) -> (r: bool)
        ensures
            r == (self@ == other@),
    {
        let mut i: usize = 0;
        while i < 32
            invariant
                0 <= i <= 32,
                self@.len() == 32,
                other@.len() == 32,
                forall|j: int| 0 <= j < i ==> self@[j] == other@[j],
            decreases 32 - i,
        {
            if self.bytes[i] != other.bytes[i] {
                assert(self@[i as int] != other@[i as int]);
                return false;
            }
            i = i + 1;
        }
        assert(self@ =~= other@);
        true
    }

    /// Whether `self` comes strictly before `other` in byte order.
    pub fn key_lt(&self, other: &Pubkey) -> (r: bool)
        ensures
            r == lex_lt(self@, other@),
    {
        let mut i: usize = 0;
        while i < 32
            invariant
                0 <= i <= 32,
                self@.len() == 32,
                other@.len() == 32,
                forall|j: int| 0 <= j < i ==> self@[j] == other@[j],
            decreases 32 - i,
        {
            if self.bytes[i] != other.bytes[i] {
                let lt = self.bytes[i] < other.bytes[i];
                if lt {
                    assert(self@[i as int] < other@[i as int]);
                } else {
                    assert forall|k: int|
                        0 <= k < self@.len() && k < other@.len() && self@[k] < other@[k]
                            implies !(forall|j: int| 0 <= j < k ==> self@[j] == other@[j]) by {
                        if k < i {
                        } else if k == i {
                        } else {
                            assert(self@[i as int] != other@[i as int]);
                        }
                    }
                }
                return lt;
            }
            i = i + 1;
        }
        false
    }
}

/// The two keys in canonical order.
pub fn canonical_pair(x: &Pubkey, y: &Pubkey) -> (r: (Pubkey, Pubkey))
    ensures
        (r.0@, r.1@) == canonical(x@, y@),
        r == canonical_keys(*x, *y),
{
    if y.key_lt(x) {
        (*y, *x)
    } else {
        (*x, *y)
    }
}

proof fn lemma_equal_prefix(a: Seq<u8>, b: Seq<u8>, n: int)
    requires
        a.len() == b.len(),
        0 <= n <= a.len(),
        !lex_lt(a, b),
        !lex_lt(b, a),
    ensures
        forall|j: int| 0 <= j < n ==> a[j] == b[j],
    decreases n,
{
    if n > 0 {
        lemma_equal_prefix(a, b, n - 1);
        let k = n - 1;
        if a[k] < b[k] {
            assert(lex_lt(a, b));
        } else if b[k] < a[k] {
            assert(lex_lt(b, a));
        }
    }
}

/// Byte order is total on keys of one length: of two different keys one
/// comes first, and never both.
pub proof fn lemma_lex_total(a: Seq<u8>, b: Seq<u8>)
    requires
        a.len() == b.len(),
    ensures
        a != b ==> (lex_lt(a, b) || lex_lt(b, a)),
        !(lex_lt(a, b) && lex_lt(b, a)),
{
    if !lex_lt(a, b) && !lex_lt(b, a) {
        lemma_equal_prefix(a, b, a.len() as int);
        assert(a =~= b);
    }
    if lex_lt(a, b) && lex_lt(b, a) {
        let i = choose|i: int|
            #![trigger a[i], b[i]]
            0 <= i < a.len() && i < b.len() && a[i] < b[i] && forall|j: int|
                0 <= j < i ==> a[j] == b[j];
        let k = choose|k: int|
            #![trigger b[k], a[k]]
            0 <= k < b.len() && k < a.len() && b[k] < a[k] && forall|j: int|
                0 <= j < k ==> b[j] == a[j];
        if i < k {
            assert(b[i] == a[i]);
        } else if k < i {
            assert(a[k] == b[k]);
        }
    }
}

/// The canonical order of a pair does not depend on the order it is given in.
pub proof fn lemma_canonical_symmetric(x: Seq<u8>, y: Seq<u8>)
    requires
        x.len() == y.len(),
    ensures
        canonical(x, y) == canonical(y, x),
{
    lemma_lex_total(x, y);
}

} // verus!
