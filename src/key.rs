use vstd::prelude::*;

verus! {

/// A 32-byte identity: of a member, a group, an asset or a proposal.
#[derive(Debug, Clone, Copy)]
pub struct Key {
    pub bytes: [u8; 32],
}

/// Strict lexicographic order on byte sequences of equal length.
pub open spec fn bytes_lt(a: Seq<u8>, b: Seq<u8>) -> bool {
    exists|i: int|
        0 <= i < a.len() && i < b.len() && a[i] < b[i] && a.subrange(0, i) == b.subrange(0, i)
}

/// Whether two 32-byte strings are the same.
pub fn bytes32_eq(a: &[u8; 32], b: &[u8; 32]) -> (r: bool)
    ensures
        r == (a@ == b@),
{
    let mut i: usize = 0;
    while i < 32
        invariant
            0 <= i <= 32,
            a@.len() == 32,
            b@.len() == 32,
            forall|j: int| 0 <= j < i ==> a@[j] == b@[j],
        decreases 32 - i,
    {
        if a[i] != b[i] {
            return false;
        }
        i = i + 1;
    }
    assert(a@ =~= b@);
    true
}

impl View for Key {
    type V = Seq<u8>;

    open spec fn view(&self) -> Seq<u8> {
        self.bytes@
    }
}

impl Key {
    pub fn new(bytes: [u8; 32]) -> (r: Key)
        ensures
            r@ == bytes@,
    {
        Key { bytes }
    }

    /// Whether the two keys hold the same bytes.
    pub fn equals(&self, other: &Key) -> (r: bool)
        ensures
            r == (self@ == other@),
    {
        bytes32_eq(&self.bytes, &other.bytes)
    }

    /// Whether this key comes strictly before `other` in byte order.
    pub fn precedes(&self, other: &Key) -> (r: bool)
        ensures
            r == bytes_lt(self@, other@),
    {
        let mut i: usize = 0;
        while i < 32
            invariant
                0 <= i <= 32,
                self@.len() == 32,
                other@.len() == 32,
                self@.subrange(0, i as int) == other@.subrange(0, i as int),
            decreases 32 - i,
        {
            let a = self.bytes[i];
            let b = other.bytes[i];
            if a < b {
                return true;
            }
            if a > b {
                assert forall|k: int| 0 <= k < 32 && self@[k] < other@[k]
                    implies self@.subrange(0, k) != other@.subrange(0, k) by {
                    if k > i {
                        assert(self@.subrange(0, k)[i as int] == a);
                        assert(other@.subrange(0, k)[i as int] == b);
                    } else if k < i {
                        assert(self@.subrange(0, i as int)[k] == self@[k]);
                        assert(other@.subrange(0, i as int)[k] == other@[k]);
                    }
                }
                return false;
            }
            assert(self@.subrange(0, i + 1) =~= self@.subrange(0, i as int).push(a));
            assert(other@.subrange(0, i + 1) =~= other@.subrange(0, i as int).push(b));
            i = i + 1;
        }
        assert forall|k: int| 0 <= k < 32 implies !(self@[k] < other@[k]) by {
            assert(self@.subrange(0, 32)[k] == self@[k]);
            assert(other@.subrange(0, 32)[k] == other@[k]);
        }
        false
    }
}

impl PartialEq for Key {
    fn eq(&self, other: &Key) -> (r: bool) {
        self.equals(other)
    }
}

impl Eq for Key {
}

impl vstd::std_specs::cmp::PartialEqSpecImpl for Key {
    open spec fn obeys_eq_spec() -> bool {
        true
    }

    open spec fn eq_spec(&self, other: &Key) -> bool {
        self@ == other@
    }
}

} // verus!
