use vstd::prelude::*;

verus! {

/// A 32-byte account address.
#[derive(Clone, Copy, Debug, PartialEq, Eq)]
pub struct Pubkey(pub [u8; 32]);

impl Pubkey {
    /// The address whose bytes are `bytes`.
    pub fn new_from_array(bytes: [u8; 32]) -> (k: Pubkey)
        ensures
            k.0 == bytes,
    {
        Pubkey(bytes)
    }

    /// The raw bytes of the address.
    pub fn to_bytes(&self) -> (r: [u8; 32])
        ensures
            r == self.0,
    {
        self.0
    }

    /// Whether two addresses are the same.
    pub fn key_eq(&self, other: &Pubkey) -> (r: bool)
        ensures
            r == (*self == *other),
    {
        let same = bytes_eq(&self.0, &other.0);
        proof {
            if same {
                assert(self.0@ =~= other.0@);
                assert(self.0 == other.0);
            }
        }
        same
    }
}

/// Whether two byte strings are equal: same length, same bytes.
pub fn bytes_eq(a: &[u8], b: &[u8]) -> (r: bool)
    ensures
        r == (a@ == b@),
{
    if a.len() != b.len() {
        return false;
    }
    let n: usize = a.len();
    let mut i: usize = 0;
    while i < n
        invariant
            n == a@.len(),
            n == b@.len(),
            i <= n,
            forall|j: int| 0 <= j < i ==> a@[j] == b@[j],
        decreases n - i,
    {
        if a[i] != b[i] {
            return false;
        }
        i = i + 1;
    }
    assert(a@ =~= b@);
    true
}

/// Appends the bytes of `b` to `v`.
pub fn append_bytes(v: &mut Vec<u8>, b: &[u8])
    ensures
        final(v)@ == old(v)@ + b@,
{
    let n: usize = b.len();
    let mut i: usize = 0;
    while i < n
        invariant
            n == b@.len(),
            i <= n,
            v@ == old(v)@ + b@.subrange(0, i as int),
        decreases n - i,
    {
        v.push(b[i]);
        i = i + 1;
        assert(v@ =~= old(v)@ + b@.subrange(0, i as int));
    }
    assert(b@.subrange(0, n as int) =~= b@);
}

} // verus!
