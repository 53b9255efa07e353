use vstd::prelude::*;

verus! {

/// A set of capability rights, one bit per right.
///
/// `contains` is set inclusion (`rights ⊇ required`) and `union` is set
/// union, both on the bits.
#[derive(Clone, Copy, Debug, PartialEq, Eq, Structural)]
pub struct Rights(u8);

impl Rights {
    /// The set holding only the read right.
    pub closed spec fn spec_read() -> Rights {
        Rights(1)
    }

    /// The set holding only the write right.
    pub closed spec fn spec_write() -> Rights {
        Rights(2)
    }

    /// The set holding only the grant right.
    pub closed spec fn spec_grant() -> Rights {
        Rights(4)
    }

    /// The set of every right.
    pub closed spec fn spec_all() -> Rights {
        Rights(7)
    }

    /// The bits of the named sets: read, write and grant are one bit each,
    /// and every right is the three together.
    pub proof fn lemma_named_bits()
        ensures
            Self::spec_read().spec_bits() == 1,
            Self::spec_write().spec_bits() == 2,
            Self::spec_grant().spec_bits() == 4,
            Self::spec_all().spec_bits() == 7,
    {
    }

    /// Two sets are the same set exactly when their bits agree.
    pub proof fn lemma_bits_determine(a: Rights, b: Rights)
        ensures
            (a.spec_bits() == b.spec_bits()) == (a == b),
    {
    }

    /// Inclusion is on the bits: `a` contains `b` exactly when `b` has no
    /// bit that `a` lacks.
    pub proof fn lemma_contains_is_inclusion(a: Rights, b: Rights)
        ensures
            a.spec_contains(b) <==> (b.spec_bits() & !a.spec_bits() == 0u8),
    {
        let x = a.spec_bits();
        let y = b.spec_bits();
        assert((x & y == y) == (y & !x == 0u8)) by (bit_vector);
    }

    /// Of the single rights, each set contains only itself: none of read,
    /// write and grant contains another, and every set contains each right
    /// whose bit it has.
    pub proof fn lemma_single_rights_are_distinct(a: Rights)
        ensures
            !Self::spec_write().spec_contains(Self::spec_read()),
            !Self::spec_grant().spec_contains(Self::spec_read()),
            !Self::spec_read().spec_contains(Self::spec_write()),
            !Self::spec_grant().spec_contains(Self::spec_write()),
            !Self::spec_read().spec_contains(Self::spec_grant()),
            !Self::spec_write().spec_contains(Self::spec_grant()),
            a.spec_contains(Self::spec_read()) <==> (a.spec_bits() & 1u8 == 1u8),
            a.spec_contains(Self::spec_write()) <==> (a.spec_bits() & 2u8 == 2u8),
            a.spec_contains(Self::spec_grant()) <==> (a.spec_bits() & 4u8 == 4u8),
    {
        let x = a.spec_bits();
        assert(2u8 & 1u8 != 1u8 && 4u8 & 1u8 != 1u8 && 1u8 & 2u8 != 2u8 && 4u8 & 2u8 != 2u8
            && 1u8 & 4u8 != 4u8 && 2u8 & 4u8 != 4u8) by (bit_vector);
        Self::lemma_contains_is_inclusion(a, Self::spec_read());
        Self::lemma_contains_is_inclusion(a, Self::spec_write());
        Self::lemma_contains_is_inclusion(a, Self::spec_grant());
    }

    /// A union holds a set exactly when each of that set's rights is in one
    /// of the two sides.
    pub proof fn lemma_union_inclusion(a: Rights, b: Rights, c: Rights, u: Rights)
        requires
            u.spec_bits() == a.spec_bits() | b.spec_bits(),
        ensures
            u.spec_contains(c) <==> (c.spec_bits() & !(a.spec_bits() | b.spec_bits()) == 0u8),
            u.spec_contains(a),
            u.spec_contains(b),
    {
        let x = a.spec_bits();
        let y = b.spec_bits();
        let z = c.spec_bits();
        let w = u.spec_bits();
        assert(w == x | y ==> ((w & z == z) == (z & !(x | y) == 0u8) && w & x == x && w & y == y))
            by (bit_vector);
    }

    /// May read through the capability.
    #[verifier::when_used_as_spec(spec_read)]
    pub fn read() -> (r: Rights)
        ensures
            r == Self::spec_read(),
            r.spec_bits() == 1,
    {
        Rights(1)
    }

    /// May write through the capability.
    #[verifier::when_used_as_spec(spec_write)]
    pub fn write() -> (r: Rights)
        ensures
            r == Self::spec_write(),
            r.spec_bits() == 2,
    {
        Rights(2)
    }

    /// May hand the capability on to another thread.
    #[verifier::when_used_as_spec(spec_grant)]
    pub fn grant() -> (r: Rights)
        ensures
            r == Self::spec_grant(),
            r.spec_bits() == 4,
    {
        Rights(4)
    }

    /// Every right: read, write and grant.
    #[verifier::when_used_as_spec(spec_all)]
    pub fn all() -> (r: Rights)
        ensures
            r == Self::spec_all(),
            r.spec_bits() == 7,
    {
        Rights(7)
    }

    /// The bits of this set.
    pub closed spec fn spec_bits(self) -> u8 {
        self.0
    }

    /// Set inclusion: every right in `other` is in `self`.
    pub open spec fn spec_contains(self, other: Rights) -> bool {
        self.spec_bits() & other.spec_bits() == other.spec_bits()
    }

    /// The bits of this set.
    pub fn bits(&self) -> (r: u8)
        ensures
            r == self.spec_bits(),
    {
        self.0
    }

    /// Whether every right in `other` is also in `self`.
    pub fn contains(&self, other: Rights) -> (r: bool)
        ensures
            r == self.spec_contains(other),
            r == (other.spec_bits() & !self.spec_bits() == 0u8),
    {
        let a = self.0;
        let b = other.0;
        assert((a & b == b) == (b & !a == 0u8)) by (bit_vector);
        a & b == b
    }

    /// The rights in either set.
    pub fn union(self, other: Rights) -> (r: Rights)
        ensures
            r.spec_bits() == self.spec_bits() | other.spec_bits(),
            r.spec_contains(self),
            r.spec_contains(other),
    {
        let a = self.0;
        let b = other.0;
        assert((a | b) & a == a && (a | b) & b == b) by (bit_vector);
        Rights(a | b)
    }
}

} // verus!
