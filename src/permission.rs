//! Permissions of a pinUvAuthToken, kept as the fixed-width bitmask that
//! goes on the wire. A byte with a bit that no permission owns is refused.

use vstd::prelude::*;

verus! {

/// A capability that a pinUvAuthToken may be bound to.
#[derive(Debug, Clone, Copy, PartialEq, Eq, Structural)]
pub enum Permission {
    MakeCredential,
    GetAssertion,
    CredentialManagement,
    BiometricEnrollment,
    LargeBlobWrite,
    AuthenticatorConfiguration,
}

/// The wire bit of each permission.
pub open spec fn permission_bit(p: Permission) -> u8 {
    match p {
        Permission::MakeCredential => 0x01,
        Permission::GetAssertion => 0x02,
        Permission::CredentialManagement => 0x04,
        Permission::BiometricEnrollment => 0x08,
        Permission::LargeBlobWrite => 0x10,
        Permission::AuthenticatorConfiguration => 0x20,
    }
}

/// The bits of a permission byte that no permission owns.
pub const UNKNOWN_PERMISSION_BITS: u8 = 0xC0;

/// The permissions whose bits are set in `b`.
pub open spec fn permissions_of_byte(b: u8) -> Set<Permission> {
    Set::new(|p: Permission| b & permission_bit(p) != 0)
}

/// What a wire byte of permissions decodes to: refused when an unknown bit is
/// set, or when no bit is set.
pub open spec fn decode_permission_byte(b: u8) -> Result<Set<Permission>, PermissionError> {
    if b & UNKNOWN_PERMISSION_BITS != 0 {
        Err(PermissionError::UnknownBit)
    } else if b == 0 {
        Err(PermissionError::Empty)
    } else {
        Ok(permissions_of_byte(b))
    }
}

/// Why a permission byte was refused.
#[derive(Debug, Clone, Copy, PartialEq, Eq, Structural)]
pub enum PermissionError {
    /// No permission bit is set.
    Empty,
    /// A bit is set that no permission owns.
    UnknownBit,
}

/// The permission that owns a single bit, if any.
pub open spec fn permission_of_bit(b: u8) -> Option<Permission> {
    if b == 0x01 {
        Some(Permission::MakeCredential)
    } else if b == 0x02 {
        Some(Permission::GetAssertion)
    } else if b == 0x04 {
        Some(Permission::CredentialManagement)
    } else if b == 0x08 {
        Some(Permission::BiometricEnrollment)
    } else if b == 0x10 {
        Some(Permission::LargeBlobWrite)
    } else if b == 0x20 {
        Some(Permission::AuthenticatorConfiguration)
    } else {
        None
    }
}

impl Permission {
    /// The permission that owns the single bit `b`, if any.
    pub fn from_bit(b: u8) -> (r: Option<Permission>)
        ensures
            r == permission_of_bit(b),
    {
        if b == 0x01 {
            Some(Permission::MakeCredential)
        } else if b == 0x02 {
            Some(Permission::GetAssertion)
        } else if b == 0x04 {
            Some(Permission::CredentialManagement)
        } else if b == 0x08 {
            Some(Permission::BiometricEnrollment)
        } else if b == 0x10 {
            Some(Permission::LargeBlobWrite)
        } else if b == 0x20 {
            Some(Permission::AuthenticatorConfiguration)
        } else {
            None
        }
    }

    /// The wire bit of this permission.
    pub fn bit(&self) -> (r: u8)
        ensures
            r == permission_bit(*self),
    {
        match self {
            Permission::MakeCredential => 0x01,
            Permission::GetAssertion => 0x02,
            Permission::CredentialManagement => 0x04,
            Permission::BiometricEnrollment => 0x08,
            Permission::LargeBlobWrite => 0x10,
            Permission::AuthenticatorConfiguration => 0x20,
        }
    }
}

/// A set of permissions, kept as the bitmask that goes on the wire.
#[derive(Debug, Clone, Copy, PartialEq, Eq, Structural)]
pub struct PermissionSet {
    bits: u8,
}

impl View for PermissionSet {
    type V = Set<Permission>;

    open spec fn view(&self) -> Set<Permission> {
        permissions_of_byte(self.spec_bits())
    }
}

impl PermissionSet {
    /// The bitmask behind the set.
    pub closed spec fn spec_bits(&self) -> u8 {
        self.bits
    }

    /// The set whose bitmask is `b`.
    pub closed spec fn spec_from_bits(b: u8) -> PermissionSet {
        PermissionSet { bits: b }
    }

    /// A set is the one built from its own bitmask.
    pub proof fn lemma_from_own_bits(s: PermissionSet)
        ensures
            PermissionSet::spec_from_bits(s.spec_bits()) == s,
            PermissionSet::spec_from_bits(s.spec_bits()).spec_bits() == s.spec_bits(),
    {
    }

    /// The bitmask of the set built from `b`.
    pub proof fn lemma_bits_of_from_bits(b: u8)
        ensures
            PermissionSet::spec_from_bits(b).spec_bits() == b,
    {
    }

    /// Only the six defined bits may be set.
    pub closed spec fn wf(&self) -> bool {
        self.bits & UNKNOWN_PERMISSION_BITS == 0
    }

    /// The empty set.
    pub fn empty() -> (r: PermissionSet)
        ensures
            r.wf(),
            r@ == Set::<Permission>::empty(),
            r.spec_bits() == 0,
    {
        let r = PermissionSet { bits: 0 };
        assert(0u8 & 0xC0u8 == 0) by (bit_vector);
        assert(r@ =~= Set::<Permission>::empty()) by {
            assert forall|p: Permission| !r@.contains(p) by {
                assert(0u8 & permission_bit(p) == 0) by (bit_vector);
            }
        }
        r
    }

    /// Adds one permission to the set.
    pub fn insert(&mut self, p: Permission)
        requires
            old(self).wf(),
        ensures
            final(self).wf(),
            final(self)@ == old(self)@.insert(p),
            final(self).spec_bits() == old(self).spec_bits() | permission_bit(p),
    {
        let old_bits = self.bits;
        let b = p.bit();
        self.bits = self.bits | b;
        let nb = self.bits;
        proof {
            assert(nb & UNKNOWN_PERMISSION_BITS == 0) by {
                lemma_bit_known(p);
                lemma_bit_shapes(old_bits, b);
            }
            assert forall|q: Permission| #[trigger] self@.contains(q) == old(self)@.insert(p).contains(q) by {
                let qb = permission_bit(q);
                lemma_bit_shapes(qb, b);
                lemma_or_test(old_bits, b, qb);
                if q != p {
                    lemma_distinct_bits(p, q);
                } else {
                    lemma_bit_nonzero(p);
                }
            }
            assert(self@ =~= old(self)@.insert(p));
        }
    }

    /// Whether `p` is in the set.
    pub fn contains(&self, p: Permission) -> (r: bool)
        ensures
            r == self@.contains(p),
    {
        self.bits & p.bit() != 0
    }

    /// Whether the set is empty.
    pub fn is_empty(&self) -> (r: bool)
        requires
            self.wf(),
        ensures
            r == (self@ == Set::<Permission>::empty()),
    {
        proof {
            lemma_byte_view(self.bits);
        }
        if self.bits == 0 {
            assert(self@ =~= Set::<Permission>::empty());
            true
        } else {
            assert(!self@.is_empty());
            false
        }
    }

    /// Folds a list of permissions into a set by OR-ing their bits.
    pub fn from_permissions(ps: &Vec<Permission>) -> (r: PermissionSet)
        ensures
            r.wf(),
            r@ == ps@.to_set(),
    {
        let mut s = PermissionSet::empty();
        let mut i: usize = 0;
        while i < ps.len()
            invariant
                i <= ps.len(),
                s.wf(),
                s@ == ps@.take(i as int).to_set(),
            decreases ps.len() - i,
        {
            proof {
                assert(ps@.take(i as int + 1) == ps@.take(i as int).push(ps@[i as int]));
                ps@.take(i as int).lemma_push_to_set_commute(ps@[i as int]);
            }
            s.insert(ps[i]);
            i = i + 1;
        }
        assert(ps@.take(ps.len() as int) == ps@);
        s
    }

    /// The wire byte of the set.
    pub fn to_byte(&self) -> (r: u8)
        ensures
            r == self.spec_bits(),
    {
        self.bits
    }

    /// Reads a wire byte, refusing one with no bit set or with an unknown bit set.
    pub fn from_byte(b: u8) -> (r: Result<PermissionSet, PermissionError>)
        ensures
            r is Ok <==> decode_permission_byte(b) is Ok,
            r matches Ok(s) ==> s.wf() && s.spec_bits() == b && s@ == decode_permission_byte(b)->Ok_0
                && !s@.is_empty() && s == PermissionSet::spec_from_bits(b),
            r matches Err(e) ==> decode_permission_byte(b) == Err::<Set<Permission>, _>(e),
    {
        if b & UNKNOWN_PERMISSION_BITS != 0 {
            Err(PermissionError::UnknownBit)
        } else if b == 0 {
            Err(PermissionError::Empty)
        } else {
            let s = PermissionSet { bits: b };
            proof {
                lemma_byte_view(b);
            }
            Ok(s)
        }
    }
}

proof fn lemma_bit_known(p: Permission)
    ensures
        permission_bit(p) & UNKNOWN_PERMISSION_BITS == 0,
{
    let pb = permission_bit(p);
    assert(pb & 0xC0 == 0) by (bit_vector)
        requires
            pb == 1 || pb == 2 || pb == 4 || pb == 8 || pb == 16 || pb == 32,
    ;
}

proof fn lemma_bit_shapes(a: u8, b: u8)
    ensures
        a & 0xC0 == 0 && b & 0xC0 == 0 ==> (a | b) & 0xC0 == 0,
{
    assert(a & 0xC0 == 0 && b & 0xC0 == 0 ==> (a | b) & 0xC0 == 0) by (bit_vector);
}

proof fn lemma_or_test(a: u8, b: u8, q: u8)
    ensures
        ((a | b) & q != 0) == (a & q != 0 || b & q != 0),
{
    assert(((a | b) & q != 0) == (a & q != 0 || b & q != 0)) by (bit_vector);
}

proof fn lemma_distinct_bits(p: Permission, q: Permission)
    requires
        p != q,
    ensures
        permission_bit(p) & permission_bit(q) == 0,
{
    let pb = permission_bit(p);
    let qb = permission_bit(q);
    assert(pb & qb == 0) by (bit_vector)
        requires
            pb != qb,
            pb == 1 || pb == 2 || pb == 4 || pb == 8 || pb == 16 || pb == 32,
            qb == 1 || qb == 2 || qb == 4 || qb == 8 || qb == 16 || qb == 32,
    ;
}

proof fn lemma_bit_nonzero(p: Permission)
    ensures
        permission_bit(p) & permission_bit(p) != 0,
{
    let pb = permission_bit(p);
    assert(pb & pb != 0) by (bit_vector)
        requires
            pb != 0,
    ;
}

/// A byte with only defined bits set is empty exactly when its set of
/// permissions is.
proof fn lemma_byte_view(b: u8)
    requires
        b & UNKNOWN_PERMISSION_BITS == 0,
    ensures
        b == 0 <==> permissions_of_byte(b).is_empty(),
{
    if b == 0 {
        assert forall|p: Permission| !permissions_of_byte(b).contains(p) by {
            let pb = permission_bit(p);
            assert(0u8 & pb == 0) by (bit_vector);
        }
        assert(permissions_of_byte(b) =~= Set::empty());
    } else {
        assert(b & 1 != 0 || b & 2 != 0 || b & 4 != 0 || b & 8 != 0 || b & 16 != 0 || b & 32 != 0)
            by (bit_vector)
            requires
                b & 0xC0 == 0,
                b != 0,
        ;
        if b & 1 != 0 {
            assert(permissions_of_byte(b).contains(Permission::MakeCredential));
        } else if b & 2 != 0 {
            assert(permissions_of_byte(b).contains(Permission::GetAssertion));
        } else if b & 4 != 0 {
            assert(permissions_of_byte(b).contains(Permission::CredentialManagement));
        } else if b & 8 != 0 {
            assert(permissions_of_byte(b).contains(Permission::BiometricEnrollment));
        } else if b & 16 != 0 {
            assert(permissions_of_byte(b).contains(Permission::LargeBlobWrite));
        } else {
            assert(permissions_of_byte(b).contains(Permission::AuthenticatorConfiguration));
        }
    }
}

/// Two sets with only defined bits set are equal exactly when their bytes are.
proof fn lemma_view_determines_bits(a: u8, b: u8)
    requires
        a & UNKNOWN_PERMISSION_BITS == 0,
        b & UNKNOWN_PERMISSION_BITS == 0,
        permissions_of_byte(a) == permissions_of_byte(b),
    ensures
        a == b,
{
    assert(permissions_of_byte(a).contains(Permission::MakeCredential) == (a & 1u8 != 0));
    assert(permissions_of_byte(b).contains(Permission::MakeCredential) == (b & 1u8 != 0));
    assert((a & 1u8 != 0) == (b & 1u8 != 0));
    assert(permissions_of_byte(a).contains(Permission::GetAssertion) == (a & 2u8 != 0));
    assert(permissions_of_byte(b).contains(Permission::GetAssertion) == (b & 2u8 != 0));
    assert((a & 2u8 != 0) == (b & 2u8 != 0));
    assert(permissions_of_byte(a).contains(Permission::CredentialManagement) == (a & 4u8 != 0));
    assert(permissions_of_byte(b).contains(Permission::CredentialManagement) == (b & 4u8 != 0));
    assert((a & 4u8 != 0) == (b & 4u8 != 0));
    assert(permissions_of_byte(a).contains(Permission::BiometricEnrollment) == (a & 8u8 != 0));
    assert(permissions_of_byte(b).contains(Permission::BiometricEnrollment) == (b & 8u8 != 0));
    assert((a & 8u8 != 0) == (b & 8u8 != 0));
    assert(permissions_of_byte(a).contains(Permission::LargeBlobWrite) == (a & 16u8 != 0));
    assert(permissions_of_byte(b).contains(Permission::LargeBlobWrite) == (b & 16u8 != 0));
    assert((a & 16u8 != 0) == (b & 16u8 != 0));
    assert(permissions_of_byte(a).contains(Permission::AuthenticatorConfiguration) == (a & 32u8 != 0));
    assert(permissions_of_byte(b).contains(Permission::AuthenticatorConfiguration) == (b & 32u8 != 0));
    assert((a & 32u8 != 0) == (b & 32u8 != 0));
    assert(a == b) by (bit_vector)
        requires
            a & 0xC0 == 0,
            b & 0xC0 == 0,
            (a & 1 != 0) == (b & 1 != 0),
            (a & 2 != 0) == (b & 2 != 0),
            (a & 4 != 0) == (b & 4 != 0),
            (a & 8 != 0) == (b & 8 != 0),
            (a & 16 != 0) == (b & 16 != 0),
            (a & 32 != 0) == (b & 32 != 0),
    ;
}

/// A non-empty set of permissions survives the trip through its wire byte,
/// and a byte with an unknown bit set is refused.
pub proof fn lemma_permission_byte_round_trip(s: PermissionSet, b: u8)
    requires
        s.wf(),
        !s@.is_empty(),
    ensures
        decode_permission_byte(s.spec_bits()) == Ok::<_, PermissionError>(s@),
        b & UNKNOWN_PERMISSION_BITS != 0 ==> decode_permission_byte(b) == Err::<Set<Permission>, _>(
            PermissionError::UnknownBit,
        ),
{
    lemma_byte_view(s.spec_bits());
}

/// Equal sets of permissions have equal wire bytes.
pub proof fn lemma_permission_set_ext(s: PermissionSet, t: PermissionSet)
    requires
        s.wf(),
        t.wf(),
        s@ == t@,
    ensures
        s == t,
{
    lemma_view_determines_bits(s.spec_bits(), t.spec_bits());
}


/// Permissions and their wire bits pair up one to one: each permission's
/// bit gives it back, and a bit that names a permission is that
/// permission's bit.
pub proof fn lemma_permission_bit_bijection(p: Permission, b: u8)
    ensures
        permission_of_bit(permission_bit(p)) == Some(p),
        permission_of_bit(b) matches Some(q) ==> permission_bit(q) == b,
{
}

} // verus!
