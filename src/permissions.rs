use vstd::prelude::*;

use crate::error::MultisigError;

verus! {

/// Bit 0: may propose.
pub const PROPOSE_BIT: u8 = 1;

/// Bit 1: may add assets.
pub const ADD_ASSET_BIT: u8 = 2;

/// Every bit but the two capabilities; reserved and required to be zero.
pub const RESERVED_MASK: u8 = 0b1111_1100;

/// A member's capabilities, one bit each.
#[derive(Debug, Clone, Copy)]
pub struct Permissions {
    pub permissions: u8,
}

impl Permissions {
    pub open spec fn can_propose(self) -> bool {
        self.permissions & PROPOSE_BIT != 0
    }

    pub open spec fn can_add_asset(self) -> bool {
        self.permissions & ADD_ASSET_BIT != 0
    }

    /// No reserved bit is set.
    pub open spec fn valid(self) -> bool {
        self.permissions & RESERVED_MASK == 0
    }

    /// Permissions checked to hold no reserved bit.
    pub fn new(permissions: u8) -> (r: Result<Permissions, MultisigError>)
        ensures
            r is Ok <==> permissions & RESERVED_MASK == 0,
            r matches Ok(p) ==> p.permissions == permissions,
            r is Err ==> r == Err::<Permissions, MultisigError>(MultisigError::InvalidPermissions),
    {
        let p = Permissions { permissions };
        p.validate()?;
        Ok(p)
    }

    /// Permissions taken as they come, reserved bits included; see `validate`.
    pub fn from_unchecked(permissions: u8) -> (r: Permissions)
        ensures
            r.permissions == permissions,
    {
        Permissions { permissions }
    }

    /// Permissions holding exactly the capabilities asked for.
    pub fn from_flags(propose: bool, add_asset: bool) -> (r: Permissions)
        ensures
            r.can_propose() == propose,
            r.can_add_asset() == add_asset,
            r.valid(),
    {
        let mut p = Permissions { permissions: 0 };
        assert(0u8 & RESERVED_MASK == 0) by (bit_vector);
        p.set_propose(propose);
        p.set_add_asset(add_asset);
        p
    }

    pub fn bits(&self) -> (r: u8)
        ensures
            r == self.permissions,
    {
        self.permissions
    }

    pub fn has_propose(&self) -> (r: bool)
        ensures
            r == self.can_propose(),
    {
        (self.permissions & PROPOSE_BIT) != 0
    }

    pub fn set_propose(&mut self, enable: bool)
        ensures
            final(self).can_propose() == enable,
            final(self).can_add_asset() == old(self).can_add_asset(),
            final(self).permissions & RESERVED_MASK == old(self).permissions & RESERVED_MASK,
    {
        let b = self.permissions;
        if enable {
            self.permissions = b | PROPOSE_BIT;
            assert((b | 1u8) & 1u8 != 0 && ((b | 1u8) & 2u8 != 0) == (b & 2u8 != 0) && (b | 1u8)
                & 0xfcu8 == b & 0xfcu8) by (bit_vector);
        } else {
            self.permissions = b & !PROPOSE_BIT;
            assert((b & !1u8) & 1u8 == 0 && ((b & !1u8) & 2u8 != 0) == (b & 2u8 != 0) && (b
                & !1u8) & 0xfcu8 == b & 0xfcu8) by (bit_vector);
        }
    }

    pub fn has_add_asset(&self) -> (r: bool)
        ensures
            r == self.can_add_asset(),
    {
        (self.permissions & ADD_ASSET_BIT) != 0
    }

    pub fn set_add_asset(&mut self, enable: bool)
        ensures
            final(self).can_add_asset() == enable,
            final(self).can_propose() == old(self).can_propose(),
            final(self).permissions & RESERVED_MASK == old(self).permissions & RESERVED_MASK,
    {
        let b = self.permissions;
        if enable {
            self.permissions = b | ADD_ASSET_BIT;
            assert((b | 2u8) & 2u8 != 0 && ((b | 2u8) & 1u8 != 0) == (b & 1u8 != 0) && (b | 2u8)
                & 0xfcu8 == b & 0xfcu8) by (bit_vector);
        } else {
            self.permissions = b & !ADD_ASSET_BIT;
            assert((b & !2u8) & 2u8 == 0 && ((b & !2u8) & 1u8 != 0) == (b & 1u8 != 0) && (b
                & !2u8) & 0xfcu8 == b & 0xfcu8) by (bit_vector);
        }
    }

    /// Refuses permissions with a reserved bit set.
    pub fn validate(&self) -> (r: Result<(), MultisigError>)
        ensures
            r is Ok <==> self.valid(),
            r is Err ==> r == Err::<(), MultisigError>(MultisigError::InvalidPermissions),
    {
        if (self.permissions & RESERVED_MASK) != 0 {
            return Err(MultisigError::InvalidPermissions);
        }
        Ok(())
    }
}

} // verus!
