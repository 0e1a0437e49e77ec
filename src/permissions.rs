use vstd::prelude::*;

verus! {

/// Bit for the right to manage channels and categories of a server.
pub const MANAGE_CHANNEL: u64 = 1;

/// Bit for the right to manage the general attributes of a server.
pub const MANAGE_SERVER: u64 = 2;

/// The mask with every permission bit set.
pub const ALL_PERMISSIONS: u64 = 0xFFFF_FFFF_FFFF_FFFF;

/// A named right that the edit flow checks before it writes.
#[derive(Debug, Clone, Copy, PartialEq, Eq, Structural)]
pub enum Permission {
    ManageChannel,
    ManageServer,
}

pub open spec fn permission_bit(p: Permission) -> u64 {
    match p {
        Permission::ManageChannel => MANAGE_CHANNEL,
        Permission::ManageServer => MANAGE_SERVER,
    }
}

impl Permission {
    /// The single bit that stands for this right.
    pub fn bit(self) -> (r: u64)
        ensures
            r == permission_bit(self),
    {
        match self {
            Permission::ManageChannel => MANAGE_CHANNEL,
            Permission::ManageServer => MANAGE_SERVER,
        }
    }
}

/// A scoped override: bits it grants and bits it takes away.
#[derive(Debug, Clone, Copy, PartialEq, Eq, Structural)]
pub struct OverrideField {
    pub allow: u64,
    pub deny: u64,
}

/// `(base & !deny) | allow`.
pub open spec fn compose_spec(base: u64, o: OverrideField) -> u64 {
    (base & !o.deny) | o.allow
}

pub open spec fn has_spec(mask: u64, bit: u64) -> bool {
    mask & bit == bit
}

/// Whether every bit of `bit` is set in `mask`.
pub fn holds(mask: u64, bit: u64) -> (r: bool)
    ensures
        r == has_spec(mask, bit),
{
    mask & bit == bit
}

/// The bits set in either mask.
pub fn union(a: u64, b: u64) -> (r: u64)
    ensures
        r == a | b,
{
    a | b
}

/// The bits set in both masks.
pub fn intersection(a: u64, b: u64) -> (r: u64)
    ensures
        r == a & b,
{
    a & b
}

/// The bits of `a` that are not set in `b`.
pub fn difference(a: u64, b: u64) -> (r: u64)
    ensures
        r == a & !b,
{
    a & !b
}

/// Applies an override on top of a base mask.
pub fn compose(base: u64, o: OverrideField) -> (r: u64)
    ensures
        r == compose_spec(base, o),
{
    (base & !o.deny) | o.allow
}

} // verus!
