//! Plain values shared by every component: party addresses, record
//! identifiers, saturating arithmetic on signed amounts and the length of
//! texts.

use vstd::prelude::*;

verus! {

/// A key that can be compared at run time, with the comparison meaning
/// equality of the values.
pub trait Ident: Copy {
    /// Whether the two keys are the same value.
    fn same(&self, other: &Self) -> (r: bool)
        ensures
            r == (*self == *other),
    ;
}

/// What an address stands for.
#[derive(Clone, Copy, Debug, PartialEq, Eq, Structural, Hash)]
pub enum AddressKind {
    /// An account, named by its public key.
    Account,
    /// A component, named by the hash under which it is deployed.
    Contract,
}

/// The identity of a party or of a component: its kind and 256 opaque bits.
#[derive(Clone, Copy, Debug, PartialEq, Eq, Structural, Hash)]
pub struct Address {
    pub kind: AddressKind,
    pub hi: u128,
    pub lo: u128,
}

impl Address {
    /// The address of the account with the given key.
    pub fn account(hi: u128, lo: u128) -> (a: Address)
        ensures
            a == (Address { kind: AddressKind::Account, hi, lo }),
    {
        Address { kind: AddressKind::Account, hi, lo }
    }

    /// The address of the component with the given hash.
    pub fn contract(hi: u128, lo: u128) -> (a: Address)
        ensures
            a == (Address { kind: AddressKind::Contract, hi, lo }),
    {
        Address { kind: AddressKind::Contract, hi, lo }
    }
}

/// The identity of a stored record, as 256 opaque bits.
#[derive(Clone, Copy, Debug, PartialEq, Eq, Structural, Hash)]
pub struct RecordId {
    pub hi: u128,
    pub lo: u128,
}

impl Ident for Address {
    fn same(&self, other: &Self) -> (r: bool) {
        let same_kind = match (self.kind, other.kind) {
            (AddressKind::Account, AddressKind::Account) => true,
            (AddressKind::Contract, AddressKind::Contract) => true,
            _ => false,
        };
        same_kind && self.hi == other.hi && self.lo == other.lo
    }
}

impl Ident for RecordId {
    fn same(&self, other: &Self) -> (r: bool) {
        self.hi == other.hi && self.lo == other.lo
    }
}

/// The length of a text in bytes, as the machine counts it.
pub open spec fn byte_len(text: &String) -> usize {
    vstd::utf8::encode_utf8(text@).len() as usize
}

/// The sum of two amounts, held at the ends of the `i128` range.
pub open spec fn saturating_sum(a: i128, b: i128) -> i128 {
    if a + b > i128::MAX {
        i128::MAX
    } else if a + b < i128::MIN {
        i128::MIN
    } else {
        (a + b) as i128
    }
}

/// Adds two amounts, saturating at the ends of the `i128` range.
pub fn saturating_add(a: i128, b: i128) -> (r: i128)
    ensures
        r == saturating_sum(a, b),
{
    match a.checked_add(b) {
        Some(v) => v,
        None => if b > 0 { i128::MAX } else { i128::MIN },
    }
}

} // verus!
