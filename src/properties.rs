use vstd::prelude::*;

verus! {

/// The mask of all property bits a characteristic can declare.
pub const ALL_PROPERTY_BITS: u32 = 0x3ff;

/// One operation a characteristic may declare support for.
#[derive(Clone, Copy, Debug, PartialEq, Eq, Structural)]
pub enum CharacteristicProperty {
    Broadcast,
    Read,
    WriteWithoutResponse,
    Write,
    Notify,
    Indicate,
    AuthenticatedSignedWrites,
    ExtendedProperties,
    ReliableWrite,
    WritableAuxiliaries,
}

impl CharacteristicProperty {
    /// The bit of the property in the GATT properties field.
    pub open spec fn spec_bit(self) -> u32 {
        match self {
            CharacteristicProperty::Broadcast => 0x01,
            CharacteristicProperty::Read => 0x02,
            CharacteristicProperty::WriteWithoutResponse => 0x04,
            CharacteristicProperty::Write => 0x08,
            CharacteristicProperty::Notify => 0x10,
            CharacteristicProperty::Indicate => 0x20,
            CharacteristicProperty::AuthenticatedSignedWrites => 0x40,
            CharacteristicProperty::ExtendedProperties => 0x80,
            CharacteristicProperty::ReliableWrite => 0x100,
            CharacteristicProperty::WritableAuxiliaries => 0x200,
        }
    }

    /// The bit of the property in the GATT properties field.
    pub fn bit(self) -> (r: u32)
        ensures
            r == self.spec_bit(),
    {
        match self {
            CharacteristicProperty::Broadcast => 0x01,
            CharacteristicProperty::Read => 0x02,
            CharacteristicProperty::WriteWithoutResponse => 0x04,
            CharacteristicProperty::Write => 0x08,
            CharacteristicProperty::Notify => 0x10,
            CharacteristicProperty::Indicate => 0x20,
            CharacteristicProperty::AuthenticatedSignedWrites => 0x40,
            CharacteristicProperty::ExtendedProperties => 0x80,
            CharacteristicProperty::ReliableWrite => 0x100,
            CharacteristicProperty::WritableAuxiliaries => 0x200,
        }
    }
}

/// A set of characteristic properties, held as the known bits of the GATT
/// properties field.
#[derive(Clone, Copy, Debug, PartialEq, Eq, Structural)]
pub struct CharacteristicProperties {
    pub bits: u32,
}

impl CharacteristicProperties {
    /// Only known property bits are set.
    pub open spec fn wf(self) -> bool {
        self.bits <= ALL_PROPERTY_BITS
    }

    /// Whether the set holds `p`: the property's bit is set.
    pub open spec fn has(self, p: CharacteristicProperty) -> bool {
        match p {
            CharacteristicProperty::Broadcast => (self.bits / 1) % 2 == 1,
            CharacteristicProperty::Read => (self.bits / 0x2) % 2 == 1,
            CharacteristicProperty::WriteWithoutResponse => (self.bits / 0x4) % 2 == 1,
            CharacteristicProperty::Write => (self.bits / 0x8) % 2 == 1,
            CharacteristicProperty::Notify => (self.bits / 0x10) % 2 == 1,
            CharacteristicProperty::Indicate => (self.bits / 0x20) % 2 == 1,
            CharacteristicProperty::AuthenticatedSignedWrites => (self.bits / 0x40) % 2 == 1,
            CharacteristicProperty::ExtendedProperties => (self.bits / 0x80) % 2 == 1,
            CharacteristicProperty::ReliableWrite => (self.bits / 0x100) % 2 == 1,
            CharacteristicProperty::WritableAuxiliaries => (self.bits / 0x200) % 2 == 1,
        }
    }

    /// The set named by a raw properties field; unknown bits are dropped.
    pub fn from_bits_truncate(raw: u32) -> (r: CharacteristicProperties)
        ensures
            r.bits == raw & ALL_PROPERTY_BITS,
            r.bits == raw % 1024,
            r.wf(),
    {
        let bits = raw & ALL_PROPERTY_BITS;
        assert(raw & 0x3ff == raw % 1024) by (bit_vector);
        CharacteristicProperties { bits }
    }

    /// Whether the set holds `p`.
    pub fn contains(&self, p: CharacteristicProperty) -> (r: bool)
        ensures
            r == self.has(p),
    {
        match p {
            CharacteristicProperty::Broadcast => (self.bits / 1) % 2 == 1,
            CharacteristicProperty::Read => (self.bits / 0x2) % 2 == 1,
            CharacteristicProperty::WriteWithoutResponse => (self.bits / 0x4) % 2 == 1,
            CharacteristicProperty::Write => (self.bits / 0x8) % 2 == 1,
            CharacteristicProperty::Notify => (self.bits / 0x10) % 2 == 1,
            CharacteristicProperty::Indicate => (self.bits / 0x20) % 2 == 1,
            CharacteristicProperty::AuthenticatedSignedWrites => (self.bits / 0x40) % 2 == 1,
            CharacteristicProperty::ExtendedProperties => (self.bits / 0x80) % 2 == 1,
            CharacteristicProperty::ReliableWrite => (self.bits / 0x100) % 2 == 1,
            CharacteristicProperty::WritableAuxiliaries => (self.bits / 0x200) % 2 == 1,
        }
    }
}

} // verus!
