//! Link-layer and IPv4 addresses as plain byte arrays.

use vstd::prelude::*;

verus! {

/// A 48-bit Ethernet (MAC) address.
#[derive(Debug, Clone, Copy, PartialEq, Eq)]
pub struct EthernetAddress(pub [u8; 6]);

/// An IPv4 address, in network order.
#[derive(Debug, Clone, Copy, PartialEq, Eq)]
pub struct Ipv4Address(pub [u8; 4]);

impl EthernetAddress {
    /// The address held in the six bytes of `data`.
    pub fn from_bytes(data: &[u8]) -> (r: Self)
        requires
            data@.len() == 6,
        ensures
            r.0@ == data@,
    {
        let r = EthernetAddress([data[0], data[1], data[2], data[3], data[4], data[5]]);
        assert(r.0@ =~= data@);
        r
    }

    /// The six bytes of the address.
    pub fn as_bytes(&self) -> (r: &[u8])
        ensures
            r@ == self.0@,
    {
        &self.0
    }

    /// Whether the two addresses are equal, byte for byte.
    pub fn same_as(&self, other: &EthernetAddress) -> (r: bool)
        ensures
            r == (self.0@ == other.0@),
    {
        let mut i: usize = 0;
        while i < 6
            invariant
                i <= 6,
                forall|j: int| 0 <= j < i ==> self.0@[j] == other.0@[j],
            decreases 6 - i,
        {
            if self.0[i] != other.0[i] {
                return false;
            }
            i = i + 1;
        }
        assert(self.0@ =~= other.0@);
        true
    }
}

impl Ipv4Address {
    /// The address `a.b.c.d`.
    pub fn new(a: u8, b: u8, c: u8, d: u8) -> (r: Self)
        ensures
            r.0@ == seq![a, b, c, d],
    {
        let r = Ipv4Address([a, b, c, d]);
        assert(r.0@ =~= seq![a, b, c, d]);
        r
    }

    /// The address held in the four bytes of `data`.
    pub fn from_bytes(data: &[u8]) -> (r: Self)
        requires
            data@.len() == 4,
        ensures
            r.0@ == data@,
    {
        Self::new(data[0], data[1], data[2], data[3])
    }

    /// The four bytes of the address.
    pub fn as_bytes(&self) -> (r: &[u8])
        ensures
            r@ == self.0@,
    {
        &self.0
    }

    /// Whether this is 0.0.0.0.
    pub fn is_unspecified(&self) -> (r: bool)
        ensures
            r == (self.0@ == seq![0u8, 0u8, 0u8, 0u8]),
    {
        let r = self.0[0] == 0 && self.0[1] == 0 && self.0[2] == 0 && self.0[3] == 0;
        assert(r ==> self.0@ =~= seq![0u8, 0u8, 0u8, 0u8]);
        r
    }
}

} // verus!
