//! Socket addresses as plain values: a family tag and the native encoding.

use vstd::prelude::*;

verus! {

/// Family tag of local (path) addresses.
pub const AF_UNIX: u16 = 1;

/// Family tag of IPv4 addresses.
pub const AF_INET: u16 = 2;

/// Family tag of IPv6 addresses.
pub const AF_INET6: u16 = 10;

/// Length of an encoded IPv4 address.
pub const INET_LEN: usize = 16;

/// Length of an encoded IPv6 address.
pub const INET6_LEN: usize = 28;

/// Longest encoding of a local address.
pub const UNIX_MAX_LEN: usize = 110;

/// Longest encoding of an address of any other family.
pub const STORAGE_LEN: usize = 128;

/// Shortest encoding of any address: the family tag alone.
pub const MIN_LEN: usize = 2;

/// Whether an encoding of `len` bytes can be an address of `family`.
pub open spec fn valid_len(family: u16, len: nat) -> bool {
    if family == AF_INET {
        len == INET_LEN
    } else if family == AF_INET6 {
        len == INET6_LEN
    } else if family == AF_UNIX {
        MIN_LEN <= len <= UNIX_MAX_LEN
    } else {
        MIN_LEN <= len <= STORAGE_LEN
    }
}

/// What an [`Address`] stands for.
pub struct AddressView {
    pub family: u16,
    pub bytes: Seq<u8>,
}

/// A socket address. It never changes once made.
#[derive(Debug)]
pub struct Address {
    family: u16,
    bytes: Vec<u8>,
}

impl View for Address {
    type V = AddressView;

    closed spec fn view(&self) -> AddressView {
        AddressView { family: self.family, bytes: self.bytes@ }
    }
}

impl Address {
    #[verifier::type_invariant]
    spec fn length_fits_family(self) -> bool {
        valid_len(self.family, self.bytes@.len())
    }

    /// The encoding has a length that the family allows. This holds of every
    /// address.
    pub open spec fn wf(&self) -> bool {
        valid_len(self@.family, self@.bytes.len())
    }

    /// Makes an address of `family` from its native encoding, or nothing
    /// where the family does not allow an encoding of that length.
    pub fn from_raw(family: u16, bytes: Vec<u8>) -> (r: Option<Address>)
        ensures
            r is Some <==> valid_len(family, bytes@.len()),
            r matches Some(a) ==> a@.family == family && a@.bytes == bytes@ && a.wf(),
    {
        let n: usize = bytes.len();
        let fits = if family == AF_INET {
            n == INET_LEN
        } else if family == AF_INET6 {
            n == INET6_LEN
        } else if family == AF_UNIX {
            MIN_LEN <= n && n <= UNIX_MAX_LEN
        } else {
            MIN_LEN <= n && n <= STORAGE_LEN
        };
        if fits {
            Some(Address { family, bytes })
        } else {
            None
        }
    }

    /// The family tag.
    pub fn family(&self) -> (r: u16)
        ensures
            r == self@.family,
    {
        self.family
    }

    /// The native encoding.
    pub fn as_bytes(&self) -> (r: &Vec<u8>)
        ensures
            r@ == self@.bytes,
    {
        &self.bytes
    }

    /// The length of the native encoding, which the family allows.
    pub fn len(&self) -> (r: usize)
        ensures
            r == self@.bytes.len(),
            self.wf(),
    {
        proof {
            use_type_invariant(self);
        }
        self.bytes.len()
    }

    /// Whether two addresses are equal: their encodings agree byte by byte.
    pub fn same(&self, other: &Address) -> (r: bool)
        ensures
            r == (self@.bytes == other@.bytes),
    {
        if self.bytes.len() != other.bytes.len() {
            return false;
        }
        let n: usize = self.bytes.len();
        let mut i: usize = 0;
        while i < n
            invariant
                i <= n,
                n == self.bytes@.len(),
                n == other.bytes@.len(),
                forall|j: int| 0 <= j < i ==> self.bytes@[j] == other.bytes@[j],
            decreases n - i,
        {
            if self.bytes[i] != other.bytes[i] {
                return false;
            }
            i += 1;
        }
        proof {
            assert(self.bytes@ =~= other.bytes@);
        }
        true
    }
}

impl PartialEq for Address {
    fn eq(&self, other: &Address) -> (r: bool) {
        self.same(other)
    }
}

impl Eq for Address {

}

impl vstd::std_specs::cmp::PartialEqSpecImpl for Address {
    open spec fn obeys_eq_spec() -> bool {
        true
    }

    open spec fn eq_spec(&self, other: &Address) -> bool {
        self@.bytes == other@.bytes
    }
}

impl Clone for Address {
    fn clone(&self) -> (r: Self)
        ensures
            r@ == self@,
    {
        proof {
            use_type_invariant(self);
        }
        let n: usize = self.bytes.len();
        let mut bytes: Vec<u8> = Vec::with_capacity(n);
        let mut i: usize = 0;
        while i < n
            invariant
                i <= n,
                n == self.bytes@.len(),
                bytes@ == self.bytes@.subrange(0, i as int),
            decreases n - i,
        {
            bytes.push(self.bytes[i]);
            proof {
                assert(bytes@ =~= self.bytes@.subrange(0, i + 1));
            }
            i += 1;
        }
        proof {
            assert(bytes@ =~= self.bytes@);
        }
        Address { family: self.family, bytes }
    }
}

} // verus!
