//! The address that the server listens on.
//!
//! The command line gives the address as text. Reading the text as an
//! IPv4 or as an IPv6 address is left to the standard library; what is
//! decided here is which reading counts, and what is said when none does.

use vstd::prelude::*;

verus! {

/// An address of one of the two families, as its bytes in network order.
#[derive(Clone, Copy, Debug)]
pub enum Address {
    /// An IPv4 address.
    V4([u8; 4]),
    /// An IPv6 address.
    V6([u8; 16]),
}

/// Why a command line value is not an address.
#[derive(Clone, Copy, Debug, PartialEq, Eq, Structural)]
pub enum AddressError {
    /// The value is not UTF-8.
    NotUtf8,
    /// The value is neither an IPv4 nor an IPv6 address.
    NotAnAddress,
}

impl AddressError {
    /// What the user is told.
    pub open spec fn spec_message(&self) -> Seq<char> {
        match self {
            AddressError::NotUtf8 => "must be a valid UTF-8 string"@,
            AddressError::NotAnAddress => "must be a valid IPv4 or IPv6 address"@,
        }
    }

    /// What the user is told.
    pub fn message(&self) -> (message: String)
        ensures
            message@ == self.spec_message(),
    {
        match self {
            AddressError::NotUtf8 => String::from_str("must be a valid UTF-8 string"),
            AddressError::NotAnAddress => String::from_str(
                "must be a valid IPv4 or IPv6 address",
            ),
        }
    }
}

/// Reads the address to listen on from a command line value.
#[derive(Clone, Copy, Debug)]
pub struct IpAddrParser;

impl Default for IpAddrParser {
    fn default() -> (parser: Self)
        ensures
            parser == IpAddrParser,
    {
        IpAddrParser
    }
}

/// The address that a value stands for, given whether the value is
/// UTF-8 and what it reads as in each family. The IPv4 reading goes first.
pub open spec fn resolved(is_utf8: bool, v4: Option<[u8; 4]>, v6: Option<[u8; 16]>) -> Result<
    Address,
    AddressError,
> {
    if !is_utf8 {
        Err(AddressError::NotUtf8)
    } else {
        match (v4, v6) {
            (Some(bytes), _) => Ok(Address::V4(bytes)),
            (None, Some(bytes)) => Ok(Address::V6(bytes)),
            (None, None) => Err(AddressError::NotAnAddress),
        }
    }
}

impl IpAddrParser {
    /// A parser.
    pub fn new() -> (parser: Self)
        ensures
            parser == IpAddrParser,
    {
        IpAddrParser
    }

    /// Decides which address a value stands for: none where the value is
    /// not UTF-8, else its reading as IPv4, else its reading as IPv6.
    pub fn resolve(&self, is_utf8: bool, v4: Option<[u8; 4]>, v6: Option<[u8; 16]>) -> (address:
        Result<Address, AddressError>)
        ensures
            address == resolved(is_utf8, v4, v6),
    {
        if !is_utf8 {
            return Err(AddressError::NotUtf8);
        }
        match (v4, v6) {
            (Some(bytes), _) => Ok(Address::V4(bytes)),
            (None, Some(bytes)) => Ok(Address::V6(bytes)),
            (None, None) => Err(AddressError::NotAnAddress),
        }
    }
}

} // verus!
