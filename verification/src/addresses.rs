use vstd::prelude::*;

verus! {

/// The two versions of the internet protocol.
pub enum IPAddressKind {
    V4,
    V6,
}

/// An address paired with the kind that its text is written in.
pub struct IPAddress {
    pub kind: IPAddressKind,
    pub address: String,
}

/// An address whose kind is carried by the variant itself.
pub enum IpAddr {
    V4(String),
    V6(String),
}

/// An address whose version-four form is four octets rather than text.
pub enum IpAddr2 {
    V4(u8, u8, u8, u8),
    V6(String),
}

} // verus!
