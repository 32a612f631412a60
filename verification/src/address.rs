use vstd::prelude::*;

verus! {

/// An address is one of two shapes: four small unsigned integers forming a
/// four-part numeric address, or one arbitrary textual form.
pub enum IpAddr {
    V4(u8, u8, u8, u8),
    V6(String),
}

/// Accepts a reference to an address of either shape without
/// discrimination; returns nothing, has no side effects, and cannot fail.
pub fn route(_ip_kind: &IpAddr) {
}

} // verus!
