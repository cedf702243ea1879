//! The reserved maximum of each integer width stands for "not recorded".
//! These functions turn it into an absent value.

use vstd::prelude::*;

verus! {

/// `raw`, or nothing where `raw` is the largest `u8`.
pub open spec fn sanitized_u8(raw: u8) -> Option<u8> {
    if raw == u8::MAX {
        None
    } else {
        Some(raw)
    }
}

/// `raw`, or nothing where `raw` is the largest `u16`.
pub open spec fn sanitized_u16(raw: u16) -> Option<u16> {
    if raw == u16::MAX {
        None
    } else {
        Some(raw)
    }
}

/// `raw`, or nothing where `raw` is the largest `u32`.
pub open spec fn sanitized_u32(raw: u32) -> Option<u32> {
    if raw == u32::MAX {
        None
    } else {
        Some(raw)
    }
}

/// `raw`, or nothing where `raw` is the largest `i8`.
pub open spec fn sanitized_i8(raw: i8) -> Option<i8> {
    if raw == i8::MAX {
        None
    } else {
        Some(raw)
    }
}

/// Absent exactly for `0xFF`; any other value comes back unchanged.
pub fn sanitize_u8(value: u8) -> (r: Option<u8>)
    ensures
        r == sanitized_u8(value),
        r is None <==> value == 0xFF,
        r matches Some(x) ==> x == value,
{
    if value == u8::MAX {
        None
    } else {
        Some(value)
    }
}

/// Absent exactly for `0xFFFF`; any other value comes back unchanged.
pub fn sanitize_u16(value: u16) -> (r: Option<u16>)
    ensures
        r == sanitized_u16(value),
        r is None <==> value == 0xFFFF,
        r matches Some(x) ==> x == value,
{
    if value == u16::MAX {
        None
    } else {
        Some(value)
    }
}

/// Absent exactly for `0xFFFF_FFFF`; any other value comes back unchanged.
pub fn sanitize_u32(value: u32) -> (r: Option<u32>)
    ensures
        r == sanitized_u32(value),
        r is None <==> value == 0xFFFF_FFFF,
        r matches Some(x) ==> x == value,
{
    if value == u32::MAX {
        None
    } else {
        Some(value)
    }
}

/// Absent exactly for `0x7F`; any other value comes back unchanged.
pub fn sanitize_i8(value: i8) -> (r: Option<i8>)
    ensures
        r == sanitized_i8(value),
        r is None <==> value == 0x7F,
        r matches Some(x) ==> x == value,
{
    if value == i8::MAX {
        None
    } else {
        Some(value)
    }
}

} // verus!
