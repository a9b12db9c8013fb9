//! A vendor-specific extension protocol whose methods take no parameters.

use vstd::prelude::*;

verus! {

/// The protocol id of the vendor extension.
pub const USUM_117_PROTOCOL_ID: u8 = 0x75;

/// The methods of the vendor extension protocol.
#[derive(Debug, Clone, Copy, PartialEq, Eq, Structural)]
pub enum USUM117Method {
    Unknown1,
    Unknown7,
    Unknown9,
    Unknown10,
    Unknown15,
}

impl USUM117Method {
    /// The method id on the wire.
    pub open spec fn spec_id(self) -> u32 {
        match self {
            USUM117Method::Unknown1 => 0x1,
            USUM117Method::Unknown7 => 0x7,
            USUM117Method::Unknown9 => 0x9,
            USUM117Method::Unknown10 => 0xA,
            USUM117Method::Unknown15 => 0xF,
        }
    }

    pub fn id(self) -> (r: u32)
        ensures
            r == self.spec_id(),
    {
        match self {
            USUM117Method::Unknown1 => 0x1,
            USUM117Method::Unknown7 => 0x7,
            USUM117Method::Unknown9 => 0x9,
            USUM117Method::Unknown10 => 0xA,
            USUM117Method::Unknown15 => 0xF,
        }
    }

    /// The method with id `id`, if there is one.
    pub open spec fn spec_from_id(id: u32) -> Option<USUM117Method> {
        if id == 0x1 {
            Some(USUM117Method::Unknown1)
        } else if id == 0x7 {
            Some(USUM117Method::Unknown7)
        } else if id == 0x9 {
            Some(USUM117Method::Unknown9)
        } else if id == 0xA {
            Some(USUM117Method::Unknown10)
        } else if id == 0xF {
            Some(USUM117Method::Unknown15)
        } else {
            None
        }
    }

    /// The method with id `id`, if there is one.
    pub fn from_id(id: u32) -> (r: Option<USUM117Method>)
        ensures
            r == Self::spec_from_id(id),
            match r {
                Some(m) => m.spec_id() == id,
                None => forall|m: USUM117Method| m.spec_id() != id,
            },
    {
        if id == 0x1 {
            Some(USUM117Method::Unknown1)
        } else if id == 0x7 {
            Some(USUM117Method::Unknown7)
        } else if id == 0x9 {
            Some(USUM117Method::Unknown9)
        } else if id == 0xA {
            Some(USUM117Method::Unknown10)
        } else if id == 0xF {
            Some(USUM117Method::Unknown15)
        } else {
            None
        }
    }
}
} // verus!
