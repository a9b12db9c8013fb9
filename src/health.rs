//! The health protocol: liveness and consistency probes, none of which
//! takes parameters.

use vstd::prelude::*;

verus! {

/// The methods of the health protocol.
#[derive(Debug, Clone, Copy, PartialEq, Eq, Structural)]
pub enum HealthMethod {
    PingDaemon,
    PingDatabase,
    RunSanityCheck,
    FixSanityErrors,
}

impl HealthMethod {
    /// The method id on the wire.
    pub open spec fn spec_id(self) -> u32 {
        match self {
            HealthMethod::PingDaemon => 0x1,
            HealthMethod::PingDatabase => 0x2,
            HealthMethod::RunSanityCheck => 0x3,
            HealthMethod::FixSanityErrors => 0x4,
        }
    }

    pub fn id(self) -> (r: u32)
        ensures
            r == self.spec_id(),
    {
        match self {
            HealthMethod::PingDaemon => 0x1,
            HealthMethod::PingDatabase => 0x2,
            HealthMethod::RunSanityCheck => 0x3,
            HealthMethod::FixSanityErrors => 0x4,
        }
    }

    /// The method with id `id`, if there is one.
    pub open spec fn spec_from_id(id: u32) -> Option<HealthMethod> {
        if id == 0x1 {
            Some(HealthMethod::PingDaemon)
        } else if id == 0x2 {
            Some(HealthMethod::PingDatabase)
        } else if id == 0x3 {
            Some(HealthMethod::RunSanityCheck)
        } else if id == 0x4 {
            Some(HealthMethod::FixSanityErrors)
        } else {
            None
        }
    }

    /// The method with id `id`, if there is one.
    pub fn from_id(id: u32) -> (r: Option<HealthMethod>)
        ensures
            r == Self::spec_from_id(id),
            match r {
                Some(m) => m.spec_id() == id,
                None => forall|m: HealthMethod| m.spec_id() != id,
            },
    {
        if id == 0x1 {
            Some(HealthMethod::PingDaemon)
        } else if id == 0x2 {
            Some(HealthMethod::PingDatabase)
        } else if id == 0x3 {
            Some(HealthMethod::RunSanityCheck)
        } else if id == 0x4 {
            Some(HealthMethod::FixSanityErrors)
        } else {
            None
        }
    }
}
} // verus!
