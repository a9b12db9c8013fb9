//! The monitoring protocol: probes that take no parameters.

use vstd::prelude::*;

verus! {

/// The methods of the monitoring protocol.
#[derive(Debug, Clone, Copy, PartialEq, Eq, Structural)]
pub enum MonitoringMethod {
    PingDaemon,
    GetClusterMembers,
}

impl MonitoringMethod {
    /// The method id on the wire.
    pub open spec fn spec_id(self) -> u32 {
        match self {
            MonitoringMethod::PingDaemon => 0x1,
            MonitoringMethod::GetClusterMembers => 0x2,
        }
    }

    pub fn id(self) -> (r: u32)
        ensures
            r == self.spec_id(),
    {
        match self {
            MonitoringMethod::PingDaemon => 0x1,
            MonitoringMethod::GetClusterMembers => 0x2,
        }
    }

    /// The method with id `id`, if there is one.
    pub open spec fn spec_from_id(id: u32) -> Option<MonitoringMethod> {
        if id == 0x1 {
            Some(MonitoringMethod::PingDaemon)
        } else if id == 0x2 {
            Some(MonitoringMethod::GetClusterMembers)
        } else {
            None
        }
    }

    /// The method with id `id`, if there is one.
    pub fn from_id(id: u32) -> (r: Option<MonitoringMethod>)
        ensures
            r == Self::spec_from_id(id),
            match r {
                Some(m) => m.spec_id() == id,
                None => forall|m: MonitoringMethod| m.spec_id() != id,
            },
    {
        if id == 0x1 {
            Some(MonitoringMethod::PingDaemon)
        } else if id == 0x2 {
            Some(MonitoringMethod::GetClusterMembers)
        } else {
            None
        }
    }
}
} // verus!
