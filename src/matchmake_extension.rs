//! The matchmaking extension protocol: opening and closing gatherings,
//! browsing sessions, and simple matchmaking.

use crate::extract::{extract_params, parse_params, ExtractError};
use vstd::prelude::*;
use vstd::slice::slice_to_vec;

verus! {

/// The protocol id of the matchmaking extension.
pub const MATCHMAKE_EXTENSION_PROTOCOL_ID: u8 = 0x6D;

/// The methods of the matchmaking extension protocol.
#[derive(Debug, Clone, Copy, PartialEq, Eq, Structural)]
pub enum MatchmakeExtensionMethod {
    CloseParticipation,
    OpenParticipation,
    BrowseMatchmakeSession,
    BrowseMatchmakeSessionWithHostUrls,
    GetAttractionStatus,
    SimpleMatchmake,
}

impl MatchmakeExtensionMethod {
    /// The method id on the wire.
    pub open spec fn spec_id(self) -> u32 {
        match self {
            MatchmakeExtensionMethod::CloseParticipation => 0x1,
            MatchmakeExtensionMethod::OpenParticipation => 0x2,
            MatchmakeExtensionMethod::BrowseMatchmakeSession => 0x4,
            MatchmakeExtensionMethod::BrowseMatchmakeSessionWithHostUrls => 0x5,
            MatchmakeExtensionMethod::GetAttractionStatus => 0x31,
            MatchmakeExtensionMethod::SimpleMatchmake => 0x33,
        }
    }

    pub fn id(self) -> (r: u32)
        ensures
            r == self.spec_id(),
    {
        match self {
            MatchmakeExtensionMethod::CloseParticipation => 0x1,
            MatchmakeExtensionMethod::OpenParticipation => 0x2,
            MatchmakeExtensionMethod::BrowseMatchmakeSession => 0x4,
            MatchmakeExtensionMethod::BrowseMatchmakeSessionWithHostUrls => 0x5,
            MatchmakeExtensionMethod::GetAttractionStatus => 0x31,
            MatchmakeExtensionMethod::SimpleMatchmake => 0x33,
        }
    }

    /// The method with id `id`, if there is one.
    pub open spec fn spec_from_id(id: u32) -> Option<MatchmakeExtensionMethod> {
        if id == 0x1 {
            Some(MatchmakeExtensionMethod::CloseParticipation)
        } else if id == 0x2 {
            Some(MatchmakeExtensionMethod::OpenParticipation)
        } else if id == 0x4 {
            Some(MatchmakeExtensionMethod::BrowseMatchmakeSession)
        } else if id == 0x5 {
            Some(MatchmakeExtensionMethod::BrowseMatchmakeSessionWithHostUrls)
        } else if id == 0x31 {
            Some(MatchmakeExtensionMethod::GetAttractionStatus)
        } else if id == 0x33 {
            Some(MatchmakeExtensionMethod::SimpleMatchmake)
        } else {
            None
        }
    }

    /// The method with id `id`, if there is one.
    pub fn from_id(id: u32) -> (r: Option<MatchmakeExtensionMethod>)
        ensures
            r == Self::spec_from_id(id),
            match r {
                Some(m) => m.spec_id() == id,
                None => forall|m: MatchmakeExtensionMethod| m.spec_id() != id,
            },
    {
        if id == 0x1 {
            Some(MatchmakeExtensionMethod::CloseParticipation)
        } else if id == 0x2 {
            Some(MatchmakeExtensionMethod::OpenParticipation)
        } else if id == 0x4 {
            Some(MatchmakeExtensionMethod::BrowseMatchmakeSession)
        } else if id == 0x5 {
            Some(MatchmakeExtensionMethod::BrowseMatchmakeSessionWithHostUrls)
        } else if id == 0x31 {
            Some(MatchmakeExtensionMethod::GetAttractionStatus)
        } else if id == 0x33 {
            Some(MatchmakeExtensionMethod::SimpleMatchmake)
        } else {
            None
        }
    }
}

/// A decoded matchmaking-extension call. The browse methods carry a search
/// criteria record whose layout belongs to the session layer, so their
/// parameter bytes are handed on whole.
#[derive(Debug, Clone, PartialEq, Eq)]
pub enum MatchmakeExtensionCall {
    CloseParticipation { gid: u32 },
    OpenParticipation { gid: u32 },
    BrowseMatchmakeSession { parameters: Vec<u8> },
    BrowseMatchmakeSessionWithHostUrls { parameters: Vec<u8> },
    GetAttractionStatus,
    SimpleMatchmake { group_id: u32 },
}

/// The model of a decoded matchmaking-extension call.
pub enum MatchmakeExtensionArgs {
    CloseParticipation { gid: u32 },
    OpenParticipation { gid: u32 },
    BrowseMatchmakeSession { parameters: Seq<u8> },
    BrowseMatchmakeSessionWithHostUrls { parameters: Seq<u8> },
    GetAttractionStatus,
    SimpleMatchmake { group_id: u32 },
}

impl View for MatchmakeExtensionCall {
    type V = MatchmakeExtensionArgs;

    open spec fn view(&self) -> MatchmakeExtensionArgs {
        match self {
            MatchmakeExtensionCall::CloseParticipation { gid } =>
                MatchmakeExtensionArgs::CloseParticipation { gid: *gid },
            MatchmakeExtensionCall::OpenParticipation { gid } =>
                MatchmakeExtensionArgs::OpenParticipation { gid: *gid },
            MatchmakeExtensionCall::BrowseMatchmakeSession { parameters } =>
                MatchmakeExtensionArgs::BrowseMatchmakeSession { parameters: parameters@ },
            MatchmakeExtensionCall::BrowseMatchmakeSessionWithHostUrls { parameters } =>
                MatchmakeExtensionArgs::BrowseMatchmakeSessionWithHostUrls {
                    parameters: parameters@,
                },
            MatchmakeExtensionCall::GetAttractionStatus => MatchmakeExtensionArgs::GetAttractionStatus,
            MatchmakeExtensionCall::SimpleMatchmake { group_id } =>
                MatchmakeExtensionArgs::SimpleMatchmake { group_id: *group_id },
        }
    }
}

/// The arguments of a matchmaking-extension call of `method` with
/// `params`: a group id where the method takes one.
pub open spec fn parse_matchmake_extension(method: MatchmakeExtensionMethod, params: Seq<u8>) -> Result<
    MatchmakeExtensionArgs,
    ExtractError,
> {
    match method {
        MatchmakeExtensionMethod::CloseParticipation => match parse_params::<u32>(params) {
            Ok(gid) => Ok(MatchmakeExtensionArgs::CloseParticipation { gid }),
            Err(e) => Err(e),
        },
        MatchmakeExtensionMethod::OpenParticipation => match parse_params::<u32>(params) {
            Ok(gid) => Ok(MatchmakeExtensionArgs::OpenParticipation { gid }),
            Err(e) => Err(e),
        },
        MatchmakeExtensionMethod::BrowseMatchmakeSession => Ok(
            MatchmakeExtensionArgs::BrowseMatchmakeSession { parameters: params },
        ),
        MatchmakeExtensionMethod::BrowseMatchmakeSessionWithHostUrls => Ok(
            MatchmakeExtensionArgs::BrowseMatchmakeSessionWithHostUrls { parameters: params },
        ),
        MatchmakeExtensionMethod::GetAttractionStatus => Ok(
            MatchmakeExtensionArgs::GetAttractionStatus,
        ),
        MatchmakeExtensionMethod::SimpleMatchmake => match parse_params::<u32>(params) {
            Ok(group_id) => Ok(MatchmakeExtensionArgs::SimpleMatchmake { group_id }),
            Err(e) => Err(e),
        },
    }
}

/// Extracts the arguments of a matchmaking-extension call of `method`.
pub fn extract_matchmake_extension(method: MatchmakeExtensionMethod, params: &[u8]) -> (r: Result<
    MatchmakeExtensionCall,
    ExtractError,
>)
    ensures
        match parse_matchmake_extension(method, params@) {
            Ok(a) => r is Ok && r->Ok_0@ == a,
            Err(e) => r is Err && r->Err_0 == e,
        },
{
    match method {
        MatchmakeExtensionMethod::CloseParticipation => match extract_params::<u32>(params) {
            Ok(gid) => Ok(MatchmakeExtensionCall::CloseParticipation { gid }),
            Err(e) => Err(e),
        },
        MatchmakeExtensionMethod::OpenParticipation => match extract_params::<u32>(params) {
            Ok(gid) => Ok(MatchmakeExtensionCall::OpenParticipation { gid }),
            Err(e) => Err(e),
        },
        MatchmakeExtensionMethod::BrowseMatchmakeSession => Ok(
            MatchmakeExtensionCall::BrowseMatchmakeSession { parameters: slice_to_vec(params) },
        ),
        MatchmakeExtensionMethod::BrowseMatchmakeSessionWithHostUrls => Ok(
            MatchmakeExtensionCall::BrowseMatchmakeSessionWithHostUrls {
                parameters: slice_to_vec(params),
            },
        ),
        MatchmakeExtensionMethod::GetAttractionStatus => Ok(
            MatchmakeExtensionCall::GetAttractionStatus,
        ),
        MatchmakeExtensionMethod::SimpleMatchmake => match extract_params::<u32>(params) {
            Ok(group_id) => Ok(MatchmakeExtensionCall::SimpleMatchmake { group_id }),
            Err(e) => Err(e),
        },
    }
}

} // verus!
