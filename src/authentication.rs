//! The authentication protocol, the older form of ticket granting. It
//! shares the protocol id and the method ids, and its methods take the same
//! parameters; it has its own `AuthenticationInfo` record.

use crate::codec::{DecodeError, NexType};
use crate::extract::{extract_tagged_login, parse_tagged_login, ExtractError};
use crate::nex_types::NexString;
use crate::ticket_granting::{authentication_info_tag, authentication_info_tag_bytes};
use vstd::prelude::*;

verus! {

/// The methods of the authentication protocol.
#[derive(Debug, Clone, Copy, PartialEq, Eq, Structural)]
pub enum AuthenticationMethod {
    Login,
    LoginEx,
    RequestTicket,
    GetPID,
    GetName,
    LoginWithParam,
}

impl AuthenticationMethod {
    /// The method id on the wire.
    pub open spec fn spec_id(self) -> u32 {
        match self {
            AuthenticationMethod::Login => 0x1,
            AuthenticationMethod::LoginEx => 0x2,
            AuthenticationMethod::RequestTicket => 0x3,
            AuthenticationMethod::GetPID => 0x4,
            AuthenticationMethod::GetName => 0x5,
            AuthenticationMethod::LoginWithParam => 0x6,
        }
    }

    pub fn id(self) -> (r: u32)
        ensures
            r == self.spec_id(),
    {
        match self {
            AuthenticationMethod::Login => 0x1,
            AuthenticationMethod::LoginEx => 0x2,
            AuthenticationMethod::RequestTicket => 0x3,
            AuthenticationMethod::GetPID => 0x4,
            AuthenticationMethod::GetName => 0x5,
            AuthenticationMethod::LoginWithParam => 0x6,
        }
    }

    /// The method with id `id`, if there is one.
    pub open spec fn spec_from_id(id: u32) -> Option<AuthenticationMethod> {
        if id == 0x1 {
            Some(AuthenticationMethod::Login)
        } else if id == 0x2 {
            Some(AuthenticationMethod::LoginEx)
        } else if id == 0x3 {
            Some(AuthenticationMethod::RequestTicket)
        } else if id == 0x4 {
            Some(AuthenticationMethod::GetPID)
        } else if id == 0x5 {
            Some(AuthenticationMethod::GetName)
        } else if id == 0x6 {
            Some(AuthenticationMethod::LoginWithParam)
        } else {
            None
        }
    }

    /// The method with id `id`, if there is one.
    pub fn from_id(id: u32) -> (r: Option<AuthenticationMethod>)
        ensures
            r == Self::spec_from_id(id),
            match r {
                Some(m) => m.spec_id() == id,
                None => forall|m: AuthenticationMethod| m.spec_id() != id,
            },
    {
        if id == 0x1 {
            Some(AuthenticationMethod::Login)
        } else if id == 0x2 {
            Some(AuthenticationMethod::LoginEx)
        } else if id == 0x3 {
            Some(AuthenticationMethod::RequestTicket)
        } else if id == 0x4 {
            Some(AuthenticationMethod::GetPID)
        } else if id == 0x5 {
            Some(AuthenticationMethod::GetName)
        } else if id == 0x6 {
            Some(AuthenticationMethod::LoginWithParam)
        } else {
            None
        }
    }
}

/// Log-in data of a console account.
#[derive(Debug, Clone, PartialEq, Eq, Default)]
pub struct NintendoLoginData(pub String);

/// What a client sends about itself with an extended log-in.
#[derive(Debug, Clone, PartialEq, Eq, Default)]
pub struct AuthenticationInfo {
    pub token: NexString,
    pub ngs_version: u32,
    pub token_type: u8,
    pub server_version: u32,
}

/// The fields of `AuthenticationInfo`, in wire order.
type AuthenticationInfoFields = (NexString, (u32, (u8, u32)));

impl View for AuthenticationInfo {
    type V = <AuthenticationInfoFields as View>::V;

    open spec fn view(&self) -> Self::V {
        (self.token@, (self.ngs_version@, (self.token_type@, self.server_version@)))
    }
}

impl NexType for AuthenticationInfo {
    open spec fn valid(v: Self::V) -> bool {
        <AuthenticationInfoFields as NexType>::valid(v)
    }

    closed spec fn wire(v: Self::V) -> Seq<u8> {
        <AuthenticationInfoFields as NexType>::wire(v)
    }

    closed spec fn parse(s: Seq<u8>) -> Result<(Self::V, nat), DecodeError> {
        <AuthenticationInfoFields as NexType>::parse(s)
    }

    proof fn lemma_round_trip(v: Self::V, more: Seq<u8>) {
        <AuthenticationInfoFields as NexType>::lemma_round_trip(v, more);
    }

    fn encode(&self, out: &mut Vec<u8>) {
        self.token.encode(out);
        self.ngs_version.encode(out);
        self.token_type.encode(out);
        self.server_version.encode(out);
        assert(out@ =~= old(out)@ + Self::wire(self@));
    }

    fn decode(data: &[u8], pos: &mut usize) -> (r: Result<AuthenticationInfo, DecodeError>) {
        match <AuthenticationInfoFields as NexType>::decode(data, pos) {
            Ok((token, (ngs_version, (token_type, server_version)))) => Ok(AuthenticationInfo { token, ngs_version, token_type, server_version }),
            Err(e) => Err(e),
        }
    }
}

impl AuthenticationInfo {
    /// The record is encoded as its fields' encodings in declaration order,
    /// and decoded field by field in that order.
    pub proof fn lemma_layout(v: <AuthenticationInfo as View>::V, s: Seq<u8>)
        ensures
            <AuthenticationInfo as NexType>::valid(v) == <AuthenticationInfoFields as NexType>::valid(v),
            <AuthenticationInfo as NexType>::wire(v) == <AuthenticationInfoFields as NexType>::wire(v),
            <AuthenticationInfo as NexType>::parse(s) == <AuthenticationInfoFields as NexType>::parse(s),
    {
    }
}

impl AuthenticationInfo {
    /// An empty token and zero versions.
    pub fn new() -> (r: AuthenticationInfo)
        ensures
            r.token@ == Seq::<u8>::empty(),
            r.ngs_version == 0,
            r.token_type == 0,
            r.server_version == 0,
    {
        AuthenticationInfo {
            token: NexString::new(Vec::new()),
            ngs_version: 0,
            token_type: 0,
            server_version: 0,
        }
    }
}

/// Extended log-in parameters: a required user name, then a data holder
/// tagged `authentication_info_tag()` around an `AuthenticationInfo`.
pub open spec fn parse_login_ex(params: Seq<u8>) -> Result<
    (Seq<u8>, <AuthenticationInfo as View>::V),
    ExtractError,
> {
    parse_tagged_login::<AuthenticationInfo>(params, authentication_info_tag())
}

/// Extracts the parameters of an extended log-in.
pub fn extract_login_ex(params: &[u8]) -> (r: Result<(NexString, AuthenticationInfo), ExtractError>)
    ensures
        match parse_login_ex(params@) {
            Ok((username, info)) => r is Ok && r->Ok_0.0@ == username && r->Ok_0.1@ == info,
            Err(e) => r is Err && r->Err_0 == e,
        },
{
    let tag = authentication_info_tag_bytes();
    extract_tagged_login::<AuthenticationInfo>(params, tag.as_slice())
}

} // verus!
