//! The ticket-granting protocol: log-in, tickets, and the mapping between
//! user names and principal ids.

use crate::codec::{rest, DecodeError, NexType};
use crate::extract::{
    extract_tagged_login, extract_username, is_blank, parse_tagged_login, parse_username,
    ExtractError,
};
use crate::nex_types::{holder_wire, lemma_holder_tag_mismatch, parse_envelope, NexString};
use vstd::prelude::*;
use vstd::seq_lib::lemma_concat_associative;

verus! {

/// The protocol id of ticket granting, shared with authentication.
pub const AUTHENTICATION_PROTOCOL_ID: u8 = 0xA;

/// The methods of the ticket-granting protocol.
#[derive(Debug, Clone, Copy, PartialEq, Eq, Structural)]
pub enum TicketGrantingMethod {
    Login,
    LoginEx,
    RequestTicket,
    GetPID,
    GetName,
    LoginWithParam,
}

impl TicketGrantingMethod {
    /// The method id on the wire.
    pub open spec fn spec_id(self) -> u32 {
        match self {
            TicketGrantingMethod::Login => 0x1,
            TicketGrantingMethod::LoginEx => 0x2,
            TicketGrantingMethod::RequestTicket => 0x3,
            TicketGrantingMethod::GetPID => 0x4,
            TicketGrantingMethod::GetName => 0x5,
            TicketGrantingMethod::LoginWithParam => 0x6,
        }
    }

    pub fn id(self) -> (r: u32)
        ensures
            r == self.spec_id(),
    {
        match self {
            TicketGrantingMethod::Login => 0x1,
            TicketGrantingMethod::LoginEx => 0x2,
            TicketGrantingMethod::RequestTicket => 0x3,
            TicketGrantingMethod::GetPID => 0x4,
            TicketGrantingMethod::GetName => 0x5,
            TicketGrantingMethod::LoginWithParam => 0x6,
        }
    }

    /// The method with id `id`, if there is one.
    pub open spec fn spec_from_id(id: u32) -> Option<TicketGrantingMethod> {
        if id == 0x1 {
            Some(TicketGrantingMethod::Login)
        } else if id == 0x2 {
            Some(TicketGrantingMethod::LoginEx)
        } else if id == 0x3 {
            Some(TicketGrantingMethod::RequestTicket)
        } else if id == 0x4 {
            Some(TicketGrantingMethod::GetPID)
        } else if id == 0x5 {
            Some(TicketGrantingMethod::GetName)
        } else if id == 0x6 {
            Some(TicketGrantingMethod::LoginWithParam)
        } else {
            None
        }
    }

    /// The method with id `id`, if there is one.
    pub fn from_id(id: u32) -> (r: Option<TicketGrantingMethod>)
        ensures
            r == Self::spec_from_id(id),
            match r {
                Some(m) => m.spec_id() == id,
                None => forall|m: TicketGrantingMethod| m.spec_id() != id,
            },
    {
        if id == 0x1 {
            Some(TicketGrantingMethod::Login)
        } else if id == 0x2 {
            Some(TicketGrantingMethod::LoginEx)
        } else if id == 0x3 {
            Some(TicketGrantingMethod::RequestTicket)
        } else if id == 0x4 {
            Some(TicketGrantingMethod::GetPID)
        } else if id == 0x5 {
            Some(TicketGrantingMethod::GetName)
        } else if id == 0x6 {
            Some(TicketGrantingMethod::LoginWithParam)
        } else {
            None
        }
    }
}

/// What a client sends about itself with an extended log-in.
#[derive(Debug, Clone, PartialEq, Eq, Default)]
pub struct AuthenticationInfo {
    pub token: NexString,
    pub ngs_version: u32,
    pub token_type: u8,
    pub server_version: u32,
}

/// The fields of `AuthenticationInfo`, in wire order.
type AuthenticationInfoFields = (NexString, (u32, (u8, u32)));

impl View for AuthenticationInfo {
    type V = <AuthenticationInfoFields as View>::V;

    open spec fn view(&self) -> Self::V {
        (self.token@, (self.ngs_version@, (self.token_type@, self.server_version@)))
    }
}

impl NexType for AuthenticationInfo {
    open spec fn valid(v: Self::V) -> bool {
        <AuthenticationInfoFields as NexType>::valid(v)
    }

    closed spec fn wire(v: Self::V) -> Seq<u8> {
        <AuthenticationInfoFields as NexType>::wire(v)
    }

    closed spec fn parse(s: Seq<u8>) -> Result<(Self::V, nat), DecodeError> {
        <AuthenticationInfoFields as NexType>::parse(s)
    }

    proof fn lemma_round_trip(v: Self::V, more: Seq<u8>) {
        <AuthenticationInfoFields as NexType>::lemma_round_trip(v, more);
    }

    fn encode(&self, out: &mut Vec<u8>) {
        self.token.encode(out);
        self.ngs_version.encode(out);
        self.token_type.encode(out);
        self.server_version.encode(out);
        assert(out@ =~= old(out)@ + Self::wire(self@));
    }

    fn decode(data: &[u8], pos: &mut usize) -> (r: Result<AuthenticationInfo, DecodeError>) {
        match <AuthenticationInfoFields as NexType>::decode(data, pos) {
            Ok((token, (ngs_version, (token_type, server_version)))) => Ok(AuthenticationInfo { token, ngs_version, token_type, server_version }),
            Err(e) => Err(e),
        }
    }
}

impl AuthenticationInfo {
    /// The record is encoded as its fields' encodings in declaration order,
    /// and decoded field by field in that order.
    pub proof fn lemma_layout(v: <AuthenticationInfo as View>::V, s: Seq<u8>)
        ensures
            <AuthenticationInfo as NexType>::valid(v) == <AuthenticationInfoFields as NexType>::valid(v),
            <AuthenticationInfo as NexType>::wire(v) == <AuthenticationInfoFields as NexType>::wire(v),
            <AuthenticationInfo as NexType>::parse(s) == <AuthenticationInfoFields as NexType>::parse(s),
    {
    }
}

impl AuthenticationInfo {
    /// An empty token and zero versions.
    pub fn new() -> (r: AuthenticationInfo)
        ensures
            r.token@ == Seq::<u8>::empty(),
            r.ngs_version == 0,
            r.token_type == 0,
            r.server_version == 0,
    {
        AuthenticationInfo {
            token: NexString::new(Vec::new()),
            ngs_version: 0,
            token_type: 0,
            server_version: 0,
        }
    }
}

/// The tag that a data holder of `AuthenticationInfo` carries: the bytes
/// of the text "AuthenticationInfo".
pub open spec fn authentication_info_tag() -> Seq<u8> {
    seq![65u8, 117u8, 116u8, 104u8, 101u8, 110u8, 116u8, 105u8, 99u8, 97u8, 116u8, 105u8, 111u8, 110u8, 73u8, 110u8, 102u8, 111u8]
}

/// The bytes of `authentication_info_tag`.
pub fn authentication_info_tag_bytes() -> (r: Vec<u8>)
    ensures
        r@ == authentication_info_tag(),
{
    let mut name: Vec<u8> = Vec::new();
    name.push(65u8);
    name.push(117u8);
    name.push(116u8);
    name.push(104u8);
    name.push(101u8);
    name.push(110u8);
    name.push(116u8);
    name.push(105u8);
    name.push(99u8);
    name.push(97u8);
    name.push(116u8);
    name.push(105u8);
    name.push(111u8);
    name.push(110u8);
    name.push(73u8);
    name.push(110u8);
    name.push(102u8);
    name.push(111u8);
    assert(name@ =~= authentication_info_tag());
    name
}

/// A decoded call of the ticket-granting protocol.
#[derive(Debug, Clone, PartialEq, Eq)]
pub enum TicketGrantingCall {
    Login { username: NexString },
    LoginEx { username: NexString, info: AuthenticationInfo },
    RequestTicket { user_pid: u32, server_pid: u32 },
    GetPid { username: NexString },
    GetName { user_pid: u32 },
    LoginWithParam,
}

/// The model of a decoded ticket-granting call.
pub enum TicketGrantingArgs {
    Login { username: Seq<u8> },
    LoginEx { username: Seq<u8>, info: <AuthenticationInfo as View>::V },
    RequestTicket { user_pid: u32, server_pid: u32 },
    GetPid { username: Seq<u8> },
    GetName { user_pid: u32 },
    LoginWithParam,
}

impl View for TicketGrantingCall {
    type V = TicketGrantingArgs;

    open spec fn view(&self) -> TicketGrantingArgs {
        match self {
            TicketGrantingCall::Login { username } => TicketGrantingArgs::Login {
                username: username@,
            },
            TicketGrantingCall::LoginEx { username, info } => TicketGrantingArgs::LoginEx {
                username: username@,
                info: info@,
            },
            TicketGrantingCall::RequestTicket { user_pid, server_pid } =>
                TicketGrantingArgs::RequestTicket { user_pid: *user_pid, server_pid: *server_pid },
            TicketGrantingCall::GetPid { username } => TicketGrantingArgs::GetPid {
                username: username@,
            },
            TicketGrantingCall::GetName { user_pid } => TicketGrantingArgs::GetName {
                user_pid: *user_pid,
            },
            TicketGrantingCall::LoginWithParam => TicketGrantingArgs::LoginWithParam,
        }
    }
}

/// Log-in parameters: a required user name.
pub open spec fn parse_login(params: Seq<u8>) -> Result<TicketGrantingArgs, ExtractError> {
    match parse_username(params) {
        Ok((username, n)) => Ok(TicketGrantingArgs::Login { username }),
        Err(e) => Err(e),
    }
}

/// Extended log-in parameters: a required user name, then a data holder
/// tagged `authentication_info_tag()` around an `AuthenticationInfo`.
pub open spec fn parse_login_ex(params: Seq<u8>) -> Result<TicketGrantingArgs, ExtractError> {
    match parse_tagged_login::<AuthenticationInfo>(params, authentication_info_tag()) {
        Ok((username, info)) => Ok(TicketGrantingArgs::LoginEx { username, info }),
        Err(e) => Err(e),
    }
}

/// Ticket-request parameters: exactly eight bytes, the user's and the
/// server's principal ids.
pub open spec fn parse_request_ticket(params: Seq<u8>) -> Result<TicketGrantingArgs, ExtractError> {
    if params.len() != 8 {
        Err(ExtractError::WrongLength)
    } else {
        match <(u32, u32) as NexType>::parse(params) {
            Ok(((user_pid, server_pid), n)) => Ok(
                TicketGrantingArgs::RequestTicket { user_pid, server_pid },
            ),
            Err(e) => Err(ExtractError::Decode(e)),
        }
    }
}

/// Principal-id lookup parameters: a required user name.
pub open spec fn parse_get_pid(params: Seq<u8>) -> Result<TicketGrantingArgs, ExtractError> {
    match parse_username(params) {
        Ok((username, n)) => Ok(TicketGrantingArgs::GetPid { username }),
        Err(e) => Err(e),
    }
}

/// Name lookup parameters: exactly four bytes, a principal id.
pub open spec fn parse_get_name(params: Seq<u8>) -> Result<TicketGrantingArgs, ExtractError> {
    if params.len() != 4 {
        Err(ExtractError::WrongLength)
    } else {
        match <u32 as NexType>::parse(params) {
            Ok((user_pid, n)) => Ok(TicketGrantingArgs::GetName { user_pid }),
            Err(e) => Err(ExtractError::Decode(e)),
        }
    }
}

/// The arguments of a ticket-granting call of `method` with `params`.
pub open spec fn parse_ticket_granting(method: TicketGrantingMethod, params: Seq<u8>) -> Result<
    TicketGrantingArgs,
    ExtractError,
> {
    match method {
        TicketGrantingMethod::Login => parse_login(params),
        TicketGrantingMethod::LoginEx => parse_login_ex(params),
        TicketGrantingMethod::RequestTicket => parse_request_ticket(params),
        TicketGrantingMethod::GetPID => parse_get_pid(params),
        TicketGrantingMethod::GetName => parse_get_name(params),
        TicketGrantingMethod::LoginWithParam => Ok(TicketGrantingArgs::LoginWithParam),
    }
}

/// The contract that each extractor below meets for its `parse` function.
pub open spec fn extracted(
    parsed: Result<TicketGrantingArgs, ExtractError>,
    r: Result<TicketGrantingCall, ExtractError>,
) -> bool {
    match parsed {
        Ok(a) => r is Ok && r->Ok_0@ == a,
        Err(e) => r is Err && r->Err_0 == e,
    }
}

/// Extracts the parameters of a log-in.
pub fn extract_login(params: &[u8]) -> (r: Result<TicketGrantingCall, ExtractError>)
    ensures
        extracted(parse_login(params@), r),
{
    match extract_username(params) {
        Ok((username, _)) => Ok(TicketGrantingCall::Login { username }),
        Err(e) => Err(e),
    }
}

/// Extracts the parameters of an extended log-in.
pub fn extract_login_ex(params: &[u8]) -> (r: Result<TicketGrantingCall, ExtractError>)
    ensures
        extracted(parse_login_ex(params@), r),
{
    let tag = authentication_info_tag_bytes();
    match extract_tagged_login::<AuthenticationInfo>(params, tag.as_slice()) {
        Ok((username, info)) => Ok(TicketGrantingCall::LoginEx { username, info }),
        Err(e) => Err(e),
    }
}

/// Extracts the parameters of a ticket request.
pub fn extract_request_ticket(params: &[u8]) -> (r: Result<TicketGrantingCall, ExtractError>)
    ensures
        extracted(parse_request_ticket(params@), r),
{
    if params.len() != 8 {
        return Err(ExtractError::WrongLength);
    }
    let mut pos: usize = 0;
    assert(rest(params@, 0) =~= params@);
    match <(u32, u32)>::decode(params, &mut pos) {
        Ok((user_pid, server_pid)) => Ok(TicketGrantingCall::RequestTicket { user_pid, server_pid }),
        Err(e) => Err(ExtractError::Decode(e)),
    }
}

/// Extracts the parameters of a principal-id lookup.
pub fn extract_get_pid(params: &[u8]) -> (r: Result<TicketGrantingCall, ExtractError>)
    ensures
        extracted(parse_get_pid(params@), r),
{
    match extract_username(params) {
        Ok((username, _)) => Ok(TicketGrantingCall::GetPid { username }),
        Err(e) => Err(e),
    }
}

/// Extracts the parameters of a name lookup.
pub fn extract_get_name(params: &[u8]) -> (r: Result<TicketGrantingCall, ExtractError>)
    ensures
        extracted(parse_get_name(params@), r),
{
    if params.len() != 4 {
        return Err(ExtractError::WrongLength);
    }
    let mut pos: usize = 0;
    assert(rest(params@, 0) =~= params@);
    match u32::decode(params, &mut pos) {
        Ok(user_pid) => Ok(TicketGrantingCall::GetName { user_pid }),
        Err(e) => Err(ExtractError::Decode(e)),
    }
}

/// Extracts the arguments of a ticket-granting call of `method`.
pub fn extract_ticket_granting(method: TicketGrantingMethod, params: &[u8]) -> (r: Result<
    TicketGrantingCall,
    ExtractError,
>)
    ensures
        extracted(parse_ticket_granting(method, params@), r),
{
    match method {
        TicketGrantingMethod::Login => extract_login(params),
        TicketGrantingMethod::LoginEx => extract_login_ex(params),
        TicketGrantingMethod::RequestTicket => extract_request_ticket(params),
        TicketGrantingMethod::GetPID => extract_get_pid(params),
        TicketGrantingMethod::GetName => extract_get_name(params),
        TicketGrantingMethod::LoginWithParam => Ok(TicketGrantingCall::LoginWithParam),
    }
}

/// A ticket request whose parameters are not exactly eight bytes long is
/// refused before any field is read.
pub proof fn lemma_request_ticket_needs_eight_bytes(params: Seq<u8>)
    requires
        params.len() != 8,
    ensures
        parse_ticket_granting(TicketGrantingMethod::RequestTicket, params) == Err::<
            TicketGrantingArgs,
            ExtractError,
        >(ExtractError::WrongLength),
{
}

/// An extended log-in whose data holder carries another tag than
/// `authentication_info_tag()` is refused at the envelope step with
/// `InvalidTag`, whatever it holds.
pub proof fn lemma_login_ex_rejects_other_tag(
    username: Seq<u8>,
    tag: Seq<u8>,
    info: <AuthenticationInfo as View>::V,
    more: Seq<u8>,
)
    requires
        <NexString as NexType>::valid(username),
        !is_blank(username),
        <NexString as NexType>::valid(tag),
        tag != authentication_info_tag(),
    ensures
        parse_ticket_granting(
            TicketGrantingMethod::LoginEx,
            <NexString as NexType>::wire(username) + holder_wire::<AuthenticationInfo>(tag, info)
                + more,
        ) == Err::<TicketGrantingArgs, ExtractError>(
            ExtractError::Envelope(DecodeError::InvalidTag),
        ),
{
    let wu = <NexString as NexType>::wire(username);
    let wh = holder_wire::<AuthenticationInfo>(tag, info);
    let tail = wh + more;
    let s = wu + wh + more;
    lemma_concat_associative(wu, wh, more);
    assert(s == wu + tail);
    <NexString as NexType>::lemma_round_trip(username, tail);
    assert(parse_username(s) == Ok::<(Seq<u8>, nat), ExtractError>((username, wu.len())));
    assert(s.subrange(wu.len() as int, s.len() as int) =~= tail);
    lemma_holder_tag_mismatch::<AuthenticationInfo>(tag, authentication_info_tag(), info, more);
    assert(parse_envelope(tail, authentication_info_tag()) == Err::<(Seq<u8>, nat), DecodeError>(
        DecodeError::InvalidTag,
    ));
}

/// A log-in or name lookup whose user name is blank is refused with
/// `MissingUsername`, before any business code could see it.
pub proof fn lemma_blank_username_refused(method: TicketGrantingMethod, username: Seq<u8>, more: Seq<u8>)
    requires
        method == TicketGrantingMethod::Login || method == TicketGrantingMethod::LoginEx
            || method == TicketGrantingMethod::GetPID,
        <NexString as NexType>::valid(username),
        is_blank(username),
    ensures
        parse_ticket_granting(method, <NexString as NexType>::wire(username) + more) == Err::<
            TicketGrantingArgs,
            ExtractError,
        >(ExtractError::MissingUsername),
{
    <NexString as NexType>::lemma_round_trip(username, more);
}

} // verus!
