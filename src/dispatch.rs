//! The dispatch table: selecting a protocol and a method by their ids,
//! extracting the call's arguments, and framing the business outcome as a
//! response that mirrors the request's identifiers.

use crate::datastore_protocol::{
    extract_datastore, parse_datastore, DataStoreArgs, DataStoreCall, DataStoreMethod,
    DATASTORE_PROTOCOL_ID,
};
use crate::extract::ExtractError;
use crate::matchmake_extension::{
    extract_matchmake_extension, parse_matchmake_extension, MatchmakeExtensionArgs,
    MatchmakeExtensionCall, MatchmakeExtensionMethod, MATCHMAKE_EXTENSION_PROTOCOL_ID,
};
use crate::nex_types::ResultCode;
use crate::ticket_granting::{
    extract_ticket_granting, parse_ticket_granting, TicketGrantingArgs, TicketGrantingCall,
    TicketGrantingMethod, AUTHENTICATION_PROTOCOL_ID,
};
use crate::usum_117::{USUM117Method, USUM_117_PROTOCOL_ID};
use vstd::prelude::*;

verus! {

/// An inbound call as the transport delivers it.
#[derive(Debug, Clone, PartialEq, Eq)]
pub struct Request {
    pub protocol_id: u8,
    pub method_id: u32,
    pub call_id: u32,
    pub parameters: Vec<u8>,
}

/// The model of a request.
pub struct RequestModel {
    pub protocol_id: u8,
    pub method_id: u32,
    pub call_id: u32,
    pub parameters: Seq<u8>,
}

impl View for Request {
    type V = RequestModel;

    open spec fn view(&self) -> RequestModel {
        RequestModel {
            protocol_id: self.protocol_id,
            method_id: self.method_id,
            call_id: self.call_id,
            parameters: self.parameters@,
        }
    }
}

/// The reply to a call: a payload on success, a result code on failure.
#[derive(Debug, Clone, PartialEq, Eq)]
pub enum Response {
    Success { protocol_id: u8, method_id: u32, call_id: u32, payload: Vec<u8> },
    Error { protocol_id: u8, method_id: u32, call_id: u32, error_code: u32 },
}

/// The model of a response: the identifiers it carries and its outcome.
pub struct ResponseModel {
    pub protocol_id: u8,
    pub method_id: u32,
    pub call_id: u32,
    pub outcome: Result<Seq<u8>, u32>,
}

impl View for Response {
    type V = ResponseModel;

    open spec fn view(&self) -> ResponseModel {
        match self {
            Response::Success { protocol_id, method_id, call_id, payload } => ResponseModel {
                protocol_id: *protocol_id,
                method_id: *method_id,
                call_id: *call_id,
                outcome: Ok(payload@),
            },
            Response::Error { protocol_id, method_id, call_id, error_code } => ResponseModel {
                protocol_id: *protocol_id,
                method_id: *method_id,
                call_id: *call_id,
                outcome: Err(*error_code),
            },
        }
    }
}

/// What a business callback returned: a payload, or a result code.
pub open spec fn outcome_model(outcome: &Result<Vec<u8>, ResultCode>) -> Result<Seq<u8>, u32> {
    match outcome {
        Ok(payload) => Ok(payload@),
        Err(code) => Err(code.code),
    }
}

/// The response to `req` when the business callback gave `outcome`.
pub open spec fn response_to(req: RequestModel, outcome: Result<Seq<u8>, u32>) -> ResponseModel {
    ResponseModel {
        protocol_id: req.protocol_id,
        method_id: req.method_id,
        call_id: req.call_id,
        outcome,
    }
}

/// Frames the business outcome of `req` as its response.
pub fn respond(req: &Request, outcome: Result<Vec<u8>, ResultCode>) -> (r: Response)
    ensures
        r@ == response_to(req@, outcome_model(&outcome)),
{
    match outcome {
        Ok(payload) => Response::Success {
            protocol_id: req.protocol_id,
            method_id: req.method_id,
            call_id: req.call_id,
            payload,
        },
        Err(code) => Response::Error {
            protocol_id: req.protocol_id,
            method_id: req.method_id,
            call_id: req.call_id,
            error_code: code.code,
        },
    }
}

/// Why a request reached no business callback.
#[derive(Debug, Clone, Copy, PartialEq, Eq, Structural)]
pub enum DispatchError {
    /// No protocol has the request's protocol id.
    UnknownProtocol,
    /// The protocol has no method with the request's method id.
    UnknownMethod,
    /// The method's parameters could not be extracted.
    Extract(ExtractError),
}

/// A decoded call, by protocol.
#[derive(Debug, Clone, PartialEq, Eq)]
pub enum Call {
    TicketGranting(TicketGrantingCall),
    DataStore(DataStoreCall),
    MatchmakeExtension(MatchmakeExtensionCall),
    Usum117(USUM117Method),
}

/// The model of a decoded call.
pub enum CallArgs {
    TicketGranting(TicketGrantingArgs),
    DataStore(DataStoreArgs),
    MatchmakeExtension(MatchmakeExtensionArgs),
    Usum117(USUM117Method),
}

impl View for Call {
    type V = CallArgs;

    open spec fn view(&self) -> CallArgs {
        match self {
            Call::TicketGranting(c) => CallArgs::TicketGranting(c@),
            Call::DataStore(c) => CallArgs::DataStore(c@),
            Call::MatchmakeExtension(c) => CallArgs::MatchmakeExtension(c@),
            Call::Usum117(m) => CallArgs::Usum117(*m),
        }
    }
}

/// The call that a request stands for: its protocol is chosen by protocol
/// id, then its method by method id, then its arguments are extracted.
pub open spec fn parse_call(req: RequestModel) -> Result<CallArgs, DispatchError> {
    if req.protocol_id == AUTHENTICATION_PROTOCOL_ID {
        match TicketGrantingMethod::spec_from_id(req.method_id) {
            Some(m) => match parse_ticket_granting(m, req.parameters) {
                Ok(a) => Ok(CallArgs::TicketGranting(a)),
                Err(e) => Err(DispatchError::Extract(e)),
            },
            None => Err(DispatchError::UnknownMethod),
        }
    } else if req.protocol_id == DATASTORE_PROTOCOL_ID {
        match DataStoreMethod::spec_from_id(req.method_id) {
            Some(m) => match parse_datastore(m, req.parameters) {
                Ok(a) => Ok(CallArgs::DataStore(a)),
                Err(e) => Err(DispatchError::Extract(e)),
            },
            None => Err(DispatchError::UnknownMethod),
        }
    } else if req.protocol_id == MATCHMAKE_EXTENSION_PROTOCOL_ID {
        match MatchmakeExtensionMethod::spec_from_id(req.method_id) {
            Some(m) => match parse_matchmake_extension(m, req.parameters) {
                Ok(a) => Ok(CallArgs::MatchmakeExtension(a)),
                Err(e) => Err(DispatchError::Extract(e)),
            },
            None => Err(DispatchError::UnknownMethod),
        }
    } else if req.protocol_id == USUM_117_PROTOCOL_ID {
        match USUM117Method::spec_from_id(req.method_id) {
            Some(m) => Ok(CallArgs::Usum117(m)),
            None => Err(DispatchError::UnknownMethod),
        }
    } else {
        Err(DispatchError::UnknownProtocol)
    }
}

/// Selects the protocol and the method of `req` and extracts its arguments.
pub fn extract_call(req: &Request) -> (r: Result<Call, DispatchError>)
    ensures
        match parse_call(req@) {
            Ok(a) => r is Ok && r->Ok_0@ == a,
            Err(e) => r is Err && r->Err_0 == e,
        },
{
    let params = req.parameters.as_slice();
    if req.protocol_id == AUTHENTICATION_PROTOCOL_ID {
        match TicketGrantingMethod::from_id(req.method_id) {
            Some(m) => match extract_ticket_granting(m, params) {
                Ok(c) => Ok(Call::TicketGranting(c)),
                Err(e) => Err(DispatchError::Extract(e)),
            },
            None => Err(DispatchError::UnknownMethod),
        }
    } else if req.protocol_id == DATASTORE_PROTOCOL_ID {
        match DataStoreMethod::from_id(req.method_id) {
            Some(m) => match extract_datastore(m, params) {
                Ok(c) => Ok(Call::DataStore(c)),
                Err(e) => Err(DispatchError::Extract(e)),
            },
            None => Err(DispatchError::UnknownMethod),
        }
    } else if req.protocol_id == MATCHMAKE_EXTENSION_PROTOCOL_ID {
        match MatchmakeExtensionMethod::from_id(req.method_id) {
            Some(m) => match extract_matchmake_extension(m, params) {
                Ok(c) => Ok(Call::MatchmakeExtension(c)),
                Err(e) => Err(DispatchError::Extract(e)),
            },
            None => Err(DispatchError::UnknownMethod),
        }
    } else if req.protocol_id == USUM_117_PROTOCOL_ID {
        match USUM117Method::from_id(req.method_id) {
            Some(m) => Ok(Call::Usum117(m)),
            None => Err(DispatchError::UnknownMethod),
        }
    } else {
        Err(DispatchError::UnknownProtocol)
    }
}

/// The whole dispatch of `req` with a business callback that is a function
/// of the call's arguments: `None` where no callback runs, else the
/// response to send.
pub open spec fn dispatch(
    req: RequestModel,
    callback: spec_fn(CallArgs) -> Result<Seq<u8>, u32>,
) -> Option<ResponseModel> {
    match parse_call(req) {
        Ok(a) => Some(response_to(req, callback(a))),
        Err(e) => None,
    }
}

/// Every response carries the protocol id, method id and call id of its
/// request, whether the call succeeded or failed.
pub proof fn lemma_response_mirrors_request(req: RequestModel, outcome: Result<Seq<u8>, u32>)
    ensures
        response_to(req, outcome).protocol_id == req.protocol_id,
        response_to(req, outcome).method_id == req.method_id,
        response_to(req, outcome).call_id == req.call_id,
        response_to(req, outcome).outcome == outcome,
{
}

/// Dispatching the same request twice with a callback that depends on the
/// call's arguments alone gives the same response both times.
pub proof fn lemma_dispatch_deterministic(
    first: RequestModel,
    second: RequestModel,
    callback: spec_fn(CallArgs) -> Result<Seq<u8>, u32>,
)
    requires
        first == second,
    ensures
        dispatch(first, callback) == dispatch(second, callback),
{
}

/// Where dispatch gives a response, it mirrors the request's identifiers.
pub proof fn lemma_dispatch_mirrors_request(
    req: RequestModel,
    callback: spec_fn(CallArgs) -> Result<Seq<u8>, u32>,
)
    ensures
        match dispatch(req, callback) {
            Some(resp) => resp.protocol_id == req.protocol_id && resp.method_id == req.method_id
                && resp.call_id == req.call_id,
            None => parse_call(req) is Err,
        },
{
}

/// A ticket request whose parameters are not exactly eight bytes long is
/// refused during extraction, so no business callback runs for it.
pub proof fn lemma_ticket_request_length_enforced(
    req: RequestModel,
    callback: spec_fn(CallArgs) -> Result<Seq<u8>, u32>,
)
    requires
        req.protocol_id == AUTHENTICATION_PROTOCOL_ID,
        req.method_id == TicketGrantingMethod::RequestTicket.spec_id(),
        req.parameters.len() != 8,
    ensures
        parse_call(req) == Err::<CallArgs, DispatchError>(
            DispatchError::Extract(ExtractError::WrongLength),
        ),
        dispatch(req, callback) is None,
{
}

} // verus!
