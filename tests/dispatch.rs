use nex_protocols::codec::{DecodeError, NexType};
use nex_protocols::datastore_protocol::{extract_datastore, DataStoreCall, DataStoreMethod};
use nex_protocols::datastore_types::{
    DataStoreRateObjectParam, DataStoreRatingTarget, GlobalTradeStationDeletePokemonParam,
    GlobalTradeStationRecordKey, RateObjectRequest,
};
use nex_protocols::dispatch::{extract_call, respond, Call, DispatchError, Request, Response};
use nex_protocols::extract::ExtractError;
use nex_protocols::health::HealthMethod;
use nex_protocols::matchmake_extension::{
    extract_matchmake_extension, MatchmakeExtensionCall, MatchmakeExtensionMethod,
};
use nex_protocols::monitoring::MonitoringMethod;
use nex_protocols::nex_types::{DataHolder, NexString, ResultCode};
use nex_protocols::ticket_granting::{
    extract_get_name, extract_get_pid, extract_login, extract_login_ex, extract_request_ticket,
    AuthenticationInfo, TicketGrantingCall, TicketGrantingMethod,
};
use nex_protocols::usum_117::USUM117Method;

fn text(s: &str) -> NexString {
    NexString::new(s.as_bytes().to_vec())
}

fn encoded<T: NexType>(v: &T) -> Vec<u8> {
    let mut out = Vec::new();
    v.encode(&mut out);
    out
}

fn request(protocol_id: u8, method_id: u32, parameters: Vec<u8>) -> Request {
    Request { protocol_id, method_id, call_id: 77, parameters }
}

fn info() -> AuthenticationInfo {
    AuthenticationInfo { token: text("token"), ngs_version: 4, token_type: 2, server_version: 9 }
}

fn login_ex_params(username: &str, tag: &str) -> Vec<u8> {
    let mut out = encoded(&text(username));
    DataHolder { name: text(tag), object: info() }.encode(&mut out);
    out
}

#[test]
fn get_name_reads_user_pid() {
    let req = request(0x0A, 0x5, vec![0x2A, 0x00, 0x00, 0x00]);
    assert_eq!(
        extract_call(&req),
        Ok(Call::TicketGranting(TicketGrantingCall::GetName { user_pid: 42 }))
    );
}

#[test]
fn get_name_needs_four_bytes() {
    assert_eq!(extract_get_name(&[0x2A, 0, 0]), Err(ExtractError::WrongLength));
    assert_eq!(extract_get_name(&[0x2A, 0, 0, 0, 0]), Err(ExtractError::WrongLength));
}

#[test]
fn empty_parameters_fail_for_username_methods() {
    assert_eq!(
        extract_login(&[]),
        Err(ExtractError::Decode(DecodeError::UnexpectedEnd))
    );
    assert_eq!(
        extract_get_pid(&[]),
        Err(ExtractError::Decode(DecodeError::UnexpectedEnd))
    );
    assert!(extract_call(&request(0x0A, 0x1, vec![])).is_err());
}

#[test]
fn blank_username_is_refused() {
    assert_eq!(extract_login(&encoded(&text(""))), Err(ExtractError::MissingUsername));
    assert_eq!(extract_login(&encoded(&text(" \t\r\n"))), Err(ExtractError::MissingUsername));
    assert_eq!(extract_get_pid(&encoded(&text("  "))), Err(ExtractError::MissingUsername));
    assert_eq!(extract_login(&encoded(&text("\u{a0}"))), Err(ExtractError::MissingUsername));
    assert_eq!(
        extract_login(&encoded(&text(" \u{3000}\u{2003}\u{85} "))),
        Err(ExtractError::MissingUsername)
    );
    assert_eq!(
        extract_login(&encoded(&text("\u{3000}a\u{3000}"))),
        Ok(TicketGrantingCall::Login { username: text("\u{3000}a\u{3000}") })
    );
    assert_eq!(
        extract_login_ex(&login_ex_params(" ", "AuthenticationInfo")),
        Err(ExtractError::MissingUsername)
    );
}

#[test]
fn username_methods_extract_name() {
    assert_eq!(
        extract_login(&encoded(&text("ash"))),
        Ok(TicketGrantingCall::Login { username: text("ash") })
    );
    assert_eq!(
        extract_get_pid(&encoded(&text(" ash "))),
        Ok(TicketGrantingCall::GetPid { username: text(" ash ") })
    );
}

#[test]
fn request_ticket_needs_exactly_eight_bytes() {
    for len in [0usize, 1, 4, 7, 9, 12, 16] {
        assert_eq!(extract_request_ticket(&vec![1u8; len]), Err(ExtractError::WrongLength));
    }
    assert_eq!(
        extract_request_ticket(&[1, 0, 0, 0, 2, 0, 0, 0]),
        Ok(TicketGrantingCall::RequestTicket { user_pid: 1, server_pid: 2 })
    );
    let req = request(0x0A, 0x3, vec![1, 0, 0, 0, 2, 0, 0, 0, 0]);
    assert_eq!(
        extract_call(&req),
        Err(DispatchError::Extract(ExtractError::WrongLength))
    );
}

#[test]
fn login_ex_checks_tag_then_payload() {
    assert_eq!(
        extract_login_ex(&login_ex_params("ash", "AuthenticationInfo")),
        Ok(TicketGrantingCall::LoginEx { username: text("ash"), info: info() })
    );
    assert_eq!(
        extract_login_ex(&login_ex_params("ash", "Foo")),
        Err(ExtractError::Envelope(DecodeError::InvalidTag))
    );
    // The envelope is cut short.
    let mut params = login_ex_params("ash", "AuthenticationInfo");
    params.truncate(params.len() - 1);
    assert_eq!(
        extract_login_ex(&params),
        Err(ExtractError::Envelope(DecodeError::UnexpectedEnd))
    );
    // The envelope is whole but its payload is too short for the record.
    let mut params = encoded(&text("ash"));
    DataHolder { name: text("AuthenticationInfo"), object: 1u32 }.encode(&mut params);
    assert_eq!(
        extract_login_ex(&params),
        Err(ExtractError::Payload(DecodeError::UnexpectedEnd))
    );
}

#[test]
fn unknown_ids_are_frame_errors() {
    assert_eq!(extract_call(&request(0x01, 0x1, vec![])), Err(DispatchError::UnknownProtocol));
    assert_eq!(extract_call(&request(0x0A, 0x99, vec![])), Err(DispatchError::UnknownMethod));
    assert_eq!(extract_call(&request(0x73, 0x1, vec![])), Err(DispatchError::UnknownMethod));
    assert_eq!(extract_call(&request(0x75, 0x2, vec![])), Err(DispatchError::UnknownMethod));
}

#[test]
fn other_protocols_are_selected_by_id() {
    assert_eq!(
        extract_call(&request(0x75, 0xA, vec![])),
        Ok(Call::Usum117(USUM117Method::Unknown10))
    );
    assert_eq!(
        extract_call(&request(0x6D, 0x33, vec![5, 0, 0, 0])),
        Ok(Call::MatchmakeExtension(MatchmakeExtensionCall::SimpleMatchmake { group_id: 5 }))
    );
    assert_eq!(
        extract_call(&request(0x73, 0x2F, vec![])),
        Ok(Call::DataStore(DataStoreCall::PrepareUploadPokemon))
    );
}

#[test]
fn datastore_methods_decode_their_record() {
    let req = RateObjectRequest {
        target: DataStoreRatingTarget { data_id: 11, slot: -1 },
        param: DataStoreRateObjectParam { rating_value: -3, access_password: 4 },
        fetch_ratings: true,
    };
    let params = encoded(&req);
    assert_eq!(
        extract_datastore(DataStoreMethod::RateObject, &params),
        Ok(DataStoreCall::RateObject(req))
    );
    assert_eq!(
        extract_datastore(DataStoreMethod::RateObject, &params[..params.len() - 1]),
        Err(ExtractError::Decode(DecodeError::UnexpectedEnd))
    );
    let del = GlobalTradeStationDeletePokemonParam {
        prepare_upload_key: GlobalTradeStationRecordKey { data_id: 1, password: 2 },
        delete_flag: 1,
    };
    let req = request(0x73, 0x36, encoded(&del));
    match extract_call(&req) {
        Ok(Call::DataStore(DataStoreCall::DeletePokemon(r))) => assert_eq!(r.param, del),
        other => panic!("unexpected {:?}", other),
    }
}

#[test]
fn matchmake_methods_read_group_id() {
    assert_eq!(
        extract_matchmake_extension(MatchmakeExtensionMethod::CloseParticipation, &[9, 0, 0, 0]),
        Ok(MatchmakeExtensionCall::CloseParticipation { gid: 9 })
    );
    assert_eq!(
        extract_matchmake_extension(MatchmakeExtensionMethod::OpenParticipation, &[9, 0]),
        Err(ExtractError::Decode(DecodeError::UnexpectedEnd))
    );
    assert_eq!(
        extract_matchmake_extension(MatchmakeExtensionMethod::BrowseMatchmakeSession, &[1, 2]),
        Ok(MatchmakeExtensionCall::BrowseMatchmakeSession { parameters: vec![1, 2] })
    );
}

#[test]
fn responses_mirror_request_ids() {
    let req = Request { protocol_id: 0x73, method_id: 0x9, call_id: 1234, parameters: vec![1] };
    assert_eq!(
        respond(&req, Ok(vec![5, 6])),
        Response::Success { protocol_id: 0x73, method_id: 0x9, call_id: 1234, payload: vec![5, 6] }
    );
    assert_eq!(
        respond(&req, Err(ResultCode { code: 0x0001_0006 })),
        Response::Error { protocol_id: 0x73, method_id: 0x9, call_id: 1234, error_code: 0x0001_0006 }
    );
}

fn pure_callback(call: &Call) -> Result<Vec<u8>, ResultCode> {
    match call {
        Call::TicketGranting(TicketGrantingCall::GetName { user_pid }) => {
            Ok(user_pid.to_le_bytes().to_vec())
        }
        _ => Err(ResultCode { code: 1 }),
    }
}

#[test]
fn dispatching_twice_gives_identical_responses() {
    let req = request(0x0A, 0x5, vec![0x2A, 0, 0, 0]);
    let again = req.clone();
    let first = respond(&req, pure_callback(&extract_call(&req).unwrap()));
    let second = respond(&again, pure_callback(&extract_call(&again).unwrap()));
    assert_eq!(first, second);
}

#[test]
fn method_ids_round_trip() {
    assert_eq!(TicketGrantingMethod::from_id(0x4), Some(TicketGrantingMethod::GetPID));
    assert_eq!(TicketGrantingMethod::GetName.id(), 0x5);
    assert_eq!(DataStoreMethod::from_id(0x37), Some(DataStoreMethod::SearchPokemonV2));
    assert_eq!(DataStoreMethod::PostMetaBinary.id(), 0x15);
    assert_eq!(DataStoreMethod::from_id(0x38), None);
    assert_eq!(HealthMethod::from_id(0x3), Some(HealthMethod::RunSanityCheck));
    assert_eq!(MonitoringMethod::GetClusterMembers.id(), 0x2);
    assert_eq!(MatchmakeExtensionMethod::from_id(0x31), Some(MatchmakeExtensionMethod::GetAttractionStatus));
    assert_eq!(USUM117Method::from_id(0x8), None);
}
