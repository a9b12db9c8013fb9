use nex_protocols::authentication::{
    extract_login_ex, AuthenticationInfo, AuthenticationMethod, NintendoLoginData,
};
use nex_protocols::codec::{DecodeError, NexType};
use nex_protocols::extract::ExtractError;
use nex_protocols::nex_types::{DataHolder, NexString};

fn text(s: &str) -> NexString {
    NexString::new(s.as_bytes().to_vec())
}

fn encoded<T: NexType>(v: &T) -> Vec<u8> {
    let mut out = Vec::new();
    v.encode(&mut out);
    out
}

fn info() -> AuthenticationInfo {
    AuthenticationInfo { token: text("tk"), ngs_version: 2, token_type: 1, server_version: 3 }
}

fn params<T: NexType>(username: &str, tag: &str, object: T) -> Vec<u8> {
    let mut out = encoded(&text(username));
    DataHolder { name: text(tag), object }.encode(&mut out);
    out
}

#[test]
fn info_fields_in_declaration_order() {
    assert_eq!(
        encoded(&info()),
        vec![3, 0, b't', b'k', 0, 2, 0, 0, 0, 1, 3, 0, 0, 0]
    );
    let bytes = [0x01u8, 0x00, 0x00, 0x01, 0x00, 0x00, 0x00, 0x02, 0x03, 0x00, 0x00, 0x00];
    let mut pos = 0usize;
    assert_eq!(
        AuthenticationInfo::decode(&bytes, &mut pos),
        Ok(AuthenticationInfo { token: text(""), ngs_version: 1, token_type: 2, server_version: 3 })
    );
    assert_eq!(pos, 12);
    assert_eq!(AuthenticationInfo::new().token, text(""));
}

#[test]
fn login_ex_reads_data_holder() {
    let p = params("red", "AuthenticationInfo", info());
    assert_eq!(extract_login_ex(&p), Ok((text("red"), info())));
}

#[test]
fn login_ex_refuses_other_tag_at_envelope() {
    let p = params("red", " AuthenticationInfo", info());
    assert_eq!(extract_login_ex(&p), Err(ExtractError::Envelope(DecodeError::InvalidTag)));
}

#[test]
fn login_ex_short_envelope_is_envelope_error() {
    let mut p = params("red", "AuthenticationInfo", info());
    p.truncate(p.len() - 1);
    assert_eq!(extract_login_ex(&p), Err(ExtractError::Envelope(DecodeError::UnexpectedEnd)));
}

#[test]
fn login_ex_short_payload_is_payload_error() {
    // A well-formed envelope whose payload is one byte, too short for the record.
    let p = params("red", "AuthenticationInfo", 7u8);
    assert_eq!(extract_login_ex(&p), Err(ExtractError::Payload(DecodeError::UnexpectedEnd)));
}

#[test]
fn login_ex_refuses_blank_username() {
    let p = params("", "AuthenticationInfo", info());
    assert_eq!(extract_login_ex(&p), Err(ExtractError::MissingUsername));
}

#[test]
fn authentication_methods_share_ids() {
    assert_eq!(AuthenticationMethod::from_id(0x2), Some(AuthenticationMethod::LoginEx));
    assert_eq!(AuthenticationMethod::LoginWithParam.id(), 0x6);
    assert_eq!(NintendoLoginData::default(), NintendoLoginData(String::new()));
}
