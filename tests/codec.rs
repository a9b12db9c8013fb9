use nex_protocols::codec::{DecodeError, NexType};
use nex_protocols::datastore_types::{
    DataStoreGetMetaParam, DataStorePermission, DataStorePersistenceInitParam,
    DataStorePersistenceTarget, DataStorePreparePostParam, DataStoreRatingInitParam,
    DataStoreRatingInitParamWithSlot, GlobalTradeStationRecordKey,
    GlobalTradeStationSearchPokemonParam,
};
use nex_protocols::nex_types::{
    DataHolder, DateTime, NexBuffer, NexList, NexQBuffer, NexString, ResultCode, ResultRange,
};
use nex_protocols::ticket_granting::{authentication_info_tag_bytes, AuthenticationInfo};

fn encoded<T: NexType>(v: &T) -> Vec<u8> {
    let mut out = Vec::new();
    v.encode(&mut out);
    out
}

fn decoded<T: NexType>(bytes: &[u8]) -> (Result<T, DecodeError>, usize) {
    let mut pos = 0usize;
    let r = T::decode(bytes, &mut pos);
    (r, pos)
}

fn round_trip<T: NexType + PartialEq + std::fmt::Debug>(v: T) {
    let bytes = encoded(&v);
    let (r, pos) = decoded::<T>(&bytes);
    assert_eq!(r, Ok(v));
    assert_eq!(pos, bytes.len());
}

fn text(s: &str) -> NexString {
    NexString::new(s.as_bytes().to_vec())
}

#[test]
fn list_of_u64_layout() {
    let list = NexList::new(vec![1u64, 2, 3]);
    assert_eq!(
        encoded(&list),
        vec![
            3, 0, 0, 0, 1, 0, 0, 0, 0, 0, 0, 0, 2, 0, 0, 0, 0, 0, 0, 0, 3, 0, 0, 0, 0, 0, 0, 0
        ]
    );
}

#[test]
fn string_layout_counts_terminator() {
    assert_eq!(encoded(&text("AB")), vec![0x03, 0x00, b'A', b'B', 0x00]);
    assert_eq!(encoded(&text("")), vec![0x01, 0x00, 0x00]);
}

#[test]
fn integers_are_little_endian() {
    assert_eq!(encoded(&0x1234u16), vec![0x34, 0x12]);
    assert_eq!(encoded(&0x12345678u32), vec![0x78, 0x56, 0x34, 0x12]);
    assert_eq!(
        encoded(&0x0102030405060708u64),
        vec![8, 7, 6, 5, 4, 3, 2, 1]
    );
    assert_eq!(encoded(&-2i16), vec![0xfe, 0xff]);
    assert_eq!(encoded(&-1i32), vec![0xff, 0xff, 0xff, 0xff]);
    assert_eq!(decoded::<u32>(&[0x2a, 0, 0, 0]), (Ok(42u32), 4));
    assert_eq!(decoded::<i8>(&[0x80]), (Ok(-128i8), 1));
}

#[test]
fn buffers_layout() {
    let b = NexBuffer { bytes: vec![9, 8, 7] };
    assert_eq!(encoded(&b), vec![3, 0, 0, 0, 9, 8, 7]);
    let q = NexQBuffer { bytes: vec![9, 8, 7] };
    assert_eq!(encoded(&q), vec![3, 0, 9, 8, 7]);
}

#[test]
fn scalar_wrappers_layout() {
    assert_eq!(encoded(&ResultRange { offset: 1, length: 2 }), vec![1, 0, 0, 0, 2, 0, 0, 0]);
    assert_eq!(encoded(&ResultCode { code: 0x8001_0001 }), vec![1, 0, 1, 0x80]);
    assert_eq!(encoded(&DateTime { value: 5 }), vec![5, 0, 0, 0, 0, 0, 0, 0]);
}

#[test]
fn result_code_success_flag() {
    assert!(ResultCode { code: 0x8001_0001 }.is_success());
    assert!(!ResultCode { code: 0x0001_0001 }.is_success());
}

#[test]
fn primitives_round_trip() {
    round_trip(0u8);
    round_trip(255u8);
    round_trip(0xbeefu16);
    round_trip(u32::MAX);
    round_trip(0x0123_4567_89ab_cdefu64);
    round_trip(i8::MIN);
    round_trip(-12345i16);
    round_trip(i32::MIN);
    round_trip(-1i64);
    round_trip(true);
    round_trip(false);
}

#[test]
fn value_types_round_trip() {
    round_trip(text("hello"));
    round_trip(text(""));
    round_trip(NexBuffer { bytes: vec![0, 1, 2, 255] });
    round_trip(NexQBuffer { bytes: vec![] });
    round_trip(NexList::new(vec![text("a"), text(""), text("ccc")]));
    round_trip(NexList::<u32>::new(vec![]));
    round_trip(ResultRange { offset: 10, length: 20 });
    round_trip(DateTime { value: 0x1f2e_3d4c });
    round_trip(NexList::new(vec![NexList::new(vec![1u16, 2]), NexList::new(vec![])]));
}

#[test]
fn records_round_trip() {
    round_trip(GlobalTradeStationRecordKey { data_id: 7, password: 0xdead_beef });
    round_trip(DataStoreGetMetaParam {
        data_id: 1,
        persistence_target: DataStorePersistenceTarget { owner_id: 2, persistence_slot_id: 3 },
        result_option: 4,
        access_password: 5,
    });
    round_trip(DataStorePreparePostParam {
        size: 100,
        name: text("object"),
        data_type: 3,
        meta_binary: NexQBuffer { bytes: vec![1, 2, 3] },
        permission: DataStorePermission { permission: 1, recipient_ids: NexList::new(vec![9, 10]) },
        del_permission: DataStorePermission { permission: 2, recipient_ids: NexList::new(vec![]) },
        flag: 0x10,
        period: 90,
        refer_data_id: 0,
        tags: NexList::new(vec![text("t1"), text("t2")]),
        rating_init_params: NexList::new(vec![DataStoreRatingInitParamWithSlot {
            slot: -1,
            param: DataStoreRatingInitParam {
                flag: 1,
                internal_flag: 2,
                lock_type: 3,
                initial_value: -4,
                range_min: -5,
                range_max: 6,
                period_hour: 7,
                period_duration: -8,
            },
        }]),
        persistence_init_param: DataStorePersistenceInitParam {
            persistence_slot_id: 11,
            delete_last_object: true,
        },
        extra_data: NexList::new(vec![text("x")]),
    });
    round_trip(GlobalTradeStationSearchPokemonParam {
        prepare_upload_key: GlobalTradeStationRecordKey { data_id: 1, password: 2 },
        conditions: NexList::new(vec![3, 4, 5]),
        result_order_column: 6,
        result_order: 7,
        uploaded_after: DateTime { value: 8 },
        uploaded_before: DateTime { value: 9 },
        result_range: ResultRange { offset: 10, length: 11 },
    });
}

#[test]
fn record_layout_is_fields_in_order() {
    let key = GlobalTradeStationRecordKey { data_id: 1, password: 2 };
    assert_eq!(encoded(&key), vec![1, 0, 0, 0, 0, 0, 0, 0, 2, 0, 0, 0, 0, 0, 0, 0]);
}

#[test]
fn truncated_input_is_unexpected_end() {
    assert_eq!(decoded::<u32>(&[1, 2, 3]).0, Err(DecodeError::UnexpectedEnd));
    assert_eq!(decoded::<u8>(&[]).0, Err(DecodeError::UnexpectedEnd));
    // The length prefix claims five bytes, two remain.
    assert_eq!(decoded::<NexString>(&[5, 0, b'a', b'b']).0, Err(DecodeError::UnexpectedEnd));
    assert_eq!(decoded::<NexBuffer>(&[4, 0, 0, 0, 1]).0, Err(DecodeError::UnexpectedEnd));
    // The count claims two elements, one is there.
    assert_eq!(
        decoded::<NexList<u16>>(&[2, 0, 0, 0, 1, 0]).0,
        Err(DecodeError::UnexpectedEnd)
    );
}

#[test]
fn string_decoding_strips_terminator() {
    assert_eq!(decoded::<NexString>(&[3, 0, b'A', b'B', 0]), (Ok(text("AB")), 5));
    assert_eq!(decoded::<NexString>(&[0, 0, 7]), (Ok(text("")), 2));
}

#[test]
fn bool_decoding_reads_any_nonzero_as_true() {
    assert_eq!(decoded::<bool>(&[2]).0, Ok(true));
    assert_eq!(decoded::<bool>(&[0]).0, Ok(false));
}

#[test]
fn decoding_stops_after_value() {
    let (r, pos) = decoded::<u16>(&[1, 0, 99, 99]);
    assert_eq!(r, Ok(1u16));
    assert_eq!(pos, 2);
}

fn info() -> AuthenticationInfo {
    AuthenticationInfo { token: text("tok"), ngs_version: 2, token_type: 1, server_version: 3 }
}

#[test]
fn data_holder_layout_and_round_trip() {
    let holder = DataHolder { name: text("Foo"), object: 0x01020304u32 };
    let mut out = Vec::new();
    holder.encode(&mut out);
    assert_eq!(out, vec![4, 0, b'F', b'o', b'o', 0, 4, 0, 0, 0, 4, 3, 2, 1]);
    let mut pos = 0usize;
    assert_eq!(DataHolder::<u32>::decode(&out, &mut pos, b"Foo"), Ok(holder));
    assert_eq!(pos, out.len());

    let tag = authentication_info_tag_bytes();
    assert_eq!(tag, b"AuthenticationInfo".to_vec());
    let holder = DataHolder { name: NexString::new(tag.clone()), object: info() };
    let mut out = Vec::new();
    holder.encode(&mut out);
    let mut pos = 0usize;
    assert_eq!(DataHolder::<AuthenticationInfo>::decode(&out, &mut pos, &tag), Ok(holder));
}

#[test]
fn data_holder_with_other_tag_is_invalid_tag() {
    let holder = DataHolder { name: text("Foo"), object: info() };
    let mut out = Vec::new();
    holder.encode(&mut out);
    let mut pos = 0usize;
    assert_eq!(
        DataHolder::<AuthenticationInfo>::decode(&out, &mut pos, b"AuthenticationInfo"),
        Err(DecodeError::InvalidTag)
    );
    // Tags are compared exactly: case and whitespace count.
    let holder = DataHolder { name: text("authenticationinfo"), object: info() };
    let mut out = Vec::new();
    holder.encode(&mut out);
    let mut pos = 0usize;
    assert_eq!(
        DataHolder::<AuthenticationInfo>::decode(&out, &mut pos, b"AuthenticationInfo"),
        Err(DecodeError::InvalidTag)
    );
}

#[test]
fn authentication_info_new_is_empty() {
    let i = AuthenticationInfo::new();
    assert_eq!(i.token, text(""));
    assert_eq!((i.ngs_version, i.token_type, i.server_version), (0, 0, 0));
    assert_eq!(encoded(&info()), vec![4, 0, b't', b'o', b'k', 0, 2, 0, 0, 0, 1, 3, 0, 0, 0]);
}
