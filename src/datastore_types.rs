//! The records of the data-store protocol and of its trade-station
//! methods. Each record is its fields' encodings in declaration order, with
//! no prefix of its own.

use crate::codec::{DecodeError, NexType};
use crate::nex_types::{DateTime, NexList, NexQBuffer, NexString, ResultCode, ResultRange};
use vstd::prelude::*;
use vstd::seq_lib::lemma_concat_associative;

verus! {

/// The rating state of a stored object.
#[derive(Debug, Clone, PartialEq, Eq, Default)]
pub struct DataStoreRatingInfo {
    pub total_value: i64,
    pub count: u32,
    pub initial_value: i64,
}

/// The fields of `DataStoreRatingInfo`, in wire order.
type DataStoreRatingInfoFields = (i64, (u32, i64));

impl View for DataStoreRatingInfo {
    type V = <DataStoreRatingInfoFields as View>::V;

    open spec fn view(&self) -> Self::V {
        (self.total_value@, (self.count@, self.initial_value@))
    }
}

impl NexType for DataStoreRatingInfo {
    open spec fn valid(v: Self::V) -> bool {
        <DataStoreRatingInfoFields as NexType>::valid(v)
    }

    closed spec fn wire(v: Self::V) -> Seq<u8> {
        <DataStoreRatingInfoFields as NexType>::wire(v)
    }

    closed spec fn parse(s: Seq<u8>) -> Result<(Self::V, nat), DecodeError> {
        <DataStoreRatingInfoFields as NexType>::parse(s)
    }

    proof fn lemma_round_trip(v: Self::V, more: Seq<u8>) {
        <DataStoreRatingInfoFields as NexType>::lemma_round_trip(v, more);
    }

    fn encode(&self, out: &mut Vec<u8>) {
        self.total_value.encode(out);
        self.count.encode(out);
        self.initial_value.encode(out);
        assert(out@ =~= old(out)@ + Self::wire(self@));
    }

    fn decode(data: &[u8], pos: &mut usize) -> (r: Result<DataStoreRatingInfo, DecodeError>) {
        match <DataStoreRatingInfoFields as NexType>::decode(data, pos) {
            Ok((total_value, (count, initial_value))) => Ok(DataStoreRatingInfo { total_value, count, initial_value }),
            Err(e) => Err(e),
        }
    }
}

impl DataStoreRatingInfo {
    /// The record is encoded as its fields' encodings in declaration order,
    /// and decoded field by field in that order.
    pub proof fn lemma_layout(v: <DataStoreRatingInfo as View>::V, s: Seq<u8>)
        ensures
            <DataStoreRatingInfo as NexType>::valid(v) == <DataStoreRatingInfoFields as NexType>::valid(v),
            <DataStoreRatingInfo as NexType>::wire(v) == <DataStoreRatingInfoFields as NexType>::wire(v),
            <DataStoreRatingInfo as NexType>::parse(s) == <DataStoreRatingInfoFields as NexType>::parse(s),
    {
    }
}

/// A rating together with the slot that it belongs to.
#[derive(Debug, Clone, PartialEq, Eq, Default)]
pub struct DataStoreRatingInfoWithSlot {
    pub slot: i8,
    pub rating: DataStoreRatingInfo,
}

/// The fields of `DataStoreRatingInfoWithSlot`, in wire order.
type DataStoreRatingInfoWithSlotFields = (i8, DataStoreRatingInfo);

impl View for DataStoreRatingInfoWithSlot {
    type V = <DataStoreRatingInfoWithSlotFields as View>::V;

    open spec fn view(&self) -> Self::V {
        (self.slot@, self.rating@)
    }
}

impl NexType for DataStoreRatingInfoWithSlot {
    open spec fn valid(v: Self::V) -> bool {
        <DataStoreRatingInfoWithSlotFields as NexType>::valid(v)
    }

    closed spec fn wire(v: Self::V) -> Seq<u8> {
        <DataStoreRatingInfoWithSlotFields as NexType>::wire(v)
    }

    closed spec fn parse(s: Seq<u8>) -> Result<(Self::V, nat), DecodeError> {
        <DataStoreRatingInfoWithSlotFields as NexType>::parse(s)
    }

    proof fn lemma_round_trip(v: Self::V, more: Seq<u8>) {
        <DataStoreRatingInfoWithSlotFields as NexType>::lemma_round_trip(v, more);
    }

    fn encode(&self, out: &mut Vec<u8>) {
        self.slot.encode(out);
        self.rating.encode(out);
        assert(out@ =~= old(out)@ + Self::wire(self@));
    }

    fn decode(data: &[u8], pos: &mut usize) -> (r: Result<DataStoreRatingInfoWithSlot, DecodeError>) {
        match <DataStoreRatingInfoWithSlotFields as NexType>::decode(data, pos) {
            Ok((slot, rating)) => Ok(DataStoreRatingInfoWithSlot { slot, rating }),
            Err(e) => Err(e),
        }
    }
}

impl DataStoreRatingInfoWithSlot {
    /// The record is encoded as its fields' encodings in declaration order,
    /// and decoded field by field in that order.
    pub proof fn lemma_layout(v: <DataStoreRatingInfoWithSlot as View>::V, s: Seq<u8>)
        ensures
            <DataStoreRatingInfoWithSlot as NexType>::valid(v) == <DataStoreRatingInfoWithSlotFields as NexType>::valid(v),
            <DataStoreRatingInfoWithSlot as NexType>::wire(v) == <DataStoreRatingInfoWithSlotFields as NexType>::wire(v),
            <DataStoreRatingInfoWithSlot as NexType>::parse(s) == <DataStoreRatingInfoWithSlotFields as NexType>::parse(s),
    {
    }
}

/// Who may see or delete an object: a permission kind and the principals it names.
#[derive(Debug, Clone, PartialEq, Eq, Default)]
pub struct DataStorePermission {
    pub permission: u8,
    pub recipient_ids: NexList<u32>,
}

/// The fields of `DataStorePermission`, in wire order.
type DataStorePermissionFields = (u8, NexList<u32>);

impl View for DataStorePermission {
    type V = <DataStorePermissionFields as View>::V;

    open spec fn view(&self) -> Self::V {
        (self.permission@, self.recipient_ids@)
    }
}

impl NexType for DataStorePermission {
    open spec fn valid(v: Self::V) -> bool {
        <DataStorePermissionFields as NexType>::valid(v)
    }

    closed spec fn wire(v: Self::V) -> Seq<u8> {
        <DataStorePermissionFields as NexType>::wire(v)
    }

    closed spec fn parse(s: Seq<u8>) -> Result<(Self::V, nat), DecodeError> {
        <DataStorePermissionFields as NexType>::parse(s)
    }

    proof fn lemma_round_trip(v: Self::V, more: Seq<u8>) {
        <DataStorePermissionFields as NexType>::lemma_round_trip(v, more);
    }

    fn encode(&self, out: &mut Vec<u8>) {
        self.permission.encode(out);
        self.recipient_ids.encode(out);
        assert(out@ =~= old(out)@ + Self::wire(self@));
    }

    fn decode(data: &[u8], pos: &mut usize) -> (r: Result<DataStorePermission, DecodeError>) {
        match <DataStorePermissionFields as NexType>::decode(data, pos) {
            Ok((permission, recipient_ids)) => Ok(DataStorePermission { permission, recipient_ids }),
            Err(e) => Err(e),
        }
    }
}

impl DataStorePermission {
    /// The record is encoded as its fields' encodings in declaration order,
    /// and decoded field by field in that order.
    pub proof fn lemma_layout(v: <DataStorePermission as View>::V, s: Seq<u8>)
        ensures
            <DataStorePermission as NexType>::valid(v) == <DataStorePermissionFields as NexType>::valid(v),
            <DataStorePermission as NexType>::wire(v) == <DataStorePermissionFields as NexType>::wire(v),
            <DataStorePermission as NexType>::parse(s) == <DataStorePermissionFields as NexType>::parse(s),
    {
    }
}

/// The meta information of one stored object.
#[derive(Debug, Clone, PartialEq, Eq, Default)]
pub struct DataStoreMetaInfo {
    pub data_id: u64,
    pub owner_id: u32,
    pub size: u32,
    pub name: NexString,
    pub data_type: u16,
    pub meta_binary: NexQBuffer,
    pub permission: DataStorePermission,
    pub del_permission: DataStorePermission,
    pub created_time: DateTime,
    pub updated_time: DateTime,
    pub period: u16,
    pub status: u8,
    pub referred_cnt: u32,
    pub refer_data_id: u32,
    pub flag: u32,
    pub referred_time: DateTime,
    pub expire_time: DateTime,
    pub tags: NexList<NexString>,
    pub ratings: NexList<DataStoreRatingInfoWithSlot>,
}

/// The fields of `DataStoreMetaInfo`, in wire order.
type DataStoreMetaInfoFields = (u64, (u32, (u32, (NexString, (u16, (NexQBuffer, (DataStorePermission, (DataStorePermission, (DateTime, (DateTime, (u16, (u8, (u32, (u32, (u32, (DateTime, (DateTime, (NexList<NexString>, NexList<DataStoreRatingInfoWithSlot>))))))))))))))))));

impl View for DataStoreMetaInfo {
    type V = <DataStoreMetaInfoFields as View>::V;

    open spec fn view(&self) -> Self::V {
        (self.data_id@, (self.owner_id@, (self.size@, (self.name@, (self.data_type@, (self.meta_binary@, (self.permission@, (self.del_permission@, (self.created_time@, (self.updated_time@, (self.period@, (self.status@, (self.referred_cnt@, (self.refer_data_id@, (self.flag@, (self.referred_time@, (self.expire_time@, (self.tags@, self.ratings@))))))))))))))))))
    }
}

impl NexType for DataStoreMetaInfo {
    open spec fn valid(v: Self::V) -> bool {
        <DataStoreMetaInfoFields as NexType>::valid(v)
    }

    closed spec fn wire(v: Self::V) -> Seq<u8> {
        <DataStoreMetaInfoFields as NexType>::wire(v)
    }

    closed spec fn parse(s: Seq<u8>) -> Result<(Self::V, nat), DecodeError> {
        <DataStoreMetaInfoFields as NexType>::parse(s)
    }

    proof fn lemma_round_trip(v: Self::V, more: Seq<u8>) {
        <DataStoreMetaInfoFields as NexType>::lemma_round_trip(v, more);
    }

    fn encode(&self, out: &mut Vec<u8>) {
        let ghost o0 = out@;
        self.data_id.encode(out);
        let ghost o1 = out@;
        self.owner_id.encode(out);
        let ghost o2 = out@;
        self.size.encode(out);
        let ghost o3 = out@;
        self.name.encode(out);
        let ghost o4 = out@;
        self.data_type.encode(out);
        let ghost o5 = out@;
        self.meta_binary.encode(out);
        let ghost o6 = out@;
        self.permission.encode(out);
        let ghost o7 = out@;
        self.del_permission.encode(out);
        let ghost o8 = out@;
        self.created_time.encode(out);
        let ghost o9 = out@;
        self.updated_time.encode(out);
        let ghost o10 = out@;
        self.period.encode(out);
        let ghost o11 = out@;
        self.status.encode(out);
        let ghost o12 = out@;
        self.referred_cnt.encode(out);
        let ghost o13 = out@;
        self.refer_data_id.encode(out);
        let ghost o14 = out@;
        self.flag.encode(out);
        let ghost o15 = out@;
        self.referred_time.encode(out);
        let ghost o16 = out@;
        self.expire_time.encode(out);
        let ghost o17 = out@;
        self.tags.encode(out);
        let ghost o18 = out@;
        self.ratings.encode(out);
        proof {
            let t18 = <NexList<DataStoreRatingInfoWithSlot> as NexType>::wire(self.ratings@);
            lemma_concat_associative(o17, <NexList<NexString> as NexType>::wire(self.tags@), t18);
            let t17 = <NexList<NexString> as NexType>::wire(self.tags@) + t18;
            lemma_concat_associative(o16, <DateTime as NexType>::wire(self.expire_time@), t17);
            let t16 = <DateTime as NexType>::wire(self.expire_time@) + t17;
            lemma_concat_associative(o15, <DateTime as NexType>::wire(self.referred_time@), t16);
            let t15 = <DateTime as NexType>::wire(self.referred_time@) + t16;
            lemma_concat_associative(o14, <u32 as NexType>::wire(self.flag@), t15);
            let t14 = <u32 as NexType>::wire(self.flag@) + t15;
            lemma_concat_associative(o13, <u32 as NexType>::wire(self.refer_data_id@), t14);
            let t13 = <u32 as NexType>::wire(self.refer_data_id@) + t14;
            lemma_concat_associative(o12, <u32 as NexType>::wire(self.referred_cnt@), t13);
            let t12 = <u32 as NexType>::wire(self.referred_cnt@) + t13;
            lemma_concat_associative(o11, <u8 as NexType>::wire(self.status@), t12);
            let t11 = <u8 as NexType>::wire(self.status@) + t12;
            lemma_concat_associative(o10, <u16 as NexType>::wire(self.period@), t11);
            let t10 = <u16 as NexType>::wire(self.period@) + t11;
            lemma_concat_associative(o9, <DateTime as NexType>::wire(self.updated_time@), t10);
            let t9 = <DateTime as NexType>::wire(self.updated_time@) + t10;
            lemma_concat_associative(o8, <DateTime as NexType>::wire(self.created_time@), t9);
            let t8 = <DateTime as NexType>::wire(self.created_time@) + t9;
            lemma_concat_associative(o7, <DataStorePermission as NexType>::wire(self.del_permission@), t8);
            let t7 = <DataStorePermission as NexType>::wire(self.del_permission@) + t8;
            lemma_concat_associative(o6, <DataStorePermission as NexType>::wire(self.permission@), t7);
            let t6 = <DataStorePermission as NexType>::wire(self.permission@) + t7;
            lemma_concat_associative(o5, <NexQBuffer as NexType>::wire(self.meta_binary@), t6);
            let t5 = <NexQBuffer as NexType>::wire(self.meta_binary@) + t6;
            lemma_concat_associative(o4, <u16 as NexType>::wire(self.data_type@), t5);
            let t4 = <u16 as NexType>::wire(self.data_type@) + t5;
            lemma_concat_associative(o3, <NexString as NexType>::wire(self.name@), t4);
            let t3 = <NexString as NexType>::wire(self.name@) + t4;
            lemma_concat_associative(o2, <u32 as NexType>::wire(self.size@), t3);
            let t2 = <u32 as NexType>::wire(self.size@) + t3;
            lemma_concat_associative(o1, <u32 as NexType>::wire(self.owner_id@), t2);
            let t1 = <u32 as NexType>::wire(self.owner_id@) + t2;
            lemma_concat_associative(o0, <u64 as NexType>::wire(self.data_id@), t1);
        }
    }

    fn decode(data: &[u8], pos: &mut usize) -> (r: Result<DataStoreMetaInfo, DecodeError>) {
        match <DataStoreMetaInfoFields as NexType>::decode(data, pos) {
            Ok((data_id, (owner_id, (size, (name, (data_type, (meta_binary, (permission, (del_permission, (created_time, (updated_time, (period, (status, (referred_cnt, (refer_data_id, (flag, (referred_time, (expire_time, (tags, ratings))))))))))))))))))) => Ok(DataStoreMetaInfo { data_id, owner_id, size, name, data_type, meta_binary, permission, del_permission, created_time, updated_time, period, status, referred_cnt, refer_data_id, flag, referred_time, expire_time, tags, ratings }),
            Err(e) => Err(e),
        }
    }
}

impl DataStoreMetaInfo {
    /// The record is encoded as its fields' encodings in declaration order,
    /// and decoded field by field in that order.
    pub proof fn lemma_layout(v: <DataStoreMetaInfo as View>::V, s: Seq<u8>)
        ensures
            <DataStoreMetaInfo as NexType>::valid(v) == <DataStoreMetaInfoFields as NexType>::valid(v),
            <DataStoreMetaInfo as NexType>::wire(v) == <DataStoreMetaInfoFields as NexType>::wire(v),
            <DataStoreMetaInfo as NexType>::parse(s) == <DataStoreMetaInfoFields as NexType>::parse(s),
    {
    }
}

/// A persistence slot of an owner.
#[derive(Debug, Clone, PartialEq, Eq, Default)]
pub struct DataStorePersistenceTarget {
    pub owner_id: u32,
    pub persistence_slot_id: u16,
}

/// The fields of `DataStorePersistenceTarget`, in wire order.
type DataStorePersistenceTargetFields = (u32, u16);

impl View for DataStorePersistenceTarget {
    type V = <DataStorePersistenceTargetFields as View>::V;

    open spec fn view(&self) -> Self::V {
        (self.owner_id@, self.persistence_slot_id@)
    }
}

impl NexType for DataStorePersistenceTarget {
    open spec fn valid(v: Self::V) -> bool {
        <DataStorePersistenceTargetFields as NexType>::valid(v)
    }

    closed spec fn wire(v: Self::V) -> Seq<u8> {
        <DataStorePersistenceTargetFields as NexType>::wire(v)
    }

    closed spec fn parse(s: Seq<u8>) -> Result<(Self::V, nat), DecodeError> {
        <DataStorePersistenceTargetFields as NexType>::parse(s)
    }

    proof fn lemma_round_trip(v: Self::V, more: Seq<u8>) {
        <DataStorePersistenceTargetFields as NexType>::lemma_round_trip(v, more);
    }

    fn encode(&self, out: &mut Vec<u8>) {
        self.owner_id.encode(out);
        self.persistence_slot_id.encode(out);
        assert(out@ =~= old(out)@ + Self::wire(self@));
    }

    fn decode(data: &[u8], pos: &mut usize) -> (r: Result<DataStorePersistenceTarget, DecodeError>) {
        match <DataStorePersistenceTargetFields as NexType>::decode(data, pos) {
            Ok((owner_id, persistence_slot_id)) => Ok(DataStorePersistenceTarget { owner_id, persistence_slot_id }),
            Err(e) => Err(e),
        }
    }
}

impl DataStorePersistenceTarget {
    /// The record is encoded as its fields' encodings in declaration order,
    /// and decoded field by field in that order.
    pub proof fn lemma_layout(v: <DataStorePersistenceTarget as View>::V, s: Seq<u8>)
        ensures
            <DataStorePersistenceTarget as NexType>::valid(v) == <DataStorePersistenceTargetFields as NexType>::valid(v),
            <DataStorePersistenceTarget as NexType>::wire(v) == <DataStorePersistenceTargetFields as NexType>::wire(v),
            <DataStorePersistenceTarget as NexType>::parse(s) == <DataStorePersistenceTargetFields as NexType>::parse(s),
    {
    }
}

/// What to fetch the meta information of, and how.
#[derive(Debug, Clone, PartialEq, Eq, Default)]
pub struct DataStoreGetMetaParam {
    pub data_id: u64,
    pub persistence_target: DataStorePersistenceTarget,
    pub result_option: u8,
    pub access_password: u64,
}

/// The fields of `DataStoreGetMetaParam`, in wire order.
type DataStoreGetMetaParamFields = (u64, (DataStorePersistenceTarget, (u8, u64)));

impl View for DataStoreGetMetaParam {
    type V = <DataStoreGetMetaParamFields as View>::V;

    open spec fn view(&self) -> Self::V {
        (self.data_id@, (self.persistence_target@, (self.result_option@, self.access_password@)))
    }
}

impl NexType for DataStoreGetMetaParam {
    open spec fn valid(v: Self::V) -> bool {
        <DataStoreGetMetaParamFields as NexType>::valid(v)
    }

    closed spec fn wire(v: Self::V) -> Seq<u8> {
        <DataStoreGetMetaParamFields as NexType>::wire(v)
    }

    closed spec fn parse(s: Seq<u8>) -> Result<(Self::V, nat), DecodeError> {
        <DataStoreGetMetaParamFields as NexType>::parse(s)
    }

    proof fn lemma_round_trip(v: Self::V, more: Seq<u8>) {
        <DataStoreGetMetaParamFields as NexType>::lemma_round_trip(v, more);
    }

    fn encode(&self, out: &mut Vec<u8>) {
        self.data_id.encode(out);
        self.persistence_target.encode(out);
        self.result_option.encode(out);
        self.access_password.encode(out);
        assert(out@ =~= old(out)@ + Self::wire(self@));
    }

    fn decode(data: &[u8], pos: &mut usize) -> (r: Result<DataStoreGetMetaParam, DecodeError>) {
        match <DataStoreGetMetaParamFields as NexType>::decode(data, pos) {
            Ok((data_id, (persistence_target, (result_option, access_password)))) => Ok(DataStoreGetMetaParam { data_id, persistence_target, result_option, access_password }),
            Err(e) => Err(e),
        }
    }
}

impl DataStoreGetMetaParam {
    /// The record is encoded as its fields' encodings in declaration order,
    /// and decoded field by field in that order.
    pub proof fn lemma_layout(v: <DataStoreGetMetaParam as View>::V, s: Seq<u8>)
        ensures
            <DataStoreGetMetaParam as NexType>::valid(v) == <DataStoreGetMetaParamFields as NexType>::valid(v),
            <DataStoreGetMetaParam as NexType>::wire(v) == <DataStoreGetMetaParamFields as NexType>::wire(v),
            <DataStoreGetMetaParam as NexType>::parse(s) == <DataStoreGetMetaParamFields as NexType>::parse(s),
    {
    }
}

/// A rating slot of a stored object.
#[derive(Debug, Clone, PartialEq, Eq, Default)]
pub struct DataStoreRatingTarget {
    pub data_id: u64,
    pub slot: i8,
}

/// The fields of `DataStoreRatingTarget`, in wire order.
type DataStoreRatingTargetFields = (u64, i8);

impl View for DataStoreRatingTarget {
    type V = <DataStoreRatingTargetFields as View>::V;

    open spec fn view(&self) -> Self::V {
        (self.data_id@, self.slot@)
    }
}

impl NexType for DataStoreRatingTarget {
    open spec fn valid(v: Self::V) -> bool {
        <DataStoreRatingTargetFields as NexType>::valid(v)
    }

    closed spec fn wire(v: Self::V) -> Seq<u8> {
        <DataStoreRatingTargetFields as NexType>::wire(v)
    }

    closed spec fn parse(s: Seq<u8>) -> Result<(Self::V, nat), DecodeError> {
        <DataStoreRatingTargetFields as NexType>::parse(s)
    }

    proof fn lemma_round_trip(v: Self::V, more: Seq<u8>) {
        <DataStoreRatingTargetFields as NexType>::lemma_round_trip(v, more);
    }

    fn encode(&self, out: &mut Vec<u8>) {
        self.data_id.encode(out);
        self.slot.encode(out);
        assert(out@ =~= old(out)@ + Self::wire(self@));
    }

    fn decode(data: &[u8], pos: &mut usize) -> (r: Result<DataStoreRatingTarget, DecodeError>) {
        match <DataStoreRatingTargetFields as NexType>::decode(data, pos) {
            Ok((data_id, slot)) => Ok(DataStoreRatingTarget { data_id, slot }),
            Err(e) => Err(e),
        }
    }
}

impl DataStoreRatingTarget {
    /// The record is encoded as its fields' encodings in declaration order,
    /// and decoded field by field in that order.
    pub proof fn lemma_layout(v: <DataStoreRatingTarget as View>::V, s: Seq<u8>)
        ensures
            <DataStoreRatingTarget as NexType>::valid(v) == <DataStoreRatingTargetFields as NexType>::valid(v),
            <DataStoreRatingTarget as NexType>::wire(v) == <DataStoreRatingTargetFields as NexType>::wire(v),
            <DataStoreRatingTarget as NexType>::parse(s) == <DataStoreRatingTargetFields as NexType>::parse(s),
    {
    }
}

/// A rating to apply.
#[derive(Debug, Clone, PartialEq, Eq, Default)]
pub struct DataStoreRateObjectParam {
    pub rating_value: i32,
    pub access_password: u64,
}

/// The fields of `DataStoreRateObjectParam`, in wire order.
type DataStoreRateObjectParamFields = (i32, u64);

impl View for DataStoreRateObjectParam {
    type V = <DataStoreRateObjectParamFields as View>::V;

    open spec fn view(&self) -> Self::V {
        (self.rating_value@, self.access_password@)
    }
}

impl NexType for DataStoreRateObjectParam {
    open spec fn valid(v: Self::V) -> bool {
        <DataStoreRateObjectParamFields as NexType>::valid(v)
    }

    closed spec fn wire(v: Self::V) -> Seq<u8> {
        <DataStoreRateObjectParamFields as NexType>::wire(v)
    }

    closed spec fn parse(s: Seq<u8>) -> Result<(Self::V, nat), DecodeError> {
        <DataStoreRateObjectParamFields as NexType>::parse(s)
    }

    proof fn lemma_round_trip(v: Self::V, more: Seq<u8>) {
        <DataStoreRateObjectParamFields as NexType>::lemma_round_trip(v, more);
    }

    fn encode(&self, out: &mut Vec<u8>) {
        self.rating_value.encode(out);
        self.access_password.encode(out);
        assert(out@ =~= old(out)@ + Self::wire(self@));
    }

    fn decode(data: &[u8], pos: &mut usize) -> (r: Result<DataStoreRateObjectParam, DecodeError>) {
        match <DataStoreRateObjectParamFields as NexType>::decode(data, pos) {
            Ok((rating_value, access_password)) => Ok(DataStoreRateObjectParam { rating_value, access_password }),
            Err(e) => Err(e),
        }
    }
}

impl DataStoreRateObjectParam {
    /// The record is encoded as its fields' encodings in declaration order,
    /// and decoded field by field in that order.
    pub proof fn lemma_layout(v: <DataStoreRateObjectParam as View>::V, s: Seq<u8>)
        ensures
            <DataStoreRateObjectParam as NexType>::valid(v) == <DataStoreRateObjectParamFields as NexType>::valid(v),
            <DataStoreRateObjectParam as NexType>::wire(v) == <DataStoreRateObjectParamFields as NexType>::wire(v),
            <DataStoreRateObjectParam as NexType>::parse(s) == <DataStoreRateObjectParamFields as NexType>::parse(s),
    {
    }
}

/// How a rating slot starts out.
#[derive(Debug, Clone, PartialEq, Eq, Default)]
pub struct DataStoreRatingInitParam {
    pub flag: u8,
    pub internal_flag: u8,
    pub lock_type: u8,
    pub initial_value: i64,
    pub range_min: i32,
    pub range_max: i32,
    pub period_hour: i8,
    pub period_duration: i16,
}

/// The fields of `DataStoreRatingInitParam`, in wire order.
type DataStoreRatingInitParamFields = (u8, (u8, (u8, (i64, (i32, (i32, (i8, i16)))))));

impl View for DataStoreRatingInitParam {
    type V = <DataStoreRatingInitParamFields as View>::V;

    open spec fn view(&self) -> Self::V {
        (self.flag@, (self.internal_flag@, (self.lock_type@, (self.initial_value@, (self.range_min@, (self.range_max@, (self.period_hour@, self.period_duration@)))))))
    }
}

impl NexType for DataStoreRatingInitParam {
    open spec fn valid(v: Self::V) -> bool {
        <DataStoreRatingInitParamFields as NexType>::valid(v)
    }

    closed spec fn wire(v: Self::V) -> Seq<u8> {
        <DataStoreRatingInitParamFields as NexType>::wire(v)
    }

    closed spec fn parse(s: Seq<u8>) -> Result<(Self::V, nat), DecodeError> {
        <DataStoreRatingInitParamFields as NexType>::parse(s)
    }

    proof fn lemma_round_trip(v: Self::V, more: Seq<u8>) {
        <DataStoreRatingInitParamFields as NexType>::lemma_round_trip(v, more);
    }

    fn encode(&self, out: &mut Vec<u8>) {
        let ghost o0 = out@;
        self.flag.encode(out);
        let ghost o1 = out@;
        self.internal_flag.encode(out);
        let ghost o2 = out@;
        self.lock_type.encode(out);
        let ghost o3 = out@;
        self.initial_value.encode(out);
        let ghost o4 = out@;
        self.range_min.encode(out);
        let ghost o5 = out@;
        self.range_max.encode(out);
        let ghost o6 = out@;
        self.period_hour.encode(out);
        let ghost o7 = out@;
        self.period_duration.encode(out);
        proof {
            let t7 = <i16 as NexType>::wire(self.period_duration@);
            lemma_concat_associative(o6, <i8 as NexType>::wire(self.period_hour@), t7);
            let t6 = <i8 as NexType>::wire(self.period_hour@) + t7;
            lemma_concat_associative(o5, <i32 as NexType>::wire(self.range_max@), t6);
            let t5 = <i32 as NexType>::wire(self.range_max@) + t6;
            lemma_concat_associative(o4, <i32 as NexType>::wire(self.range_min@), t5);
            let t4 = <i32 as NexType>::wire(self.range_min@) + t5;
            lemma_concat_associative(o3, <i64 as NexType>::wire(self.initial_value@), t4);
            let t3 = <i64 as NexType>::wire(self.initial_value@) + t4;
            lemma_concat_associative(o2, <u8 as NexType>::wire(self.lock_type@), t3);
            let t2 = <u8 as NexType>::wire(self.lock_type@) + t3;
            lemma_concat_associative(o1, <u8 as NexType>::wire(self.internal_flag@), t2);
            let t1 = <u8 as NexType>::wire(self.internal_flag@) + t2;
            lemma_concat_associative(o0, <u8 as NexType>::wire(self.flag@), t1);
        }
    }

    fn decode(data: &[u8], pos: &mut usize) -> (r: Result<DataStoreRatingInitParam, DecodeError>) {
        match <DataStoreRatingInitParamFields as NexType>::decode(data, pos) {
            Ok((flag, (internal_flag, (lock_type, (initial_value, (range_min, (range_max, (period_hour, period_duration)))))))) => Ok(DataStoreRatingInitParam { flag, internal_flag, lock_type, initial_value, range_min, range_max, period_hour, period_duration }),
            Err(e) => Err(e),
        }
    }
}

impl DataStoreRatingInitParam {
    /// The record is encoded as its fields' encodings in declaration order,
    /// and decoded field by field in that order.
    pub proof fn lemma_layout(v: <DataStoreRatingInitParam as View>::V, s: Seq<u8>)
        ensures
            <DataStoreRatingInitParam as NexType>::valid(v) == <DataStoreRatingInitParamFields as NexType>::valid(v),
            <DataStoreRatingInitParam as NexType>::wire(v) == <DataStoreRatingInitParamFields as NexType>::wire(v),
            <DataStoreRatingInitParam as NexType>::parse(s) == <DataStoreRatingInitParamFields as NexType>::parse(s),
    {
    }
}

/// A rating start-up parameter for one slot.
#[derive(Debug, Clone, PartialEq, Eq, Default)]
pub struct DataStoreRatingInitParamWithSlot {
    pub slot: i8,
    pub param: DataStoreRatingInitParam,
}

/// The fields of `DataStoreRatingInitParamWithSlot`, in wire order.
type DataStoreRatingInitParamWithSlotFields = (i8, DataStoreRatingInitParam);

impl View for DataStoreRatingInitParamWithSlot {
    type V = <DataStoreRatingInitParamWithSlotFields as View>::V;

    open spec fn view(&self) -> Self::V {
        (self.slot@, self.param@)
    }
}

impl NexType for DataStoreRatingInitParamWithSlot {
    open spec fn valid(v: Self::V) -> bool {
        <DataStoreRatingInitParamWithSlotFields as NexType>::valid(v)
    }

    closed spec fn wire(v: Self::V) -> Seq<u8> {
        <DataStoreRatingInitParamWithSlotFields as NexType>::wire(v)
    }

    closed spec fn parse(s: Seq<u8>) -> Result<(Self::V, nat), DecodeError> {
        <DataStoreRatingInitParamWithSlotFields as NexType>::parse(s)
    }

    proof fn lemma_round_trip(v: Self::V, more: Seq<u8>) {
        <DataStoreRatingInitParamWithSlotFields as NexType>::lemma_round_trip(v, more);
    }

    fn encode(&self, out: &mut Vec<u8>) {
        self.slot.encode(out);
        self.param.encode(out);
        assert(out@ =~= old(out)@ + Self::wire(self@));
    }

    fn decode(data: &[u8], pos: &mut usize) -> (r: Result<DataStoreRatingInitParamWithSlot, DecodeError>) {
        match <DataStoreRatingInitParamWithSlotFields as NexType>::decode(data, pos) {
            Ok((slot, param)) => Ok(DataStoreRatingInitParamWithSlot { slot, param }),
            Err(e) => Err(e),
        }
    }
}

impl DataStoreRatingInitParamWithSlot {
    /// The record is encoded as its fields' encodings in declaration order,
    /// and decoded field by field in that order.
    pub proof fn lemma_layout(v: <DataStoreRatingInitParamWithSlot as View>::V, s: Seq<u8>)
        ensures
            <DataStoreRatingInitParamWithSlot as NexType>::valid(v) == <DataStoreRatingInitParamWithSlotFields as NexType>::valid(v),
            <DataStoreRatingInitParamWithSlot as NexType>::wire(v) == <DataStoreRatingInitParamWithSlotFields as NexType>::wire(v),
            <DataStoreRatingInitParamWithSlot as NexType>::parse(s) == <DataStoreRatingInitParamWithSlotFields as NexType>::parse(s),
    {
    }
}

/// Where a new object persists.
#[derive(Debug, Clone, PartialEq, Eq, Default)]
pub struct DataStorePersistenceInitParam {
    pub persistence_slot_id: u16,
    pub delete_last_object: bool,
}

/// The fields of `DataStorePersistenceInitParam`, in wire order.
type DataStorePersistenceInitParamFields = (u16, bool);

impl View for DataStorePersistenceInitParam {
    type V = <DataStorePersistenceInitParamFields as View>::V;

    open spec fn view(&self) -> Self::V {
        (self.persistence_slot_id@, self.delete_last_object@)
    }
}

impl NexType for DataStorePersistenceInitParam {
    open spec fn valid(v: Self::V) -> bool {
        <DataStorePersistenceInitParamFields as NexType>::valid(v)
    }

    closed spec fn wire(v: Self::V) -> Seq<u8> {
        <DataStorePersistenceInitParamFields as NexType>::wire(v)
    }

    closed spec fn parse(s: Seq<u8>) -> Result<(Self::V, nat), DecodeError> {
        <DataStorePersistenceInitParamFields as NexType>::parse(s)
    }

    proof fn lemma_round_trip(v: Self::V, more: Seq<u8>) {
        <DataStorePersistenceInitParamFields as NexType>::lemma_round_trip(v, more);
    }

    fn encode(&self, out: &mut Vec<u8>) {
        self.persistence_slot_id.encode(out);
        self.delete_last_object.encode(out);
        assert(out@ =~= old(out)@ + Self::wire(self@));
    }

    fn decode(data: &[u8], pos: &mut usize) -> (r: Result<DataStorePersistenceInitParam, DecodeError>) {
        match <DataStorePersistenceInitParamFields as NexType>::decode(data, pos) {
            Ok((persistence_slot_id, delete_last_object)) => Ok(DataStorePersistenceInitParam { persistence_slot_id, delete_last_object }),
            Err(e) => Err(e),
        }
    }
}

impl DataStorePersistenceInitParam {
    /// The record is encoded as its fields' encodings in declaration order,
    /// and decoded field by field in that order.
    pub proof fn lemma_layout(v: <DataStorePersistenceInitParam as View>::V, s: Seq<u8>)
        ensures
            <DataStorePersistenceInitParam as NexType>::valid(v) == <DataStorePersistenceInitParamFields as NexType>::valid(v),
            <DataStorePersistenceInitParam as NexType>::wire(v) == <DataStorePersistenceInitParamFields as NexType>::wire(v),
            <DataStorePersistenceInitParam as NexType>::parse(s) == <DataStorePersistenceInitParamFields as NexType>::parse(s),
    {
    }
}

/// The description of an object to post.
#[derive(Debug, Clone, PartialEq, Eq, Default)]
pub struct DataStorePreparePostParam {
    pub size: u32,
    pub name: NexString,
    pub data_type: u16,
    pub meta_binary: NexQBuffer,
    pub permission: DataStorePermission,
    pub del_permission: DataStorePermission,
    pub flag: u32,
    pub period: u16,
    pub refer_data_id: u32,
    pub tags: NexList<NexString>,
    pub rating_init_params: NexList<DataStoreRatingInitParamWithSlot>,
    pub persistence_init_param: DataStorePersistenceInitParam,
    pub extra_data: NexList<NexString>,
}

/// The fields of `DataStorePreparePostParam`, in wire order.
type DataStorePreparePostParamFields = (u32, (NexString, (u16, (NexQBuffer, (DataStorePermission, (DataStorePermission, (u32, (u16, (u32, (NexList<NexString>, (NexList<DataStoreRatingInitParamWithSlot>, (DataStorePersistenceInitParam, NexList<NexString>))))))))))));

impl View for DataStorePreparePostParam {
    type V = <DataStorePreparePostParamFields as View>::V;

    open spec fn view(&self) -> Self::V {
        (self.size@, (self.name@, (self.data_type@, (self.meta_binary@, (self.permission@, (self.del_permission@, (self.flag@, (self.period@, (self.refer_data_id@, (self.tags@, (self.rating_init_params@, (self.persistence_init_param@, self.extra_data@))))))))))))
    }
}

impl NexType for DataStorePreparePostParam {
    open spec fn valid(v: Self::V) -> bool {
        <DataStorePreparePostParamFields as NexType>::valid(v)
    }

    closed spec fn wire(v: Self::V) -> Seq<u8> {
        <DataStorePreparePostParamFields as NexType>::wire(v)
    }

    closed spec fn parse(s: Seq<u8>) -> Result<(Self::V, nat), DecodeError> {
        <DataStorePreparePostParamFields as NexType>::parse(s)
    }

    proof fn lemma_round_trip(v: Self::V, more: Seq<u8>) {
        <DataStorePreparePostParamFields as NexType>::lemma_round_trip(v, more);
    }

    fn encode(&self, out: &mut Vec<u8>) {
        let ghost o0 = out@;
        self.size.encode(out);
        let ghost o1 = out@;
        self.name.encode(out);
        let ghost o2 = out@;
        self.data_type.encode(out);
        let ghost o3 = out@;
        self.meta_binary.encode(out);
        let ghost o4 = out@;
        self.permission.encode(out);
        let ghost o5 = out@;
        self.del_permission.encode(out);
        let ghost o6 = out@;
        self.flag.encode(out);
        let ghost o7 = out@;
        self.period.encode(out);
        let ghost o8 = out@;
        self.refer_data_id.encode(out);
        let ghost o9 = out@;
        self.tags.encode(out);
        let ghost o10 = out@;
        self.rating_init_params.encode(out);
        let ghost o11 = out@;
        self.persistence_init_param.encode(out);
        let ghost o12 = out@;
        self.extra_data.encode(out);
        proof {
            let t12 = <NexList<NexString> as NexType>::wire(self.extra_data@);
            lemma_concat_associative(o11, <DataStorePersistenceInitParam as NexType>::wire(self.persistence_init_param@), t12);
            let t11 = <DataStorePersistenceInitParam as NexType>::wire(self.persistence_init_param@) + t12;
            lemma_concat_associative(o10, <NexList<DataStoreRatingInitParamWithSlot> as NexType>::wire(self.rating_init_params@), t11);
            let t10 = <NexList<DataStoreRatingInitParamWithSlot> as NexType>::wire(self.rating_init_params@) + t11;
            lemma_concat_associative(o9, <NexList<NexString> as NexType>::wire(self.tags@), t10);
            let t9 = <NexList<NexString> as NexType>::wire(self.tags@) + t10;
            lemma_concat_associative(o8, <u32 as NexType>::wire(self.refer_data_id@), t9);
            let t8 = <u32 as NexType>::wire(self.refer_data_id@) + t9;
            lemma_concat_associative(o7, <u16 as NexType>::wire(self.period@), t8);
            let t7 = <u16 as NexType>::wire(self.period@) + t8;
            lemma_concat_associative(o6, <u32 as NexType>::wire(self.flag@), t7);
            let t6 = <u32 as NexType>::wire(self.flag@) + t7;
            lemma_concat_associative(o5, <DataStorePermission as NexType>::wire(self.del_permission@), t6);
            let t5 = <DataStorePermission as NexType>::wire(self.del_permission@) + t6;
            lemma_concat_associative(o4, <DataStorePermission as NexType>::wire(self.permission@), t5);
            let t4 = <DataStorePermission as NexType>::wire(self.permission@) + t5;
            lemma_concat_associative(o3, <NexQBuffer as NexType>::wire(self.meta_binary@), t4);
            let t3 = <NexQBuffer as NexType>::wire(self.meta_binary@) + t4;
            lemma_concat_associative(o2, <u16 as NexType>::wire(self.data_type@), t3);
            let t2 = <u16 as NexType>::wire(self.data_type@) + t3;
            lemma_concat_associative(o1, <NexString as NexType>::wire(self.name@), t2);
            let t1 = <NexString as NexType>::wire(self.name@) + t2;
            lemma_concat_associative(o0, <u32 as NexType>::wire(self.size@), t1);
        }
    }

    fn decode(data: &[u8], pos: &mut usize) -> (r: Result<DataStorePreparePostParam, DecodeError>) {
        match <DataStorePreparePostParamFields as NexType>::decode(data, pos) {
            Ok((size, (name, (data_type, (meta_binary, (permission, (del_permission, (flag, (period, (refer_data_id, (tags, (rating_init_params, (persistence_init_param, extra_data))))))))))))) => Ok(DataStorePreparePostParam { size, name, data_type, meta_binary, permission, del_permission, flag, period, refer_data_id, tags, rating_init_params, persistence_init_param, extra_data }),
            Err(e) => Err(e),
        }
    }
}

impl DataStorePreparePostParam {
    /// The record is encoded as its fields' encodings in declaration order,
    /// and decoded field by field in that order.
    pub proof fn lemma_layout(v: <DataStorePreparePostParam as View>::V, s: Seq<u8>)
        ensures
            <DataStorePreparePostParam as NexType>::valid(v) == <DataStorePreparePostParamFields as NexType>::valid(v),
            <DataStorePreparePostParam as NexType>::wire(v) == <DataStorePreparePostParamFields as NexType>::wire(v),
            <DataStorePreparePostParam as NexType>::parse(s) == <DataStorePreparePostParamFields as NexType>::parse(s),
    {
    }
}

/// The values that a change of meta information is conditional on.
#[derive(Debug, Clone, PartialEq, Eq, Default)]
pub struct DataStoreChangeMetaCompareParam {
    pub comparison_flag: u32,
    pub name: NexString,
    pub permission: DataStorePermission,
    pub del_permission: DataStorePermission,
    pub period: u16,
    pub meta_binary: NexQBuffer,
    pub tags: NexList<NexString>,
    pub referred_cnt: u32,
    pub data_type: u16,
    pub status: u8,
}

/// The fields of `DataStoreChangeMetaCompareParam`, in wire order.
type DataStoreChangeMetaCompareParamFields = (u32, (NexString, (DataStorePermission, (DataStorePermission, (u16, (NexQBuffer, (NexList<NexString>, (u32, (u16, u8)))))))));

impl View for DataStoreChangeMetaCompareParam {
    type V = <DataStoreChangeMetaCompareParamFields as View>::V;

    open spec fn view(&self) -> Self::V {
        (self.comparison_flag@, (self.name@, (self.permission@, (self.del_permission@, (self.period@, (self.meta_binary@, (self.tags@, (self.referred_cnt@, (self.data_type@, self.status@)))))))))
    }
}

impl NexType for DataStoreChangeMetaCompareParam {
    open spec fn valid(v: Self::V) -> bool {
        <DataStoreChangeMetaCompareParamFields as NexType>::valid(v)
    }

    closed spec fn wire(v: Self::V) -> Seq<u8> {
        <DataStoreChangeMetaCompareParamFields as NexType>::wire(v)
    }

    closed spec fn parse(s: Seq<u8>) -> Result<(Self::V, nat), DecodeError> {
        <DataStoreChangeMetaCompareParamFields as NexType>::parse(s)
    }

    proof fn lemma_round_trip(v: Self::V, more: Seq<u8>) {
        <DataStoreChangeMetaCompareParamFields as NexType>::lemma_round_trip(v, more);
    }

    fn encode(&self, out: &mut Vec<u8>) {
        let ghost o0 = out@;
        self.comparison_flag.encode(out);
        let ghost o1 = out@;
        self.name.encode(out);
        let ghost o2 = out@;
        self.permission.encode(out);
        let ghost o3 = out@;
        self.del_permission.encode(out);
        let ghost o4 = out@;
        self.period.encode(out);
        let ghost o5 = out@;
        self.meta_binary.encode(out);
        let ghost o6 = out@;
        self.tags.encode(out);
        let ghost o7 = out@;
        self.referred_cnt.encode(out);
        let ghost o8 = out@;
        self.data_type.encode(out);
        let ghost o9 = out@;
        self.status.encode(out);
        proof {
            let t9 = <u8 as NexType>::wire(self.status@);
            lemma_concat_associative(o8, <u16 as NexType>::wire(self.data_type@), t9);
            let t8 = <u16 as NexType>::wire(self.data_type@) + t9;
            lemma_concat_associative(o7, <u32 as NexType>::wire(self.referred_cnt@), t8);
            let t7 = <u32 as NexType>::wire(self.referred_cnt@) + t8;
            lemma_concat_associative(o6, <NexList<NexString> as NexType>::wire(self.tags@), t7);
            let t6 = <NexList<NexString> as NexType>::wire(self.tags@) + t7;
            lemma_concat_associative(o5, <NexQBuffer as NexType>::wire(self.meta_binary@), t6);
            let t5 = <NexQBuffer as NexType>::wire(self.meta_binary@) + t6;
            lemma_concat_associative(o4, <u16 as NexType>::wire(self.period@), t5);
            let t4 = <u16 as NexType>::wire(self.period@) + t5;
            lemma_concat_associative(o3, <DataStorePermission as NexType>::wire(self.del_permission@), t4);
            let t3 = <DataStorePermission as NexType>::wire(self.del_permission@) + t4;
            lemma_concat_associative(o2, <DataStorePermission as NexType>::wire(self.permission@), t3);
            let t2 = <DataStorePermission as NexType>::wire(self.permission@) + t3;
            lemma_concat_associative(o1, <NexString as NexType>::wire(self.name@), t2);
            let t1 = <NexString as NexType>::wire(self.name@) + t2;
            lemma_concat_associative(o0, <u32 as NexType>::wire(self.comparison_flag@), t1);
        }
    }

    fn decode(data: &[u8], pos: &mut usize) -> (r: Result<DataStoreChangeMetaCompareParam, DecodeError>) {
        match <DataStoreChangeMetaCompareParamFields as NexType>::decode(data, pos) {
            Ok((comparison_flag, (name, (permission, (del_permission, (period, (meta_binary, (tags, (referred_cnt, (data_type, status)))))))))) => Ok(DataStoreChangeMetaCompareParam { comparison_flag, name, permission, del_permission, period, meta_binary, tags, referred_cnt, data_type, status }),
            Err(e) => Err(e),
        }
    }
}

impl DataStoreChangeMetaCompareParam {
    /// The record is encoded as its fields' encodings in declaration order,
    /// and decoded field by field in that order.
    pub proof fn lemma_layout(v: <DataStoreChangeMetaCompareParam as View>::V, s: Seq<u8>)
        ensures
            <DataStoreChangeMetaCompareParam as NexType>::valid(v) == <DataStoreChangeMetaCompareParamFields as NexType>::valid(v),
            <DataStoreChangeMetaCompareParam as NexType>::wire(v) == <DataStoreChangeMetaCompareParamFields as NexType>::wire(v),
            <DataStoreChangeMetaCompareParam as NexType>::parse(s) == <DataStoreChangeMetaCompareParamFields as NexType>::parse(s),
    {
    }
}

/// A change of an object's meta information.
#[derive(Debug, Clone, PartialEq, Eq, Default)]
pub struct DataStoreChangeMetaParam {
    pub data_id: u64,
    pub modifies_flag: u32,
    pub name: NexString,
    pub permission: DataStorePermission,
    pub del_permission: DataStorePermission,
    pub period: u16,
    pub meta_binary: NexQBuffer,
    pub tags: NexList<NexString>,
    pub update_password: u64,
    pub referred_cnt: u32,
    pub data_type: u16,
    pub status: u8,
    pub compare_param: DataStoreChangeMetaCompareParam,
    pub persistence_target: DataStorePersistenceTarget,
}

/// The fields of `DataStoreChangeMetaParam`, in wire order.
type DataStoreChangeMetaParamFields = (u64, (u32, (NexString, (DataStorePermission, (DataStorePermission, (u16, (NexQBuffer, (NexList<NexString>, (u64, (u32, (u16, (u8, (DataStoreChangeMetaCompareParam, DataStorePersistenceTarget)))))))))))));

impl View for DataStoreChangeMetaParam {
    type V = <DataStoreChangeMetaParamFields as View>::V;

    open spec fn view(&self) -> Self::V {
        (self.data_id@, (self.modifies_flag@, (self.name@, (self.permission@, (self.del_permission@, (self.period@, (self.meta_binary@, (self.tags@, (self.update_password@, (self.referred_cnt@, (self.data_type@, (self.status@, (self.compare_param@, self.persistence_target@)))))))))))))
    }
}

impl NexType for DataStoreChangeMetaParam {
    open spec fn valid(v: Self::V) -> bool {
        <DataStoreChangeMetaParamFields as NexType>::valid(v)
    }

    closed spec fn wire(v: Self::V) -> Seq<u8> {
        <DataStoreChangeMetaParamFields as NexType>::wire(v)
    }

    closed spec fn parse(s: Seq<u8>) -> Result<(Self::V, nat), DecodeError> {
        <DataStoreChangeMetaParamFields as NexType>::parse(s)
    }

    proof fn lemma_round_trip(v: Self::V, more: Seq<u8>) {
        <DataStoreChangeMetaParamFields as NexType>::lemma_round_trip(v, more);
    }

    fn encode(&self, out: &mut Vec<u8>) {
        let ghost o0 = out@;
        self.data_id.encode(out);
        let ghost o1 = out@;
        self.modifies_flag.encode(out);
        let ghost o2 = out@;
        self.name.encode(out);
        let ghost o3 = out@;
        self.permission.encode(out);
        let ghost o4 = out@;
        self.del_permission.encode(out);
        let ghost o5 = out@;
        self.period.encode(out);
        let ghost o6 = out@;
        self.meta_binary.encode(out);
        let ghost o7 = out@;
        self.tags.encode(out);
        let ghost o8 = out@;
        self.update_password.encode(out);
        let ghost o9 = out@;
        self.referred_cnt.encode(out);
        let ghost o10 = out@;
        self.data_type.encode(out);
        let ghost o11 = out@;
        self.status.encode(out);
        let ghost o12 = out@;
        self.compare_param.encode(out);
        let ghost o13 = out@;
        self.persistence_target.encode(out);
        proof {
            let t13 = <DataStorePersistenceTarget as NexType>::wire(self.persistence_target@);
            lemma_concat_associative(o12, <DataStoreChangeMetaCompareParam as NexType>::wire(self.compare_param@), t13);
            let t12 = <DataStoreChangeMetaCompareParam as NexType>::wire(self.compare_param@) + t13;
            lemma_concat_associative(o11, <u8 as NexType>::wire(self.status@), t12);
            let t11 = <u8 as NexType>::wire(self.status@) + t12;
            lemma_concat_associative(o10, <u16 as NexType>::wire(self.data_type@), t11);
            let t10 = <u16 as NexType>::wire(self.data_type@) + t11;
            lemma_concat_associative(o9, <u32 as NexType>::wire(self.referred_cnt@), t10);
            let t9 = <u32 as NexType>::wire(self.referred_cnt@) + t10;
            lemma_concat_associative(o8, <u64 as NexType>::wire(self.update_password@), t9);
            let t8 = <u64 as NexType>::wire(self.update_password@) + t9;
            lemma_concat_associative(o7, <NexList<NexString> as NexType>::wire(self.tags@), t8);
            let t7 = <NexList<NexString> as NexType>::wire(self.tags@) + t8;
            lemma_concat_associative(o6, <NexQBuffer as NexType>::wire(self.meta_binary@), t7);
            let t6 = <NexQBuffer as NexType>::wire(self.meta_binary@) + t7;
            lemma_concat_associative(o5, <u16 as NexType>::wire(self.period@), t6);
            let t5 = <u16 as NexType>::wire(self.period@) + t6;
            lemma_concat_associative(o4, <DataStorePermission as NexType>::wire(self.del_permission@), t5);
            let t4 = <DataStorePermission as NexType>::wire(self.del_permission@) + t5;
            lemma_concat_associative(o3, <DataStorePermission as NexType>::wire(self.permission@), t4);
            let t3 = <DataStorePermission as NexType>::wire(self.permission@) + t4;
            lemma_concat_associative(o2, <NexString as NexType>::wire(self.name@), t3);
            let t2 = <NexString as NexType>::wire(self.name@) + t3;
            lemma_concat_associative(o1, <u32 as NexType>::wire(self.modifies_flag@), t2);
            let t1 = <u32 as NexType>::wire(self.modifies_flag@) + t2;
            lemma_concat_associative(o0, <u64 as NexType>::wire(self.data_id@), t1);
        }
    }

    fn decode(data: &[u8], pos: &mut usize) -> (r: Result<DataStoreChangeMetaParam, DecodeError>) {
        match <DataStoreChangeMetaParamFields as NexType>::decode(data, pos) {
            Ok((data_id, (modifies_flag, (name, (permission, (del_permission, (period, (meta_binary, (tags, (update_password, (referred_cnt, (data_type, (status, (compare_param, persistence_target)))))))))))))) => Ok(DataStoreChangeMetaParam { data_id, modifies_flag, name, permission, del_permission, period, meta_binary, tags, update_password, referred_cnt, data_type, status, compare_param, persistence_target }),
            Err(e) => Err(e),
        }
    }
}

impl DataStoreChangeMetaParam {
    /// The record is encoded as its fields' encodings in declaration order,
    /// and decoded field by field in that order.
    pub proof fn lemma_layout(v: <DataStoreChangeMetaParam as View>::V, s: Seq<u8>)
        ensures
            <DataStoreChangeMetaParam as NexType>::valid(v) == <DataStoreChangeMetaParamFields as NexType>::valid(v),
            <DataStoreChangeMetaParam as NexType>::wire(v) == <DataStoreChangeMetaParamFields as NexType>::wire(v),
            <DataStoreChangeMetaParam as NexType>::parse(s) == <DataStoreChangeMetaParamFields as NexType>::parse(s),
    {
    }
}

/// The key of a trade-station record.
#[derive(Debug, Clone, PartialEq, Eq, Default)]
pub struct GlobalTradeStationRecordKey {
    pub data_id: u64,
    pub password: u64,
}

/// The fields of `GlobalTradeStationRecordKey`, in wire order.
type GlobalTradeStationRecordKeyFields = (u64, u64);

impl View for GlobalTradeStationRecordKey {
    type V = <GlobalTradeStationRecordKeyFields as View>::V;

    open spec fn view(&self) -> Self::V {
        (self.data_id@, self.password@)
    }
}

impl NexType for GlobalTradeStationRecordKey {
    open spec fn valid(v: Self::V) -> bool {
        <GlobalTradeStationRecordKeyFields as NexType>::valid(v)
    }

    closed spec fn wire(v: Self::V) -> Seq<u8> {
        <GlobalTradeStationRecordKeyFields as NexType>::wire(v)
    }

    closed spec fn parse(s: Seq<u8>) -> Result<(Self::V, nat), DecodeError> {
        <GlobalTradeStationRecordKeyFields as NexType>::parse(s)
    }

    proof fn lemma_round_trip(v: Self::V, more: Seq<u8>) {
        <GlobalTradeStationRecordKeyFields as NexType>::lemma_round_trip(v, more);
    }

    fn encode(&self, out: &mut Vec<u8>) {
        self.data_id.encode(out);
        self.password.encode(out);
        assert(out@ =~= old(out)@ + Self::wire(self@));
    }

    fn decode(data: &[u8], pos: &mut usize) -> (r: Result<GlobalTradeStationRecordKey, DecodeError>) {
        match <GlobalTradeStationRecordKeyFields as NexType>::decode(data, pos) {
            Ok((data_id, password)) => Ok(GlobalTradeStationRecordKey { data_id, password }),
            Err(e) => Err(e),
        }
    }
}

impl GlobalTradeStationRecordKey {
    /// The record is encoded as its fields' encodings in declaration order,
    /// and decoded field by field in that order.
    pub proof fn lemma_layout(v: <GlobalTradeStationRecordKey as View>::V, s: Seq<u8>)
        ensures
            <GlobalTradeStationRecordKey as NexType>::valid(v) == <GlobalTradeStationRecordKeyFields as NexType>::valid(v),
            <GlobalTradeStationRecordKey as NexType>::wire(v) == <GlobalTradeStationRecordKeyFields as NexType>::wire(v),
            <GlobalTradeStationRecordKey as NexType>::parse(s) == <GlobalTradeStationRecordKeyFields as NexType>::parse(s),
    {
    }
}

/// An upload to the trade station.
#[derive(Debug, Clone, PartialEq, Eq, Default)]
pub struct GlobalTradeStationUploadPokemonParam {
    pub prepare_upload_key: GlobalTradeStationRecordKey,
    pub period: u16,
    pub index_data: NexQBuffer,
    pub pokemon_data: NexQBuffer,
    pub signature: NexQBuffer,
}

/// The fields of `GlobalTradeStationUploadPokemonParam`, in wire order.
type GlobalTradeStationUploadPokemonParamFields = (GlobalTradeStationRecordKey, (u16, (NexQBuffer, (NexQBuffer, NexQBuffer))));

impl View for GlobalTradeStationUploadPokemonParam {
    type V = <GlobalTradeStationUploadPokemonParamFields as View>::V;

    open spec fn view(&self) -> Self::V {
        (self.prepare_upload_key@, (self.period@, (self.index_data@, (self.pokemon_data@, self.signature@))))
    }
}

impl NexType for GlobalTradeStationUploadPokemonParam {
    open spec fn valid(v: Self::V) -> bool {
        <GlobalTradeStationUploadPokemonParamFields as NexType>::valid(v)
    }

    closed spec fn wire(v: Self::V) -> Seq<u8> {
        <GlobalTradeStationUploadPokemonParamFields as NexType>::wire(v)
    }

    closed spec fn parse(s: Seq<u8>) -> Result<(Self::V, nat), DecodeError> {
        <GlobalTradeStationUploadPokemonParamFields as NexType>::parse(s)
    }

    proof fn lemma_round_trip(v: Self::V, more: Seq<u8>) {
        <GlobalTradeStationUploadPokemonParamFields as NexType>::lemma_round_trip(v, more);
    }

    fn encode(&self, out: &mut Vec<u8>) {
        let ghost o0 = out@;
        self.prepare_upload_key.encode(out);
        let ghost o1 = out@;
        self.period.encode(out);
        let ghost o2 = out@;
        self.index_data.encode(out);
        let ghost o3 = out@;
        self.pokemon_data.encode(out);
        let ghost o4 = out@;
        self.signature.encode(out);
        proof {
            let t4 = <NexQBuffer as NexType>::wire(self.signature@);
            lemma_concat_associative(o3, <NexQBuffer as NexType>::wire(self.pokemon_data@), t4);
            let t3 = <NexQBuffer as NexType>::wire(self.pokemon_data@) + t4;
            lemma_concat_associative(o2, <NexQBuffer as NexType>::wire(self.index_data@), t3);
            let t2 = <NexQBuffer as NexType>::wire(self.index_data@) + t3;
            lemma_concat_associative(o1, <u16 as NexType>::wire(self.period@), t2);
            let t1 = <u16 as NexType>::wire(self.period@) + t2;
            lemma_concat_associative(o0, <GlobalTradeStationRecordKey as NexType>::wire(self.prepare_upload_key@), t1);
        }
    }

    fn decode(data: &[u8], pos: &mut usize) -> (r: Result<GlobalTradeStationUploadPokemonParam, DecodeError>) {
        match <GlobalTradeStationUploadPokemonParamFields as NexType>::decode(data, pos) {
            Ok((prepare_upload_key, (period, (index_data, (pokemon_data, signature))))) => Ok(GlobalTradeStationUploadPokemonParam { prepare_upload_key, period, index_data, pokemon_data, signature }),
            Err(e) => Err(e),
        }
    }
}

impl GlobalTradeStationUploadPokemonParam {
    /// The record is encoded as its fields' encodings in declaration order,
    /// and decoded field by field in that order.
    pub proof fn lemma_layout(v: <GlobalTradeStationUploadPokemonParam as View>::V, s: Seq<u8>)
        ensures
            <GlobalTradeStationUploadPokemonParam as NexType>::valid(v) == <GlobalTradeStationUploadPokemonParamFields as NexType>::valid(v),
            <GlobalTradeStationUploadPokemonParam as NexType>::wire(v) == <GlobalTradeStationUploadPokemonParamFields as NexType>::wire(v),
            <GlobalTradeStationUploadPokemonParam as NexType>::parse(s) == <GlobalTradeStationUploadPokemonParamFields as NexType>::parse(s),
    {
    }
}

/// The key of an offer on the trade station.
#[derive(Debug, Clone, PartialEq, Eq, Default)]
pub struct GlobalTradeStationTradeKey {
    pub data_id: u64,
    pub version: u32,
}

/// The fields of `GlobalTradeStationTradeKey`, in wire order.
type GlobalTradeStationTradeKeyFields = (u64, u32);

impl View for GlobalTradeStationTradeKey {
    type V = <GlobalTradeStationTradeKeyFields as View>::V;

    open spec fn view(&self) -> Self::V {
        (self.data_id@, self.version@)
    }
}

impl NexType for GlobalTradeStationTradeKey {
    open spec fn valid(v: Self::V) -> bool {
        <GlobalTradeStationTradeKeyFields as NexType>::valid(v)
    }

    closed spec fn wire(v: Self::V) -> Seq<u8> {
        <GlobalTradeStationTradeKeyFields as NexType>::wire(v)
    }

    closed spec fn parse(s: Seq<u8>) -> Result<(Self::V, nat), DecodeError> {
        <GlobalTradeStationTradeKeyFields as NexType>::parse(s)
    }

    proof fn lemma_round_trip(v: Self::V, more: Seq<u8>) {
        <GlobalTradeStationTradeKeyFields as NexType>::lemma_round_trip(v, more);
    }

    fn encode(&self, out: &mut Vec<u8>) {
        self.data_id.encode(out);
        self.version.encode(out);
        assert(out@ =~= old(out)@ + Self::wire(self@));
    }

    fn decode(data: &[u8], pos: &mut usize) -> (r: Result<GlobalTradeStationTradeKey, DecodeError>) {
        match <GlobalTradeStationTradeKeyFields as NexType>::decode(data, pos) {
            Ok((data_id, version)) => Ok(GlobalTradeStationTradeKey { data_id, version }),
            Err(e) => Err(e),
        }
    }
}

impl GlobalTradeStationTradeKey {
    /// The record is encoded as its fields' encodings in declaration order,
    /// and decoded field by field in that order.
    pub proof fn lemma_layout(v: <GlobalTradeStationTradeKey as View>::V, s: Seq<u8>)
        ensures
            <GlobalTradeStationTradeKey as NexType>::valid(v) == <GlobalTradeStationTradeKeyFields as NexType>::valid(v),
            <GlobalTradeStationTradeKey as NexType>::wire(v) == <GlobalTradeStationTradeKeyFields as NexType>::wire(v),
            <GlobalTradeStationTradeKey as NexType>::parse(s) == <GlobalTradeStationTradeKeyFields as NexType>::parse(s),
    {
    }
}

/// The offer to prepare a trade against.
#[derive(Debug, Clone, PartialEq, Eq, Default)]
pub struct GlobalTradeStationPrepareTradePokemonParam {
    pub trade_key: GlobalTradeStationTradeKey,
    pub prepare_upload_key: GlobalTradeStationRecordKey,
}

/// The fields of `GlobalTradeStationPrepareTradePokemonParam`, in wire order.
type GlobalTradeStationPrepareTradePokemonParamFields = (GlobalTradeStationTradeKey, GlobalTradeStationRecordKey);

impl View for GlobalTradeStationPrepareTradePokemonParam {
    type V = <GlobalTradeStationPrepareTradePokemonParamFields as View>::V;

    open spec fn view(&self) -> Self::V {
        (self.trade_key@, self.prepare_upload_key@)
    }
}

impl NexType for GlobalTradeStationPrepareTradePokemonParam {
    open spec fn valid(v: Self::V) -> bool {
        <GlobalTradeStationPrepareTradePokemonParamFields as NexType>::valid(v)
    }

    closed spec fn wire(v: Self::V) -> Seq<u8> {
        <GlobalTradeStationPrepareTradePokemonParamFields as NexType>::wire(v)
    }

    closed spec fn parse(s: Seq<u8>) -> Result<(Self::V, nat), DecodeError> {
        <GlobalTradeStationPrepareTradePokemonParamFields as NexType>::parse(s)
    }

    proof fn lemma_round_trip(v: Self::V, more: Seq<u8>) {
        <GlobalTradeStationPrepareTradePokemonParamFields as NexType>::lemma_round_trip(v, more);
    }

    fn encode(&self, out: &mut Vec<u8>) {
        self.trade_key.encode(out);
        self.prepare_upload_key.encode(out);
        assert(out@ =~= old(out)@ + Self::wire(self@));
    }

    fn decode(data: &[u8], pos: &mut usize) -> (r: Result<GlobalTradeStationPrepareTradePokemonParam, DecodeError>) {
        match <GlobalTradeStationPrepareTradePokemonParamFields as NexType>::decode(data, pos) {
            Ok((trade_key, prepare_upload_key)) => Ok(GlobalTradeStationPrepareTradePokemonParam { trade_key, prepare_upload_key }),
            Err(e) => Err(e),
        }
    }
}

impl GlobalTradeStationPrepareTradePokemonParam {
    /// The record is encoded as its fields' encodings in declaration order,
    /// and decoded field by field in that order.
    pub proof fn lemma_layout(v: <GlobalTradeStationPrepareTradePokemonParam as View>::V, s: Seq<u8>)
        ensures
            <GlobalTradeStationPrepareTradePokemonParam as NexType>::valid(v) == <GlobalTradeStationPrepareTradePokemonParamFields as NexType>::valid(v),
            <GlobalTradeStationPrepareTradePokemonParam as NexType>::wire(v) == <GlobalTradeStationPrepareTradePokemonParamFields as NexType>::wire(v),
            <GlobalTradeStationPrepareTradePokemonParam as NexType>::parse(s) == <GlobalTradeStationPrepareTradePokemonParamFields as NexType>::parse(s),
    {
    }
}

/// A downloaded record.
#[derive(Debug, Clone, PartialEq, Eq, Default)]
pub struct GlobalTradeStationDownloadPokemonResult {
    pub data_id: u64,
    pub index_data: NexQBuffer,
    pub pokemon_data: NexQBuffer,
}

/// The fields of `GlobalTradeStationDownloadPokemonResult`, in wire order.
type GlobalTradeStationDownloadPokemonResultFields = (u64, (NexQBuffer, NexQBuffer));

impl View for GlobalTradeStationDownloadPokemonResult {
    type V = <GlobalTradeStationDownloadPokemonResultFields as View>::V;

    open spec fn view(&self) -> Self::V {
        (self.data_id@, (self.index_data@, self.pokemon_data@))
    }
}

impl NexType for GlobalTradeStationDownloadPokemonResult {
    open spec fn valid(v: Self::V) -> bool {
        <GlobalTradeStationDownloadPokemonResultFields as NexType>::valid(v)
    }

    closed spec fn wire(v: Self::V) -> Seq<u8> {
        <GlobalTradeStationDownloadPokemonResultFields as NexType>::wire(v)
    }

    closed spec fn parse(s: Seq<u8>) -> Result<(Self::V, nat), DecodeError> {
        <GlobalTradeStationDownloadPokemonResultFields as NexType>::parse(s)
    }

    proof fn lemma_round_trip(v: Self::V, more: Seq<u8>) {
        <GlobalTradeStationDownloadPokemonResultFields as NexType>::lemma_round_trip(v, more);
    }

    fn encode(&self, out: &mut Vec<u8>) {
        self.data_id.encode(out);
        self.index_data.encode(out);
        self.pokemon_data.encode(out);
        assert(out@ =~= old(out)@ + Self::wire(self@));
    }

    fn decode(data: &[u8], pos: &mut usize) -> (r: Result<GlobalTradeStationDownloadPokemonResult, DecodeError>) {
        match <GlobalTradeStationDownloadPokemonResultFields as NexType>::decode(data, pos) {
            Ok((data_id, (index_data, pokemon_data))) => Ok(GlobalTradeStationDownloadPokemonResult { data_id, index_data, pokemon_data }),
            Err(e) => Err(e),
        }
    }
}

impl GlobalTradeStationDownloadPokemonResult {
    /// The record is encoded as its fields' encodings in declaration order,
    /// and decoded field by field in that order.
    pub proof fn lemma_layout(v: <GlobalTradeStationDownloadPokemonResult as View>::V, s: Seq<u8>)
        ensures
            <GlobalTradeStationDownloadPokemonResult as NexType>::valid(v) == <GlobalTradeStationDownloadPokemonResultFields as NexType>::valid(v),
            <GlobalTradeStationDownloadPokemonResult as NexType>::wire(v) == <GlobalTradeStationDownloadPokemonResultFields as NexType>::wire(v),
            <GlobalTradeStationDownloadPokemonResult as NexType>::parse(s) == <GlobalTradeStationDownloadPokemonResultFields as NexType>::parse(s),
    {
    }
}

/// The outcome of preparing a trade.
#[derive(Debug, Clone, PartialEq, Eq, Default)]
pub struct GlobalTradeStationPrepareTradePokemonResult {
    pub result: GlobalTradeStationDownloadPokemonResult,
    pub prepare_trade_key: GlobalTradeStationRecordKey,
}

/// The fields of `GlobalTradeStationPrepareTradePokemonResult`, in wire order.
type GlobalTradeStationPrepareTradePokemonResultFields = (GlobalTradeStationDownloadPokemonResult, GlobalTradeStationRecordKey);

impl View for GlobalTradeStationPrepareTradePokemonResult {
    type V = <GlobalTradeStationPrepareTradePokemonResultFields as View>::V;

    open spec fn view(&self) -> Self::V {
        (self.result@, self.prepare_trade_key@)
    }
}

impl NexType for GlobalTradeStationPrepareTradePokemonResult {
    open spec fn valid(v: Self::V) -> bool {
        <GlobalTradeStationPrepareTradePokemonResultFields as NexType>::valid(v)
    }

    closed spec fn wire(v: Self::V) -> Seq<u8> {
        <GlobalTradeStationPrepareTradePokemonResultFields as NexType>::wire(v)
    }

    closed spec fn parse(s: Seq<u8>) -> Result<(Self::V, nat), DecodeError> {
        <GlobalTradeStationPrepareTradePokemonResultFields as NexType>::parse(s)
    }

    proof fn lemma_round_trip(v: Self::V, more: Seq<u8>) {
        <GlobalTradeStationPrepareTradePokemonResultFields as NexType>::lemma_round_trip(v, more);
    }

    fn encode(&self, out: &mut Vec<u8>) {
        self.result.encode(out);
        self.prepare_trade_key.encode(out);
        assert(out@ =~= old(out)@ + Self::wire(self@));
    }

    fn decode(data: &[u8], pos: &mut usize) -> (r: Result<GlobalTradeStationPrepareTradePokemonResult, DecodeError>) {
        match <GlobalTradeStationPrepareTradePokemonResultFields as NexType>::decode(data, pos) {
            Ok((result, prepare_trade_key)) => Ok(GlobalTradeStationPrepareTradePokemonResult { result, prepare_trade_key }),
            Err(e) => Err(e),
        }
    }
}

impl GlobalTradeStationPrepareTradePokemonResult {
    /// The record is encoded as its fields' encodings in declaration order,
    /// and decoded field by field in that order.
    pub proof fn lemma_layout(v: <GlobalTradeStationPrepareTradePokemonResult as View>::V, s: Seq<u8>)
        ensures
            <GlobalTradeStationPrepareTradePokemonResult as NexType>::valid(v) == <GlobalTradeStationPrepareTradePokemonResultFields as NexType>::valid(v),
            <GlobalTradeStationPrepareTradePokemonResult as NexType>::wire(v) == <GlobalTradeStationPrepareTradePokemonResultFields as NexType>::wire(v),
            <GlobalTradeStationPrepareTradePokemonResult as NexType>::parse(s) == <GlobalTradeStationPrepareTradePokemonResultFields as NexType>::parse(s),
    {
    }
}

/// A trade on the trade station.
#[derive(Debug, Clone, PartialEq, Eq, Default)]
pub struct GlobalTradeStationTradePokemonParam {
    pub trade_key: GlobalTradeStationTradeKey,
    pub prepare_trade_key: GlobalTradeStationRecordKey,
    pub prepare_upload_key: GlobalTradeStationRecordKey,
    pub period: u16,
    pub index_data: NexQBuffer,
    pub pokemon_data: NexQBuffer,
    pub signature: NexQBuffer,
    pub need_data: bool,
}

/// The fields of `GlobalTradeStationTradePokemonParam`, in wire order.
type GlobalTradeStationTradePokemonParamFields = (GlobalTradeStationTradeKey, (GlobalTradeStationRecordKey, (GlobalTradeStationRecordKey, (u16, (NexQBuffer, (NexQBuffer, (NexQBuffer, bool)))))));

impl View for GlobalTradeStationTradePokemonParam {
    type V = <GlobalTradeStationTradePokemonParamFields as View>::V;

    open spec fn view(&self) -> Self::V {
        (self.trade_key@, (self.prepare_trade_key@, (self.prepare_upload_key@, (self.period@, (self.index_data@, (self.pokemon_data@, (self.signature@, self.need_data@)))))))
    }
}

impl NexType for GlobalTradeStationTradePokemonParam {
    open spec fn valid(v: Self::V) -> bool {
        <GlobalTradeStationTradePokemonParamFields as NexType>::valid(v)
    }

    closed spec fn wire(v: Self::V) -> Seq<u8> {
        <GlobalTradeStationTradePokemonParamFields as NexType>::wire(v)
    }

    closed spec fn parse(s: Seq<u8>) -> Result<(Self::V, nat), DecodeError> {
        <GlobalTradeStationTradePokemonParamFields as NexType>::parse(s)
    }

    proof fn lemma_round_trip(v: Self::V, more: Seq<u8>) {
        <GlobalTradeStationTradePokemonParamFields as NexType>::lemma_round_trip(v, more);
    }

    fn encode(&self, out: &mut Vec<u8>) {
        let ghost o0 = out@;
        self.trade_key.encode(out);
        let ghost o1 = out@;
        self.prepare_trade_key.encode(out);
        let ghost o2 = out@;
        self.prepare_upload_key.encode(out);
        let ghost o3 = out@;
        self.period.encode(out);
        let ghost o4 = out@;
        self.index_data.encode(out);
        let ghost o5 = out@;
        self.pokemon_data.encode(out);
        let ghost o6 = out@;
        self.signature.encode(out);
        let ghost o7 = out@;
        self.need_data.encode(out);
        proof {
            let t7 = <bool as NexType>::wire(self.need_data@);
            lemma_concat_associative(o6, <NexQBuffer as NexType>::wire(self.signature@), t7);
            let t6 = <NexQBuffer as NexType>::wire(self.signature@) + t7;
            lemma_concat_associative(o5, <NexQBuffer as NexType>::wire(self.pokemon_data@), t6);
            let t5 = <NexQBuffer as NexType>::wire(self.pokemon_data@) + t6;
            lemma_concat_associative(o4, <NexQBuffer as NexType>::wire(self.index_data@), t5);
            let t4 = <NexQBuffer as NexType>::wire(self.index_data@) + t5;
            lemma_concat_associative(o3, <u16 as NexType>::wire(self.period@), t4);
            let t3 = <u16 as NexType>::wire(self.period@) + t4;
            lemma_concat_associative(o2, <GlobalTradeStationRecordKey as NexType>::wire(self.prepare_upload_key@), t3);
            let t2 = <GlobalTradeStationRecordKey as NexType>::wire(self.prepare_upload_key@) + t3;
            lemma_concat_associative(o1, <GlobalTradeStationRecordKey as NexType>::wire(self.prepare_trade_key@), t2);
            let t1 = <GlobalTradeStationRecordKey as NexType>::wire(self.prepare_trade_key@) + t2;
            lemma_concat_associative(o0, <GlobalTradeStationTradeKey as NexType>::wire(self.trade_key@), t1);
        }
    }

    fn decode(data: &[u8], pos: &mut usize) -> (r: Result<GlobalTradeStationTradePokemonParam, DecodeError>) {
        match <GlobalTradeStationTradePokemonParamFields as NexType>::decode(data, pos) {
            Ok((trade_key, (prepare_trade_key, (prepare_upload_key, (period, (index_data, (pokemon_data, (signature, need_data)))))))) => Ok(GlobalTradeStationTradePokemonParam { trade_key, prepare_trade_key, prepare_upload_key, period, index_data, pokemon_data, signature, need_data }),
            Err(e) => Err(e),
        }
    }
}

impl GlobalTradeStationTradePokemonParam {
    /// The record is encoded as its fields' encodings in declaration order,
    /// and decoded field by field in that order.
    pub proof fn lemma_layout(v: <GlobalTradeStationTradePokemonParam as View>::V, s: Seq<u8>)
        ensures
            <GlobalTradeStationTradePokemonParam as NexType>::valid(v) == <GlobalTradeStationTradePokemonParamFields as NexType>::valid(v),
            <GlobalTradeStationTradePokemonParam as NexType>::wire(v) == <GlobalTradeStationTradePokemonParamFields as NexType>::wire(v),
            <GlobalTradeStationTradePokemonParam as NexType>::parse(s) == <GlobalTradeStationTradePokemonParamFields as NexType>::parse(s),
    {
    }
}

/// The outcome of a trade.
#[derive(Debug, Clone, PartialEq, Eq, Default)]
pub struct GlobalTradeStationTradePokemonResult {
    pub result: GlobalTradeStationDownloadPokemonResult,
    pub my_data_id: u64,
}

/// The fields of `GlobalTradeStationTradePokemonResult`, in wire order.
type GlobalTradeStationTradePokemonResultFields = (GlobalTradeStationDownloadPokemonResult, u64);

impl View for GlobalTradeStationTradePokemonResult {
    type V = <GlobalTradeStationTradePokemonResultFields as View>::V;

    open spec fn view(&self) -> Self::V {
        (self.result@, self.my_data_id@)
    }
}

impl NexType for GlobalTradeStationTradePokemonResult {
    open spec fn valid(v: Self::V) -> bool {
        <GlobalTradeStationTradePokemonResultFields as NexType>::valid(v)
    }

    closed spec fn wire(v: Self::V) -> Seq<u8> {
        <GlobalTradeStationTradePokemonResultFields as NexType>::wire(v)
    }

    closed spec fn parse(s: Seq<u8>) -> Result<(Self::V, nat), DecodeError> {
        <GlobalTradeStationTradePokemonResultFields as NexType>::parse(s)
    }

    proof fn lemma_round_trip(v: Self::V, more: Seq<u8>) {
        <GlobalTradeStationTradePokemonResultFields as NexType>::lemma_round_trip(v, more);
    }

    fn encode(&self, out: &mut Vec<u8>) {
        self.result.encode(out);
        self.my_data_id.encode(out);
        assert(out@ =~= old(out)@ + Self::wire(self@));
    }

    fn decode(data: &[u8], pos: &mut usize) -> (r: Result<GlobalTradeStationTradePokemonResult, DecodeError>) {
        match <GlobalTradeStationTradePokemonResultFields as NexType>::decode(data, pos) {
            Ok((result, my_data_id)) => Ok(GlobalTradeStationTradePokemonResult { result, my_data_id }),
            Err(e) => Err(e),
        }
    }
}

impl GlobalTradeStationTradePokemonResult {
    /// The record is encoded as its fields' encodings in declaration order,
    /// and decoded field by field in that order.
    pub proof fn lemma_layout(v: <GlobalTradeStationTradePokemonResult as View>::V, s: Seq<u8>)
        ensures
            <GlobalTradeStationTradePokemonResult as NexType>::valid(v) == <GlobalTradeStationTradePokemonResultFields as NexType>::valid(v),
            <GlobalTradeStationTradePokemonResult as NexType>::wire(v) == <GlobalTradeStationTradePokemonResultFields as NexType>::wire(v),
            <GlobalTradeStationTradePokemonResult as NexType>::parse(s) == <GlobalTradeStationTradePokemonResultFields as NexType>::parse(s),
    {
    }
}

/// Which traded record to download.
#[derive(Debug, Clone, PartialEq, Eq, Default)]
pub struct GlobalTradeStationDownloadOtherPokemonParam {
    pub prepare_upload_key: GlobalTradeStationRecordKey,
}

/// The fields of `GlobalTradeStationDownloadOtherPokemonParam`, in wire order.
type GlobalTradeStationDownloadOtherPokemonParamFields = GlobalTradeStationRecordKey;

impl View for GlobalTradeStationDownloadOtherPokemonParam {
    type V = <GlobalTradeStationDownloadOtherPokemonParamFields as View>::V;

    open spec fn view(&self) -> Self::V {
        self.prepare_upload_key@
    }
}

impl NexType for GlobalTradeStationDownloadOtherPokemonParam {
    open spec fn valid(v: Self::V) -> bool {
        <GlobalTradeStationDownloadOtherPokemonParamFields as NexType>::valid(v)
    }

    closed spec fn wire(v: Self::V) -> Seq<u8> {
        <GlobalTradeStationDownloadOtherPokemonParamFields as NexType>::wire(v)
    }

    closed spec fn parse(s: Seq<u8>) -> Result<(Self::V, nat), DecodeError> {
        <GlobalTradeStationDownloadOtherPokemonParamFields as NexType>::parse(s)
    }

    proof fn lemma_round_trip(v: Self::V, more: Seq<u8>) {
        <GlobalTradeStationDownloadOtherPokemonParamFields as NexType>::lemma_round_trip(v, more);
    }

    fn encode(&self, out: &mut Vec<u8>) {
        self.prepare_upload_key.encode(out);
    }

    fn decode(data: &[u8], pos: &mut usize) -> (r: Result<GlobalTradeStationDownloadOtherPokemonParam, DecodeError>) {
        match <GlobalTradeStationDownloadOtherPokemonParamFields as NexType>::decode(data, pos) {
            Ok(prepare_upload_key) => Ok(GlobalTradeStationDownloadOtherPokemonParam { prepare_upload_key }),
            Err(e) => Err(e),
        }
    }
}

impl GlobalTradeStationDownloadOtherPokemonParam {
    /// The record is encoded as its one field, and decoded as it.
    pub proof fn lemma_layout(v: <GlobalTradeStationDownloadOtherPokemonParam as View>::V, s: Seq<u8>)
        ensures
            <GlobalTradeStationDownloadOtherPokemonParam as NexType>::valid(v) == <GlobalTradeStationDownloadOtherPokemonParamFields as NexType>::valid(v),
            <GlobalTradeStationDownloadOtherPokemonParam as NexType>::wire(v) == <GlobalTradeStationDownloadOtherPokemonParamFields as NexType>::wire(v),
            <GlobalTradeStationDownloadOtherPokemonParam as NexType>::parse(s) == <GlobalTradeStationDownloadOtherPokemonParamFields as NexType>::parse(s),
    {
    }
}

/// Which own record to download.
#[derive(Debug, Clone, PartialEq, Eq, Default)]
pub struct GlobalTradeStationDownloadMyPokemonParam {
    pub prepare_upload_key: GlobalTradeStationRecordKey,
}

/// The fields of `GlobalTradeStationDownloadMyPokemonParam`, in wire order.
type GlobalTradeStationDownloadMyPokemonParamFields = GlobalTradeStationRecordKey;

impl View for GlobalTradeStationDownloadMyPokemonParam {
    type V = <GlobalTradeStationDownloadMyPokemonParamFields as View>::V;

    open spec fn view(&self) -> Self::V {
        self.prepare_upload_key@
    }
}

impl NexType for GlobalTradeStationDownloadMyPokemonParam {
    open spec fn valid(v: Self::V) -> bool {
        <GlobalTradeStationDownloadMyPokemonParamFields as NexType>::valid(v)
    }

    closed spec fn wire(v: Self::V) -> Seq<u8> {
        <GlobalTradeStationDownloadMyPokemonParamFields as NexType>::wire(v)
    }

    closed spec fn parse(s: Seq<u8>) -> Result<(Self::V, nat), DecodeError> {
        <GlobalTradeStationDownloadMyPokemonParamFields as NexType>::parse(s)
    }

    proof fn lemma_round_trip(v: Self::V, more: Seq<u8>) {
        <GlobalTradeStationDownloadMyPokemonParamFields as NexType>::lemma_round_trip(v, more);
    }

    fn encode(&self, out: &mut Vec<u8>) {
        self.prepare_upload_key.encode(out);
    }

    fn decode(data: &[u8], pos: &mut usize) -> (r: Result<GlobalTradeStationDownloadMyPokemonParam, DecodeError>) {
        match <GlobalTradeStationDownloadMyPokemonParamFields as NexType>::decode(data, pos) {
            Ok(prepare_upload_key) => Ok(GlobalTradeStationDownloadMyPokemonParam { prepare_upload_key }),
            Err(e) => Err(e),
        }
    }
}

impl GlobalTradeStationDownloadMyPokemonParam {
    /// The record is encoded as its one field, and decoded as it.
    pub proof fn lemma_layout(v: <GlobalTradeStationDownloadMyPokemonParam as View>::V, s: Seq<u8>)
        ensures
            <GlobalTradeStationDownloadMyPokemonParam as NexType>::valid(v) == <GlobalTradeStationDownloadMyPokemonParamFields as NexType>::valid(v),
            <GlobalTradeStationDownloadMyPokemonParam as NexType>::wire(v) == <GlobalTradeStationDownloadMyPokemonParamFields as NexType>::wire(v),
            <GlobalTradeStationDownloadMyPokemonParam as NexType>::parse(s) == <GlobalTradeStationDownloadMyPokemonParamFields as NexType>::parse(s),
    {
    }
}

/// An own record and whether it was traded.
#[derive(Debug, Clone, PartialEq, Eq, Default)]
pub struct GlobalTradeStationDownloadMyPokemonResult {
    pub result: GlobalTradeStationDownloadPokemonResult,
    pub is_traded: bool,
}

/// The fields of `GlobalTradeStationDownloadMyPokemonResult`, in wire order.
type GlobalTradeStationDownloadMyPokemonResultFields = (GlobalTradeStationDownloadPokemonResult, bool);

impl View for GlobalTradeStationDownloadMyPokemonResult {
    type V = <GlobalTradeStationDownloadMyPokemonResultFields as View>::V;

    open spec fn view(&self) -> Self::V {
        (self.result@, self.is_traded@)
    }
}

impl NexType for GlobalTradeStationDownloadMyPokemonResult {
    open spec fn valid(v: Self::V) -> bool {
        <GlobalTradeStationDownloadMyPokemonResultFields as NexType>::valid(v)
    }

    closed spec fn wire(v: Self::V) -> Seq<u8> {
        <GlobalTradeStationDownloadMyPokemonResultFields as NexType>::wire(v)
    }

    closed spec fn parse(s: Seq<u8>) -> Result<(Self::V, nat), DecodeError> {
        <GlobalTradeStationDownloadMyPokemonResultFields as NexType>::parse(s)
    }

    proof fn lemma_round_trip(v: Self::V, more: Seq<u8>) {
        <GlobalTradeStationDownloadMyPokemonResultFields as NexType>::lemma_round_trip(v, more);
    }

    fn encode(&self, out: &mut Vec<u8>) {
        self.result.encode(out);
        self.is_traded.encode(out);
        assert(out@ =~= old(out)@ + Self::wire(self@));
    }

    fn decode(data: &[u8], pos: &mut usize) -> (r: Result<GlobalTradeStationDownloadMyPokemonResult, DecodeError>) {
        match <GlobalTradeStationDownloadMyPokemonResultFields as NexType>::decode(data, pos) {
            Ok((result, is_traded)) => Ok(GlobalTradeStationDownloadMyPokemonResult { result, is_traded }),
            Err(e) => Err(e),
        }
    }
}

impl GlobalTradeStationDownloadMyPokemonResult {
    /// The record is encoded as its fields' encodings in declaration order,
    /// and decoded field by field in that order.
    pub proof fn lemma_layout(v: <GlobalTradeStationDownloadMyPokemonResult as View>::V, s: Seq<u8>)
        ensures
            <GlobalTradeStationDownloadMyPokemonResult as NexType>::valid(v) == <GlobalTradeStationDownloadMyPokemonResultFields as NexType>::valid(v),
            <GlobalTradeStationDownloadMyPokemonResult as NexType>::wire(v) == <GlobalTradeStationDownloadMyPokemonResultFields as NexType>::wire(v),
            <GlobalTradeStationDownloadMyPokemonResult as NexType>::parse(s) == <GlobalTradeStationDownloadMyPokemonResultFields as NexType>::parse(s),
    {
    }
}

/// Which record to delete, and how.
#[derive(Debug, Clone, PartialEq, Eq, Default)]
pub struct GlobalTradeStationDeletePokemonParam {
    pub prepare_upload_key: GlobalTradeStationRecordKey,
    pub delete_flag: u8,
}

/// The fields of `GlobalTradeStationDeletePokemonParam`, in wire order.
type GlobalTradeStationDeletePokemonParamFields = (GlobalTradeStationRecordKey, u8);

impl View for GlobalTradeStationDeletePokemonParam {
    type V = <GlobalTradeStationDeletePokemonParamFields as View>::V;

    open spec fn view(&self) -> Self::V {
        (self.prepare_upload_key@, self.delete_flag@)
    }
}

impl NexType for GlobalTradeStationDeletePokemonParam {
    open spec fn valid(v: Self::V) -> bool {
        <GlobalTradeStationDeletePokemonParamFields as NexType>::valid(v)
    }

    closed spec fn wire(v: Self::V) -> Seq<u8> {
        <GlobalTradeStationDeletePokemonParamFields as NexType>::wire(v)
    }

    closed spec fn parse(s: Seq<u8>) -> Result<(Self::V, nat), DecodeError> {
        <GlobalTradeStationDeletePokemonParamFields as NexType>::parse(s)
    }

    proof fn lemma_round_trip(v: Self::V, more: Seq<u8>) {
        <GlobalTradeStationDeletePokemonParamFields as NexType>::lemma_round_trip(v, more);
    }

    fn encode(&self, out: &mut Vec<u8>) {
        self.prepare_upload_key.encode(out);
        self.delete_flag.encode(out);
        assert(out@ =~= old(out)@ + Self::wire(self@));
    }

    fn decode(data: &[u8], pos: &mut usize) -> (r: Result<GlobalTradeStationDeletePokemonParam, DecodeError>) {
        match <GlobalTradeStationDeletePokemonParamFields as NexType>::decode(data, pos) {
            Ok((prepare_upload_key, delete_flag)) => Ok(GlobalTradeStationDeletePokemonParam { prepare_upload_key, delete_flag }),
            Err(e) => Err(e),
        }
    }
}

impl GlobalTradeStationDeletePokemonParam {
    /// The record is encoded as its fields' encodings in declaration order,
    /// and decoded field by field in that order.
    pub proof fn lemma_layout(v: <GlobalTradeStationDeletePokemonParam as View>::V, s: Seq<u8>)
        ensures
            <GlobalTradeStationDeletePokemonParam as NexType>::valid(v) == <GlobalTradeStationDeletePokemonParamFields as NexType>::valid(v),
            <GlobalTradeStationDeletePokemonParam as NexType>::wire(v) == <GlobalTradeStationDeletePokemonParamFields as NexType>::wire(v),
            <GlobalTradeStationDeletePokemonParam as NexType>::parse(s) == <GlobalTradeStationDeletePokemonParamFields as NexType>::parse(s),
    {
    }
}

/// A search of the trade station.
#[derive(Debug, Clone, PartialEq, Eq, Default)]
pub struct GlobalTradeStationSearchPokemonParam {
    pub prepare_upload_key: GlobalTradeStationRecordKey,
    pub conditions: NexList<u32>,
    pub result_order_column: u8,
    pub result_order: u8,
    pub uploaded_after: DateTime,
    pub uploaded_before: DateTime,
    pub result_range: ResultRange,
}

/// The fields of `GlobalTradeStationSearchPokemonParam`, in wire order.
type GlobalTradeStationSearchPokemonParamFields = (GlobalTradeStationRecordKey, (NexList<u32>, (u8, (u8, (DateTime, (DateTime, ResultRange))))));

impl View for GlobalTradeStationSearchPokemonParam {
    type V = <GlobalTradeStationSearchPokemonParamFields as View>::V;

    open spec fn view(&self) -> Self::V {
        (self.prepare_upload_key@, (self.conditions@, (self.result_order_column@, (self.result_order@, (self.uploaded_after@, (self.uploaded_before@, self.result_range@))))))
    }
}

impl NexType for GlobalTradeStationSearchPokemonParam {
    open spec fn valid(v: Self::V) -> bool {
        <GlobalTradeStationSearchPokemonParamFields as NexType>::valid(v)
    }

    closed spec fn wire(v: Self::V) -> Seq<u8> {
        <GlobalTradeStationSearchPokemonParamFields as NexType>::wire(v)
    }

    closed spec fn parse(s: Seq<u8>) -> Result<(Self::V, nat), DecodeError> {
        <GlobalTradeStationSearchPokemonParamFields as NexType>::parse(s)
    }

    proof fn lemma_round_trip(v: Self::V, more: Seq<u8>) {
        <GlobalTradeStationSearchPokemonParamFields as NexType>::lemma_round_trip(v, more);
    }

    fn encode(&self, out: &mut Vec<u8>) {
        let ghost o0 = out@;
        self.prepare_upload_key.encode(out);
        let ghost o1 = out@;
        self.conditions.encode(out);
        let ghost o2 = out@;
        self.result_order_column.encode(out);
        let ghost o3 = out@;
        self.result_order.encode(out);
        let ghost o4 = out@;
        self.uploaded_after.encode(out);
        let ghost o5 = out@;
        self.uploaded_before.encode(out);
        let ghost o6 = out@;
        self.result_range.encode(out);
        proof {
            let t6 = <ResultRange as NexType>::wire(self.result_range@);
            lemma_concat_associative(o5, <DateTime as NexType>::wire(self.uploaded_before@), t6);
            let t5 = <DateTime as NexType>::wire(self.uploaded_before@) + t6;
            lemma_concat_associative(o4, <DateTime as NexType>::wire(self.uploaded_after@), t5);
            let t4 = <DateTime as NexType>::wire(self.uploaded_after@) + t5;
            lemma_concat_associative(o3, <u8 as NexType>::wire(self.result_order@), t4);
            let t3 = <u8 as NexType>::wire(self.result_order@) + t4;
            lemma_concat_associative(o2, <u8 as NexType>::wire(self.result_order_column@), t3);
            let t2 = <u8 as NexType>::wire(self.result_order_column@) + t3;
            lemma_concat_associative(o1, <NexList<u32> as NexType>::wire(self.conditions@), t2);
            let t1 = <NexList<u32> as NexType>::wire(self.conditions@) + t2;
            lemma_concat_associative(o0, <GlobalTradeStationRecordKey as NexType>::wire(self.prepare_upload_key@), t1);
        }
    }

    fn decode(data: &[u8], pos: &mut usize) -> (r: Result<GlobalTradeStationSearchPokemonParam, DecodeError>) {
        match <GlobalTradeStationSearchPokemonParamFields as NexType>::decode(data, pos) {
            Ok((prepare_upload_key, (conditions, (result_order_column, (result_order, (uploaded_after, (uploaded_before, result_range))))))) => Ok(GlobalTradeStationSearchPokemonParam { prepare_upload_key, conditions, result_order_column, result_order, uploaded_after, uploaded_before, result_range }),
            Err(e) => Err(e),
        }
    }
}

impl GlobalTradeStationSearchPokemonParam {
    /// The record is encoded as its fields' encodings in declaration order,
    /// and decoded field by field in that order.
    pub proof fn lemma_layout(v: <GlobalTradeStationSearchPokemonParam as View>::V, s: Seq<u8>)
        ensures
            <GlobalTradeStationSearchPokemonParam as NexType>::valid(v) == <GlobalTradeStationSearchPokemonParamFields as NexType>::valid(v),
            <GlobalTradeStationSearchPokemonParam as NexType>::wire(v) == <GlobalTradeStationSearchPokemonParamFields as NexType>::wire(v),
            <GlobalTradeStationSearchPokemonParam as NexType>::parse(s) == <GlobalTradeStationSearchPokemonParamFields as NexType>::parse(s),
    {
    }
}

/// One search hit.
#[derive(Debug, Clone, PartialEq, Eq, Default)]
pub struct GlobalTradeStationData {
    pub data_id: u64,
    pub owner_id: u32,
    pub updated_time: DateTime,
    pub index_data: NexQBuffer,
    pub version: u32,
}

/// The fields of `GlobalTradeStationData`, in wire order.
type GlobalTradeStationDataFields = (u64, (u32, (DateTime, (NexQBuffer, u32))));

impl View for GlobalTradeStationData {
    type V = <GlobalTradeStationDataFields as View>::V;

    open spec fn view(&self) -> Self::V {
        (self.data_id@, (self.owner_id@, (self.updated_time@, (self.index_data@, self.version@))))
    }
}

impl NexType for GlobalTradeStationData {
    open spec fn valid(v: Self::V) -> bool {
        <GlobalTradeStationDataFields as NexType>::valid(v)
    }

    closed spec fn wire(v: Self::V) -> Seq<u8> {
        <GlobalTradeStationDataFields as NexType>::wire(v)
    }

    closed spec fn parse(s: Seq<u8>) -> Result<(Self::V, nat), DecodeError> {
        <GlobalTradeStationDataFields as NexType>::parse(s)
    }

    proof fn lemma_round_trip(v: Self::V, more: Seq<u8>) {
        <GlobalTradeStationDataFields as NexType>::lemma_round_trip(v, more);
    }

    fn encode(&self, out: &mut Vec<u8>) {
        let ghost o0 = out@;
        self.data_id.encode(out);
        let ghost o1 = out@;
        self.owner_id.encode(out);
        let ghost o2 = out@;
        self.updated_time.encode(out);
        let ghost o3 = out@;
        self.index_data.encode(out);
        let ghost o4 = out@;
        self.version.encode(out);
        proof {
            let t4 = <u32 as NexType>::wire(self.version@);
            lemma_concat_associative(o3, <NexQBuffer as NexType>::wire(self.index_data@), t4);
            let t3 = <NexQBuffer as NexType>::wire(self.index_data@) + t4;
            lemma_concat_associative(o2, <DateTime as NexType>::wire(self.updated_time@), t3);
            let t2 = <DateTime as NexType>::wire(self.updated_time@) + t3;
            lemma_concat_associative(o1, <u32 as NexType>::wire(self.owner_id@), t2);
            let t1 = <u32 as NexType>::wire(self.owner_id@) + t2;
            lemma_concat_associative(o0, <u64 as NexType>::wire(self.data_id@), t1);
        }
    }

    fn decode(data: &[u8], pos: &mut usize) -> (r: Result<GlobalTradeStationData, DecodeError>) {
        match <GlobalTradeStationDataFields as NexType>::decode(data, pos) {
            Ok((data_id, (owner_id, (updated_time, (index_data, version))))) => Ok(GlobalTradeStationData { data_id, owner_id, updated_time, index_data, version }),
            Err(e) => Err(e),
        }
    }
}

impl GlobalTradeStationData {
    /// The record is encoded as its fields' encodings in declaration order,
    /// and decoded field by field in that order.
    pub proof fn lemma_layout(v: <GlobalTradeStationData as View>::V, s: Seq<u8>)
        ensures
            <GlobalTradeStationData as NexType>::valid(v) == <GlobalTradeStationDataFields as NexType>::valid(v),
            <GlobalTradeStationData as NexType>::wire(v) == <GlobalTradeStationDataFields as NexType>::wire(v),
            <GlobalTradeStationData as NexType>::parse(s) == <GlobalTradeStationDataFields as NexType>::parse(s),
    {
    }
}

/// The hits of a search.
#[derive(Debug, Clone, PartialEq, Eq, Default)]
pub struct GlobalTradeStationSearchPokemonResult {
    pub total_count: u32,
    pub result: NexList<GlobalTradeStationData>,
    pub total_count_type: u8,
}

/// The fields of `GlobalTradeStationSearchPokemonResult`, in wire order.
type GlobalTradeStationSearchPokemonResultFields = (u32, (NexList<GlobalTradeStationData>, u8));

impl View for GlobalTradeStationSearchPokemonResult {
    type V = <GlobalTradeStationSearchPokemonResultFields as View>::V;

    open spec fn view(&self) -> Self::V {
        (self.total_count@, (self.result@, self.total_count_type@))
    }
}

impl NexType for GlobalTradeStationSearchPokemonResult {
    open spec fn valid(v: Self::V) -> bool {
        <GlobalTradeStationSearchPokemonResultFields as NexType>::valid(v)
    }

    closed spec fn wire(v: Self::V) -> Seq<u8> {
        <GlobalTradeStationSearchPokemonResultFields as NexType>::wire(v)
    }

    closed spec fn parse(s: Seq<u8>) -> Result<(Self::V, nat), DecodeError> {
        <GlobalTradeStationSearchPokemonResultFields as NexType>::parse(s)
    }

    proof fn lemma_round_trip(v: Self::V, more: Seq<u8>) {
        <GlobalTradeStationSearchPokemonResultFields as NexType>::lemma_round_trip(v, more);
    }

    fn encode(&self, out: &mut Vec<u8>) {
        self.total_count.encode(out);
        self.result.encode(out);
        self.total_count_type.encode(out);
        assert(out@ =~= old(out)@ + Self::wire(self@));
    }

    fn decode(data: &[u8], pos: &mut usize) -> (r: Result<GlobalTradeStationSearchPokemonResult, DecodeError>) {
        match <GlobalTradeStationSearchPokemonResultFields as NexType>::decode(data, pos) {
            Ok((total_count, (result, total_count_type))) => Ok(GlobalTradeStationSearchPokemonResult { total_count, result, total_count_type }),
            Err(e) => Err(e),
        }
    }
}

impl GlobalTradeStationSearchPokemonResult {
    /// The record is encoded as its fields' encodings in declaration order,
    /// and decoded field by field in that order.
    pub proof fn lemma_layout(v: <GlobalTradeStationSearchPokemonResult as View>::V, s: Seq<u8>)
        ensures
            <GlobalTradeStationSearchPokemonResult as NexType>::valid(v) == <GlobalTradeStationSearchPokemonResultFields as NexType>::valid(v),
            <GlobalTradeStationSearchPokemonResult as NexType>::wire(v) == <GlobalTradeStationSearchPokemonResultFields as NexType>::wire(v),
            <GlobalTradeStationSearchPokemonResult as NexType>::parse(s) == <GlobalTradeStationSearchPokemonResultFields as NexType>::parse(s),
    {
    }
}


/// The parameters of GetMetas.
#[derive(Debug, Clone, PartialEq, Eq, Default)]
pub struct GetMetasRequest {
    pub data_ids: NexList<u64>,
    pub param: DataStoreGetMetaParam,
}

/// The fields of `GetMetasRequest`, in wire order.
type GetMetasRequestFields = (NexList<u64>, DataStoreGetMetaParam);

impl View for GetMetasRequest {
    type V = <GetMetasRequestFields as View>::V;

    open spec fn view(&self) -> Self::V {
        (self.data_ids@, self.param@)
    }
}

impl NexType for GetMetasRequest {
    open spec fn valid(v: Self::V) -> bool {
        <GetMetasRequestFields as NexType>::valid(v)
    }

    closed spec fn wire(v: Self::V) -> Seq<u8> {
        <GetMetasRequestFields as NexType>::wire(v)
    }

    closed spec fn parse(s: Seq<u8>) -> Result<(Self::V, nat), DecodeError> {
        <GetMetasRequestFields as NexType>::parse(s)
    }

    proof fn lemma_round_trip(v: Self::V, more: Seq<u8>) {
        <GetMetasRequestFields as NexType>::lemma_round_trip(v, more);
    }

    fn encode(&self, out: &mut Vec<u8>) {
        self.data_ids.encode(out);
        self.param.encode(out);
        assert(out@ =~= old(out)@ + Self::wire(self@));
    }

    fn decode(data: &[u8], pos: &mut usize) -> (r: Result<GetMetasRequest, DecodeError>) {
        match <GetMetasRequestFields as NexType>::decode(data, pos) {
            Ok((data_ids, param)) => Ok(GetMetasRequest { data_ids, param }),
            Err(e) => Err(e),
        }
    }
}

impl GetMetasRequest {
    /// The record is encoded as its fields' encodings in declaration order,
    /// and decoded field by field in that order.
    pub proof fn lemma_layout(v: <GetMetasRequest as View>::V, s: Seq<u8>)
        ensures
            <GetMetasRequest as NexType>::valid(v) == <GetMetasRequestFields as NexType>::valid(v),
            <GetMetasRequest as NexType>::wire(v) == <GetMetasRequestFields as NexType>::wire(v),
            <GetMetasRequest as NexType>::parse(s) == <GetMetasRequestFields as NexType>::parse(s),
    {
    }
}

/// The reply to GetMetas.
#[derive(Debug, Clone, PartialEq, Eq, Default)]
pub struct GetMetasResponse {
    pub p_meta_info: NexList<DataStoreMetaInfo>,
    pub p_results: NexList<ResultCode>,
}

/// The fields of `GetMetasResponse`, in wire order.
type GetMetasResponseFields = (NexList<DataStoreMetaInfo>, NexList<ResultCode>);

impl View for GetMetasResponse {
    type V = <GetMetasResponseFields as View>::V;

    open spec fn view(&self) -> Self::V {
        (self.p_meta_info@, self.p_results@)
    }
}

impl NexType for GetMetasResponse {
    open spec fn valid(v: Self::V) -> bool {
        <GetMetasResponseFields as NexType>::valid(v)
    }

    closed spec fn wire(v: Self::V) -> Seq<u8> {
        <GetMetasResponseFields as NexType>::wire(v)
    }

    closed spec fn parse(s: Seq<u8>) -> Result<(Self::V, nat), DecodeError> {
        <GetMetasResponseFields as NexType>::parse(s)
    }

    proof fn lemma_round_trip(v: Self::V, more: Seq<u8>) {
        <GetMetasResponseFields as NexType>::lemma_round_trip(v, more);
    }

    fn encode(&self, out: &mut Vec<u8>) {
        self.p_meta_info.encode(out);
        self.p_results.encode(out);
        assert(out@ =~= old(out)@ + Self::wire(self@));
    }

    fn decode(data: &[u8], pos: &mut usize) -> (r: Result<GetMetasResponse, DecodeError>) {
        match <GetMetasResponseFields as NexType>::decode(data, pos) {
            Ok((p_meta_info, p_results)) => Ok(GetMetasResponse { p_meta_info, p_results }),
            Err(e) => Err(e),
        }
    }
}

impl GetMetasResponse {
    /// The record is encoded as its fields' encodings in declaration order,
    /// and decoded field by field in that order.
    pub proof fn lemma_layout(v: <GetMetasResponse as View>::V, s: Seq<u8>)
        ensures
            <GetMetasResponse as NexType>::valid(v) == <GetMetasResponseFields as NexType>::valid(v),
            <GetMetasResponse as NexType>::wire(v) == <GetMetasResponseFields as NexType>::wire(v),
            <GetMetasResponse as NexType>::parse(s) == <GetMetasResponseFields as NexType>::parse(s),
    {
    }
}

/// The parameters of RateObject.
#[derive(Debug, Clone, PartialEq, Eq, Default)]
pub struct RateObjectRequest {
    pub target: DataStoreRatingTarget,
    pub param: DataStoreRateObjectParam,
    pub fetch_ratings: bool,
}

/// The fields of `RateObjectRequest`, in wire order.
type RateObjectRequestFields = (DataStoreRatingTarget, (DataStoreRateObjectParam, bool));

impl View for RateObjectRequest {
    type V = <RateObjectRequestFields as View>::V;

    open spec fn view(&self) -> Self::V {
        (self.target@, (self.param@, self.fetch_ratings@))
    }
}

impl NexType for RateObjectRequest {
    open spec fn valid(v: Self::V) -> bool {
        <RateObjectRequestFields as NexType>::valid(v)
    }

    closed spec fn wire(v: Self::V) -> Seq<u8> {
        <RateObjectRequestFields as NexType>::wire(v)
    }

    closed spec fn parse(s: Seq<u8>) -> Result<(Self::V, nat), DecodeError> {
        <RateObjectRequestFields as NexType>::parse(s)
    }

    proof fn lemma_round_trip(v: Self::V, more: Seq<u8>) {
        <RateObjectRequestFields as NexType>::lemma_round_trip(v, more);
    }

    fn encode(&self, out: &mut Vec<u8>) {
        self.target.encode(out);
        self.param.encode(out);
        self.fetch_ratings.encode(out);
        assert(out@ =~= old(out)@ + Self::wire(self@));
    }

    fn decode(data: &[u8], pos: &mut usize) -> (r: Result<RateObjectRequest, DecodeError>) {
        match <RateObjectRequestFields as NexType>::decode(data, pos) {
            Ok((target, (param, fetch_ratings))) => Ok(RateObjectRequest { target, param, fetch_ratings }),
            Err(e) => Err(e),
        }
    }
}

impl RateObjectRequest {
    /// The record is encoded as its fields' encodings in declaration order,
    /// and decoded field by field in that order.
    pub proof fn lemma_layout(v: <RateObjectRequest as View>::V, s: Seq<u8>)
        ensures
            <RateObjectRequest as NexType>::valid(v) == <RateObjectRequestFields as NexType>::valid(v),
            <RateObjectRequest as NexType>::wire(v) == <RateObjectRequestFields as NexType>::wire(v),
            <RateObjectRequest as NexType>::parse(s) == <RateObjectRequestFields as NexType>::parse(s),
    {
    }
}

/// The reply to RateObject.
#[derive(Debug, Clone, PartialEq, Eq, Default)]
pub struct RateObjectResponse {
    pub p_rating: DataStoreRatingInfo,
}

/// The fields of `RateObjectResponse`, in wire order.
type RateObjectResponseFields = DataStoreRatingInfo;

impl View for RateObjectResponse {
    type V = <RateObjectResponseFields as View>::V;

    open spec fn view(&self) -> Self::V {
        self.p_rating@
    }
}

impl NexType for RateObjectResponse {
    open spec fn valid(v: Self::V) -> bool {
        <RateObjectResponseFields as NexType>::valid(v)
    }

    closed spec fn wire(v: Self::V) -> Seq<u8> {
        <RateObjectResponseFields as NexType>::wire(v)
    }

    closed spec fn parse(s: Seq<u8>) -> Result<(Self::V, nat), DecodeError> {
        <RateObjectResponseFields as NexType>::parse(s)
    }

    proof fn lemma_round_trip(v: Self::V, more: Seq<u8>) {
        <RateObjectResponseFields as NexType>::lemma_round_trip(v, more);
    }

    fn encode(&self, out: &mut Vec<u8>) {
        self.p_rating.encode(out);
    }

    fn decode(data: &[u8], pos: &mut usize) -> (r: Result<RateObjectResponse, DecodeError>) {
        match <RateObjectResponseFields as NexType>::decode(data, pos) {
            Ok(p_rating) => Ok(RateObjectResponse { p_rating }),
            Err(e) => Err(e),
        }
    }
}

impl RateObjectResponse {
    /// The record is encoded as its one field, and decoded as it.
    pub proof fn lemma_layout(v: <RateObjectResponse as View>::V, s: Seq<u8>)
        ensures
            <RateObjectResponse as NexType>::valid(v) == <RateObjectResponseFields as NexType>::valid(v),
            <RateObjectResponse as NexType>::wire(v) == <RateObjectResponseFields as NexType>::wire(v),
            <RateObjectResponse as NexType>::parse(s) == <RateObjectResponseFields as NexType>::parse(s),
    {
    }
}

/// The parameters of PostMetaBinary.
#[derive(Debug, Clone, PartialEq, Eq, Default)]
pub struct PostMetaBinaryRequest {
    pub param: DataStorePreparePostParam,
}

/// The fields of `PostMetaBinaryRequest`, in wire order.
type PostMetaBinaryRequestFields = DataStorePreparePostParam;

impl View for PostMetaBinaryRequest {
    type V = <PostMetaBinaryRequestFields as View>::V;

    open spec fn view(&self) -> Self::V {
        self.param@
    }
}

impl NexType for PostMetaBinaryRequest {
    open spec fn valid(v: Self::V) -> bool {
        <PostMetaBinaryRequestFields as NexType>::valid(v)
    }

    closed spec fn wire(v: Self::V) -> Seq<u8> {
        <PostMetaBinaryRequestFields as NexType>::wire(v)
    }

    closed spec fn parse(s: Seq<u8>) -> Result<(Self::V, nat), DecodeError> {
        <PostMetaBinaryRequestFields as NexType>::parse(s)
    }

    proof fn lemma_round_trip(v: Self::V, more: Seq<u8>) {
        <PostMetaBinaryRequestFields as NexType>::lemma_round_trip(v, more);
    }

    fn encode(&self, out: &mut Vec<u8>) {
        self.param.encode(out);
    }

    fn decode(data: &[u8], pos: &mut usize) -> (r: Result<PostMetaBinaryRequest, DecodeError>) {
        match <PostMetaBinaryRequestFields as NexType>::decode(data, pos) {
            Ok(param) => Ok(PostMetaBinaryRequest { param }),
            Err(e) => Err(e),
        }
    }
}

impl PostMetaBinaryRequest {
    /// The record is encoded as its one field, and decoded as it.
    pub proof fn lemma_layout(v: <PostMetaBinaryRequest as View>::V, s: Seq<u8>)
        ensures
            <PostMetaBinaryRequest as NexType>::valid(v) == <PostMetaBinaryRequestFields as NexType>::valid(v),
            <PostMetaBinaryRequest as NexType>::wire(v) == <PostMetaBinaryRequestFields as NexType>::wire(v),
            <PostMetaBinaryRequest as NexType>::parse(s) == <PostMetaBinaryRequestFields as NexType>::parse(s),
    {
    }
}

/// The reply to PostMetaBinary.
#[derive(Debug, Clone, PartialEq, Eq, Default)]
pub struct PostMetaBinaryResponse {
    pub data_id: u64,
}

/// The fields of `PostMetaBinaryResponse`, in wire order.
type PostMetaBinaryResponseFields = u64;

impl View for PostMetaBinaryResponse {
    type V = <PostMetaBinaryResponseFields as View>::V;

    open spec fn view(&self) -> Self::V {
        self.data_id@
    }
}

impl NexType for PostMetaBinaryResponse {
    open spec fn valid(v: Self::V) -> bool {
        <PostMetaBinaryResponseFields as NexType>::valid(v)
    }

    closed spec fn wire(v: Self::V) -> Seq<u8> {
        <PostMetaBinaryResponseFields as NexType>::wire(v)
    }

    closed spec fn parse(s: Seq<u8>) -> Result<(Self::V, nat), DecodeError> {
        <PostMetaBinaryResponseFields as NexType>::parse(s)
    }

    proof fn lemma_round_trip(v: Self::V, more: Seq<u8>) {
        <PostMetaBinaryResponseFields as NexType>::lemma_round_trip(v, more);
    }

    fn encode(&self, out: &mut Vec<u8>) {
        self.data_id.encode(out);
    }

    fn decode(data: &[u8], pos: &mut usize) -> (r: Result<PostMetaBinaryResponse, DecodeError>) {
        match <PostMetaBinaryResponseFields as NexType>::decode(data, pos) {
            Ok(data_id) => Ok(PostMetaBinaryResponse { data_id }),
            Err(e) => Err(e),
        }
    }
}

impl PostMetaBinaryResponse {
    /// The record is encoded as its one field, and decoded as it.
    pub proof fn lemma_layout(v: <PostMetaBinaryResponse as View>::V, s: Seq<u8>)
        ensures
            <PostMetaBinaryResponse as NexType>::valid(v) == <PostMetaBinaryResponseFields as NexType>::valid(v),
            <PostMetaBinaryResponse as NexType>::wire(v) == <PostMetaBinaryResponseFields as NexType>::wire(v),
            <PostMetaBinaryResponse as NexType>::parse(s) == <PostMetaBinaryResponseFields as NexType>::parse(s),
    {
    }
}

/// The parameters of ChangeMetas.
#[derive(Debug, Clone, PartialEq, Eq, Default)]
pub struct ChangeMetasRequest {
    pub data_ids: NexList<u64>,
    pub params: NexList<DataStoreChangeMetaParam>,
    pub transactional: bool,
}

/// The fields of `ChangeMetasRequest`, in wire order.
type ChangeMetasRequestFields = (NexList<u64>, (NexList<DataStoreChangeMetaParam>, bool));

impl View for ChangeMetasRequest {
    type V = <ChangeMetasRequestFields as View>::V;

    open spec fn view(&self) -> Self::V {
        (self.data_ids@, (self.params@, self.transactional@))
    }
}

impl NexType for ChangeMetasRequest {
    open spec fn valid(v: Self::V) -> bool {
        <ChangeMetasRequestFields as NexType>::valid(v)
    }

    closed spec fn wire(v: Self::V) -> Seq<u8> {
        <ChangeMetasRequestFields as NexType>::wire(v)
    }

    closed spec fn parse(s: Seq<u8>) -> Result<(Self::V, nat), DecodeError> {
        <ChangeMetasRequestFields as NexType>::parse(s)
    }

    proof fn lemma_round_trip(v: Self::V, more: Seq<u8>) {
        <ChangeMetasRequestFields as NexType>::lemma_round_trip(v, more);
    }

    fn encode(&self, out: &mut Vec<u8>) {
        self.data_ids.encode(out);
        self.params.encode(out);
        self.transactional.encode(out);
        assert(out@ =~= old(out)@ + Self::wire(self@));
    }

    fn decode(data: &[u8], pos: &mut usize) -> (r: Result<ChangeMetasRequest, DecodeError>) {
        match <ChangeMetasRequestFields as NexType>::decode(data, pos) {
            Ok((data_ids, (params, transactional))) => Ok(ChangeMetasRequest { data_ids, params, transactional }),
            Err(e) => Err(e),
        }
    }
}

impl ChangeMetasRequest {
    /// The record is encoded as its fields' encodings in declaration order,
    /// and decoded field by field in that order.
    pub proof fn lemma_layout(v: <ChangeMetasRequest as View>::V, s: Seq<u8>)
        ensures
            <ChangeMetasRequest as NexType>::valid(v) == <ChangeMetasRequestFields as NexType>::valid(v),
            <ChangeMetasRequest as NexType>::wire(v) == <ChangeMetasRequestFields as NexType>::wire(v),
            <ChangeMetasRequest as NexType>::parse(s) == <ChangeMetasRequestFields as NexType>::parse(s),
    {
    }
}

/// The reply to ChangeMetas.
#[derive(Debug, Clone, PartialEq, Eq, Default)]
pub struct ChangeMetasResponse {
    pub p_results: NexList<ResultCode>,
}

/// The fields of `ChangeMetasResponse`, in wire order.
type ChangeMetasResponseFields = NexList<ResultCode>;

impl View for ChangeMetasResponse {
    type V = <ChangeMetasResponseFields as View>::V;

    open spec fn view(&self) -> Self::V {
        self.p_results@
    }
}

impl NexType for ChangeMetasResponse {
    open spec fn valid(v: Self::V) -> bool {
        <ChangeMetasResponseFields as NexType>::valid(v)
    }

    closed spec fn wire(v: Self::V) -> Seq<u8> {
        <ChangeMetasResponseFields as NexType>::wire(v)
    }

    closed spec fn parse(s: Seq<u8>) -> Result<(Self::V, nat), DecodeError> {
        <ChangeMetasResponseFields as NexType>::parse(s)
    }

    proof fn lemma_round_trip(v: Self::V, more: Seq<u8>) {
        <ChangeMetasResponseFields as NexType>::lemma_round_trip(v, more);
    }

    fn encode(&self, out: &mut Vec<u8>) {
        self.p_results.encode(out);
    }

    fn decode(data: &[u8], pos: &mut usize) -> (r: Result<ChangeMetasResponse, DecodeError>) {
        match <ChangeMetasResponseFields as NexType>::decode(data, pos) {
            Ok(p_results) => Ok(ChangeMetasResponse { p_results }),
            Err(e) => Err(e),
        }
    }
}

impl ChangeMetasResponse {
    /// The record is encoded as its one field, and decoded as it.
    pub proof fn lemma_layout(v: <ChangeMetasResponse as View>::V, s: Seq<u8>)
        ensures
            <ChangeMetasResponse as NexType>::valid(v) == <ChangeMetasResponseFields as NexType>::valid(v),
            <ChangeMetasResponse as NexType>::wire(v) == <ChangeMetasResponseFields as NexType>::wire(v),
            <ChangeMetasResponse as NexType>::parse(s) == <ChangeMetasResponseFields as NexType>::parse(s),
    {
    }
}

/// The reply to PrepareUploadPokemon.
#[derive(Debug, Clone, PartialEq, Eq, Default)]
pub struct PrepareUploadPokemonResponse {
    pub p_record_key: GlobalTradeStationRecordKey,
}

/// The fields of `PrepareUploadPokemonResponse`, in wire order.
type PrepareUploadPokemonResponseFields = GlobalTradeStationRecordKey;

impl View for PrepareUploadPokemonResponse {
    type V = <PrepareUploadPokemonResponseFields as View>::V;

    open spec fn view(&self) -> Self::V {
        self.p_record_key@
    }
}

impl NexType for PrepareUploadPokemonResponse {
    open spec fn valid(v: Self::V) -> bool {
        <PrepareUploadPokemonResponseFields as NexType>::valid(v)
    }

    closed spec fn wire(v: Self::V) -> Seq<u8> {
        <PrepareUploadPokemonResponseFields as NexType>::wire(v)
    }

    closed spec fn parse(s: Seq<u8>) -> Result<(Self::V, nat), DecodeError> {
        <PrepareUploadPokemonResponseFields as NexType>::parse(s)
    }

    proof fn lemma_round_trip(v: Self::V, more: Seq<u8>) {
        <PrepareUploadPokemonResponseFields as NexType>::lemma_round_trip(v, more);
    }

    fn encode(&self, out: &mut Vec<u8>) {
        self.p_record_key.encode(out);
    }

    fn decode(data: &[u8], pos: &mut usize) -> (r: Result<PrepareUploadPokemonResponse, DecodeError>) {
        match <PrepareUploadPokemonResponseFields as NexType>::decode(data, pos) {
            Ok(p_record_key) => Ok(PrepareUploadPokemonResponse { p_record_key }),
            Err(e) => Err(e),
        }
    }
}

impl PrepareUploadPokemonResponse {
    /// The record is encoded as its one field, and decoded as it.
    pub proof fn lemma_layout(v: <PrepareUploadPokemonResponse as View>::V, s: Seq<u8>)
        ensures
            <PrepareUploadPokemonResponse as NexType>::valid(v) == <PrepareUploadPokemonResponseFields as NexType>::valid(v),
            <PrepareUploadPokemonResponse as NexType>::wire(v) == <PrepareUploadPokemonResponseFields as NexType>::wire(v),
            <PrepareUploadPokemonResponse as NexType>::parse(s) == <PrepareUploadPokemonResponseFields as NexType>::parse(s),
    {
    }
}

/// The parameters of UploadPokemon.
#[derive(Debug, Clone, PartialEq, Eq, Default)]
pub struct UploadPokemonRequest {
    pub param: GlobalTradeStationUploadPokemonParam,
}

/// The fields of `UploadPokemonRequest`, in wire order.
type UploadPokemonRequestFields = GlobalTradeStationUploadPokemonParam;

impl View for UploadPokemonRequest {
    type V = <UploadPokemonRequestFields as View>::V;

    open spec fn view(&self) -> Self::V {
        self.param@
    }
}

impl NexType for UploadPokemonRequest {
    open spec fn valid(v: Self::V) -> bool {
        <UploadPokemonRequestFields as NexType>::valid(v)
    }

    closed spec fn wire(v: Self::V) -> Seq<u8> {
        <UploadPokemonRequestFields as NexType>::wire(v)
    }

    closed spec fn parse(s: Seq<u8>) -> Result<(Self::V, nat), DecodeError> {
        <UploadPokemonRequestFields as NexType>::parse(s)
    }

    proof fn lemma_round_trip(v: Self::V, more: Seq<u8>) {
        <UploadPokemonRequestFields as NexType>::lemma_round_trip(v, more);
    }

    fn encode(&self, out: &mut Vec<u8>) {
        self.param.encode(out);
    }

    fn decode(data: &[u8], pos: &mut usize) -> (r: Result<UploadPokemonRequest, DecodeError>) {
        match <UploadPokemonRequestFields as NexType>::decode(data, pos) {
            Ok(param) => Ok(UploadPokemonRequest { param }),
            Err(e) => Err(e),
        }
    }
}

impl UploadPokemonRequest {
    /// The record is encoded as its one field, and decoded as it.
    pub proof fn lemma_layout(v: <UploadPokemonRequest as View>::V, s: Seq<u8>)
        ensures
            <UploadPokemonRequest as NexType>::valid(v) == <UploadPokemonRequestFields as NexType>::valid(v),
            <UploadPokemonRequest as NexType>::wire(v) == <UploadPokemonRequestFields as NexType>::wire(v),
            <UploadPokemonRequest as NexType>::parse(s) == <UploadPokemonRequestFields as NexType>::parse(s),
    {
    }
}

/// The parameters of PrepareTradePokemon.
#[derive(Debug, Clone, PartialEq, Eq, Default)]
pub struct PrepareTradePokemonRequest {
    pub param: GlobalTradeStationPrepareTradePokemonParam,
}

/// The fields of `PrepareTradePokemonRequest`, in wire order.
type PrepareTradePokemonRequestFields = GlobalTradeStationPrepareTradePokemonParam;

impl View for PrepareTradePokemonRequest {
    type V = <PrepareTradePokemonRequestFields as View>::V;

    open spec fn view(&self) -> Self::V {
        self.param@
    }
}

impl NexType for PrepareTradePokemonRequest {
    open spec fn valid(v: Self::V) -> bool {
        <PrepareTradePokemonRequestFields as NexType>::valid(v)
    }

    closed spec fn wire(v: Self::V) -> Seq<u8> {
        <PrepareTradePokemonRequestFields as NexType>::wire(v)
    }

    closed spec fn parse(s: Seq<u8>) -> Result<(Self::V, nat), DecodeError> {
        <PrepareTradePokemonRequestFields as NexType>::parse(s)
    }

    proof fn lemma_round_trip(v: Self::V, more: Seq<u8>) {
        <PrepareTradePokemonRequestFields as NexType>::lemma_round_trip(v, more);
    }

    fn encode(&self, out: &mut Vec<u8>) {
        self.param.encode(out);
    }

    fn decode(data: &[u8], pos: &mut usize) -> (r: Result<PrepareTradePokemonRequest, DecodeError>) {
        match <PrepareTradePokemonRequestFields as NexType>::decode(data, pos) {
            Ok(param) => Ok(PrepareTradePokemonRequest { param }),
            Err(e) => Err(e),
        }
    }
}

impl PrepareTradePokemonRequest {
    /// The record is encoded as its one field, and decoded as it.
    pub proof fn lemma_layout(v: <PrepareTradePokemonRequest as View>::V, s: Seq<u8>)
        ensures
            <PrepareTradePokemonRequest as NexType>::valid(v) == <PrepareTradePokemonRequestFields as NexType>::valid(v),
            <PrepareTradePokemonRequest as NexType>::wire(v) == <PrepareTradePokemonRequestFields as NexType>::wire(v),
            <PrepareTradePokemonRequest as NexType>::parse(s) == <PrepareTradePokemonRequestFields as NexType>::parse(s),
    {
    }
}

/// The reply to PrepareTradePokemon.
#[derive(Debug, Clone, PartialEq, Eq, Default)]
pub struct PrepareTradePokemonResponse {
    pub p_result: GlobalTradeStationPrepareTradePokemonResult,
}

/// The fields of `PrepareTradePokemonResponse`, in wire order.
type PrepareTradePokemonResponseFields = GlobalTradeStationPrepareTradePokemonResult;

impl View for PrepareTradePokemonResponse {
    type V = <PrepareTradePokemonResponseFields as View>::V;

    open spec fn view(&self) -> Self::V {
        self.p_result@
    }
}

impl NexType for PrepareTradePokemonResponse {
    open spec fn valid(v: Self::V) -> bool {
        <PrepareTradePokemonResponseFields as NexType>::valid(v)
    }

    closed spec fn wire(v: Self::V) -> Seq<u8> {
        <PrepareTradePokemonResponseFields as NexType>::wire(v)
    }

    closed spec fn parse(s: Seq<u8>) -> Result<(Self::V, nat), DecodeError> {
        <PrepareTradePokemonResponseFields as NexType>::parse(s)
    }

    proof fn lemma_round_trip(v: Self::V, more: Seq<u8>) {
        <PrepareTradePokemonResponseFields as NexType>::lemma_round_trip(v, more);
    }

    fn encode(&self, out: &mut Vec<u8>) {
        self.p_result.encode(out);
    }

    fn decode(data: &[u8], pos: &mut usize) -> (r: Result<PrepareTradePokemonResponse, DecodeError>) {
        match <PrepareTradePokemonResponseFields as NexType>::decode(data, pos) {
            Ok(p_result) => Ok(PrepareTradePokemonResponse { p_result }),
            Err(e) => Err(e),
        }
    }
}

impl PrepareTradePokemonResponse {
    /// The record is encoded as its one field, and decoded as it.
    pub proof fn lemma_layout(v: <PrepareTradePokemonResponse as View>::V, s: Seq<u8>)
        ensures
            <PrepareTradePokemonResponse as NexType>::valid(v) == <PrepareTradePokemonResponseFields as NexType>::valid(v),
            <PrepareTradePokemonResponse as NexType>::wire(v) == <PrepareTradePokemonResponseFields as NexType>::wire(v),
            <PrepareTradePokemonResponse as NexType>::parse(s) == <PrepareTradePokemonResponseFields as NexType>::parse(s),
    {
    }
}

/// The parameters of TradePokemon.
#[derive(Debug, Clone, PartialEq, Eq, Default)]
pub struct TradePokemonRequest {
    pub param: GlobalTradeStationTradePokemonParam,
}

/// The fields of `TradePokemonRequest`, in wire order.
type TradePokemonRequestFields = GlobalTradeStationTradePokemonParam;

impl View for TradePokemonRequest {
    type V = <TradePokemonRequestFields as View>::V;

    open spec fn view(&self) -> Self::V {
        self.param@
    }
}

impl NexType for TradePokemonRequest {
    open spec fn valid(v: Self::V) -> bool {
        <TradePokemonRequestFields as NexType>::valid(v)
    }

    closed spec fn wire(v: Self::V) -> Seq<u8> {
        <TradePokemonRequestFields as NexType>::wire(v)
    }

    closed spec fn parse(s: Seq<u8>) -> Result<(Self::V, nat), DecodeError> {
        <TradePokemonRequestFields as NexType>::parse(s)
    }

    proof fn lemma_round_trip(v: Self::V, more: Seq<u8>) {
        <TradePokemonRequestFields as NexType>::lemma_round_trip(v, more);
    }

    fn encode(&self, out: &mut Vec<u8>) {
        self.param.encode(out);
    }

    fn decode(data: &[u8], pos: &mut usize) -> (r: Result<TradePokemonRequest, DecodeError>) {
        match <TradePokemonRequestFields as NexType>::decode(data, pos) {
            Ok(param) => Ok(TradePokemonRequest { param }),
            Err(e) => Err(e),
        }
    }
}

impl TradePokemonRequest {
    /// The record is encoded as its one field, and decoded as it.
    pub proof fn lemma_layout(v: <TradePokemonRequest as View>::V, s: Seq<u8>)
        ensures
            <TradePokemonRequest as NexType>::valid(v) == <TradePokemonRequestFields as NexType>::valid(v),
            <TradePokemonRequest as NexType>::wire(v) == <TradePokemonRequestFields as NexType>::wire(v),
            <TradePokemonRequest as NexType>::parse(s) == <TradePokemonRequestFields as NexType>::parse(s),
    {
    }
}

/// The reply to TradePokemon.
#[derive(Debug, Clone, PartialEq, Eq, Default)]
pub struct TradePokemonResponse {
    pub p_result: GlobalTradeStationTradePokemonResult,
}

/// The fields of `TradePokemonResponse`, in wire order.
type TradePokemonResponseFields = GlobalTradeStationTradePokemonResult;

impl View for TradePokemonResponse {
    type V = <TradePokemonResponseFields as View>::V;

    open spec fn view(&self) -> Self::V {
        self.p_result@
    }
}

impl NexType for TradePokemonResponse {
    open spec fn valid(v: Self::V) -> bool {
        <TradePokemonResponseFields as NexType>::valid(v)
    }

    closed spec fn wire(v: Self::V) -> Seq<u8> {
        <TradePokemonResponseFields as NexType>::wire(v)
    }

    closed spec fn parse(s: Seq<u8>) -> Result<(Self::V, nat), DecodeError> {
        <TradePokemonResponseFields as NexType>::parse(s)
    }

    proof fn lemma_round_trip(v: Self::V, more: Seq<u8>) {
        <TradePokemonResponseFields as NexType>::lemma_round_trip(v, more);
    }

    fn encode(&self, out: &mut Vec<u8>) {
        self.p_result.encode(out);
    }

    fn decode(data: &[u8], pos: &mut usize) -> (r: Result<TradePokemonResponse, DecodeError>) {
        match <TradePokemonResponseFields as NexType>::decode(data, pos) {
            Ok(p_result) => Ok(TradePokemonResponse { p_result }),
            Err(e) => Err(e),
        }
    }
}

impl TradePokemonResponse {
    /// The record is encoded as its one field, and decoded as it.
    pub proof fn lemma_layout(v: <TradePokemonResponse as View>::V, s: Seq<u8>)
        ensures
            <TradePokemonResponse as NexType>::valid(v) == <TradePokemonResponseFields as NexType>::valid(v),
            <TradePokemonResponse as NexType>::wire(v) == <TradePokemonResponseFields as NexType>::wire(v),
            <TradePokemonResponse as NexType>::parse(s) == <TradePokemonResponseFields as NexType>::parse(s),
    {
    }
}

/// The parameters of DownloadOtherPokemon.
#[derive(Debug, Clone, PartialEq, Eq, Default)]
pub struct DownloadOtherPokemonRequest {
    pub param: GlobalTradeStationDownloadOtherPokemonParam,
}

/// The fields of `DownloadOtherPokemonRequest`, in wire order.
type DownloadOtherPokemonRequestFields = GlobalTradeStationDownloadOtherPokemonParam;

impl View for DownloadOtherPokemonRequest {
    type V = <DownloadOtherPokemonRequestFields as View>::V;

    open spec fn view(&self) -> Self::V {
        self.param@
    }
}

impl NexType for DownloadOtherPokemonRequest {
    open spec fn valid(v: Self::V) -> bool {
        <DownloadOtherPokemonRequestFields as NexType>::valid(v)
    }

    closed spec fn wire(v: Self::V) -> Seq<u8> {
        <DownloadOtherPokemonRequestFields as NexType>::wire(v)
    }

    closed spec fn parse(s: Seq<u8>) -> Result<(Self::V, nat), DecodeError> {
        <DownloadOtherPokemonRequestFields as NexType>::parse(s)
    }

    proof fn lemma_round_trip(v: Self::V, more: Seq<u8>) {
        <DownloadOtherPokemonRequestFields as NexType>::lemma_round_trip(v, more);
    }

    fn encode(&self, out: &mut Vec<u8>) {
        self.param.encode(out);
    }

    fn decode(data: &[u8], pos: &mut usize) -> (r: Result<DownloadOtherPokemonRequest, DecodeError>) {
        match <DownloadOtherPokemonRequestFields as NexType>::decode(data, pos) {
            Ok(param) => Ok(DownloadOtherPokemonRequest { param }),
            Err(e) => Err(e),
        }
    }
}

impl DownloadOtherPokemonRequest {
    /// The record is encoded as its one field, and decoded as it.
    pub proof fn lemma_layout(v: <DownloadOtherPokemonRequest as View>::V, s: Seq<u8>)
        ensures
            <DownloadOtherPokemonRequest as NexType>::valid(v) == <DownloadOtherPokemonRequestFields as NexType>::valid(v),
            <DownloadOtherPokemonRequest as NexType>::wire(v) == <DownloadOtherPokemonRequestFields as NexType>::wire(v),
            <DownloadOtherPokemonRequest as NexType>::parse(s) == <DownloadOtherPokemonRequestFields as NexType>::parse(s),
    {
    }
}

/// The reply to DownloadOtherPokemon.
#[derive(Debug, Clone, PartialEq, Eq, Default)]
pub struct DownloadOtherPokemonResponse {
    pub p_result: GlobalTradeStationTradePokemonResult,
}

/// The fields of `DownloadOtherPokemonResponse`, in wire order.
type DownloadOtherPokemonResponseFields = GlobalTradeStationTradePokemonResult;

impl View for DownloadOtherPokemonResponse {
    type V = <DownloadOtherPokemonResponseFields as View>::V;

    open spec fn view(&self) -> Self::V {
        self.p_result@
    }
}

impl NexType for DownloadOtherPokemonResponse {
    open spec fn valid(v: Self::V) -> bool {
        <DownloadOtherPokemonResponseFields as NexType>::valid(v)
    }

    closed spec fn wire(v: Self::V) -> Seq<u8> {
        <DownloadOtherPokemonResponseFields as NexType>::wire(v)
    }

    closed spec fn parse(s: Seq<u8>) -> Result<(Self::V, nat), DecodeError> {
        <DownloadOtherPokemonResponseFields as NexType>::parse(s)
    }

    proof fn lemma_round_trip(v: Self::V, more: Seq<u8>) {
        <DownloadOtherPokemonResponseFields as NexType>::lemma_round_trip(v, more);
    }

    fn encode(&self, out: &mut Vec<u8>) {
        self.p_result.encode(out);
    }

    fn decode(data: &[u8], pos: &mut usize) -> (r: Result<DownloadOtherPokemonResponse, DecodeError>) {
        match <DownloadOtherPokemonResponseFields as NexType>::decode(data, pos) {
            Ok(p_result) => Ok(DownloadOtherPokemonResponse { p_result }),
            Err(e) => Err(e),
        }
    }
}

impl DownloadOtherPokemonResponse {
    /// The record is encoded as its one field, and decoded as it.
    pub proof fn lemma_layout(v: <DownloadOtherPokemonResponse as View>::V, s: Seq<u8>)
        ensures
            <DownloadOtherPokemonResponse as NexType>::valid(v) == <DownloadOtherPokemonResponseFields as NexType>::valid(v),
            <DownloadOtherPokemonResponse as NexType>::wire(v) == <DownloadOtherPokemonResponseFields as NexType>::wire(v),
            <DownloadOtherPokemonResponse as NexType>::parse(s) == <DownloadOtherPokemonResponseFields as NexType>::parse(s),
    {
    }
}

/// The parameters of DownloadMyPokemon.
#[derive(Debug, Clone, PartialEq, Eq, Default)]
pub struct DownloadMyPokemonRequest {
    pub param: GlobalTradeStationDownloadMyPokemonParam,
}

/// The fields of `DownloadMyPokemonRequest`, in wire order.
type DownloadMyPokemonRequestFields = GlobalTradeStationDownloadMyPokemonParam;

impl View for DownloadMyPokemonRequest {
    type V = <DownloadMyPokemonRequestFields as View>::V;

    open spec fn view(&self) -> Self::V {
        self.param@
    }
}

impl NexType for DownloadMyPokemonRequest {
    open spec fn valid(v: Self::V) -> bool {
        <DownloadMyPokemonRequestFields as NexType>::valid(v)
    }

    closed spec fn wire(v: Self::V) -> Seq<u8> {
        <DownloadMyPokemonRequestFields as NexType>::wire(v)
    }

    closed spec fn parse(s: Seq<u8>) -> Result<(Self::V, nat), DecodeError> {
        <DownloadMyPokemonRequestFields as NexType>::parse(s)
    }

    proof fn lemma_round_trip(v: Self::V, more: Seq<u8>) {
        <DownloadMyPokemonRequestFields as NexType>::lemma_round_trip(v, more);
    }

    fn encode(&self, out: &mut Vec<u8>) {
        self.param.encode(out);
    }

    fn decode(data: &[u8], pos: &mut usize) -> (r: Result<DownloadMyPokemonRequest, DecodeError>) {
        match <DownloadMyPokemonRequestFields as NexType>::decode(data, pos) {
            Ok(param) => Ok(DownloadMyPokemonRequest { param }),
            Err(e) => Err(e),
        }
    }
}

impl DownloadMyPokemonRequest {
    /// The record is encoded as its one field, and decoded as it.
    pub proof fn lemma_layout(v: <DownloadMyPokemonRequest as View>::V, s: Seq<u8>)
        ensures
            <DownloadMyPokemonRequest as NexType>::valid(v) == <DownloadMyPokemonRequestFields as NexType>::valid(v),
            <DownloadMyPokemonRequest as NexType>::wire(v) == <DownloadMyPokemonRequestFields as NexType>::wire(v),
            <DownloadMyPokemonRequest as NexType>::parse(s) == <DownloadMyPokemonRequestFields as NexType>::parse(s),
    {
    }
}

/// The reply to DownloadMyPokemon.
#[derive(Debug, Clone, PartialEq, Eq, Default)]
pub struct DownloadMyPokemonResponse {
    pub p_result: GlobalTradeStationDownloadMyPokemonResult,
}

/// The fields of `DownloadMyPokemonResponse`, in wire order.
type DownloadMyPokemonResponseFields = GlobalTradeStationDownloadMyPokemonResult;

impl View for DownloadMyPokemonResponse {
    type V = <DownloadMyPokemonResponseFields as View>::V;

    open spec fn view(&self) -> Self::V {
        self.p_result@
    }
}

impl NexType for DownloadMyPokemonResponse {
    open spec fn valid(v: Self::V) -> bool {
        <DownloadMyPokemonResponseFields as NexType>::valid(v)
    }

    closed spec fn wire(v: Self::V) -> Seq<u8> {
        <DownloadMyPokemonResponseFields as NexType>::wire(v)
    }

    closed spec fn parse(s: Seq<u8>) -> Result<(Self::V, nat), DecodeError> {
        <DownloadMyPokemonResponseFields as NexType>::parse(s)
    }

    proof fn lemma_round_trip(v: Self::V, more: Seq<u8>) {
        <DownloadMyPokemonResponseFields as NexType>::lemma_round_trip(v, more);
    }

    fn encode(&self, out: &mut Vec<u8>) {
        self.p_result.encode(out);
    }

    fn decode(data: &[u8], pos: &mut usize) -> (r: Result<DownloadMyPokemonResponse, DecodeError>) {
        match <DownloadMyPokemonResponseFields as NexType>::decode(data, pos) {
            Ok(p_result) => Ok(DownloadMyPokemonResponse { p_result }),
            Err(e) => Err(e),
        }
    }
}

impl DownloadMyPokemonResponse {
    /// The record is encoded as its one field, and decoded as it.
    pub proof fn lemma_layout(v: <DownloadMyPokemonResponse as View>::V, s: Seq<u8>)
        ensures
            <DownloadMyPokemonResponse as NexType>::valid(v) == <DownloadMyPokemonResponseFields as NexType>::valid(v),
            <DownloadMyPokemonResponse as NexType>::wire(v) == <DownloadMyPokemonResponseFields as NexType>::wire(v),
            <DownloadMyPokemonResponse as NexType>::parse(s) == <DownloadMyPokemonResponseFields as NexType>::parse(s),
    {
    }
}

/// The parameters of DeletePokemon.
#[derive(Debug, Clone, PartialEq, Eq, Default)]
pub struct DeletePokemonRequest {
    pub param: GlobalTradeStationDeletePokemonParam,
}

/// The fields of `DeletePokemonRequest`, in wire order.
type DeletePokemonRequestFields = GlobalTradeStationDeletePokemonParam;

impl View for DeletePokemonRequest {
    type V = <DeletePokemonRequestFields as View>::V;

    open spec fn view(&self) -> Self::V {
        self.param@
    }
}

impl NexType for DeletePokemonRequest {
    open spec fn valid(v: Self::V) -> bool {
        <DeletePokemonRequestFields as NexType>::valid(v)
    }

    closed spec fn wire(v: Self::V) -> Seq<u8> {
        <DeletePokemonRequestFields as NexType>::wire(v)
    }

    closed spec fn parse(s: Seq<u8>) -> Result<(Self::V, nat), DecodeError> {
        <DeletePokemonRequestFields as NexType>::parse(s)
    }

    proof fn lemma_round_trip(v: Self::V, more: Seq<u8>) {
        <DeletePokemonRequestFields as NexType>::lemma_round_trip(v, more);
    }

    fn encode(&self, out: &mut Vec<u8>) {
        self.param.encode(out);
    }

    fn decode(data: &[u8], pos: &mut usize) -> (r: Result<DeletePokemonRequest, DecodeError>) {
        match <DeletePokemonRequestFields as NexType>::decode(data, pos) {
            Ok(param) => Ok(DeletePokemonRequest { param }),
            Err(e) => Err(e),
        }
    }
}

impl DeletePokemonRequest {
    /// The record is encoded as its one field, and decoded as it.
    pub proof fn lemma_layout(v: <DeletePokemonRequest as View>::V, s: Seq<u8>)
        ensures
            <DeletePokemonRequest as NexType>::valid(v) == <DeletePokemonRequestFields as NexType>::valid(v),
            <DeletePokemonRequest as NexType>::wire(v) == <DeletePokemonRequestFields as NexType>::wire(v),
            <DeletePokemonRequest as NexType>::parse(s) == <DeletePokemonRequestFields as NexType>::parse(s),
    {
    }
}

/// The parameters of SearchPokemonV2.
#[derive(Debug, Clone, PartialEq, Eq, Default)]
pub struct SearchPokemonV2Request {
    pub param: GlobalTradeStationSearchPokemonParam,
}

/// The fields of `SearchPokemonV2Request`, in wire order.
type SearchPokemonV2RequestFields = GlobalTradeStationSearchPokemonParam;

impl View for SearchPokemonV2Request {
    type V = <SearchPokemonV2RequestFields as View>::V;

    open spec fn view(&self) -> Self::V {
        self.param@
    }
}

impl NexType for SearchPokemonV2Request {
    open spec fn valid(v: Self::V) -> bool {
        <SearchPokemonV2RequestFields as NexType>::valid(v)
    }

    closed spec fn wire(v: Self::V) -> Seq<u8> {
        <SearchPokemonV2RequestFields as NexType>::wire(v)
    }

    closed spec fn parse(s: Seq<u8>) -> Result<(Self::V, nat), DecodeError> {
        <SearchPokemonV2RequestFields as NexType>::parse(s)
    }

    proof fn lemma_round_trip(v: Self::V, more: Seq<u8>) {
        <SearchPokemonV2RequestFields as NexType>::lemma_round_trip(v, more);
    }

    fn encode(&self, out: &mut Vec<u8>) {
        self.param.encode(out);
    }

    fn decode(data: &[u8], pos: &mut usize) -> (r: Result<SearchPokemonV2Request, DecodeError>) {
        match <SearchPokemonV2RequestFields as NexType>::decode(data, pos) {
            Ok(param) => Ok(SearchPokemonV2Request { param }),
            Err(e) => Err(e),
        }
    }
}

impl SearchPokemonV2Request {
    /// The record is encoded as its one field, and decoded as it.
    pub proof fn lemma_layout(v: <SearchPokemonV2Request as View>::V, s: Seq<u8>)
        ensures
            <SearchPokemonV2Request as NexType>::valid(v) == <SearchPokemonV2RequestFields as NexType>::valid(v),
            <SearchPokemonV2Request as NexType>::wire(v) == <SearchPokemonV2RequestFields as NexType>::wire(v),
            <SearchPokemonV2Request as NexType>::parse(s) == <SearchPokemonV2RequestFields as NexType>::parse(s),
    {
    }
}

/// The reply to SearchPokemonV2.
#[derive(Debug, Clone, PartialEq, Eq, Default)]
pub struct SearchPokemonV2Response {
    pub p_result: GlobalTradeStationSearchPokemonResult,
}

/// The fields of `SearchPokemonV2Response`, in wire order.
type SearchPokemonV2ResponseFields = GlobalTradeStationSearchPokemonResult;

impl View for SearchPokemonV2Response {
    type V = <SearchPokemonV2ResponseFields as View>::V;

    open spec fn view(&self) -> Self::V {
        self.p_result@
    }
}

impl NexType for SearchPokemonV2Response {
    open spec fn valid(v: Self::V) -> bool {
        <SearchPokemonV2ResponseFields as NexType>::valid(v)
    }

    closed spec fn wire(v: Self::V) -> Seq<u8> {
        <SearchPokemonV2ResponseFields as NexType>::wire(v)
    }

    closed spec fn parse(s: Seq<u8>) -> Result<(Self::V, nat), DecodeError> {
        <SearchPokemonV2ResponseFields as NexType>::parse(s)
    }

    proof fn lemma_round_trip(v: Self::V, more: Seq<u8>) {
        <SearchPokemonV2ResponseFields as NexType>::lemma_round_trip(v, more);
    }

    fn encode(&self, out: &mut Vec<u8>) {
        self.p_result.encode(out);
    }

    fn decode(data: &[u8], pos: &mut usize) -> (r: Result<SearchPokemonV2Response, DecodeError>) {
        match <SearchPokemonV2ResponseFields as NexType>::decode(data, pos) {
            Ok(p_result) => Ok(SearchPokemonV2Response { p_result }),
            Err(e) => Err(e),
        }
    }
}

impl SearchPokemonV2Response {
    /// The record is encoded as its one field, and decoded as it.
    pub proof fn lemma_layout(v: <SearchPokemonV2Response as View>::V, s: Seq<u8>)
        ensures
            <SearchPokemonV2Response as NexType>::valid(v) == <SearchPokemonV2ResponseFields as NexType>::valid(v),
            <SearchPokemonV2Response as NexType>::wire(v) == <SearchPokemonV2ResponseFields as NexType>::wire(v),
            <SearchPokemonV2Response as NexType>::parse(s) == <SearchPokemonV2ResponseFields as NexType>::parse(s),
    {
    }
}

} // verus!
