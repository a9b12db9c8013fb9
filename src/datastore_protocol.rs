//! The data-store protocol: its method table and the extraction of each
//! method's parameters, which are one record decoded from the start of the
//! parameter buffer.

use crate::datastore_types::{ChangeMetasRequest, DeletePokemonRequest, DownloadMyPokemonRequest, DownloadOtherPokemonRequest, GetMetasRequest, PostMetaBinaryRequest, PrepareTradePokemonRequest, RateObjectRequest, SearchPokemonV2Request, TradePokemonRequest, UploadPokemonRequest};
use crate::extract::{extract_params, parse_params, ExtractError};
use vstd::prelude::*;

verus! {

/// The protocol id of the data store.
pub const DATASTORE_PROTOCOL_ID: u8 = 0x73;

/// The methods of the data-store protocol.
#[derive(Debug, Clone, Copy, PartialEq, Eq, Structural)]
pub enum DataStoreMethod {
    GetMetas,
    RateObject,
    PostMetaBinary,
    ChangeMetas,
    PrepareUploadPokemon,
    UploadPokemon,
    PrepareTradePokemon,
    TradePokemon,
    DownloadOtherPokemon,
    DownloadMyPokemon,
    DeletePokemon,
    SearchPokemonV2,
}

impl DataStoreMethod {
    /// The method id on the wire.
    pub open spec fn spec_id(self) -> u32 {
        match self {
            DataStoreMethod::GetMetas => 0x9,
            DataStoreMethod::RateObject => 0xF,
            DataStoreMethod::PostMetaBinary => 0x15,
            DataStoreMethod::ChangeMetas => 0x27,
            DataStoreMethod::PrepareUploadPokemon => 0x2F,
            DataStoreMethod::UploadPokemon => 0x30,
            DataStoreMethod::PrepareTradePokemon => 0x32,
            DataStoreMethod::TradePokemon => 0x33,
            DataStoreMethod::DownloadOtherPokemon => 0x34,
            DataStoreMethod::DownloadMyPokemon => 0x35,
            DataStoreMethod::DeletePokemon => 0x36,
            DataStoreMethod::SearchPokemonV2 => 0x37,
        }
    }

    pub fn id(self) -> (r: u32)
        ensures
            r == self.spec_id(),
    {
        match self {
            DataStoreMethod::GetMetas => 0x9,
            DataStoreMethod::RateObject => 0xF,
            DataStoreMethod::PostMetaBinary => 0x15,
            DataStoreMethod::ChangeMetas => 0x27,
            DataStoreMethod::PrepareUploadPokemon => 0x2F,
            DataStoreMethod::UploadPokemon => 0x30,
            DataStoreMethod::PrepareTradePokemon => 0x32,
            DataStoreMethod::TradePokemon => 0x33,
            DataStoreMethod::DownloadOtherPokemon => 0x34,
            DataStoreMethod::DownloadMyPokemon => 0x35,
            DataStoreMethod::DeletePokemon => 0x36,
            DataStoreMethod::SearchPokemonV2 => 0x37,
        }
    }

    /// The method with id `id`, if there is one.
    pub open spec fn spec_from_id(id: u32) -> Option<DataStoreMethod> {
        if id == 0x9 {
            Some(DataStoreMethod::GetMetas)
        } else if id == 0xF {
            Some(DataStoreMethod::RateObject)
        } else if id == 0x15 {
            Some(DataStoreMethod::PostMetaBinary)
        } else if id == 0x27 {
            Some(DataStoreMethod::ChangeMetas)
        } else if id == 0x2F {
            Some(DataStoreMethod::PrepareUploadPokemon)
        } else if id == 0x30 {
            Some(DataStoreMethod::UploadPokemon)
        } else if id == 0x32 {
            Some(DataStoreMethod::PrepareTradePokemon)
        } else if id == 0x33 {
            Some(DataStoreMethod::TradePokemon)
        } else if id == 0x34 {
            Some(DataStoreMethod::DownloadOtherPokemon)
        } else if id == 0x35 {
            Some(DataStoreMethod::DownloadMyPokemon)
        } else if id == 0x36 {
            Some(DataStoreMethod::DeletePokemon)
        } else if id == 0x37 {
            Some(DataStoreMethod::SearchPokemonV2)
        } else {
            None
        }
    }

    /// The method with id `id`, if there is one.
    pub fn from_id(id: u32) -> (r: Option<DataStoreMethod>)
        ensures
            r == Self::spec_from_id(id),
            match r {
                Some(m) => m.spec_id() == id,
                None => forall|m: DataStoreMethod| m.spec_id() != id,
            },
    {
        if id == 0x9 {
            Some(DataStoreMethod::GetMetas)
        } else if id == 0xF {
            Some(DataStoreMethod::RateObject)
        } else if id == 0x15 {
            Some(DataStoreMethod::PostMetaBinary)
        } else if id == 0x27 {
            Some(DataStoreMethod::ChangeMetas)
        } else if id == 0x2F {
            Some(DataStoreMethod::PrepareUploadPokemon)
        } else if id == 0x30 {
            Some(DataStoreMethod::UploadPokemon)
        } else if id == 0x32 {
            Some(DataStoreMethod::PrepareTradePokemon)
        } else if id == 0x33 {
            Some(DataStoreMethod::TradePokemon)
        } else if id == 0x34 {
            Some(DataStoreMethod::DownloadOtherPokemon)
        } else if id == 0x35 {
            Some(DataStoreMethod::DownloadMyPokemon)
        } else if id == 0x36 {
            Some(DataStoreMethod::DeletePokemon)
        } else if id == 0x37 {
            Some(DataStoreMethod::SearchPokemonV2)
        } else {
            None
        }
    }
}

/// A decoded data-store call: the method and its parameter record.
#[derive(Debug, Clone, PartialEq, Eq)]
pub enum DataStoreCall {
    GetMetas(GetMetasRequest),
    RateObject(RateObjectRequest),
    PostMetaBinary(PostMetaBinaryRequest),
    ChangeMetas(ChangeMetasRequest),
    PrepareUploadPokemon,
    UploadPokemon(UploadPokemonRequest),
    PrepareTradePokemon(PrepareTradePokemonRequest),
    TradePokemon(TradePokemonRequest),
    DownloadOtherPokemon(DownloadOtherPokemonRequest),
    DownloadMyPokemon(DownloadMyPokemonRequest),
    DeletePokemon(DeletePokemonRequest),
    SearchPokemonV2(SearchPokemonV2Request),
}

/// The model of a decoded data-store call.
pub enum DataStoreArgs {
    GetMetas(<GetMetasRequest as View>::V),
    RateObject(<RateObjectRequest as View>::V),
    PostMetaBinary(<PostMetaBinaryRequest as View>::V),
    ChangeMetas(<ChangeMetasRequest as View>::V),
    PrepareUploadPokemon,
    UploadPokemon(<UploadPokemonRequest as View>::V),
    PrepareTradePokemon(<PrepareTradePokemonRequest as View>::V),
    TradePokemon(<TradePokemonRequest as View>::V),
    DownloadOtherPokemon(<DownloadOtherPokemonRequest as View>::V),
    DownloadMyPokemon(<DownloadMyPokemonRequest as View>::V),
    DeletePokemon(<DeletePokemonRequest as View>::V),
    SearchPokemonV2(<SearchPokemonV2Request as View>::V),
}

impl View for DataStoreCall {
    type V = DataStoreArgs;

    open spec fn view(&self) -> DataStoreArgs {
        match self {
            DataStoreCall::GetMetas(p) => DataStoreArgs::GetMetas(p@),
            DataStoreCall::RateObject(p) => DataStoreArgs::RateObject(p@),
            DataStoreCall::PostMetaBinary(p) => DataStoreArgs::PostMetaBinary(p@),
            DataStoreCall::ChangeMetas(p) => DataStoreArgs::ChangeMetas(p@),
            DataStoreCall::PrepareUploadPokemon => DataStoreArgs::PrepareUploadPokemon,
            DataStoreCall::UploadPokemon(p) => DataStoreArgs::UploadPokemon(p@),
            DataStoreCall::PrepareTradePokemon(p) => DataStoreArgs::PrepareTradePokemon(p@),
            DataStoreCall::TradePokemon(p) => DataStoreArgs::TradePokemon(p@),
            DataStoreCall::DownloadOtherPokemon(p) => DataStoreArgs::DownloadOtherPokemon(p@),
            DataStoreCall::DownloadMyPokemon(p) => DataStoreArgs::DownloadMyPokemon(p@),
            DataStoreCall::DeletePokemon(p) => DataStoreArgs::DeletePokemon(p@),
            DataStoreCall::SearchPokemonV2(p) => DataStoreArgs::SearchPokemonV2(p@),
        }
    }
}

/// The arguments of a data-store call of `method` with `params`.
pub open spec fn parse_datastore(method: DataStoreMethod, params: Seq<u8>) -> Result<
    DataStoreArgs,
    ExtractError,
> {
    match method {
        DataStoreMethod::GetMetas => match parse_params::<GetMetasRequest>(params) {
            Ok(p) => Ok(DataStoreArgs::GetMetas(p)),
            Err(e) => Err(e),
        },
        DataStoreMethod::RateObject => match parse_params::<RateObjectRequest>(params) {
            Ok(p) => Ok(DataStoreArgs::RateObject(p)),
            Err(e) => Err(e),
        },
        DataStoreMethod::PostMetaBinary => match parse_params::<PostMetaBinaryRequest>(params) {
            Ok(p) => Ok(DataStoreArgs::PostMetaBinary(p)),
            Err(e) => Err(e),
        },
        DataStoreMethod::ChangeMetas => match parse_params::<ChangeMetasRequest>(params) {
            Ok(p) => Ok(DataStoreArgs::ChangeMetas(p)),
            Err(e) => Err(e),
        },
        DataStoreMethod::PrepareUploadPokemon => Ok(DataStoreArgs::PrepareUploadPokemon),
        DataStoreMethod::UploadPokemon => match parse_params::<UploadPokemonRequest>(params) {
            Ok(p) => Ok(DataStoreArgs::UploadPokemon(p)),
            Err(e) => Err(e),
        },
        DataStoreMethod::PrepareTradePokemon => match parse_params::<PrepareTradePokemonRequest>(params) {
            Ok(p) => Ok(DataStoreArgs::PrepareTradePokemon(p)),
            Err(e) => Err(e),
        },
        DataStoreMethod::TradePokemon => match parse_params::<TradePokemonRequest>(params) {
            Ok(p) => Ok(DataStoreArgs::TradePokemon(p)),
            Err(e) => Err(e),
        },
        DataStoreMethod::DownloadOtherPokemon => match parse_params::<DownloadOtherPokemonRequest>(params) {
            Ok(p) => Ok(DataStoreArgs::DownloadOtherPokemon(p)),
            Err(e) => Err(e),
        },
        DataStoreMethod::DownloadMyPokemon => match parse_params::<DownloadMyPokemonRequest>(params) {
            Ok(p) => Ok(DataStoreArgs::DownloadMyPokemon(p)),
            Err(e) => Err(e),
        },
        DataStoreMethod::DeletePokemon => match parse_params::<DeletePokemonRequest>(params) {
            Ok(p) => Ok(DataStoreArgs::DeletePokemon(p)),
            Err(e) => Err(e),
        },
        DataStoreMethod::SearchPokemonV2 => match parse_params::<SearchPokemonV2Request>(params) {
            Ok(p) => Ok(DataStoreArgs::SearchPokemonV2(p)),
            Err(e) => Err(e),
        },
    }
}

/// Extracts the arguments of a data-store call of `method`.
pub fn extract_datastore(method: DataStoreMethod, params: &[u8]) -> (r: Result<
    DataStoreCall,
    ExtractError,
>)
    ensures
        match parse_datastore(method, params@) {
            Ok(a) => r is Ok && r->Ok_0@ == a,
            Err(e) => r is Err && r->Err_0 == e,
        },
{
    match method {
        DataStoreMethod::GetMetas => match extract_params::<GetMetasRequest>(params) {
            Ok(p) => Ok(DataStoreCall::GetMetas(p)),
            Err(e) => Err(e),
        },
        DataStoreMethod::RateObject => match extract_params::<RateObjectRequest>(params) {
            Ok(p) => Ok(DataStoreCall::RateObject(p)),
            Err(e) => Err(e),
        },
        DataStoreMethod::PostMetaBinary => match extract_params::<PostMetaBinaryRequest>(params) {
            Ok(p) => Ok(DataStoreCall::PostMetaBinary(p)),
            Err(e) => Err(e),
        },
        DataStoreMethod::ChangeMetas => match extract_params::<ChangeMetasRequest>(params) {
            Ok(p) => Ok(DataStoreCall::ChangeMetas(p)),
            Err(e) => Err(e),
        },
        DataStoreMethod::PrepareUploadPokemon => Ok(DataStoreCall::PrepareUploadPokemon),
        DataStoreMethod::UploadPokemon => match extract_params::<UploadPokemonRequest>(params) {
            Ok(p) => Ok(DataStoreCall::UploadPokemon(p)),
            Err(e) => Err(e),
        },
        DataStoreMethod::PrepareTradePokemon => match extract_params::<PrepareTradePokemonRequest>(params) {
            Ok(p) => Ok(DataStoreCall::PrepareTradePokemon(p)),
            Err(e) => Err(e),
        },
        DataStoreMethod::TradePokemon => match extract_params::<TradePokemonRequest>(params) {
            Ok(p) => Ok(DataStoreCall::TradePokemon(p)),
            Err(e) => Err(e),
        },
        DataStoreMethod::DownloadOtherPokemon => match extract_params::<DownloadOtherPokemonRequest>(params) {
            Ok(p) => Ok(DataStoreCall::DownloadOtherPokemon(p)),
            Err(e) => Err(e),
        },
        DataStoreMethod::DownloadMyPokemon => match extract_params::<DownloadMyPokemonRequest>(params) {
            Ok(p) => Ok(DataStoreCall::DownloadMyPokemon(p)),
            Err(e) => Err(e),
        },
        DataStoreMethod::DeletePokemon => match extract_params::<DeletePokemonRequest>(params) {
            Ok(p) => Ok(DataStoreCall::DeletePokemon(p)),
            Err(e) => Err(e),
        },
        DataStoreMethod::SearchPokemonV2 => match extract_params::<SearchPokemonV2Request>(params) {
            Ok(p) => Ok(DataStoreCall::SearchPokemonV2(p)),
            Err(e) => Err(e),
        },
    }
}

} // verus!
