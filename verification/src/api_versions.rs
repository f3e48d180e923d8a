//! ApiVersions (key 18, version 1): the broker advertises, per API key,
//! the version interval it accepts.

use vstd::prelude::*;
use crate::buffer_reader::{BufferReader, DecodeError};
use crate::request::ToBytes;
use crate::response::{dec_array, read_array, views_of, FromBytes};
use crate::wire::{dec_i16, dec_i32};

verus! {

/// One advertised entry: `api_key min_version max_version`.
#[derive(Debug, Copy, Clone, PartialEq, Eq, Structural)]
pub struct ApiVersion {
    pub api_key: i16,
    pub min_version: i16,
    pub max_version: i16,
}

impl FromBytes for ApiVersion {
    type V = ApiVersion;

    open spec fn view_of(self) -> ApiVersion {
        self
    }

    open spec fn spec_dec(s: Seq<u8>, i: int) -> Option<(ApiVersion, int)> {
        match dec_i16(s, i) {
            Option::None => Option::None,
            Option::Some((api_key, j)) => match dec_i16(s, j) {
                Option::None => Option::None,
                Option::Some((min_version, k)) => match dec_i16(s, k) {
                    Option::None => Option::None,
                    Option::Some((max_version, m)) => Option::Some(
                        (ApiVersion { api_key, min_version, max_version }, m),
                    ),
                },
            },
        }
    }

    fn get_from_bytes(reader: &mut BufferReader) -> (r: Result<Self, DecodeError>) {
        let pos0 = reader.pos;
        let api_key = match reader.read_int16() {
            Result::Ok(v) => v,
            Result::Err(e) => {
                return Result::Err(e);
            },
        };
        let min_version = match reader.read_int16() {
            Result::Ok(v) => v,
            Result::Err(e) => {
                reader.pos = pos0;
                return Result::Err(e);
            },
        };
        let max_version = match reader.read_int16() {
            Result::Ok(v) => v,
            Result::Err(e) => {
                reader.pos = pos0;
                return Result::Err(e);
            },
        };
        Result::Ok(ApiVersion { api_key, min_version, max_version })
    }
}

/// The request body is empty in version 1.
#[derive(Debug, Clone)]
pub struct ApiVersionsRequest {}

impl ToBytes for ApiVersionsRequest {
    open spec fn wf(&self) -> bool {
        true
    }

    open spec fn spec_bytes(&self) -> Seq<u8> {
        Seq::<u8>::empty()
    }

    fn get_in_bytes(&self) -> (r: Vec<u8>) {
        Vec::new()
    }
}

/// `error_code [api_keys] throttle_time_ms`.
#[derive(Debug, Clone)]
pub struct ApiVersionsResponse {
    pub error_code: i16,
    pub api_versions: Vec<ApiVersion>,
    pub throttle_time_ms: i32,
}

impl ApiVersionsResponse {
    pub fn new() -> (r: Self)
        ensures
            r.error_code == 0,
            r.api_versions@ == Seq::<ApiVersion>::empty(),
            r.throttle_time_ms == 0,
    {
        Self { error_code: 0, api_versions: Vec::new(), throttle_time_ms: 0 }
    }
}

/// The abstract model of an `ApiVersionsResponse`.
pub struct ApiVersionsResponseV {
    pub error_code: i16,
    pub api_versions: Seq<ApiVersion>,
    pub throttle_time_ms: i32,
}

impl FromBytes for ApiVersionsResponse {
    type V = ApiVersionsResponseV;

    open spec fn view_of(self) -> ApiVersionsResponseV {
        ApiVersionsResponseV {
            error_code: self.error_code,
            api_versions: views_of(self.api_versions@),
            throttle_time_ms: self.throttle_time_ms,
        }
    }

    open spec fn spec_dec(s: Seq<u8>, i: int) -> Option<(ApiVersionsResponseV, int)> {
        match dec_i16(s, i) {
            Option::None => Option::None,
            Option::Some((error_code, j)) => match dec_array::<ApiVersion>(s, j) {
                Option::None => Option::None,
                Option::Some((entries, k)) => match dec_i32(s, k) {
                    Option::None => Option::None,
                    Option::Some((throttle_time_ms, m)) => Option::Some(
                        (
                            ApiVersionsResponseV {
                                error_code,
                                api_versions: entries,
                                throttle_time_ms,
                            },
                            m,
                        ),
                    ),
                },
            },
        }
    }

    fn get_from_bytes(reader: &mut BufferReader) -> (r: Result<Self, DecodeError>) {
        let pos0 = reader.pos;
        let error_code = match reader.read_int16() {
            Result::Ok(v) => v,
            Result::Err(e) => {
                return Result::Err(e);
            },
        };
        let api_versions = match read_array::<ApiVersion>(reader) {
            Result::Ok(v) => v,
            Result::Err(e) => {
                reader.pos = pos0;
                return Result::Err(e);
            },
        };
        let throttle_time_ms = match reader.read_int32() {
            Result::Ok(v) => v,
            Result::Err(e) => {
                reader.pos = pos0;
                return Result::Err(e);
            },
        };
        Result::Ok(ApiVersionsResponse { error_code, api_versions, throttle_time_ms })
    }
}

} // verus!
