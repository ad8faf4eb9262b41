//! Per-field decode rules applied during a validating parse pass.
//!
//! Each rule is a small explicit function, so the coercion rules stay
//! auditable and independent of any serialization framework: required fields
//! fail on absence, backward-compatibility fields default to their zero
//! value, and option-typed fields stay absent.

use crate::error::Error;
use crate::json::{jview_obj, lemma_jview_cases, lookup, spec_lookup, Json, JsonV};
use crate::num::spec_parse_u64;
use vstd::prelude::*;

verus! {

/// Required string field: absence is an error.
pub open spec fn req_str(m: Seq<(Seq<char>, JsonV)>, k: Seq<char>) -> Result<Seq<char>, Error> {
    match spec_lookup(m, k) {
        Some(JsonV::Str(s)) => Ok(s),
        Some(_) => Err(Error::UnexpectedType),
        None => Err(Error::MissingField),
    }
}

/// Backward-compatibility string field: absence yields the empty string.
pub open spec fn dfl_str(m: Seq<(Seq<char>, JsonV)>, k: Seq<char>) -> Result<Seq<char>, Error> {
    match spec_lookup(m, k) {
        Some(JsonV::Str(s)) => Ok(s),
        Some(_) => Err(Error::UnexpectedType),
        None => Ok(Seq::empty()),
    }
}

/// Option-typed string field: absence stays absent.
pub open spec fn opt_str(m: Seq<(Seq<char>, JsonV)>, k: Seq<char>) -> Result<
    Option<Seq<char>>,
    Error,
> {
    match spec_lookup(m, k) {
        Some(JsonV::Str(s)) => Ok(Some(s)),
        Some(_) => Err(Error::UnexpectedType),
        None => Ok(None),
    }
}

/// Required unsigned 64-bit number field: absence is an error.
pub open spec fn req_u64(m: Seq<(Seq<char>, JsonV)>, k: Seq<char>) -> Result<u64, Error> {
    match spec_lookup(m, k) {
        Some(JsonV::UInt(n)) => Ok(n),
        Some(_) => Err(Error::UnexpectedType),
        None => Err(Error::MissingField),
    }
}

/// Backward-compatibility number field: absence yields zero.
pub open spec fn dfl_u64(m: Seq<(Seq<char>, JsonV)>, k: Seq<char>) -> Result<u64, Error> {
    match spec_lookup(m, k) {
        Some(JsonV::UInt(n)) => Ok(n),
        Some(_) => Err(Error::UnexpectedType),
        None => Ok(0),
    }
}

/// Required number field that must fit in 32 bits.
pub open spec fn req_u32(m: Seq<(Seq<char>, JsonV)>, k: Seq<char>) -> Result<u32, Error> {
    match spec_lookup(m, k) {
        Some(JsonV::UInt(n)) => if n <= u32::MAX {
            Ok(n as u32)
        } else {
            Err(Error::UnexpectedType)
        },
        Some(_) => Err(Error::UnexpectedType),
        None => Err(Error::MissingField),
    }
}

/// Required number field that must fit in 8 bits.
pub open spec fn req_u8(m: Seq<(Seq<char>, JsonV)>, k: Seq<char>) -> Result<u8, Error> {
    match spec_lookup(m, k) {
        Some(JsonV::UInt(n)) => if n <= u8::MAX {
            Ok(n as u8)
        } else {
            Err(Error::UnexpectedType)
        },
        Some(_) => Err(Error::UnexpectedType),
        None => Err(Error::MissingField),
    }
}

/// Required boolean field: absence is an error.
pub open spec fn req_bool(m: Seq<(Seq<char>, JsonV)>, k: Seq<char>) -> Result<bool, Error> {
    match spec_lookup(m, k) {
        Some(JsonV::Bool(b)) => Ok(b),
        Some(_) => Err(Error::UnexpectedType),
        None => Err(Error::MissingField),
    }
}

/// Required numeric field transmitted as a string: the dedicated
/// string-to-integer coercion, whose failure is an error of its own kind.
pub open spec fn req_u64_str(m: Seq<(Seq<char>, JsonV)>, k: Seq<char>) -> Result<u64, Error> {
    match req_str(m, k) {
        Ok(s) => match spec_parse_u64(s) {
            Some(n) => Ok(n),
            None => Err(Error::InvalidNumericString),
        },
        Err(e) => Err(e),
    }
}

/// Required object field.
pub open spec fn req_obj(m: Seq<(Seq<char>, JsonV)>, k: Seq<char>) -> Result<
    Seq<(Seq<char>, JsonV)>,
    Error,
> {
    match spec_lookup(m, k) {
        Some(JsonV::Obj(f)) => Ok(f),
        Some(_) => Err(Error::UnexpectedType),
        None => Err(Error::MissingField),
    }
}

/// Required array field.
pub open spec fn req_arr(m: Seq<(Seq<char>, JsonV)>, k: Seq<char>) -> Result<Seq<JsonV>, Error> {
    match spec_lookup(m, k) {
        Some(JsonV::Arr(a)) => Ok(a),
        Some(_) => Err(Error::UnexpectedType),
        None => Err(Error::MissingField),
    }
}

pub fn get_req_str(fields: &Vec<(String, Json)>, key: &String) -> (r: Result<String, Error>)
    ensures
        match r {
            Ok(s) => req_str(jview_obj(fields@), key@) == Ok::<Seq<char>, Error>(s@),
            Err(e) => req_str(jview_obj(fields@), key@) == Err::<Seq<char>, Error>(e),
        },
{
    match lookup(fields, key) {
        Some(j) => {
            proof {
                lemma_jview_cases(*j);
            }
            match j {
                Json::Str(s) => Ok(s.clone()),
                _ => Err(Error::UnexpectedType),
            }
        },
        None => Err(Error::MissingField),
    }
}

pub fn get_dfl_str(fields: &Vec<(String, Json)>, key: &String) -> (r: Result<String, Error>)
    ensures
        match r {
            Ok(s) => dfl_str(jview_obj(fields@), key@) == Ok::<Seq<char>, Error>(s@),
            Err(e) => dfl_str(jview_obj(fields@), key@) == Err::<Seq<char>, Error>(e),
        },
{
    match lookup(fields, key) {
        Some(j) => {
            proof {
                lemma_jview_cases(*j);
            }
            match j {
                Json::Str(s) => Ok(s.clone()),
                _ => Err(Error::UnexpectedType),
            }
        },
        None => Ok(String::new()),
    }
}

pub fn get_opt_str(fields: &Vec<(String, Json)>, key: &String) -> (r: Result<
    Option<String>,
    Error,
>)
    ensures
        match r {
            Ok(s) => opt_str(jview_obj(fields@), key@) == Ok::<Option<Seq<char>>, Error>(
                match s {
                    Some(t) => Some(t@),
                    None => None,
                },
            ),
            Err(e) => opt_str(jview_obj(fields@), key@) == Err::<Option<Seq<char>>, Error>(e),
        },
{
    match lookup(fields, key) {
        Some(j) => {
            proof {
                lemma_jview_cases(*j);
            }
            match j {
                Json::Str(s) => Ok(Some(s.clone())),
                _ => Err(Error::UnexpectedType),
            }
        },
        None => Ok(None),
    }
}

pub fn get_req_u64(fields: &Vec<(String, Json)>, key: &String) -> (r: Result<u64, Error>)
    ensures
        match r {
            Ok(n) => req_u64(jview_obj(fields@), key@) == Ok::<u64, Error>(n),
            Err(e) => req_u64(jview_obj(fields@), key@) == Err::<u64, Error>(e),
        },
{
    match lookup(fields, key) {
        Some(j) => {
            proof {
                lemma_jview_cases(*j);
            }
            match j {
                Json::UInt(n) => Ok(*n),
                _ => Err(Error::UnexpectedType),
            }
        },
        None => Err(Error::MissingField),
    }
}

pub fn get_dfl_u64(fields: &Vec<(String, Json)>, key: &String) -> (r: Result<u64, Error>)
    ensures
        match r {
            Ok(n) => dfl_u64(jview_obj(fields@), key@) == Ok::<u64, Error>(n),
            Err(e) => dfl_u64(jview_obj(fields@), key@) == Err::<u64, Error>(e),
        },
{
    match lookup(fields, key) {
        Some(j) => {
            proof {
                lemma_jview_cases(*j);
            }
            match j {
                Json::UInt(n) => Ok(*n),
                _ => Err(Error::UnexpectedType),
            }
        },
        None => Ok(0),
    }
}

pub fn get_req_u32(fields: &Vec<(String, Json)>, key: &String) -> (r: Result<u32, Error>)
    ensures
        match r {
            Ok(n) => req_u32(jview_obj(fields@), key@) == Ok::<u32, Error>(n),
            Err(e) => req_u32(jview_obj(fields@), key@) == Err::<u32, Error>(e),
        },
{
    match get_req_u64(fields, key) {
        Ok(n) => if n <= 0xffff_ffff {
            Ok(n as u32)
        } else {
            Err(Error::UnexpectedType)
        },
        Err(e) => Err(e),
    }
}

pub fn get_req_u8(fields: &Vec<(String, Json)>, key: &String) -> (r: Result<u8, Error>)
    ensures
        match r {
            Ok(n) => req_u8(jview_obj(fields@), key@) == Ok::<u8, Error>(n),
            Err(e) => req_u8(jview_obj(fields@), key@) == Err::<u8, Error>(e),
        },
{
    match get_req_u64(fields, key) {
        Ok(n) => if n <= 0xff {
            Ok(n as u8)
        } else {
            Err(Error::UnexpectedType)
        },
        Err(e) => Err(e),
    }
}

pub fn get_req_bool(fields: &Vec<(String, Json)>, key: &String) -> (r: Result<bool, Error>)
    ensures
        match r {
            Ok(b) => req_bool(jview_obj(fields@), key@) == Ok::<bool, Error>(b),
            Err(e) => req_bool(jview_obj(fields@), key@) == Err::<bool, Error>(e),
        },
{
    match lookup(fields, key) {
        Some(j) => {
            proof {
                lemma_jview_cases(*j);
            }
            match j {
                Json::Bool(b) => Ok(*b),
                _ => Err(Error::UnexpectedType),
            }
        },
        None => Err(Error::MissingField),
    }
}

pub fn get_req_u64_str(fields: &Vec<(String, Json)>, key: &String) -> (r: Result<u64, Error>)
    ensures
        match r {
            Ok(n) => req_u64_str(jview_obj(fields@), key@) == Ok::<u64, Error>(n),
            Err(e) => req_u64_str(jview_obj(fields@), key@) == Err::<u64, Error>(e),
        },
{
    match get_req_str(fields, key) {
        Ok(s) => match crate::num::parse_u64(s.as_str()) {
            Ok(n) => Ok(n),
            Err(e) => Err(e),
        },
        Err(e) => Err(e),
    }
}

pub fn get_req_obj<'a>(fields: &'a Vec<(String, Json)>, key: &String) -> (r: Result<
    &'a Vec<(String, Json)>,
    Error,
>)
    ensures
        match r {
            Ok(f) => req_obj(jview_obj(fields@), key@) == Ok::<Seq<(Seq<char>, JsonV)>, Error>(
                jview_obj(f@),
            ),
            Err(e) => req_obj(jview_obj(fields@), key@) == Err::<Seq<(Seq<char>, JsonV)>, Error>(
                e,
            ),
        },
{
    match lookup(fields, key) {
        Some(j) => {
            proof {
                lemma_jview_cases(*j);
            }
            match j {
                Json::Obj(f) => Ok(f),
                _ => Err(Error::UnexpectedType),
            }
        },
        None => Err(Error::MissingField),
    }
}

pub fn get_req_arr<'a>(fields: &'a Vec<(String, Json)>, key: &String) -> (r: Result<
    &'a Vec<Json>,
    Error,
>)
    ensures
        match r {
            Ok(a) => req_arr(jview_obj(fields@), key@) == Ok::<Seq<JsonV>, Error>(
                crate::json::jview_seq(a@),
            ),
            Err(e) => req_arr(jview_obj(fields@), key@) == Err::<Seq<JsonV>, Error>(e),
        },
{
    match lookup(fields, key) {
        Some(j) => {
            proof {
                lemma_jview_cases(*j);
            }
            match j {
                Json::Arr(a) => Ok(a),
                _ => Err(Error::UnexpectedType),
            }
        },
        None => Err(Error::MissingField),
    }
}

} // verus!
