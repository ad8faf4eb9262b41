use crate::error::Error;
use crate::fields::{get_req_str, get_req_u32, req_str, req_u32};
use crate::json::{lemma_jview_cases, Json, JsonV};
use vstd::prelude::*;

verus! {

/// Abstract value of a signer record.
pub struct SignerV {
    pub weight: u32,
    pub key: Seq<char>,
    pub signer_type: Seq<char>,
}

/// One signer of an account, with its weight, public key and key type
/// (read from the wire key `type`).
#[derive(Debug)]
pub struct Signer {
    /// The signer's weight in threshold checks.
    pub weight: u32,
    key: String,
    signer_type: String,
}

impl View for Signer {
    type V = SignerV;

    closed spec fn view(&self) -> SignerV {
        SignerV { weight: self.weight, key: self.key@, signer_type: self.signer_type@ }
    }
}

/// Deserialization of one signer record: `weight`, `key` and `type` are all
/// required; `weight` must fit in 32 bits.
pub open spec fn spec_signer_from_json(j: JsonV) -> Result<SignerV, Error> {
    match j {
        JsonV::Obj(m) => match req_u32(m, "weight"@) {
            Ok(weight) => match req_str(m, "key"@) {
                Ok(key) => match req_str(m, "type"@) {
                    Ok(signer_type) => Ok(SignerV { weight, key, signer_type }),
                    Err(e) => Err(e),
                },
                Err(e) => Err(e),
            },
            Err(e) => Err(e),
        },
        _ => Err(Error::UnexpectedType),
    }
}

impl Signer {
    /// Creates a signer record from its parts.
    pub fn new(weight: u32, key: String, signer_type: String) -> (r: Signer)
        ensures
            r@ == (SignerV { weight, key: key@, signer_type: signer_type@ }),
    {
        Signer { weight, key, signer_type }
    }

    /// Deserializes a signer record from a JSON value.
    pub fn from_json(j: &Json) -> (r: Result<Signer, Error>)
        ensures
            match r {
                Ok(s) => spec_signer_from_json(j@) == Ok::<SignerV, Error>(s@),
                Err(e) => spec_signer_from_json(j@) == Err::<SignerV, Error>(e),
            },
    {
        proof {
            lemma_jview_cases(*j);
        }
        match j {
            Json::Obj(fields) => {
                let weight = match get_req_u32(fields, &String::from_str("weight")) {
                    Ok(v) => v,
                    Err(e) => return Err(e),
                };
                let key = match get_req_str(fields, &String::from_str("key")) {
                    Ok(v) => v,
                    Err(e) => return Err(e),
                };
                let signer_type = match get_req_str(fields, &String::from_str("type")) {
                    Ok(v) => v,
                    Err(e) => return Err(e),
                };
                Ok(Signer { weight, key, signer_type })
            },
            _ => Err(Error::UnexpectedType),
        }
    }

    /// The signer's public key.
    pub fn key(&self) -> (r: &String)
        ensures
            r@ == self@.key,
    {
        &self.key
    }

    /// The signer's key type discriminator, read from the wire key `type`.
    pub fn signer_type(&self) -> (r: &String)
        ensures
            r@ == self@.signer_type,
    {
        &self.signer_type
    }
}

impl PartialEq for Signer {
    /// Structural value equality over every field.
    fn eq(&self, other: &Signer) -> (r: bool) {
        self.weight == other.weight && self.key == other.key && self.signer_type
            == other.signer_type
    }
}

impl vstd::std_specs::cmp::PartialEqSpecImpl for Signer {
    open spec fn obeys_eq_spec() -> bool {
        true
    }

    open spec fn eq_spec(&self, other: &Signer) -> bool {
        self@ == other@
    }
}

} // verus!
