use crate::error::Error;
use crate::fields::{get_req_str, get_req_u64, req_str, req_u64};
use crate::json::{lemma_jview_cases, Json, JsonV};
use vstd::prelude::*;

verus! {

/// Abstract value of an asset record.
pub struct AssetV {
    pub asset_type: Seq<char>,
    pub asset_code: Seq<char>,
    pub asset_issuer: Seq<char>,
    pub amount: Seq<char>,
    pub num_accounts: u64,
    pub paging_token: Seq<char>,
}

/// One issued asset as listed by the API, with the outstanding amount and
/// the number of accounts holding it.
#[derive(Debug)]
pub struct Asset {
    asset_type: String,
    asset_code: String,
    asset_issuer: String,
    amount: String,
    num_accounts: u64,
    paging_token: String,
}

impl View for Asset {
    type V = AssetV;

    closed spec fn view(&self) -> AssetV {
        AssetV {
            asset_type: self.asset_type@,
            asset_code: self.asset_code@,
            asset_issuer: self.asset_issuer@,
            amount: self.amount@,
            num_accounts: self.num_accounts,
            paging_token: self.paging_token@,
        }
    }
}

/// Deserialization of one asset record: every field is required.
pub open spec fn spec_asset_from_json(j: JsonV) -> Result<AssetV, Error> {
    match j {
        JsonV::Obj(m) => match req_str(m, "asset_type"@) {
            Ok(asset_type) => match req_str(m, "asset_code"@) {
                Ok(asset_code) => match req_str(m, "asset_issuer"@) {
                    Ok(asset_issuer) => match req_str(m, "amount"@) {
                        Ok(amount) => match req_u64(m, "num_accounts"@) {
                            Ok(num_accounts) => match req_str(m, "paging_token"@) {
                                Ok(paging_token) => Ok(
                                    AssetV {
                                        asset_type,
                                        asset_code,
                                        asset_issuer,
                                        amount,
                                        num_accounts,
                                        paging_token,
                                    },
                                ),
                                Err(e) => Err(e),
                            },
                            Err(e) => Err(e),
                        },
                        Err(e) => Err(e),
                    },
                    Err(e) => Err(e),
                },
                Err(e) => Err(e),
            },
            Err(e) => Err(e),
        },
        _ => Err(Error::UnexpectedType),
    }
}

impl Asset {
    /// Deserializes an asset record from a JSON value.
    pub fn from_json(j: &Json) -> (r: Result<Asset, Error>)
        ensures
            match r {
                Ok(a) => spec_asset_from_json(j@) == Ok::<AssetV, Error>(a@),
                Err(e) => spec_asset_from_json(j@) == Err::<AssetV, Error>(e),
            },
    {
        proof {
            lemma_jview_cases(*j);
        }
        match j {
            Json::Obj(fields) => {
                let asset_type = match get_req_str(fields, &String::from_str("asset_type")) {
                    Ok(v) => v,
                    Err(e) => return Err(e),
                };
                let asset_code = match get_req_str(fields, &String::from_str("asset_code")) {
                    Ok(v) => v,
                    Err(e) => return Err(e),
                };
                let asset_issuer = match get_req_str(fields, &String::from_str("asset_issuer")) {
                    Ok(v) => v,
                    Err(e) => return Err(e),
                };
                let amount = match get_req_str(fields, &String::from_str("amount")) {
                    Ok(v) => v,
                    Err(e) => return Err(e),
                };
                let num_accounts = match get_req_u64(fields, &String::from_str("num_accounts")) {
                    Ok(v) => v,
                    Err(e) => return Err(e),
                };
                let paging_token = match get_req_str(fields, &String::from_str("paging_token")) {
                    Ok(v) => v,
                    Err(e) => return Err(e),
                };
                Ok(
                    Asset {
                        asset_type,
                        asset_code,
                        asset_issuer,
                        amount,
                        num_accounts,
                        paging_token,
                    },
                )
            },
            _ => Err(Error::UnexpectedType),
        }
    }

    /// Either `native`, `credit_alphanum4`, or `credit_alphanum12`.
    pub fn asset_type(&self) -> (r: &String)
        ensures
            r@ == self@.asset_type,
    {
        &self.asset_type
    }

    /// The code of the asset.
    pub fn asset_code(&self) -> (r: &String)
        ensures
            r@ == self@.asset_code,
    {
        &self.asset_code
    }

    /// The address of the asset's issuer.
    pub fn asset_issuer(&self) -> (r: &String)
        ensures
            r@ == self@.asset_issuer,
    {
        &self.asset_issuer
    }

    /// The outstanding amount of the asset.
    pub fn amount(&self) -> (r: &String)
        ensures
            r@ == self@.amount,
    {
        &self.amount
    }

    /// The number of accounts holding the asset.
    pub fn num_accounts(&self) -> (r: u64)
        ensures
            r == self@.num_accounts,
    {
        self.num_accounts
    }

    /// The paging token of this record in listed results.
    pub fn paging_token(&self) -> (r: &String)
        ensures
            r@ == self@.paging_token,
    {
        &self.paging_token
    }
}

} // verus!
