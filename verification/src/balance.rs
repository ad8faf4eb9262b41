use crate::error::Error;
use crate::fields::{
    dfl_str, dfl_u64, get_dfl_str, get_dfl_u64, get_opt_str, get_req_str, opt_str, req_str,
};
use crate::json::{jview_obj, lemma_jview_cases, spec_lookup, Json, JsonV};
use vstd::prelude::*;

verus! {

/// Abstract value of a balance record.
pub struct BalanceV {
    pub balance: Seq<char>,
    pub buying_liabilities: Seq<char>,
    pub selling_liabilities: Seq<char>,
    pub limit: Seq<char>,
    pub last_modified_ledger: u64,
    pub asset_type: Seq<char>,
    pub asset_code: Option<Seq<char>>,
    pub asset_issuer: Option<Seq<char>>,
}

/// The amount of one asset an account holds, with its liability aggregates
/// and, for non-native assets, the asset's code and issuer.
#[derive(Debug)]
pub struct Balance {
    balance: String,
    buying_liabilities: String,
    selling_liabilities: String,
    limit: String,
    last_modified_ledger: u64,
    asset_type: String,
    asset_code: Option<String>,
    asset_issuer: Option<String>,
}

/// Abstraction of an option-typed string field.
pub open spec fn opt_view(s: Option<String>) -> Option<Seq<char>> {
    match s {
        Some(t) => Some(t@),
        None => None,
    }
}

impl View for Balance {
    type V = BalanceV;

    closed spec fn view(&self) -> BalanceV {
        BalanceV {
            balance: self.balance@,
            buying_liabilities: self.buying_liabilities@,
            selling_liabilities: self.selling_liabilities@,
            limit: self.limit@,
            last_modified_ledger: self.last_modified_ledger,
            asset_type: self.asset_type@,
            asset_code: opt_view(self.asset_code),
            asset_issuer: opt_view(self.asset_issuer),
        }
    }
}

/// Deserialization of one balance record.
///
/// `balance` and `asset_type` are required; `buying_liabilities`,
/// `selling_liabilities`, `limit` and `last_modified_ledger` default to their
/// zero value when the key is absent (older servers omit them); `asset_code`
/// and `asset_issuer` stay absent when their key is absent.
pub open spec fn spec_balance_from_json(j: JsonV) -> Result<BalanceV, Error> {
    match j {
        JsonV::Obj(m) => match req_str(m, "balance"@) {
            Ok(balance) => match dfl_str(m, "buying_liabilities"@) {
                Ok(buying) => match dfl_str(m, "selling_liabilities"@) {
                    Ok(selling) => match dfl_str(m, "limit"@) {
                        Ok(limit) => match dfl_u64(m, "last_modified_ledger"@) {
                            Ok(ledger) => match req_str(m, "asset_type"@) {
                                Ok(asset_type) => match opt_str(m, "asset_code"@) {
                                    Ok(code) => match opt_str(m, "asset_issuer"@) {
                                        Ok(issuer) => Ok(
                                            BalanceV {
                                                balance,
                                                buying_liabilities: buying,
                                                selling_liabilities: selling,
                                                limit,
                                                last_modified_ledger: ledger,
                                                asset_type,
                                                asset_code: code,
                                                asset_issuer: issuer,
                                            },
                                        ),
                                        Err(e) => Err(e),
                                    },
                                    Err(e) => Err(e),
                                },
                                Err(e) => Err(e),
                            },
                            Err(e) => Err(e),
                        },
                        Err(e) => Err(e),
                    },
                    Err(e) => Err(e),
                },
                Err(e) => Err(e),
            },
            Err(e) => Err(e),
        },
        _ => Err(Error::UnexpectedType),
    }
}

impl Balance {
    /// Creates a balance record from its parts.
    pub fn new(
        balance: String,
        buying_liabilities: String,
        selling_liabilities: String,
        limit: String,
        last_modified_ledger: u64,
        asset_type: String,
        asset_code: Option<String>,
        asset_issuer: Option<String>,
    ) -> (r: Balance)
        ensures
            r@ == (BalanceV {
                balance: balance@,
                buying_liabilities: buying_liabilities@,
                selling_liabilities: selling_liabilities@,
                limit: limit@,
                last_modified_ledger: last_modified_ledger,
                asset_type: asset_type@,
                asset_code: opt_view(asset_code),
                asset_issuer: opt_view(asset_issuer),
            }),
    {
        Balance {
            balance,
            buying_liabilities,
            selling_liabilities,
            limit,
            last_modified_ledger,
            asset_type,
            asset_code,
            asset_issuer,
        }
    }

    /// Deserializes a balance record from a JSON value.
    pub fn from_json(j: &Json) -> (r: Result<Balance, Error>)
        ensures
            match r {
                Ok(b) => spec_balance_from_json(j@) == Ok::<BalanceV, Error>(b@),
                Err(e) => spec_balance_from_json(j@) == Err::<BalanceV, Error>(e),
            },
    {
        proof {
            lemma_jview_cases(*j);
        }
        match j {
            Json::Obj(fields) => {
                let balance = match get_req_str(fields, &String::from_str("balance")) {
                    Ok(v) => v,
                    Err(e) => return Err(e),
                };
                let buying = match get_dfl_str(fields, &String::from_str("buying_liabilities")) {
                    Ok(v) => v,
                    Err(e) => return Err(e),
                };
                let selling = match get_dfl_str(fields, &String::from_str("selling_liabilities")) {
                    Ok(v) => v,
                    Err(e) => return Err(e),
                };
                let limit = match get_dfl_str(fields, &String::from_str("limit")) {
                    Ok(v) => v,
                    Err(e) => return Err(e),
                };
                let ledger = match get_dfl_u64(fields, &String::from_str("last_modified_ledger")) {
                    Ok(v) => v,
                    Err(e) => return Err(e),
                };
                let asset_type = match get_req_str(fields, &String::from_str("asset_type")) {
                    Ok(v) => v,
                    Err(e) => return Err(e),
                };
                let code = match get_opt_str(fields, &String::from_str("asset_code")) {
                    Ok(v) => v,
                    Err(e) => return Err(e),
                };
                let issuer = match get_opt_str(fields, &String::from_str("asset_issuer")) {
                    Ok(v) => v,
                    Err(e) => return Err(e),
                };
                Ok(
                    Balance {
                        balance,
                        buying_liabilities: buying,
                        selling_liabilities: selling,
                        limit,
                        last_modified_ledger: ledger,
                        asset_type,
                        asset_code: code,
                        asset_issuer: issuer,
                    },
                )
            },
            _ => Err(Error::UnexpectedType),
        }
    }

    /// How much of the asset is owned.
    pub fn balance(&self) -> (r: &String)
        ensures
            r@ == self@.balance,
    {
        &self.balance
    }

    /// The total amount of the asset offered to buy, aggregated over all
    /// offers owned by this account.
    pub fn buying_liabilities(&self) -> (r: &String)
        ensures
            r@ == self@.buying_liabilities,
    {
        &self.buying_liabilities
    }

    /// The total amount of the asset offered to sell, aggregated over all
    /// offers owned by this account.
    pub fn selling_liabilities(&self) -> (r: &String)
        ensures
            r@ == self@.selling_liabilities,
    {
        &self.selling_liabilities
    }

    /// The maximum amount of the asset this account is willing to accept.
    pub fn limit(&self) -> (r: &String)
        ensures
            r@ == self@.limit,
    {
        &self.limit
    }

    /// The ledger height at which the balance was last modified.
    pub fn last_modified_ledger(&self) -> (r: &u64)
        ensures
            *r == self@.last_modified_ledger,
    {
        &self.last_modified_ledger
    }

    /// Either `native`, `credit_alphanum4`, or `credit_alphanum12`.
    pub fn asset_type(&self) -> (r: &String)
        ensures
            r@ == self@.asset_type,
    {
        &self.asset_type
    }

    /// The code of the asset, absent for the native asset.
    pub fn asset_code(&self) -> (r: &Option<String>)
        ensures
            opt_view(*r) == self@.asset_code,
    {
        &self.asset_code
    }

    /// The address of the asset's issuer, absent for the native asset.
    pub fn asset_issuer(&self) -> (r: &Option<String>)
        ensures
            opt_view(*r) == self@.asset_issuer,
    {
        &self.asset_issuer
    }
}

impl PartialEq for Balance {
    /// Structural value equality over every field.
    fn eq(&self, other: &Balance) -> (r: bool) {
        let code_eq = match (&self.asset_code, &other.asset_code) {
            (Some(a), Some(b)) => *a == *b,
            (None, None) => true,
            _ => false,
        };
        let issuer_eq = match (&self.asset_issuer, &other.asset_issuer) {
            (Some(a), Some(b)) => *a == *b,
            (None, None) => true,
            _ => false,
        };
        self.balance == other.balance && self.buying_liabilities == other.buying_liabilities
            && self.selling_liabilities == other.selling_liabilities && self.limit == other.limit
            && self.last_modified_ledger == other.last_modified_ledger && self.asset_type
            == other.asset_type && code_eq && issuer_eq
    }
}

impl vstd::std_specs::cmp::PartialEqSpecImpl for Balance {
    open spec fn obeys_eq_spec() -> bool {
        true
    }

    open spec fn eq_spec(&self, other: &Balance) -> bool {
        self@ == other@
    }
}

/// Balance value equality is an equivalence relation: reflexive, symmetric
/// and transitive over the records' abstract values, which `==` follows.
pub proof fn lemma_balance_eq_laws(a: Balance, b: Balance, c: Balance)
    ensures
        a@ == a@,
        (a@ == b@) ==> (b@ == a@),
        (a@ == b@ && b@ == c@) ==> (a@ == c@),
{
}

/// A balance object that omits `buying_liabilities`, `selling_liabilities`,
/// `limit` and `last_modified_ledger` but is otherwise valid still
/// deserializes, and those fields take their zero values.
pub proof fn lemma_balance_defaults(m: Seq<(Seq<char>, JsonV)>)
    requires
        req_str(m, "balance"@) is Ok,
        req_str(m, "asset_type"@) is Ok,
        opt_str(m, "asset_code"@) is Ok,
        opt_str(m, "asset_issuer"@) is Ok,
        spec_lookup(m, "buying_liabilities"@) is None,
        spec_lookup(m, "selling_liabilities"@) is None,
        spec_lookup(m, "limit"@) is None,
        spec_lookup(m, "last_modified_ledger"@) is None,
    ensures
        spec_balance_from_json(JsonV::Obj(m)) matches Ok(b) && b.buying_liabilities
            == Seq::<char>::empty() && b.selling_liabilities == Seq::<char>::empty() && b.limit
            == Seq::<char>::empty() && b.last_modified_ledger == 0,
{
}

} // verus!
