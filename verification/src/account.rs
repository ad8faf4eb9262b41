use crate::balance::{spec_balance_from_json, Balance, BalanceV};
use crate::base64string::Base64String;
use crate::error::Error;
use crate::fields::{
    get_req_arr, get_req_bool, get_req_obj, get_req_str, get_req_u64, get_req_u64_str, get_req_u8,
    req_arr, req_bool, req_obj, req_str, req_u64, req_u64_str, req_u8,
};
use crate::json::{
    jview_obj, jview_seq, lemma_jview_cases, lemma_jview_obj_len, lemma_jview_seq_len,
    spec_parse_json, Json, JsonV,
};
use crate::signer::{spec_signer_from_json, Signer, SignerV};
use vstd::prelude::*;

verus! {

/// The operation thresholds of an account: the weight an operation of each
/// category must meet.
#[derive(Debug, Clone, Copy, PartialEq, Eq, Structural)]
pub struct Thresholds {
    /// Threshold for low-security operations.
    pub low_threshold: u8,
    /// Threshold for medium-security operations.
    pub med_threshold: u8,
    /// Threshold for high-security operations.
    pub high_threshold: u8,
}

impl Thresholds {
    /// Creates a thresholds record from its three weights.
    pub fn new(low_threshold: u8, med_threshold: u8, high_threshold: u8) -> (r: Thresholds)
        ensures
            r == (Thresholds { low_threshold, med_threshold, high_threshold }),
    {
        Thresholds { low_threshold, med_threshold, high_threshold }
    }
}

/// The flags that enable or disable asset issuer privileges on an account.
#[derive(Debug, Clone, Copy, PartialEq, Eq, Structural)]
pub struct Flags {
    /// Issuer approval is required before holding the issuer's credit.
    pub auth_required: bool,
    /// The issuer may revoke its credit.
    pub auth_revocable: bool,
    /// The flags themselves can never change.
    pub auth_immutable: bool,
}

impl Flags {
    /// Creates a flags record from its three switches.
    pub fn new(auth_required: bool, auth_revocable: bool, auth_immutable: bool) -> (r: Flags)
        ensures
            r == (Flags { auth_required, auth_revocable, auth_immutable }),
    {
        Flags { auth_required, auth_revocable, auth_immutable }
    }

    /// Whether issuer approval is required to hold credit.
    pub fn is_auth_required(&self) -> (r: bool)
        ensures
            r == self.auth_required,
    {
        self.auth_required
    }

    /// Whether the issuer may revoke credit.
    pub fn is_auth_revocable(&self) -> (r: bool)
        ensures
            r == self.auth_revocable,
    {
        self.auth_revocable
    }

    /// Whether the flags can never change.
    pub fn is_auth_immutable(&self) -> (r: bool)
        ensures
            r == self.auth_immutable,
    {
        self.auth_immutable
    }
}

/// Deserialization of a thresholds object: all three weights are required
/// and must fit in 8 bits.
pub open spec fn spec_thresholds_from(m: Seq<(Seq<char>, JsonV)>) -> Result<Thresholds, Error> {
    match req_u8(m, "low_threshold"@) {
        Ok(low) => match req_u8(m, "med_threshold"@) {
            Ok(med) => match req_u8(m, "high_threshold"@) {
                Ok(high) => Ok(
                    Thresholds {
                        low_threshold: low,
                        med_threshold: med,
                        high_threshold: high,
                    },
                ),
                Err(e) => Err(e),
            },
            Err(e) => Err(e),
        },
        Err(e) => Err(e),
    }
}

/// Deserialization of a flags object: all three switches are required.
pub open spec fn spec_flags_from(m: Seq<(Seq<char>, JsonV)>) -> Result<Flags, Error> {
    match req_bool(m, "auth_required"@) {
        Ok(required) => match req_bool(m, "auth_revocable"@) {
            Ok(revocable) => match req_bool(m, "auth_immutable"@) {
                Ok(immutable) => Ok(
                    Flags {
                        auth_required: required,
                        auth_revocable: revocable,
                        auth_immutable: immutable,
                    },
                ),
                Err(e) => Err(e),
            },
            Err(e) => Err(e),
        },
        Err(e) => Err(e),
    }
}

fn thresholds_from_fields(fields: &Vec<(String, Json)>) -> (r: Result<Thresholds, Error>)
    ensures
        match r {
            Ok(t) => spec_thresholds_from(jview_obj(fields@)) == Ok::<Thresholds, Error>(t),
            Err(e) => spec_thresholds_from(jview_obj(fields@)) == Err::<Thresholds, Error>(e),
        },
{
    let low = match get_req_u8(fields, &String::from_str("low_threshold")) {
        Ok(v) => v,
        Err(e) => return Err(e),
    };
    let med = match get_req_u8(fields, &String::from_str("med_threshold")) {
        Ok(v) => v,
        Err(e) => return Err(e),
    };
    let high = match get_req_u8(fields, &String::from_str("high_threshold")) {
        Ok(v) => v,
        Err(e) => return Err(e),
    };
    Ok(Thresholds { low_threshold: low, med_threshold: med, high_threshold: high })
}

fn flags_from_fields(fields: &Vec<(String, Json)>) -> (r: Result<Flags, Error>)
    ensures
        match r {
            Ok(f) => spec_flags_from(jview_obj(fields@)) == Ok::<Flags, Error>(f),
            Err(e) => spec_flags_from(jview_obj(fields@)) == Err::<Flags, Error>(e),
        },
{
    let required = match get_req_bool(fields, &String::from_str("auth_required")) {
        Ok(v) => v,
        Err(e) => return Err(e),
    };
    let revocable = match get_req_bool(fields, &String::from_str("auth_revocable")) {
        Ok(v) => v,
        Err(e) => return Err(e),
    };
    let immutable = match get_req_bool(fields, &String::from_str("auth_immutable")) {
        Ok(v) => v,
        Err(e) => return Err(e),
    };
    Ok(Flags { auth_required: required, auth_revocable: revocable, auth_immutable: immutable })
}

/// Abstraction of a sequence of balance records.
pub open spec fn balances_view(s: Seq<Balance>) -> Seq<BalanceV> {
    Seq::new(s.len(), |i: int| s[i]@)
}

/// Abstraction of a sequence of signer records.
pub open spec fn signers_view(s: Seq<Signer>) -> Seq<SignerV> {
    Seq::new(s.len(), |i: int| s[i]@)
}

/// Abstraction of an account's key/value data store.
pub open spec fn data_view(s: Seq<(String, Base64String)>) -> Seq<(Seq<char>, Seq<char>)> {
    Seq::new(s.len(), |i: int| (s[i].0@, s[i].1@))
}

/// Deserialization of an array of balance records, in order.
pub open spec fn spec_balances_from(a: Seq<JsonV>) -> Result<Seq<BalanceV>, Error>
    decreases a.len(),
{
    if a.len() == 0 {
        Ok(Seq::empty())
    } else {
        match spec_balance_from_json(a[0]) {
            Ok(b) => match spec_balances_from(a.drop_first()) {
                Ok(rest) => Ok(seq![b] + rest),
                Err(e) => Err(e),
            },
            Err(e) => Err(e),
        }
    }
}

/// Deserialization of an array of signer records, in order.
pub open spec fn spec_signers_from(a: Seq<JsonV>) -> Result<Seq<SignerV>, Error>
    decreases a.len(),
{
    if a.len() == 0 {
        Ok(Seq::empty())
    } else {
        match spec_signer_from_json(a[0]) {
            Ok(s) => match spec_signers_from(a.drop_first()) {
                Ok(rest) => Ok(seq![s] + rest),
                Err(e) => Err(e),
            },
            Err(e) => Err(e),
        }
    }
}

/// Deserialization of the data store: every value must be a JSON string,
/// whose base64 envelope is carried through unchanged.
pub open spec fn spec_data_from(m: Seq<(Seq<char>, JsonV)>) -> Result<
    Seq<(Seq<char>, Seq<char>)>,
    Error,
>
    decreases m.len(),
{
    if m.len() == 0 {
        Ok(Seq::empty())
    } else {
        match m[0].1 {
            JsonV::Str(s) => match spec_data_from(m.drop_first()) {
                Ok(rest) => Ok(seq![(m[0].0, s)] + rest),
                Err(e) => Err(e),
            },
            _ => Err(Error::UnexpectedType),
        }
    }
}

fn balances_from_idx(a: &Vec<Json>, i: usize) -> (r: Result<Vec<Balance>, Error>)
    requires
        i <= a@.len(),
    ensures
        match r {
            Ok(v) => spec_balances_from(jview_seq(a@).subrange(i as int, a@.len() as int))
                == Ok::<Seq<BalanceV>, Error>(balances_view(v@)),
            Err(e) => spec_balances_from(jview_seq(a@).subrange(i as int, a@.len() as int))
                == Err::<Seq<BalanceV>, Error>(e),
        },
    decreases a@.len() - i,
{
    proof {
        lemma_jview_seq_len(a@);
    }
    if i >= a.len() {
        proof {
            assert(jview_seq(a@).subrange(i as int, a@.len() as int) =~= Seq::<JsonV>::empty());
            assert(balances_view(Seq::<Balance>::empty()) =~= Seq::<BalanceV>::empty());
        }
        Ok(Vec::new())
    } else {
        let ghost s = jview_seq(a@).subrange(i as int, a@.len() as int);
        proof {
            assert(s[0] == jview_seq(a@)[i as int]);
            assert(s.drop_first() =~= jview_seq(a@).subrange(i + 1, a@.len() as int));
        }
        match Balance::from_json(&a[i]) {
            Ok(b) => match balances_from_idx(a, i + 1) {
                Ok(mut rest) => {
                    let ghost tail = rest@;
                    let ghost bv = b@;
                    rest.insert(0, b);
                    proof {
                        assert(rest@ =~= seq![rest@[0]] + tail);
                        assert(balances_view(rest@) =~= seq![bv] + balances_view(tail));
                    }
                    Ok(rest)
                },
                Err(e) => Err(e),
            },
            Err(e) => Err(e),
        }
    }
}

fn signers_from_idx(a: &Vec<Json>, i: usize) -> (r: Result<Vec<Signer>, Error>)
    requires
        i <= a@.len(),
    ensures
        match r {
            Ok(v) => spec_signers_from(jview_seq(a@).subrange(i as int, a@.len() as int))
                == Ok::<Seq<SignerV>, Error>(signers_view(v@)),
            Err(e) => spec_signers_from(jview_seq(a@).subrange(i as int, a@.len() as int))
                == Err::<Seq<SignerV>, Error>(e),
        },
    decreases a@.len() - i,
{
    proof {
        lemma_jview_seq_len(a@);
    }
    if i >= a.len() {
        proof {
            assert(jview_seq(a@).subrange(i as int, a@.len() as int) =~= Seq::<JsonV>::empty());
            assert(signers_view(Seq::<Signer>::empty()) =~= Seq::<SignerV>::empty());
        }
        Ok(Vec::new())
    } else {
        let ghost s = jview_seq(a@).subrange(i as int, a@.len() as int);
        proof {
            assert(s[0] == jview_seq(a@)[i as int]);
            assert(s.drop_first() =~= jview_seq(a@).subrange(i + 1, a@.len() as int));
        }
        match Signer::from_json(&a[i]) {
            Ok(sg) => match signers_from_idx(a, i + 1) {
                Ok(mut rest) => {
                    let ghost tail = rest@;
                    let ghost sv = sg@;
                    rest.insert(0, sg);
                    proof {
                        assert(rest@ =~= seq![rest@[0]] + tail);
                        assert(signers_view(rest@) =~= seq![sv] + signers_view(tail));
                    }
                    Ok(rest)
                },
                Err(e) => Err(e),
            },
            Err(e) => Err(e),
        }
    }
}

fn data_from_idx(m: &Vec<(String, Json)>, i: usize) -> (r: Result<
    Vec<(String, Base64String)>,
    Error,
>)
    requires
        i <= m@.len(),
    ensures
        match r {
            Ok(v) => spec_data_from(jview_obj(m@).subrange(i as int, m@.len() as int))
                == Ok::<Seq<(Seq<char>, Seq<char>)>, Error>(data_view(v@)),
            Err(e) => spec_data_from(jview_obj(m@).subrange(i as int, m@.len() as int))
                == Err::<Seq<(Seq<char>, Seq<char>)>, Error>(e),
        },
    decreases m@.len() - i,
{
    proof {
        lemma_jview_obj_len(m@);
    }
    if i >= m.len() {
        proof {
            assert(jview_obj(m@).subrange(i as int, m@.len() as int) =~= Seq::<(
                Seq<char>,
                JsonV,
            )>::empty());
            assert(data_view(Seq::<(String, Base64String)>::empty()) =~= Seq::<(
                Seq<char>,
                Seq<char>,
            )>::empty());
        }
        Ok(Vec::new())
    } else {
        let ghost s = jview_obj(m@).subrange(i as int, m@.len() as int);
        proof {
            assert(s[0] == jview_obj(m@)[i as int]);
            assert(s.drop_first() =~= jview_obj(m@).subrange(i + 1, m@.len() as int));
            lemma_jview_cases(m@[i as int].1);
        }
        match &m[i].1 {
            Json::Str(val) => {
                let key = m[i].0.clone();
                let entry = Base64String::new(val.clone());
                match data_from_idx(m, i + 1) {
                    Ok(mut rest) => {
                        let ghost tail = rest@;
                        let ghost kv = (key@, entry@);
                        rest.insert(0, (key, entry));
                        proof {
                            assert(rest@ =~= seq![rest@[0]] + tail);
                            assert(data_view(rest@) =~= seq![kv] + data_view(tail));
                        }
                        Ok(rest)
                    },
                    Err(e) => Err(e),
                }
            },
            _ => Err(Error::UnexpectedType),
        }
    }
}

/// Abstract value of an account resource.
pub struct AccountV {
    pub id: Seq<char>,
    pub paging_token: Seq<char>,
    pub account_id: Seq<char>,
    pub sequence: u64,
    pub subentry_count: u64,
    pub last_modified_ledger: u64,
    pub thresholds: Thresholds,
    pub flags: Flags,
    pub balances: Seq<BalanceV>,
    pub signers: Seq<SignerV>,
    pub data: Seq<(Seq<char>, Seq<char>)>,
}

/// An account on the ledger network, controlled by a keypair that can
/// authorize transactions.
#[derive(Debug)]
pub struct Account {
    id: String,
    paging_token: String,
    account_id: String,
    sequence: u64,
    subentry_count: u64,
    last_modified_ledger: u64,
    thresholds: Thresholds,
    flags: Flags,
    balances: Vec<Balance>,
    signers: Vec<Signer>,
    data: Vec<(String, Base64String)>,
}

impl View for Account {
    type V = AccountV;

    closed spec fn view(&self) -> AccountV {
        AccountV {
            id: self.id@,
            paging_token: self.paging_token@,
            account_id: self.account_id@,
            sequence: self.sequence,
            subentry_count: self.subentry_count,
            last_modified_ledger: self.last_modified_ledger,
            thresholds: self.thresholds,
            flags: self.flags,
            balances: balances_view(self.balances@),
            signers: signers_view(self.signers@),
            data: data_view(self.data@),
        }
    }
}

/// Deserialization of an account resource.
///
/// All fields are required; `sequence` arrives as a numeric string and goes
/// through the dedicated string-to-integer coercion, whose failure is
/// `Error::InvalidNumericString` rather than a silent zero.
pub open spec fn spec_account_from_json(j: JsonV) -> Result<AccountV, Error> {
    match j {
        JsonV::Obj(m) => match req_str(m, "id"@) {
            Ok(id) => match req_str(m, "paging_token"@) {
                Ok(paging_token) => match req_str(m, "account_id"@) {
                    Ok(account_id) => match req_u64_str(m, "sequence"@) {
                        Ok(sequence) => match req_u64(m, "subentry_count"@) {
                            Ok(subentry_count) => match req_u64(m, "last_modified_ledger"@) {
                                Ok(last_modified_ledger) => match req_obj(m, "thresholds"@) {
                                    Ok(tm) => match spec_thresholds_from(tm) {
                                        Ok(thresholds) => match req_obj(m, "flags"@) {
                                            Ok(fm) => match spec_flags_from(fm) {
                                                Ok(flags) => match req_arr(m, "balances"@) {
                                                    Ok(ba) => match spec_balances_from(ba) {
                                                        Ok(balances) => match req_arr(
                                                            m,
                                                            "signers"@,
                                                        ) {
                                                            Ok(sa) => match spec_signers_from(sa) {
                                                                Ok(signers) => match req_obj(
                                                                    m,
                                                                    "data"@,
                                                                ) {
                                                                    Ok(dm) => match spec_data_from(
                                                                        dm,
                                                                    ) {
                                                                        Ok(data) => Ok(
                                                                            AccountV {
                                                                                id,
                                                                                paging_token,
                                                                                account_id,
                                                                                sequence,
                                                                                subentry_count,
                                                                                last_modified_ledger,
                                                                                thresholds,
                                                                                flags,
                                                                                balances,
                                                                                signers,
                                                                                data,
                                                                            },
                                                                        ),
                                                                        Err(e) => Err(e),
                                                                    },
                                                                    Err(e) => Err(e),
                                                                },
                                                                Err(e) => Err(e),
                                                            },
                                                            Err(e) => Err(e),
                                                        },
                                                        Err(e) => Err(e),
                                                    },
                                                    Err(e) => Err(e),
                                                },
                                                Err(e) => Err(e),
                                            },
                                            Err(e) => Err(e),
                                        },
                                        Err(e) => Err(e),
                                    },
                                    Err(e) => Err(e),
                                },
                                Err(e) => Err(e),
                            },
                            Err(e) => Err(e),
                        },
                        Err(e) => Err(e),
                    },
                    Err(e) => Err(e),
                },
                Err(e) => Err(e),
            },
            Err(e) => Err(e),
        },
        _ => Err(Error::UnexpectedType),
    }
}

/// Deserialization of an account resource from raw response text: a
/// validating parse of the document followed by the field mapping above.
pub open spec fn spec_account_from_text(s: Seq<char>) -> Result<AccountV, Error> {
    match spec_parse_json(s) {
        Ok(j) => spec_account_from_json(j),
        Err(e) => Err(e),
    }
}

impl Account {
    /// Deserializes an account resource from a JSON value.
    pub fn from_json(j: &Json) -> (r: Result<Account, Error>)
        ensures
            match r {
                Ok(a) => spec_account_from_json(j@) == Ok::<AccountV, Error>(a@),
                Err(e) => spec_account_from_json(j@) == Err::<AccountV, Error>(e),
            },
    {
        proof {
            lemma_jview_cases(*j);
        }
        match j {
            Json::Obj(fields) => {
                let id = match get_req_str(fields, &String::from_str("id")) {
                    Ok(v) => v,
                    Err(e) => return Err(e),
                };
                let paging_token = match get_req_str(fields, &String::from_str("paging_token")) {
                    Ok(v) => v,
                    Err(e) => return Err(e),
                };
                let account_id = match get_req_str(fields, &String::from_str("account_id")) {
                    Ok(v) => v,
                    Err(e) => return Err(e),
                };
                let sequence = match get_req_u64_str(fields, &String::from_str("sequence")) {
                    Ok(v) => v,
                    Err(e) => return Err(e),
                };
                let subentry_count = match get_req_u64(
                    fields,
                    &String::from_str("subentry_count"),
                ) {
                    Ok(v) => v,
                    Err(e) => return Err(e),
                };
                let last_modified_ledger = match get_req_u64(
                    fields,
                    &String::from_str("last_modified_ledger"),
                ) {
                    Ok(v) => v,
                    Err(e) => return Err(e),
                };
                let tf = match get_req_obj(fields, &String::from_str("thresholds")) {
                    Ok(v) => v,
                    Err(e) => return Err(e),
                };
                let thresholds = match thresholds_from_fields(tf) {
                    Ok(v) => v,
                    Err(e) => return Err(e),
                };
                let ff = match get_req_obj(fields, &String::from_str("flags")) {
                    Ok(v) => v,
                    Err(e) => return Err(e),
                };
                let flags = match flags_from_fields(ff) {
                    Ok(v) => v,
                    Err(e) => return Err(e),
                };
                let ba = match get_req_arr(fields, &String::from_str("balances")) {
                    Ok(v) => v,
                    Err(e) => return Err(e),
                };
                proof {
                    lemma_jview_seq_len(ba@);
                    assert(jview_seq(ba@).subrange(0, ba@.len() as int) =~= jview_seq(ba@));
                }
                let balances = match balances_from_idx(ba, 0) {
                    Ok(v) => v,
                    Err(e) => return Err(e),
                };
                let sa = match get_req_arr(fields, &String::from_str("signers")) {
                    Ok(v) => v,
                    Err(e) => return Err(e),
                };
                proof {
                    lemma_jview_seq_len(sa@);
                    assert(jview_seq(sa@).subrange(0, sa@.len() as int) =~= jview_seq(sa@));
                }
                let signers = match signers_from_idx(sa, 0) {
                    Ok(v) => v,
                    Err(e) => return Err(e),
                };
                let dm = match get_req_obj(fields, &String::from_str("data")) {
                    Ok(v) => v,
                    Err(e) => return Err(e),
                };
                proof {
                    lemma_jview_obj_len(dm@);
                    assert(jview_obj(dm@).subrange(0, dm@.len() as int) =~= jview_obj(dm@));
                }
                let data = match data_from_idx(dm, 0) {
                    Ok(v) => v,
                    Err(e) => return Err(e),
                };
                Ok(
                    Account {
                        id,
                        paging_token,
                        account_id,
                        sequence,
                        subentry_count,
                        last_modified_ledger,
                        thresholds,
                        flags,
                        balances,
                        signers,
                        data,
                    },
                )
            },
            _ => Err(Error::UnexpectedType),
        }
    }

    /// Deserializes an account resource from raw response text.
    pub fn from_json_text(s: &str) -> (r: Result<Account, Error>)
        ensures
            match r {
                Ok(a) => spec_account_from_text(s@) == Ok::<AccountV, Error>(a@),
                Err(e) => spec_account_from_text(s@) == Err::<AccountV, Error>(e),
            },
    {
        match crate::json::parse_json(s) {
            Ok(j) => Self::from_json(&j),
            Err(e) => Err(e),
        }
    }

    /// The canonical id of this account, as a borrowed slice suitable for
    /// the `:id` parameter of URL templates.
    pub fn id_ref(&self) -> (r: &str)
        ensures
            r@ == self@.id,
    {
        self.id.as_str()
    }

    /// The account's public key in its base32 string representation, as a
    /// borrowed slice.
    pub fn account_id_ref(&self) -> (r: &str)
        ensures
            r@ == self@.account_id,
    {
        self.account_id.as_str()
    }

    /// The canonical id of this account.
    pub fn id(&self) -> (r: &String)
        ensures
            r@ == self@.id,
    {
        &self.id
    }

    /// The account's public key in its base32 string representation.
    pub fn account_id(&self) -> (r: &String)
        ensures
            r@ == self@.account_id,
    {
        &self.account_id
    }

    /// The paging token of this account in listed results.
    pub fn paging_token(&self) -> (r: &String)
        ensures
            r@ == self@.paging_token,
    {
        &self.paging_token
    }

    /// The ledger height at which the account was last modified.
    pub fn last_modified_ledger(&self) -> (r: u64)
        ensures
            r == self@.last_modified_ledger,
    {
        self.last_modified_ledger
    }

    /// The current sequence number usable when submitting a transaction from
    /// this account.
    pub fn sequence(&self) -> (r: u64)
        ensures
            r == self@.sequence,
    {
        self.sequence
    }

    /// The number of account subentries.
    pub fn subentry_count(&self) -> (r: u64)
        ensures
            r == self@.subentry_count,
    {
        self.subentry_count
    }

    /// The native asset or credits this account holds, in document order.
    pub fn balances(&self) -> (r: &Vec<Balance>)
        ensures
            balances_view(r@) == self@.balances,
    {
        &self.balances
    }

    /// The account's operation thresholds.
    pub fn thresholds(&self) -> (r: &Thresholds)
        ensures
            *r == self@.thresholds,
    {
        &self.thresholds
    }

    /// The flags that enable or disable issuer privileges.
    pub fn flags(&self) -> (r: &Flags)
        ensures
            *r == self@.flags,
    {
        &self.flags
    }

    /// The account's signers with their weights, in document order.
    pub fn signers(&self) -> (r: &Vec<Signer>)
        ensures
            signers_view(r@) == self@.signers,
    {
        &self.signers
    }

    /// The key/value store of data attached to this account.
    pub fn data(&self) -> (r: &Vec<(String, Base64String)>)
        ensures
            data_view(r@) == self@.data,
    {
        &self.data
    }
}

/// On an account object whose `sequence` field is a string that is empty,
/// holds a non-digit, or encodes a value over 64 bits, deserialization
/// always fails.
pub proof fn lemma_account_sequence_rejects(m: Seq<(Seq<char>, JsonV)>, s: Seq<char>)
    requires
        crate::json::spec_lookup(m, "sequence"@) == Some(JsonV::Str(s)),
        crate::num::spec_parse_u64(s) is None,
    ensures
        spec_account_from_json(JsonV::Obj(m)) is Err,
{
}

/// On an account object that deserializes, a `sequence` field holding a
/// digit string equals, once decoded, the base-10 value of those digits.
pub proof fn lemma_account_sequence_value(m: Seq<(Seq<char>, JsonV)>, s: Seq<char>)
    requires
        crate::json::spec_lookup(m, "sequence"@) == Some(JsonV::Str(s)),
        crate::num::spec_parse_u64(s) is Some,
        spec_account_from_json(JsonV::Obj(m)) is Ok,
    ensures
        spec_account_from_json(JsonV::Obj(m)) matches Ok(a) && Some(a.sequence)
            == crate::num::spec_parse_u64(s),
{
}

} // verus!
