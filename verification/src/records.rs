use crate::error::Error;
use crate::fields::{get_req_arr, get_req_obj, req_arr, req_obj};
use crate::json::{jview_seq, lemma_jview_cases, lemma_jview_seq_len, Json, JsonV};
use vstd::prelude::*;

verus! {

/// One resource kind deserializable from a JSON document, with its
/// deserialization rule stated over the abstract document.
pub trait Resource: Sized + View {
    /// The deserialization rule of this resource kind.
    spec fn spec_from_json(j: JsonV) -> Result<Self::V, Error>;

    /// Deserializes one resource from a JSON value.
    fn from_json(j: &Json) -> (r: Result<Self, Error>)
        ensures
            match r {
                Ok(v) => Self::spec_from_json(j@) == Ok::<Self::V, Error>(v@),
                Err(e) => Self::spec_from_json(j@) == Err::<Self::V, Error>(e),
            },
    ;
}

impl Resource for crate::account::Account {
    open spec fn spec_from_json(j: JsonV) -> Result<crate::account::AccountV, Error> {
        crate::account::spec_account_from_json(j)
    }

    fn from_json(j: &Json) -> (r: Result<crate::account::Account, Error>) {
        crate::account::Account::from_json(j)
    }
}

impl Resource for crate::asset::Asset {
    open spec fn spec_from_json(j: JsonV) -> Result<crate::asset::AssetV, Error> {
        crate::asset::spec_asset_from_json(j)
    }

    fn from_json(j: &Json) -> (r: Result<crate::asset::Asset, Error>) {
        crate::asset::Asset::from_json(j)
    }
}

impl Resource for crate::balance::Balance {
    open spec fn spec_from_json(j: JsonV) -> Result<crate::balance::BalanceV, Error> {
        crate::balance::spec_balance_from_json(j)
    }

    fn from_json(j: &Json) -> (r: Result<crate::balance::Balance, Error>) {
        crate::balance::Balance::from_json(j)
    }
}

/// Abstraction of a sequence of resources.
pub open spec fn resources_view<T: View>(s: Seq<T>) -> Seq<T::V> {
    Seq::new(s.len(), |i: int| s[i]@)
}

/// Deserialization of an array of records of one resource kind, in order.
pub open spec fn spec_records_list<R: Resource>(a: Seq<JsonV>) -> Result<Seq<R::V>, Error>
    decreases a.len(),
{
    if a.len() == 0 {
        Ok(Seq::empty())
    } else {
        match R::spec_from_json(a[0]) {
            Ok(v) => match spec_records_list::<R>(a.drop_first()) {
                Ok(rest) => Ok(seq![v] + rest),
                Err(e) => Err(e),
            },
            Err(e) => Err(e),
        }
    }
}

/// Deserialization of a page of records: the document's `_embedded` object
/// holds a `records` array of records of the resource kind.
pub open spec fn spec_records_from_json<R: Resource>(j: JsonV) -> Result<Seq<R::V>, Error> {
    match j {
        JsonV::Obj(m) => match req_obj(m, "_embedded"@) {
            Ok(em) => match req_arr(em, "records"@) {
                Ok(a) => spec_records_list::<R>(a),
                Err(e) => Err(e),
            },
            Err(e) => Err(e),
        },
        _ => Err(Error::UnexpectedType),
    }
}

fn records_from_idx<R: Resource>(a: &Vec<Json>, i: usize) -> (r: Result<Vec<R>, Error>)
    requires
        i <= a@.len(),
    ensures
        match r {
            Ok(v) => spec_records_list::<R>(jview_seq(a@).subrange(i as int, a@.len() as int))
                == Ok::<Seq<R::V>, Error>(resources_view(v@)),
            Err(e) => spec_records_list::<R>(jview_seq(a@).subrange(i as int, a@.len() as int))
                == Err::<Seq<R::V>, Error>(e),
        },
    decreases a@.len() - i,
{
    proof {
        lemma_jview_seq_len(a@);
    }
    if i >= a.len() {
        proof {
            assert(jview_seq(a@).subrange(i as int, a@.len() as int) =~= Seq::<JsonV>::empty());
            assert(resources_view(Seq::<R>::empty()) =~= Seq::<R::V>::empty());
        }
        Ok(Vec::new())
    } else {
        let ghost s = jview_seq(a@).subrange(i as int, a@.len() as int);
        proof {
            assert(s[0] == jview_seq(a@)[i as int]);
            assert(s.drop_first() =~= jview_seq(a@).subrange(i + 1, a@.len() as int));
        }
        match R::from_json(&a[i]) {
            Ok(v) => match records_from_idx::<R>(a, i + 1) {
                Ok(mut rest) => {
                    let ghost tail = rest@;
                    let ghost vv = v@;
                    rest.insert(0, v);
                    proof {
                        assert(rest@ =~= seq![rest@[0]] + tail);
                        assert(resources_view(rest@) =~= seq![vv] + resources_view(tail));
                    }
                    Ok(rest)
                },
                Err(e) => Err(e),
            },
            Err(e) => Err(e),
        }
    }
}

/// A page of records returned by a listing query.
#[derive(Debug)]
pub struct Records<T> {
    records: Vec<T>,
}

impl<T: View> View for Records<T> {
    type V = Seq<T::V>;

    closed spec fn view(&self) -> Seq<T::V> {
        resources_view(self.records@)
    }
}

impl<T: Resource> Records<T> {
    /// Deserializes a page of records from a JSON value.
    pub fn from_json(j: &Json) -> (r: Result<Records<T>, Error>)
        ensures
            match r {
                Ok(page) => spec_records_from_json::<T>(j@) == Ok::<Seq<T::V>, Error>(page@),
                Err(e) => spec_records_from_json::<T>(j@) == Err::<Seq<T::V>, Error>(e),
            },
    {
        proof {
            lemma_jview_cases(*j);
        }
        match j {
            Json::Obj(fields) => {
                let em = match get_req_obj(fields, &String::from_str("_embedded")) {
                    Ok(v) => v,
                    Err(e) => return Err(e),
                };
                let a = match get_req_arr(em, &String::from_str("records")) {
                    Ok(v) => v,
                    Err(e) => return Err(e),
                };
                proof {
                    lemma_jview_seq_len(a@);
                    assert(jview_seq(a@).subrange(0, a@.len() as int) =~= jview_seq(a@));
                }
                match records_from_idx::<T>(a, 0) {
                    Ok(records) => Ok(Records { records }),
                    Err(e) => Err(e),
                }
            },
            _ => Err(Error::UnexpectedType),
        }
    }

    /// The records of this page, in document order.
    pub fn records(&self) -> (r: &Vec<T>)
        ensures
            resources_view(r@) == self@,
    {
        &self.records
    }
}

} // verus!
