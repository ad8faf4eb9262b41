//! Endpoint descriptors: each supported query declares the response type it
//! expects, the request body it sends, and one transformation from the query
//! value plus a host string into a full request descriptor.

use crate::account::Account;
use crate::error::Error;
use crate::text::{chars_to_string, str_chars};
use vstd::prelude::*;

verus! {

/// The order to return paged results in.
#[derive(Debug, Clone, Copy, PartialEq, Eq, Structural)]
pub enum Order {
    /// Return the results ascending.
    Asc,
    /// Return the results descending.
    Desc,
}

impl Order {
    /// Canonical wire encoding of the sort direction.
    pub open spec fn spec_param(self) -> Seq<char> {
        match self {
            Order::Asc => "asc"@,
            Order::Desc => "desc"@,
        }
    }

    /// Canonicalizes the sort direction into its query-string form.
    pub fn to_param(&self) -> (r: String)
        ensures
            r@ == self.spec_param(),
    {
        match *self {
            Order::Asc => String::from_str("asc"),
            Order::Desc => String::from_str("desc"),
        }
    }
}

/// The sort-direction encoding is total and closed: every direction encodes
/// to exactly `asc` or `desc`, and the two encodings differ.
pub proof fn lemma_order_param_total(o: Order)
    ensures
        o.spec_param() == "asc"@ || o.spec_param() == "desc"@,
        "asc"@ != "desc"@,
{
    reveal_strlit("asc");
    reveal_strlit("desc");
    assert("asc"@.len() == 3);
    assert("desc"@.len() == 4);
}

/// The HTTP method of a request descriptor; every query here is a read.
#[derive(Debug, Clone, Copy, PartialEq, Eq, Structural)]
pub enum Method {
    Get,
}

/// A materialized request descriptor: method, absolute URL with encoded
/// query parameters, and request body, to be executed by an external
/// transport.
#[derive(Debug)]
pub struct Request<B> {
    /// The HTTP method to use.
    pub method: Method,
    /// The absolute URL, query parameters included.
    pub url: String,
    /// The body to send; generally the unit value.
    pub body: B,
}

/// Abstract value of a request descriptor: its method and absolute URL.
pub struct RequestV {
    pub method: Method,
    pub url: Seq<char>,
}

/// The host string with trailing slashes removed.
pub open spec fn norm_host(s: Seq<char>) -> Seq<char>
    decreases s.len(),
{
    if s.len() > 0 && s.last() == '/' {
        norm_host(s.drop_last())
    } else {
        s
    }
}

/// A character that may stand in the authority part of a host string:
/// printable ASCII that neither delimits URL components nor needs escaping.
pub open spec fn host_char(c: char) -> bool {
    let u = c as u32;
    33 <= u <= 126 && c != '/' && c != '?' && c != '#' && c != '"' && c != '<' && c != '>'
        && c != '\\' && c != '^' && c != '`' && c != '{' && c != '|' && c != '}'
}

/// A host string that can begin a well-formed absolute URL: an `http` or
/// `https` scheme followed by a nonempty authority of safe characters, after
/// trailing slashes are stripped.
pub open spec fn valid_host(s: Seq<char>) -> bool {
    let t = norm_host(s);
    (t.len() > 8 && t.subrange(0, 8) == "https://"@ && authority_ok(t.subrange(8, t.len() as int)))
        || (t.len() > 7 && t.subrange(0, 7) == "http://"@ && authority_ok(
        t.subrange(7, t.len() as int),
    ))
}

/// A nonempty run of host characters.
pub open spec fn authority_ok(a: Seq<char>) -> bool {
    a.len() > 0 && forall|i: int| 0 <= i < a.len() ==> host_char(#[trigger] a[i])
}

/// A character safe to embed as a path or query parameter without encoding:
/// the unreserved URL set.
pub open spec fn param_char(c: char) -> bool {
    let u = c as u32;
    (48 <= u <= 57) || (65 <= u <= 90) || (97 <= u <= 122) || c == '-' || c == '.' || c == '_'
        || c == '~'
}

/// A nonempty run of unreserved characters.
pub open spec fn valid_param(s: Seq<char>) -> bool {
    s.len() > 0 && forall|i: int| 0 <= i < s.len() ==> param_char(#[trigger] s[i])
}

fn host_end(v: &Vec<char>) -> (end: usize)
    ensures
        end <= v@.len(),
        norm_host(v@) == v@.subrange(0, end as int),
{
    let mut end = v.len();
    proof {
        assert(v@.subrange(0, end as int) =~= v@);
    }
    while end > 0 && v[end - 1] == '/'
        invariant
            end <= v@.len(),
            norm_host(v@) == norm_host(v@.subrange(0, end as int)),
        decreases end,
    {
        proof {
            assert(v@.subrange(0, end as int).last() == v@[end - 1]);
            assert(v@.subrange(0, end as int).drop_last() =~= v@.subrange(0, end - 1));
        }
        end = end - 1;
    }
    proof {
        if end > 0 {
            assert(v@.subrange(0, end as int).last() == v@[end - 1]);
        }
    }
    end
}

fn check_authority(v: &Vec<char>, from: usize, to: usize) -> (r: bool)
    requires
        from <= to <= v@.len(),
    ensures
        r == authority_ok(v@.subrange(from as int, to as int)),
{
    if from == to {
        return false;
    }
    let mut i: usize = from;
    while i < to
        invariant
            from <= i <= to <= v@.len(),
            forall|k: int| from <= k < i ==> host_char(#[trigger] v@[k]),
        decreases to - i,
    {
        let c = v[i];
        let u = c as u32;
        if !(33 <= u && u <= 126) || c == '/' || c == '?' || c == '#' || c == '"' || c == '<' || c
            == '>' || c == '\\' || c == '^' || c == '`' || c == '{' || c == '|' || c == '}' {
            proof {
                assert(v@.subrange(from as int, to as int)[i - from] == v@[i as int]);
            }
            return false;
        }
        i = i + 1;
    }
    proof {
        assert forall|k: int| 0 <= k < to - from implies host_char(
            #[trigger] v@.subrange(from as int, to as int)[k],
        ) by {
            assert(v@.subrange(from as int, to as int)[k] == v@[from + k]);
        }
    }
    true
}

/// Validates a host string; on success hands back its characters and the
/// length of its normalized form.
fn validate_host(host: &str) -> (r: Option<(Vec<char>, usize)>)
    ensures
        match r {
            Some(p) => valid_host(host@) && p.1 <= p.0@.len() && p.0@.subrange(0, p.1 as int)
                == norm_host(host@),
            None => !valid_host(host@),
        },
{
    let v = str_chars(host);
    let end = host_end(&v);
    let ghost t = norm_host(host@);
    proof {
        reveal_strlit("https://");
        reveal_strlit("http://");
    }
    let https_ok = end >= 9 && v[0] == 'h' && v[1] == 't' && v[2] == 't' && v[3] == 'p' && v[4]
        == 's' && v[5] == ':' && v[6] == '/' && v[7] == '/';
    let http_ok = end >= 8 && v[0] == 'h' && v[1] == 't' && v[2] == 't' && v[3] == 'p' && v[4]
        == ':' && v[5] == '/' && v[6] == '/';
    proof {
        assert(forall|k: int| 0 <= k < end ==> t[k] == v@[k]);
        if end > 8 {
            assert(t.subrange(0, 8) == "https://"@ <==> (v@[0] == 'h' && v@[1] == 't' && v@[2]
                == 't' && v@[3] == 'p' && v@[4] == 's' && v@[5] == ':' && v@[6] == '/' && v@[7]
                == '/')) by {
                if v@[0] == 'h' && v@[1] == 't' && v@[2] == 't' && v@[3] == 'p' && v@[4] == 's'
                    && v@[5] == ':' && v@[6] == '/' && v@[7] == '/' {
                    assert(t.subrange(0, 8) =~= "https://"@);
                }
                if t.subrange(0, 8) == "https://"@ {
                    assert(t.subrange(0, 8)[0] == 'h');
                    assert(t.subrange(0, 8)[1] == 't');
                    assert(t.subrange(0, 8)[2] == 't');
                    assert(t.subrange(0, 8)[3] == 'p');
                    assert(t.subrange(0, 8)[4] == 's');
                    assert(t.subrange(0, 8)[5] == ':');
                    assert(t.subrange(0, 8)[6] == '/');
                    assert(t.subrange(0, 8)[7] == '/');
                }
            }
        }
        if end > 7 {
            assert(t.subrange(0, 7) == "http://"@ <==> (v@[0] == 'h' && v@[1] == 't' && v@[2]
                == 't' && v@[3] == 'p' && v@[4] == ':' && v@[5] == '/' && v@[6] == '/')) by {
                if v@[0] == 'h' && v@[1] == 't' && v@[2] == 't' && v@[3] == 'p' && v@[4] == ':'
                    && v@[5] == '/' && v@[6] == '/' {
                    assert(t.subrange(0, 7) =~= "http://"@);
                }
                if t.subrange(0, 7) == "http://"@ {
                    assert(t.subrange(0, 7)[0] == 'h');
                    assert(t.subrange(0, 7)[1] == 't');
                    assert(t.subrange(0, 7)[2] == 't');
                    assert(t.subrange(0, 7)[3] == 'p');
                    assert(t.subrange(0, 7)[4] == ':');
                    assert(t.subrange(0, 7)[5] == '/');
                    assert(t.subrange(0, 7)[6] == '/');
                }
            }
        }
    }
    if https_ok {
        if check_authority(&v, 8, end) {
            proof {
                assert(t.subrange(8, t.len() as int) =~= v@.subrange(8, end as int));
            }
            Some((v, end))
        } else {
            proof {
                assert(t.subrange(8, t.len() as int) =~= v@.subrange(8, end as int));
            }
            None
        }
    } else if http_ok {
        if check_authority(&v, 7, end) {
            proof {
                assert(t.subrange(7, t.len() as int) =~= v@.subrange(7, end as int));
            }
            Some((v, end))
        } else {
            proof {
                assert(t.subrange(7, t.len() as int) =~= v@.subrange(7, end as int));
            }
            None
        }
    } else {
        None
    }
}

fn check_param(s: &str) -> (r: bool)
    ensures
        r == valid_param(s@),
{
    let v = str_chars(s);
    if v.len() == 0 {
        return false;
    }
    let mut i: usize = 0;
    while i < v.len()
        invariant
            i <= v@.len(),
            v@ == s@,
            forall|k: int| 0 <= k < i ==> param_char(#[trigger] s@[k]),
        decreases v@.len() - i,
    {
        let c = v[i];
        let u = c as u32;
        if !((48 <= u && u <= 57) || (65 <= u && u <= 90) || (97 <= u && u <= 122) || c == '-' || c
            == '.' || c == '_' || c == '~') {
            return false;
        }
        i = i + 1;
    }
    true
}

/// The uniform contract of one query against the API: the response type
/// expected back, the request body to send, and one transformation from the
/// query value plus a host string into a full request descriptor.
pub trait EndPoint: Sized {
    /// The deserializable resource type expected back from the server.
    type Response;

    /// The request body to be sent; generally the unit value.
    type RequestBody;

    /// Abstract value of the request this query materializes against the
    /// host, or the error the combination is rejected with.
    spec fn spec_request(self, host: Seq<char>) -> Result<RequestV, Error>;

    /// Materializes the query into a request descriptor against the host.
    fn into_request(self, host: &str) -> (r: Result<Request<Self::RequestBody>, Error>)
        ensures
            match r {
                Ok(req) => self.spec_request(host@) matches Ok(m) && req.method == m.method
                    && req.url@ == m.url,
                Err(e) => self.spec_request(host@) == Err::<RequestV, Error>(e),
            },
    ;
}

/// The account-details query: all details of one account.
#[derive(Debug)]
pub struct AccountDetails {
    /// The id of the account to look up.
    pub account_id: String,
}

impl AccountDetails {
    /// Declares an account-details query for the given account id.
    pub fn new(account_id: String) -> (r: AccountDetails)
        ensures
            r.account_id@ == account_id@,
    {
        AccountDetails { account_id }
    }
}

impl EndPoint for AccountDetails {
    type Response = Account;

    type RequestBody = ();

    /// `GET {host}/accounts/{account_id}` with an empty body; rejected when
    /// the host cannot begin a URL or the id holds unsafe characters.
    open spec fn spec_request(self, host: Seq<char>) -> Result<RequestV, Error> {
        if !valid_host(host) {
            Err(Error::InvalidHost)
        } else if !valid_param(self.account_id@) {
            Err(Error::InvalidPathParameter)
        } else {
            Ok(
                RequestV {
                    method: Method::Get,
                    url: norm_host(host) + "/accounts/"@ + self.account_id@,
                },
            )
        }
    }

    fn into_request(self, host: &str) -> (r: Result<Request<()>, Error>) {
        match validate_host(host) {
            Some(p) => {
                let (hv, end) = p;
                if !check_param(self.account_id.as_str()) {
                    return Err(Error::InvalidPathParameter);
                }
                let base = chars_to_string(&hv, 0, end);
                let url = base.concat("/accounts/").concat(self.account_id.as_str());
                Ok(Request { method: Method::Get, url, body: () })
            },
            None => Err(Error::InvalidHost),
        }
    }
}

/// The asset-listing query, with its optional filters and paging controls.
#[derive(Debug)]
pub struct AllAssets {
    /// Filter on the asset code.
    pub asset_code: Option<String>,
    /// Filter on the asset issuer.
    pub asset_issuer: Option<String>,
    /// The paging cursor to continue from.
    pub cursor: Option<String>,
    /// The order to return the results in.
    pub order: Option<Order>,
}

impl AllAssets {
    /// Declares an asset-listing query with no filters and no paging.
    pub fn new() -> (r: AllAssets)
        ensures
            r.asset_code is None,
            r.asset_issuer is None,
            r.cursor is None,
            r.order is None,
    {
        AllAssets { asset_code: None, asset_issuer: None, cursor: None, order: None }
    }
}

/// The query parameters a listing query encodes, in canonical order.
pub open spec fn assets_params(q: AllAssets) -> Seq<(Seq<char>, Seq<char>)> {
    let p0 = Seq::<(Seq<char>, Seq<char>)>::empty();
    let p1 = match q.asset_code {
        Some(c) => p0.push(("asset_code"@, c@)),
        None => p0,
    };
    let p2 = match q.asset_issuer {
        Some(c) => p1.push(("asset_issuer"@, c@)),
        None => p1,
    };
    let p3 = match q.cursor {
        Some(c) => p2.push(("cursor"@, c@)),
        None => p2,
    };
    match q.order {
        Some(o) => p3.push(("order"@, o.spec_param())),
        None => p3,
    }
}

/// Every string parameter present on the query is safe to embed.
pub open spec fn assets_params_valid(q: AllAssets) -> bool {
    &&& (q.asset_code matches Some(c) ==> valid_param(c@))
    &&& (q.asset_issuer matches Some(c) ==> valid_param(c@))
    &&& (q.cursor matches Some(c) ==> valid_param(c@))
}

/// `key=value` pairs joined with `&`, in order.
pub open spec fn query_string(ps: Seq<(Seq<char>, Seq<char>)>) -> Seq<char>
    decreases ps.len(),
{
    if ps.len() == 0 {
        Seq::empty()
    } else if ps.len() == 1 {
        ps[0].0 + "="@ + ps[0].1
    } else {
        query_string(ps.drop_last()) + "&"@ + ps.last().0 + "="@ + ps.last().1
    }
}

fn push_param(qs: &mut String, any: bool, key: &str, val: &str)
    ensures
        any ==> final(qs)@ == old(qs)@ + "&"@ + key@ + "="@ + val@,
        !any ==> final(qs)@ == old(qs)@ + key@ + "="@ + val@,
{
    if any {
        qs.append("&");
    }
    qs.append(key);
    qs.append("=");
    qs.append(val);
}

impl EndPoint for AllAssets {
    type Response = crate::records::Records<crate::asset::Asset>;

    type RequestBody = ();

    /// `GET {host}/assets` with the present parameters encoded in canonical
    /// order, and an empty body; rejected when the host cannot begin a URL
    /// or a present parameter holds unsafe characters.
    open spec fn spec_request(self, host: Seq<char>) -> Result<RequestV, Error> {
        if !valid_host(host) {
            Err(Error::InvalidHost)
        } else if !assets_params_valid(self) {
            Err(Error::InvalidPathParameter)
        } else {
            let ps = assets_params(self);
            Ok(
                RequestV {
                    method: Method::Get,
                    url: norm_host(host) + "/assets"@ + (if ps.len() == 0 {
                        Seq::<char>::empty()
                    } else {
                        "?"@ + query_string(ps)
                    }),
                },
            )
        }
    }

    #[verifier::rlimit(60)]
    fn into_request(self, host: &str) -> (r: Result<Request<()>, Error>) {
        match validate_host(host) {
            Some(p) => {
                let (hv, end) = p;
                let mut qs = String::new();
                let mut any = false;
                let ghost p0 = Seq::<(Seq<char>, Seq<char>)>::empty();
                match &self.asset_code {
                    Some(c) => {
                        if !check_param(c.as_str()) {
                            return Err(Error::InvalidPathParameter);
                        }
                        proof {
                            lemma_query_string_push(p0, "asset_code"@, c@);
                        }
                        push_param(&mut qs, any, "asset_code", c.as_str());
                        any = true;
                    },
                    None => {},
                }
                let ghost p1 = match self.asset_code {
                    Some(c) => p0.push(("asset_code"@, c@)),
                    None => p0,
                };
                proof {
                    assert(qs@ == query_string(p1));
                    assert(any == (p1.len() > 0));
                }
                match &self.asset_issuer {
                    Some(c) => {
                        if !check_param(c.as_str()) {
                            return Err(Error::InvalidPathParameter);
                        }
                        proof {
                            lemma_query_string_push(p1, "asset_issuer"@, c@);
                        }
                        push_param(&mut qs, any, "asset_issuer", c.as_str());
                        any = true;
                    },
                    None => {},
                }
                let ghost p2 = match self.asset_issuer {
                    Some(c) => p1.push(("asset_issuer"@, c@)),
                    None => p1,
                };
                proof {
                    assert(qs@ == query_string(p2));
                    assert(any == (p2.len() > 0));
                }
                match &self.cursor {
                    Some(c) => {
                        if !check_param(c.as_str()) {
                            return Err(Error::InvalidPathParameter);
                        }
                        proof {
                            lemma_query_string_push(p2, "cursor"@, c@);
                        }
                        push_param(&mut qs, any, "cursor", c.as_str());
                        any = true;
                    },
                    None => {},
                }
                let ghost p3 = match self.cursor {
                    Some(c) => p2.push(("cursor"@, c@)),
                    None => p2,
                };
                proof {
                    assert(qs@ == query_string(p3));
                    assert(any == (p3.len() > 0));
                }
                match &self.order {
                    Some(o) => {
                        let enc = o.to_param();
                        proof {
                            lemma_query_string_push(p3, "order"@, o.spec_param());
                        }
                        push_param(&mut qs, any, "order", enc.as_str());
                        any = true;
                    },
                    None => {},
                }
                let ghost ps = assets_params(self);
                proof {
                    assert(qs@ == query_string(ps));
                    assert(any == (ps.len() > 0));
                }
                let base = chars_to_string(&hv, 0, end);
                let mut url = base.concat("/assets");
                if any {
                    url.append("?");
                    url.append(qs.as_str());
                    proof {
                        assert(url@ =~= norm_host(host@) + "/assets"@ + ("?"@ + query_string(
                            ps,
                        )));
                    }
                } else {
                    proof {
                        assert(url@ =~= norm_host(host@) + "/assets"@ + Seq::<char>::empty());
                    }
                }
                Ok(Request { method: Method::Get, url, body: () })
            },
            None => Err(Error::InvalidHost),
        }
    }
}

/// Appending one parameter to a parameter list extends its query string with
/// the separator (when the list was nonempty), the key, `=`, and the value.
proof fn lemma_query_string_push(ps: Seq<(Seq<char>, Seq<char>)>, k: Seq<char>, v: Seq<char>)
    ensures
        ps.len() > 0 ==> query_string(ps.push((k, v))) == query_string(ps) + "&"@ + k + "="@ + v,
        ps.len() == 0 ==> query_string(ps.push((k, v))) == k + "="@ + v,
{
    let q = ps.push((k, v));
    assert(q.drop_last() =~= ps);
    assert(q.last() == (k, v));
    if ps.len() == 0 {
        assert(q[0] == (k, v));
    }
}

/// A listing query carrying the descending sort direction produces a URL
/// that contains `order=desc` in its query string.
pub proof fn lemma_desc_listing_url(q: AllAssets, host: Seq<char>)
    requires
        q.order == Some(Order::Desc),
        q.spec_request(host) is Ok,
    ensures
        q.spec_request(host) matches Ok(m) && exists|i: int|
            0 <= i && i + 10 <= m.url.len() && #[trigger] m.url.subrange(i, i + 10)
                == "order=desc"@,
{
    reveal_strlit("order");
    reveal_strlit("=");
    reveal_strlit("desc");
    reveal_strlit("order=desc");
    let ps = assets_params(q);
    let m = match q.spec_request(host) {
        Ok(m) => m,
        Err(_) => RequestV { method: Method::Get, url: Seq::empty() },
    };
    assert(ps.last() == ("order"@, "desc"@));
    assert(ps.len() >= 1);
    assert(("order"@ + "="@ + "desc"@) =~= "order=desc"@);
    let pre = if ps.len() == 1 {
        norm_host(host) + "/assets"@ + "?"@
    } else {
        norm_host(host) + "/assets"@ + "?"@ + query_string(ps.drop_last()) + "&"@
    };
    if ps.len() == 1 {
        assert(ps[0] == ps.last());
        assert(m.url =~= pre + "order=desc"@);
    } else {
        assert(m.url =~= pre + "order=desc"@);
    }
    assert(m.url.subrange(pre.len() as int, pre.len() as int + 10) =~= "order=desc"@);
    assert(0 <= pre.len() as int && pre.len() as int + 10 <= m.url.len());
}

} // verus!
