use crate::error::Error;
use crate::num::{all_digits, digits_val, is_digit, spec_parse_u64};
use crate::text::{chars_to_string, str_chars};
use vstd::prelude::*;

verus! {

/// Abstract model of a JSON document: strings are character sequences,
/// numbers are unsigned 64-bit integers, objects keep their fields in
/// document order.
pub enum JsonV {
    Null,
    Bool(bool),
    UInt(u64),
    Str(Seq<char>),
    Arr(Seq<JsonV>),
    Obj(Seq<(Seq<char>, JsonV)>),
}

/// A JSON document as held in memory.
///
/// The accepted grammar covers the wire format of the ledger-query API:
/// objects, arrays, strings (with the single-character escapes), `null`,
/// booleans, and non-negative integer numbers that fit in 64 bits.
#[derive(Debug)]
pub enum Json {
    Null,
    Bool(bool),
    UInt(u64),
    Str(String),
    Arr(Vec<Json>),
    Obj(Vec<(String, Json)>),
}

/// Abstraction of an in-memory document.
pub open spec fn jview(j: Json) -> JsonV
    decreases j,
{
    match j {
        Json::Null => JsonV::Null,
        Json::Bool(b) => JsonV::Bool(b),
        Json::UInt(n) => JsonV::UInt(n),
        Json::Str(s) => JsonV::Str(s@),
        Json::Arr(a) => JsonV::Arr(jview_seq(a@)),
        Json::Obj(m) => JsonV::Obj(jview_obj(m@)),
    }
}

/// Abstraction of a sequence of documents.
pub open spec fn jview_seq(a: Seq<Json>) -> Seq<JsonV>
    decreases a,
{
    if a.len() == 0 {
        Seq::empty()
    } else {
        seq![jview(a[0])] + jview_seq(a.drop_first())
    }
}

/// Abstraction of a sequence of object fields.
pub open spec fn jview_obj(m: Seq<(String, Json)>) -> Seq<(Seq<char>, JsonV)>
    decreases m,
{
    if m.len() == 0 {
        Seq::empty()
    } else {
        seq![(m[0].0@, jview(m[0].1))] + jview_obj(m.drop_first())
    }
}

impl View for Json {
    type V = JsonV;

    open spec fn view(&self) -> JsonV {
        jview(*self)
    }
}

proof fn lemma_jview_seq_cons(x: Json, t: Seq<Json>)
    ensures
        jview_seq(seq![x] + t) == seq![jview(x)] + jview_seq(t),
{
    let s = seq![x] + t;
    assert(s[0] == x);
    assert(s.drop_first() =~= t);
}

proof fn lemma_jview_obj_cons(k: String, x: Json, t: Seq<(String, Json)>)
    ensures
        jview_obj(seq![(k, x)] + t) == seq![(k@, jview(x))] + jview_obj(t),
{
    let s = seq![(k, x)] + t;
    assert(s[0] == (k, x));
    assert(s.drop_first() =~= t);
}

/// The abstraction of a field sequence keeps its length and its entries.
pub proof fn lemma_jview_seq_len(a: Seq<Json>)
    ensures
        jview_seq(a).len() == a.len(),
        forall|i: int| 0 <= i < a.len() ==> jview_seq(a)[i] == jview(#[trigger] a[i]),
    decreases a.len(),
{
    if a.len() > 0 {
        lemma_jview_seq_len(a.drop_first());
        assert forall|i: int| 0 <= i < a.len() implies jview_seq(a)[i] == jview(#[trigger] a[i]) by {
            if i > 0 {
                assert(a.drop_first()[i - 1] == a[i]);
            }
        }
    }
}

/// The abstraction of an object keeps its length, its keys and its values.
pub proof fn lemma_jview_obj_len(m: Seq<(String, Json)>)
    ensures
        jview_obj(m).len() == m.len(),
        forall|i: int|
            0 <= i < m.len() ==> jview_obj(m)[i] == (#[trigger] m[i].0@, jview(m[i].1)),
    decreases m.len(),
{
    if m.len() > 0 {
        lemma_jview_obj_len(m.drop_first());
        assert forall|i: int|
            0 <= i < m.len() implies jview_obj(m)[i] == (#[trigger] m[i].0@, jview(m[i].1)) by {
            if i > 0 {
                assert(m.drop_first()[i - 1] == m[i]);
            }
        }
    }
}

/// A document and its abstraction always carry the same constructor.
pub proof fn lemma_jview_cases(j: Json)
    ensures
        jview(j) is Null <==> j is Null,
        jview(j) is Bool <==> j is Bool,
        jview(j) is UInt <==> j is UInt,
        jview(j) is Str <==> j is Str,
        jview(j) is Arr <==> j is Arr,
        jview(j) is Obj <==> j is Obj,
{
    match j {
        Json::Null => {},
        Json::Bool(_) => {},
        Json::UInt(_) => {},
        Json::Str(_) => {},
        Json::Arr(_) => {},
        Json::Obj(_) => {},
    }
}

/// JSON whitespace.
pub open spec fn is_ws(c: char) -> bool {
    c == ' ' || c == '\t' || c == '\n' || c == '\r'
}

/// First position at or after `i` that does not hold whitespace.
pub open spec fn skip_ws(s: Seq<char>, i: int) -> int
    decreases s.len() - i,
{
    if 0 <= i < s.len() && is_ws(s[i]) {
        skip_ws(s, i + 1)
    } else {
        i
    }
}

fn skip_ws_exec(v: &Vec<char>, i: usize) -> (j: usize)
    requires
        i <= v@.len(),
    ensures
        j == skip_ws(v@, i as int),
        i <= j <= v@.len(),
{
    let mut j: usize = i;
    while j < v.len() && (v[j] == ' ' || v[j] == '\t' || v[j] == '\n' || v[j] == '\r')
        invariant
            i <= j <= v@.len(),
            skip_ws(v@, i as int) == skip_ws(v@, j as int),
        decreases v@.len() - j,
    {
        j = j + 1;
    }
    j
}

/// First position at or after `i` that does not hold an ASCII digit.
pub open spec fn digit_run_end(s: Seq<char>, i: int) -> int
    decreases s.len() - i,
{
    if 0 <= i < s.len() && is_digit(s[i]) {
        digit_run_end(s, i + 1)
    } else {
        i
    }
}

fn digit_run_end_exec(v: &Vec<char>, i: usize) -> (j: usize)
    requires
        i <= v@.len(),
    ensures
        j == digit_run_end(v@, i as int),
        i <= j <= v@.len(),
{
    let mut j: usize = i;
    while j < v.len() && 48 <= v[j] as u32 && v[j] as u32 <= 57
        invariant
            i <= j <= v@.len(),
            digit_run_end(v@, i as int) == digit_run_end(v@, j as int),
        decreases v@.len() - j,
    {
        j = j + 1;
    }
    j
}

/// Replacement for a single-character string escape.
pub open spec fn escape_char(c: char) -> Option<char> {
    if c == '"' {
        Some('"')
    } else if c == '\\' {
        Some('\\')
    } else if c == '/' {
        Some('/')
    } else if c == 'n' {
        Some('\n')
    } else if c == 't' {
        Some('\t')
    } else if c == 'r' {
        Some('\r')
    } else if c == 'b' {
        Some('\u{0008}')
    } else if c == 'f' {
        Some('\u{000C}')
    } else {
        None
    }
}

fn escape_char_exec(c: char) -> (r: Option<char>)
    ensures
        r == escape_char(c),
{
    if c == '"' {
        Some('"')
    } else if c == '\\' {
        Some('\\')
    } else if c == '/' {
        Some('/')
    } else if c == 'n' {
        Some('\n')
    } else if c == 't' {
        Some('\t')
    } else if c == 'r' {
        Some('\r')
    } else if c == 'b' {
        Some('\u{0008}')
    } else if c == 'f' {
        Some('\u{000C}')
    } else {
        None
    }
}

/// Parses the body of a string literal starting just after the opening
/// quote; yields the decoded content and the position after the closing
/// quote.
pub open spec fn spec_parse_string(s: Seq<char>, i: int) -> Option<(Seq<char>, int)>
    decreases s.len() - i,
{
    if !(0 <= i < s.len()) {
        None
    } else if s[i] == '"' {
        Some((Seq::empty(), i + 1))
    } else if s[i] == '\\' {
        if i + 1 < s.len() {
            match escape_char(s[i + 1]) {
                Some(e) => match spec_parse_string(s, i + 2) {
                    Some(p) => Some((seq![e] + p.0, p.1)),
                    None => None,
                },
                None => None,
            }
        } else {
            None
        }
    } else if s[i] as u32 >= 32 {
        match spec_parse_string(s, i + 1) {
            Some(p) => Some((seq![s[i]] + p.0, p.1)),
            None => None,
        }
    } else {
        None
    }
}

fn parse_string_chars(v: &Vec<char>, i: usize) -> (r: Option<(Vec<char>, usize)>)
    requires
        i <= v@.len(),
    ensures
        match r {
            Some(p) => spec_parse_string(v@, i as int) == Some((p.0@, p.1 as int)) && i <= p.1
                <= v@.len(),
            None => spec_parse_string(v@, i as int) is None,
        },
    decreases v@.len() - i,
{
    if i >= v.len() {
        return None;
    }
    let c = v[i];
    if c == '"' {
        let content: Vec<char> = Vec::new();
        proof {
            assert(content@ =~= Seq::<char>::empty());
        }
        Some((content, i + 1))
    } else if c == '\\' {
        if i + 1 < v.len() {
            match escape_char_exec(v[i + 1]) {
                Some(e) => {
                    match parse_string_chars(v, i + 2) {
                        Some(p) => {
                            let (mut rest, j) = p;
                            let ghost tail = rest@;
                            rest.insert(0, e);
                            proof {
                                assert(rest@ =~= seq![e] + tail);
                            }
                            Some((rest, j))
                        },
                        None => None,
                    }
                },
                None => None,
            }
        } else {
            None
        }
    } else if (c as u32) >= 32 {
        match parse_string_chars(v, i + 1) {
            Some(p) => {
                let (mut rest, j) = p;
                let ghost tail = rest@;
                rest.insert(0, c);
                proof {
                    assert(rest@ =~= seq![c] + tail);
                }
                Some((rest, j))
            },
            None => None,
        }
    } else {
        None
    }
}

/// Parses a number token: a maximal run of ASCII digits whose value fits in
/// an unsigned 64-bit integer.
pub open spec fn spec_parse_number(s: Seq<char>, i: int) -> Option<(JsonV, int)> {
    let e = digit_run_end(s, i);
    match spec_parse_u64(s.subrange(i, e)) {
        Some(n) => Some((JsonV::UInt(n), e)),
        None => None,
    }
}

fn parse_number_chars(v: &Vec<char>, i: usize) -> (r: Option<(u64, usize)>)
    requires
        i <= v@.len(),
    ensures
        match r {
            Some(p) => spec_parse_number(v@, i as int) == Some((JsonV::UInt(p.0), p.1 as int))
                && i <= p.1 <= v@.len(),
            None => spec_parse_number(v@, i as int) is None,
        },
{
    let e = digit_run_end_exec(v, i);
    match crate::num::parse_u64_range(v, i, e) {
        Some(n) => Some((n, e)),
        None => None,
    }
}

/// Parses one JSON value starting exactly at position `i`.
///
/// The fuel argument bounds the nesting of arrays and objects; the top-level
/// entry point supplies one unit more than the document's length, which every
/// document can reach, since each nesting step consumes input.
pub open spec fn spec_parse_value(s: Seq<char>, i: int, fuel: nat) -> Option<(JsonV, int)>
    decreases fuel,
{
    if fuel == 0 {
        None
    } else if !(0 <= i < s.len()) {
        None
    } else if s[i] == 'n' {
        if i + 4 <= s.len() && s[i + 1] == 'u' && s[i + 2] == 'l' && s[i + 3] == 'l' {
            Some((JsonV::Null, i + 4))
        } else {
            None
        }
    } else if s[i] == 't' {
        if i + 4 <= s.len() && s[i + 1] == 'r' && s[i + 2] == 'u' && s[i + 3] == 'e' {
            Some((JsonV::Bool(true), i + 4))
        } else {
            None
        }
    } else if s[i] == 'f' {
        if i + 5 <= s.len() && s[i + 1] == 'a' && s[i + 2] == 'l' && s[i + 3] == 's' && s[i + 4]
            == 'e' {
            Some((JsonV::Bool(false), i + 5))
        } else {
            None
        }
    } else if s[i] == '"' {
        match spec_parse_string(s, i + 1) {
            Some(p) => Some((JsonV::Str(p.0), p.1)),
            None => None,
        }
    } else if is_digit(s[i]) {
        spec_parse_number(s, i)
    } else if s[i] == '[' {
        let j = skip_ws(s, i + 1);
        if j < s.len() && s[j] == ']' {
            Some((JsonV::Arr(Seq::empty()), j + 1))
        } else {
            match spec_parse_elems(s, j, (fuel - 1) as nat) {
                Some(p) => Some((JsonV::Arr(p.0), p.1)),
                None => None,
            }
        }
    } else if s[i] == '{' {
        let j = skip_ws(s, i + 1);
        if j < s.len() && s[j] == '}' {
            Some((JsonV::Obj(Seq::empty()), j + 1))
        } else {
            match spec_parse_members(s, j, (fuel - 1) as nat) {
                Some(p) => Some((JsonV::Obj(p.0), p.1)),
                None => None,
            }
        }
    } else {
        None
    }
}

/// Parses the elements of a nonempty array up to and including `]`.
pub open spec fn spec_parse_elems(s: Seq<char>, i: int, fuel: nat) -> Option<
    (Seq<JsonV>, int),
>
    decreases fuel,
{
    if fuel == 0 {
        None
    } else {
        match spec_parse_value(s, i, (fuel - 1) as nat) {
            Some(p) => {
                let k = skip_ws(s, p.1);
                if k < s.len() && s[k] == ',' {
                    match spec_parse_elems(s, skip_ws(s, k + 1), (fuel - 1) as nat) {
                        Some(q) => Some((seq![p.0] + q.0, q.1)),
                        None => None,
                    }
                } else if k < s.len() && s[k] == ']' {
                    Some((seq![p.0], k + 1))
                } else {
                    None
                }
            },
            None => None,
        }
    }
}

/// Parses the fields of a nonempty object up to and including `}`.
pub open spec fn spec_parse_members(s: Seq<char>, i: int, fuel: nat) -> Option<
    (Seq<(Seq<char>, JsonV)>, int),
>
    decreases fuel,
{
    if fuel == 0 {
        None
    } else if 0 <= i < s.len() && s[i] == '"' {
        match spec_parse_string(s, i + 1) {
            Some(kp) => {
                let k = skip_ws(s, kp.1);
                if k < s.len() && s[k] == ':' {
                    match spec_parse_value(s, skip_ws(s, k + 1), (fuel - 1) as nat) {
                        Some(vp) => {
                            let q = skip_ws(s, vp.1);
                            if q < s.len() && s[q] == ',' {
                                match spec_parse_members(s, skip_ws(s, q + 1), (fuel - 1) as nat) {
                                    Some(mp) => Some((seq![(kp.0, vp.0)] + mp.0, mp.1)),
                                    None => None,
                                }
                            } else if q < s.len() && s[q] == '}' {
                                Some((seq![(kp.0, vp.0)], q + 1))
                            } else {
                                None
                            }
                        },
                        None => None,
                    }
                } else {
                    None
                }
            },
            None => None,
        }
    } else {
        None
    }
}

fn parse_value_chars(v: &Vec<char>, i: usize, fuel: u128) -> (r: Option<(Json, usize)>)
    requires
        i <= v@.len(),
    ensures
        match r {
            Some(p) => spec_parse_value(v@, i as int, fuel as nat) == Some(
                (jview(p.0), p.1 as int),
            ) && i <= p.1 <= v@.len(),
            None => spec_parse_value(v@, i as int, fuel as nat) is None,
        },
    decreases fuel,
{
    if fuel == 0 {
        return None;
    }
    if i >= v.len() {
        return None;
    }
    let c = v[i];
    if c == 'n' {
        if v.len() - i >= 4 && v[i + 1] == 'u' && v[i + 2] == 'l' && v[i + 3] == 'l' {
            Some((Json::Null, i + 4))
        } else {
            None
        }
    } else if c == 't' {
        if v.len() - i >= 4 && v[i + 1] == 'r' && v[i + 2] == 'u' && v[i + 3] == 'e' {
            Some((Json::Bool(true), i + 4))
        } else {
            None
        }
    } else if c == 'f' {
        if v.len() - i >= 5 && v[i + 1] == 'a' && v[i + 2] == 'l' && v[i + 3] == 's' && v[i + 4]
            == 'e' {
            Some((Json::Bool(false), i + 5))
        } else {
            None
        }
    } else if c == '"' {
        match parse_string_chars(v, i + 1) {
            Some(p) => {
                let (content, j) = p;
                let n = content.len();
                let st = chars_to_string(&content, 0, n);
                proof {
                    assert(content@.subrange(0, n as int) =~= content@);
                }
                Some((Json::Str(st), j))
            },
            None => None,
        }
    } else {
        let u = c as u32;
        if 48 <= u && u <= 57 {
            match parse_number_chars(v, i) {
                Some(p) => Some((Json::UInt(p.0), p.1)),
                None => None,
            }
        } else if c == '[' {
            let j = skip_ws_exec(v, i + 1);
            if j < v.len() && v[j] == ']' {
                let a: Vec<Json> = Vec::new();
                proof {
                    assert(a@ =~= Seq::<Json>::empty());
                }
                Some((Json::Arr(a), j + 1))
            } else {
                match parse_elems_chars(v, j, fuel - 1) {
                    Some(p) => Some((Json::Arr(p.0), p.1)),
                    None => None,
                }
            }
        } else if c == '{' {
            let j = skip_ws_exec(v, i + 1);
            if j < v.len() && v[j] == '}' {
                let m: Vec<(String, Json)> = Vec::new();
                proof {
                    assert(m@ =~= Seq::<(String, Json)>::empty());
                }
                Some((Json::Obj(m), j + 1))
            } else {
                match parse_members_chars(v, j, fuel - 1) {
                    Some(p) => Some((Json::Obj(p.0), p.1)),
                    None => None,
                }
            }
        } else {
            None
        }
    }
}

fn parse_elems_chars(v: &Vec<char>, i: usize, fuel: u128) -> (r: Option<(Vec<Json>, usize)>)
    requires
        i <= v@.len(),
    ensures
        match r {
            Some(p) => spec_parse_elems(v@, i as int, fuel as nat) == Some(
                (jview_seq(p.0@), p.1 as int),
            ) && i <= p.1 <= v@.len(),
            None => spec_parse_elems(v@, i as int, fuel as nat) is None,
        },
    decreases fuel,
{
    if fuel == 0 {
        return None;
    }
    match parse_value_chars(v, i, fuel - 1) {
        Some(p) => {
            let (val, j) = p;
            let k = skip_ws_exec(v, j);
            if k < v.len() && v[k] == ',' {
                let n = skip_ws_exec(v, k + 1);
                match parse_elems_chars(v, n, fuel - 1) {
                    Some(q) => {
                        let (mut rest, e) = q;
                        let ghost tail = rest@;
                        proof {
                            lemma_jview_seq_cons(val, tail);
                        }
                        rest.insert(0, val);
                        proof {
                            assert(rest@ =~= seq![val] + tail);
                        }
                        Some((rest, e))
                    },
                    None => None,
                }
            } else if k < v.len() && v[k] == ']' {
                let mut a: Vec<Json> = Vec::new();
                proof {
                    lemma_jview_seq_cons(val, Seq::empty());
                }
                a.push(val);
                proof {
                    assert(a@ =~= seq![val] + Seq::<Json>::empty());
                    assert(jview_seq(Seq::<Json>::empty()) =~= Seq::<JsonV>::empty());
                    assert(seq![jview(val)] + Seq::<JsonV>::empty() =~= seq![jview(val)]);
                }
                Some((a, k + 1))
            } else {
                None
            }
        },
        None => None,
    }
}

fn parse_members_chars(v: &Vec<char>, i: usize, fuel: u128) -> (r: Option<
    (Vec<(String, Json)>, usize),
>)
    requires
        i <= v@.len(),
    ensures
        match r {
            Some(p) => spec_parse_members(v@, i as int, fuel as nat) == Some(
                (jview_obj(p.0@), p.1 as int),
            ) && i <= p.1 <= v@.len(),
            None => spec_parse_members(v@, i as int, fuel as nat) is None,
        },
    decreases fuel,
{
    if fuel == 0 {
        return None;
    }
    if i >= v.len() || !(v[i] == '"') {
        return None;
    }
    match parse_string_chars(v, i + 1) {
        Some(kp) => {
            let (kchars, j) = kp;
            let nk = kchars.len();
            let key = chars_to_string(&kchars, 0, nk);
            proof {
                assert(kchars@.subrange(0, nk as int) =~= kchars@);
            }
            let k = skip_ws_exec(v, j);
            if k < v.len() && v[k] == ':' {
                let n = skip_ws_exec(v, k + 1);
                match parse_value_chars(v, n, fuel - 1) {
                    Some(vp) => {
                        let (val, p1) = vp;
                        let q = skip_ws_exec(v, p1);
                        if q < v.len() && v[q] == ',' {
                            let n2 = skip_ws_exec(v, q + 1);
                            match parse_members_chars(v, n2, fuel - 1) {
                                Some(mp) => {
                                    let (mut rest, e) = mp;
                                    let ghost tail = rest@;
                                    proof {
                                        lemma_jview_obj_cons(key, val, tail);
                                    }
                                    rest.insert(0, (key, val));
                                    proof {
                                        assert(rest@ =~= seq![(key, val)] + tail);
                                    }
                                    Some((rest, e))
                                },
                                None => None,
                            }
                        } else if q < v.len() && v[q] == '}' {
                            let mut m: Vec<(String, Json)> = Vec::new();
                            proof {
                                lemma_jview_obj_cons(key, val, Seq::empty());
                            }
                            m.push((key, val));
                            proof {
                                assert(m@ =~= seq![(key, val)] + Seq::<(String, Json)>::empty());
                                assert(jview_obj(Seq::<(String, Json)>::empty())
                                    =~= Seq::<(Seq<char>, JsonV)>::empty());
                                assert(seq![(key@, jview(val))] + Seq::<(Seq<char>, JsonV)>::empty()
                                    =~= seq![(key@, jview(val))]);
                            }
                            Some((m, q + 1))
                        } else {
                            None
                        }
                    },
                    None => None,
                }
            } else {
                None
            }
        },
        None => None,
    }
}

/// Parses a complete document: one value, surrounded by optional whitespace,
/// with nothing after it.
pub open spec fn spec_parse_json(s: Seq<char>) -> Result<JsonV, Error> {
    match spec_parse_value(s, skip_ws(s, 0), s.len() + 1) {
        Some(p) => if skip_ws(s, p.1) == s.len() {
            Ok(p.0)
        } else {
            Err(Error::Syntax)
        },
        None => Err(Error::Syntax),
    }
}

/// Parses a complete JSON document, or fails with `Error::Syntax`.
pub fn parse_json(s: &str) -> (r: Result<Json, Error>)
    ensures
        match r {
            Ok(j) => spec_parse_json(s@) == Ok::<JsonV, Error>(jview(j)),
            Err(e) => spec_parse_json(s@) == Err::<JsonV, Error>(e),
        },
{
    let v = str_chars(s);
    let start = skip_ws_exec(&v, 0);
    let fuel: u128 = (v.len() as u128) + 1;
    match parse_value_chars(&v, start, fuel) {
        Some(p) => {
            let (j, e) = p;
            let tail = skip_ws_exec(&v, e);
            if tail == v.len() {
                Ok(j)
            } else {
                Err(Error::Syntax)
            }
        },
        None => Err(Error::Syntax),
    }
}

/// First value bound to the key in an object's field sequence, if any.
pub open spec fn spec_lookup(m: Seq<(Seq<char>, JsonV)>, k: Seq<char>) -> Option<JsonV>
    decreases m.len(),
{
    if m.len() == 0 {
        None
    } else if m[0].0 == k {
        Some(m[0].1)
    } else {
        spec_lookup(m.drop_first(), k)
    }
}

fn lookup_from<'a>(fields: &'a Vec<(String, Json)>, i: usize, key: &String) -> (r: Option<
    &'a Json,
>)
    requires
        i <= fields@.len(),
    ensures
        match r {
            Some(j) => spec_lookup(
                jview_obj(fields@.subrange(i as int, fields@.len() as int)),
                key@,
            ) == Some(jview(*j)),
            None => spec_lookup(
                jview_obj(fields@.subrange(i as int, fields@.len() as int)),
                key@,
            ) is None,
        },
    decreases fields@.len() - i,
{
    if i >= fields.len() {
        proof {
            assert(fields@.subrange(i as int, fields@.len() as int) =~= Seq::<(
                String,
                Json,
            )>::empty());
        }
        None
    } else {
        let ghost rest = fields@.subrange(i as int, fields@.len() as int);
        let ghost tail = fields@.subrange(i + 1, fields@.len() as int);
        proof {
            lemma_jview_obj_cons(fields@[i as int].0, fields@[i as int].1, tail);
            assert(rest =~= seq![(fields@[i as int].0, fields@[i as int].1)] + tail);
            assert(jview_obj(rest).drop_first() =~= jview_obj(tail));
        }
        if fields[i].0 == *key {
            Some(&fields[i].1)
        } else {
            lookup_from(fields, i + 1, key)
        }
    }
}

/// Looks up the first field with the given key.
pub fn lookup<'a>(fields: &'a Vec<(String, Json)>, key: &String) -> (r: Option<&'a Json>)
    ensures
        match r {
            Some(j) => spec_lookup(jview_obj(fields@), key@) == Some(jview(*j)),
            None => spec_lookup(jview_obj(fields@), key@) is None,
        },
{
    proof {
        assert(fields@.subrange(0, fields@.len() as int) =~= fields@);
    }
    lookup_from(fields, 0, key)
}

} // verus!
