//! The grammar of the protocol's response bodies, and its parser.
//!
//! Every JSON body the two services send is a single object whose member
//! values are strings or null: `{"session": "..."}`, `{"id_token": "..."}`,
//! `{"email": "..." | null}`. The spec functions below define that grammar
//! over `Seq<char>`; the executable parser is proved to return exactly what
//! the grammar says, so the response decoders can state their results
//! against the grammar alone.
//!
//! The grammar is deliberately no wider than those shapes: a member whose
//! value is a number, an array or a nested object makes the whole body
//! malformed, where a general JSON decoder would have ignored an unknown
//! member of such a type. The services' responses carry none.

use vstd::prelude::*;

verus! {

/// A member value of a response object: a string or null.
pub enum JsonValue {
    Null,
    Str(Seq<char>),
}

/// The executable form of a member value.
#[derive(Debug)]
pub enum FieldValue {
    Null,
    Text(String),
}

impl View for FieldValue {
    type V = JsonValue;

    open spec fn view(&self) -> JsonValue {
        match self {
            FieldValue::Null => JsonValue::Null,
            FieldValue::Text(s) => JsonValue::Str(s@),
        }
    }
}

/// What looking a member up in a response body yields: the body is not an
/// object of this grammar at all, the member is absent, or its value.
#[derive(Debug)]
pub enum FieldLookup {
    Malformed,
    Missing,
    Found(FieldValue),
}

pub open spec fn is_ws(c: char) -> bool {
    c == ' ' || c == '\t' || c == '\n' || c == '\r'
}

/// Index of the first character at or after `i` that is not whitespace.
pub open spec fn skip_ws(s: Seq<char>, i: int) -> int
    decreases s.len() - i,
{
    if 0 <= i < s.len() && is_ws(s[i]) {
        skip_ws(s, i + 1)
    } else {
        i
    }
}

/// The character an escape sequence `\c` stands for, if `c` is a supported
/// escape. The `\u` form is not part of this grammar: the tokens and
/// addresses the services mint never need it, and a body using it is
/// rejected as malformed.
pub open spec fn unescaped(c: char) -> Option<char> {
    if c == '"' {
        Some('"')
    } else if c == '\\' {
        Some('\\')
    } else if c == '/' {
        Some('/')
    } else if c == 'n' {
        Some('\n')
    } else if c == 't' {
        Some('\t')
    } else if c == 'r' {
        Some('\r')
    } else if c == 'b' {
        Some('\u{0008}')
    } else if c == 'f' {
        Some('\u{000c}')
    } else {
        None
    }
}

/// Parses the rest of a string literal, starting just after the opening
/// quote. Returns the decoded characters and the index after the closing
/// quote. Control characters must be escaped, as in JSON.
pub open spec fn parse_string_tail(s: Seq<char>, i: int) -> Option<(Seq<char>, int)>
    decreases s.len() - i,
{
    if !(0 <= i < s.len()) {
        None
    } else if s[i] == '"' {
        Some((Seq::empty(), i + 1))
    } else if s[i] == '\\' {
        if i + 1 < s.len() {
            match unescaped(s[i + 1]) {
                Some(u) => match parse_string_tail(s, i + 2) {
                    Some(p) => Some((seq![u] + p.0, p.1)),
                    None => None,
                },
                None => None,
            }
        } else {
            None
        }
    } else if s[i] as u32 >= 0x20 {
        match parse_string_tail(s, i + 1) {
            Some(p) => Some((seq![s[i]] + p.0, p.1)),
            None => None,
        }
    } else {
        None
    }
}

/// Parses a string literal at `i`.
pub open spec fn parse_string(s: Seq<char>, i: int) -> Option<(Seq<char>, int)> {
    if 0 <= i < s.len() && s[i] == '"' {
        parse_string_tail(s, i + 1)
    } else {
        None
    }
}

/// Parses a member value at `i`: a string literal or the word `null`.
pub open spec fn parse_value(s: Seq<char>, i: int) -> Option<(JsonValue, int)> {
    if 0 <= i < s.len() && s[i] == '"' {
        match parse_string_tail(s, i + 1) {
            Some(p) => Some((JsonValue::Str(p.0), p.1)),
            None => None,
        }
    } else if 0 <= i && i + 4 <= s.len() && s[i] == 'n' && s[i + 1] == 'u' && s[i + 2] == 'l'
        && s[i + 3] == 'l' {
        Some((JsonValue::Null, i + 4))
    } else {
        None
    }
}

/// Parses one `"key": value` member at `i`.
pub open spec fn parse_member(s: Seq<char>, i: int) -> Option<((Seq<char>, JsonValue), int)> {
    match parse_string(s, i) {
        Some(k) => {
            let j: int = skip_ws(s, k.1);
            if 0 <= j < s.len() && s[j] == ':' {
                match parse_value(s, skip_ws(s, j + 1)) {
                    Some(v) => Some(((k.0, v.0), v.1)),
                    None => None,
                }
            } else {
                None
            }
        },
        None => None,
    }
}

/// Parses a non-empty, comma-separated member list at `i`. The bound check
/// before the recursive call only serves termination; a parsed member
/// always moves the index forward, so it never rejects anything.
pub open spec fn parse_members(s: Seq<char>, i: int) -> Option<(Seq<(Seq<char>, JsonValue)>, int)>
    decreases s.len() - i,
{
    match parse_member(s, i) {
        Some(m) => {
            let j: int = skip_ws(s, m.1);
            if 0 <= j < s.len() && s[j] == ',' {
                let j2: int = skip_ws(s, j + 1);
                if i < j2 <= s.len() {
                    match parse_members(s, j2) {
                        Some(rest) => Some((seq![m.0] + rest.0, rest.1)),
                        None => None,
                    }
                } else {
                    None
                }
            } else {
                Some((seq![m.0], m.1))
            }
        },
        None => None,
    }
}

/// Parses a whole response body: one object, with nothing but whitespace
/// around it. Yields the members in order.
pub open spec fn parse_object(s: Seq<char>) -> Option<Seq<(Seq<char>, JsonValue)>> {
    let i0: int = skip_ws(s, 0);
    if 0 <= i0 < s.len() && s[i0] == '{' {
        let i1: int = skip_ws(s, i0 + 1);
        if 0 <= i1 < s.len() && s[i1] == '}' {
            if skip_ws(s, i1 + 1) == s.len() {
                Some(Seq::empty())
            } else {
                None
            }
        } else {
            match parse_members(s, i1) {
                Some(p) => {
                    let j: int = skip_ws(s, p.1);
                    if 0 <= j < s.len() && s[j] == '}' && skip_ws(s, j + 1) == s.len() {
                        Some(p.0)
                    } else {
                        None
                    }
                },
                None => None,
            }
        }
    } else {
        None
    }
}

/// The value of the first member named `key`, if any. On a body with a
/// repeated member name — which the services never send — the first
/// occurrence wins, by this choice.
pub open spec fn lookup(ms: Seq<(Seq<char>, JsonValue)>, key: Seq<char>) -> Option<JsonValue>
    decreases ms.len(),
{
    if ms.len() == 0 {
        None
    } else if ms[0].0 == key {
        Some(ms[0].1)
    } else {
        lookup(ms.subrange(1, ms.len() as int), key)
    }
}

/// The member `key` of the body `s`, when the body is an object of this
/// grammar and the member is a string.
pub open spec fn string_member(s: Seq<char>, key: Seq<char>) -> Option<Seq<char>> {
    match parse_object(s) {
        Some(ms) => match lookup(ms, key) {
            Some(JsonValue::Str(v)) => Some(v),
            _ => None,
        },
        None => None,
    }
}

/// The member `key` of the body `s`, read as an optional string: `None`
/// when the body is not an object of this grammar, `Some(None)` when the
/// member is null or absent, `Some(Some(v))` when it is the string `v`.
pub open spec fn optional_string_member(s: Seq<char>, key: Seq<char>) -> Option<
    Option<Seq<char>>,
> {
    match parse_object(s) {
        Some(ms) => match lookup(ms, key) {
            Some(JsonValue::Str(v)) => Some(Some(v)),
            Some(JsonValue::Null) => Some(None),
            None => Some(None),
        },
        None => None,
    }
}

/// Relies on std's String::push: appends the one character at the end.
#[verifier::external_body]
fn push_char(s: &mut String, c: char)
    ensures
        final(s)@ == old(s)@.push(c),
{
    s.push(c);
}

fn is_ws_exec(c: char) -> (r: bool)
    ensures
        r == is_ws(c),
{
    c == ' ' || c == '\t' || c == '\n' || c == '\r'
}

fn unescaped_exec(c: char) -> (r: Option<char>)
    ensures
        r == unescaped(c),
{
    if c == '"' {
        Some('"')
    } else if c == '\\' {
        Some('\\')
    } else if c == '/' {
        Some('/')
    } else if c == 'n' {
        Some('\n')
    } else if c == 't' {
        Some('\t')
    } else if c == 'r' {
        Some('\r')
    } else if c == 'b' {
        Some('\u{0008}')
    } else if c == 'f' {
        Some('\u{000c}')
    } else {
        None
    }
}

fn skip_ws_at(s: &str, n: usize, i: usize) -> (r: usize)
    requires
        n == s@.len(),
        i <= n,
    ensures
        r as int == skip_ws(s@, i as int),
        i <= r <= n,
    decreases n - i,
{
    if i < n {
        let c = s.get_char(i);
        if is_ws_exec(c) {
            skip_ws_at(s, n, i + 1)
        } else {
            i
        }
    } else {
        i
    }
}

fn string_tail_at(s: &str, n: usize, i: usize) -> (r: Option<(String, usize)>)
    requires
        n == s@.len(),
        i <= n,
    ensures
        (match parse_string_tail(s@, i as int) {
            Some(p) => r matches Some(q) && q.0@ == p.0 && q.1 as int == p.1 && q.1 <= n,
            None => r is None,
        }),
    decreases n - i,
{
    if i >= n {
        None
    } else {
        let c = s.get_char(i);
        if c == '"' {
            Some((String::new(), i + 1))
        } else if c == '\\' {
            if i + 1 < n {
                let e = s.get_char(i + 1);
                match unescaped_exec(e) {
                    Some(u) => match string_tail_at(s, n, i + 2) {
                        Some((rest, j)) => {
                            let mut out = String::new();
                            push_char(&mut out, u);
                            out.append(rest.as_str());
                            proof {
                                assert(out@ =~= seq![u] + rest@);
                            }
                            Some((out, j))
                        },
                        None => None,
                    },
                    None => None,
                }
            } else {
                None
            }
        } else if c as u32 >= 0x20 {
            match string_tail_at(s, n, i + 1) {
                Some((rest, j)) => {
                    let mut out = String::new();
                    push_char(&mut out, c);
                    out.append(rest.as_str());
                    proof {
                        assert(out@ =~= seq![c] + rest@);
                    }
                    Some((out, j))
                },
                None => None,
            }
        } else {
            None
        }
    }
}

fn value_at(s: &str, n: usize, i: usize) -> (r: Option<(FieldValue, usize)>)
    requires
        n == s@.len(),
        i <= n,
    ensures
        (match parse_value(s@, i as int) {
            Some(p) => r matches Some(q) && q.0@ == p.0 && q.1 as int == p.1 && q.1 <= n,
            None => r is None,
        }),
{
    if i < n && s.get_char(i) == '"' {
        match string_tail_at(s, n, i + 1) {
            Some((v, j)) => Some((FieldValue::Text(v), j)),
            None => None,
        }
    } else if n - i >= 4 && s.get_char(i) == 'n' && s.get_char(i + 1) == 'u' && s.get_char(i + 2)
        == 'l' && s.get_char(i + 3) == 'l' {
        Some((FieldValue::Null, i + 4))
    } else {
        None
    }
}

fn member_at(s: &str, n: usize, i: usize) -> (r: Option<(String, FieldValue, usize)>)
    requires
        n == s@.len(),
        i <= n,
    ensures
        (match parse_member(s@, i as int) {
            Some(p) => r matches Some(q) && q.0@ == p.0.0 && q.1@ == p.0.1 && q.2 as int == p.1
                && q.2 <= n,
            None => r is None,
        }),
{
    if i < n && s.get_char(i) == '"' {
        match string_tail_at(s, n, i + 1) {
            Some((k, j)) => {
                let j1: usize = skip_ws_at(s, n, j);
                if j1 < n && s.get_char(j1) == ':' {
                    let j2: usize = skip_ws_at(s, n, j1 + 1);
                    match value_at(s, n, j2) {
                        Some((v, j3)) => Some((k, v, j3)),
                        None => None,
                    }
                } else {
                    None
                }
            },
            None => None,
        }
    } else {
        None
    }
}

fn str_eq_from(a: &str, b: &str, n: usize, i: usize) -> (r: bool)
    requires
        n == a@.len(),
        n == b@.len(),
        i <= n,
        forall|k: int| 0 <= k < i ==> a@[k] == b@[k],
    ensures
        r == (a@ == b@),
    decreases n - i,
{
    if i < n {
        if a.get_char(i) == b.get_char(i) {
            str_eq_from(a, b, n, i + 1)
        } else {
            proof {
                assert(a@[i as int] != b@[i as int]);
            }
            false
        }
    } else {
        proof {
            assert(a@ =~= b@);
        }
        true
    }
}

fn str_eq(a: &str, b: &str) -> (r: bool)
    ensures
        r == (a@ == b@),
{
    let n: usize = a.unicode_len();
    let m: usize = b.unicode_len();
    if n != m {
        proof {
            if a@ == b@ {
                assert(a@.len() == b@.len());
            }
        }
        false
    } else {
        str_eq_from(a, b, n, 0)
    }
}

proof fn lemma_lookup_step(ms: Seq<(Seq<char>, JsonValue)>, key: Seq<char>)
    requires
        ms.len() > 0,
    ensures
        lookup(ms, key) == (if ms[0].0 == key {
            Some(ms[0].1)
        } else {
            lookup(ms.subrange(1, ms.len() as int), key)
        }),
{
}

proof fn lemma_lookup_empty(key: Seq<char>)
    ensures
        lookup(Seq::<(Seq<char>, JsonValue)>::empty(), key) is None,
{
}

fn members_find_at(s: &str, n: usize, i: usize, key: &str) -> (r: Option<
    (Option<FieldValue>, usize),
>)
    requires
        n == s@.len(),
        i <= n,
    ensures
        (match parse_members(s@, i as int) {
            Some(p) => r matches Some(q) && q.1 as int == p.1 && q.1 <= n && (match lookup(
                p.0,
                key@,
            ) {
                Some(jv) => q.0 matches Some(fv) && fv@ == jv,
                None => q.0 is None,
            }),
            None => r is None,
        }),
    decreases n - i,
{
    match member_at(s, n, i) {
        Some((k, v, j)) => {
            let j1: usize = skip_ws_at(s, n, j);
            if j1 < n && s.get_char(j1) == ',' {
                let j2: usize = skip_ws_at(s, n, j1 + 1);
                if i < j2 {
                    match members_find_at(s, n, j2, key) {
                        Some((frest, j3)) => {
                            let hit: bool = str_eq(k.as_str(), key);
                            proof {
                                let p0 = (parse_member(s@, i as int)->0).0;
                                let rest0 = (parse_members(s@, j2 as int)->0).0;
                                let ms = seq![p0] + rest0;
                                assert(parse_members(s@, i as int) matches Some(w) && w.0 == ms);
                                assert(ms[0] == p0);
                                assert(ms.subrange(1, ms.len() as int) =~= rest0);
                                lemma_lookup_step(ms, key@);
                            }
                            if hit {
                                Some((Some(v), j3))
                            } else {
                                Some((frest, j3))
                            }
                        },
                        None => None,
                    }
                } else {
                    None
                }
            } else {
                let hit: bool = str_eq(k.as_str(), key);
                proof {
                    let p0 = (parse_member(s@, i as int)->0).0;
                    let ms = seq![p0];
                    assert(parse_members(s@, i as int) matches Some(w) && w.0 == ms);
                    assert(ms[0] == p0);
                    assert(ms.subrange(1, 1) =~= Seq::<(Seq<char>, JsonValue)>::empty());
                    lemma_lookup_step(ms, key@);
                    lemma_lookup_empty(key@);
                }
                if hit {
                    Some((Some(v), j))
                } else {
                    Some((None, j))
                }
            }
        },
        None => None,
    }
}

/// Looks the member `key` up in the response body `s`, deciding at the same
/// time whether `s` is an object of the response grammar at all.
pub fn get_field(s: &str, key: &str) -> (r: FieldLookup)
    ensures
        (parse_object(s@) is None) <==> (r is Malformed),
        (match parse_object(s@) {
            Some(ms) => (match lookup(ms, key@) {
                Some(jv) => r matches FieldLookup::Found(fv) && fv@ == jv,
                None => r is Missing,
            }),
            None => true,
        }),
{
    let n: usize = s.unicode_len();
    let i0: usize = skip_ws_at(s, n, 0);
    if i0 < n && s.get_char(i0) == '{' {
        let i1: usize = skip_ws_at(s, n, i0 + 1);
        if i1 < n && s.get_char(i1) == '}' {
            let i2: usize = skip_ws_at(s, n, i1 + 1);
            if i2 == n {
                FieldLookup::Missing
            } else {
                FieldLookup::Malformed
            }
        } else {
            match members_find_at(s, n, i1, key) {
                Some((f, j)) => {
                    let j1: usize = skip_ws_at(s, n, j);
                    if j1 < n && s.get_char(j1) == '}' {
                        let j2: usize = skip_ws_at(s, n, j1 + 1);
                        if j2 == n {
                            match f {
                                Some(v) => FieldLookup::Found(v),
                                None => FieldLookup::Missing,
                            }
                        } else {
                            FieldLookup::Malformed
                        }
                    } else {
                        FieldLookup::Malformed
                    }
                },
                None => FieldLookup::Malformed,
            }
        }
    } else {
        FieldLookup::Malformed
    }
}

} // verus!
