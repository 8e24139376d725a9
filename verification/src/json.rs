//! A small JSON document model: the executable tree, its mathematical view,
//! and the parser from text to tree.

use crate::text::{is_number_text, lemma_scan_json_number_token, scan_json_number, scan_json_number_exec};
use vstd::prelude::*;
use vstd::string::*;

verus! {

broadcast use vstd::std_specs::vec::axiom_vec_decreases_to_view;

/// Mathematical shape of a JSON document, used by all specifications.
/// Numbers keep their wire token; nothing in the core ever needs their
/// floating-point value, only the (validated) text.
pub enum JVal {
    Null,
    Bool(bool),
    Num(Seq<char>),
    Str(Seq<char>),
    Arr(Seq<JVal>),
    Obj(Seq<(Seq<char>, JVal)>),
}

/// Executable JSON tree. Object members keep wire order; duplicate keys are
/// kept as parsed (lookups take the first).
#[derive(Debug)]
pub enum Json {
    Null,
    Bool(bool),
    Num(String),
    Str(String),
    Arr(Vec<Json>),
    Obj(Vec<(String, Json)>),
}

/// The view of an executable tree: the same tree over sequences.
pub open spec fn jview(j: Json) -> JVal
    decreases j,
{
    match j {
        Json::Null => JVal::Null,
        Json::Bool(b) => JVal::Bool(b),
        Json::Num(s) => JVal::Num(s@),
        Json::Str(s) => JVal::Str(s@),
        Json::Arr(items) => {
            proof {
                assert(decreases_to!(j => items));
                assert(decreases_to!(items => items@));
            }
            JVal::Arr(jview_list(items@))
        },
        Json::Obj(members) => {
            proof {
                assert(decreases_to!(j => members));
                assert(decreases_to!(members => members@));
            }
            JVal::Obj(jview_members(members@))
        },
    }
}

pub open spec fn jview_list(l: Seq<Json>) -> Seq<JVal>
    decreases l,
{
    if l.len() == 0 {
        Seq::empty()
    } else {
        seq![jview(l[0])] + jview_list(l.drop_first())
    }
}

pub open spec fn jview_members(l: Seq<(String, Json)>) -> Seq<(Seq<char>, JVal)>
    decreases l,
{
    if l.len() == 0 {
        Seq::empty()
    } else {
        seq![(l[0].0@, jview(l[0].1))] + jview_members(l.drop_first())
    }
}

impl DeepView for Json {
    type V = JVal;

    open spec fn deep_view(&self) -> JVal {
        jview(*self)
    }
}

/// `jview_list` maps `jview` over the sequence, element by element.
pub proof fn lemma_jview_list(l: Seq<Json>)
    ensures
        jview_list(l).len() == l.len(),
        forall|i: int| 0 <= i < l.len() ==> jview_list(l)[i] == jview(l[i]),
    decreases l.len(),
{
    if l.len() > 0 {
        lemma_jview_list(l.drop_first());
    }
}

/// A well-formed document: every numeric leaf carries a token of the
/// numeric grammar, so its floating-point reading is always defined.
pub open spec fn jval_wf(v: JVal) -> bool
    decreases v, 0int,
{
    match v {
        JVal::Num(t) => is_number_text(t),
        JVal::Arr(xs) => jlist_wf(xs),
        JVal::Obj(fs) => jmembers_wf(fs),
        _ => true,
    }
}

pub open spec fn jlist_wf(xs: Seq<JVal>) -> bool
    decreases xs, 1int,
{
    xs.len() == 0 || (jval_wf(xs[0]) && jlist_wf(xs.drop_first()))
}

pub open spec fn jmembers_wf(fs: Seq<(Seq<char>, JVal)>) -> bool
    decreases fs, 1int,
{
    fs.len() == 0 || (jval_wf(fs[0].1) && jmembers_wf(fs.drop_first()))
}

pub open spec fn is_ws(c: char) -> bool {
    c == ' ' || c == '\t' || c == '\n' || c == '\r'
}

/// First position at or after `i` that does not hold whitespace.
pub open spec fn skip_ws(s: Seq<char>, i: int) -> int
    decreases s.len() - i,
{
    if 0 <= i < s.len() && is_ws(s[i]) {
        skip_ws(s, i + 1)
    } else {
        i
    }
}

pub proof fn lemma_skip_ws_bounds(s: Seq<char>, i: int)
    requires
        0 <= i <= s.len(),
    ensures
        i <= skip_ws(s, i) <= s.len(),
    decreases s.len() - i,
{
    if i < s.len() && is_ws(s[i]) {
        lemma_skip_ws_bounds(s, i + 1);
    }
}

pub open spec fn is_hex(c: char) -> bool {
    ('0' <= c && c <= '9') || ('a' <= c && c <= 'f') || ('A' <= c && c <= 'F')
}

pub open spec fn hex_val(c: char) -> int {
    if '0' <= c && c <= '9' {
        c as int - '0' as int
    } else if 'a' <= c && c <= 'f' {
        c as int - 'a' as int + 10
    } else if 'A' <= c && c <= 'F' {
        c as int - 'A' as int + 10
    } else {
        0
    }
}

/// Four hex digits stand at `i`.
pub open spec fn hex4_at(s: Seq<char>, i: int) -> bool {
    i + 4 <= s.len() && is_hex(s[i]) && is_hex(s[i + 1]) && is_hex(s[i + 2]) && is_hex(s[i + 3])
}

/// Their value, most significant digit first.
pub open spec fn hex4(s: Seq<char>, i: int) -> int {
    hex_val(s[i]) * 0x1000 + hex_val(s[i + 1]) * 0x100 + hex_val(s[i + 2]) * 0x10 + hex_val(
        s[i + 3],
    )
}

/// Replacement character of a single-character escape sequence; the
/// `\uXXXX` form is handled separately.
pub open spec fn esc_char(c: char) -> Option<char> {
    if c == '"' {
        Some('"')
    } else if c == '\\' {
        Some('\\')
    } else if c == '/' {
        Some('/')
    } else if c == 'b' {
        Some('\u{0008}')
    } else if c == 'f' {
        Some('\u{000C}')
    } else if c == 'n' {
        Some('\n')
    } else if c == 'r' {
        Some('\r')
    } else if c == 't' {
        Some('\t')
    } else {
        None
    }
}

/// The body of a string from `i` to its closing quote: the decoded
/// content, escapes replaced, and the position after the quote. The
/// escapes are the eight single-character ones and `\uXXXX`, a high
/// surrogate in the latter demanding its low partner right behind it. A
/// backslash before anything else, a raw control character, or a missing
/// closing quote, fails.
pub open spec fn spec_str_body(s: Seq<char>, i: int) -> Option<(Seq<char>, int)>
    decreases s.len() - i,
{
    if i < 0 || i >= s.len() || s[i] <= '\u{001F}' {
        None
    } else if s[i] == '"' {
        Some((Seq::empty(), i + 1))
    } else if s[i] == '\\' {
        if i + 1 >= s.len() {
            None
        } else {
            match esc_char(s[i + 1]) {
                Some(c) => match spec_str_body(s, i + 2) {
                    Some(p) => Some((seq![c] + p.0, p.1)),
                    None => None,
                },
                None => if s[i + 1] != 'u' || !hex4_at(s, i + 2) {
                    None
                } else {
                    let h = hex4(s, i + 2);
                    if 0xD800 <= h < 0xDC00 {
                        if i + 12 <= s.len() && s[i + 6] == '\\' && s[i + 7] == 'u' && hex4_at(
                            s,
                            i + 8,
                        ) {
                            let l = hex4(s, i + 8);
                            if 0xDC00 <= l < 0xE000 {
                                let code = 0x10000 + (h - 0xD800) * 0x400 + (l - 0xDC00);
                                match spec_str_body(s, i + 12) {
                                    Some(p) => Some((seq![code as char] + p.0, p.1)),
                                    None => None,
                                }
                            } else {
                                None
                            }
                        } else {
                            None
                        }
                    } else if 0xDC00 <= h < 0xE000 {
                        None
                    } else {
                        match spec_str_body(s, i + 6) {
                            Some(p) => Some((seq![h as char] + p.0, p.1)),
                            None => None,
                        }
                    }
                },
            }
        }
    } else {
        match spec_str_body(s, i + 1) {
            Some(p) => Some((seq![s[i]] + p.0, p.1)),
            None => None,
        }
    }
}

pub proof fn lemma_str_body_bounds(s: Seq<char>, i: int)
    requires
        0 <= i,
    ensures
        match spec_str_body(s, i) {
            Some(p) => i < p.1 <= s.len(),
            None => true,
        },
    decreases s.len() - i,
{
    if 0 <= i < s.len() && !(s[i] <= '\u{001F}') {
        if s[i] == '\\' {
            if i + 1 < s.len() {
                lemma_str_body_bounds(s, i + 2);
                if i + 6 <= s.len() {
                    lemma_str_body_bounds(s, i + 6);
                }
                if i + 12 <= s.len() {
                    lemma_str_body_bounds(s, i + 12);
                }
            }
        } else if s[i] != '"' {
            lemma_str_body_bounds(s, i + 1);
        }
    }
}

/// A run of plain characters decodes to itself, in front of whatever the
/// rest of the body decodes to.
proof fn lemma_str_body_run(s: Seq<char>, i: int, k: int)
    requires
        0 <= i <= k <= s.len(),
        forall|x: int| i <= x < k ==> #[trigger] s[x] != '"' && s[x] != '\\' && s[x] >= ' ',
    ensures
        match spec_str_body(s, k) {
            Some(p) => spec_str_body(s, i) == Some((s.subrange(i, k) + p.0, p.1)),
            None => spec_str_body(s, i) is None,
        },
    decreases k - i,
{
    if i < k {
        lemma_str_body_run(s, i + 1, k);
        match spec_str_body(s, k) {
            Some(p) => {
                assert(s.subrange(i, k) =~= seq![s[i]] + s.subrange(i + 1, k));
                assert(seq![s[i]] + (s.subrange(i + 1, k) + p.0) =~= s.subrange(i, k) + p.0);
            },
            None => {},
        }
    } else {
        match spec_str_body(s, i) {
            Some(p) => {
                assert(s.subrange(i, i) =~= Seq::<char>::empty());
                assert(Seq::<char>::empty() + p.0 =~= p.0);
            },
            None => {},
        }
    }
}

/// A quoted string at `i`: its decoded body and the position after the
/// closing quote.
pub open spec fn spec_string(s: Seq<char>, i: int) -> Option<(Seq<char>, int)> {
    if 0 <= i < s.len() && s[i] == '"' {
        spec_str_body(s, i + 1)
    } else {
        None
    }
}

/// One JSON value at position `i` (no surrounding whitespace), and the
/// position just after it.
pub open spec fn spec_value(s: Seq<char>, i: int) -> Option<(JVal, int)>
    decreases s.len() - i, 0int,
{
    if i < 0 || i >= s.len() {
        None
    } else if s[i] == '"' {
        match spec_string(s, i) {
            Some((body, j)) => Some((JVal::Str(body), j)),
            None => None,
        }
    } else if s[i] == '{' {
        proof {
            lemma_skip_ws_bounds(s, i + 1);
        }
        let j = skip_ws(s, i + 1);
        if j < s.len() && s[j] == '}' {
            Some((JVal::Obj(Seq::empty()), j + 1))
        } else {
            match spec_members(s, j) {
                Some((members, e)) => Some((JVal::Obj(members), e)),
                None => None,
            }
        }
    } else if s[i] == '[' {
        proof {
            lemma_skip_ws_bounds(s, i + 1);
        }
        let j = skip_ws(s, i + 1);
        if j < s.len() && s[j] == ']' {
            Some((JVal::Arr(Seq::empty()), j + 1))
        } else {
            match spec_elements(s, j) {
                Some((items, e)) => Some((JVal::Arr(items), e)),
                None => None,
            }
        }
    } else if s[i] == 't' {
        if i + 4 <= s.len() && s[i + 1] == 'r' && s[i + 2] == 'u' && s[i + 3] == 'e' {
            Some((JVal::Bool(true), i + 4))
        } else {
            None
        }
    } else if s[i] == 'f' {
        if i + 5 <= s.len() && s[i + 1] == 'a' && s[i + 2] == 'l' && s[i + 3] == 's' && s[i + 4]
            == 'e' {
            Some((JVal::Bool(false), i + 5))
        } else {
            None
        }
    } else if s[i] == 'n' {
        if i + 4 <= s.len() && s[i + 1] == 'u' && s[i + 2] == 'l' && s[i + 3] == 'l' {
            Some((JVal::Null, i + 4))
        } else {
            None
        }
    } else {
        match scan_json_number(s, i) {
            Some(e) => Some((JVal::Num(s.subrange(i, e)), e)),
            None => None,
        }
    }
}

/// One or more comma-separated array items starting at `i`, up to and
/// including the closing bracket; the position returned is just after it.
pub open spec fn spec_elements(s: Seq<char>, i: int) -> Option<(Seq<JVal>, int)>
    decreases s.len() - i, 1int,
{
    match spec_value(s, i) {
        None => None,
        Some((v, j)) => if i < 0 || j <= i || j > s.len() {
            None
        } else {
            proof {
                lemma_skip_ws_bounds(s, j);
            }
            let p = skip_ws(s, j);
            if p < s.len() && s[p] == ',' {
                proof {
                    lemma_skip_ws_bounds(s, p + 1);
                }
                match spec_elements(s, skip_ws(s, p + 1)) {
                    Some((rest, e)) => Some((seq![v] + rest, e)),
                    None => None,
                }
            } else if p < s.len() && s[p] == ']' {
                Some((seq![v], p + 1))
            } else {
                None
            }
        },
    }
}

/// One or more `"key": value` members starting at `i`, up to and including
/// the closing brace; the position returned is just after it.
pub open spec fn spec_members(s: Seq<char>, i: int) -> Option<(Seq<(Seq<char>, JVal)>, int)>
    decreases s.len() - i, 1int,
{
    match spec_string(s, i) {
        None => None,
        Some((key, j)) => if i < 0 || j <= i || j > s.len() {
            None
        } else {
            proof {
                lemma_skip_ws_bounds(s, j);
            }
            let p = skip_ws(s, j);
            if !(p < s.len() && s[p] == ':') {
                None
            } else {
                proof {
                    lemma_skip_ws_bounds(s, p + 1);
                }
                let q = skip_ws(s, p + 1);
                match spec_value(s, q) {
                    None => None,
                    Some((v, m)) => if m <= q || m > s.len() {
                        None
                    } else {
                        proof {
                            lemma_skip_ws_bounds(s, m);
                        }
                        let r = skip_ws(s, m);
                        if r < s.len() && s[r] == ',' {
                            proof {
                                lemma_skip_ws_bounds(s, r + 1);
                            }
                            match spec_members(s, skip_ws(s, r + 1)) {
                                Some((rest, e)) => Some((seq![(key, v)] + rest, e)),
                                None => None,
                            }
                        } else if r < s.len() && s[r] == '}' {
                            Some((seq![(key, v)], r + 1))
                        } else {
                            None
                        }
                    },
                }
            }
        },
    }
}

proof fn lemma_value_wf(s: Seq<char>, i: int)
    requires
        0 <= i <= s.len(),
    ensures
        match spec_value(s, i) {
            Some(p) => jval_wf(p.0),
            None => true,
        },
    decreases s.len() - i, 0int,
{
    if i < s.len() {
        if s[i] == '"' {
        } else if s[i] == '{' {
            lemma_skip_ws_bounds(s, i + 1);
            let j = skip_ws(s, i + 1);
            if !(j < s.len() && s[j] == '}') {
                lemma_members_wf(s, j);
            }
        } else if s[i] == '[' {
            lemma_skip_ws_bounds(s, i + 1);
            let j = skip_ws(s, i + 1);
            if !(j < s.len() && s[j] == ']') {
                lemma_elements_wf(s, j);
            }
        } else if s[i] == 't' || s[i] == 'f' || s[i] == 'n' {
        } else {
            lemma_scan_json_number_token(s, i);
        }
    }
}

proof fn lemma_elements_wf(s: Seq<char>, i: int)
    requires
        0 <= i <= s.len(),
    ensures
        match spec_elements(s, i) {
            Some(p) => jlist_wf(p.0),
            None => true,
        },
    decreases s.len() - i, 1int,
{
    lemma_value_wf(s, i);
    match spec_value(s, i) {
        None => {},
        Some((v, j)) => {
            if !(i < 0 || j <= i || j > s.len()) {
                lemma_skip_ws_bounds(s, j);
                let p = skip_ws(s, j);
                if p < s.len() && s[p] == ',' {
                    lemma_skip_ws_bounds(s, p + 1);
                    lemma_elements_wf(s, skip_ws(s, p + 1));
                    match spec_elements(s, skip_ws(s, p + 1)) {
                        Some((rest, _)) => {
                            assert((seq![v] + rest).drop_first() =~= rest);
                            assert((seq![v] + rest)[0] == v);
                            assert(jlist_wf(seq![v] + rest));
                        },
                        None => {},
                    }
                } else if p < s.len() && s[p] == ']' {
                    reveal_with_fuel(jlist_wf, 2);
                    assert(seq![v].drop_first() =~= Seq::<JVal>::empty());
                    assert(seq![v][0] == v);
                    assert(jlist_wf(seq![v]));
                }
            }
        },
    }
}

proof fn lemma_members_wf(s: Seq<char>, i: int)
    requires
        0 <= i <= s.len(),
    ensures
        match spec_members(s, i) {
            Some(p) => jmembers_wf(p.0),
            None => true,
        },
    decreases s.len() - i, 1int,
{
    match spec_string(s, i) {
        None => {},
        Some((key, j)) => {
            if !(i < 0 || j <= i || j > s.len()) {
                lemma_skip_ws_bounds(s, j);
                let p = skip_ws(s, j);
                if p < s.len() && s[p] == ':' {
                    lemma_skip_ws_bounds(s, p + 1);
                    let q = skip_ws(s, p + 1);
                    lemma_value_wf(s, q);
                    match spec_value(s, q) {
                        None => {},
                        Some((v, m)) => {
                            if !(m <= q || m > s.len()) {
                                lemma_skip_ws_bounds(s, m);
                                let r = skip_ws(s, m);
                                if r < s.len() && s[r] == ',' {
                                    lemma_skip_ws_bounds(s, r + 1);
                                    lemma_members_wf(s, skip_ws(s, r + 1));
                                    match spec_members(s, skip_ws(s, r + 1)) {
                                        Some((rest, _)) => {
                                            assert((seq![(key, v)] + rest).drop_first()
                                                =~= rest);
                                            assert((seq![(key, v)] + rest)[0] == (key, v));
                                            assert(jmembers_wf(seq![(key, v)] + rest));
                                        },
                                        None => {},
                                    }
                                } else if r < s.len() && s[r] == '}' {
                                    reveal_with_fuel(jmembers_wf, 2);
                                    assert(seq![(key, v)].drop_first() =~= Seq::<
                                        (Seq<char>, JVal),
                                    >::empty());
                                    assert(seq![(key, v)][0] == (key, v));
                                    assert(jmembers_wf(seq![(key, v)]));
                                }
                            }
                        },
                    }
                }
            }
        },
    }
}

/// What the parser yields is always well-formed.
pub proof fn lemma_spec_text_wf(s: Seq<char>)
    ensures
        match spec_text(s) {
            Some(v) => jval_wf(v),
            None => true,
        },
{
    lemma_skip_ws_bounds(s, 0);
    lemma_value_wf(s, skip_ws(s, 0));
}

/// A whole payload: one value, surrounded by nothing but whitespace.
pub open spec fn spec_text(s: Seq<char>) -> Option<JVal> {
    match spec_value(s, skip_ws(s, 0)) {
        Some((v, j)) => if skip_ws(s, j) == s.len() {
            Some(v)
        } else {
            None
        },
        None => None,
    }
}

/// `jview_members` maps key and value views over the members, one by one.
pub proof fn lemma_jview_members(l: Seq<(String, Json)>)
    ensures
        jview_members(l).len() == l.len(),
        forall|i: int|
            0 <= i < l.len() ==> jview_members(l)[i] == (l[i].0@, jview(l[i].1)),
    decreases l.len(),
{
    if l.len() > 0 {
        lemma_jview_members(l.drop_first());
    }
}

fn skip_ws_exec(s: &str, i: usize) -> (r: usize)
    requires
        i <= s@.len(),
    ensures
        r == skip_ws(s@, i as int),
        i <= r <= s@.len(),
    decreases s@.len() - i,
{
    let len: usize = s.unicode_len();
    if i < len && {
        let c = s.get_char(i);
        c == ' ' || c == '\t' || c == '\n' || c == '\r'
    } {
        skip_ws_exec(s, i + 1)
    } else {
        i
    }
}

fn hex_val_exec(c: char) -> (r: Option<u32>)
    ensures
        match r {
            Some(v) => is_hex(c) && v == hex_val(c) && v < 16,
            None => !is_hex(c),
        },
{
    if '0' <= c && c <= '9' {
        Some(c as u32 - 48)
    } else if 'a' <= c && c <= 'f' {
        Some(c as u32 - 87)
    } else if 'A' <= c && c <= 'F' {
        Some(c as u32 - 55)
    } else {
        None
    }
}

fn hex4_exec(s: &str, i: usize) -> (r: Option<u32>)
    requires
        i <= s@.len(),
    ensures
        match r {
            Some(v) => hex4_at(s@, i as int) && v == hex4(s@, i as int) && v <= 0xFFFF,
            None => !hex4_at(s@, i as int),
        },
{
    let len: usize = s.unicode_len();
    if len - i < 4 {
        return None;
    }
    let d0 = match hex_val_exec(s.get_char(i)) {
        Some(v) => v,
        None => {
            return None;
        },
    };
    let d1 = match hex_val_exec(s.get_char(i + 1)) {
        Some(v) => v,
        None => {
            return None;
        },
    };
    let d2 = match hex_val_exec(s.get_char(i + 2)) {
        Some(v) => v,
        None => {
            return None;
        },
    };
    let d3 = match hex_val_exec(s.get_char(i + 3)) {
        Some(v) => v,
        None => {
            return None;
        },
    };
    Some(d0 * 0x1000 + d1 * 0x100 + d2 * 0x10 + d3)
}

/// Relies on String::push: appends exactly the given character.
#[verifier::external_body]
fn push_char(s: &mut String, c: char)
    ensures
        final(s)@ == old(s)@ + seq![c],
{
    s.push(c);
}

/// Relies on char::from_u32: defined on every scalar value outside the
/// surrogate range, yielding the character with that value.
#[verifier::external_body]
fn char_from_scalar(v: u32) -> (c: char)
    requires
        v < 0xD800 || (0xE000 <= v && v <= 0x10FFFF),
    ensures
        c == v as char,
{
    char::from_u32(v).unwrap()
}

fn plain_run_exec(s: &str, j: usize) -> (r: usize)
    requires
        j <= s@.len(),
    ensures
        j <= r <= s@.len(),
        forall|x: int|
            j <= x < r ==> #[trigger] s@[x] != '"' && s@[x] != '\\' && s@[x] >= ' ',
        r < s@.len() ==> (s@[r as int] == '"' || s@[r as int] == '\\' || s@[r as int] <= '\u{001F}'),
    decreases s@.len() - j,
{
    let len: usize = s.unicode_len();
    if j < len && {
        let c = s.get_char(j);
        c != '"' && c != '\\' && c >= ' '
    } {
        plain_run_exec(s, j + 1)
    } else {
        j
    }
}

fn string_exec(s: &str, i: usize) -> (r: Option<(String, usize)>)
    requires
        i <= s@.len(),
    ensures
        match r {
            Some(p) => spec_string(s@, i as int) == Some((p.0@, p.1 as int)) && i + 2 <= p.1
                <= s@.len(),
            None => spec_string(s@, i as int) is None,
        },
{
    let len: usize = s.unicode_len();
    if !(i < len && s.get_char(i) == '"') {
        return None;
    }
    let mut acc = String::new();
    let mut cur: usize = i + 1;
    loop
        invariant
            len == s@.len(),
            i + 1 <= cur <= len,
            i < len && s@[i as int] == '"',
            match spec_str_body(s@, cur as int) {
                Some(p) => spec_str_body(s@, i as int + 1) == Some((acc@ + p.0, p.1)),
                None => spec_str_body(s@, i as int + 1) is None,
            },
        decreases s@.len() - cur,
    {
        let run_end = plain_run_exec(s, cur);
        proof {
            lemma_str_body_run(s@, cur as int, run_end as int);
        }
        let ghost acc_before = acc@;
        if run_end > cur {
            let piece = s.substring_char(cur, run_end);
            acc.append(piece);
        }
        proof {
            assert(acc@ =~= acc_before + s@.subrange(cur as int, run_end as int));
            match spec_str_body(s@, run_end as int) {
                Some(p) => {
                    assert(acc_before + (s@.subrange(cur as int, run_end as int) + p.0)
                        =~= acc@ + p.0);
                },
                None => {},
            }
        }
        if run_end >= len {
            return None;
        }
        let c = s.get_char(run_end);
        if c <= '\u{001F}' {
            return None;
        }
        if c == '"' {
            proof {
                lemma_str_body_bounds(s@, i as int + 1);
                match spec_str_body(s@, run_end as int) {
                    Some(p) => {
                        assert(acc@ + p.0 =~= acc@);
                    },
                    None => {},
                }
            }
            return Some((acc, run_end + 1));
        }
        if run_end + 1 >= len {
            return None;
        }
        let ghost acc_mid = acc@;
        let e = s.get_char(run_end + 1);
        if e == 'u' {
            let h = match hex4_exec(s, run_end + 2) {
                Some(v) => v,
                None => {
                    return None;
                },
            };
            if 0xD800 <= h && h < 0xDC00 {
                if !(len - run_end >= 12 && s.get_char(run_end + 6) == '\\' && s.get_char(
                    run_end + 7,
                ) == 'u') {
                    return None;
                }
                let l = match hex4_exec(s, run_end + 8) {
                    Some(v) => v,
                    None => {
                        return None;
                    },
                };
                if !(0xDC00 <= l && l < 0xE000) {
                    return None;
                }
                let code: u32 = 0x10000 + (h - 0xD800) * 0x400 + (l - 0xDC00);
                let decoded = char_from_scalar(code);
                push_char(&mut acc, decoded);
                proof {
                    assert(acc@ =~= acc_mid + seq![decoded]);
                    match spec_str_body(s@, run_end as int + 12) {
                        Some(p) => {
                            assert(acc_mid + (seq![decoded] + p.0) =~= acc@ + p.0);
                        },
                        None => {},
                    }
                }
                cur = run_end + 12;
            } else if 0xDC00 <= h && h < 0xE000 {
                return None;
            } else {
                let decoded = char_from_scalar(h);
                push_char(&mut acc, decoded);
                proof {
                    assert(acc@ =~= acc_mid + seq![decoded]);
                    match spec_str_body(s@, run_end as int + 6) {
                        Some(p) => {
                            assert(acc_mid + (seq![decoded] + p.0) =~= acc@ + p.0);
                        },
                        None => {},
                    }
                }
                cur = run_end + 6;
            }
        } else {
            if e == '"' {
                acc.append("\"");
            } else if e == '\\' {
                acc.append("\\");
            } else if e == '/' {
                acc.append("/");
            } else if e == 'b' {
                acc.append("\u{0008}");
            } else if e == 'f' {
                acc.append("\u{000C}");
            } else if e == 'n' {
                acc.append("\n");
            } else if e == 'r' {
                acc.append("\r");
            } else if e == 't' {
                acc.append("\t");
            } else {
                return None;
            }
            proof {
                reveal_strlit("\"");
                reveal_strlit("\\");
                reveal_strlit("/");
                reveal_strlit("\u{0008}");
                reveal_strlit("\u{000C}");
                reveal_strlit("\n");
                reveal_strlit("\r");
                reveal_strlit("\t");
                let ch = esc_char(s@[run_end as int + 1])->0;
                assert(acc@ =~= acc_mid + seq![ch]);
                match spec_str_body(s@, run_end as int + 2) {
                    Some(p) => {
                        assert(acc_mid + (seq![ch] + p.0) =~= acc@ + p.0);
                    },
                    None => {},
                }
            }
            cur = run_end + 2;
        }
    }
}

fn value_exec(s: &str, i: usize) -> (r: Option<(Json, usize)>)
    requires
        i <= s@.len(),
    ensures
        match r {
            Some(p) => spec_value(s@, i as int) == Some((jview(p.0), p.1 as int)) && i < p.1
                <= s@.len(),
            None => spec_value(s@, i as int) is None,
        },
    decreases s@.len() - i, 0int,
{
    let len: usize = s.unicode_len();
    if i >= len {
        return None;
    }
    let c = s.get_char(i);
    if c == '"' {
        match string_exec(s, i) {
            Some((body, j)) => Some((Json::Str(body), j)),
            None => None,
        }
    } else if c == '{' {
        let j = skip_ws_exec(s, i + 1);
        if j < len && s.get_char(j) == '}' {
            let members: Vec<(String, Json)> = Vec::new();
            proof {
                assert(jview_members(members@) =~= Seq::<(Seq<char>, JVal)>::empty());
            }
            Some((Json::Obj(members), j + 1))
        } else {
            match members_exec(s, j) {
                Some((members, e)) => Some((Json::Obj(members), e)),
                None => None,
            }
        }
    } else if c == '[' {
        let j = skip_ws_exec(s, i + 1);
        if j < len && s.get_char(j) == ']' {
            let items: Vec<Json> = Vec::new();
            proof {
                assert(jview_list(items@) =~= Seq::<JVal>::empty());
            }
            Some((Json::Arr(items), j + 1))
        } else {
            match elements_exec(s, j) {
                Some((items, e)) => Some((Json::Arr(items), e)),
                None => None,
            }
        }
    } else if c == 't' {
        if len - i >= 4 && s.get_char(i + 1) == 'r' && s.get_char(i + 2) == 'u' && s.get_char(i + 3)
            == 'e' {
            Some((Json::Bool(true), i + 4))
        } else {
            None
        }
    } else if c == 'f' {
        if len - i >= 5 && s.get_char(i + 1) == 'a' && s.get_char(i + 2) == 'l' && s.get_char(i + 3)
            == 's' && s.get_char(i + 4) == 'e' {
            Some((Json::Bool(false), i + 5))
        } else {
            None
        }
    } else if c == 'n' {
        if len - i >= 4 && s.get_char(i + 1) == 'u' && s.get_char(i + 2) == 'l' && s.get_char(i + 3)
            == 'l' {
            Some((Json::Null, i + 4))
        } else {
            None
        }
    } else {
        match scan_json_number_exec(s, i) {
            Some(e) => {
                let token = s.substring_char(i, e).to_owned();
                Some((Json::Num(token), e))
            },
            None => None,
        }
    }
}

fn elements_exec(s: &str, i: usize) -> (r: Option<(Vec<Json>, usize)>)
    requires
        i <= s@.len(),
    ensures
        match r {
            Some(p) => spec_elements(s@, i as int) == Some((jview_list(p.0@), p.1 as int)) && i
                < p.1 <= s@.len(),
            None => spec_elements(s@, i as int) is None,
        },
    decreases s@.len() - i, 1int,
{
    let len: usize = s.unicode_len();
    match value_exec(s, i) {
        None => None,
        Some((v, j)) => {
            let p = skip_ws_exec(s, j);
            if p < len && s.get_char(p) == ',' {
                let q = skip_ws_exec(s, p + 1);
                match elements_exec(s, q) {
                    Some((mut rest, e)) => {
                        let ghost tail = rest@;
                        rest.insert(0, v);
                        proof {
                            assert(rest@ =~= seq![v] + tail);
                            assert((seq![v] + tail).drop_first() =~= tail);
                            assert(jview_list(seq![v] + tail) == seq![jview(v)] + jview_list(
                                tail,
                            ));
                        }
                        Some((rest, e))
                    },
                    None => None,
                }
            } else if p < len && s.get_char(p) == ']' {
                let mut items: Vec<Json> = Vec::new();
                items.push(v);
                proof {
                    reveal_with_fuel(jview_list, 2);
                    assert(items@.drop_first() =~= Seq::<Json>::empty());
                    assert(jview_list(items@) =~= seq![jview(v)]);
                }
                Some((items, p + 1))
            } else {
                None
            }
        },
    }
}

fn members_exec(s: &str, i: usize) -> (r: Option<(Vec<(String, Json)>, usize)>)
    requires
        i <= s@.len(),
    ensures
        match r {
            Some(p) => spec_members(s@, i as int) == Some((jview_members(p.0@), p.1 as int)) && i
                < p.1 <= s@.len(),
            None => spec_members(s@, i as int) is None,
        },
    decreases s@.len() - i, 1int,
{
    let len: usize = s.unicode_len();
    match string_exec(s, i) {
        None => None,
        Some((key, j)) => {
            let p = skip_ws_exec(s, j);
            if !(p < len && s.get_char(p) == ':') {
                None
            } else {
                let q = skip_ws_exec(s, p + 1);
                match value_exec(s, q) {
                    None => None,
                    Some((v, m)) => {
                        let r2 = skip_ws_exec(s, m);
                        if r2 < len && s.get_char(r2) == ',' {
                            let next = skip_ws_exec(s, r2 + 1);
                            match members_exec(s, next) {
                                Some((mut rest, e)) => {
                                    let ghost tail = rest@;
                                    let ghost kv = (key@, jview(v));
                                    rest.insert(0, (key, v));
                                    proof {
                                        assert(jview_members(rest@) == seq![kv] + jview_members(
                                            tail,
                                        )) by {
                                            assert(rest@.drop_first() =~= tail);
                                        }
                                    }
                                    Some((rest, e))
                                },
                                None => None,
                            }
                        } else if r2 < len && s.get_char(r2) == '}' {
                            let mut members: Vec<(String, Json)> = Vec::new();
                            let ghost kv = (key@, jview(v));
                            members.push((key, v));
                            proof {
                                reveal_with_fuel(jview_members, 2);
                                assert(members@.drop_first() =~= Seq::<(String, Json)>::empty());
                                assert(jview_members(members@) =~= seq![kv]);
                            }
                            Some((members, r2 + 1))
                        } else {
                            None
                        }
                    },
                }
            }
        },
    }
}

/// Parses a whole payload: one JSON value with nothing but whitespace
/// around it. `None` exactly when the text is not such a payload; what
/// comes back is always well-formed.
pub fn parse_json(s: &str) -> (r: Option<Json>)
    ensures
        match r {
            Some(j) => spec_text(s@) == Some(jview(j)) && jval_wf(jview(j)),
            None => spec_text(s@) is None,
        },
{
    proof {
        lemma_spec_text_wf(s@);
    }
    let i = skip_ws_exec(s, 0);
    match value_exec(s, i) {
        Some((v, j)) => {
            let e = skip_ws_exec(s, j);
            if e == s.unicode_len() {
                Some(v)
            } else {
                None
            }
        },
        None => None,
    }
}

} // verus!
