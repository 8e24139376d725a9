//! The query composer: one function per endpoint family, each producing
//! exactly the URL the wire protocol asks for. A parameter that is absent
//! contributes nothing — neither its name nor an empty value — and the
//! `startTime`/`endTime` window is emitted only as a pair.

use crate::models::{interval_token, Interval};
use crate::text::{dec_of, u64_to_dec};
use vstd::prelude::*;
use vstd::string::*;

verus! {

/// An optional scalar parameter: its name-and-equals prefix followed by the
/// decimal value, or nothing at all.
pub open spec fn opt_u64_param(prefix: Seq<char>, v: Option<u64>) -> Seq<char> {
    match v {
        Some(n) => prefix + dec_of(n as nat),
        None => Seq::empty(),
    }
}

/// The compound time window: emitted only when both ends are present.
pub open spec fn window_params(start_time: Option<u64>, end_time: Option<u64>) -> Seq<char> {
    match (start_time, end_time) {
        (Some(s), Some(e)) => "&startTime="@ + dec_of(s as nat) + "&endTime="@ + dec_of(
            e as nat,
        ),
        _ => Seq::empty(),
    }
}

pub open spec fn quoted(sym: Seq<char>) -> Seq<char> {
    seq!['"'] + sym + seq!['"']
}

/// The comma-joined quoted items of a symbols list, with no trailing comma.
pub open spec fn symbols_items(l: Seq<Seq<char>>) -> Seq<char>
    decreases l.len(),
{
    if l.len() == 0 {
        Seq::empty()
    } else if l.len() == 1 {
        quoted(l[0])
    } else {
        quoted(l[0]) + seq![','] + symbols_items(l.drop_first())
    }
}

/// The JSON-array-shaped fragment embedded in a query string: an empty list
/// still renders as `[]`.
pub open spec fn symbols_fragment(l: Seq<Seq<char>>) -> Seq<char> {
    seq!['['] + symbols_items(l) + seq![']']
}

/// The whole optional `?symbols=[...]` query: absence contributes nothing,
/// which is not the same as an empty list.
pub open spec fn opt_symbols_query(symbols: Option<Seq<Seq<char>>>) -> Seq<char> {
    match symbols {
        Some(l) => "?symbols="@ + symbols_fragment(l),
        None => Seq::empty(),
    }
}

/// A symbol that survives the query round trip: free of the quote
/// character, the one character the verbatim bracketed fragment cannot
/// carry.
pub open spec fn symbol_clean(sym: Seq<char>) -> bool {
    forall|j: int| 0 <= j < sym.len() ==> #[trigger] sym[j] != '"'
}

/// Position of the next quote character at or after `j`. The fragment is
/// written verbatim — no escaping — so the quote alone ends an item.
pub open spec fn scan_quote_end(s: Seq<char>, j: int) -> Option<int>
    decreases s.len() - j,
{
    if j < 0 || j >= s.len() {
        None
    } else if s[j] == '"' {
        Some(j)
    } else {
        scan_quote_end(s, j + 1)
    }
}

pub proof fn lemma_scan_quote_end_bounds(s: Seq<char>, j: int)
    requires
        0 <= j,
    ensures
        match scan_quote_end(s, j) {
            Some(q) => j <= q < s.len(),
            None => true,
        },
    decreases s.len() - j,
{
    if j < s.len() && s[j] != '"' {
        lemma_scan_quote_end_bounds(s, j + 1);
    }
}

fn scan_quote_end_exec(s: &str, j: usize) -> (r: Option<usize>)
    requires
        j <= s@.len(),
    ensures
        match r {
            Some(q) => scan_quote_end(s@, j as int) == Some(q as int) && j <= q < s@.len(),
            None => scan_quote_end(s@, j as int) is None,
        },
    decreases s@.len() - j,
{
    let len: usize = s.unicode_len();
    if j >= len {
        None
    } else if s.get_char(j) == '"' {
        Some(j)
    } else {
        scan_quote_end_exec(s, j + 1)
    }
}

/// The quoted items of a bracketed fragment read back, starting at the
/// opening quote of an item and ending right after the closing bracket,
/// which must end the text.
pub open spec fn parse_symbols_items(s: Seq<char>, i: int) -> Option<Seq<Seq<char>>>
    decreases s.len() - i,
{
    if !(0 <= i < s.len() && s[i] == '"') {
        None
    } else {
        match scan_quote_end(s, i + 1) {
            None => None,
            Some(q) => {
                proof {
                    lemma_scan_quote_end_bounds(s, i + 1);
                }
                let sym = s.subrange(i + 1, q);
                if q + 1 < s.len() && s[q + 1] == ',' {
                    match parse_symbols_items(s, q + 2) {
                        Some(rest) => Some(seq![sym] + rest),
                        None => None,
                    }
                } else if q + 1 == s.len() - 1 && s[q + 1] == ']' {
                    Some(seq![sym])
                } else {
                    None
                }
            },
        }
    }
}

/// Reads a bracketed symbols fragment back into the list it renders.
pub open spec fn parse_symbols(s: Seq<char>) -> Option<Seq<Seq<char>>> {
    if s.len() >= 2 && s[0] == '[' {
        if s.len() == 2 && s[1] == ']' {
            Some(Seq::empty())
        } else {
            parse_symbols_items(s, 1)
        }
    } else {
        None
    }
}

fn parse_symbols_items_exec(s: &str, i: usize) -> (r: Option<Vec<String>>)
    requires
        i <= s@.len(),
    ensures
        match r {
            Some(v) => parse_symbols_items(s@, i as int) == Some(v.deep_view()),
            None => parse_symbols_items(s@, i as int) is None,
        },
    decreases s@.len() - i,
{
    let len: usize = s.unicode_len();
    if !(i < len && s.get_char(i) == '"') {
        return None;
    }
    match scan_quote_end_exec(s, i + 1) {
        None => None,
        Some(q) => {
            let sym = s.substring_char(i + 1, q).to_owned();
            if q + 1 < len && s.get_char(q + 1) == ',' {
                match parse_symbols_items_exec(s, q + 2) {
                    Some(mut rest) => {
                        let ghost old_deep = rest.deep_view();
                        let ghost symv = sym@;
                        rest.insert(0, sym);
                        proof {
                            assert(rest.deep_view() =~= seq![symv] + old_deep);
                        }
                        Some(rest)
                    },
                    None => None,
                }
            } else if q + 1 == len - 1 && s.get_char(q + 1) == ']' {
                let ghost symv = sym@;
                let mut v: Vec<String> = Vec::new();
                v.push(sym);
                proof {
                    assert(v.deep_view() =~= seq![symv]);
                }
                Some(v)
            } else {
                None
            }
        },
    }
}

/// Reads the bracketed contents of a composed symbols query back into the
/// symbol list, exactly when the text is such a fragment.
pub fn parse_symbols_list(s: &str) -> (r: Option<Vec<String>>)
    ensures
        match r {
            Some(v) => parse_symbols(s@) == Some(v.deep_view()),
            None => parse_symbols(s@) is None,
        },
{
    let len: usize = s.unicode_len();
    if len >= 2 && s.get_char(0) == '[' {
        if len == 2 && s.get_char(1) == ']' {
            let v: Vec<String> = Vec::new();
            proof {
                assert(v.deep_view() =~= Seq::<Seq<char>>::empty());
            }
            Some(v)
        } else {
            parse_symbols_items_exec(s, 1)
        }
    } else {
        None
    }
}

proof fn lemma_scan_to_quote(s: Seq<char>, j: int, q: int)
    requires
        0 <= j <= q < s.len(),
        s[q] == '"',
        forall|k: int| j <= k < q ==> #[trigger] s[k] != '"',
    ensures
        scan_quote_end(s, j) == Some(q),
    decreases q - j,
{
    if j < q {
        lemma_scan_to_quote(s, j + 1, q);
    }
}

#[verifier::rlimit(100)]
proof fn lemma_items_round_trip(s: Seq<char>, i: int, l: Seq<Seq<char>>)
    requires
        l.len() > 0,
        0 <= i,
        i + symbols_items(l).len() + 1 == s.len(),
        s.subrange(i, s.len() as int) == symbols_items(l) + seq![']'],
        forall|k: int| 0 <= k < l.len() ==> symbol_clean(#[trigger] l[k]),
    ensures
        parse_symbols_items(s, i) == Some(l),
    decreases l.len(),
{
    let items = symbols_items(l);
    let suffix = items + seq![']'];
    let head = l[0];
    let q0 = i + 1 + head.len();
    assert(quoted(head).len() == head.len() + 2);
    assert forall|k: int| i <= k < s.len() implies #[trigger] s[k] == suffix[k - i] by {
        assert(s.subrange(i, s.len() as int)[k - i] == s[k]);
    }
    assert forall|k: int| i <= k <= q0 + 1 && k < s.len() implies #[trigger] s[k] == quoted(
        head,
    )[k - i] || k == q0 + 1 by {
        if k <= q0 {
            assert(suffix[k - i] == items[k - i]);
            assert(items[k - i] == quoted(head)[k - i]);
        }
    }
    assert(s[i] == quoted(head)[0]);
    assert(s[i] == '"');
    assert(s[q0] == quoted(head)[head.len() as int + 1]);
    assert(s[q0] == '"');
    assert forall|k: int| i + 1 <= k < q0 implies #[trigger] s[k] != '"' by {
        assert(s[k] == quoted(head)[k - i]);
        assert(quoted(head)[k - i] == head[k - i - 1]);
        assert(head[k - i - 1] != '"');
    }
    lemma_scan_to_quote(s, i + 1, q0);
    assert(s.subrange(i + 1, q0) =~= head);
    if l.len() == 1 {
        assert(items =~= quoted(head));
        assert(q0 + 1 == s.len() - 1);
        assert(s[q0 + 1] == suffix[q0 + 1 - i]);
        assert(s[q0 + 1] == ']');
        assert(seq![head] =~= l);
    } else {
        let rest = l.drop_first();
        let rest_items = symbols_items(rest);
        assert(items == quoted(head) + seq![','] + rest_items);
        assert(s[q0 + 1] == suffix[q0 + 1 - i]);
        assert(suffix[q0 + 1 - i] == items[q0 + 1 - i]);
        assert(items[q0 + 1 - i] == ',');
        assert(q0 + 1 < s.len());
        let i2 = q0 + 2;
        assert(i2 + rest_items.len() + 1 == s.len());
        assert(s.subrange(i2, s.len() as int) =~= rest_items + seq![']']) by {
            assert forall|m: int| 0 <= m < rest_items.len() + 1 implies s.subrange(
                i2,
                s.len() as int,
            )[m] == (rest_items + seq![']'])[m] by {
                assert(s[i2 + m] == suffix[i2 + m - i]);
                if m < rest_items.len() {
                    assert(suffix[i2 + m - i] == items[i2 + m - i]);
                    assert(items[i2 + m - i] == rest_items[m]);
                } else {
                    assert(suffix[i2 + m - i] == ']');
                }
            }
        }
        assert(forall|k: int|
            0 <= k < rest.len() ==> symbol_clean(#[trigger] rest[k]));
        lemma_items_round_trip(s, i2, rest);
        assert(seq![head] + rest =~= l);
    }
}

/// Round trip: composing the bracketed symbols fragment of a non-empty
/// list and parsing its contents back yields exactly that list, in its
/// original order, for every list of symbols free of the quote character.
pub proof fn lemma_symbols_round_trip(l: Seq<Seq<char>>)
    requires
        l.len() > 0,
        forall|k: int| 0 <= k < l.len() ==> symbol_clean(#[trigger] l[k]),
    ensures
        parse_symbols(symbols_fragment(l)) == Some(l),
{
    let s = symbols_fragment(l);
    let items = symbols_items(l);
    assert(s[0] == '[');
    assert(s.len() == items.len() + 2);
    assert(quoted(l[0]).len() >= 2);
    assert(items.len() >= 2);
    assert(s.subrange(1, s.len() as int) =~= items + seq![']']);
    lemma_items_round_trip(s, 1, l);
}

fn quoted_exec(sym: &str) -> (s: String)
    ensures
        s@ == quoted(sym@),
{
    proof {
        reveal_strlit("\"");
    }
    let mut s = "\"".to_owned();
    s.append(sym);
    s.append("\"");
    proof {
        assert(s@ =~= quoted(sym@));
    }
    s
}

fn symbols_items_exec(symbols: &Vec<String>, i: usize) -> (s: String)
    requires
        i <= symbols@.len(),
    ensures
        s@ == symbols_items(
            symbols.deep_view().subrange(i as int, symbols.deep_view().len() as int),
        ),
    decreases symbols@.len() - i,
{
    let ghost l = symbols.deep_view();
    if i >= symbols.len() {
        proof {
            assert(l.subrange(i as int, l.len() as int) =~= Seq::<Seq<char>>::empty());
        }
        String::new()
    } else if i + 1 == symbols.len() {
        let s = quoted_exec(symbols[i].as_str());
        proof {
            let sub = l.subrange(i as int, l.len() as int);
            assert(sub.len() == 1);
            assert(sub[0] == l[i as int]);
        }
        s
    } else {
        proof {
            reveal_strlit(",");
        }
        let mut s = quoted_exec(symbols[i].as_str());
        s.append(",");
        let rest = symbols_items_exec(symbols, i + 1);
        s.append(rest.as_str());
        proof {
            let sub = l.subrange(i as int, l.len() as int);
            assert(sub[0] == l[i as int]);
            assert(sub.drop_first() =~= l.subrange(i as int + 1, l.len() as int));
            assert(s@ =~= symbols_items(sub));
        }
        s
    }
}

/// Renders the bracketed symbols fragment, `["SYM1","SYM2"]`.
pub fn symbols_fragment_exec(symbols: &Vec<String>) -> (s: String)
    ensures
        s@ == symbols_fragment(symbols.deep_view()),
{
    proof {
        reveal_strlit("[");
        reveal_strlit("]");
    }
    let mut s = "[".to_owned();
    let items = symbols_items_exec(symbols, 0);
    s.append(items.as_str());
    s.append("]");
    proof {
        let l = symbols.deep_view();
        assert(l.subrange(0, l.len() as int) =~= l);
        assert(s@ =~= symbols_fragment(l));
    }
    s
}

fn opt_symbols_query_exec(symbols: Option<&Vec<String>>) -> (s: String)
    ensures
        s@ == opt_symbols_query(
            match symbols {
                Some(l) => Some(l.deep_view()),
                None => None,
            },
        ),
{
    match symbols {
        Some(l) => {
            let mut s = "?symbols=".to_owned();
            let frag = symbols_fragment_exec(l);
            s.append(frag.as_str());
            proof {
                assert(s@ =~= "?symbols="@ + symbols_fragment(l.deep_view()));
            }
            s
        },
        None => String::new(),
    }
}

fn opt_u64_param_exec(prefix: &str, v: Option<u64>) -> (s: String)
    ensures
        s@ == opt_u64_param(prefix@, v),
{
    match v {
        Some(n) => {
            let mut s = prefix.to_owned();
            let dec = u64_to_dec(n);
            s.append(dec.as_str());
            s
        },
        None => String::new(),
    }
}

pub fn ping_url(base: &str) -> (r: String)
    ensures
        r@ == base@ + "/api/v3/ping"@,
{
    let mut s = base.to_owned();
    s.append("/api/v3/ping");
    s
}

pub fn time_url(base: &str) -> (r: String)
    ensures
        r@ == base@ + "/api/v3/time"@,
{
    let mut s = base.to_owned();
    s.append("/api/v3/time");
    s
}

pub fn system_status_url(base: &str) -> (r: String)
    ensures
        r@ == base@ + "/sapi/v1/system/status"@,
{
    let mut s = base.to_owned();
    s.append("/sapi/v1/system/status");
    s
}

pub fn exchange_info_url(base: &str, symbols: Option<&Vec<String>>) -> (r: String)
    ensures
        r@ == base@ + "/api/v3/exchangeInfo"@ + opt_symbols_query(
            match symbols {
                Some(l) => Some(l.deep_view()),
                None => None,
            },
        ),
{
    let mut s = base.to_owned();
    s.append("/api/v3/exchangeInfo");
    let q = opt_symbols_query_exec(symbols);
    s.append(q.as_str());
    proof {
        assert(s@ =~= base@ + "/api/v3/exchangeInfo"@ + opt_symbols_query(
            match symbols {
                Some(l) => Some(l.deep_view()),
                None => None,
            },
        ));
    }
    s
}

pub fn depth_url(base: &str, symbol: &str, limit: Option<u64>) -> (r: String)
    ensures
        r@ == base@ + "/api/v3/depth?symbol="@ + symbol@ + opt_u64_param("&limit="@, limit),
{
    let mut s = base.to_owned();
    s.append("/api/v3/depth?symbol=");
    s.append(symbol);
    let q = opt_u64_param_exec("&limit=", limit);
    s.append(q.as_str());
    proof {
        assert(s@ =~= base@ + "/api/v3/depth?symbol="@ + symbol@ + opt_u64_param(
            "&limit="@,
            limit,
        ));
    }
    s
}

pub fn trades_url(base: &str, symbol: &str, limit: Option<u64>) -> (r: String)
    ensures
        r@ == base@ + "/api/v3/trades?symbol="@ + symbol@ + opt_u64_param("&limit="@, limit),
{
    let mut s = base.to_owned();
    s.append("/api/v3/trades?symbol=");
    s.append(symbol);
    let q = opt_u64_param_exec("&limit=", limit);
    s.append(q.as_str());
    proof {
        assert(s@ =~= base@ + "/api/v3/trades?symbol="@ + symbol@ + opt_u64_param(
            "&limit="@,
            limit,
        ));
    }
    s
}

/// The aggregate-trades URL: `fromId`, the `startTime`/`endTime` pair and
/// `limit` appear only when supplied; a half-open window is dropped whole.
pub fn agg_trades_url(
    base: &str,
    symbol: &str,
    from_id: Option<u64>,
    start_time: Option<u64>,
    end_time: Option<u64>,
    limit: Option<u64>,
) -> (r: String)
    ensures
        r@ == base@ + "/api/v3/aggTrades?symbol="@ + symbol@ + opt_u64_param("&fromId="@, from_id)
            + window_params(start_time, end_time) + opt_u64_param("&limit="@, limit),
{
    let mut s = base.to_owned();
    s.append("/api/v3/aggTrades?symbol=");
    s.append(symbol);
    let q1 = opt_u64_param_exec("&fromId=", from_id);
    s.append(q1.as_str());
    if start_time.is_some() && end_time.is_some() {
        let st = match start_time {
            Some(v) => v,
            None => 0,
        };
        let en = match end_time {
            Some(v) => v,
            None => 0,
        };
        let w1 = opt_u64_param_exec("&startTime=", Some(st));
        s.append(w1.as_str());
        let w2 = opt_u64_param_exec("&endTime=", Some(en));
        s.append(w2.as_str());
    }
    let q2 = opt_u64_param_exec("&limit=", limit);
    s.append(q2.as_str());
    proof {
        assert(s@ =~= base@ + "/api/v3/aggTrades?symbol="@ + symbol@ + opt_u64_param(
            "&fromId="@,
            from_id,
        ) + window_params(start_time, end_time) + opt_u64_param("&limit="@, limit));
    }
    s
}

/// The klines URL: the interval is always present, rendered to its wire
/// token; the time window is emitted only as a pair.
pub fn kline_url(
    base: &str,
    symbol: &str,
    interval: &Interval,
    start_time: Option<u64>,
    end_time: Option<u64>,
    limit: Option<u64>,
) -> (r: String)
    ensures
        r@ == base@ + "/api/v3/klines?symbol="@ + symbol@ + "&interval="@ + interval_token(
            *interval,
        ) + window_params(start_time, end_time) + opt_u64_param("&limit="@, limit),
{
    let mut s = base.to_owned();
    s.append("/api/v3/klines?symbol=");
    s.append(symbol);
    s.append("&interval=");
    let tok = interval.render();
    s.append(tok.as_str());
    if start_time.is_some() && end_time.is_some() {
        let st = match start_time {
            Some(v) => v,
            None => 0,
        };
        let en = match end_time {
            Some(v) => v,
            None => 0,
        };
        let w1 = opt_u64_param_exec("&startTime=", Some(st));
        s.append(w1.as_str());
        let w2 = opt_u64_param_exec("&endTime=", Some(en));
        s.append(w2.as_str());
    }
    let q = opt_u64_param_exec("&limit=", limit);
    s.append(q.as_str());
    proof {
        assert(s@ =~= base@ + "/api/v3/klines?symbol="@ + symbol@ + "&interval="@
            + interval_token(*interval) + window_params(start_time, end_time) + opt_u64_param(
            "&limit="@,
            limit,
        ));
    }
    s
}

pub fn avg_price_url(base: &str, symbol: &str) -> (r: String)
    ensures
        r@ == base@ + "/api/v3/avgPrice?symbol="@ + symbol@,
{
    let mut s = base.to_owned();
    s.append("/api/v3/avgPrice?symbol=");
    s.append(symbol);
    s
}

pub fn price_stats_24h_url(base: &str, symbols: Option<&Vec<String>>) -> (r: String)
    ensures
        r@ == base@ + "/api/v3/ticker/24hr"@ + opt_symbols_query(
            match symbols {
                Some(l) => Some(l.deep_view()),
                None => None,
            },
        ),
{
    let mut s = base.to_owned();
    s.append("/api/v3/ticker/24hr");
    let q = opt_symbols_query_exec(symbols);
    s.append(q.as_str());
    proof {
        assert(s@ =~= base@ + "/api/v3/ticker/24hr"@ + opt_symbols_query(
            match symbols {
                Some(l) => Some(l.deep_view()),
                None => None,
            },
        ));
    }
    s
}

pub fn live_ticker_price_url(base: &str, symbols: Option<&Vec<String>>) -> (r: String)
    ensures
        r@ == base@ + "/api/v3/ticker/price"@ + opt_symbols_query(
            match symbols {
                Some(l) => Some(l.deep_view()),
                None => None,
            },
        ),
{
    let mut s = base.to_owned();
    s.append("/api/v3/ticker/price");
    let q = opt_symbols_query_exec(symbols);
    s.append(q.as_str());
    proof {
        assert(s@ =~= base@ + "/api/v3/ticker/price"@ + opt_symbols_query(
            match symbols {
                Some(l) => Some(l.deep_view()),
                None => None,
            },
        ));
    }
    s
}

pub fn book_ticker_url(base: &str, symbols: Option<&Vec<String>>) -> (r: String)
    ensures
        r@ == base@ + "/api/v3/ticker/bookTicker"@ + opt_symbols_query(
            match symbols {
                Some(l) => Some(l.deep_view()),
                None => None,
            },
        ),
{
    let mut s = base.to_owned();
    s.append("/api/v3/ticker/bookTicker");
    let q = opt_symbols_query_exec(symbols);
    s.append(q.as_str());
    proof {
        assert(s@ =~= base@ + "/api/v3/ticker/bookTicker"@ + opt_symbols_query(
            match symbols {
                Some(l) => Some(l.deep_view()),
                None => None,
            },
        ));
    }
    s
}

} // verus!
