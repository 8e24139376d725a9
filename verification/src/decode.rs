//! Decoding parsed JSON into the typed records: field lookup, numeric
//! coercion, and one decoder per payload shape, each proved equal to its
//! specification.

use crate::errors::{res_view, DecErr, DecodeError};
use crate::json::{
    jval_wf, jview, jview_list, jview_members, lemma_jview_list, lemma_jview_members,
    parse_json, spec_text, JVal, Json,
};
use crate::models::{
    num_wf, AggTrade, AggTradeV, AvgPrice, AvgPriceV, BookTicker, BookTickerV, ExchangeInfo,
    ExchangeInfoV, Filter, FilterV, Kline, KlineV, LiveTicker,
    LiveTickerV, Number, NumV, Order, OrderBook, OrderBookV, Orders, OrdersV, OrderV,
    PriceStats, PriceStatsV, RateLimit, RateLimitV, ServerTime, Status, StatusV, Symbol,
    SymbolV, Trade, TradeV,
};
use crate::text::{
    all_digits, dec_val, int_val, is_int_token, is_nan_text, is_nan_text_exec,
    is_neg_inf_text, is_neg_inf_text_exec, is_number_text, is_number_text_exec,
    is_pos_inf_text, is_pos_inf_text_exec, parse_i64, parse_u64, str_eq,
};
use vstd::prelude::*;
use vstd::string::*;

verus! {

/// First member of `fs`, at position `i` or later, whose key is `name`.
pub open spec fn jget_at(fs: Seq<(Seq<char>, JVal)>, i: int, name: Seq<char>) -> Option<JVal>
    decreases fs.len() - i,
{
    if i < 0 || i >= fs.len() {
        None
    } else if fs[i].0 == name {
        Some(fs[i].1)
    } else {
        jget_at(fs, i + 1, name)
    }
}

/// Field lookup in an object: the first member with the given key.
/// Members the record does not ask for are ignored, as the wire protocol
/// allows new fields to appear.
pub open spec fn jget(fs: Seq<(Seq<char>, JVal)>, name: Seq<char>) -> Option<JVal> {
    jget_at(fs, 0, name)
}

fn jget_exec_at<'a>(members: &'a Vec<(String, Json)>, i: usize, name: &str) -> (r: Option<
    &'a Json,
>)
    requires
        i <= members@.len(),
    ensures
        match r {
            Some(j) => jget_at(jview_members(members@), i as int, name@) == Some(jview(*j)),
            None => jget_at(jview_members(members@), i as int, name@) is None,
        },
    decreases members@.len() - i,
{
    proof {
        lemma_jview_members(members@);
    }
    if i >= members.len() {
        None
    } else if str_eq(members[i].0.as_str(), name) {
        Some(&members[i].1)
    } else {
        jget_exec_at(members, i + 1, name)
    }
}

fn jget_exec<'a>(members: &'a Vec<(String, Json)>, name: &str) -> (r: Option<&'a Json>)
    ensures
        match r {
            Some(j) => jget(jview_members(members@), name@) == Some(jview(*j)),
            None => jget(jview_members(members@), name@) is None,
        },
{
    jget_exec_at(members, 0, name)
}

/// The numeric-coercion rule: a field typed as a number accepts a JSON
/// number, or a JSON string that float parsing accepts — the `"INF"`
/// sentinel, the signed infinity and nan words in any letter case, or a
/// signed numeric text. Any other string is a `BadNumber`; any other
/// shape is `Mistyped`.
pub open spec fn spec_coerce_num(v: JVal, name: Seq<char>) -> Result<NumV, DecErr> {
    match v {
        JVal::Num(tok) => Ok(NumV::Lit(tok)),
        JVal::Str(s) => if s == "INF"@ || is_pos_inf_text(s) {
            Ok(NumV::Inf)
        } else if is_neg_inf_text(s) {
            Ok(NumV::NegInf)
        } else if is_nan_text(s) {
            Ok(NumV::NaN)
        } else if is_number_text(s) {
            Ok(NumV::Lit(s))
        } else {
            Err(DecErr::BadNumber(name))
        },
        _ => Err(DecErr::Mistyped(name)),
    }
}

/// The single reusable decode step for every monetary or quantity field:
/// string or number in, coerced [`Number`] out. `field` only labels the
/// error.
pub fn string_or_float(v: &Json, field: &str) -> (r: Result<Number, DecodeError>)
    ensures
        res_view(r) == spec_coerce_num(jview(*v), field@),
{
    match v {
        Json::Num(tok) => Ok(Number::Lit(tok.clone())),
        Json::Str(s) => {
            if str_eq(s.as_str(), "INF") || is_pos_inf_text_exec(s.as_str()) {
                Ok(Number::Inf)
            } else if is_neg_inf_text_exec(s.as_str()) {
                Ok(Number::NegInf)
            } else if is_nan_text_exec(s.as_str()) {
                Ok(Number::NaN)
            } else if is_number_text_exec(s.as_str()) {
                Ok(Number::Lit(s.clone()))
            } else {
                Err(DecodeError::BadNumber(field.to_owned()))
            }
        },
        _ => Err(DecodeError::Mistyped(field.to_owned())),
    }
}

/// A number coerced out of a well-formed document is itself well-formed:
/// a finite result always carries a token of the numeric grammar, whether
/// it arrived as a JSON number or as a numeric string.
pub proof fn lemma_coerced_number_wf(v: JVal, name: Seq<char>)
    requires
        jval_wf(v),
    ensures
        match spec_coerce_num(v, name) {
            Ok(n) => num_wf(n),
            Err(_) => true,
        },
{
}

pub open spec fn spec_u64_of(v: JVal, name: Seq<char>) -> Result<u64, DecErr> {
    match v {
        JVal::Num(tok) => if tok.len() > 0 && all_digits(tok) && dec_val(tok) <= u64::MAX {
            Ok(dec_val(tok) as u64)
        } else {
            Err(DecErr::Mistyped(name))
        },
        _ => Err(DecErr::Mistyped(name)),
    }
}

fn u64_of(v: &Json, name: &str) -> (r: Result<u64, DecodeError>)
    ensures
        res_view(r) == spec_u64_of(jview(*v), name@),
{
    match v {
        Json::Num(tok) => match parse_u64(tok.as_str()) {
            Some(n) => Ok(n),
            None => Err(DecodeError::Mistyped(name.to_owned())),
        },
        _ => Err(DecodeError::Mistyped(name.to_owned())),
    }
}

pub open spec fn spec_want_u64(fs: Seq<(Seq<char>, JVal)>, name: Seq<char>) -> Result<
    u64,
    DecErr,
> {
    match jget(fs, name) {
        None => Err(DecErr::Missing(name)),
        Some(v) => spec_u64_of(v, name),
    }
}

fn want_u64(members: &Vec<(String, Json)>, name: &str) -> (r: Result<u64, DecodeError>)
    ensures
        res_view(r) == spec_want_u64(jview_members(members@), name@),
{
    match jget_exec(members, name) {
        None => Err(DecodeError::Missing(name.to_owned())),
        Some(v) => u64_of(v, name),
    }
}

pub open spec fn spec_want_u16(fs: Seq<(Seq<char>, JVal)>, name: Seq<char>) -> Result<
    u16,
    DecErr,
> {
    match spec_want_u64(fs, name) {
        Ok(n) => if n <= u16::MAX {
            Ok(n as u16)
        } else {
            Err(DecErr::Mistyped(name))
        },
        Err(e) => Err(e),
    }
}

fn want_u16(members: &Vec<(String, Json)>, name: &str) -> (r: Result<u16, DecodeError>)
    ensures
        res_view(r) == spec_want_u16(jview_members(members@), name@),
{
    match want_u64(members, name) {
        Ok(n) => if n <= u16::MAX as u64 {
            Ok(n as u16)
        } else {
            Err(DecodeError::Mistyped(name.to_owned()))
        },
        Err(e) => Err(e),
    }
}

pub open spec fn spec_want_u8(fs: Seq<(Seq<char>, JVal)>, name: Seq<char>) -> Result<
    u8,
    DecErr,
> {
    match spec_want_u64(fs, name) {
        Ok(n) => if n <= u8::MAX {
            Ok(n as u8)
        } else {
            Err(DecErr::Mistyped(name))
        },
        Err(e) => Err(e),
    }
}

fn want_u8(members: &Vec<(String, Json)>, name: &str) -> (r: Result<u8, DecodeError>)
    ensures
        res_view(r) == spec_want_u8(jview_members(members@), name@),
{
    match want_u64(members, name) {
        Ok(n) => if n <= u8::MAX as u64 {
            Ok(n as u8)
        } else {
            Err(DecodeError::Mistyped(name.to_owned()))
        },
        Err(e) => Err(e),
    }
}

pub open spec fn spec_want_bool(fs: Seq<(Seq<char>, JVal)>, name: Seq<char>) -> Result<
    bool,
    DecErr,
> {
    match jget(fs, name) {
        None => Err(DecErr::Missing(name)),
        Some(JVal::Bool(b)) => Ok(b),
        Some(_) => Err(DecErr::Mistyped(name)),
    }
}

fn want_bool(members: &Vec<(String, Json)>, name: &str) -> (r: Result<bool, DecodeError>)
    ensures
        res_view(r) == spec_want_bool(jview_members(members@), name@),
{
    match jget_exec(members, name) {
        None => Err(DecodeError::Missing(name.to_owned())),
        Some(v) => match v {
            Json::Bool(b) => Ok(*b),
            _ => Err(DecodeError::Mistyped(name.to_owned())),
        },
    }
}

pub open spec fn spec_want_string(fs: Seq<(Seq<char>, JVal)>, name: Seq<char>) -> Result<
    Seq<char>,
    DecErr,
> {
    match jget(fs, name) {
        None => Err(DecErr::Missing(name)),
        Some(JVal::Str(s)) => Ok(s),
        Some(_) => Err(DecErr::Mistyped(name)),
    }
}

fn want_string(members: &Vec<(String, Json)>, name: &str) -> (r: Result<String, DecodeError>)
    ensures
        res_view(r) == spec_want_string(jview_members(members@), name@),
{
    match jget_exec(members, name) {
        None => Err(DecodeError::Missing(name.to_owned())),
        Some(v) => match v {
            Json::Str(s) => Ok(s.clone()),
            _ => Err(DecodeError::Mistyped(name.to_owned())),
        },
    }
}

pub open spec fn spec_want_num(fs: Seq<(Seq<char>, JVal)>, name: Seq<char>) -> Result<
    NumV,
    DecErr,
> {
    match jget(fs, name) {
        None => Err(DecErr::Missing(name)),
        Some(v) => spec_coerce_num(v, name),
    }
}

fn want_num(members: &Vec<(String, Json)>, name: &str) -> (r: Result<Number, DecodeError>)
    ensures
        res_view(r) == spec_want_num(jview_members(members@), name@),
{
    match jget_exec(members, name) {
        None => Err(DecodeError::Missing(name.to_owned())),
        Some(v) => string_or_float(v, name),
    }
}

/// Element-wise decoding of an array: the first failing element's error,
/// or all elements in wire order — no reordering, no deduplication.
pub open spec fn spec_list<T>(xs: Seq<JVal>, f: spec_fn(JVal) -> Result<T, DecErr>) -> Result<
    Seq<T>,
    DecErr,
>
    decreases xs.len(),
{
    if xs.len() == 0 {
        Ok(Seq::empty())
    } else {
        match f(xs[0]) {
            Err(e) => Err(e),
            Ok(h) => match spec_list(xs.drop_first(), f) {
                Err(e) => Err(e),
                Ok(t) => Ok(seq![h] + t),
            },
        }
    }
}

/// One order-book level: a two-element array of coerced numbers, price
/// then quantity.
pub open spec fn spec_order(v: JVal) -> Result<OrderV, DecErr> {
    match v {
        JVal::Arr(xs) => if xs.len() != 2 {
            Err(DecErr::Mistyped("Order"@))
        } else {
            match spec_coerce_num(xs[0], "price"@) {
                Err(e) => Err(e),
                Ok(p) => match spec_coerce_num(xs[1], "qty"@) {
                    Err(e) => Err(e),
                    Ok(q) => Ok(OrderV { price: p, qty: q }),
                },
            }
        },
        _ => Err(DecErr::Mistyped("Order"@)),
    }
}

pub fn decode_order(j: &Json) -> (r: Result<Order, DecodeError>)
    ensures
        res_view(r) == spec_order(jview(*j)),
{
    match j {
        Json::Arr(items) => {
            proof {
                lemma_jview_list(items@);
            }
            if items.len() != 2 {
                Err(DecodeError::Mistyped("Order".to_owned()))
            } else {
                match string_or_float(&items[0], "price") {
                    Err(e) => Err(e),
                    Ok(p) => match string_or_float(&items[1], "qty") {
                        Err(e) => Err(e),
                        Ok(q) => Ok(Order { price: p, qty: q }),
                    },
                }
            }
        },
        _ => Err(DecodeError::Mistyped("Order".to_owned())),
    }
}

pub open spec fn spec_order_list(xs: Seq<JVal>) -> Result<Seq<OrderV>, DecErr> {
    spec_list(xs, |v: JVal| spec_order(v))
}

fn decode_order_list_from(items: &Vec<Json>, i: usize) -> (r: Result<Vec<Order>, DecodeError>)
    requires
        i <= items@.len(),
    ensures
        res_view(r) == spec_order_list(
            jview_list(items@).subrange(i as int, jview_list(items@).len() as int),
        ),
    decreases items@.len() - i,
{
    proof {
        lemma_jview_list(items@);
    }
    let ghost xs = jview_list(items@);
    let ghost f = |v: JVal| spec_order(v);
    if i >= items.len() {
        let t: Vec<Order> = Vec::new();
        proof {
            assert(xs.subrange(i as int, xs.len() as int) =~= Seq::<JVal>::empty());
            assert(t.deep_view() =~= Seq::<OrderV>::empty());
        }
        Ok(t)
    } else {
        proof {
            assert(xs.subrange(i as int, xs.len() as int)[0] == xs[i as int]);
            assert(xs.subrange(i as int, xs.len() as int).drop_first() =~= xs.subrange(
                i as int + 1,
                xs.len() as int,
            ));
        }
        match decode_order(&items[i]) {
            Err(e) => Err(e),
            Ok(h) => match decode_order_list_from(items, i + 1) {
                Err(e) => Err(e),
                Ok(mut t) => {
                    let ghost old_deep = t.deep_view();
                    t.insert(0, h);
                    proof {
                        assert(t.deep_view() =~= seq![h.deep_view()] + old_deep);
                    }
                    Ok(t)
                },
            },
        }
    }
}

pub fn decode_order_list(items: &Vec<Json>) -> (r: Result<Vec<Order>, DecodeError>)
    ensures
        res_view(r) == spec_order_list(jview_list(items@)),
{
    let r = decode_order_list_from(items, 0);
    proof {
        let xs = jview_list(items@);
        assert(xs.subrange(0, xs.len() as int) =~= xs);
    }
    r
}

/// The wire shape of a depth payload: `lastUpdateId`, `bids`, `asks`.
pub open spec fn spec_orders(v: JVal) -> Result<OrdersV, DecErr> {
    match v {
        JVal::Obj(fs) => match spec_want_u64(fs, "lastUpdateId"@) {
            Err(e) => Err(e),
            Ok(id) => match jget(fs, "bids"@) {
                None => Err(DecErr::Missing("bids"@)),
                Some(JVal::Arr(bs)) => match spec_order_list(bs) {
                    Err(e) => Err(e),
                    Ok(bids) => match jget(fs, "asks"@) {
                        None => Err(DecErr::Missing("asks"@)),
                        Some(JVal::Arr(aas)) => match spec_order_list(aas) {
                            Err(e) => Err(e),
                            Ok(asks) => Ok(
                                OrdersV { last_update_id: id, bids: bids, asks: asks },
                            ),
                        },
                        Some(_) => Err(DecErr::Mistyped("asks"@)),
                    },
                },
                Some(_) => Err(DecErr::Mistyped("bids"@)),
            },
        },
        _ => Err(DecErr::Mistyped("Orders"@)),
    }
}

pub fn decode_orders(j: &Json) -> (r: Result<Orders, DecodeError>)
    ensures
        res_view(r) == spec_orders(jview(*j)),
{
    match j {
        Json::Obj(members) => match want_u64(members, "lastUpdateId") {
            Err(e) => Err(e),
            Ok(id) => match jget_exec(members, "bids") {
                None => Err(DecodeError::Missing("bids".to_owned())),
                Some(bv) => match bv {
                    Json::Arr(bitems) => match decode_order_list(bitems) {
                        Err(e) => Err(e),
                        Ok(bids) => match jget_exec(members, "asks") {
                            None => Err(DecodeError::Missing("asks".to_owned())),
                            Some(av) => match av {
                                Json::Arr(aitems) => match decode_order_list(aitems) {
                                    Err(e) => Err(e),
                                    Ok(asks) => Ok(
                                        Orders {
                                            last_update_id: id,
                                            bids: bids,
                                            asks: asks,
                                        },
                                    ),
                                },
                                _ => Err(DecodeError::Mistyped("asks".to_owned())),
                            },
                        },
                    },
                    _ => Err(DecodeError::Mistyped("bids".to_owned())),
                },
            },
        },
        _ => Err(DecodeError::Mistyped("Orders".to_owned())),
    }
}

/// `ServerTime` from its payload object.
pub open spec fn spec_server_time(v: JVal) -> Result<ServerTime, DecErr> {
    match v {
        JVal::Obj(fs) => match spec_want_u64(fs, "serverTime"@) {
            Ok(n) => Ok(ServerTime { server_time: n }),
            Err(e) => Err(e),
        },
        _ => Err(DecErr::Mistyped("ServerTime"@)),
    }
}

pub fn decode_server_time(j: &Json) -> (r: Result<ServerTime, DecodeError>)
    ensures
        res_view(r) == spec_server_time(jview(*j)),
{
    match j {
        Json::Obj(members) => match want_u64(members, "serverTime") {
            Ok(n) => Ok(ServerTime { server_time: n }),
            Err(e) => Err(e),
        },
        _ => Err(DecodeError::Mistyped("ServerTime".to_owned())),
    }
}

/// `Status` from its payload object.
pub open spec fn spec_status(v: JVal) -> Result<StatusV, DecErr> {
    match v {
        JVal::Obj(fs) => match spec_want_u8(fs, "status"@) {
            Err(e) => Err(e),
            Ok(code) => match spec_want_string(fs, "msg"@) {
                Err(e) => Err(e),
                Ok(msg) => Ok(StatusV { status: code, msg: msg }),
            },
        },
        _ => Err(DecErr::Mistyped("Status"@)),
    }
}

pub fn decode_status(j: &Json) -> (r: Result<Status, DecodeError>)
    ensures
        res_view(r) == spec_status(jview(*j)),
{
    match j {
        Json::Obj(members) => match want_u8(members, "status") {
            Err(e) => Err(e),
            Ok(code) => match want_string(members, "msg") {
                Err(e) => Err(e),
                Ok(msg) => Ok(Status { status: code, msg: msg }),
            },
        },
        _ => Err(DecodeError::Mistyped("Status".to_owned())),
    }
}

/// `AvgPrice` from its payload object.
pub open spec fn spec_avg_price(v: JVal) -> Result<AvgPriceV, DecErr> {
    match v {
        JVal::Obj(fs) => match spec_want_u64(fs, "mins"@) {
            Err(e) => Err(e),
            Ok(mins) => match spec_want_num(fs, "price"@) {
                Err(e) => Err(e),
                Ok(price) => Ok(AvgPriceV { mins: mins, price: price }),
            },
        },
        _ => Err(DecErr::Mistyped("AvgPrice"@)),
    }
}

pub fn decode_avg_price(j: &Json) -> (r: Result<AvgPrice, DecodeError>)
    ensures
        res_view(r) == spec_avg_price(jview(*j)),
{
    match j {
        Json::Obj(members) => match want_u64(members, "mins") {
            Err(e) => Err(e),
            Ok(mins) => match want_num(members, "price") {
                Err(e) => Err(e),
                Ok(price) => Ok(AvgPrice { mins: mins, price: price }),
            },
        },
        _ => Err(DecodeError::Mistyped("AvgPrice".to_owned())),
    }
}

/// `Trade` from its payload object.
pub open spec fn spec_trade(v: JVal) -> Result<TradeV, DecErr> {
    match v {
        JVal::Obj(fs) => {
            match spec_want_u64(fs, "id"@) {
                Err(e) => Err(e),
                Ok(id) =>
                match spec_want_num(fs, "price"@) {
                    Err(e) => Err(e),
                    Ok(price) =>
                    match spec_want_num(fs, "qty"@) {
                        Err(e) => Err(e),
                        Ok(qty) =>
                        match spec_want_num(fs, "quoteQty"@) {
                            Err(e) => Err(e),
                            Ok(quote_qty) =>
                            match spec_want_u64(fs, "time"@) {
                                Err(e) => Err(e),
                                Ok(time) =>
                                match spec_want_bool(fs, "isBuyerMaker"@) {
                                    Err(e) => Err(e),
                                    Ok(is_buyer_maker) =>
                                    match spec_want_bool(fs, "isBestMatch"@) {
                                        Err(e) => Err(e),
                                        Ok(is_best_match) =>
                                        Ok(TradeV { id: id, price: price, qty: qty, quote_qty: quote_qty, time: time, is_buyer_maker: is_buyer_maker, is_best_match: is_best_match }),
                                    },
                                },
                            },
                        },
                    },
                },
            }
        },
        _ => Err(DecErr::Mistyped("Trade"@)),
    }
}

pub fn decode_trade(j: &Json) -> (r: Result<Trade, DecodeError>)
    ensures
        res_view(r) == spec_trade(jview(*j)),
{
    let members = match j {
        Json::Obj(m) => m,
        _ => {
            return Err(DecodeError::Mistyped("Trade".to_owned()));
        },
    };
    let id = match want_u64(members, "id") {
        Ok(v) => v,
        Err(e) => {
            return Err(e);
        },
    };
    let price = match want_num(members, "price") {
        Ok(v) => v,
        Err(e) => {
            return Err(e);
        },
    };
    let qty = match want_num(members, "qty") {
        Ok(v) => v,
        Err(e) => {
            return Err(e);
        },
    };
    let quote_qty = match want_num(members, "quoteQty") {
        Ok(v) => v,
        Err(e) => {
            return Err(e);
        },
    };
    let time = match want_u64(members, "time") {
        Ok(v) => v,
        Err(e) => {
            return Err(e);
        },
    };
    let is_buyer_maker = match want_bool(members, "isBuyerMaker") {
        Ok(v) => v,
        Err(e) => {
            return Err(e);
        },
    };
    let is_best_match = match want_bool(members, "isBestMatch") {
        Ok(v) => v,
        Err(e) => {
            return Err(e);
        },
    };
    Ok(Trade { id: id, price: price, qty: qty, quote_qty: quote_qty, time: time, is_buyer_maker: is_buyer_maker, is_best_match: is_best_match })
}

/// `AggTrade` from its payload object.
pub open spec fn spec_agg_trade(v: JVal) -> Result<AggTradeV, DecErr> {
    match v {
        JVal::Obj(fs) => {
            match spec_want_u64(fs, "T"@) {
                Err(e) => Err(e),
                Ok(time) =>
                match spec_want_u64(fs, "a"@) {
                    Err(e) => Err(e),
                    Ok(agg_id) =>
                    match spec_want_u64(fs, "f"@) {
                        Err(e) => Err(e),
                        Ok(first_id) =>
                        match spec_want_u64(fs, "l"@) {
                            Err(e) => Err(e),
                            Ok(last_id) =>
                            match spec_want_bool(fs, "m"@) {
                                Err(e) => Err(e),
                                Ok(maker) =>
                                match spec_want_bool(fs, "M"@) {
                                    Err(e) => Err(e),
                                    Ok(best_match) =>
                                    match spec_want_num(fs, "p"@) {
                                        Err(e) => Err(e),
                                        Ok(price) =>
                                        match spec_want_num(fs, "q"@) {
                                            Err(e) => Err(e),
                                            Ok(qty) =>
                                            Ok(AggTradeV { time: time, agg_id: agg_id, first_id: first_id, last_id: last_id, maker: maker, best_match: best_match, price: price, qty: qty }),
                                        },
                                    },
                                },
                            },
                        },
                    },
                },
            }
        },
        _ => Err(DecErr::Mistyped("AggTrade"@)),
    }
}

pub fn decode_agg_trade(j: &Json) -> (r: Result<AggTrade, DecodeError>)
    ensures
        res_view(r) == spec_agg_trade(jview(*j)),
{
    let members = match j {
        Json::Obj(m) => m,
        _ => {
            return Err(DecodeError::Mistyped("AggTrade".to_owned()));
        },
    };
    let time = match want_u64(members, "T") {
        Ok(v) => v,
        Err(e) => {
            return Err(e);
        },
    };
    let agg_id = match want_u64(members, "a") {
        Ok(v) => v,
        Err(e) => {
            return Err(e);
        },
    };
    let first_id = match want_u64(members, "f") {
        Ok(v) => v,
        Err(e) => {
            return Err(e);
        },
    };
    let last_id = match want_u64(members, "l") {
        Ok(v) => v,
        Err(e) => {
            return Err(e);
        },
    };
    let maker = match want_bool(members, "m") {
        Ok(v) => v,
        Err(e) => {
            return Err(e);
        },
    };
    let best_match = match want_bool(members, "M") {
        Ok(v) => v,
        Err(e) => {
            return Err(e);
        },
    };
    let price = match want_num(members, "p") {
        Ok(v) => v,
        Err(e) => {
            return Err(e);
        },
    };
    let qty = match want_num(members, "q") {
        Ok(v) => v,
        Err(e) => {
            return Err(e);
        },
    };
    Ok(AggTrade { time: time, agg_id: agg_id, first_id: first_id, last_id: last_id, maker: maker, best_match: best_match, price: price, qty: qty })
}

/// `LiveTicker` from its payload object.
pub open spec fn spec_live_ticker(v: JVal) -> Result<LiveTickerV, DecErr> {
    match v {
        JVal::Obj(fs) => {
            match spec_want_string(fs, "symbol"@) {
                Err(e) => Err(e),
                Ok(symbol) =>
                match spec_want_num(fs, "price"@) {
                    Err(e) => Err(e),
                    Ok(price) =>
                    Ok(LiveTickerV { symbol: symbol, price: price }),
                },
            }
        },
        _ => Err(DecErr::Mistyped("LiveTicker"@)),
    }
}

pub fn decode_live_ticker(j: &Json) -> (r: Result<LiveTicker, DecodeError>)
    ensures
        res_view(r) == spec_live_ticker(jview(*j)),
{
    let members = match j {
        Json::Obj(m) => m,
        _ => {
            return Err(DecodeError::Mistyped("LiveTicker".to_owned()));
        },
    };
    let symbol = match want_string(members, "symbol") {
        Ok(v) => v,
        Err(e) => {
            return Err(e);
        },
    };
    let price = match want_num(members, "price") {
        Ok(v) => v,
        Err(e) => {
            return Err(e);
        },
    };
    Ok(LiveTicker { symbol: symbol, price: price })
}

/// `BookTicker` from its payload object.
pub open spec fn spec_book_ticker(v: JVal) -> Result<BookTickerV, DecErr> {
    match v {
        JVal::Obj(fs) => {
            match spec_want_string(fs, "symbol"@) {
                Err(e) => Err(e),
                Ok(symbol) =>
                match spec_want_num(fs, "bidPrice"@) {
                    Err(e) => Err(e),
                    Ok(bid_price) =>
                    match spec_want_num(fs, "bidQty"@) {
                        Err(e) => Err(e),
                        Ok(bid_qty) =>
                        match spec_want_num(fs, "askPrice"@) {
                            Err(e) => Err(e),
                            Ok(ask_price) =>
                            match spec_want_num(fs, "askQty"@) {
                                Err(e) => Err(e),
                                Ok(ask_qty) =>
                                Ok(BookTickerV { symbol: symbol, bid_price: bid_price, bid_qty: bid_qty, ask_price: ask_price, ask_qty: ask_qty }),
                            },
                        },
                    },
                },
            }
        },
        _ => Err(DecErr::Mistyped("BookTicker"@)),
    }
}

pub fn decode_book_ticker(j: &Json) -> (r: Result<BookTicker, DecodeError>)
    ensures
        res_view(r) == spec_book_ticker(jview(*j)),
{
    let members = match j {
        Json::Obj(m) => m,
        _ => {
            return Err(DecodeError::Mistyped("BookTicker".to_owned()));
        },
    };
    let symbol = match want_string(members, "symbol") {
        Ok(v) => v,
        Err(e) => {
            return Err(e);
        },
    };
    let bid_price = match want_num(members, "bidPrice") {
        Ok(v) => v,
        Err(e) => {
            return Err(e);
        },
    };
    let bid_qty = match want_num(members, "bidQty") {
        Ok(v) => v,
        Err(e) => {
            return Err(e);
        },
    };
    let ask_price = match want_num(members, "askPrice") {
        Ok(v) => v,
        Err(e) => {
            return Err(e);
        },
    };
    let ask_qty = match want_num(members, "askQty") {
        Ok(v) => v,
        Err(e) => {
            return Err(e);
        },
    };
    Ok(BookTicker { symbol: symbol, bid_price: bid_price, bid_qty: bid_qty, ask_price: ask_price, ask_qty: ask_qty })
}

/// `PriceStats` from its payload object.
pub open spec fn spec_price_stats(v: JVal) -> Result<PriceStatsV, DecErr> {
    match v {
        JVal::Obj(fs) => {
            match spec_want_string(fs, "symbol"@) {
                Err(e) => Err(e),
                Ok(symbol) =>
                match spec_want_num(fs, "priceChange"@) {
                    Err(e) => Err(e),
                    Ok(price_change) =>
                    match spec_want_num(fs, "priceChangePercent"@) {
                        Err(e) => Err(e),
                        Ok(price_change_percent) =>
                        match spec_want_num(fs, "weightedAvgPrice"@) {
                            Err(e) => Err(e),
                            Ok(weighted_avg_price) =>
                            match spec_want_num(fs, "lastPrice"@) {
                                Err(e) => Err(e),
                                Ok(last_price) =>
                                match spec_want_num(fs, "openPrice"@) {
                                    Err(e) => Err(e),
                                    Ok(open_price) =>
                                    match spec_want_num(fs, "highPrice"@) {
                                        Err(e) => Err(e),
                                        Ok(high_price) =>
                                        match spec_want_num(fs, "lowPrice"@) {
                                            Err(e) => Err(e),
                                            Ok(low_price) =>
                                            match spec_want_num(fs, "volume"@) {
                                                Err(e) => Err(e),
                                                Ok(volume) =>
                                                match spec_want_num(fs, "quoteVolume"@) {
                                                    Err(e) => Err(e),
                                                    Ok(quote_volume) =>
                                                    match spec_want_num(fs, "lastQty"@) {
                                                        Err(e) => Err(e),
                                                        Ok(last_qty) =>
                                                        match spec_want_u64(fs, "openTime"@) {
                                                            Err(e) => Err(e),
                                                            Ok(open_time) =>
                                                            match spec_want_u64(fs, "closeTime"@) {
                                                                Err(e) => Err(e),
                                                                Ok(close_time) =>
                                                                match spec_want_u64(fs, "firstId"@) {
                                                                    Err(e) => Err(e),
                                                                    Ok(first_id) =>
                                                                    match spec_want_u64(fs, "lastId"@) {
                                                                        Err(e) => Err(e),
                                                                        Ok(last_id) =>
                                                                        match spec_want_u64(fs, "count"@) {
                                                                            Err(e) => Err(e),
                                                                            Ok(count) =>
                                                                            Ok(PriceStatsV { symbol: symbol, price_change: price_change, price_change_percent: price_change_percent, weighted_avg_price: weighted_avg_price, last_price: last_price, open_price: open_price, high_price: high_price, low_price: low_price, volume: volume, quote_volume: quote_volume, last_qty: last_qty, open_time: open_time, close_time: close_time, first_id: first_id, last_id: last_id, count: count }),
                                                                        },
                                                                    },
                                                                },
                                                            },
                                                        },
                                                    },
                                                },
                                            },
                                        },
                                    },
                                },
                            },
                        },
                    },
                },
            }
        },
        _ => Err(DecErr::Mistyped("PriceStats"@)),
    }
}

pub fn decode_price_stats(j: &Json) -> (r: Result<PriceStats, DecodeError>)
    ensures
        res_view(r) == spec_price_stats(jview(*j)),
{
    let members = match j {
        Json::Obj(m) => m,
        _ => {
            return Err(DecodeError::Mistyped("PriceStats".to_owned()));
        },
    };
    let symbol = match want_string(members, "symbol") {
        Ok(v) => v,
        Err(e) => {
            return Err(e);
        },
    };
    let price_change = match want_num(members, "priceChange") {
        Ok(v) => v,
        Err(e) => {
            return Err(e);
        },
    };
    let price_change_percent = match want_num(members, "priceChangePercent") {
        Ok(v) => v,
        Err(e) => {
            return Err(e);
        },
    };
    let weighted_avg_price = match want_num(members, "weightedAvgPrice") {
        Ok(v) => v,
        Err(e) => {
            return Err(e);
        },
    };
    let last_price = match want_num(members, "lastPrice") {
        Ok(v) => v,
        Err(e) => {
            return Err(e);
        },
    };
    let open_price = match want_num(members, "openPrice") {
        Ok(v) => v,
        Err(e) => {
            return Err(e);
        },
    };
    let high_price = match want_num(members, "highPrice") {
        Ok(v) => v,
        Err(e) => {
            return Err(e);
        },
    };
    let low_price = match want_num(members, "lowPrice") {
        Ok(v) => v,
        Err(e) => {
            return Err(e);
        },
    };
    let volume = match want_num(members, "volume") {
        Ok(v) => v,
        Err(e) => {
            return Err(e);
        },
    };
    let quote_volume = match want_num(members, "quoteVolume") {
        Ok(v) => v,
        Err(e) => {
            return Err(e);
        },
    };
    let last_qty = match want_num(members, "lastQty") {
        Ok(v) => v,
        Err(e) => {
            return Err(e);
        },
    };
    let open_time = match want_u64(members, "openTime") {
        Ok(v) => v,
        Err(e) => {
            return Err(e);
        },
    };
    let close_time = match want_u64(members, "closeTime") {
        Ok(v) => v,
        Err(e) => {
            return Err(e);
        },
    };
    let first_id = match want_u64(members, "firstId") {
        Ok(v) => v,
        Err(e) => {
            return Err(e);
        },
    };
    let last_id = match want_u64(members, "lastId") {
        Ok(v) => v,
        Err(e) => {
            return Err(e);
        },
    };
    let count = match want_u64(members, "count") {
        Ok(v) => v,
        Err(e) => {
            return Err(e);
        },
    };
    Ok(PriceStats { symbol: symbol, price_change: price_change, price_change_percent: price_change_percent, weighted_avg_price: weighted_avg_price, last_price: last_price, open_price: open_price, high_price: high_price, low_price: low_price, volume: volume, quote_volume: quote_volume, last_qty: last_qty, open_time: open_time, close_time: close_time, first_id: first_id, last_id: last_id, count: count })
}

/// `RateLimit` from its payload object.
pub open spec fn spec_rate_limit(v: JVal) -> Result<RateLimitV, DecErr> {
    match v {
        JVal::Obj(fs) => {
            match spec_want_string(fs, "rateLimitType"@) {
                Err(e) => Err(e),
                Ok(rate_limit_type) =>
                match spec_want_string(fs, "interval"@) {
                    Err(e) => Err(e),
                    Ok(interval) =>
                    match spec_want_u16(fs, "intervalNum"@) {
                        Err(e) => Err(e),
                        Ok(interval_num) =>
                        match spec_want_u64(fs, "limit"@) {
                            Err(e) => Err(e),
                            Ok(limit) =>
                            Ok(RateLimitV { rate_limit_type: rate_limit_type, interval: interval, interval_num: interval_num, limit: limit }),
                        },
                    },
                },
            }
        },
        _ => Err(DecErr::Mistyped("RateLimit"@)),
    }
}

pub fn decode_rate_limit(j: &Json) -> (r: Result<RateLimit, DecodeError>)
    ensures
        res_view(r) == spec_rate_limit(jview(*j)),
{
    let members = match j {
        Json::Obj(m) => m,
        _ => {
            return Err(DecodeError::Mistyped("RateLimit".to_owned()));
        },
    };
    let rate_limit_type = match want_string(members, "rateLimitType") {
        Ok(v) => v,
        Err(e) => {
            return Err(e);
        },
    };
    let interval = match want_string(members, "interval") {
        Ok(v) => v,
        Err(e) => {
            return Err(e);
        },
    };
    let interval_num = match want_u16(members, "intervalNum") {
        Ok(v) => v,
        Err(e) => {
            return Err(e);
        },
    };
    let limit = match want_u64(members, "limit") {
        Ok(v) => v,
        Err(e) => {
            return Err(e);
        },
    };
    Ok(RateLimit { rate_limit_type: rate_limit_type, interval: interval, interval_num: interval_num, limit: limit })
}

pub open spec fn spec_trade_list(xs: Seq<JVal>) -> Result<Seq<TradeV>, DecErr> {
    spec_list(xs, |v: JVal| spec_trade(v))
}

fn decode_trade_list_from(items: &Vec<Json>, i: usize) -> (r: Result<Vec<Trade>, DecodeError>)
    requires
        i <= items@.len(),
    ensures
        res_view(r) == spec_trade_list(
            jview_list(items@).subrange(i as int, jview_list(items@).len() as int),
        ),
    decreases items@.len() - i,
{
    proof {
        lemma_jview_list(items@);
    }
    let ghost xs = jview_list(items@);
    if i >= items.len() {
        let t: Vec<Trade> = Vec::new();
        proof {
            assert(xs.subrange(i as int, xs.len() as int) =~= Seq::<JVal>::empty());
            assert(t.deep_view() =~= Seq::<TradeV>::empty());
        }
        Ok(t)
    } else {
        proof {
            assert(xs.subrange(i as int, xs.len() as int)[0] == xs[i as int]);
            assert(xs.subrange(i as int, xs.len() as int).drop_first() =~= xs.subrange(
                i as int + 1,
                xs.len() as int,
            ));
        }
        match decode_trade(&items[i]) {
            Err(e) => Err(e),
            Ok(h) => match decode_trade_list_from(items, i + 1) {
                Err(e) => Err(e),
                Ok(mut t) => {
                    let ghost old_deep = t.deep_view();
                    t.insert(0, h);
                    proof {
                        assert(t.deep_view() =~= seq![h.deep_view()] + old_deep);
                    }
                    Ok(t)
                },
            },
        }
    }
}

pub fn decode_trade_list(items: &Vec<Json>) -> (r: Result<Vec<Trade>, DecodeError>)
    ensures
        res_view(r) == spec_trade_list(jview_list(items@)),
{
    let r = decode_trade_list_from(items, 0);
    proof {
        let xs = jview_list(items@);
        assert(xs.subrange(0, xs.len() as int) =~= xs);
    }
    r
}


pub open spec fn spec_agg_trade_list(xs: Seq<JVal>) -> Result<Seq<AggTradeV>, DecErr> {
    spec_list(xs, |v: JVal| spec_agg_trade(v))
}

fn decode_agg_trade_list_from(items: &Vec<Json>, i: usize) -> (r: Result<Vec<AggTrade>, DecodeError>)
    requires
        i <= items@.len(),
    ensures
        res_view(r) == spec_agg_trade_list(
            jview_list(items@).subrange(i as int, jview_list(items@).len() as int),
        ),
    decreases items@.len() - i,
{
    proof {
        lemma_jview_list(items@);
    }
    let ghost xs = jview_list(items@);
    if i >= items.len() {
        let t: Vec<AggTrade> = Vec::new();
        proof {
            assert(xs.subrange(i as int, xs.len() as int) =~= Seq::<JVal>::empty());
            assert(t.deep_view() =~= Seq::<AggTradeV>::empty());
        }
        Ok(t)
    } else {
        proof {
            assert(xs.subrange(i as int, xs.len() as int)[0] == xs[i as int]);
            assert(xs.subrange(i as int, xs.len() as int).drop_first() =~= xs.subrange(
                i as int + 1,
                xs.len() as int,
            ));
        }
        match decode_agg_trade(&items[i]) {
            Err(e) => Err(e),
            Ok(h) => match decode_agg_trade_list_from(items, i + 1) {
                Err(e) => Err(e),
                Ok(mut t) => {
                    let ghost old_deep = t.deep_view();
                    t.insert(0, h);
                    proof {
                        assert(t.deep_view() =~= seq![h.deep_view()] + old_deep);
                    }
                    Ok(t)
                },
            },
        }
    }
}

pub fn decode_agg_trade_list(items: &Vec<Json>) -> (r: Result<Vec<AggTrade>, DecodeError>)
    ensures
        res_view(r) == spec_agg_trade_list(jview_list(items@)),
{
    let r = decode_agg_trade_list_from(items, 0);
    proof {
        let xs = jview_list(items@);
        assert(xs.subrange(0, xs.len() as int) =~= xs);
    }
    r
}


pub open spec fn spec_live_ticker_list(xs: Seq<JVal>) -> Result<Seq<LiveTickerV>, DecErr> {
    spec_list(xs, |v: JVal| spec_live_ticker(v))
}

fn decode_live_ticker_list_from(items: &Vec<Json>, i: usize) -> (r: Result<Vec<LiveTicker>, DecodeError>)
    requires
        i <= items@.len(),
    ensures
        res_view(r) == spec_live_ticker_list(
            jview_list(items@).subrange(i as int, jview_list(items@).len() as int),
        ),
    decreases items@.len() - i,
{
    proof {
        lemma_jview_list(items@);
    }
    let ghost xs = jview_list(items@);
    if i >= items.len() {
        let t: Vec<LiveTicker> = Vec::new();
        proof {
            assert(xs.subrange(i as int, xs.len() as int) =~= Seq::<JVal>::empty());
            assert(t.deep_view() =~= Seq::<LiveTickerV>::empty());
        }
        Ok(t)
    } else {
        proof {
            assert(xs.subrange(i as int, xs.len() as int)[0] == xs[i as int]);
            assert(xs.subrange(i as int, xs.len() as int).drop_first() =~= xs.subrange(
                i as int + 1,
                xs.len() as int,
            ));
        }
        match decode_live_ticker(&items[i]) {
            Err(e) => Err(e),
            Ok(h) => match decode_live_ticker_list_from(items, i + 1) {
                Err(e) => Err(e),
                Ok(mut t) => {
                    let ghost old_deep = t.deep_view();
                    t.insert(0, h);
                    proof {
                        assert(t.deep_view() =~= seq![h.deep_view()] + old_deep);
                    }
                    Ok(t)
                },
            },
        }
    }
}

pub fn decode_live_ticker_list(items: &Vec<Json>) -> (r: Result<Vec<LiveTicker>, DecodeError>)
    ensures
        res_view(r) == spec_live_ticker_list(jview_list(items@)),
{
    let r = decode_live_ticker_list_from(items, 0);
    proof {
        let xs = jview_list(items@);
        assert(xs.subrange(0, xs.len() as int) =~= xs);
    }
    r
}


pub open spec fn spec_book_ticker_list(xs: Seq<JVal>) -> Result<Seq<BookTickerV>, DecErr> {
    spec_list(xs, |v: JVal| spec_book_ticker(v))
}

fn decode_book_ticker_list_from(items: &Vec<Json>, i: usize) -> (r: Result<Vec<BookTicker>, DecodeError>)
    requires
        i <= items@.len(),
    ensures
        res_view(r) == spec_book_ticker_list(
            jview_list(items@).subrange(i as int, jview_list(items@).len() as int),
        ),
    decreases items@.len() - i,
{
    proof {
        lemma_jview_list(items@);
    }
    let ghost xs = jview_list(items@);
    if i >= items.len() {
        let t: Vec<BookTicker> = Vec::new();
        proof {
            assert(xs.subrange(i as int, xs.len() as int) =~= Seq::<JVal>::empty());
            assert(t.deep_view() =~= Seq::<BookTickerV>::empty());
        }
        Ok(t)
    } else {
        proof {
            assert(xs.subrange(i as int, xs.len() as int)[0] == xs[i as int]);
            assert(xs.subrange(i as int, xs.len() as int).drop_first() =~= xs.subrange(
                i as int + 1,
                xs.len() as int,
            ));
        }
        match decode_book_ticker(&items[i]) {
            Err(e) => Err(e),
            Ok(h) => match decode_book_ticker_list_from(items, i + 1) {
                Err(e) => Err(e),
                Ok(mut t) => {
                    let ghost old_deep = t.deep_view();
                    t.insert(0, h);
                    proof {
                        assert(t.deep_view() =~= seq![h.deep_view()] + old_deep);
                    }
                    Ok(t)
                },
            },
        }
    }
}

pub fn decode_book_ticker_list(items: &Vec<Json>) -> (r: Result<Vec<BookTicker>, DecodeError>)
    ensures
        res_view(r) == spec_book_ticker_list(jview_list(items@)),
{
    let r = decode_book_ticker_list_from(items, 0);
    proof {
        let xs = jview_list(items@);
        assert(xs.subrange(0, xs.len() as int) =~= xs);
    }
    r
}


pub open spec fn spec_price_stats_list(xs: Seq<JVal>) -> Result<Seq<PriceStatsV>, DecErr> {
    spec_list(xs, |v: JVal| spec_price_stats(v))
}

fn decode_price_stats_list_from(items: &Vec<Json>, i: usize) -> (r: Result<Vec<PriceStats>, DecodeError>)
    requires
        i <= items@.len(),
    ensures
        res_view(r) == spec_price_stats_list(
            jview_list(items@).subrange(i as int, jview_list(items@).len() as int),
        ),
    decreases items@.len() - i,
{
    proof {
        lemma_jview_list(items@);
    }
    let ghost xs = jview_list(items@);
    if i >= items.len() {
        let t: Vec<PriceStats> = Vec::new();
        proof {
            assert(xs.subrange(i as int, xs.len() as int) =~= Seq::<JVal>::empty());
            assert(t.deep_view() =~= Seq::<PriceStatsV>::empty());
        }
        Ok(t)
    } else {
        proof {
            assert(xs.subrange(i as int, xs.len() as int)[0] == xs[i as int]);
            assert(xs.subrange(i as int, xs.len() as int).drop_first() =~= xs.subrange(
                i as int + 1,
                xs.len() as int,
            ));
        }
        match decode_price_stats(&items[i]) {
            Err(e) => Err(e),
            Ok(h) => match decode_price_stats_list_from(items, i + 1) {
                Err(e) => Err(e),
                Ok(mut t) => {
                    let ghost old_deep = t.deep_view();
                    t.insert(0, h);
                    proof {
                        assert(t.deep_view() =~= seq![h.deep_view()] + old_deep);
                    }
                    Ok(t)
                },
            },
        }
    }
}

pub fn decode_price_stats_list(items: &Vec<Json>) -> (r: Result<Vec<PriceStats>, DecodeError>)
    ensures
        res_view(r) == spec_price_stats_list(jview_list(items@)),
{
    let r = decode_price_stats_list_from(items, 0);
    proof {
        let xs = jview_list(items@);
        assert(xs.subrange(0, xs.len() as int) =~= xs);
    }
    r
}


pub open spec fn spec_rate_limit_list(xs: Seq<JVal>) -> Result<Seq<RateLimitV>, DecErr> {
    spec_list(xs, |v: JVal| spec_rate_limit(v))
}

fn decode_rate_limit_list_from(items: &Vec<Json>, i: usize) -> (r: Result<Vec<RateLimit>, DecodeError>)
    requires
        i <= items@.len(),
    ensures
        res_view(r) == spec_rate_limit_list(
            jview_list(items@).subrange(i as int, jview_list(items@).len() as int),
        ),
    decreases items@.len() - i,
{
    proof {
        lemma_jview_list(items@);
    }
    let ghost xs = jview_list(items@);
    if i >= items.len() {
        let t: Vec<RateLimit> = Vec::new();
        proof {
            assert(xs.subrange(i as int, xs.len() as int) =~= Seq::<JVal>::empty());
            assert(t.deep_view() =~= Seq::<RateLimitV>::empty());
        }
        Ok(t)
    } else {
        proof {
            assert(xs.subrange(i as int, xs.len() as int)[0] == xs[i as int]);
            assert(xs.subrange(i as int, xs.len() as int).drop_first() =~= xs.subrange(
                i as int + 1,
                xs.len() as int,
            ));
        }
        match decode_rate_limit(&items[i]) {
            Err(e) => Err(e),
            Ok(h) => match decode_rate_limit_list_from(items, i + 1) {
                Err(e) => Err(e),
                Ok(mut t) => {
                    let ghost old_deep = t.deep_view();
                    t.insert(0, h);
                    proof {
                        assert(t.deep_view() =~= seq![h.deep_view()] + old_deep);
                    }
                    Ok(t)
                },
            },
        }
    }
}

pub fn decode_rate_limit_list(items: &Vec<Json>) -> (r: Result<Vec<RateLimit>, DecodeError>)
    ensures
        res_view(r) == spec_rate_limit_list(jview_list(items@)),
{
    let r = decode_rate_limit_list_from(items, 0);
    proof {
        let xs = jview_list(items@);
        assert(xs.subrange(0, xs.len() as int) =~= xs);
    }
    r
}



pub open spec fn spec_str_of(v: JVal, name: Seq<char>) -> Result<Seq<char>, DecErr> {
    match v {
        JVal::Str(s) => Ok(s),
        _ => Err(DecErr::Mistyped(name)),
    }
}

fn str_of(v: &Json, name: &str) -> (r: Result<String, DecodeError>)
    ensures
        res_view(r) == spec_str_of(jview(*v), name@),
{
    match v {
        Json::Str(s) => Ok(s.clone()),
        _ => Err(DecodeError::Mistyped(name.to_owned())),
    }
}

pub open spec fn spec_i64_of(v: JVal, name: Seq<char>) -> Result<i64, DecErr> {
    match v {
        JVal::Num(tok) => if is_int_token(tok) && i64::MIN <= int_val(tok) <= i64::MAX {
            Ok(int_val(tok) as i64)
        } else {
            Err(DecErr::Mistyped(name))
        },
        _ => Err(DecErr::Mistyped(name)),
    }
}

fn i64_of(v: &Json, name: &str) -> (r: Result<i64, DecodeError>)
    ensures
        res_view(r) == spec_i64_of(jview(*v), name@),
{
    match v {
        Json::Num(tok) => match parse_i64(tok.as_str()) {
            Some(n) => Ok(n),
            None => Err(DecodeError::Mistyped(name.to_owned())),
        },
        _ => Err(DecodeError::Mistyped(name.to_owned())),
    }
}

pub open spec fn spec_string_list(xs: Seq<JVal>, name: Seq<char>) -> Result<
    Seq<Seq<char>>,
    DecErr,
> {
    spec_list(xs, |v: JVal| spec_str_of(v, name))
}

fn decode_string_list_from(items: &Vec<Json>, i: usize, name: &str) -> (r: Result<
    Vec<String>,
    DecodeError,
>)
    requires
        i <= items@.len(),
    ensures
        res_view(r) == spec_string_list(
            jview_list(items@).subrange(i as int, jview_list(items@).len() as int),
            name@,
        ),
    decreases items@.len() - i,
{
    proof {
        lemma_jview_list(items@);
    }
    let ghost xs = jview_list(items@);
    if i >= items.len() {
        let t: Vec<String> = Vec::new();
        proof {
            assert(xs.subrange(i as int, xs.len() as int) =~= Seq::<JVal>::empty());
            assert(t.deep_view() =~= Seq::<Seq<char>>::empty());
        }
        Ok(t)
    } else {
        proof {
            assert(xs.subrange(i as int, xs.len() as int)[0] == xs[i as int]);
            assert(xs.subrange(i as int, xs.len() as int).drop_first() =~= xs.subrange(
                i as int + 1,
                xs.len() as int,
            ));
        }
        match str_of(&items[i], name) {
            Err(e) => Err(e),
            Ok(h) => match decode_string_list_from(items, i + 1, name) {
                Err(e) => Err(e),
                Ok(mut t) => {
                    let ghost old_deep = t.deep_view();
                    t.insert(0, h);
                    proof {
                        assert(t.deep_view() =~= seq![h.deep_view()] + old_deep);
                    }
                    Ok(t)
                },
            },
        }
    }
}

fn decode_string_list(items: &Vec<Json>, name: &str) -> (r: Result<Vec<String>, DecodeError>)
    ensures
        res_view(r) == spec_string_list(jview_list(items@), name@),
{
    let r = decode_string_list_from(items, 0, name);
    proof {
        let xs = jview_list(items@);
        assert(xs.subrange(0, xs.len() as int) =~= xs);
    }
    r
}

pub open spec fn spec_want_strlist(fs: Seq<(Seq<char>, JVal)>, name: Seq<char>) -> Result<
    Seq<Seq<char>>,
    DecErr,
> {
    match jget(fs, name) {
        None => Err(DecErr::Missing(name)),
        Some(JVal::Arr(xs)) => spec_string_list(xs, name),
        Some(_) => Err(DecErr::Mistyped(name)),
    }
}

fn want_strlist(members: &Vec<(String, Json)>, name: &str) -> (r: Result<
    Vec<String>,
    DecodeError,
>)
    ensures
        res_view(r) == spec_want_strlist(jview_members(members@), name@),
{
    match jget_exec(members, name) {
        None => Err(DecodeError::Missing(name.to_owned())),
        Some(v) => match v {
            Json::Arr(items) => decode_string_list(items, name),
            _ => Err(DecodeError::Mistyped(name.to_owned())),
        },
    }
}

/// A candle: on the wire, a twelve-element array read positionally.
pub open spec fn spec_kline(v: JVal) -> Result<KlineV, DecErr> {
    match v {
        JVal::Arr(xs) => if xs.len() != 12 {
            Err(DecErr::Mistyped("Kline"@))
        } else {
            match spec_i64_of(xs[0], "openTime"@) {
                Err(e) => Err(e),
                Ok(open_time) =>
                match spec_str_of(xs[1], "open"@) {
                    Err(e) => Err(e),
                    Ok(open) =>
                    match spec_str_of(xs[2], "high"@) {
                        Err(e) => Err(e),
                        Ok(high) =>
                        match spec_str_of(xs[3], "low"@) {
                            Err(e) => Err(e),
                            Ok(low) =>
                            match spec_str_of(xs[4], "close"@) {
                                Err(e) => Err(e),
                                Ok(close) =>
                                match spec_str_of(xs[5], "volume"@) {
                                    Err(e) => Err(e),
                                    Ok(volume) =>
                                    match spec_i64_of(xs[6], "closeTime"@) {
                                        Err(e) => Err(e),
                                        Ok(close_time) =>
                                        match spec_str_of(xs[7], "quoteAssetVolume"@) {
                                            Err(e) => Err(e),
                                            Ok(quote_asset_volume) =>
                                            match spec_i64_of(xs[8], "numberOfTrades"@) {
                                                Err(e) => Err(e),
                                                Ok(number_of_trades) =>
                                                match spec_str_of(xs[9], "takerBuyBaseAssetVolume"@) {
                                                    Err(e) => Err(e),
                                                    Ok(taker_buy_base_asset_volume) =>
                                                    match spec_str_of(xs[10], "takerBuyQuoteAssetVolume"@) {
                                                        Err(e) => Err(e),
                                                        Ok(taker_buy_quote_asset_volume) =>
                                                        match spec_str_of(xs[11], "ignore"@) {
                                                            Err(e) => Err(e),
                                                            Ok(_ignore) =>
                                                            Ok(KlineV { open_time: open_time, open: open, high: high, low: low, close: close, volume: volume, close_time: close_time, quote_asset_volume: quote_asset_volume, number_of_trades: number_of_trades, taker_buy_base_asset_volume: taker_buy_base_asset_volume, taker_buy_quote_asset_volume: taker_buy_quote_asset_volume, _ignore: _ignore }),
                                                        },
                                                    },
                                                },
                                            },
                                        },
                                    },
                                },
                            },
                        },
                    },
                },
            }
        },
        _ => Err(DecErr::Mistyped("Kline"@)),
    }
}

pub fn decode_kline(j: &Json) -> (r: Result<Kline, DecodeError>)
    ensures
        res_view(r) == spec_kline(jview(*j)),
{
    let items = match j {
        Json::Arr(xs) => xs,
        _ => {
            return Err(DecodeError::Mistyped("Kline".to_owned()));
        },
    };
    proof {
        lemma_jview_list(items@);
    }
    if items.len() != 12 {
        return Err(DecodeError::Mistyped("Kline".to_owned()));
    }
    let open_time = match i64_of(&items[0], "openTime") {
        Ok(v) => v,
        Err(e) => {
            return Err(e);
        },
    };
    let open = match str_of(&items[1], "open") {
        Ok(v) => v,
        Err(e) => {
            return Err(e);
        },
    };
    let high = match str_of(&items[2], "high") {
        Ok(v) => v,
        Err(e) => {
            return Err(e);
        },
    };
    let low = match str_of(&items[3], "low") {
        Ok(v) => v,
        Err(e) => {
            return Err(e);
        },
    };
    let close = match str_of(&items[4], "close") {
        Ok(v) => v,
        Err(e) => {
            return Err(e);
        },
    };
    let volume = match str_of(&items[5], "volume") {
        Ok(v) => v,
        Err(e) => {
            return Err(e);
        },
    };
    let close_time = match i64_of(&items[6], "closeTime") {
        Ok(v) => v,
        Err(e) => {
            return Err(e);
        },
    };
    let quote_asset_volume = match str_of(&items[7], "quoteAssetVolume") {
        Ok(v) => v,
        Err(e) => {
            return Err(e);
        },
    };
    let number_of_trades = match i64_of(&items[8], "numberOfTrades") {
        Ok(v) => v,
        Err(e) => {
            return Err(e);
        },
    };
    let taker_buy_base_asset_volume = match str_of(&items[9], "takerBuyBaseAssetVolume") {
        Ok(v) => v,
        Err(e) => {
            return Err(e);
        },
    };
    let taker_buy_quote_asset_volume = match str_of(&items[10], "takerBuyQuoteAssetVolume") {
        Ok(v) => v,
        Err(e) => {
            return Err(e);
        },
    };
    let _ignore = match str_of(&items[11], "ignore") {
        Ok(v) => v,
        Err(e) => {
            return Err(e);
        },
    };
    Ok(Kline { open_time: open_time, open: open, high: high, low: low, close: close, volume: volume, close_time: close_time, quote_asset_volume: quote_asset_volume, number_of_trades: number_of_trades, taker_buy_base_asset_volume: taker_buy_base_asset_volume, taker_buy_quote_asset_volume: taker_buy_quote_asset_volume, _ignore: _ignore })
}

/// The fields of one filter variant, chosen by the discriminator `tag`.
/// A discriminator outside the nine known kinds is an `UnknownFilter`
/// error, never a default variant.
pub open spec fn spec_filter_fields(fs: Seq<(Seq<char>, JVal)>, tag: Seq<char>) -> Result<
    FilterV,
    DecErr,
> {
    if tag == "PRICE_FILTER"@ {
        match spec_want_num(fs, "minPrice"@) {
            Err(e) => Err(e),
            Ok(min_price) =>
            match spec_want_num(fs, "maxPrice"@) {
                Err(e) => Err(e),
                Ok(max_price) =>
                match spec_want_num(fs, "tickSize"@) {
                    Err(e) => Err(e),
                    Ok(tick_size) =>
                    Ok(FilterV::PriceFilter { min_price: min_price, max_price: max_price, tick_size: tick_size }),
                },
            },
        }
    } else if tag == "PERCENT_PRICE"@ {
        match spec_want_num(fs, "multiplierUp"@) {
            Err(e) => Err(e),
            Ok(multiplier_up) =>
            match spec_want_num(fs, "multiplierDown"@) {
                Err(e) => Err(e),
                Ok(multiplier_down) =>
                match spec_want_u16(fs, "avgPriceMins"@) {
                    Err(e) => Err(e),
                    Ok(avg_price_mins) =>
                    Ok(FilterV::PercentPrice { multiplier_up: multiplier_up, multiplier_down: multiplier_down, avg_price_mins: avg_price_mins }),
                },
            },
        }
    } else if tag == "LOT_SIZE"@ {
        match spec_want_num(fs, "minQty"@) {
            Err(e) => Err(e),
            Ok(min_qty) =>
            match spec_want_num(fs, "maxQty"@) {
                Err(e) => Err(e),
                Ok(max_qty) =>
                match spec_want_num(fs, "stepSize"@) {
                    Err(e) => Err(e),
                    Ok(step_size) =>
                    Ok(FilterV::LotSize { min_qty: min_qty, max_qty: max_qty, step_size: step_size }),
                },
            },
        }
    } else if tag == "MIN_NOTIONAL"@ {
        match spec_want_num(fs, "minNotional"@) {
            Err(e) => Err(e),
            Ok(min_notional) =>
            match spec_want_bool(fs, "applyToMarket"@) {
                Err(e) => Err(e),
                Ok(apply_to_market) =>
                match spec_want_u16(fs, "avgPriceMins"@) {
                    Err(e) => Err(e),
                    Ok(avg_price_mins) =>
                    Ok(FilterV::MinNotional { min_notional: min_notional, apply_to_market: apply_to_market, avg_price_mins: avg_price_mins }),
                },
            },
        }
    } else if tag == "ICEBERG_PARTS"@ {
        match spec_want_u64(fs, "limit"@) {
            Err(e) => Err(e),
            Ok(limit) =>
            Ok(FilterV::IcebergParts { limit: limit }),
        }
    } else if tag == "MARKET_LOT_SIZE"@ {
        match spec_want_num(fs, "minQty"@) {
            Err(e) => Err(e),
            Ok(min_qty) =>
            match spec_want_num(fs, "maxQty"@) {
                Err(e) => Err(e),
                Ok(max_qty) =>
                match spec_want_num(fs, "stepSize"@) {
                    Err(e) => Err(e),
                    Ok(step_size) =>
                    Ok(FilterV::MarketLotSize { min_qty: min_qty, max_qty: max_qty, step_size: step_size }),
                },
            },
        }
    } else if tag == "TRAILING_DELTA"@ {
        match spec_want_u16(fs, "minTrailingAboveDelta"@) {
            Err(e) => Err(e),
            Ok(min_trailing_above_delta) =>
            match spec_want_u16(fs, "maxTrailingAboveDelta"@) {
                Err(e) => Err(e),
                Ok(max_trailing_above_delta) =>
                match spec_want_u16(fs, "minTrailingBelowDelta"@) {
                    Err(e) => Err(e),
                    Ok(min_trailing_below_delta) =>
                    match spec_want_u16(fs, "maxTrailingBelowDelta"@) {
                        Err(e) => Err(e),
                        Ok(max_trailing_below_delta) =>
                        Ok(FilterV::TrailingDelta { min_trailing_above_delta: min_trailing_above_delta, max_trailing_above_delta: max_trailing_above_delta, min_trailing_below_delta: min_trailing_below_delta, max_trailing_below_delta: max_trailing_below_delta }),
                    },
                },
            },
        }
    } else if tag == "MAX_NUM_ORDERS"@ {
        match spec_want_u16(fs, "maxNumOrders"@) {
            Err(e) => Err(e),
            Ok(max_num_orders) =>
            Ok(FilterV::MaxNumOrder { max_num_orders: max_num_orders }),
        }
    } else if tag == "MAX_NUM_ALGO_ORDERS"@ {
        match spec_want_u16(fs, "maxNumAlgoOrders"@) {
            Err(e) => Err(e),
            Ok(max_num_algo_orders) =>
            Ok(FilterV::MaxNumAlgoOrders { max_num_algo_orders: max_num_algo_orders }),
        }
    } else {
        Err(DecErr::UnknownFilter(tag))
    }
}

pub open spec fn spec_filter(v: JVal) -> Result<FilterV, DecErr> {
    match v {
        JVal::Obj(fs) => match jget(fs, "filterType"@) {
            None => Err(DecErr::Missing("filterType"@)),
            Some(JVal::Str(tag)) => spec_filter_fields(fs, tag),
            Some(_) => Err(DecErr::Mistyped("filterType"@)),
        },
        _ => Err(DecErr::Mistyped("Filter"@)),
    }
}

fn decode_filter_fields(members: &Vec<(String, Json)>, tag: &String) -> (r: Result<
    Filter,
    DecodeError,
>)
    ensures
        res_view(r) == spec_filter_fields(jview_members(members@), tag@),
{
    if str_eq(tag.as_str(), "PRICE_FILTER") {
        let min_price = match want_num(members, "minPrice") {
            Ok(v) => v,
            Err(e) => {
                return Err(e);
            },
        };
        let max_price = match want_num(members, "maxPrice") {
            Ok(v) => v,
            Err(e) => {
                return Err(e);
            },
        };
        let tick_size = match want_num(members, "tickSize") {
            Ok(v) => v,
            Err(e) => {
                return Err(e);
            },
        };
        Ok(Filter::PriceFilter { min_price: min_price, max_price: max_price, tick_size: tick_size })
    } else if str_eq(tag.as_str(), "PERCENT_PRICE") {
        let multiplier_up = match want_num(members, "multiplierUp") {
            Ok(v) => v,
            Err(e) => {
                return Err(e);
            },
        };
        let multiplier_down = match want_num(members, "multiplierDown") {
            Ok(v) => v,
            Err(e) => {
                return Err(e);
            },
        };
        let avg_price_mins = match want_u16(members, "avgPriceMins") {
            Ok(v) => v,
            Err(e) => {
                return Err(e);
            },
        };
        Ok(Filter::PercentPrice { multiplier_up: multiplier_up, multiplier_down: multiplier_down, avg_price_mins: avg_price_mins })
    } else if str_eq(tag.as_str(), "LOT_SIZE") {
        let min_qty = match want_num(members, "minQty") {
            Ok(v) => v,
            Err(e) => {
                return Err(e);
            },
        };
        let max_qty = match want_num(members, "maxQty") {
            Ok(v) => v,
            Err(e) => {
                return Err(e);
            },
        };
        let step_size = match want_num(members, "stepSize") {
            Ok(v) => v,
            Err(e) => {
                return Err(e);
            },
        };
        Ok(Filter::LotSize { min_qty: min_qty, max_qty: max_qty, step_size: step_size })
    } else if str_eq(tag.as_str(), "MIN_NOTIONAL") {
        let min_notional = match want_num(members, "minNotional") {
            Ok(v) => v,
            Err(e) => {
                return Err(e);
            },
        };
        let apply_to_market = match want_bool(members, "applyToMarket") {
            Ok(v) => v,
            Err(e) => {
                return Err(e);
            },
        };
        let avg_price_mins = match want_u16(members, "avgPriceMins") {
            Ok(v) => v,
            Err(e) => {
                return Err(e);
            },
        };
        Ok(Filter::MinNotional { min_notional: min_notional, apply_to_market: apply_to_market, avg_price_mins: avg_price_mins })
    } else if str_eq(tag.as_str(), "ICEBERG_PARTS") {
        let limit = match want_u64(members, "limit") {
            Ok(v) => v,
            Err(e) => {
                return Err(e);
            },
        };
        Ok(Filter::IcebergParts { limit: limit })
    } else if str_eq(tag.as_str(), "MARKET_LOT_SIZE") {
        let min_qty = match want_num(members, "minQty") {
            Ok(v) => v,
            Err(e) => {
                return Err(e);
            },
        };
        let max_qty = match want_num(members, "maxQty") {
            Ok(v) => v,
            Err(e) => {
                return Err(e);
            },
        };
        let step_size = match want_num(members, "stepSize") {
            Ok(v) => v,
            Err(e) => {
                return Err(e);
            },
        };
        Ok(Filter::MarketLotSize { min_qty: min_qty, max_qty: max_qty, step_size: step_size })
    } else if str_eq(tag.as_str(), "TRAILING_DELTA") {
        let min_trailing_above_delta = match want_u16(members, "minTrailingAboveDelta") {
            Ok(v) => v,
            Err(e) => {
                return Err(e);
            },
        };
        let max_trailing_above_delta = match want_u16(members, "maxTrailingAboveDelta") {
            Ok(v) => v,
            Err(e) => {
                return Err(e);
            },
        };
        let min_trailing_below_delta = match want_u16(members, "minTrailingBelowDelta") {
            Ok(v) => v,
            Err(e) => {
                return Err(e);
            },
        };
        let max_trailing_below_delta = match want_u16(members, "maxTrailingBelowDelta") {
            Ok(v) => v,
            Err(e) => {
                return Err(e);
            },
        };
        Ok(Filter::TrailingDelta { min_trailing_above_delta: min_trailing_above_delta, max_trailing_above_delta: max_trailing_above_delta, min_trailing_below_delta: min_trailing_below_delta, max_trailing_below_delta: max_trailing_below_delta })
    } else if str_eq(tag.as_str(), "MAX_NUM_ORDERS") {
        let max_num_orders = match want_u16(members, "maxNumOrders") {
            Ok(v) => v,
            Err(e) => {
                return Err(e);
            },
        };
        Ok(Filter::MaxNumOrder { max_num_orders: max_num_orders })
    } else if str_eq(tag.as_str(), "MAX_NUM_ALGO_ORDERS") {
        let max_num_algo_orders = match want_u16(members, "maxNumAlgoOrders") {
            Ok(v) => v,
            Err(e) => {
                return Err(e);
            },
        };
        Ok(Filter::MaxNumAlgoOrders { max_num_algo_orders: max_num_algo_orders })
    } else {
        Err(DecodeError::UnknownFilter(tag.clone()))
    }
}

pub fn decode_filter(j: &Json) -> (r: Result<Filter, DecodeError>)
    ensures
        res_view(r) == spec_filter(jview(*j)),
{
    match j {
        Json::Obj(members) => match jget_exec(members, "filterType") {
            None => Err(DecodeError::Missing("filterType".to_owned())),
            Some(v) => match v {
                Json::Str(tag) => decode_filter_fields(members, tag),
                _ => Err(DecodeError::Mistyped("filterType".to_owned())),
            },
        },
        _ => Err(DecodeError::Mistyped("Filter".to_owned())),
    }
}

pub open spec fn spec_kline_list(xs: Seq<JVal>) -> Result<Seq<KlineV>, DecErr> {
    spec_list(xs, |v: JVal| spec_kline(v))
}

fn decode_kline_list_from(items: &Vec<Json>, i: usize) -> (r: Result<Vec<Kline>, DecodeError>)
    requires
        i <= items@.len(),
    ensures
        res_view(r) == spec_kline_list(
            jview_list(items@).subrange(i as int, jview_list(items@).len() as int),
        ),
    decreases items@.len() - i,
{
    proof {
        lemma_jview_list(items@);
    }
    let ghost xs = jview_list(items@);
    if i >= items.len() {
        let t: Vec<Kline> = Vec::new();
        proof {
            assert(xs.subrange(i as int, xs.len() as int) =~= Seq::<JVal>::empty());
            assert(t.deep_view() =~= Seq::<KlineV>::empty());
        }
        Ok(t)
    } else {
        proof {
            assert(xs.subrange(i as int, xs.len() as int)[0] == xs[i as int]);
            assert(xs.subrange(i as int, xs.len() as int).drop_first() =~= xs.subrange(
                i as int + 1,
                xs.len() as int,
            ));
        }
        match decode_kline(&items[i]) {
            Err(e) => Err(e),
            Ok(h) => match decode_kline_list_from(items, i + 1) {
                Err(e) => Err(e),
                Ok(mut t) => {
                    let ghost old_deep = t.deep_view();
                    t.insert(0, h);
                    proof {
                        assert(t.deep_view() =~= seq![h.deep_view()] + old_deep);
                    }
                    Ok(t)
                },
            },
        }
    }
}

pub fn decode_kline_list(items: &Vec<Json>) -> (r: Result<Vec<Kline>, DecodeError>)
    ensures
        res_view(r) == spec_kline_list(jview_list(items@)),
{
    let r = decode_kline_list_from(items, 0);
    proof {
        let xs = jview_list(items@);
        assert(xs.subrange(0, xs.len() as int) =~= xs);
    }
    r
}


pub open spec fn spec_filter_list(xs: Seq<JVal>) -> Result<Seq<FilterV>, DecErr> {
    spec_list(xs, |v: JVal| spec_filter(v))
}

fn decode_filter_list_from(items: &Vec<Json>, i: usize) -> (r: Result<Vec<Filter>, DecodeError>)
    requires
        i <= items@.len(),
    ensures
        res_view(r) == spec_filter_list(
            jview_list(items@).subrange(i as int, jview_list(items@).len() as int),
        ),
    decreases items@.len() - i,
{
    proof {
        lemma_jview_list(items@);
    }
    let ghost xs = jview_list(items@);
    if i >= items.len() {
        let t: Vec<Filter> = Vec::new();
        proof {
            assert(xs.subrange(i as int, xs.len() as int) =~= Seq::<JVal>::empty());
            assert(t.deep_view() =~= Seq::<FilterV>::empty());
        }
        Ok(t)
    } else {
        proof {
            assert(xs.subrange(i as int, xs.len() as int)[0] == xs[i as int]);
            assert(xs.subrange(i as int, xs.len() as int).drop_first() =~= xs.subrange(
                i as int + 1,
                xs.len() as int,
            ));
        }
        match decode_filter(&items[i]) {
            Err(e) => Err(e),
            Ok(h) => match decode_filter_list_from(items, i + 1) {
                Err(e) => Err(e),
                Ok(mut t) => {
                    let ghost old_deep = t.deep_view();
                    t.insert(0, h);
                    proof {
                        assert(t.deep_view() =~= seq![h.deep_view()] + old_deep);
                    }
                    Ok(t)
                },
            },
        }
    }
}

pub fn decode_filter_list(items: &Vec<Json>) -> (r: Result<Vec<Filter>, DecodeError>)
    ensures
        res_view(r) == spec_filter_list(jview_list(items@)),
{
    let r = decode_filter_list_from(items, 0);
    proof {
        let xs = jview_list(items@);
        assert(xs.subrange(0, xs.len() as int) =~= xs);
    }
    r
}


pub open spec fn spec_want_filters(fs: Seq<(Seq<char>, JVal)>, name: Seq<char>) -> Result<
    Seq<FilterV>,
    DecErr,
> {
    match jget(fs, name) {
        None => Err(DecErr::Missing(name)),
        Some(JVal::Arr(xs)) => spec_filter_list(xs),
        Some(_) => Err(DecErr::Mistyped(name)),
    }
}

fn want_filters(members: &Vec<(String, Json)>, name: &str) -> (r: Result<
    Vec<Filter>,
    DecodeError,
>)
    ensures
        res_view(r) == spec_want_filters(jview_members(members@), name@),
{
    match jget_exec(members, name) {
        None => Err(DecodeError::Missing(name.to_owned())),
        Some(v) => match v {
            Json::Arr(items) => decode_filter_list(items),
            _ => Err(DecodeError::Mistyped(name.to_owned())),
        },
    }
}


/// `Symbol` from its payload object.
pub open spec fn spec_symbol(v: JVal) -> Result<SymbolV, DecErr> {
    match v {
        JVal::Obj(fs) => {
            match spec_want_string(fs, "symbol"@) {
                Err(e) => Err(e),
                Ok(symbol) =>
                match spec_want_string(fs, "status"@) {
                    Err(e) => Err(e),
                    Ok(status) =>
                    match spec_want_string(fs, "baseAsset"@) {
                        Err(e) => Err(e),
                        Ok(base_asset) =>
                        match spec_want_u8(fs, "baseAssetPrecision"@) {
                            Err(e) => Err(e),
                            Ok(base_asset_precision) =>
                            match spec_want_string(fs, "quoteAsset"@) {
                                Err(e) => Err(e),
                                Ok(quote_asset) =>
                                match spec_want_u8(fs, "quoteAssetPrecision"@) {
                                    Err(e) => Err(e),
                                    Ok(quote_asset_precision) =>
                                    match spec_want_u8(fs, "baseCommissionPrecision"@) {
                                        Err(e) => Err(e),
                                        Ok(base_commission_precision) =>
                                        match spec_want_u8(fs, "quoteCommissionPrecision"@) {
                                            Err(e) => Err(e),
                                            Ok(quote_commission_precision) =>
                                            match spec_want_strlist(fs, "orderTypes"@) {
                                                Err(e) => Err(e),
                                                Ok(order_types) =>
                                                match spec_want_bool(fs, "icebergAllowed"@) {
                                                    Err(e) => Err(e),
                                                    Ok(iceberg_allowed) =>
                                                    match spec_want_bool(fs, "isSpotTradingAllowed"@) {
                                                        Err(e) => Err(e),
                                                        Ok(is_spot_trading_allowed) =>
                                                        match spec_want_bool(fs, "isMarginTradingAllowed"@) {
                                                            Err(e) => Err(e),
                                                            Ok(is_margin_trading_allowed) =>
                                                            match spec_want_filters(fs, "filters"@) {
                                                                Err(e) => Err(e),
                                                                Ok(filters) =>
                                                                match spec_want_strlist(fs, "permissions"@) {
                                                                    Err(e) => Err(e),
                                                                    Ok(permissions) =>
                                                                    Ok(SymbolV { symbol: symbol, status: status, base_asset: base_asset, base_asset_precision: base_asset_precision, quote_asset: quote_asset, quote_asset_precision: quote_asset_precision, base_commission_precision: base_commission_precision, quote_commission_precision: quote_commission_precision, order_types: order_types, iceberg_allowed: iceberg_allowed, is_spot_trading_allowed: is_spot_trading_allowed, is_margin_trading_allowed: is_margin_trading_allowed, filters: filters, permissions: permissions }),
                                                                },
                                                            },
                                                        },
                                                    },
                                                },
                                            },
                                        },
                                    },
                                },
                            },
                        },
                    },
                },
            }
        },
        _ => Err(DecErr::Mistyped("Symbol"@)),
    }
}

pub fn decode_symbol(j: &Json) -> (r: Result<Symbol, DecodeError>)
    ensures
        res_view(r) == spec_symbol(jview(*j)),
{
    let members = match j {
        Json::Obj(m) => m,
        _ => {
            return Err(DecodeError::Mistyped("Symbol".to_owned()));
        },
    };
    let symbol = match want_string(members, "symbol") {
        Ok(v) => v,
        Err(e) => {
            return Err(e);
        },
    };
    let status = match want_string(members, "status") {
        Ok(v) => v,
        Err(e) => {
            return Err(e);
        },
    };
    let base_asset = match want_string(members, "baseAsset") {
        Ok(v) => v,
        Err(e) => {
            return Err(e);
        },
    };
    let base_asset_precision = match want_u8(members, "baseAssetPrecision") {
        Ok(v) => v,
        Err(e) => {
            return Err(e);
        },
    };
    let quote_asset = match want_string(members, "quoteAsset") {
        Ok(v) => v,
        Err(e) => {
            return Err(e);
        },
    };
    let quote_asset_precision = match want_u8(members, "quoteAssetPrecision") {
        Ok(v) => v,
        Err(e) => {
            return Err(e);
        },
    };
    let base_commission_precision = match want_u8(members, "baseCommissionPrecision") {
        Ok(v) => v,
        Err(e) => {
            return Err(e);
        },
    };
    let quote_commission_precision = match want_u8(members, "quoteCommissionPrecision") {
        Ok(v) => v,
        Err(e) => {
            return Err(e);
        },
    };
    let order_types = match want_strlist(members, "orderTypes") {
        Ok(v) => v,
        Err(e) => {
            return Err(e);
        },
    };
    let iceberg_allowed = match want_bool(members, "icebergAllowed") {
        Ok(v) => v,
        Err(e) => {
            return Err(e);
        },
    };
    let is_spot_trading_allowed = match want_bool(members, "isSpotTradingAllowed") {
        Ok(v) => v,
        Err(e) => {
            return Err(e);
        },
    };
    let is_margin_trading_allowed = match want_bool(members, "isMarginTradingAllowed") {
        Ok(v) => v,
        Err(e) => {
            return Err(e);
        },
    };
    let filters = match want_filters(members, "filters") {
        Ok(v) => v,
        Err(e) => {
            return Err(e);
        },
    };
    let permissions = match want_strlist(members, "permissions") {
        Ok(v) => v,
        Err(e) => {
            return Err(e);
        },
    };
    Ok(Symbol { symbol: symbol, status: status, base_asset: base_asset, base_asset_precision: base_asset_precision, quote_asset: quote_asset, quote_asset_precision: quote_asset_precision, base_commission_precision: base_commission_precision, quote_commission_precision: quote_commission_precision, order_types: order_types, iceberg_allowed: iceberg_allowed, is_spot_trading_allowed: is_spot_trading_allowed, is_margin_trading_allowed: is_margin_trading_allowed, filters: filters, permissions: permissions })
}

pub open spec fn spec_symbol_list(xs: Seq<JVal>) -> Result<Seq<SymbolV>, DecErr> {
    spec_list(xs, |v: JVal| spec_symbol(v))
}

#[verifier::rlimit(60)]
fn decode_symbol_list_from(items: &Vec<Json>, i: usize) -> (r: Result<Vec<Symbol>, DecodeError>)
    requires
        i <= items@.len(),
    ensures
        res_view(r) == spec_symbol_list(
            jview_list(items@).subrange(i as int, jview_list(items@).len() as int),
        ),
    decreases items@.len() - i,
{
    proof {
        lemma_jview_list(items@);
    }
    let ghost xs = jview_list(items@);
    if i >= items.len() {
        let t: Vec<Symbol> = Vec::new();
        proof {
            assert(xs.subrange(i as int, xs.len() as int) =~= Seq::<JVal>::empty());
            assert(t.deep_view() =~= Seq::<SymbolV>::empty());
        }
        Ok(t)
    } else {
        proof {
            assert(xs.subrange(i as int, xs.len() as int)[0] == xs[i as int]);
            assert(xs.subrange(i as int, xs.len() as int).drop_first() =~= xs.subrange(
                i as int + 1,
                xs.len() as int,
            ));
        }
        match decode_symbol(&items[i]) {
            Err(e) => Err(e),
            Ok(h) => match decode_symbol_list_from(items, i + 1) {
                Err(e) => Err(e),
                Ok(mut t) => {
                    let ghost old_deep = t.deep_view();
                    t.insert(0, h);
                    proof {
                        assert(t.deep_view() =~= seq![h.deep_view()] + old_deep);
                    }
                    Ok(t)
                },
            },
        }
    }
}

pub fn decode_symbol_list(items: &Vec<Json>) -> (r: Result<Vec<Symbol>, DecodeError>)
    ensures
        res_view(r) == spec_symbol_list(jview_list(items@)),
{
    let r = decode_symbol_list_from(items, 0);
    proof {
        let xs = jview_list(items@);
        assert(xs.subrange(0, xs.len() as int) =~= xs);
    }
    r
}


pub open spec fn spec_want_symbols(fs: Seq<(Seq<char>, JVal)>, name: Seq<char>) -> Result<
    Seq<SymbolV>,
    DecErr,
> {
    match jget(fs, name) {
        None => Err(DecErr::Missing(name)),
        Some(JVal::Arr(xs)) => spec_symbol_list(xs),
        Some(_) => Err(DecErr::Mistyped(name)),
    }
}

fn want_symbols(members: &Vec<(String, Json)>, name: &str) -> (r: Result<
    Vec<Symbol>,
    DecodeError,
>)
    ensures
        res_view(r) == spec_want_symbols(jview_members(members@), name@),
{
    match jget_exec(members, name) {
        None => Err(DecodeError::Missing(name.to_owned())),
        Some(v) => match v {
            Json::Arr(items) => decode_symbol_list(items),
            _ => Err(DecodeError::Mistyped(name.to_owned())),
        },
    }
}


pub open spec fn spec_want_rate_limits(fs: Seq<(Seq<char>, JVal)>, name: Seq<char>) -> Result<
    Seq<RateLimitV>,
    DecErr,
> {
    match jget(fs, name) {
        None => Err(DecErr::Missing(name)),
        Some(JVal::Arr(xs)) => spec_rate_limit_list(xs),
        Some(_) => Err(DecErr::Mistyped(name)),
    }
}

fn want_rate_limits(members: &Vec<(String, Json)>, name: &str) -> (r: Result<
    Vec<RateLimit>,
    DecodeError,
>)
    ensures
        res_view(r) == spec_want_rate_limits(jview_members(members@), name@),
{
    match jget_exec(members, name) {
        None => Err(DecodeError::Missing(name.to_owned())),
        Some(v) => match v {
            Json::Arr(items) => decode_rate_limit_list(items),
            _ => Err(DecodeError::Mistyped(name.to_owned())),
        },
    }
}


/// `ExchangeInfo` from its payload object.
pub open spec fn spec_exchange_info(v: JVal) -> Result<ExchangeInfoV, DecErr> {
    match v {
        JVal::Obj(fs) => {
            match spec_want_string(fs, "timezone"@) {
                Err(e) => Err(e),
                Ok(timezone) =>
                match spec_want_u64(fs, "serverTime"@) {
                    Err(e) => Err(e),
                    Ok(server_time) =>
                    match spec_want_rate_limits(fs, "rateLimits"@) {
                        Err(e) => Err(e),
                        Ok(rate_limits) =>
                        match spec_want_symbols(fs, "symbols"@) {
                            Err(e) => Err(e),
                            Ok(symbols) =>
                            Ok(ExchangeInfoV { timezone: timezone, server_time: server_time, rate_limits: rate_limits, symbols: symbols }),
                        },
                    },
                },
            }
        },
        _ => Err(DecErr::Mistyped("ExchangeInfo"@)),
    }
}

pub fn decode_exchange_info(j: &Json) -> (r: Result<ExchangeInfo, DecodeError>)
    ensures
        res_view(r) == spec_exchange_info(jview(*j)),
{
    let members = match j {
        Json::Obj(m) => m,
        _ => {
            return Err(DecodeError::Mistyped("ExchangeInfo".to_owned()));
        },
    };
    let timezone = match want_string(members, "timezone") {
        Ok(v) => v,
        Err(e) => {
            return Err(e);
        },
    };
    let server_time = match want_u64(members, "serverTime") {
        Ok(v) => v,
        Err(e) => {
            return Err(e);
        },
    };
    let rate_limits = match want_rate_limits(members, "rateLimits") {
        Ok(v) => v,
        Err(e) => {
            return Err(e);
        },
    };
    let symbols = match want_symbols(members, "symbols") {
        Ok(v) => v,
        Err(e) => {
            return Err(e);
        },
    };
    Ok(ExchangeInfo { timezone: timezone, server_time: server_time, rate_limits: rate_limits, symbols: symbols })
}

pub open spec fn spec_trades_payload(v: JVal) -> Result<Seq<TradeV>, DecErr> {
    match v {
        JVal::Arr(xs) => spec_trade_list(xs),
        _ => Err(DecErr::Mistyped("Trade list"@)),
    }
}

/// Decodes a payload that is an array of `Trade` records, in wire order.
pub fn decode_trades_payload(s: &str) -> (r: Result<Vec<Trade>, DecodeError>)
    ensures
        match spec_text(s@) {
            None => res_view(r) == Err::<Seq<TradeV>, DecErr>(DecErr::Syntax),
            Some(v) => res_view(r) == spec_trades_payload(v),
        },
{
    match parse_json(s) {
        None => Err(DecodeError::Syntax),
        Some(j) => match &j {
            Json::Arr(items) => decode_trade_list(items),
            _ => Err(DecodeError::Mistyped("Trade list".to_owned())),
        },
    }
}

pub open spec fn spec_agg_trades_payload(v: JVal) -> Result<Seq<AggTradeV>, DecErr> {
    match v {
        JVal::Arr(xs) => spec_agg_trade_list(xs),
        _ => Err(DecErr::Mistyped("AggTrade list"@)),
    }
}

/// Decodes a payload that is an array of `AggTrade` records, in wire order.
pub fn decode_agg_trades_payload(s: &str) -> (r: Result<Vec<AggTrade>, DecodeError>)
    ensures
        match spec_text(s@) {
            None => res_view(r) == Err::<Seq<AggTradeV>, DecErr>(DecErr::Syntax),
            Some(v) => res_view(r) == spec_agg_trades_payload(v),
        },
{
    match parse_json(s) {
        None => Err(DecodeError::Syntax),
        Some(j) => match &j {
            Json::Arr(items) => decode_agg_trade_list(items),
            _ => Err(DecodeError::Mistyped("AggTrade list".to_owned())),
        },
    }
}

pub open spec fn spec_klines_payload(v: JVal) -> Result<Seq<KlineV>, DecErr> {
    match v {
        JVal::Arr(xs) => spec_kline_list(xs),
        _ => Err(DecErr::Mistyped("Kline list"@)),
    }
}

/// Decodes a payload that is an array of `Kline` records, in wire order.
pub fn decode_klines_payload(s: &str) -> (r: Result<Vec<Kline>, DecodeError>)
    ensures
        match spec_text(s@) {
            None => res_view(r) == Err::<Seq<KlineV>, DecErr>(DecErr::Syntax),
            Some(v) => res_view(r) == spec_klines_payload(v),
        },
{
    match parse_json(s) {
        None => Err(DecodeError::Syntax),
        Some(j) => match &j {
            Json::Arr(items) => decode_kline_list(items),
            _ => Err(DecodeError::Mistyped("Kline list".to_owned())),
        },
    }
}

pub open spec fn spec_price_stats_payload(v: JVal) -> Result<Seq<PriceStatsV>, DecErr> {
    match v {
        JVal::Arr(xs) => spec_price_stats_list(xs),
        _ => Err(DecErr::Mistyped("PriceStats list"@)),
    }
}

/// Decodes a payload that is an array of `PriceStats` records, in wire order.
pub fn decode_price_stats_payload(s: &str) -> (r: Result<Vec<PriceStats>, DecodeError>)
    ensures
        match spec_text(s@) {
            None => res_view(r) == Err::<Seq<PriceStatsV>, DecErr>(DecErr::Syntax),
            Some(v) => res_view(r) == spec_price_stats_payload(v),
        },
{
    match parse_json(s) {
        None => Err(DecodeError::Syntax),
        Some(j) => match &j {
            Json::Arr(items) => decode_price_stats_list(items),
            _ => Err(DecodeError::Mistyped("PriceStats list".to_owned())),
        },
    }
}

pub open spec fn spec_live_tickers_payload(v: JVal) -> Result<Seq<LiveTickerV>, DecErr> {
    match v {
        JVal::Arr(xs) => spec_live_ticker_list(xs),
        _ => Err(DecErr::Mistyped("LiveTicker list"@)),
    }
}

/// Decodes a payload that is an array of `LiveTicker` records, in wire order.
pub fn decode_live_tickers_payload(s: &str) -> (r: Result<Vec<LiveTicker>, DecodeError>)
    ensures
        match spec_text(s@) {
            None => res_view(r) == Err::<Seq<LiveTickerV>, DecErr>(DecErr::Syntax),
            Some(v) => res_view(r) == spec_live_tickers_payload(v),
        },
{
    match parse_json(s) {
        None => Err(DecodeError::Syntax),
        Some(j) => match &j {
            Json::Arr(items) => decode_live_ticker_list(items),
            _ => Err(DecodeError::Mistyped("LiveTicker list".to_owned())),
        },
    }
}

pub open spec fn spec_book_tickers_payload(v: JVal) -> Result<Seq<BookTickerV>, DecErr> {
    match v {
        JVal::Arr(xs) => spec_book_ticker_list(xs),
        _ => Err(DecErr::Mistyped("BookTicker list"@)),
    }
}

/// Decodes a payload that is an array of `BookTicker` records, in wire order.
pub fn decode_book_tickers_payload(s: &str) -> (r: Result<Vec<BookTicker>, DecodeError>)
    ensures
        match spec_text(s@) {
            None => res_view(r) == Err::<Seq<BookTickerV>, DecErr>(DecErr::Syntax),
            Some(v) => res_view(r) == spec_book_tickers_payload(v),
        },
{
    match parse_json(s) {
        None => Err(DecodeError::Syntax),
        Some(j) => match &j {
            Json::Arr(items) => decode_book_ticker_list(items),
            _ => Err(DecodeError::Mistyped("BookTicker list".to_owned())),
        },
    }
}

/// Decodes a payload holding one `ServerTime` record.
pub fn decode_server_time_payload(s: &str) -> (r: Result<ServerTime, DecodeError>)
    ensures
        match spec_text(s@) {
            None => res_view(r) == Err::<ServerTime, DecErr>(DecErr::Syntax),
            Some(v) => res_view(r) == spec_server_time(v),
        },
{
    match parse_json(s) {
        None => Err(DecodeError::Syntax),
        Some(j) => decode_server_time(&j),
    }
}

/// Decodes a payload holding one `Orders` record.
pub fn decode_orders_payload(s: &str) -> (r: Result<Orders, DecodeError>)
    ensures
        match spec_text(s@) {
            None => res_view(r) == Err::<OrdersV, DecErr>(DecErr::Syntax),
            Some(v) => res_view(r) == spec_orders(v),
        },
{
    match parse_json(s) {
        None => Err(DecodeError::Syntax),
        Some(j) => decode_orders(&j),
    }
}

/// Decodes a payload holding one `AvgPrice` record.
pub fn decode_avg_price_payload(s: &str) -> (r: Result<AvgPrice, DecodeError>)
    ensures
        match spec_text(s@) {
            None => res_view(r) == Err::<AvgPriceV, DecErr>(DecErr::Syntax),
            Some(v) => res_view(r) == spec_avg_price(v),
        },
{
    match parse_json(s) {
        None => Err(DecodeError::Syntax),
        Some(j) => decode_avg_price(&j),
    }
}

/// Decodes a payload holding one `Status` record.
pub fn decode_status_payload(s: &str) -> (r: Result<Status, DecodeError>)
    ensures
        match spec_text(s@) {
            None => res_view(r) == Err::<StatusV, DecErr>(DecErr::Syntax),
            Some(v) => res_view(r) == spec_status(v),
        },
{
    match parse_json(s) {
        None => Err(DecodeError::Syntax),
        Some(j) => decode_status(&j),
    }
}

/// Decodes a payload holding one `ExchangeInfo` record.
pub fn decode_exchange_info_payload(s: &str) -> (r: Result<ExchangeInfo, DecodeError>)
    ensures
        match spec_text(s@) {
            None => res_view(r) == Err::<ExchangeInfoV, DecErr>(DecErr::Syntax),
            Some(v) => res_view(r) == spec_exchange_info(v),
        },
{
    match parse_json(s) {
        None => Err(DecodeError::Syntax),
        Some(j) => decode_exchange_info(&j),
    }
}

/// Wraps decoded orders with the caller-supplied symbol: the symbol is
/// part of the request, never of the payload.
pub fn order_book(symbol: &str, orders: Orders) -> (r: OrderBook)
    ensures
        r.deep_view() == (OrderBookV { symbol: symbol@, orders: orders.deep_view() }),
{
    OrderBook { symbol: symbol.to_owned(), orders: orders }
}

/// Decodes a depth payload and attaches the request symbol to it.
pub fn decode_order_book_payload(symbol: &str, s: &str) -> (r: Result<OrderBook, DecodeError>)
    ensures
        match spec_text(s@) {
            None => res_view(r) == Err::<OrderBookV, DecErr>(DecErr::Syntax),
            Some(v) => match spec_orders(v) {
                Ok(o) => res_view(r) == Ok::<OrderBookV, DecErr>(
                    OrderBookV { symbol: symbol@, orders: o },
                ),
                Err(e) => res_view(r) == Err::<OrderBookV, DecErr>(e),
            },
        },
{
    match decode_orders_payload(s) {
        Ok(orders) => Ok(order_book(symbol, orders)),
        Err(e) => Err(e),
    }
}

} // verus!
