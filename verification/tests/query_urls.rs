use binance_md::query::{
    agg_trades_url, avg_price_url, book_ticker_url, depth_url, exchange_info_url, kline_url,
    live_ticker_price_url, parse_symbols_list, ping_url, price_stats_24h_url,
    symbols_fragment_exec, system_status_url, time_url, trades_url,
};
use binance_md::models::Interval;

const BASE: &str = "https://api.example.com";

#[test]
fn ping_and_time_urls() {
    assert_eq!(ping_url(BASE), "https://api.example.com/api/v3/ping");
    assert_eq!(time_url(BASE), "https://api.example.com/api/v3/time");
    assert_eq!(
        system_status_url(BASE),
        "https://api.example.com/sapi/v1/system/status"
    );
}

#[test]
fn exchange_info_without_symbols_has_no_query() {
    assert_eq!(
        exchange_info_url(BASE, None),
        "https://api.example.com/api/v3/exchangeInfo"
    );
}

#[test]
fn exchange_info_with_symbols() {
    let symbols = vec!["BTCUSDT".to_string(), "ETHUSDT".to_string()];
    assert_eq!(
        exchange_info_url(BASE, Some(&symbols)),
        "https://api.example.com/api/v3/exchangeInfo?symbols=[\"BTCUSDT\",\"ETHUSDT\"]"
    );
}

#[test]
fn exchange_info_with_one_symbol() {
    let symbols = vec!["BTCUSDT".to_string()];
    assert_eq!(
        exchange_info_url(BASE, Some(&symbols)),
        "https://api.example.com/api/v3/exchangeInfo?symbols=[\"BTCUSDT\"]"
    );
}

#[test]
fn empty_symbol_list_still_renders_brackets() {
    let symbols: Vec<String> = vec![];
    assert_eq!(
        exchange_info_url(BASE, Some(&symbols)),
        "https://api.example.com/api/v3/exchangeInfo?symbols=[]"
    );
}

#[test]
fn depth_url_with_limit() {
    assert_eq!(
        depth_url(BASE, "BTCUSDT", Some(5)),
        "https://api.example.com/api/v3/depth?symbol=BTCUSDT&limit=5"
    );
}

#[test]
fn depth_url_without_limit() {
    assert_eq!(
        depth_url(BASE, "BTCUSDT", None),
        "https://api.example.com/api/v3/depth?symbol=BTCUSDT"
    );
}

#[test]
fn trades_url_both_forms() {
    assert_eq!(
        trades_url(BASE, "ETHUSDT", Some(1000)),
        "https://api.example.com/api/v3/trades?symbol=ETHUSDT&limit=1000"
    );
    assert_eq!(
        trades_url(BASE, "ETHUSDT", None),
        "https://api.example.com/api/v3/trades?symbol=ETHUSDT"
    );
}

#[test]
fn agg_trades_url_all_params() {
    assert_eq!(
        agg_trades_url(BASE, "BTCUSDT", Some(7), Some(1000), Some(2000), Some(3)),
        "https://api.example.com/api/v3/aggTrades?symbol=BTCUSDT&fromId=7&startTime=1000&endTime=2000&limit=3"
    );
}

#[test]
fn agg_trades_url_no_params() {
    assert_eq!(
        agg_trades_url(BASE, "BTCUSDT", None, None, None, None),
        "https://api.example.com/api/v3/aggTrades?symbol=BTCUSDT"
    );
}

#[test]
fn agg_trades_half_window_is_dropped() {
    let url = agg_trades_url(BASE, "BTCUSDT", None, Some(1000), None, None);
    assert!(!url.contains("startTime"));
    assert!(!url.contains("endTime"));
    assert_eq!(url, "https://api.example.com/api/v3/aggTrades?symbol=BTCUSDT");
    let url2 = agg_trades_url(BASE, "BTCUSDT", None, None, Some(2000), Some(10));
    assert_eq!(
        url2,
        "https://api.example.com/api/v3/aggTrades?symbol=BTCUSDT&limit=10"
    );
}

#[test]
fn kline_url_with_window_and_limit() {
    assert_eq!(
        kline_url(BASE, "BTCUSDT", &Interval::Minute(1), Some(10), Some(20), Some(2)),
        "https://api.example.com/api/v3/klines?symbol=BTCUSDT&interval=1m&startTime=10&endTime=20&limit=2"
    );
}

#[test]
fn kline_url_half_window_is_dropped() {
    assert_eq!(
        kline_url(BASE, "BTCUSDT", &Interval::Hour(4), Some(10), None, None),
        "https://api.example.com/api/v3/klines?symbol=BTCUSDT&interval=4h"
    );
}

#[test]
fn avg_price_url_shape() {
    assert_eq!(
        avg_price_url(BASE, "BTCUSDT"),
        "https://api.example.com/api/v3/avgPrice?symbol=BTCUSDT"
    );
}

#[test]
fn ticker_urls() {
    let symbols = vec!["BTCUSDT".to_string()];
    assert_eq!(
        price_stats_24h_url(BASE, None),
        "https://api.example.com/api/v3/ticker/24hr"
    );
    assert_eq!(
        price_stats_24h_url(BASE, Some(&symbols)),
        "https://api.example.com/api/v3/ticker/24hr?symbols=[\"BTCUSDT\"]"
    );
    assert_eq!(
        live_ticker_price_url(BASE, Some(&symbols)),
        "https://api.example.com/api/v3/ticker/price?symbols=[\"BTCUSDT\"]"
    );
    assert_eq!(
        book_ticker_url(BASE, None),
        "https://api.example.com/api/v3/ticker/bookTicker"
    );
    assert_eq!(
        book_ticker_url(BASE, Some(&symbols)),
        "https://api.example.com/api/v3/ticker/bookTicker?symbols=[\"BTCUSDT\"]"
    );
}

#[test]
fn symbols_fragment_round_trip() {
    let symbols = vec![
        "BTCUSDT".to_string(),
        "ETHUSDT".to_string(),
        "BNBUSDT".to_string(),
    ];
    let fragment = symbols_fragment_exec(&symbols);
    assert_eq!(fragment, "[\"BTCUSDT\",\"ETHUSDT\",\"BNBUSDT\"]");
    let back = parse_symbols_list(&fragment).expect("fragment parses back");
    assert_eq!(back, symbols);
}

#[test]
fn symbols_round_trip_single_and_empty() {
    let one = vec!["X".to_string()];
    let frag = symbols_fragment_exec(&one);
    assert_eq!(parse_symbols_list(&frag), Some(one));
    let none: Vec<String> = vec![];
    let frag2 = symbols_fragment_exec(&none);
    assert_eq!(frag2, "[]");
    assert_eq!(parse_symbols_list(&frag2), Some(vec![]));
}

#[test]
fn symbols_with_odd_characters_round_trip() {
    let symbols = vec!["A\\B".to_string(), "C,D".to_string(), "".to_string()];
    let fragment = symbols_fragment_exec(&symbols);
    assert_eq!(fragment, "[\"A\\B\",\"C,D\",\"\"]");
    let back = parse_symbols_list(&fragment).expect("fragment parses back");
    assert_eq!(back, symbols);
}

#[test]
fn parse_symbols_rejects_malformed() {
    assert_eq!(parse_symbols_list(""), None);
    assert_eq!(parse_symbols_list("["), None);
    assert_eq!(parse_symbols_list("[\"A\""), None);
    assert_eq!(parse_symbols_list("[\"A\",]"), None);
    assert_eq!(parse_symbols_list("[\"A\"]x"), None);
    assert_eq!(parse_symbols_list("[A]"), None);
}
