use binance_md::decode::{
    decode_agg_trades_payload, decode_avg_price_payload, decode_book_tickers_payload,
    decode_exchange_info_payload, decode_filter, decode_klines_payload,
    decode_live_tickers_payload, decode_order_book_payload, decode_orders_payload,
    decode_price_stats_payload, decode_server_time_payload, decode_status_payload,
    decode_trades_payload,
};
use binance_md::errors::DecodeError;
use binance_md::json::parse_json;
use binance_md::models::{Filter, Number};

fn lit(s: &str) -> Number {
    Number::Lit(s.to_string())
}

#[test]
fn server_time_decodes() {
    let t = decode_server_time_payload("{\"serverTime\":1499827319559}").unwrap();
    assert_eq!(t.server_time, 1499827319559);
}

#[test]
fn server_time_missing_field() {
    let e = decode_server_time_payload("{\"serverTiem\":1}").unwrap_err();
    assert_eq!(e, DecodeError::Missing("serverTime".to_string()));
}

#[test]
fn server_time_mistyped_field() {
    let e = decode_server_time_payload("{\"serverTime\":\"soon\"}").unwrap_err();
    assert_eq!(e, DecodeError::Mistyped("serverTime".to_string()));
}

#[test]
fn malformed_json_is_a_syntax_error() {
    assert_eq!(decode_server_time_payload("{\"serverTime\":").unwrap_err(), DecodeError::Syntax);
    assert_eq!(decode_trades_payload("[{]").unwrap_err(), DecodeError::Syntax);
    assert_eq!(decode_orders_payload("").unwrap_err(), DecodeError::Syntax);
}

#[test]
fn order_book_end_to_end() {
    let body = "{\"lastUpdateId\":1,\"bids\":[[\"9000.00\",\"1.0\"]],\"asks\":[]}";
    let book = decode_order_book_payload("BTCUSDT", body).unwrap();
    assert_eq!(book.symbol, "BTCUSDT");
    assert_eq!(book.orders.last_update_id, 1);
    assert_eq!(book.orders.bids.len(), 1);
    assert_eq!(book.orders.bids[0].price, lit("9000.00"));
    assert_eq!(book.orders.bids[0].qty, lit("1.0"));
    assert_eq!(book.orders.bids[0].price, lit("9000.00"));
    let price: f64 = match &book.orders.bids[0].price {
        Number::Lit(tok) => tok.parse().unwrap(),
        _ => panic!("expected a finite price"),
    };
    assert_eq!(price, 9000.0);
    assert_eq!(book.orders.asks.len(), 0);
}

#[test]
fn order_book_symbol_not_read_from_payload() {
    let body = "{\"lastUpdateId\":7,\"bids\":[],\"asks\":[],\"symbol\":\"OTHER\"}";
    let book = decode_order_book_payload("ETHUSDT", body).unwrap();
    assert_eq!(book.symbol, "ETHUSDT");
}

#[test]
fn order_level_must_have_two_entries() {
    let body = "{\"lastUpdateId\":1,\"bids\":[[\"9000.00\"]],\"asks\":[]}";
    let e = decode_orders_payload(body).unwrap_err();
    assert_eq!(e, DecodeError::Mistyped("Order".to_string()));
}

#[test]
fn trades_decode_in_wire_order() {
    let body = "[{\"id\":28457,\"price\":\"4.00000100\",\"qty\":\"12.00000000\",\
        \"quoteQty\":\"48.000012\",\"time\":1499865549590,\"isBuyerMaker\":true,\
        \"isBestMatch\":true},\
        {\"id\":28458,\"price\":\"4.1\",\"qty\":\"1\",\"quoteQty\":\"4.1\",\
        \"time\":1499865549591,\"isBuyerMaker\":false,\"isBestMatch\":true}]";
    let trades = decode_trades_payload(body).unwrap();
    assert_eq!(trades.len(), 2);
    assert_eq!(trades[0].id, 28457);
    assert_eq!(trades[0].price, lit("4.00000100"));
    assert_eq!(trades[0].time, 1499865549590);
    assert!(trades[0].is_buyer_maker);
    assert_eq!(trades[1].id, 28458);
    assert!(!trades[1].is_buyer_maker);
}

#[test]
fn agg_trades_use_single_letter_keys() {
    let body = "[{\"a\":26129,\"p\":\"0.01633102\",\"q\":\"4.70443515\",\"f\":27781,\
        \"l\":27781,\"T\":1498793709153,\"m\":true,\"M\":true}]";
    let trades = decode_agg_trades_payload(body).unwrap();
    assert_eq!(trades.len(), 1);
    assert_eq!(trades[0].agg_id, 26129);
    assert_eq!(trades[0].price, lit("0.01633102"));
    assert_eq!(trades[0].qty, lit("4.70443515"));
    assert_eq!(trades[0].first_id, 27781);
    assert_eq!(trades[0].last_id, 27781);
    assert_eq!(trades[0].time, 1498793709153);
    assert!(trades[0].maker);
    assert!(trades[0].best_match);
}

#[test]
fn agg_trades_reject_spelled_out_keys() {
    let body = "[{\"aggId\":26129,\"price\":\"1\",\"qty\":\"1\",\"firstId\":1,\
        \"lastId\":1,\"time\":1,\"maker\":true,\"bestMatch\":true}]";
    let e = decode_agg_trades_payload(body).unwrap_err();
    assert_eq!(e, DecodeError::Missing("T".to_string()));
}

#[test]
fn klines_decode_positionally() {
    let body = "[[1499040000000,\"0.01634790\",\"0.80000000\",\"0.01575800\",\
        \"0.01577100\",\"148976.11427815\",1499644799999,\"2434.19055334\",308,\
        \"1756.87402397\",\"28.46694368\",\"17928899.62484339\"]]";
    let klines = decode_klines_payload(body).unwrap();
    assert_eq!(klines.len(), 1);
    let k = &klines[0];
    assert_eq!(k.open_time, 1499040000000);
    assert_eq!(k.open, "0.01634790");
    assert_eq!(k.high, "0.80000000");
    assert_eq!(k.low, "0.01575800");
    assert_eq!(k.close, "0.01577100");
    assert_eq!(k.volume, "148976.11427815");
    assert_eq!(k.close_time, 1499644799999);
    assert_eq!(k.quote_asset_volume, "2434.19055334");
    assert_eq!(k.number_of_trades, 308);
    assert_eq!(k.taker_buy_base_asset_volume, "1756.87402397");
    assert_eq!(k.taker_buy_quote_asset_volume, "28.46694368");
    assert_eq!(k._ignore, "17928899.62484339");
}

#[test]
fn kline_with_wrong_arity_fails() {
    let body = "[[1499040000000,\"0.016\"]]";
    let e = decode_klines_payload(body).unwrap_err();
    assert_eq!(e, DecodeError::Mistyped("Kline".to_string()));
}

#[test]
fn avg_price_decodes() {
    let p = decode_avg_price_payload("{\"mins\":5,\"price\":\"9.35751834\"}").unwrap();
    assert_eq!(p.mins, 5);
    assert_eq!(p.price, lit("9.35751834"));
}

#[test]
fn price_stats_decode() {
    let body = "[{\"symbol\":\"BNBBTC\",\"priceChange\":\"-94.99999800\",\
        \"priceChangePercent\":\"-95.960\",\"weightedAvgPrice\":\"0.29628482\",\
        \"lastPrice\":\"4.00000200\",\"openPrice\":\"99.00000000\",\
        \"highPrice\":\"100.00000000\",\"lowPrice\":\"0.10000000\",\
        \"volume\":\"8913.30000000\",\"quoteVolume\":\"15.30000000\",\
        \"lastQty\":\"200.00000000\",\"openTime\":1499783499040,\
        \"closeTime\":1499869899040,\"firstId\":28385,\"lastId\":28460,\"count\":76}]";
    let stats = decode_price_stats_payload(body).unwrap();
    assert_eq!(stats.len(), 1);
    assert_eq!(stats[0].symbol, "BNBBTC");
    assert_eq!(stats[0].price_change, lit("-94.99999800"));
    assert_eq!(stats[0].open_time, 1499783499040);
    assert_eq!(stats[0].count, 76);
}

#[test]
fn tickers_decode() {
    let live = decode_live_tickers_payload(
        "[{\"symbol\":\"LTCBTC\",\"price\":\"4.00000200\"}]",
    )
    .unwrap();
    assert_eq!(live.len(), 1);
    assert_eq!(live[0].symbol, "LTCBTC");
    assert_eq!(live[0].price, lit("4.00000200"));
    let book = decode_book_tickers_payload(
        "[{\"symbol\":\"LTCBTC\",\"bidPrice\":\"4.0\",\"bidQty\":\"431.0\",\
         \"askPrice\":\"4.2\",\"askQty\":\"9.0\"}]",
    )
    .unwrap();
    assert_eq!(book.len(), 1);
    assert_eq!(book[0].bid_price, lit("4.0"));
    assert_eq!(book[0].ask_qty, lit("9.0"));
}

#[test]
fn status_decodes() {
    let s = decode_status_payload("{\"status\":0,\"msg\":\"normal\"}").unwrap();
    assert_eq!(s.status, 0);
    assert_eq!(s.msg, "normal");
}

#[test]
fn lot_size_filter_decodes() {
    let j = parse_json(
        "{\"filterType\":\"LOT_SIZE\",\"minQty\":\"0.00100000\",\
         \"maxQty\":\"100000.00000000\",\"stepSize\":\"0.00100000\"}",
    )
    .unwrap();
    let f = decode_filter(&j).unwrap();
    match f {
        Filter::LotSize { min_qty, max_qty, step_size } => {
            assert_eq!(min_qty, lit("0.00100000"));
            assert_eq!(max_qty, lit("100000.00000000"));
            assert_eq!(step_size, lit("0.00100000"));
        },
        other => panic!("expected LotSize, got {other:?}"),
    }
}

#[test]
fn every_known_filter_kind_decodes() {
    let payloads = [
        "{\"filterType\":\"PRICE_FILTER\",\"minPrice\":\"0.1\",\"maxPrice\":\"100\",\"tickSize\":\"0.1\"}",
        "{\"filterType\":\"PERCENT_PRICE\",\"multiplierUp\":\"1.3\",\"multiplierDown\":\"0.7\",\"avgPriceMins\":5}",
        "{\"filterType\":\"LOT_SIZE\",\"minQty\":\"0.001\",\"maxQty\":\"100000\",\"stepSize\":\"0.001\"}",
        "{\"filterType\":\"MIN_NOTIONAL\",\"minNotional\":\"0.001\",\"applyToMarket\":true,\"avgPriceMins\":5}",
        "{\"filterType\":\"ICEBERG_PARTS\",\"limit\":10}",
        "{\"filterType\":\"MARKET_LOT_SIZE\",\"minQty\":\"0\",\"maxQty\":\"1000\",\"stepSize\":\"0\"}",
        "{\"filterType\":\"TRAILING_DELTA\",\"minTrailingAboveDelta\":10,\"maxTrailingAboveDelta\":2000,\"minTrailingBelowDelta\":10,\"maxTrailingBelowDelta\":2000}",
        "{\"filterType\":\"MAX_NUM_ORDERS\",\"maxNumOrders\":200}",
        "{\"filterType\":\"MAX_NUM_ALGO_ORDERS\",\"maxNumAlgoOrders\":5}",
    ];
    for p in payloads {
        let j = parse_json(p).unwrap();
        decode_filter(&j).unwrap_or_else(|e| panic!("{p} failed: {e:?}"));
    }
}

#[test]
fn unknown_filter_kind_fails_loudly() {
    let j = parse_json("{\"filterType\":\"NOTIONAL\",\"minNotional\":\"1\"}").unwrap();
    let e = decode_filter(&j).unwrap_err();
    assert_eq!(e, DecodeError::UnknownFilter("NOTIONAL".to_string()));
}

#[test]
fn filter_discriminator_must_be_present() {
    let j = parse_json("{\"minQty\":\"1\"}").unwrap();
    assert_eq!(
        decode_filter(&j).unwrap_err(),
        DecodeError::Missing("filterType".to_string())
    );
}

#[test]
fn exchange_info_decodes_whole() {
    let body = "{\"timezone\":\"UTC\",\"serverTime\":1565246363776,\
        \"rateLimits\":[{\"rateLimitType\":\"REQUEST_WEIGHT\",\"interval\":\"MINUTE\",\
        \"intervalNum\":1,\"limit\":1200}],\
        \"symbols\":[{\"symbol\":\"ETHBTC\",\"status\":\"TRADING\",\
        \"baseAsset\":\"ETH\",\"baseAssetPrecision\":8,\"quoteAsset\":\"BTC\",\
        \"quoteAssetPrecision\":8,\"baseCommissionPrecision\":8,\
        \"quoteCommissionPrecision\":8,\
        \"orderTypes\":[\"LIMIT\",\"MARKET\"],\"icebergAllowed\":true,\
        \"isSpotTradingAllowed\":true,\"isMarginTradingAllowed\":true,\
        \"filters\":[{\"filterType\":\"ICEBERG_PARTS\",\"limit\":10}],\
        \"permissions\":[\"SPOT\",\"MARGIN\"]}]}";
    let info = decode_exchange_info_payload(body).unwrap();
    assert_eq!(info.timezone, "UTC");
    assert_eq!(info.server_time, 1565246363776);
    assert_eq!(info.rate_limits.len(), 1);
    assert_eq!(info.rate_limits[0].rate_limit_type, "REQUEST_WEIGHT");
    assert_eq!(info.rate_limits[0].interval_num, 1);
    assert_eq!(info.rate_limits[0].limit, 1200);
    assert_eq!(info.symbols.len(), 1);
    let sym = &info.symbols[0];
    assert_eq!(sym.symbol, "ETHBTC");
    assert_eq!(sym.base_asset_precision, 8);
    assert_eq!(sym.order_types, vec!["LIMIT".to_string(), "MARKET".to_string()]);
    assert!(matches!(sym.filters[0], Filter::IcebergParts { limit: 10 }));
    assert_eq!(sym.permissions, vec!["SPOT".to_string(), "MARGIN".to_string()]);
}

#[test]
fn extra_fields_are_ignored() {
    let t = decode_server_time_payload(
        "{\"serverTime\":7,\"somethingNew\":\"ignored\"}",
    )
    .unwrap();
    assert_eq!(t.server_time, 7);
}

#[test]
fn whole_payload_fails_on_one_bad_record() {
    let body = "[{\"symbol\":\"A\",\"price\":\"1\"},{\"symbol\":\"B\",\"price\":\"x\"}]";
    let e = decode_live_tickers_payload(body).unwrap_err();
    assert_eq!(e, DecodeError::BadNumber("price".to_string()));
}

#[test]
fn duplicate_keys_take_the_first() {
    let t = decode_server_time_payload("{\"serverTime\":1,\"serverTime\":2}").unwrap();
    assert_eq!(t.server_time, 1);
}

#[test]
fn narrow_integer_fields_check_their_range() {
    let body = "{\"timezone\":\"UTC\",\"serverTime\":1,\
        \"rateLimits\":[{\"rateLimitType\":\"X\",\"interval\":\"M\",\
        \"intervalNum\":70000,\"limit\":1}],\"symbols\":[]}";
    let e = decode_exchange_info_payload(body).unwrap_err();
    assert_eq!(e, DecodeError::Mistyped("intervalNum".to_string()));
    let e2 = decode_status_payload("{\"status\":256,\"msg\":\"x\"}").unwrap_err();
    assert_eq!(e2, DecodeError::Mistyped("status".to_string()));
}

#[test]
fn integer_fields_reject_fractions() {
    let e = decode_server_time_payload("{\"serverTime\":1.5}").unwrap_err();
    assert_eq!(e, DecodeError::Mistyped("serverTime".to_string()));
    let e2 = decode_server_time_payload("{\"serverTime\":-1}").unwrap_err();
    assert_eq!(e2, DecodeError::Mistyped("serverTime".to_string()));
}

#[test]
fn kline_times_may_be_negative() {
    let body = "[[-1,\"a\",\"b\",\"c\",\"d\",\"e\",2,\"f\",3,\"g\",\"h\",\"i\"]]";
    let klines = decode_klines_payload(body).unwrap();
    assert_eq!(klines[0].open_time, -1);
    assert_eq!(klines[0].close_time, 2);
}
