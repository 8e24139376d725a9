//! Typed records decoded from the endpoints' payloads, and the
//! mathematical mirrors their contracts are stated over.
//!
//! Monetary and quantity fields arrive either as JSON numbers or as
//! numeric strings; a [`Number`] keeps the validated wire token instead of
//! a machine float, so that every field of every record stays within reach
//! of the specifications. The non-finite readings — the `"INF"` sentinel,
//! the signed infinity words, `nan` — get variants of their own.

use crate::text::{dec_of, is_number_text, u64_to_dec};
use vstd::string::*;
use vstd::prelude::*;

verus! {

/// A coerced numeric value: positive or negative infinity, not-a-number,
/// or a value written in digits, carried as its validated base-10 token.
/// A `Lit` token reads back through float parsing; a very large one may
/// overflow to an infinity there, exactly as it would have on the wire.
#[derive(Debug, Clone, PartialEq, Eq)]
pub enum Number {
    Inf,
    NegInf,
    NaN,
    Lit(String),
}

pub enum NumV {
    Inf,
    NegInf,
    NaN,
    Lit(Seq<char>),
}

impl DeepView for Number {
    type V = NumV;

    open spec fn deep_view(&self) -> NumV {
        match self {
            Number::Inf => NumV::Inf,
            Number::NegInf => NumV::NegInf,
            Number::NaN => NumV::NaN,
            Number::Lit(t) => NumV::Lit(t@),
        }
    }
}

/// A well-formed coerced number: a `Lit` carries a token of the numeric
/// text grammar — an optional sign, then digits.
pub open spec fn num_wf(n: NumV) -> bool {
    match n {
        NumV::Lit(t) => is_number_text(t),
        _ => true,
    }
}

#[derive(Debug, Clone, Copy, PartialEq, Eq, Structural)]
pub struct ServerTime {
    pub server_time: u64,
}

impl DeepView for ServerTime {
    type V = ServerTime;

    open spec fn deep_view(&self) -> ServerTime {
        *self
    }
}

#[derive(Debug, Clone, Copy, PartialEq, Eq, Structural)]
pub struct SystemStatus {}

#[derive(Debug, Clone, PartialEq)]
pub struct RateLimit {
    pub rate_limit_type: String,
    pub interval: String,
    pub interval_num: u16,
    pub limit: u64,
}

pub struct RateLimitV {
    pub rate_limit_type: Seq<char>,
    pub interval: Seq<char>,
    pub interval_num: u16,
    pub limit: u64,
}

impl DeepView for RateLimit {
    type V = RateLimitV;

    open spec fn deep_view(&self) -> RateLimitV {
        RateLimitV {
            rate_limit_type: self.rate_limit_type@,
            interval: self.interval@,
            interval_num: self.interval_num,
            limit: self.limit,
        }
    }
}

/// A candle duration: a magnitude with its unit. Minute and Month are
/// distinct units that render to the same letter in different cases.
#[derive(Debug, Clone, Copy, PartialEq, Eq, Structural)]
pub enum Interval {
    Minute(u64),
    Hour(u64),
    Day(u64),
    Month(u64),
}

impl DeepView for Interval {
    type V = Interval;

    open spec fn deep_view(&self) -> Interval {
        *self
    }
}

/// The wire token of an interval: the magnitude in decimal, then the unit
/// letter — `m`, `h`, `d` for minute, hour, day, and capital `M` for month.
pub open spec fn interval_token(iv: Interval) -> Seq<char> {
    match iv {
        Interval::Minute(n) => dec_of(n as nat) + seq!['m'],
        Interval::Hour(n) => dec_of(n as nat) + seq!['h'],
        Interval::Day(n) => dec_of(n as nat) + seq!['d'],
        Interval::Month(n) => dec_of(n as nat) + seq!['M'],
    }
}

impl Interval {
    /// Renders the compact wire token, e.g. `15m`, `4h`, `1d`, `1M`.
    /// Total: every tag and every magnitude has a token.
    pub fn render(&self) -> (s: String)
        ensures
            s@ == interval_token(*self),
    {
        proof {
            reveal_strlit("m");
            reveal_strlit("h");
            reveal_strlit("d");
            reveal_strlit("M");
        }
        match self {
            Interval::Minute(n) => {
                let mut s = u64_to_dec(*n);
                s.append("m");
                proof {
                    assert(s@ =~= interval_token(*self));
                }
                s
            },
            Interval::Hour(n) => {
                let mut s = u64_to_dec(*n);
                s.append("h");
                proof {
                    assert(s@ =~= interval_token(*self));
                }
                s
            },
            Interval::Day(n) => {
                let mut s = u64_to_dec(*n);
                s.append("d");
                proof {
                    assert(s@ =~= interval_token(*self));
                }
                s
            },
            Interval::Month(n) => {
                let mut s = u64_to_dec(*n);
                s.append("M");
                proof {
                    assert(s@ =~= interval_token(*self));
                }
                s
            },
        }
    }
}

#[derive(Debug, Clone, PartialEq)]
pub struct Kline {
    pub open_time: i64,
    pub open: String,
    pub high: String,
    pub low: String,
    pub close: String,
    pub volume: String,
    pub close_time: i64,
    pub quote_asset_volume: String,
    pub number_of_trades: i64,
    pub taker_buy_base_asset_volume: String,
    pub taker_buy_quote_asset_volume: String,
    pub _ignore: String,
}

pub struct KlineV {
    pub open_time: i64,
    pub open: Seq<char>,
    pub high: Seq<char>,
    pub low: Seq<char>,
    pub close: Seq<char>,
    pub volume: Seq<char>,
    pub close_time: i64,
    pub quote_asset_volume: Seq<char>,
    pub number_of_trades: i64,
    pub taker_buy_base_asset_volume: Seq<char>,
    pub taker_buy_quote_asset_volume: Seq<char>,
    pub _ignore: Seq<char>,
}

impl DeepView for Kline {
    type V = KlineV;

    open spec fn deep_view(&self) -> KlineV {
        KlineV {
            open_time: self.open_time,
            open: self.open@,
            high: self.high@,
            low: self.low@,
            close: self.close@,
            volume: self.volume@,
            close_time: self.close_time,
            quote_asset_volume: self.quote_asset_volume@,
            number_of_trades: self.number_of_trades,
            taker_buy_base_asset_volume: self.taker_buy_base_asset_volume@,
            taker_buy_quote_asset_volume: self.taker_buy_quote_asset_volume@,
            _ignore: self._ignore@,
        }
    }
}

#[derive(Debug, Clone, PartialEq)]
pub struct Order {
    pub price: Number,
    pub qty: Number,
}

pub struct OrderV {
    pub price: NumV,
    pub qty: NumV,
}

impl DeepView for Order {
    type V = OrderV;

    open spec fn deep_view(&self) -> OrderV {
        OrderV { price: self.price.deep_view(), qty: self.qty.deep_view() }
    }
}

#[derive(Debug, Clone, PartialEq)]
pub struct Orders {
    pub last_update_id: u64,
    pub bids: Vec<Order>,
    pub asks: Vec<Order>,
}

pub struct OrdersV {
    pub last_update_id: u64,
    pub bids: Seq<OrderV>,
    pub asks: Seq<OrderV>,
}

impl DeepView for Orders {
    type V = OrdersV;

    open spec fn deep_view(&self) -> OrdersV {
        OrdersV {
            last_update_id: self.last_update_id,
            bids: self.bids.deep_view(),
            asks: self.asks.deep_view(),
        }
    }
}

/// An order book: the decoded `Orders` payload together with the symbol the
/// request asked about. The symbol is never part of the payload; the caller
/// attaches it.
#[derive(Debug, Clone, PartialEq)]
pub struct OrderBook {
    pub symbol: String,
    pub orders: Orders,
}

pub struct OrderBookV {
    pub symbol: Seq<char>,
    pub orders: OrdersV,
}

impl DeepView for OrderBook {
    type V = OrderBookV;

    open spec fn deep_view(&self) -> OrderBookV {
        OrderBookV { symbol: self.symbol@, orders: self.orders.deep_view() }
    }
}

#[derive(Debug, Clone, PartialEq)]
pub struct Trade {
    pub id: u64,
    pub price: Number,
    pub qty: Number,
    pub quote_qty: Number,
    pub time: u64,
    pub is_buyer_maker: bool,
    pub is_best_match: bool,
}

pub struct TradeV {
    pub id: u64,
    pub price: NumV,
    pub qty: NumV,
    pub quote_qty: NumV,
    pub time: u64,
    pub is_buyer_maker: bool,
    pub is_best_match: bool,
}

impl DeepView for Trade {
    type V = TradeV;

    open spec fn deep_view(&self) -> TradeV {
        TradeV {
            id: self.id,
            price: self.price.deep_view(),
            qty: self.qty.deep_view(),
            quote_qty: self.quote_qty.deep_view(),
            time: self.time,
            is_buyer_maker: self.is_buyer_maker,
            is_best_match: self.is_best_match,
        }
    }
}

#[derive(Debug, Clone, PartialEq)]
pub struct AggTrade {
    pub time: u64,
    pub agg_id: u64,
    pub first_id: u64,
    pub last_id: u64,
    pub maker: bool,
    pub best_match: bool,
    pub price: Number,
    pub qty: Number,
}

pub struct AggTradeV {
    pub time: u64,
    pub agg_id: u64,
    pub first_id: u64,
    pub last_id: u64,
    pub maker: bool,
    pub best_match: bool,
    pub price: NumV,
    pub qty: NumV,
}

impl DeepView for AggTrade {
    type V = AggTradeV;

    open spec fn deep_view(&self) -> AggTradeV {
        AggTradeV {
            time: self.time,
            agg_id: self.agg_id,
            first_id: self.first_id,
            last_id: self.last_id,
            maker: self.maker,
            best_match: self.best_match,
            price: self.price.deep_view(),
            qty: self.qty.deep_view(),
        }
    }
}

#[derive(Debug, Clone, PartialEq)]
pub struct AvgPrice {
    pub mins: u64,
    pub price: Number,
}

pub struct AvgPriceV {
    pub mins: u64,
    pub price: NumV,
}

impl DeepView for AvgPrice {
    type V = AvgPriceV;

    open spec fn deep_view(&self) -> AvgPriceV {
        AvgPriceV { mins: self.mins, price: self.price.deep_view() }
    }
}

#[derive(Debug, Clone, PartialEq)]
pub struct LiveTicker {
    pub symbol: String,
    pub price: Number,
}

pub struct LiveTickerV {
    pub symbol: Seq<char>,
    pub price: NumV,
}

impl DeepView for LiveTicker {
    type V = LiveTickerV;

    open spec fn deep_view(&self) -> LiveTickerV {
        LiveTickerV { symbol: self.symbol@, price: self.price.deep_view() }
    }
}

#[derive(Debug, Clone, PartialEq)]
pub struct PriceStats {
    pub symbol: String,
    pub price_change: Number,
    pub price_change_percent: Number,
    pub weighted_avg_price: Number,
    pub last_price: Number,
    pub open_price: Number,
    pub high_price: Number,
    pub low_price: Number,
    pub volume: Number,
    pub quote_volume: Number,
    pub last_qty: Number,
    pub open_time: u64,
    pub close_time: u64,
    pub first_id: u64,
    pub last_id: u64,
    pub count: u64,
}

pub struct PriceStatsV {
    pub symbol: Seq<char>,
    pub price_change: NumV,
    pub price_change_percent: NumV,
    pub weighted_avg_price: NumV,
    pub last_price: NumV,
    pub open_price: NumV,
    pub high_price: NumV,
    pub low_price: NumV,
    pub volume: NumV,
    pub quote_volume: NumV,
    pub last_qty: NumV,
    pub open_time: u64,
    pub close_time: u64,
    pub first_id: u64,
    pub last_id: u64,
    pub count: u64,
}

impl DeepView for PriceStats {
    type V = PriceStatsV;

    open spec fn deep_view(&self) -> PriceStatsV {
        PriceStatsV {
            symbol: self.symbol@,
            price_change: self.price_change.deep_view(),
            price_change_percent: self.price_change_percent.deep_view(),
            weighted_avg_price: self.weighted_avg_price.deep_view(),
            last_price: self.last_price.deep_view(),
            open_price: self.open_price.deep_view(),
            high_price: self.high_price.deep_view(),
            low_price: self.low_price.deep_view(),
            volume: self.volume.deep_view(),
            quote_volume: self.quote_volume.deep_view(),
            last_qty: self.last_qty.deep_view(),
            open_time: self.open_time,
            close_time: self.close_time,
            first_id: self.first_id,
            last_id: self.last_id,
            count: self.count,
        }
    }
}

#[derive(Debug, Clone, PartialEq)]
pub struct BookTicker {
    pub symbol: String,
    pub bid_price: Number,
    pub bid_qty: Number,
    pub ask_price: Number,
    pub ask_qty: Number,
}

pub struct BookTickerV {
    pub symbol: Seq<char>,
    pub bid_price: NumV,
    pub bid_qty: NumV,
    pub ask_price: NumV,
    pub ask_qty: NumV,
}

impl DeepView for BookTicker {
    type V = BookTickerV;

    open spec fn deep_view(&self) -> BookTickerV {
        BookTickerV {
            symbol: self.symbol@,
            bid_price: self.bid_price.deep_view(),
            bid_qty: self.bid_qty.deep_view(),
            ask_price: self.ask_price.deep_view(),
            ask_qty: self.ask_qty.deep_view(),
        }
    }
}

/// One of the nine known symbol filters, told apart on the wire by the
/// `filterType` discriminator. The set is closed: any other discriminator
/// is a decode error, never a default.
#[derive(Debug, Clone, PartialEq)]
pub enum Filter {
    PriceFilter { min_price: Number, max_price: Number, tick_size: Number },
    PercentPrice { multiplier_up: Number, multiplier_down: Number, avg_price_mins: u16 },
    LotSize { min_qty: Number, max_qty: Number, step_size: Number },
    MinNotional { min_notional: Number, apply_to_market: bool, avg_price_mins: u16 },
    IcebergParts { limit: u64 },
    MarketLotSize { min_qty: Number, max_qty: Number, step_size: Number },
    TrailingDelta {
        min_trailing_above_delta: u16,
        max_trailing_above_delta: u16,
        min_trailing_below_delta: u16,
        max_trailing_below_delta: u16,
    },
    MaxNumOrder { max_num_orders: u16 },
    MaxNumAlgoOrders { max_num_algo_orders: u16 },
}

pub enum FilterV {
    PriceFilter { min_price: NumV, max_price: NumV, tick_size: NumV },
    PercentPrice { multiplier_up: NumV, multiplier_down: NumV, avg_price_mins: u16 },
    LotSize { min_qty: NumV, max_qty: NumV, step_size: NumV },
    MinNotional { min_notional: NumV, apply_to_market: bool, avg_price_mins: u16 },
    IcebergParts { limit: u64 },
    MarketLotSize { min_qty: NumV, max_qty: NumV, step_size: NumV },
    TrailingDelta {
        min_trailing_above_delta: u16,
        max_trailing_above_delta: u16,
        min_trailing_below_delta: u16,
        max_trailing_below_delta: u16,
    },
    MaxNumOrder { max_num_orders: u16 },
    MaxNumAlgoOrders { max_num_algo_orders: u16 },
}

impl DeepView for Filter {
    type V = FilterV;

    open spec fn deep_view(&self) -> FilterV {
        match self {
            Filter::PriceFilter { min_price, max_price, tick_size } => FilterV::PriceFilter {
                min_price: min_price.deep_view(),
                max_price: max_price.deep_view(),
                tick_size: tick_size.deep_view(),
            },
            Filter::PercentPrice { multiplier_up, multiplier_down, avg_price_mins } => (
            FilterV::PercentPrice {
                multiplier_up: multiplier_up.deep_view(),
                multiplier_down: multiplier_down.deep_view(),
                avg_price_mins: *avg_price_mins,
            }),
            Filter::LotSize { min_qty, max_qty, step_size } => FilterV::LotSize {
                min_qty: min_qty.deep_view(),
                max_qty: max_qty.deep_view(),
                step_size: step_size.deep_view(),
            },
            Filter::MinNotional { min_notional, apply_to_market, avg_price_mins } => (
            FilterV::MinNotional {
                min_notional: min_notional.deep_view(),
                apply_to_market: *apply_to_market,
                avg_price_mins: *avg_price_mins,
            }),
            Filter::IcebergParts { limit } => FilterV::IcebergParts { limit: *limit },
            Filter::MarketLotSize { min_qty, max_qty, step_size } => FilterV::MarketLotSize {
                min_qty: min_qty.deep_view(),
                max_qty: max_qty.deep_view(),
                step_size: step_size.deep_view(),
            },
            Filter::TrailingDelta {
                min_trailing_above_delta,
                max_trailing_above_delta,
                min_trailing_below_delta,
                max_trailing_below_delta,
            } => FilterV::TrailingDelta {
                min_trailing_above_delta: *min_trailing_above_delta,
                max_trailing_above_delta: *max_trailing_above_delta,
                min_trailing_below_delta: *min_trailing_below_delta,
                max_trailing_below_delta: *max_trailing_below_delta,
            },
            Filter::MaxNumOrder { max_num_orders } => FilterV::MaxNumOrder {
                max_num_orders: *max_num_orders,
            },
            Filter::MaxNumAlgoOrders { max_num_algo_orders } => FilterV::MaxNumAlgoOrders {
                max_num_algo_orders: *max_num_algo_orders,
            },
        }
    }
}

#[derive(Debug, Clone, PartialEq)]
pub struct Symbol {
    pub symbol: String,
    pub status: String,
    pub base_asset: String,
    pub base_asset_precision: u8,
    pub quote_asset: String,
    pub quote_asset_precision: u8,
    pub base_commission_precision: u8,
    pub quote_commission_precision: u8,
    pub order_types: Vec<String>,
    pub iceberg_allowed: bool,
    pub is_spot_trading_allowed: bool,
    pub is_margin_trading_allowed: bool,
    pub filters: Vec<Filter>,
    pub permissions: Vec<String>,
}

pub struct SymbolV {
    pub symbol: Seq<char>,
    pub status: Seq<char>,
    pub base_asset: Seq<char>,
    pub base_asset_precision: u8,
    pub quote_asset: Seq<char>,
    pub quote_asset_precision: u8,
    pub base_commission_precision: u8,
    pub quote_commission_precision: u8,
    pub order_types: Seq<Seq<char>>,
    pub iceberg_allowed: bool,
    pub is_spot_trading_allowed: bool,
    pub is_margin_trading_allowed: bool,
    pub filters: Seq<FilterV>,
    pub permissions: Seq<Seq<char>>,
}

impl DeepView for Symbol {
    type V = SymbolV;

    open spec fn deep_view(&self) -> SymbolV {
        SymbolV {
            symbol: self.symbol@,
            status: self.status@,
            base_asset: self.base_asset@,
            base_asset_precision: self.base_asset_precision,
            quote_asset: self.quote_asset@,
            quote_asset_precision: self.quote_asset_precision,
            base_commission_precision: self.base_commission_precision,
            quote_commission_precision: self.quote_commission_precision,
            order_types: self.order_types.deep_view(),
            iceberg_allowed: self.iceberg_allowed,
            is_spot_trading_allowed: self.is_spot_trading_allowed,
            is_margin_trading_allowed: self.is_margin_trading_allowed,
            filters: self.filters.deep_view(),
            permissions: self.permissions.deep_view(),
        }
    }
}

#[derive(Debug, Clone, PartialEq)]
pub struct ExchangeInfo {
    pub timezone: String,
    pub server_time: u64,
    pub rate_limits: Vec<RateLimit>,
    pub symbols: Vec<Symbol>,
}

pub struct ExchangeInfoV {
    pub timezone: Seq<char>,
    pub server_time: u64,
    pub rate_limits: Seq<RateLimitV>,
    pub symbols: Seq<SymbolV>,
}

impl DeepView for ExchangeInfo {
    type V = ExchangeInfoV;

    open spec fn deep_view(&self) -> ExchangeInfoV {
        ExchangeInfoV {
            timezone: self.timezone@,
            server_time: self.server_time,
            rate_limits: self.rate_limits.deep_view(),
            symbols: self.symbols.deep_view(),
        }
    }
}

/// Overall system status: `0` is normal operation, `1` is maintenance.
#[derive(Debug, Clone, PartialEq)]
pub struct Status {
    pub status: u8,
    pub msg: String,
}

pub struct StatusV {
    pub status: u8,
    pub msg: Seq<char>,
}

impl DeepView for Status {
    type V = StatusV;

    open spec fn deep_view(&self) -> StatusV {
        StatusV { status: self.status, msg: self.msg@ }
    }
}

/// Account-data records. The account endpoints themselves are declared by
/// the service but not part of the market-data surface; only their payload
/// shapes are modelled here.
#[derive(Debug, Clone, PartialEq)]
pub struct AccountInfo {
    pub maker_commission: u16,
    pub taker_commission: u16,
    pub seller_commission: u16,
    pub buyer_commission: u16,
    pub can_trade: bool,
    pub can_withdraw: bool,
    pub can_deposit: bool,
    pub update_time: u64,
    pub account_type: String,
}

pub struct AccountInfoV {
    pub maker_commission: u16,
    pub taker_commission: u16,
    pub seller_commission: u16,
    pub buyer_commission: u16,
    pub can_trade: bool,
    pub can_withdraw: bool,
    pub can_deposit: bool,
    pub update_time: u64,
    pub account_type: Seq<char>,
}

impl DeepView for AccountInfo {
    type V = AccountInfoV;

    open spec fn deep_view(&self) -> AccountInfoV {
        AccountInfoV {
            maker_commission: self.maker_commission,
            taker_commission: self.taker_commission,
            seller_commission: self.seller_commission,
            buyer_commission: self.buyer_commission,
            can_trade: self.can_trade,
            can_withdraw: self.can_withdraw,
            can_deposit: self.can_deposit,
            update_time: self.update_time,
            account_type: self.account_type@,
        }
    }
}

#[derive(Debug, Clone, PartialEq)]
pub struct Balance {
    pub asset: String,
    pub free: Number,
    pub locked: Number,
    pub permissions: Vec<String>,
}

pub struct BalanceV {
    pub asset: Seq<char>,
    pub free: NumV,
    pub locked: NumV,
    pub permissions: Seq<Seq<char>>,
}

impl DeepView for Balance {
    type V = BalanceV;

    open spec fn deep_view(&self) -> BalanceV {
        BalanceV {
            asset: self.asset@,
            free: self.free.deep_view(),
            locked: self.locked.deep_view(),
            permissions: self.permissions.deep_view(),
        }
    }
}

#[derive(Debug, Clone, PartialEq)]
pub struct AccountStatus {
    pub msg: String,
    pub success: bool,
    pub objs: Vec<u16>,
}

pub struct AccountStatusV {
    pub msg: Seq<char>,
    pub success: bool,
    pub objs: Seq<u16>,
}

impl DeepView for AccountStatus {
    type V = AccountStatusV;

    open spec fn deep_view(&self) -> AccountStatusV {
        AccountStatusV { msg: self.msg@, success: self.success, objs: self.objs.deep_view() }
    }
}

} // verus!
