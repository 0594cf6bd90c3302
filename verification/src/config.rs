//! Process configuration: which symbols to stream, where to write, and how
//! deep the queues are. Every setting is optional and has a default.

use vstd::prelude::*;
use crate::fixed::{parse_whole, whole_of};

verus! {

/// Queue capacity where none is configured or the configured one does not
/// parse.
pub const DEFAULT_CHANNEL_CAPACITY: usize = 999;

/// The settings of one process.
pub struct PrismEnvConfig {
    pub symbol_binance_fut: String,
    pub symbol_binance_spt: String,
    pub symbol_upbit_krw: String,
    pub symbol_upbit_btc: String,
    pub symbol_upbit_usdt: String,
    pub table_fut: String,
    pub table_spt: String,
    pub table_strat1: String,
    pub data_dump: bool,
    pub channel_capacity: usize,
}

/// The settings as they were found, each present or missing.
pub struct RawEnvConfig {
    pub symbols_binance_fut: Option<String>,
    pub symbols_binance_spt: Option<String>,
    pub symbols_upbit_krw: Option<String>,
    pub symbols_upbit_btc: Option<String>,
    pub symbols_upbit_usdt: Option<String>,
    pub table_fut: Option<String>,
    pub table_spt: Option<String>,
    pub strategy1_table: Option<String>,
    pub data_dump: Option<String>,
    pub channel_capacity: Option<String>,
}

/// The text of a setting, or its default where it is missing.
pub open spec fn text_or(value: Option<String>, default: Seq<char>) -> Seq<char> {
    match value {
        Some(s) => s@,
        None => default,
    }
}

/// The queue capacity that a setting calls for: the number it holds where
/// it holds one that fits, else the default.
pub open spec fn capacity_of(value: Option<String>) -> usize {
    match value {
        Some(s) => capacity_of_number(whole_of(s@)),
        None => DEFAULT_CHANNEL_CAPACITY,
    }
}

/// Whether a data dump was asked for: only the text "true" asks for one.
pub open spec fn dump_of(value: Option<String>) -> bool {
    value matches Some(s) && s@ == "true"@
}

/// Whether streams are to be started for `symbol`: for every symbol but the
/// sentinel "NO_SYMBOL".
pub open spec fn symbol_enabled_spec(symbol: Seq<char>) -> bool {
    symbol != "NO_SYMBOL"@
}

/// Whether streams are to be started for `symbol`.
pub fn symbol_enabled(symbol: &String) -> (r: bool)
    ensures
        r == symbol_enabled_spec(symbol@),
{
    let sentinel = "NO_SYMBOL".to_owned();
    !(*symbol == sentinel)
}

/// A setting's text, or a default.
pub fn setting_or(value: Option<String>, default: &str) -> (r: String)
    ensures
        r@ == text_or(value, default@),
{
    match value {
        Some(s) => s,
        None => default.to_owned(),
    }
}

/// The queue capacity that a parsed number calls for: the number where
/// there is one that fits, else the default.
pub open spec fn capacity_of_number(parsed: Option<u64>) -> usize {
    match parsed {
        Some(n) => if n <= usize::MAX {
            n as usize
        } else {
            DEFAULT_CHANNEL_CAPACITY
        },
        None => DEFAULT_CHANNEL_CAPACITY,
    }
}

/// The queue capacity that a parsed number calls for.
pub fn capacity_from_number(parsed: Option<u64>) -> (r: usize)
    ensures
        r == capacity_of_number(parsed),
{
    match parsed {
        Some(n) => if n <= usize::MAX as u64 {
            n as usize
        } else {
            DEFAULT_CHANNEL_CAPACITY
        },
        None => DEFAULT_CHANNEL_CAPACITY,
    }
}

/// The queue capacity that a setting calls for.
pub fn capacity_from(value: &Option<String>) -> (r: usize)
    ensures
        r == capacity_of(*value),
{
    match value {
        Some(s) => capacity_from_number(parse_whole(s.as_str())),
        None => DEFAULT_CHANNEL_CAPACITY,
    }
}

/// Whether a data dump was asked for.
pub fn dump_from(value: &Option<String>) -> (r: bool)
    ensures
        r == dump_of(*value),
{
    match value {
        Some(s) => {
            let yes = "true".to_owned();
            *s == yes
        },
        None => false,
    }
}

impl PrismEnvConfig {
    /// The settings with every missing one at its default: "NO_SYMBOL" for
    /// a symbol, "unspecified" for a table, no data dump, and the default
    /// queue capacity.
    pub fn from_raw(raw: RawEnvConfig) -> (r: Self)
        ensures
            r.symbol_binance_fut@ == text_or(raw.symbols_binance_fut, "NO_SYMBOL"@),
            r.symbol_binance_spt@ == text_or(raw.symbols_binance_spt, "NO_SYMBOL"@),
            r.symbol_upbit_krw@ == text_or(raw.symbols_upbit_krw, "NO_SYMBOL"@),
            r.symbol_upbit_btc@ == text_or(raw.symbols_upbit_btc, "NO_SYMBOL"@),
            r.symbol_upbit_usdt@ == text_or(raw.symbols_upbit_usdt, "NO_SYMBOL"@),
            r.table_fut@ == text_or(raw.table_fut, "unspecified"@),
            r.table_spt@ == text_or(raw.table_spt, "unspecified"@),
            r.table_strat1@ == text_or(raw.strategy1_table, "unspecified"@),
            r.data_dump == dump_of(raw.data_dump),
            r.channel_capacity == capacity_of(raw.channel_capacity),
    {
        let data_dump = dump_from(&raw.data_dump);
        let channel_capacity = capacity_from(&raw.channel_capacity);
        PrismEnvConfig {
            symbol_binance_fut: setting_or(raw.symbols_binance_fut, "NO_SYMBOL"),
            symbol_binance_spt: setting_or(raw.symbols_binance_spt, "NO_SYMBOL"),
            symbol_upbit_krw: setting_or(raw.symbols_upbit_krw, "NO_SYMBOL"),
            symbol_upbit_btc: setting_or(raw.symbols_upbit_btc, "NO_SYMBOL"),
            symbol_upbit_usdt: setting_or(raw.symbols_upbit_usdt, "NO_SYMBOL"),
            table_fut: setting_or(raw.table_fut, "unspecified"),
            table_spt: setting_or(raw.table_spt, "unspecified"),
            table_strat1: setting_or(raw.strategy1_table, "unspecified"),
            data_dump,
            channel_capacity,
        }
    }

    /// Whether the derivatives and spot streams of the main venue start:
    /// unless both of its symbols are the sentinel.
    pub fn binance_enabled(&self) -> (r: bool)
        ensures
            r == (symbol_enabled_spec(self.symbol_binance_fut@) || symbol_enabled_spec(
                self.symbol_binance_spt@,
            )),
    {
        symbol_enabled(&self.symbol_binance_fut) || symbol_enabled(&self.symbol_binance_spt)
    }
}

} // verus!
