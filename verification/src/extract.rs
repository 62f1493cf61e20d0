//! Field extraction: pulls the canonical trade fields out of one candidate
//! record, trying several accepted key aliases per field. Extraction fails
//! only when neither a symbol key nor a price key resolves; every other
//! field degrades to a default rather than failing.

use vstd::prelude::*;
use crate::json::{spec_get, JsonNum, JsonVal};
use crate::timeunit::spec_scale_to_ns_at;

verus! {

/// Views of a list of key aliases.
pub open spec fn key_views(keys: Seq<&str>) -> Seq<Seq<char>> {
    keys.map_values(|k: &str| k@)
}

/// Accepted aliases for the symbol field, in lookup order.
pub open spec fn symbol_keys() -> Seq<Seq<char>> {
    seq!["symbol"@, "s"@, "coin"@]
}

/// Accepted aliases for the price field.
pub open spec fn price_keys() -> Seq<Seq<char>> {
    seq!["px"@, "price"@, "p"@]
}

/// Accepted aliases for the quantity field.
pub open spec fn qty_keys() -> Seq<Seq<char>> {
    seq!["qty"@, "size"@, "q"@]
}

/// Accepted aliases for the aggressor-side field.
pub open spec fn aggressor_keys() -> Seq<Seq<char>> {
    seq!["aggressor"@, "side"@]
}

/// Accepted aliases for the trade id field.
pub open spec fn trade_id_keys() -> Seq<Seq<char>> {
    seq!["trade_id"@, "id"@, "tid"@]
}

/// Accepted aliases for the raw timestamp field.
pub open spec fn ts_keys() -> Seq<Seq<char>> {
    seq!["ts"@, "timestamp"@, "time"@, "T"@, "t"@]
}

/// Accepted aliases for the venue-supplied sequence field.
pub open spec fn seq_keys() -> Seq<Seq<char>> {
    seq!["seq"@, "sequence"@, "event_id"@]
}

/// First alias whose value is a number, if any.
pub open spec fn spec_get_num(v: JsonVal, keys: Seq<Seq<char>>) -> Option<JsonNum>
    decreases keys.len(),
{
    if keys.len() == 0 {
        None
    } else {
        match spec_get(v, keys[0]) {
            Some(JsonVal::Num(n)) => Some(n),
            _ => spec_get_num(v, keys.drop_first()),
        }
    }
}

/// First alias whose value is a string, if any.
pub open spec fn spec_get_str(v: JsonVal, keys: Seq<Seq<char>>) -> Option<Seq<char>>
    decreases keys.len(),
{
    if keys.len() == 0 {
        None
    } else {
        match spec_get(v, keys[0]) {
            Some(JsonVal::Str(s)) => Some(s@),
            _ => spec_get_str(v, keys.drop_first()),
        }
    }
}

/// The value under `key` when it is a boolean.
pub open spec fn spec_get_bool(v: JsonVal, key: Seq<char>) -> Option<bool> {
    match spec_get(v, key) {
        Some(JsonVal::Bool(b)) => Some(b),
        _ => None,
    }
}

/// Looks the aliases up in order and returns the first numeric value.
pub fn get_num(v: &JsonVal, keys: &Vec<&str>) -> (r: Option<JsonNum>)
    ensures
        r == spec_get_num(*v, key_views(keys@)),
{
    proof {
        assert(key_views(keys@).skip(0) =~= key_views(keys@));
    }
    let mut i: usize = 0;
    #[verifier::loop_isolation(false)]
    while i < keys.len()
        invariant
            i <= keys@.len(),
            spec_get_num(*v, key_views(keys@).skip(i as int)) == spec_get_num(
                *v,
                key_views(keys@),
            ),
        decreases keys@.len() - i,
    {
        proof {
            assert(key_views(keys@).skip(i as int)[0] == keys@[i as int]@);
        }
        match v.get(keys[i]) {
            Some(x) => {
                if let JsonVal::Num(n) = x {
                    return Some(*n);
                }
            },
            None => {},
        }
        proof {
            assert(key_views(keys@).skip(i as int).drop_first() =~= key_views(keys@).skip(
                i as int + 1,
            ));
        }
        i = i + 1;
    }
    proof {
        assert(key_views(keys@).skip(i as int) =~= Seq::<Seq<char>>::empty());
    }
    None
}

/// Looks the aliases up in order and returns the first string value.
pub fn get_str<'a>(v: &'a JsonVal, keys: &Vec<&str>) -> (r: Option<&'a str>)
    ensures
        match r {
            Some(s) => spec_get_str(*v, key_views(keys@)) == Some(s@),
            None => spec_get_str(*v, key_views(keys@)) is None,
        },
{
    proof {
        assert(key_views(keys@).skip(0) =~= key_views(keys@));
    }
    let mut i: usize = 0;
    #[verifier::loop_isolation(false)]
    while i < keys.len()
        invariant
            i <= keys@.len(),
            spec_get_str(*v, key_views(keys@).skip(i as int)) == spec_get_str(
                *v,
                key_views(keys@),
            ),
        decreases keys@.len() - i,
    {
        proof {
            assert(key_views(keys@).skip(i as int)[0] == keys@[i as int]@);
        }
        match v.get(keys[i]) {
            Some(x) => {
                if let JsonVal::Str(s) = x {
                    return Some(s.as_str());
                }
            },
            None => {},
        }
        proof {
            assert(key_views(keys@).skip(i as int).drop_first() =~= key_views(keys@).skip(
                i as int + 1,
            ));
        }
        i = i + 1;
    }
    proof {
        assert(key_views(keys@).skip(i as int) =~= Seq::<Seq<char>>::empty());
    }
    None
}

/// The boolean under `key`, if the key holds one.
pub fn get_bool(v: &JsonVal, key: &str) -> (r: Option<bool>)
    ensures
        r == spec_get_bool(*v, key@),
{
    match v.get(key) {
        Some(x) => {
            if let JsonVal::Bool(b) = x {
                Some(*b)
            } else {
                None
            }
        },
        None => None,
    }
}

/// Mathematical view of an extracted trade.
#[verifier::ext_equal]
pub struct TradeView {
    pub symbol: Seq<char>,
    pub price_bits: u64,
    pub qty_bits: u64,
    pub aggressor: Seq<char>,
    pub trade_id: Seq<char>,
    pub ts_exchange: u128,
    pub seq: Option<u64>,
}

/// One trade pulled out of a candidate record. Price and quantity carry the
/// bit pattern of the binary64 value the venue sent (quantity defaults to
/// the pattern of 0.0, which is all zero bits); the aggressor is a
/// lower-cased side name; the exchange timestamp is in nanoseconds.
pub struct ExtractedTrade {
    pub symbol: String,
    pub price_bits: u64,
    pub qty_bits: u64,
    pub aggressor: String,
    pub trade_id: String,
    pub ts_exchange: u128,
    pub seq: Option<u64>,
}

impl View for ExtractedTrade {
    type V = TradeView;

    open spec fn view(&self) -> TradeView {
        TradeView {
            symbol: self.symbol@,
            price_bits: self.price_bits,
            qty_bits: self.qty_bits,
            aggressor: self.aggressor@,
            trade_id: self.trade_id@,
            ts_exchange: self.ts_exchange,
            seq: self.seq,
        }
    }
}

/// The aggressor side of a candidate: a `side`/`aggressor` string is
/// lower-cased; otherwise a boolean `isBuyerMaker` maps true to `sell` and
/// false to `buy`; otherwise the side defaults to `buy`.
pub open spec fn spec_aggressor(v: JsonVal) -> Seq<char> {
    match spec_get_str(v, aggressor_keys()) {
        Some(s) => lower_of(s),
        None => match spec_get_bool(v, "isBuyerMaker"@) {
            Some(b) => if b {
                "sell"@
            } else {
                "buy"@
            },
            None => "buy"@,
        },
    }
}

/// The raw integer timestamp of a candidate: the first numeric timestamp
/// alias that holds an unsigned 64-bit value; zero (meaning unknown) when
/// none does.
pub open spec fn spec_ts_raw(v: JsonVal) -> u64 {
    match spec_get_num(v, ts_keys()) {
        Some(n) => match n.as_u64 {
            Some(u) => u,
            None => 0,
        },
        None => 0,
    }
}

/// The venue-supplied sequence number of a candidate, if a sequence alias
/// holds an unsigned 64-bit value.
pub open spec fn spec_seq_field(v: JsonVal) -> Option<u64> {
    match spec_get_num(v, seq_keys()) {
        Some(n) => n.as_u64,
        None => None,
    }
}

/// What extraction returns on a candidate, given the wall-clock reading
/// `now` that stands in for an unknown timestamp: `None` exactly when no
/// symbol alias holds a string or no price alias holds a number; otherwise
/// the trade with every optional field defaulted as documented.
pub open spec fn spec_extract(v: JsonVal, now: u128) -> Option<TradeView> {
    match spec_get_str(v, symbol_keys()) {
        None => None,
        Some(sym) => match spec_get_num(v, price_keys()) {
            None => None,
            Some(px) => Some(
                TradeView {
                    symbol: sym,
                    price_bits: px.f_bits,
                    qty_bits: match spec_get_num(v, qty_keys()) {
                        Some(n) => n.f_bits,
                        None => 0,
                    },
                    aggressor: spec_aggressor(v),
                    trade_id: match spec_get_str(v, trade_id_keys()) {
                        Some(t) => t,
                        None => Seq::empty(),
                    },
                    ts_exchange: spec_scale_to_ns_at(spec_ts_raw(v) as u128, now),
                    seq: spec_seq_field(v),
                },
            ),
        },
    }
}

/// Extracts the canonical trade fields from one candidate record; `now` is
/// the wall-clock reading substituted for an unknown timestamp.
pub fn extract_trade(v: &JsonVal, now: u128) -> (r: Option<ExtractedTrade>)
    ensures
        match r {
            Some(t) => spec_extract(*v, now) == Some(t@),
            None => spec_extract(*v, now) is None,
        },
{
    let sym_keys: Vec<&str> = vec!["symbol", "s", "coin"];
    proof {
        assert(key_views(sym_keys@) =~= symbol_keys());
    }
    let symbol: String = match get_str(v, &sym_keys) {
        Some(s) => s.to_owned(),
        None => {
            return None;
        },
    };
    let px_keys: Vec<&str> = vec!["px", "price", "p"];
    proof {
        assert(key_views(px_keys@) =~= price_keys());
    }
    let price: JsonNum = match get_num(v, &px_keys) {
        Some(n) => n,
        None => {
            return None;
        },
    };
    let q_keys: Vec<&str> = vec!["qty", "size", "q"];
    proof {
        assert(key_views(q_keys@) =~= qty_keys());
    }
    let qty_bits: u64 = match get_num(v, &q_keys) {
        Some(n) => n.f_bits,
        None => 0,
    };
    let agg_keys: Vec<&str> = vec!["aggressor", "side"];
    proof {
        assert(key_views(agg_keys@) =~= aggressor_keys());
    }
    let aggressor: String = match get_str(v, &agg_keys) {
        Some(s) => lowercase(s),
        None => match get_bool(v, "isBuyerMaker") {
            Some(b) => if b {
                "sell".to_owned()
            } else {
                "buy".to_owned()
            },
            None => "buy".to_owned(),
        },
    };
    let id_keys: Vec<&str> = vec!["trade_id", "id", "tid"];
    proof {
        assert(key_views(id_keys@) =~= trade_id_keys());
    }
    let trade_id: String = match get_str(v, &id_keys) {
        Some(s) => s.to_owned(),
        None => String::new(),
    };
    let t_keys: Vec<&str> = vec!["ts", "timestamp", "time", "T", "t"];
    proof {
        assert(key_views(t_keys@) =~= ts_keys());
    }
    let ts_raw: u64 = match get_num(v, &t_keys) {
        Some(n) => match n.as_u64 {
            Some(u) => u,
            None => 0,
        },
        None => 0,
    };
    let ts_exchange: u128 = crate::timeunit::scale_to_ns_at(ts_raw as u128, now);
    let s_keys: Vec<&str> = vec!["seq", "sequence", "event_id"];
    proof {
        assert(key_views(s_keys@) =~= seq_keys());
    }
    let seq: Option<u64> = match get_num(v, &s_keys) {
        Some(n) => n.as_u64,
        None => None,
    };
    Some(ExtractedTrade { symbol, price_bits: price.f_bits, qty_bits, aggressor, trade_id, ts_exchange, seq })
}

/// Lower-cased form of a character sequence, as the standard library
/// computes it.
pub uninterp spec fn lower_of(s: Seq<char>) -> Seq<char>;

/// Relies on `str::to_lowercase`: the result depends on the characters
/// alone.
#[verifier::external_body]
pub(crate) fn lowercase(s: &str) -> (r: String)
    ensures
        r@ == lower_of(s@),
{
    s.to_lowercase()
}

} // verus!
