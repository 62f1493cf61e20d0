//! The synthetic generator's per-tick envelope: schema-identical to the real
//! path's output, with deterministic, cyclically varying content. The
//! boundary code owns the tick loop and the floating-point price and
//! quantity cycle; each tick's envelope is built here.

use vstd::prelude::*;
use vstd::string::StringExecFns;
use crate::envelope::TradeEnvelope;
use crate::numfmt::{spec_dec, u128_to_dec, u64_to_dec};

verus! {

/// Builds the envelope for one synthetic tick: sequence numbers count up
/// from 1 per symbol, the aggressor alternates by the sequence's parity,
/// the trade id is symbol-seq-timestamp, and both timestamps carry the
/// tick's wall-clock reading. The price and quantity bit patterns come from
/// the caller's synthetic cycle.
pub fn mock_tick(
    venue: &str,
    symbol: &str,
    seq: u64,
    now: u128,
    px_bits: u64,
    qty_bits: u64,
    src_conn_id: u64,
) -> (r: TradeEnvelope)
    ensures
        r@.venue == venue@,
        r@.symbol == symbol@,
        r@.channel == "trades"@,
        r@.seq == seq,
        r@.ts_exchange == now,
        r@.ts_gateway == now,
        r@.px_bits == px_bits,
        r@.qty_bits == qty_bits,
        r@.aggressor == (if seq % 2 == 0 {
            "buy"@
        } else {
            "sell"@
        }),
        r@.trade_id == symbol@ + "-"@ + spec_dec(seq as nat) + "-"@ + spec_dec(now as nat),
        r@.src_conn_id == src_conn_id,
{
    let aggressor: String = if seq % 2 == 0 {
        "buy".to_owned()
    } else {
        "sell".to_owned()
    };
    let mut trade_id: String = symbol.to_owned();
    trade_id.append("-");
    let seq_text = u64_to_dec(seq);
    trade_id.append(seq_text.as_str());
    trade_id.append("-");
    let now_text = u128_to_dec(now);
    trade_id.append(now_text.as_str());
    TradeEnvelope {
        venue: venue.to_owned(),
        symbol: symbol.to_owned(),
        channel: "trades".to_owned(),
        seq: seq,
        ts_exchange: now,
        ts_gateway: now,
        px_bits: px_bits,
        qty_bits: qty_bits,
        aggressor: aggressor,
        trade_id: trade_id,
        src_conn_id: src_conn_id,
    }
}

} // verus!
