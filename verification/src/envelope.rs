//! The canonical trade envelope: the record that the publication path
//! serializes and hands to the durable log.

use vstd::prelude::*;
use vstd::string::StringExecFns;
use crate::extract::{ExtractedTrade, TradeView};
use crate::timeunit::now_ns;

verus! {

/// Mathematical view of a trade envelope.
#[verifier::ext_equal]
pub struct EnvelopeView {
    pub venue: Seq<char>,
    pub symbol: Seq<char>,
    pub channel: Seq<char>,
    pub seq: u64,
    pub ts_exchange: u128,
    pub ts_gateway: u128,
    pub px_bits: u64,
    pub qty_bits: u64,
    pub aggressor: Seq<char>,
    pub trade_id: Seq<char>,
    pub src_conn_id: u64,
}

/// The canonical publishable trade record. Price and quantity carry the bit
/// pattern of the binary64 values that go on the wire; the boundary code
/// reads the floating-point values back out of them when it serializes.
pub struct TradeEnvelope {
    pub venue: String,
    pub symbol: String,
    pub channel: String,
    pub seq: u64,
    pub ts_exchange: u128,
    pub ts_gateway: u128,
    pub px_bits: u64,
    pub qty_bits: u64,
    pub aggressor: String,
    pub trade_id: String,
    pub src_conn_id: u64,
}

impl View for TradeEnvelope {
    type V = EnvelopeView;

    open spec fn view(&self) -> EnvelopeView {
        EnvelopeView {
            venue: self.venue@,
            symbol: self.symbol@,
            channel: self.channel@,
            seq: self.seq,
            ts_exchange: self.ts_exchange,
            ts_gateway: self.ts_gateway,
            px_bits: self.px_bits,
            qty_bits: self.qty_bits,
            aggressor: self.aggressor@,
            trade_id: self.trade_id@,
            src_conn_id: self.src_conn_id,
        }
    }
}

/// The envelope an extracted trade turns into: every field taken from the
/// trade, the channel pinned to `trades`, a missing venue sequence written
/// as 0 (the pipeline always assigns one first), and the supplied gateway
/// timestamp.
pub open spec fn spec_envelope(
    venue: Seq<char>,
    t: TradeView,
    src_conn_id: u64,
    ts_gateway: u128,
) -> EnvelopeView {
    EnvelopeView {
        venue: venue,
        symbol: t.symbol,
        channel: "trades"@,
        seq: match t.seq {
            Some(s) => s,
            None => 0,
        },
        ts_exchange: t.ts_exchange,
        ts_gateway: ts_gateway,
        px_bits: t.price_bits,
        qty_bits: t.qty_bits,
        aggressor: t.aggressor,
        trade_id: t.trade_id,
        src_conn_id: src_conn_id,
    }
}

/// Envelope schema stability: whatever trade an envelope is built from, and
/// whatever gateway timestamp it is stamped with, the channel is the
/// constant `trades`, and every field of the trade reaches its envelope
/// field unchanged — the synthetic path builds the same record type, so the
/// two are structurally indistinguishable.
pub proof fn lemma_envelope_schema(
    venue: Seq<char>,
    t: TradeView,
    src_conn_id: u64,
    ts_gateway: u128,
)
    ensures
        spec_envelope(venue, t, src_conn_id, ts_gateway).channel == "trades"@,
        spec_envelope(venue, t, src_conn_id, ts_gateway).venue == venue,
        spec_envelope(venue, t, src_conn_id, ts_gateway).symbol == t.symbol,
        spec_envelope(venue, t, src_conn_id, ts_gateway).px_bits == t.price_bits,
        spec_envelope(venue, t, src_conn_id, ts_gateway).qty_bits == t.qty_bits,
        spec_envelope(venue, t, src_conn_id, ts_gateway).aggressor == t.aggressor,
        spec_envelope(venue, t, src_conn_id, ts_gateway).trade_id == t.trade_id,
        spec_envelope(venue, t, src_conn_id, ts_gateway).ts_exchange == t.ts_exchange,
        spec_envelope(venue, t, src_conn_id, ts_gateway).ts_gateway == ts_gateway,
        spec_envelope(venue, t, src_conn_id, ts_gateway).src_conn_id == src_conn_id,
        t.seq matches Some(s) ==> spec_envelope(venue, t, src_conn_id, ts_gateway).seq == s,
{
}

impl TradeEnvelope {
    /// Builds the envelope for an extracted trade with an explicit gateway
    /// timestamp. Pure data transformation, no failure mode.
    pub fn from_trade_event_at(
        venue: &str,
        te: ExtractedTrade,
        src_conn_id: u64,
        ts_gateway: u128,
    ) -> (r: TradeEnvelope)
        ensures
            r@ == spec_envelope(venue@, te@, src_conn_id, ts_gateway),
    {
        TradeEnvelope {
            venue: venue.to_owned(),
            symbol: te.symbol,
            channel: "trades".to_owned(),
            seq: match te.seq {
                Some(s) => s,
                None => 0,
            },
            ts_exchange: te.ts_exchange,
            ts_gateway: ts_gateway,
            px_bits: te.price_bits,
            qty_bits: te.qty_bits,
            aggressor: te.aggressor,
            trade_id: te.trade_id,
            src_conn_id: src_conn_id,
        }
    }

    /// Builds the envelope for an extracted trade, stamping the gateway
    /// timestamp with the wall clock at construction time. Every other
    /// field is pinned; the gateway timestamp is whatever the clock read.
    pub fn from_trade_event(venue: &str, te: ExtractedTrade, src_conn_id: u64) -> (r:
        TradeEnvelope)
        ensures
            r@ == spec_envelope(venue@, te@, src_conn_id, r@.ts_gateway),
    {
        let now: u128 = now_ns();
        Self::from_trade_event_at(venue, te, src_conn_id, now)
    }

    /// The partition key the publication path routes this envelope by.
    pub fn partition_key(&self) -> (r: String)
        ensures
            r@ == self.venue@ + "|"@ + self.symbol@,
    {
        let mut k: String = self.venue.as_str().to_owned();
        k.append("|");
        k.append(self.symbol.as_str());
        k
    }
}

} // verus!
