//! The per-frame processing pipeline: flatten a raw message into candidates,
//! extract a trade from each, keep the subscribed symbols, assign a sequence
//! number where the venue supplied none, and build the publishable
//! envelopes, in wire order.

use vstd::prelude::*;
use crate::envelope::{spec_envelope, EnvelopeView, TradeEnvelope};
use crate::extract::{extract_trade, spec_extract, TradeView};
use crate::flatten::{flatten_trade_items, spec_flatten};
use crate::json::{str_eq, JsonVal};
use crate::sequence::{spec_next_seq, SequenceState};

verus! {

/// Views of a list of symbols.
pub open spec fn symbol_views(symbols: Seq<String>) -> Seq<Seq<char>> {
    symbols.map_values(|s: String| s@)
}

/// Views of a list of envelopes.
pub open spec fn env_views(envs: Seq<TradeEnvelope>) -> Seq<EnvelopeView> {
    envs.map_values(|e: TradeEnvelope| e@)
}

/// What one candidate contributes: no envelope when extraction fails or the
/// symbol is not subscribed; otherwise the envelope, with the counter map
/// advanced exactly when the venue supplied no sequence number.
pub open spec fn spec_step(
    cand: JsonVal,
    symbols: Seq<Seq<char>>,
    counters: Map<Seq<char>, u64>,
    venue: Seq<char>,
    conn: u64,
    now: u128,
) -> (Option<EnvelopeView>, Map<Seq<char>, u64>) {
    match spec_extract(cand, now) {
        None => (None, counters),
        Some(t) => {
            if !symbols.contains(t.symbol) {
                (None, counters)
            } else {
                match t.seq {
                    Some(_) => (Some(spec_envelope(venue, t, conn, now)), counters),
                    None => (
                        Some(
                            spec_envelope(
                                venue,
                                TradeView { seq: Some(spec_next_seq(counters, t.symbol)), ..t },
                                conn,
                                now,
                            ),
                        ),
                        counters.insert(t.symbol, spec_next_seq(counters, t.symbol)),
                    ),
                }
            }
        },
    }
}

/// The envelopes and final counter map that a candidate list produces, in
/// order, threading the counter map through the steps.
pub open spec fn spec_process(
    cands: Seq<JsonVal>,
    symbols: Seq<Seq<char>>,
    counters: Map<Seq<char>, u64>,
    venue: Seq<char>,
    conn: u64,
    now: u128,
) -> (Seq<EnvelopeView>, Map<Seq<char>, u64>)
    decreases cands.len(),
{
    if cands.len() == 0 {
        (Seq::empty(), counters)
    } else {
        let stp = spec_step(cands[0], symbols, counters, venue, conn, now);
        let rest = spec_process(cands.drop_first(), symbols, stp.1, venue, conn, now);
        (
            match stp.0 {
                Some(e) => seq![e] + rest.0,
                None => rest.0,
            },
            rest.1,
        )
    }
}

/// Processing a list and then one more candidate is one more step on the
/// list's outcome.
pub proof fn lemma_process_snoc(
    cands: Seq<JsonVal>,
    x: JsonVal,
    symbols: Seq<Seq<char>>,
    counters: Map<Seq<char>, u64>,
    venue: Seq<char>,
    conn: u64,
    now: u128,
)
    ensures
        spec_process(cands.push(x), symbols, counters, venue, conn, now).0 == ({
            let pre = spec_process(cands, symbols, counters, venue, conn, now);
            let stp = spec_step(x, symbols, pre.1, venue, conn, now);
            match stp.0 {
                Some(e) => pre.0.push(e),
                None => pre.0,
            }
        }),
        spec_process(cands.push(x), symbols, counters, venue, conn, now).1 == spec_step(
            x,
            symbols,
            spec_process(cands, symbols, counters, venue, conn, now).1,
            venue,
            conn,
            now,
        ).1,
    decreases cands.len(),
{
    if cands.len() == 0 {
        assert(cands.push(x)[0] == x);
        assert(cands.push(x).drop_first().len() == 0);
        let pre = spec_process(cands, symbols, counters, venue, conn, now);
        assert(pre.0 == Seq::<EnvelopeView>::empty() && pre.1 == counters);
        let stp = spec_step(x, symbols, counters, venue, conn, now);
        let rest = spec_process(cands.push(x).drop_first(), symbols, stp.1, venue, conn, now);
        assert(rest.0 == Seq::<EnvelopeView>::empty() && rest.1 == stp.1);
        let whole = spec_process(cands.push(x), symbols, counters, venue, conn, now);
        assert(whole.1 == rest.1);
        if stp.0 is Some {
            let e = stp.0->Some_0;
            assert(whole.0 == seq![e] + rest.0);
            assert(seq![e] + Seq::<EnvelopeView>::empty() =~= Seq::<EnvelopeView>::empty().push(
                e,
            ));
        } else {
            assert(whole.0 == rest.0);
        }
    } else {
        let full = cands.push(x);
        let stp0 = spec_step(cands[0], symbols, counters, venue, conn, now);
        lemma_process_snoc(cands.drop_first(), x, symbols, stp0.1, venue, conn, now);
        assert(full[0] == cands[0]);
        assert(full.drop_first() =~= cands.drop_first().push(x));
        let pre2 = spec_process(cands.drop_first(), symbols, stp0.1, venue, conn, now);
        let stp = spec_step(x, symbols, pre2.1, venue, conn, now);
        let pre = spec_process(cands, symbols, counters, venue, conn, now);
        let restfull = spec_process(full.drop_first(), symbols, stp0.1, venue, conn, now);
        let whole = spec_process(full, symbols, counters, venue, conn, now);
        assert(pre.1 == pre2.1);
        assert(restfull.1 == stp.1);
        assert(whole.1 == restfull.1);
        if stp0.0 is Some {
            let e0 = stp0.0->Some_0;
            assert(pre.0 == seq![e0] + pre2.0);
            assert(whole.0 == seq![e0] + restfull.0);
            if stp.0 is Some {
                let e = stp.0->Some_0;
                assert(restfull.0 == pre2.0.push(e));
                assert(seq![e0] + pre2.0.push(e) =~= (seq![e0] + pre2.0).push(e));
            } else {
                assert(restfull.0 == pre2.0);
            }
        } else {
            assert(pre.0 == pre2.0);
            assert(whole.0 == restfull.0);
        }
    }
}

/// Whether the symbol list holds `s`.
pub fn contains_string(v: &Vec<String>, s: &str) -> (r: bool)
    ensures
        r == symbol_views(v@).contains(s@),
{
    let mut i: usize = 0;
    #[verifier::loop_isolation(false)]
    while i < v.len()
        invariant
            i <= v@.len(),
            forall|j: int| 0 <= j < i ==> v@[j]@ != s@,
        decreases v@.len() - i,
    {
        if str_eq(v[i].as_str(), s) {
            proof {
                assert(symbol_views(v@)[i as int] == s@);
            }
            return true;
        }
        i = i + 1;
    }
    proof {
        assert forall|j: int| 0 <= j < symbol_views(v@).len() implies #[trigger] symbol_views(
            v@,
        )[j] != s@ by {
            assert(symbol_views(v@)[j] == v@[j]@);
        }
    }
    false
}

/// Runs one raw message through the pipeline: the returned envelopes are, in
/// order, exactly what the candidate steps produce, and the counter map ends
/// as the steps leave it. `now` stamps both the gateway timestamp and any
/// unknown exchange timestamp of this frame.
pub fn process_frame(
    v: &JsonVal,
    symbols: &Vec<String>,
    state: &mut SequenceState,
    venue: &str,
    src_conn_id: u64,
    now: u128,
) -> (r: Vec<TradeEnvelope>)
    requires
        spec_flatten(*v).len() < u64::MAX,
        forall|k: Seq<char>| #[trigger]
            old(state)@.contains_key(k) ==> old(state)@[k] + spec_flatten(*v).len() <= u64::MAX,
    ensures
        env_views(r@) == spec_process(
            spec_flatten(*v),
            symbol_views(symbols@),
            old(state)@,
            venue@,
            src_conn_id,
            now,
        ).0,
        final(state)@ == spec_process(
            spec_flatten(*v),
            symbol_views(symbols@),
            old(state)@,
            venue@,
            src_conn_id,
            now,
        ).1,
{
    let ghost cvs: Seq<JsonVal> = spec_flatten(*v);
    let ghost svs: Seq<Seq<char>> = symbol_views(symbols@);
    let ghost c0: Map<Seq<char>, u64> = old(state)@;
    let cands = flatten_trade_items(v);
    let mut out: Vec<TradeEnvelope> = Vec::new();
    proof {
        assert(cvs.take(0) =~= Seq::<JsonVal>::empty());
        assert(env_views(out@) =~= Seq::<EnvelopeView>::empty());
    }
    let mut i: usize = 0;
    #[verifier::loop_isolation(false)]
    while i < cands.len()
        invariant
            i <= cands@.len(),
            env_views(out@) == spec_process(cvs.take(i as int), svs, c0, venue@, src_conn_id, now).0,
            state@ == spec_process(cvs.take(i as int), svs, c0, venue@, src_conn_id, now).1,
            forall|k: Seq<char>| #[trigger]
                state@.contains_key(k) ==> state@[k] + (cvs.len() - i) <= u64::MAX,
        decreases cands@.len() - i,
    {
        let ghost pre = spec_process(cvs.take(i as int), svs, c0, venue@, src_conn_id, now);
        let ghost stp = spec_step(cvs[i as int], svs, pre.1, venue@, src_conn_id, now);
        proof {
            lemma_process_snoc(cvs.take(i as int), cvs[i as int], svs, c0, venue@, src_conn_id, now);
            assert(cvs.take(i as int + 1) =~= cvs.take(i as int).push(cvs[i as int]));
        }
        let cand: &JsonVal = cands[i];
        match extract_trade(cand, now) {
            None => {},
            Some(te) => {
                let mut te = te;
                if contains_string(symbols, te.symbol.as_str()) {
                    if te.seq.is_none() {
                        let n = state.next_seq(te.symbol.as_str());
                        te.seq = Some(n);
                        proof {
                            assert(te@ =~= TradeView {
                                seq: Some(spec_next_seq(pre.1, te.symbol@)),
                                ..spec_extract(cvs[i as int], now)->Some_0
                            });
                        }
                    }
                    let ghost prev_out = out@;
                    let env = TradeEnvelope::from_trade_event_at(venue, te, src_conn_id, now);
                    out.push(env);
                    proof {
                        assert(env_views(out@) =~= env_views(prev_out).push(env@));
                        assert(env_views(out@) =~= pre.0.push(stp.0->Some_0));
                    }
                }
            },
        }
        i = i + 1;
    }
    proof {
        assert(cvs.take(cands@.len() as int) =~= cvs);
    }
    out
}

/// Local sequence assignment: a subscribed trade that carries no sequence
/// number of its own gets the assigner's next value for its symbol — one
/// past the stored counter, 1 on the symbol's first trade — and exactly
/// that symbol's counter advances to the assigned value.
pub proof fn lemma_local_assignment(
    cand: JsonVal,
    symbols: Seq<Seq<char>>,
    counters: Map<Seq<char>, u64>,
    venue: Seq<char>,
    conn: u64,
    now: u128,
)
    requires
        spec_extract(cand, now) is Some,
        spec_extract(cand, now)->Some_0.seq is None,
        symbols.contains(spec_extract(cand, now)->Some_0.symbol),
    ensures
        spec_step(cand, symbols, counters, venue, conn, now).0 matches Some(e) && e.seq
            == spec_next_seq(counters, spec_extract(cand, now)->Some_0.symbol),
        spec_step(cand, symbols, counters, venue, conn, now).1 == counters.insert(
            spec_extract(cand, now)->Some_0.symbol,
            spec_next_seq(counters, spec_extract(cand, now)->Some_0.symbol),
        ),
{
}

/// Venue-supplied sequence passthrough: a subscribed trade that carries its
/// own sequence number yields an envelope with exactly that number, and the
/// local counter map is left untouched.
pub proof fn lemma_venue_seq_passthrough(
    cand: JsonVal,
    symbols: Seq<Seq<char>>,
    counters: Map<Seq<char>, u64>,
    venue: Seq<char>,
    conn: u64,
    now: u128,
    s: u64,
)
    requires
        spec_extract(cand, now) is Some,
        spec_extract(cand, now)->Some_0.seq == Some(s),
        symbols.contains(spec_extract(cand, now)->Some_0.symbol),
    ensures
        spec_step(cand, symbols, counters, venue, conn, now).1 == counters,
        spec_step(cand, symbols, counters, venue, conn, now).0 == Some(
            spec_envelope(venue, spec_extract(cand, now)->Some_0, conn, now),
        ),
        spec_step(cand, symbols, counters, venue, conn, now).0->Some_0.seq == s,
{
}

} // verus!
