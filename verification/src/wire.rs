//! The wire form of a trade envelope: the JSON object, with its eleven
//! fields in their durable order, that the publication path hands to the
//! log. Price and quantity are floating-point numbers on the wire, so their
//! rendered text is supplied by the boundary code; everything else is
//! rendered and escaped here.

use vstd::prelude::*;
use vstd::string::StringExecFns;
use crate::envelope::{EnvelopeView, TradeEnvelope};
use crate::numfmt::{push_char, spec_dec};

verus! {

/// How one character is written inside a JSON string: quote, backslash and
/// the common control characters get a backslash escape, everything else
/// stands as itself.
pub open spec fn spec_escape_char(c: char) -> Seq<char> {
    if c == '"' {
        seq!['\\', '"']
    } else if c == '\\' {
        seq!['\\', '\\']
    } else if c == '\n' {
        seq!['\\', 'n']
    } else if c == '\r' {
        seq!['\\', 'r']
    } else if c == '\t' {
        seq!['\\', 't']
    } else {
        seq![c]
    }
}

/// A character sequence written inside a JSON string.
pub open spec fn spec_escape(s: Seq<char>) -> Seq<char>
    decreases s.len(),
{
    if s.len() == 0 {
        Seq::empty()
    } else {
        spec_escape_char(s[0]) + spec_escape(s.drop_first())
    }
}

/// Escaping one more character appends its escape.
proof fn lemma_escape_snoc(s: Seq<char>, c: char)
    ensures
        spec_escape(s.push(c)) == spec_escape(s) + spec_escape_char(c),
    decreases s.len(),
{
    if s.len() == 0 {
        assert(s.push(c)[0] == c);
        assert(s.push(c).drop_first() =~= Seq::<char>::empty());
        assert(spec_escape(s.push(c).drop_first()) =~= Seq::<char>::empty());
        assert(spec_escape(s.push(c)) =~= spec_escape(s) + spec_escape_char(c));
    } else {
        lemma_escape_snoc(s.drop_first(), c);
        assert(s.push(c)[0] == s[0]);
        assert(s.push(c).drop_first() =~= s.drop_first().push(c));
        assert(spec_escape_char(s[0]) + (spec_escape(s.drop_first()) + spec_escape_char(c)) =~= (
        spec_escape_char(s[0]) + spec_escape(s.drop_first())) + spec_escape_char(c));
    }
}

/// Appends `s` with JSON string escaping.
pub(crate) fn push_escaped(s: &str, out: &mut String)
    ensures
        final(out)@ == old(out)@ + spec_escape(s@),
{
    let n = s.unicode_len();
    let mut i: usize = 0;
    proof {
        assert(s@.take(0) =~= Seq::<char>::empty());
        assert(out@ =~= old(out)@ + spec_escape(s@.take(0)));
    }
    #[verifier::loop_isolation(false)]
    while i < n
        invariant
            i <= s@.len(),
            out@ == old(out)@ + spec_escape(s@.take(i as int)),
        decreases s@.len() - i,
    {
        let c = s.get_char(i);
        if c == '"' {
            out.append("\\\"");
            proof {
                reveal_strlit("\\\"");
                assert(("\\\"")@ =~= spec_escape_char(c));
            }
        } else if c == '\\' {
            out.append("\\\\");
            proof {
                reveal_strlit("\\\\");
                assert(("\\\\")@ =~= spec_escape_char(c));
            }
        } else if c == '\n' {
            out.append("\\n");
            proof {
                reveal_strlit("\\n");
                assert(("\\n")@ =~= spec_escape_char(c));
            }
        } else if c == '\r' {
            out.append("\\r");
            proof {
                reveal_strlit("\\r");
                assert(("\\r")@ =~= spec_escape_char(c));
            }
        } else if c == '\t' {
            out.append("\\t");
            proof {
                reveal_strlit("\\t");
                assert(("\\t")@ =~= spec_escape_char(c));
            }
        } else {
            push_char(out, c);
            proof {
                assert(seq![c] =~= spec_escape_char(c));
            }
        }
        proof {
            lemma_escape_snoc(s@.take(i as int), c);
            assert(s@.take(i as int + 1) =~= s@.take(i as int).push(c));
            assert(out@ =~= old(out)@ + spec_escape(s@.take(i as int + 1)));
        }
        i = i + 1;
    }
    proof {
        assert(s@.take(s@.len() as int) =~= s@);
    }
}

/// The wire text of an envelope, given the rendered price and quantity:
/// one JSON object holding, in order, venue, symbol, channel, seq,
/// ts_exchange, ts_gateway, px, qty, aggressor, trade_id and src_conn_id.
pub open spec fn spec_wire_json(e: EnvelopeView, px: Seq<char>, qty: Seq<char>) -> Seq<char> {
    "{\"venue\":\""@ + spec_escape(e.venue) + "\",\"symbol\":\""@ + spec_escape(e.symbol)
        + "\",\"channel\":\""@ + spec_escape(e.channel) + "\",\"seq\":"@ + spec_dec(e.seq as nat)
        + ",\"ts_exchange\":"@ + spec_dec(e.ts_exchange as nat) + ",\"ts_gateway\":"@ + spec_dec(
        e.ts_gateway as nat,
    ) + ",\"px\":"@ + px + ",\"qty\":"@ + qty + ",\"aggressor\":\""@ + spec_escape(e.aggressor)
        + "\",\"trade_id\":\""@ + spec_escape(e.trade_id) + "\",\"src_conn_id\":"@ + spec_dec(
        e.src_conn_id as nat,
    ) + "}"@
}

/// Renders the envelope's wire JSON. `px` and `qty` are the decimal texts
/// of the price and quantity, rendered by the boundary code from the bit
/// patterns the envelope carries.
pub fn envelope_wire_json(e: &TradeEnvelope, px: &str, qty: &str) -> (r: String)
    ensures
        r@ == spec_wire_json(e@, px@, qty@),
{
    let mut out: String = "{\"venue\":\"".to_owned();
    push_escaped(e.venue.as_str(), &mut out);
    out.append("\",\"symbol\":\"");
    push_escaped(e.symbol.as_str(), &mut out);
    out.append("\",\"channel\":\"");
    push_escaped(e.channel.as_str(), &mut out);
    out.append("\",\"seq\":");
    crate::numfmt::push_dec(e.seq as u128, &mut out);
    out.append(",\"ts_exchange\":");
    crate::numfmt::push_dec(e.ts_exchange, &mut out);
    out.append(",\"ts_gateway\":");
    crate::numfmt::push_dec(e.ts_gateway, &mut out);
    out.append(",\"px\":");
    out.append(px);
    out.append(",\"qty\":");
    out.append(qty);
    out.append(",\"aggressor\":\"");
    push_escaped(e.aggressor.as_str(), &mut out);
    out.append("\",\"trade_id\":\"");
    push_escaped(e.trade_id.as_str(), &mut out);
    out.append("\",\"src_conn_id\":");
    crate::numfmt::push_dec(e.src_conn_id as u128, &mut out);
    out.append("}");
    proof {
        assert(out@ =~= spec_wire_json(e@, px@, qty@));
    }
    out
}

} // verus!
