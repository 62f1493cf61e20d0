//! Configuration-surface logic: the mode selector, the comma-separated
//! symbol list, the subscription message, and the connection identity. The
//! boundary code reads the raw option strings from the environment and hands
//! them here untouched.

use vstd::prelude::*;
use vstd::string::StringExecFns;
use crate::json::str_eq;
use crate::numfmt::push_char;
use crate::timeunit::now_ns;
use crate::wire::{push_escaped, spec_escape};

verus! {

/// The option values that select synthetic mode.
pub open spec fn spec_is_mock(s: Seq<char>) -> bool {
    s == "1"@ || s == "true"@ || s == "TRUE"@ || s == "yes"@
}

/// Whether the mode selector asks for synthetic mode.
pub fn is_mock_mode(s: &str) -> (r: bool)
    ensures
        r == spec_is_mock(s@),
{
    str_eq(s, "1") || str_eq(s, "true") || str_eq(s, "TRUE") || str_eq(s, "yes")
}

/// The whitespace stripped around each symbol.
pub open spec fn spec_is_space(c: char) -> bool {
    c == ' ' || c == '\t' || c == '\n' || c == '\r'
}

/// `t` without its leading whitespace.
pub open spec fn spec_trim_front(t: Seq<char>) -> Seq<char>
    decreases t.len(),
{
    if t.len() > 0 && spec_is_space(t[0]) {
        spec_trim_front(t.drop_first())
    } else {
        t
    }
}

/// `t` without its trailing whitespace.
pub open spec fn spec_trim_back(t: Seq<char>) -> Seq<char>
    decreases t.len(),
{
    if t.len() > 0 && spec_is_space(t[t.len() - 1]) {
        spec_trim_back(t.drop_last())
    } else {
        t
    }
}

/// `t` without leading and trailing whitespace.
pub open spec fn spec_trim(t: Seq<char>) -> Seq<char> {
    spec_trim_back(spec_trim_front(t))
}

/// The comma-separated fields of `s`, given the field text `cur` read so
/// far: commas split, and the text between two commas (or around them) is
/// one field, empty fields included.
pub open spec fn spec_fields(s: Seq<char>, cur: Seq<char>) -> Seq<Seq<char>>
    decreases s.len(),
{
    if s.len() == 0 {
        seq![cur]
    } else if s[0] == ',' {
        seq![cur] + spec_fields(s.drop_first(), Seq::empty())
    } else {
        spec_fields(s.drop_first(), cur.push(s[0]))
    }
}

/// The symbol list a raw option string parses to: the comma-separated
/// fields, each trimmed, with empty entries dropped.
pub open spec fn spec_parse_symbols(s: Seq<char>) -> Seq<Seq<char>> {
    spec_fields(s, Seq::empty()).map_values(|f: Seq<char>| spec_trim(f)).filter(
        |f: Seq<char>| f.len() != 0,
    )
}

/// Whether `c` is stripped by trimming.
fn is_space(c: char) -> (r: bool)
    ensures
        r == spec_is_space(c),
{
    c == ' ' || c == '\t' || c == '\n' || c == '\r'
}

/// Trims whitespace from both ends.
fn trim_str(s: &str) -> (r: String)
    ensures
        r@ == spec_trim(s@),
{
    let n = s.unicode_len();
    let mut start: usize = 0;
    proof {
        assert(s@.skip(0) =~= s@);
    }
    #[verifier::loop_isolation(false)]
    while start < n && is_space(s.get_char(start))
        invariant
            start <= s@.len(),
            spec_trim_front(s@) == spec_trim_front(s@.skip(start as int)),
        decreases s@.len() - start,
    {
        proof {
            assert(s@.skip(start as int)[0] == s@[start as int]);
            assert(s@.skip(start as int).drop_first() =~= s@.skip(start as int + 1));
        }
        start = start + 1;
    }
    proof {
        assert(spec_trim_front(s@) == s@.skip(start as int));
    }
    let mut end: usize = n;
    #[verifier::loop_isolation(false)]
    while end > start && is_space(s.get_char(end - 1))
        invariant
            start <= end <= s@.len(),
            spec_trim_back(s@.skip(start as int)) == spec_trim_back(
                s@.subrange(start as int, end as int),
            ),
        decreases end,
    {
        proof {
            let sub = s@.subrange(start as int, end as int);
            assert(sub[sub.len() - 1] == s@[end - 1]);
            assert(sub.drop_last() =~= s@.subrange(start as int, end as int - 1));
        }
        end = end - 1;
    }
    proof {
        let sub = s@.subrange(start as int, end as int);
        if end > start {
            assert(sub[sub.len() - 1] == s@[end - 1]);
        }
        assert(spec_trim_back(sub) == sub);
        assert(s@.skip(start as int) =~= s@.subrange(start as int, s@.len() as int));
    }
    s.substring_char(start, end).to_owned()
}

/// Splits on commas, keeping every field, in order.
fn split_commas(s: &str) -> (r: Vec<String>)
    ensures
        r@.map_values(|x: String| x@) == spec_fields(s@, Seq::<char>::empty()),
{
    let n = s.unicode_len();
    let mut out: Vec<String> = Vec::new();
    let mut cur: String = String::new();
    let mut i: usize = 0;
    proof {
        assert(s@.skip(0) =~= s@);
        assert(out@.map_values(|x: String| x@) =~= Seq::<Seq<char>>::empty());
    }
    #[verifier::loop_isolation(false)]
    while i < n
        invariant
            i <= s@.len(),
            spec_fields(s@, Seq::<char>::empty()) == out@.map_values(|x: String| x@)
                + spec_fields(s@.skip(i as int), cur@),
        decreases s@.len() - i,
    {
        let c = s.get_char(i);
        let ghost prev_out = out@;
        let ghost prev_cur = cur@;
        proof {
            assert(s@.skip(i as int)[0] == s@[i as int]);
            assert(s@.skip(i as int).drop_first() =~= s@.skip(i as int + 1));
        }
        if c == ',' {
            out.push(cur);
            cur = String::new();
            proof {
                assert(out@.map_values(|x: String| x@) =~= prev_out.map_values(
                    |x: String| x@,
                ).push(prev_cur));
                assert(prev_out.map_values(|x: String| x@) + (seq![prev_cur] + spec_fields(
                    s@.skip(i as int + 1),
                    cur@,
                )) =~= out@.map_values(|x: String| x@) + spec_fields(s@.skip(i as int + 1), cur@));
            }
        } else {
            push_char(&mut cur, c);
            proof {
                assert(cur@ =~= prev_cur.push(c));
            }
        }
        i = i + 1;
    }
    let ghost prev_out = out@;
    let ghost prev_cur = cur@;
    out.push(cur);
    proof {
        assert(s@.skip(i as int) =~= Seq::<char>::empty());
        assert(spec_fields(Seq::<char>::empty(), prev_cur) == seq![prev_cur]);
        assert(out@.map_values(|x: String| x@) =~= prev_out.map_values(|x: String| x@).push(
            prev_cur,
        ));
        assert(prev_out.map_values(|x: String| x@) + seq![prev_cur] =~= out@.map_values(
            |x: String| x@,
        ));
    }
    out
}

/// Parses the comma-separated symbol list: fields are trimmed and empty
/// entries dropped, order kept.
pub fn parse_symbols(s: &str) -> (r: Vec<String>)
    ensures
        r@.map_values(|x: String| x@) == spec_parse_symbols(s@),
{
    let raw = split_commas(s);
    let ghost fv = raw@.map_values(|x: String| x@);
    let ghost tv = fv.map_values(|f: Seq<char>| spec_trim(f));
    let mut out: Vec<String> = Vec::new();
    let mut j: usize = 0;
    proof {
        assert(fv.take(0).map_values(|f: Seq<char>| spec_trim(f)) =~= Seq::<Seq<char>>::empty());
        reveal(Seq::filter);
        assert(out@.map_values(|x: String| x@) =~= fv.take(0).map_values(
            |f: Seq<char>| spec_trim(f),
        ).filter(|f: Seq<char>| f.len() != 0));
    }
    #[verifier::loop_isolation(false)]
    while j < raw.len()
        invariant
            j <= raw@.len(),
            out@.map_values(|x: String| x@) == fv.take(j as int).map_values(
                |f: Seq<char>| spec_trim(f),
            ).filter(|f: Seq<char>| f.len() != 0),
        decreases raw@.len() - j,
    {
        let t = trim_str(raw[j].as_str());
        let ghost prefix = fv.take(j as int).map_values(|f: Seq<char>| spec_trim(f));
        proof {
            assert(fv.take(j as int + 1) =~= fv.take(j as int).push(fv[j as int]));
            assert(fv.take(j as int + 1).map_values(|f: Seq<char>| spec_trim(f)) =~= prefix.push(
                spec_trim(fv[j as int]),
            ));
            reveal(Seq::filter);
            assert(prefix.push(t@).drop_last() =~= prefix);
        }
        let ghost prev_out = out@;
        if !t.as_str().is_empty() {
            out.push(t);
            proof {
                assert(out@.map_values(|x: String| x@) =~= prev_out.map_values(
                    |x: String| x@,
                ).push(spec_trim(fv[j as int])));
            }
        }
        j = j + 1;
    }
    proof {
        assert(fv.take(raw@.len() as int) =~= fv);
    }
    out
}

/// The JSON array of the symbol names, for the subscription request.
pub open spec fn spec_symbols_json(syms: Seq<Seq<char>>) -> Seq<char> {
    "["@ + spec_join_quoted(syms) + "]"@
}

/// The comma-separated quoted symbol names.
pub open spec fn spec_join_quoted(syms: Seq<Seq<char>>) -> Seq<char>
    decreases syms.len(),
{
    if syms.len() == 0 {
        Seq::empty()
    } else if syms.len() == 1 {
        "\""@ + spec_escape(syms[0]) + "\""@
    } else {
        spec_join_quoted(syms.drop_last()) + ","@ + "\""@ + spec_escape(syms.last()) + "\""@
    }
}

/// Renders the symbol list as a JSON array of strings.
pub fn symbols_json(symbols: &Vec<String>) -> (r: String)
    ensures
        r@ == spec_symbols_json(symbols@.map_values(|s: String| s@)),
{
    let ghost sv = symbols@.map_values(|s: String| s@);
    let mut out: String = "[".to_owned();
    let mut j: usize = 0;
    proof {
        assert(sv.take(0) =~= Seq::<Seq<char>>::empty());
        assert(out@ =~= "["@ + spec_join_quoted(sv.take(0)));
    }
    #[verifier::loop_isolation(false)]
    while j < symbols.len()
        invariant
            j <= symbols@.len(),
            out@ == "["@ + spec_join_quoted(sv.take(j as int)),
        decreases symbols@.len() - j,
    {
        if j > 0 {
            out.append(",");
        }
        out.append("\"");
        push_escaped(symbols[j].as_str(), &mut out);
        out.append("\"");
        proof {
            assert(sv.take(j as int + 1).drop_last() =~= sv.take(j as int));
            assert(sv.take(j as int + 1).last() == sv[j as int]);
            assert(out@ =~= "["@ + spec_join_quoted(sv.take(j as int + 1)));
        }
        j = j + 1;
    }
    out.append("]");
    proof {
        assert(sv.take(symbols@.len() as int) =~= sv);
        assert(out@ =~= spec_symbols_json(sv));
    }
    out
}

/// One subscription entry of the default request.
pub open spec fn spec_sub_entry(sym: Seq<char>) -> Seq<char> {
    "{\"channel\":\"trades\",\"symbol\":\""@ + spec_escape(sym) + "\"}"@
}

/// The comma-separated subscription entries.
pub open spec fn spec_join_subs(syms: Seq<Seq<char>>) -> Seq<char>
    decreases syms.len(),
{
    if syms.len() == 0 {
        Seq::empty()
    } else if syms.len() == 1 {
        spec_sub_entry(syms[0])
    } else {
        spec_join_subs(syms.drop_last()) + ","@ + spec_sub_entry(syms.last())
    }
}

/// The default subscription request: one entry per symbol on the `trades`
/// channel.
pub open spec fn spec_default_subscribe(syms: Seq<Seq<char>>) -> Seq<char> {
    "{\"method\":\"subscribe\",\"subscriptions\":["@ + spec_join_subs(syms) + "]}"@
}

/// What `str::replace` returns for a haystack, pattern and replacement.
pub uninterp spec fn replaced(s: Seq<char>, pat: Seq<char>, sub: Seq<char>) -> Seq<char>;

/// Relies on `str::replace`: every occurrence of the pattern is replaced;
/// the result depends on the three arguments alone.
#[verifier::external_body]
fn replace_all(s: &str, pat: &str, sub: &str) -> (r: String)
    ensures
        r@ == replaced(s@, pat@, sub@),
{
    s.replace(pat, sub)
}

/// Builds the subscription request: a supplied template has its symbol
/// placeholder replaced by the JSON symbol array; with no template the
/// default request is built.
pub fn build_subscribe_msg(template: Option<&str>, symbols: &Vec<String>) -> (r: String)
    ensures
        match template {
            Some(t) => r@ == replaced(
                t@,
                "$SYMBOLS"@,
                spec_symbols_json(symbols@.map_values(|s: String| s@)),
            ),
            None => r@ == spec_default_subscribe(symbols@.map_values(|s: String| s@)),
        },
{
    match template {
        Some(t) => {
            let arr = symbols_json(symbols);
            replace_all(t, "$SYMBOLS", arr.as_str())
        },
        None => {
            let ghost sv = symbols@.map_values(|s: String| s@);
            let mut out: String = "{\"method\":\"subscribe\",\"subscriptions\":[".to_owned();
            let mut j: usize = 0;
            proof {
                assert(sv.take(0) =~= Seq::<Seq<char>>::empty());
                assert(out@ =~= "{\"method\":\"subscribe\",\"subscriptions\":["@ + spec_join_subs(
                    sv.take(0),
                ));
            }
            #[verifier::loop_isolation(false)]
            while j < symbols.len()
                invariant
                    j <= symbols@.len(),
                    out@ == "{\"method\":\"subscribe\",\"subscriptions\":["@ + spec_join_subs(
                        sv.take(j as int),
                    ),
                decreases symbols@.len() - j,
            {
                if j > 0 {
                    out.append(",");
                }
                out.append("{\"channel\":\"trades\",\"symbol\":\"");
                push_escaped(symbols[j].as_str(), &mut out);
                out.append("\"}");
                proof {
                    assert(sv.take(j as int + 1).drop_last() =~= sv.take(j as int));
                    assert(sv.take(j as int + 1).last() == sv[j as int]);
                    assert(out@ =~= "{\"method\":\"subscribe\",\"subscriptions\":["@
                        + spec_join_subs(sv.take(j as int + 1)));
                }
                j = j + 1;
            }
            out.append("]}");
            proof {
                assert(sv.take(symbols@.len() as int) =~= sv);
                assert(out@ =~= spec_default_subscribe(sv));
            }
            out
        },
    }
}

/// Relies on `uuid::Uuid::new_v4` (and `Uuid::as_u128`): a fresh random
/// identifier; nothing is promised of its value.
#[verifier::external_body]
fn fresh_entropy() -> u64 {
    (uuid::Uuid::new_v4().as_u128()) as u64
}

/// Mixes the wall clock's low bits with fresh entropy.
pub fn make_conn_id(now_low: u64, entropy: u64) -> (r: u64)
    ensures
        r == now_low ^ entropy,
{
    now_low ^ entropy
}

/// A fresh connection identity: the wall clock's low 64 bits mixed with
/// fresh randomness. Downstream consumers use it to tell one connection's
/// stream from another's, so no value is promised of it.
pub fn new_conn_id() -> u64 {
    let now = now_ns();
    let low: u64 = (now % 18_446_744_073_709_551_616u128) as u64;
    make_conn_id(low, fresh_entropy())
}

} // verus!
