//! Script and command replies: the values a Redis server sends back, and
//! the decoders that read plain data out of them.
use vstd::prelude::*;
use crate::text::{parse_i64, spec_parse_i64};

verus! {

/// A value as the Redis server replies it, with the shapes that the
/// decoders of this library tell apart.
#[derive(Debug)]
pub enum RespValue {
    /// The nil reply.
    Nil,
    /// An integer reply.
    Int(i64),
    /// A binary-safe string reply.
    BulkString(Vec<u8>),
    /// A status string reply.
    SimpleString(String),
    /// An array reply.
    Array(Vec<RespValue>),
    /// The `OK` status reply.
    Okay,
    /// Any other reply shape (maps, sets, doubles, errors, ...).
    Other,
}

/// The text that `String::from_utf8_lossy` makes of `bytes`: valid UTF-8
/// decoded, each invalid sequence replaced by U+FFFD.
pub uninterp spec fn utf8_lossy(bytes: Seq<u8>) -> Seq<char>;

/// Decodes bytes as UTF-8, replacing invalid sequences
/// (`String::from_utf8_lossy`). The contract names the result
/// `utf8_lossy(bytes)`; what that text is was not stated.
#[verifier::external_body]
pub(crate) fn bytes_to_string_lossy(bytes: &Vec<u8>) -> (r: String)
    ensures
        r@ == utf8_lossy(bytes@),
{
    String::from_utf8_lossy(bytes.as_slice()).to_string()
}

/// The text of a string reply, `None` for any other shape.
pub open spec fn reply_text(v: RespValue) -> Option<Seq<char>> {
    match v {
        RespValue::BulkString(b) => Some(utf8_lossy(b@)),
        RespValue::SimpleString(s) => Some(s@),
        _ => None,
    }
}

/// The text of a string reply (bulk strings decoded leniently as UTF-8),
/// `None` for any other shape.
pub fn value_to_string(value: &RespValue) -> (r: Option<String>)
    ensures
        match r {
            Some(s) => reply_text(*value) == Some(s@),
            None => reply_text(*value) is None,
        },
{
    match value {
        RespValue::BulkString(b) => Some(bytes_to_string_lossy(b)),
        RespValue::SimpleString(s) => Some(s.clone()),
        _ => None,
    }
}

/// The integer read from a reply: integer replies as they are, string
/// replies parsed as decimal `i64`, and 0 for anything else or text that
/// does not parse.
pub open spec fn reply_i64(v: RespValue) -> i64 {
    match v {
        RespValue::Int(i) => i,
        RespValue::BulkString(b) => match spec_parse_i64(utf8_lossy(b@)) {
            Some(i) => i,
            None => 0,
        },
        RespValue::SimpleString(s) => match spec_parse_i64(s@) {
            Some(i) => i,
            None => 0,
        },
        _ => 0,
    }
}

/// Reads an integer out of a reply (see `reply_i64`).
pub fn value_to_i64(value: &RespValue) -> (r: i64)
    ensures
        r == reply_i64(*value),
{
    match value {
        RespValue::Int(i) => *i,
        RespValue::BulkString(b) => {
            let s = bytes_to_string_lossy(b);
            match parse_i64(s.as_str()) {
                Some(i) => i,
                None => 0,
            }
        },
        RespValue::SimpleString(s) => match parse_i64(s.as_str()) {
            Some(i) => i,
            None => 0,
        },
        _ => 0,
    }
}


/// The views of a list of string pairs.
pub open spec fn pairs_view(v: Seq<(String, String)>) -> Seq<(Seq<char>, Seq<char>)> {
    Seq::new(v.len(), |i: int| (v[i].0@, v[i].1@))
}

/// The field-value pairs of a flat reply list `[k1, v1, k2, v2, ...]`, as
/// read by stream entries and `HGETALL`-style replies: a pair whose key is
/// not a string is skipped, a value that is not a string reads as empty,
/// and a trailing key without value is dropped.
pub open spec fn reply_pairs(items: Seq<RespValue>) -> Seq<(Seq<char>, Seq<char>)>
    decreases items.len(),
{
    if items.len() < 2 {
        Seq::empty()
    } else {
        let rest = reply_pairs(items.skip(2));
        match reply_text(items[0]) {
            Some(k) => {
                let v = match reply_text(items[1]) {
                    Some(v) => v,
                    None => Seq::empty(),
                };
                seq![(k, v)] + rest
            },
            None => rest,
        }
    }
}

/// A flat list of string replies `[k1, v1, k2, v2, ...]` reads as the pairs
/// `(k1, v1), (k2, v2), ...`, in order.
pub proof fn lemma_reply_pairs_of_strings(items: Seq<RespValue>)
    requires
        items.len() % 2 == 0,
        forall|i: int| 0 <= i < items.len() ==> #[trigger] reply_text(items[i]) is Some,
    ensures
        reply_pairs(items).len() == items.len() / 2,
        forall|i: int| 0 <= i < items.len() / 2 ==> #[trigger] reply_pairs(items)[i] == (
            reply_text(items[2 * i])->0,
            reply_text(items[2 * i + 1])->0,
        ),
    decreases items.len(),
{
    if items.len() >= 2 {
        let rest = items.skip(2);
        assert forall|i: int| 0 <= i < rest.len() implies #[trigger] reply_text(rest[i]) is Some by {
            assert(rest[i] == items[i + 2]);
        }
        lemma_reply_pairs_of_strings(rest);
        let head = (reply_text(items[0])->0, reply_text(items[1])->0);
        assert(reply_pairs(items) == seq![head] + reply_pairs(rest));
        assert forall|i: int| 0 <= i < items.len() / 2 implies #[trigger] reply_pairs(items)[i] == (
            reply_text(items[2 * i])->0,
            reply_text(items[2 * i + 1])->0,
        ) by {
            if i > 0 {
                assert(reply_pairs(items)[i] == reply_pairs(rest)[i - 1]);
                assert(rest[2 * (i - 1)] == items[2 * i]);
                assert(rest[2 * (i - 1) + 1] == items[2 * i + 1]);
            }
        }
    }
}

/// Decodes the field-value pairs of `items[start..]` (see `reply_pairs`).
pub fn decode_pairs(items: &Vec<RespValue>, start: usize) -> (r: Vec<(String, String)>)
    requires
        start <= items@.len(),
    ensures
        pairs_view(r@) == reply_pairs(items@.skip(start as int)),
{
    let mut out: Vec<(String, String)> = Vec::new();
    let mut i = start;
    let n = items.len();
    while i < n && n - i > 1
        invariant
            start <= i <= n,
            n == items@.len(),
            reply_pairs(items@.skip(start as int)) == pairs_view(out@) + reply_pairs(
                items@.skip(i as int),
            ),
        decreases n - i,
    {
        let ghost tail = items@.skip(i as int);
        assert(tail.skip(2) =~= items@.skip(i + 2));
        assert(tail[0] == items@[i as int] && tail[1] == items@[i + 1]);
        match value_to_string(&items[i]) {
            Some(k) => {
                let v = match value_to_string(&items[i + 1]) {
                    Some(v) => v,
                    None => String::new(),
                };
                let ghost old_out = out@;
                out.push((k, v));
                assert(pairs_view(out@) =~= pairs_view(old_out) + seq![(out@.last().0@, out@.last().1@)]);
            },
            None => {},
        }
        i = i + 2;
    }
    assert(reply_pairs(items@.skip(i as int)) =~= Seq::empty());
    assert(pairs_view(out@) + Seq::empty() =~= pairs_view(out@));
    out
}


/// The value of field `key` in a field list, the last pair with that key
/// winning (as inserting the pairs into a map in order does).
pub open spec fn pair_value(ps: Seq<(Seq<char>, Seq<char>)>, key: Seq<char>) -> Option<Seq<char>>
    decreases ps.len(),
{
    if ps.len() == 0 {
        None
    } else if ps.last().0 == key {
        Some(ps.last().1)
    } else {
        pair_value(ps.drop_last(), key)
    }
}

/// The value of field `key`, or the empty text when absent.
pub open spec fn pair_text(ps: Seq<(Seq<char>, Seq<char>)>, key: Seq<char>) -> Seq<char> {
    match pair_value(ps, key) {
        Some(v) => v,
        None => Seq::empty(),
    }
}

/// `pair_value` of a list of string pairs.
pub open spec fn field_value(fields: Seq<(String, String)>, key: Seq<char>) -> Option<Seq<char>> {
    pair_value(pairs_view(fields), key)
}

/// `pair_text` of a list of string pairs.
pub open spec fn field_text(fields: Seq<(String, String)>, key: Seq<char>) -> Seq<char> {
    pair_text(pairs_view(fields), key)
}

/// Looks up field `key` in a field list; the last pair with that key wins.
pub fn get_field(fields: &Vec<(String, String)>, key: &str) -> (r: Option<String>)
    ensures
        match r {
            Some(v) => field_value(fields@, key@) == Some(v@),
            None => field_value(fields@, key@) is None,
        },
{
    let mut found: Option<String> = None;
    let mut i: usize = 0;
    while i < fields.len()
        invariant
            i <= fields@.len(),
            match found {
                Some(v) => field_value(fields@.take(i as int), key@) == Some(v@),
                None => field_value(fields@.take(i as int), key@) is None,
            },
        decreases fields@.len() - i,
    {
        assert(pairs_view(fields@.take(i + 1)).drop_last() =~= pairs_view(fields@.take(i as int)));
        assert(pairs_view(fields@.take(i + 1)).last() == (fields@[i as int].0@, fields@[i as int].1@));
        if crate::text::str_eq(fields[i].0.as_str(), key) {
            found = Some(fields[i].1.clone());
        }
        i = i + 1;
    }
    assert(fields@.take(i as int) =~= fields@);
    found
}

/// Field `key`, or the empty string when absent.
pub fn get_field_or_empty(fields: &Vec<(String, String)>, key: &str) -> (r: String)
    ensures
        r@ == field_text(fields@, key@),
{
    match get_field(fields, key) {
        Some(v) => v,
        None => String::new(),
    }
}

/// `ps` without the pairs whose key is `k`, the others in order.
pub open spec fn without_key(ps: Seq<(Seq<char>, Seq<char>)>, k: Seq<char>) -> Seq<(Seq<char>, Seq<char>)>
    decreases ps.len(),
{
    if ps.len() == 0 {
        Seq::empty()
    } else {
        let rest = without_key(ps.drop_last(), k);
        if ps.last().0 == k {
            rest
        } else {
            rest.push(ps.last())
        }
    }
}

/// The field list as a map reads it: each key once, with the value of its
/// last pair, keys in the order of their last pairs.
pub open spec fn last_wins(ps: Seq<(Seq<char>, Seq<char>)>) -> Seq<(Seq<char>, Seq<char>)>
    decreases ps.len(),
{
    if ps.len() == 0 {
        Seq::empty()
    } else {
        without_key(last_wins(ps.drop_last()), ps.last().0).push(ps.last())
    }
}

/// Whether no key occurs twice in a field list.
pub open spec fn keys_unique(ps: Seq<(Seq<char>, Seq<char>)>) -> bool {
    forall|i: int, j: int| 0 <= i < j < ps.len() ==> #[trigger] ps[i].0 != #[trigger] ps[j].0
}

proof fn lemma_without_key(ps: Seq<(Seq<char>, Seq<char>)>, k: Seq<char>)
    ensures
        forall|i: int| 0 <= i < without_key(ps, k).len() ==> #[trigger] without_key(ps, k)[i].0 != k,
        forall|i: int| 0 <= i < without_key(ps, k).len() ==> exists|j: int| 0 <= j < ps.len()
            && #[trigger] ps[j].0 == #[trigger] without_key(ps, k)[i].0,
        keys_unique(ps) ==> keys_unique(without_key(ps, k)),
        forall|k2: Seq<char>| #[trigger] pair_value(without_key(ps, k), k2) == if k2 == k {
            None
        } else {
            pair_value(ps, k2)
        },
    decreases ps.len(),
{
    if ps.len() > 0 {
        let init = ps.drop_last();
        lemma_without_key(init, k);
        let rest = without_key(init, k);
        let w = without_key(ps, k);
        assert forall|i: int| 0 <= i < w.len() implies exists|j: int| 0 <= j < ps.len()
            && #[trigger] ps[j].0 == #[trigger] w[i].0 by {
            if i < rest.len() {
                let j = choose|j: int| 0 <= j < init.len() && #[trigger] init[j].0 == #[trigger] rest[i].0;
                assert(ps[j] == init[j]);
            } else {
                assert(ps[ps.len() - 1].0 == w[i].0);
            }
        }
        if keys_unique(ps) {
            assert(keys_unique(init)) by {
                assert forall|i: int, j: int| 0 <= i < j < init.len() implies #[trigger] init[i].0 != #[trigger] init[j].0 by {
                    assert(init[i] == ps[i] && init[j] == ps[j]);
                }
            }
            if ps.last().0 != k {
                assert forall|i: int, j: int| 0 <= i < j < w.len() implies #[trigger] w[i].0 != #[trigger] w[j].0 by {
                    if j == w.len() - 1 {
                        let m = choose|m: int| 0 <= m < init.len() && #[trigger] init[m].0 == #[trigger] rest[i].0;
                        assert(init[m] == ps[m]);
                        assert(ps[m].0 != ps[ps.len() - 1].0);
                    } else {
                        assert(w[i] == rest[i] && w[j] == rest[j]);
                    }
                }
            }
        }
        assert forall|k2: Seq<char>| #[trigger] pair_value(w, k2) == if k2 == k {
            None
        } else {
            pair_value(ps, k2)
        } by {
            assert(pair_value(rest, k2) == if k2 == k {
                None
            } else {
                pair_value(init, k2)
            });
            if ps.last().0 != k {
                assert(w.drop_last() =~= rest);
                assert(w.last() == ps.last());
            } else {
                assert(w == rest);
            }
        }
    }
}

/// A field list read as a map holds each key once, and gives every key the
/// value that the list gives it (its last pair's).
pub proof fn lemma_last_wins(ps: Seq<(Seq<char>, Seq<char>)>)
    ensures
        keys_unique(last_wins(ps)),
        forall|k: Seq<char>| #[trigger] pair_value(last_wins(ps), k) == pair_value(ps, k),
    decreases ps.len(),
{
    if ps.len() > 0 {
        let init = ps.drop_last();
        lemma_last_wins(init);
        let prev = last_wins(init);
        lemma_without_key(prev, ps.last().0);
        let w = without_key(prev, ps.last().0);
        let l = last_wins(ps);
        assert(l.drop_last() =~= w);
        assert(l.last() == ps.last());
        assert forall|k: Seq<char>| #[trigger] pair_value(l, k) == pair_value(ps, k) by {
            assert(pair_value(w, k) == if k == ps.last().0 {
                None
            } else {
                pair_value(prev, k)
            });
            assert(pair_value(prev, k) == pair_value(init, k));
        }
        assert forall|i: int, j: int| 0 <= i < j < l.len() implies #[trigger] l[i].0 != #[trigger] l[j].0 by {
            if j == l.len() - 1 {
                assert(w[i].0 != ps.last().0);
            } else {
                assert(l[i] == w[i] && l[j] == w[j]);
            }
        }
    }
}

/// `fields` without the pairs whose key is `k`.
fn remove_key(fields: &Vec<(String, String)>, k: &str) -> (r: Vec<(String, String)>)
    ensures
        pairs_view(r@) == without_key(pairs_view(fields@), k@),
{
    let ghost pv = pairs_view(fields@);
    let mut out: Vec<(String, String)> = Vec::new();
    let mut i: usize = 0;
    assert(pv.take(0) =~= Seq::<(Seq<char>, Seq<char>)>::empty());
    assert(pairs_view(out@) =~= Seq::<(Seq<char>, Seq<char>)>::empty());
    while i < fields.len()
        invariant
            i <= fields@.len(),
            pv == pairs_view(fields@),
            pairs_view(out@) == without_key(pv.take(i as int), k@),
        decreases fields@.len() - i,
    {
        assert(pv.take(i + 1).drop_last() =~= pv.take(i as int));
        assert(pv.take(i + 1).last() == (fields@[i as int].0@, fields@[i as int].1@));
        if !crate::text::str_eq(fields[i].0.as_str(), k) {
            let ghost before = pairs_view(out@);
            out.push((fields[i].0.clone(), fields[i].1.clone()));
            assert(pairs_view(out@) =~= before.push(pv.take(i + 1).last()));
        }
        i = i + 1;
    }
    assert(pv.take(i as int) =~= pv);
    out
}

/// The field list as a map reads it (see `last_wins`).
pub fn last_wins_pairs(fields: &Vec<(String, String)>) -> (r: Vec<(String, String)>)
    ensures
        pairs_view(r@) == last_wins(pairs_view(fields@)),
{
    let ghost pv = pairs_view(fields@);
    let mut out: Vec<(String, String)> = Vec::new();
    let mut i: usize = 0;
    assert(pv.take(0) =~= Seq::<(Seq<char>, Seq<char>)>::empty());
    assert(pairs_view(out@) =~= Seq::<(Seq<char>, Seq<char>)>::empty());
    while i < fields.len()
        invariant
            i <= fields@.len(),
            pv == pairs_view(fields@),
            pairs_view(out@) == last_wins(pv.take(i as int)),
        decreases fields@.len() - i,
    {
        assert(pv.take(i + 1).drop_last() =~= pv.take(i as int));
        assert(pv.take(i + 1).last() == (fields@[i as int].0@, fields@[i as int].1@));
        let mut next = remove_key(&out, fields[i].0.as_str());
        let ghost before = pairs_view(next@);
        next.push((fields[i].0.clone(), fields[i].1.clone()));
        assert(pairs_view(next@) =~= before.push(pv.take(i + 1).last()));
        out = next;
        i = i + 1;
    }
    assert(pv.take(i as int) =~= pv);
    out
}

} // verus!
