//! Ordered key/value option lists, the representation shared by the
//! transcriber and synthesizer option sets. Keys may repeat; a lookup finds
//! the value of the earliest entry with the key.

use vstd::prelude::*;

use crate::cstring::{c_string_result, c_strings_result, check_c_string, lemma_c_strings_append, lemma_c_strings_two};
use crate::error::{Error, Result};

verus! {

/// An option list as character sequences.
pub type OptionPairs = Seq<(Seq<char>, Seq<char>)>;

/// The character-sequence view of a list of string pairs.
pub open spec fn pairs_view(v: Seq<(String, String)>) -> OptionPairs {
    v.map_values(|p: (String, String)| (p.0@, p.1@))
}

/// The value of the earliest entry of `pairs` whose key is `key`.
pub open spec fn lookup(pairs: OptionPairs, key: Seq<char>) -> Option<Seq<char>>
    decreases pairs.len(),
{
    if pairs.len() == 0 {
        None
    } else {
        match lookup(pairs.drop_last(), key) {
            Some(v) => Some(v),
            None => if pairs.last().0 == key {
                Some(pairs.last().1)
            } else {
                None
            },
        }
    }
}

/// The keys and values of `pairs` in the order they are handed to the
/// engine: first key, first value, second key, and so on.
pub open spec fn pair_strings(pairs: OptionPairs) -> Seq<Seq<char>>
    decreases pairs.len(),
{
    if pairs.len() == 0 {
        Seq::empty()
    } else {
        pair_strings(pairs.drop_last()) + seq![pairs.last().0, pairs.last().1]
    }
}

/// Adding an entry never changes the value found for a key that already
/// has one; a key without a value gets the new value exactly when it is the
/// new entry's key.
pub proof fn lemma_lookup_push(pairs: OptionPairs, key: Seq<char>, value: Seq<char>, probe: Seq<char>)
    ensures
        lookup(pairs.push((key, value)), probe) == (match lookup(pairs, probe) {
            Some(v) => Some(v),
            None => if probe == key {
                Some(value)
            } else {
                None
            },
        }),
{
    assert(pairs.push((key, value)).drop_last() =~= pairs);
}

/// Once a prefix holds the key, the lookup in the whole list is the lookup
/// in that prefix.
proof fn lemma_lookup_prefix(pairs: OptionPairs, key: Seq<char>, k: int)
    requires
        0 <= k <= pairs.len(),
        lookup(pairs.take(k), key) is Some,
    ensures
        lookup(pairs, key) == lookup(pairs.take(k), key),
    decreases pairs.len() - k,
{
    if k < pairs.len() {
        assert(pairs.take(k + 1).drop_last() =~= pairs.take(k));
        lemma_lookup_prefix(pairs, key, k + 1);
    } else {
        assert(pairs.take(k) =~= pairs);
    }
}

proof fn lemma_pair_strings_append(a: OptionPairs, b: OptionPairs)
    ensures
        pair_strings(a + b) == pair_strings(a) + pair_strings(b),
    decreases b.len(),
{
    if b.len() == 0 {
        assert(a + b =~= a);
        assert(pair_strings(a) + pair_strings(b) =~= pair_strings(a));
    } else {
        assert((a + b).drop_last() =~= a + b.drop_last());
        lemma_pair_strings_append(a, b.drop_last());
        assert(pair_strings(a) + pair_strings(b) =~= pair_strings(a) + pair_strings(b.drop_last())
            + seq![b.last().0, b.last().1]);
    }
}

/// Looks up the value of the earliest entry with key `key`.
pub fn find_value<'a>(pairs: &'a Vec<(String, String)>, key: &str) -> (r: Option<&'a str>)
    ensures
        match r {
            Some(v) => lookup(pairs_view(pairs@), key@) == Some(v@),
            None => lookup(pairs_view(pairs@), key@) is None,
        },
{
    let wanted = key.to_owned();
    let n = pairs.len();
    let mut i: usize = 0;
    while i < n
        invariant
            n == pairs@.len(),
            i <= n,
            wanted@ == key@,
            lookup(pairs_view(pairs@).take(i as int), key@) is None,
        decreases n - i,
    {
        let ghost v = pairs_view(pairs@);
        assert(v.take(i as int + 1).drop_last() =~= v.take(i as int));
        let entry = &pairs[i];
        if entry.0 == wanted {
            proof {
                lemma_lookup_prefix(v, key@, i as int + 1);
            }
            return Some(entry.1.as_str());
        }
        i = i + 1;
    }
    assert(pairs_view(pairs@).take(n as int) =~= pairs_view(pairs@));
    None
}

/// Checks that every key and value can be passed as a C string, in the
/// order the engine receives them, stopping at the first that cannot.
pub fn check_pairs(pairs: &Vec<(String, String)>) -> (r: Result<()>)
    ensures
        r == c_strings_result(pair_strings(pairs_view(pairs@))),
{
    let n = pairs.len();
    let mut i: usize = 0;
    while i < n
        invariant
            n == pairs@.len(),
            i <= n,
            c_strings_result(pair_strings(pairs_view(pairs@).take(i as int))) == Ok::<(), Error>(()),
        decreases n - i,
    {
        let ghost v = pairs_view(pairs@);
        let ghost before = pair_strings(v.take(i as int));
        let ghost entry_strs = seq![v[i as int].0, v[i as int].1];
        assert(v.take(i as int + 1).drop_last() =~= v.take(i as int));
        assert(pair_strings(v.take(i as int + 1)) == before + entry_strs);
        proof {
            lemma_c_strings_two(v[i as int].0, v[i as int].1);
            lemma_c_strings_append(before, entry_strs);
            lemma_pair_strings_append(v.take(i as int + 1), v.skip(i as int + 1));
            assert(v.take(i as int + 1) + v.skip(i as int + 1) =~= v);
            lemma_c_strings_append(pair_strings(v.take(i as int + 1)), pair_strings(v.skip(i as int + 1)));
        }
        let rk = check_c_string(pairs[i].0.as_str());
        if rk.is_err() {
            return rk;
        }
        let rv = check_c_string(pairs[i].1.as_str());
        if rv.is_err() {
            return rv;
        }
        i = i + 1;
    }
    assert(pairs_view(pairs@).take(n as int) =~= pairs_view(pairs@));
    Ok(())
}

/// A copy of an option list.
pub fn copy_pairs(pairs: &Vec<(String, String)>) -> (r: Vec<(String, String)>)
    ensures
        pairs_view(r@) == pairs_view(pairs@),
{
    let mut out: Vec<(String, String)> = Vec::new();
    let n = pairs.len();
    let mut i: usize = 0;
    while i < n
        invariant
            n == pairs@.len(),
            i <= n,
            pairs_view(out@) == pairs_view(pairs@).take(i as int),
        decreases n - i,
    {
        let entry = &pairs[i];
        let k = entry.0.clone();
        let v = entry.1.clone();
        let ghost before = out@;
        assert(pairs_view(before).len() == before.len());
        assert(before.len() == i);
        out.push((k, v));
        assert(out@ == before.push((k, v)));
        assert(k@ == pairs@[i as int].0@ && v@ == pairs@[i as int].1@);
        assert forall|j: int| 0 <= j < i + 1 implies #[trigger] pairs_view(out@)[j] == pairs_view(pairs@).take(i as int + 1)[j] by {
            if j < i {
                assert(out@[j] == before[j]);
                assert(pairs_view(before)[j] == pairs_view(pairs@).take(i as int)[j]);
            }
        }
        assert(pairs_view(out@) =~= pairs_view(pairs@).take(i as int + 1));
        i = i + 1;
    }
    assert(pairs_view(pairs@).take(n as int) =~= pairs_view(pairs@));
    out
}

/// Appends one entry.
pub fn push_pair(pairs: &mut Vec<(String, String)>, key: &str, value: &str)
    ensures
        pairs_view(final(pairs)@) == pairs_view(old(pairs)@).push((key@, value@)),
{
    pairs.push((key.to_owned(), value.to_owned()));
    assert(pairs_view(pairs@) =~= pairs_view(old(pairs)@).push((key@, value@)));
}

/// Setting an option (on a transcriber or synthesizer option set) that is
/// not yet set makes a lookup of it give the new
/// value; lookups of other keys, and of keys already set, are unchanged.
pub proof fn lemma_set_then_get(opts: OptionPairs, key: Seq<char>, value: Seq<char>, probe: Seq<char>)
    ensures
        lookup(opts, key) is None ==> lookup(opts.push((key, value)), key) == Some(value),
        lookup(opts, probe) is Some ==> lookup(opts.push((key, value)), probe) == lookup(opts, probe),
        probe != key ==> lookup(opts.push((key, value)), probe) == lookup(opts, probe),
{
    lemma_lookup_push(opts, key, value, key);
    lemma_lookup_push(opts, key, value, probe);
}

/// An empty option list has no value for any key.
pub proof fn lemma_lookup_empty(key: Seq<char>)
    ensures
        lookup(Seq::<(Seq<char>, Seq<char>)>::empty(), key) is None,
{
}

/// What a lookup finds, stated over the entries: no value exactly when no
/// entry has the key; otherwise the value of an entry with the key before
/// which no entry has it.
pub proof fn lemma_lookup_finds_earliest(pairs: OptionPairs, key: Seq<char>)
    ensures
        lookup(pairs, key) is None <==> forall|i: int| 0 <= i < pairs.len() ==> #[trigger] pairs[i].0 != key,
        lookup(pairs, key) matches Some(v) ==> exists|i: int|
            0 <= i < pairs.len() && #[trigger] pairs[i] == (key, v)
                && forall|j: int| 0 <= j < i ==> #[trigger] pairs[j].0 != key,
    decreases pairs.len(),
{
    if pairs.len() > 0 {
        let prefix = pairs.drop_last();
        lemma_lookup_finds_earliest(prefix, key);
        assert forall|i: int| 0 <= i < prefix.len() implies #[trigger] prefix[i] == pairs[i] by {}
        let last = pairs.len() - 1;
        match lookup(prefix, key) {
            Some(v) => {
                let i = choose|i: int|
                    0 <= i < prefix.len() && #[trigger] prefix[i] == (key, v)
                        && forall|j: int| 0 <= j < i ==> #[trigger] prefix[j].0 != key;
                assert(pairs[i] == prefix[i]);
                assert forall|j: int| 0 <= j < i implies #[trigger] pairs[j].0 != key by {
                    assert(pairs[j] == prefix[j]);
                }
            },
            None => {
                if pairs.last().0 == key {
                    assert(pairs[last] == (key, pairs.last().1));
                    assert forall|j: int| 0 <= j < last implies #[trigger] pairs[j].0 != key by {
                        assert(pairs[j] == prefix[j]);
                    }
                } else {
                    assert forall|i: int| 0 <= i < pairs.len() implies #[trigger] pairs[i].0 != key by {
                        if i < last {
                            assert(pairs[i] == prefix[i]);
                        }
                    }
                }
            },
        }
    }
}

/// A lookup in a concatenation finds the first list's value, if it has
/// one, and otherwise the second list's.
pub proof fn lemma_lookup_append(a: OptionPairs, b: OptionPairs, key: Seq<char>)
    ensures
        lookup(a + b, key) == match lookup(a, key) {
            Some(v) => Some(v),
            None => lookup(b, key),
        },
    decreases b.len(),
{
    if b.len() == 0 {
        assert(a + b =~= a);
    } else {
        assert((a + b).drop_last() =~= a + b.drop_last());
        lemma_lookup_append(a, b.drop_last(), key);
    }
}

/// A one-entry list has a value only for its key.
pub proof fn lemma_lookup_single(k: Seq<char>, v: Seq<char>, key: Seq<char>)
    ensures
        lookup(seq![(k, v)], key) == if k == key { Some(v) } else { None::<Seq<char>> },
{
    let one = seq![(k, v)];
    assert(one.drop_last() =~= Seq::<(Seq<char>, Seq<char>)>::empty());
    assert(lookup(one.drop_last(), key) is None);
    assert(one.last() == (k, v));
}

} // verus!
