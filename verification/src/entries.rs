//! An alias mapping as a sequence of key-value pairs in insertion order,
//! and the verified operations of the library on it.

use vstd::prelude::*;
use vstd::string::StringSliceAdditionalSpecFns;
use indexmap::IndexMap;
use crate::index_map::{entries, has_key, map_get, map_get_index, map_insert, map_len};
use crate::text::{byte_len, padding, spaces};

verus! {

/// No two pairs share a key.
pub open spec fn distinct_keys(pairs: Seq<(Seq<char>, Seq<char>)>) -> bool {
    forall|i: int, j: int|
        0 <= i < pairs.len() && 0 <= j < pairs.len() && i != j ==> (#[trigger] pairs[i]).0 != (
        #[trigger] pairs[j]).0
}

/// An index at which `key` stands, where it stands anywhere.
pub open spec fn index_of(pairs: Seq<(Seq<char>, Seq<char>)>, key: Seq<char>) -> int {
    choose|i: int| 0 <= i < pairs.len() && (#[trigger] pairs[i]).0 == key
}

/// The value that `key` maps to, if it is a key of `pairs`.
pub open spec fn lookup(pairs: Seq<(Seq<char>, Seq<char>)>, key: Seq<char>) -> Option<Seq<char>> {
    if has_key(pairs, key) {
        Some(pairs[index_of(pairs, key)].1)
    } else {
        None
    }
}

/// `pairs` with `key` mapped to `value`: a key that is there keeps its
/// place and takes the new value, a new key goes last.
pub open spec fn upsert(pairs: Seq<(Seq<char>, Seq<char>)>, key: Seq<char>, value: Seq<char>) -> Seq<
    (Seq<char>, Seq<char>),
> {
    if has_key(pairs, key) {
        pairs.update(index_of(pairs, key), (key, value))
    } else {
        pairs.push((key, value))
    }
}

/// The greatest of `floor` and the byte lengths of the keys of `pairs`.
pub open spec fn longest_key(pairs: Seq<(Seq<char>, Seq<char>)>, floor: nat) -> nat
    decreases pairs.len(),
{
    if pairs.len() == 0 {
        floor
    } else {
        let rest = longest_key(pairs.drop_last(), floor);
        let last = byte_len(pairs.last().0);
        if last > rest {
            last
        } else {
            rest
        }
    }
}

/// Every key of `pairs` takes at most `width` bytes.
pub open spec fn keys_fit(pairs: Seq<(Seq<char>, Seq<char>)>, width: nat) -> bool {
    forall|i: int| 0 <= i < pairs.len() ==> byte_len((#[trigger] pairs[i]).0) <= width
}

/// One line of a listing: the key, a colon, and the value, set off so that
/// the values of all lines start in the same column.
pub open spec fn entry_line(pair: (Seq<char>, Seq<char>), width: nat) -> Seq<char> {
    "    "@ + pair.0 + ": "@ + spaces((width - byte_len(pair.0)) as nat) + pair.1
}

/// A listing: the header, then one line for each pair, in order.
pub open spec fn listing(header: Seq<char>, pairs: Seq<(Seq<char>, Seq<char>)>, width: nat) -> Seq<
    Seq<char>,
> {
    Seq::new(
        pairs.len() + 1,
        |i: int|
            if i == 0 {
                header
            } else {
                entry_line(pairs[i - 1], width)
            },
    )
}

/// Where keys are distinct, the pair at an index is what its key maps to.
pub proof fn lemma_lookup_at(pairs: Seq<(Seq<char>, Seq<char>)>, i: int)
    requires
        distinct_keys(pairs),
        0 <= i < pairs.len(),
    ensures
        has_key(pairs, pairs[i].0),
        index_of(pairs, pairs[i].0) == i,
        lookup(pairs, pairs[i].0) == Some(pairs[i].1),
{
}

/// Mapping a key keeps the keys distinct and does not change their number
/// but by the one new key.
pub proof fn lemma_upsert_distinct(
    pairs: Seq<(Seq<char>, Seq<char>)>,
    key: Seq<char>,
    value: Seq<char>,
)
    requires
        distinct_keys(pairs),
    ensures
        distinct_keys(upsert(pairs, key, value)),
        has_key(upsert(pairs, key, value), key),
{
    let after = upsert(pairs, key, value);
    if has_key(pairs, key) {
        let at = index_of(pairs, key);
        assert(after[at].0 == key);
        assert forall|i: int, j: int|
            0 <= i < after.len() && 0 <= j < after.len() && i != j implies (#[trigger] after[i]).0
            != (#[trigger] after[j]).0 by {
            assert(after[i].0 == pairs[i].0);
            assert(after[j].0 == pairs[j].0);
        }
    } else {
        assert(after[pairs.len() as int].0 == key);
        assert forall|i: int, j: int|
            0 <= i < after.len() && 0 <= j < after.len() && i != j implies (#[trigger] after[i]).0
            != (#[trigger] after[j]).0 by {
            if i < pairs.len() {
                assert(after[i] == pairs[i]);
            }
            if j < pairs.len() {
                assert(after[j] == pairs[j]);
            }
        }
    }
}

/// After a key is mapped, it maps to the new value, and every other key
/// maps to what it did.
pub proof fn lemma_upsert_lookup(
    pairs: Seq<(Seq<char>, Seq<char>)>,
    key: Seq<char>,
    value: Seq<char>,
    other: Seq<char>,
)
    requires
        distinct_keys(pairs),
    ensures
        lookup(upsert(pairs, key, value), key) == Some(value),
        other != key ==> lookup(upsert(pairs, key, value), other) == lookup(pairs, other),
{
    let after = upsert(pairs, key, value);
    lemma_upsert_distinct(pairs, key, value);
    let at = if has_key(pairs, key) {
        index_of(pairs, key)
    } else {
        pairs.len() as int
    };
    assert(after[at] == (key, value));
    lemma_lookup_at(after, at);
    if other != key {
        if has_key(pairs, other) {
            let k = index_of(pairs, other);
            assert(after[k] == pairs[k]);
            lemma_lookup_at(after, k);
        } else {
            if has_key(after, other) {
                let k = index_of(after, other);
                assert(k != at);
                assert(after[k] == pairs[k]);
                assert(false);
            }
        }
    }
}

/// The longest key is at least the floor and at least every key, and it is
/// the floor or the length of one of the keys.
pub proof fn lemma_longest_key(pairs: Seq<(Seq<char>, Seq<char>)>, floor: nat)
    ensures
        longest_key(pairs, floor) >= floor,
        keys_fit(pairs, longest_key(pairs, floor)),
        longest_key(pairs, floor) == floor || exists|i: int|
            0 <= i < pairs.len() && byte_len((#[trigger] pairs[i]).0) == longest_key(pairs, floor),
    decreases pairs.len(),
{
    if pairs.len() > 0 {
        let front = pairs.drop_last();
        lemma_longest_key(front, floor);
        assert forall|i: int| 0 <= i < pairs.len() implies byte_len((#[trigger] pairs[i]).0)
            <= longest_key(pairs, floor) by {
            if i < front.len() {
                assert(pairs[i] == front[i]);
            }
        }
        if longest_key(pairs, floor) != floor {
            if longest_key(pairs, floor) == byte_len(pairs.last().0) {
                assert(byte_len(pairs[pairs.len() - 1].0) == longest_key(pairs, floor));
            } else {
                let i = choose|i: int|
                    0 <= i < front.len() && byte_len((#[trigger] front[i]).0) == longest_key(
                        front,
                        floor,
                    );
                assert(pairs[i] == front[i]);
            }
        }
    }
}

/// The value that `key` maps to in `map`.
pub(crate) fn find<'a>(map: &'a IndexMap<String, String>, key: &str) -> (value: Option<&'a String>)
    requires
        distinct_keys(entries(*map)),
    ensures
        match lookup(entries(*map), key@) {
            Some(target) => value matches Some(v) && v@ == target,
            None => value is None,
        },
{
    let value = map_get(map, key);
    proof {
        if let Some(v) = value {
            let i = choose|i: int|
                0 <= i < entries(*map).len() && #[trigger] entries(*map)[i] == (key@, v@);
            lemma_lookup_at(entries(*map), i);
        }
    }
    value
}

/// Maps `key` to `value` in `map`.
pub(crate) fn put(map: &mut IndexMap<String, String>, key: String, value: String)
    requires
        distinct_keys(entries(*old(map))),
    ensures
        entries(*final(map)) == upsert(entries(*old(map)), key@, value@),
        distinct_keys(entries(*final(map))),
{
    proof {
        lemma_upsert_distinct(entries(*map), key@, value@);
        if has_key(entries(*map), key@) {
            let at = index_of(entries(*map), key@);
            assert(entries(*map)[at].0 == key@);
        }
    }
    let _ = map_insert(map, key, value);
}

/// The greatest of `floor` and the byte lengths of the keys of `map`.
pub(crate) fn longest_key_in(map: &IndexMap<String, String>, floor: usize) -> (longest: usize)
    ensures
        longest == longest_key(entries(*map), floor as nat),
{
    let n: usize = map_len(map);
    let mut longest: usize = floor;
    let mut i: usize = 0;
    while i < n
        invariant
            i <= n,
            n == entries(*map).len(),
            longest == longest_key(entries(*map).take(i as int), floor as nat),
        decreases n - i,
    {
        if let Some((key, _)) = map_get_index(map, i) {
            let len: usize = key.as_str().as_bytes().len();
            if len > longest {
                longest = len;
            }
        }
        proof {
            let upto = entries(*map).take(i + 1);
            assert(upto.drop_last() =~= entries(*map).take(i as int));
            assert(upto.last() == entries(*map)[i as int]);
        }
        i += 1;
    }
    proof {
        assert(entries(*map).take(n as int) =~= entries(*map));
    }
    longest
}

/// The lines of a listing of `map` under `header`, the values set off to
/// the column that `width` gives.
pub(crate) fn render(map: &IndexMap<String, String>, header: &str, width: usize) -> (lines: Vec<String>)
    requires
        keys_fit(entries(*map), width as nat),
    ensures
        lines.deep_view() == listing(header@, entries(*map), width as nat),
{
    let n: usize = map_len(map);
    let mut lines: Vec<String> = Vec::new();
    lines.push(String::from_str(header));
    let mut i: usize = 0;
    while i < n
        invariant
            i <= n,
            n == entries(*map).len(),
            keys_fit(entries(*map), width as nat),
            lines@.len() == i + 1,
            lines@[0]@ == header@,
            forall|j: int| 0 <= j < i ==> (#[trigger] lines@[j + 1])@ == entry_line(
                entries(*map)[j],
                width as nat,
            ),
        decreases n - i,
    {
        if let Some((key, value)) = map_get_index(map, i) {
            let len: usize = key.as_str().as_bytes().len();
            let pad = padding(width - len);
            let mut line = String::from_str("    ");
            line.append(key.as_str());
            line.append(": ");
            line.append(pad.as_str());
            line.append(value.as_str());
            lines.push(line);
        }
        i += 1;
    }
    proof {
        let want = listing(header@, entries(*map), width as nat);
        assert(lines.deep_view().len() == want.len());
        assert forall|j: int| 0 <= j < want.len() implies lines.deep_view()[j] == want[j] by {
            if j > 0 {
                assert(lines@[(j - 1) + 1]@ == entry_line(entries(*map)[j - 1], width as nat));
            }
        }
        assert(lines.deep_view() =~= want);
    }
    lines
}

} // verus!
