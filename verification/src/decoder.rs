//! Extraction of title and artist from a player's metadata.
//!
//! The metadata arrives as a flattened dictionary: a sequence in which keys
//! and values alternate. Two keys are read. The title is the text stored
//! under `xesam:title`. The artist is stored under `xesam:artist` three
//! containers deep; the first item is taken at each level. A field whose
//! value does not have the expected shape is empty, and does not disturb the
//! other field. When a key occurs more than once, its last occurrence counts.

use vstd::prelude::*;
use vstd::string::*;
use crate::value::Value;

verus! {

/// Why a metadata value could not be read as a dictionary.
#[derive(Clone, Copy, Debug, PartialEq, Eq, Structural)]
pub enum DecodeError {
    /// The value is no container at all.
    NotASequence,
    /// The container has an odd number of entries: a key without a value.
    DanglingKey,
}

/// The key under which a player stores the track's title.
pub open spec fn title_key() -> Seq<char> {
    "xesam:title"@
}

/// The key under which a player stores the track's artists.
pub open spec fn artist_key() -> Seq<char> {
    "xesam:artist"@
}

/// The text of a `Text` value, the empty text for every other value.
pub open spec fn text_or_empty(v: Value) -> Seq<char> {
    match v.spec_text() {
        Some(s) => s,
        None => Seq::empty(),
    }
}

/// The first item of the value inside `o`, if both exist.
pub open spec fn descend(o: Option<Value>) -> Option<Value> {
    match o {
        Some(v) => v.spec_first(),
        None => None,
    }
}

/// The artist held by the value `v`: the text found by taking the first item
/// three times, or the empty text where a level is missing or the innermost
/// value is no text.
pub open spec fn artist_text(v: Value) -> Seq<char> {
    match descend(descend(descend(Some(v)))) {
        Some(inner) => text_or_empty(inner),
        None => Seq::empty(),
    }
}

/// Whether the key of pair `i` of `items` is the text `key`.
pub open spec fn key_at(items: Seq<Value>, i: int, key: Seq<char>) -> bool {
    items[2 * i].spec_text() == Some(key)
}

/// The last of the first `n` pairs of `items` whose key is `key`.
pub open spec fn last_pair_with_key(items: Seq<Value>, key: Seq<char>, n: nat) -> Option<int>
    decreases n,
{
    if n == 0 {
        None
    } else if key_at(items, n - 1, key) {
        Some(n - 1)
    } else {
        last_pair_with_key(items, key, (n - 1) as nat)
    }
}

/// The title that the first `n` pairs of `items` give.
pub open spec fn title_in(items: Seq<Value>, n: nat) -> Seq<char> {
    match last_pair_with_key(items, title_key(), n) {
        Some(i) => text_or_empty(items[2 * i + 1]),
        None => Seq::empty(),
    }
}

/// The artist that the first `n` pairs of `items` give.
pub open spec fn artist_in(items: Seq<Value>, n: nat) -> Seq<char> {
    match last_pair_with_key(items, artist_key(), n) {
        Some(i) => artist_text(items[2 * i + 1]),
        None => Seq::empty(),
    }
}

/// What decoding the metadata value `metadata` yields: title and artist, or
/// the reason why it is no dictionary.
pub open spec fn decoded(metadata: Value) -> Result<(Seq<char>, Seq<char>), DecodeError> {
    match metadata.spec_items() {
        None => Err(DecodeError::NotASequence),
        Some(items) => if items.len() % 2 == 1 {
            Err(DecodeError::DanglingKey)
        } else {
            Ok((title_in(items, items.len() / 2), artist_in(items, items.len() / 2)))
        },
    }
}

/// `last_pair_with_key` finds a pair with the key exactly when there is one,
/// and then the one after which the key does not occur again.
pub proof fn lemma_last_pair_with_key(items: Seq<Value>, key: Seq<char>, n: nat)
    ensures
        match last_pair_with_key(items, key, n) {
            Some(i) => 0 <= i < n && key_at(items, i, key) && forall|j: int|
                i < j < n ==> !key_at(items, j, key),
            None => forall|j: int| 0 <= j < n ==> !key_at(items, j, key),
        },
    decreases n,
{
    if n > 0 && !key_at(items, n - 1, key) {
        lemma_last_pair_with_key(items, key, (n - 1) as nat);
    }
}

/// The two fields do not depend on each other: whatever value stands under a
/// key, the field of another key is read as if nothing had changed. A
/// malformed artist leaves the title as it is, and the other way round.
pub proof fn lemma_fields_are_independent(items: Seq<Value>, i: int, value: Value, n: nat)
    requires
        0 <= i,
        2 * i + 1 < items.len(),
        2 * n <= items.len(),
    ensures
        !key_at(items, i, title_key()) ==> title_in(items.update(2 * i + 1, value), n) == title_in(
            items,
            n,
        ),
        !key_at(items, i, artist_key()) ==> artist_in(items.update(2 * i + 1, value), n)
            == artist_in(items, n),
{
    lemma_values_do_not_move_keys(items, i, value, title_key(), n);
    lemma_values_do_not_move_keys(items, i, value, artist_key(), n);
    lemma_last_pair_with_key(items, title_key(), n);
    lemma_last_pair_with_key(items, artist_key(), n);
}

/// Putting another value under a key leaves every key where it is.
proof fn lemma_values_do_not_move_keys(
    items: Seq<Value>,
    i: int,
    value: Value,
    key: Seq<char>,
    n: nat,
)
    requires
        0 <= i,
        2 * i + 1 < items.len(),
        2 * n <= items.len(),
    ensures
        last_pair_with_key(items.update(2 * i + 1, value), key, n) == last_pair_with_key(
            items,
            key,
            n,
        ),
    decreases n,
{
    if n > 0 {
        lemma_values_do_not_move_keys(items, i, value, key, (n - 1) as nat);
    }
}

/// The artist of a value, computed by descending three levels.
fn artist_from(value: &Value) -> (r: String)
    ensures
        r@ == artist_text(*value),
{
    match value.first() {
        Some(a) => match a.first() {
            Some(b) => match b.first() {
                Some(c) => match c.as_text() {
                    Some(s) => s.clone(),
                    None => String::new(),
                },
                None => String::new(),
            },
            None => String::new(),
        },
        None => String::new(),
    }
}

/// Reads title and artist out of a player's metadata.
///
/// Fails only where `metadata` is no dictionary: no container, or one with a
/// key that has no value. Keys other than the two that are read, keys that are
/// no text among them, are passed over.
pub fn extract_from_metadata(metadata: &Value) -> (r: Result<(String, String), DecodeError>)
    ensures
        match r {
            Ok((title, artist)) => decoded(*metadata) == Ok::<_, DecodeError>(
                (title@, artist@),
            ),
            Err(e) => decoded(*metadata) == Err::<(Seq<char>, Seq<char>), _>(e),
        },
{
    let items = match metadata.as_sequence() {
        Some(items) => items,
        None => {
            return Err(DecodeError::NotASequence);
        },
    };
    if items.len() % 2 == 1 {
        return Err(DecodeError::DanglingKey);
    }
    let pairs: usize = items.len() / 2;
    let wanted_title = String::from_str("xesam:title");
    let wanted_artist = String::from_str("xesam:artist");
    let mut title = String::new();
    let mut artist = String::new();
    let mut i: usize = 0;
    while i < pairs
        invariant
            i <= pairs,
            pairs * 2 == items.len(),
            wanted_title@ == title_key(),
            wanted_artist@ == artist_key(),
            title@ == title_in(items@, i as nat),
            artist@ == artist_in(items@, i as nat),
        decreases pairs - i,
    {
        let key = &items[2 * i];
        let value = &items[2 * i + 1];
        match key.as_text() {
            Some(name) => {
                if *name == wanted_artist {
                    artist = artist_from(value);
                } else if *name == wanted_title {
                    title =
                    match value.as_text() {
                        Some(s) => s.clone(),
                        None => String::new(),
                    };
                }
            },
            None => {},
        }
        proof {
            reveal_strlit("xesam:title");
            reveal_strlit("xesam:artist");
            assert(title_key() != artist_key()) by {
                assert(title_key().len() == 11);
                assert(artist_key().len() == 12);
            }
        }
        i = i + 1;
    }
    Ok((title, artist))
}

/// Title and artist of a player's metadata, both empty where the metadata is
/// no dictionary.
pub fn title_and_artist(metadata: &Value) -> (r: (String, String))
    ensures
        match decoded(*metadata) {
            Ok(found) => r.0@ == found.0 && r.1@ == found.1,
            Err(_) => r.0@ == Seq::<char>::empty() && r.1@ == Seq::<char>::empty(),
        },
{
    match extract_from_metadata(metadata) {
        Ok(found) => found,
        Err(_) => (String::new(), String::new()),
    }
}

} // verus!
