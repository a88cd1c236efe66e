//! The two adapters for writing timestamps into a document: one for a single
//! timestamp, one for a map of them.
//!
//! An adapter prepares the rendering of each timestamp, in a zone that its
//! caller has resolved, and leaves it to its caller to ask the engine for
//! the text and to write it. It cannot be handed a timestamp without a zone
//! that answers to the name the timestamp is bound to.
use std::collections::HashMap;
use vstd::prelude::*;
use vstd::set_lib::lemma_subset_equality;
use vstd::std_specs::hash::obeys_key_model;
use vstd::std_specs::iter::IteratorSpec;
use crate::convert::{
    conversion, convert_time_zone, empty_layout_is_canonical, pattern_of, Rendering,
};
use crate::engine::{instant_of, label_for, shown_in, utc, zone_label, Zone};
use crate::zoner::TimeZoner;

verus! {

broadcast use vstd::std_specs::hash::group_hash_axioms;

/// Whether `zone` answers to `tz_name`.
pub open spec fn serves(zone: gostd_time::Location, tz_name: Seq<char>) -> bool {
    zone_label(zone) == label_for(tz_name)
}

/// The zones of a directory, as the engine's values.
pub open spec fn directory(zones: Seq<Zone>) -> Seq<gostd_time::Location> {
    Seq::new(zones.len(), |i: int| zones[i]@)
}

/// Whether `at` is the place of the first zone of `zones` that answers to
/// `tz_name`.
pub open spec fn first_serving(
    zones: Seq<gostd_time::Location>,
    tz_name: Seq<char>,
    at: int,
) -> bool {
    &&& 0 <= at < zones.len()
    &&& serves(zones[at], tz_name)
    &&& forall|j: int| 0 <= j < at ==> !serves(#[trigger] zones[j], tz_name)
}

/// Whether some zone of `zones` answers to `tz_name`.
pub open spec fn covers(zones: Seq<gostd_time::Location>, tz_name: Seq<char>) -> bool {
    exists|j: int| 0 <= j < zones.len() && serves(#[trigger] zones[j], tz_name)
}

/// What the scalar adapter gives for `value` in `zone`: the conversion of
/// the instant of `value` in `zone` after the layout of `value`.
pub open spec fn localization<V: TimeZoner>(value: V, zone: gostd_time::Location) -> (
    gostd_time::Time,
    Seq<char>,
    Seq<char>,
) {
    conversion(value.millis(), zone, value.pattern())
}

/// The keys and the renderings of `entries`, as plain values.
pub open spec fn listed<K>(entries: Seq<(&K, Rendering)>) -> Seq<
    (K, (gostd_time::Time, Seq<char>, Seq<char>)),
> {
    Seq::new(entries.len(), |i: int| (*entries[i].0, entries[i].1@))
}

/// The keys of `pairs`, in the order of `pairs`.
pub open spec fn keys_of<K>(pairs: Seq<(K, (gostd_time::Time, Seq<char>, Seq<char>))>) -> Seq<K> {
    Seq::new(pairs.len(), |i: int| pairs[i].0)
}

/// Whether `pairs` is `input` with a rendering in the place of every
/// timestamp: as many pairs as `input` has entries, every key of `input` in
/// exactly one of them, and beside each key what the scalar adapter gives
/// for the timestamp which `input` holds under that key, in the first zone
/// of `zones` that answers to its name. The order of the pairs is left open.
pub open spec fn localizes_map<K, V: TimeZoner>(
    input: Map<K, V>,
    zones: Seq<gostd_time::Location>,
    pairs: Seq<(K, (gostd_time::Time, Seq<char>, Seq<char>))>,
) -> bool {
    &&& pairs.len() == input.dom().len()
    &&& keys_of(pairs).no_duplicates()
    &&& keys_of(pairs).to_set() == input.dom()
    &&& forall|i: int|
        0 <= i < pairs.len() ==> {
            &&& input.contains_key((#[trigger] pairs[i]).0)
            &&& exists|at: int|
                {
                    &&& #[trigger] first_serving(zones, input[pairs[i].0].zone(), at)
                    &&& pairs[i].1 == localization(input[pairs[i].0], zones[at])
                }
        }
}

/// Finds in a directory of resolved zones the first that answers to
/// `tz_name`, if there is one.
pub fn zone_for(zones: &Vec<Zone>, tz_name: &str) -> (at: Option<usize>)
    ensures
        match at {
            Some(at) => first_serving(directory(zones@), tz_name@, at as int),
            None => !covers(directory(zones@), tz_name@),
        },
{
    let wanted = if tz_name.is_empty() {
        proof {
            reveal_strlit("UTC");
            assert("UTC"@ =~= utc());
        }
        "UTC".to_owned()
    } else {
        tz_name.to_owned()
    };
    assert(wanted@ == label_for(tz_name@));
    let mut j: usize = 0;
    while j < zones.len()
        invariant
            j <= zones.len(),
            wanted@ == label_for(tz_name@),
            forall|i: int| 0 <= i < j ==> !serves(#[trigger] directory(zones@)[i], tz_name@),
        decreases zones.len() - j,
    {
        let name = zones[j].name();
        if name == wanted {
            assert(serves(directory(zones@)[j as int], tz_name@));
            return Some(j);
        }
        j = j + 1;
    }
    None
}

/// What the engine is to be asked for `value`: to render its instant in
/// `zone` after its layout. The zone has to answer to the name that `value`
/// is bound to.
pub fn datetime_to_tz<'a, V: TimeZoner>(value: &'a V, zone: &Zone) -> (out: Rendering<'a>)
    requires
        serves(zone@, value.zone()),
    ensures
        out@ == localization(*value, zone@),
{
    convert_time_zone(value.timestamp(), zone, value.layout())
}

/// What the engine is to be asked for a map of timestamps: every key as it
/// is, beside the rendering that the scalar adapter gives for its timestamp
/// in the first zone of `zones` that answers to the name the timestamp is
/// bound to. The pairs come in the order in which the map hands out its
/// entries; nothing depends on it.
///
/// `zones` has to hold a zone for every timestamp of the map. The keys have
/// to hash as they compare, which is what `obeys_key_model` says.
pub fn datetime_to_tz_map<'a, K, V: TimeZoner>(
    value: &'a HashMap<K, V>,
    zones: &Vec<Zone>,
) -> (out: Vec<(&'a K, Rendering<'a>)>)
    requires
        obeys_key_model::<K>(),
        forall|k: K| #[trigger]
            value@.contains_key(k) ==> covers(directory(zones@), value@[k].zone()),
    ensures
        localizes_map(value@, directory(zones@), listed(out@)),
{
    let mut entries: Vec<(&K, Rendering)> = Vec::with_capacity(value.len());
    let ghost shown = value.iter().remaining();
    let ghost held = directory(zones@);
    let ghost mut places: Seq<int> = Seq::empty();
    for pair in it: value.iter()
        invariant
            obeys_key_model::<K>(),
            forall|k: K| #[trigger] value@.contains_key(k) ==> covers(held, value@[k].zone()),
            held == directory(zones@),
            it.seq() == shown,
            shown == value.iter().remaining(),
            shown.no_duplicates(),
            entries@.len() == it.index(),
            places.len() == entries@.len(),
            forall|i: int| 0 <= i < entries@.len() ==> (#[trigger] entries@[i]).0 == shown[i].0,
            forall|i: int|
                0 <= i < entries@.len() ==> first_serving(
                    held,
                    (#[trigger] shown[i]).1.zone(),
                    places[i],
                ),
            forall|i: int|
                0 <= i < entries@.len() ==> (#[trigger] entries@[i]).1@ == localization(
                    *shown[i].1,
                    held[places[i]],
                ),
    {
        let (key, item) = pair;
        assert(value@.contains_key(*key) && value@[*key] == *item);
        let at = zone_for(zones, item.tz_name());
        assert(at is Some);
        let at = at.unwrap();
        let rendering = datetime_to_tz(item, &zones[at]);
        entries.push((key, rendering));
        proof {
            places = places.push(at as int);
        }
    }
    proof {
        let pairs = listed(entries@);
        let keys = keys_of(pairs);
        assert forall|i: int, j: int|
            0 <= i < keys.len() && 0 <= j < keys.len() && i != j implies keys[i] != keys[j] by {
            if keys[i] == keys[j] {
                assert(value@[*shown[i].0] == *shown[i].1);
                assert(value@[*shown[j].0] == *shown[j].1);
                assert(shown[i] == shown[j]);
            }
        }
        assert forall|k: K| keys.to_set().contains(k) implies value@.dom().contains(k) by {
            let i = choose|i: int| 0 <= i < keys.len() && keys[i] == k;
            assert(value@.contains_key(*shown[i].0));
        }
        keys.unique_seq_to_set();
        lemma_subset_equality(keys.to_set(), value@.dom());
        assert forall|i: int| 0 <= i < pairs.len() implies {
            &&& value@.contains_key((#[trigger] pairs[i]).0)
            &&& exists|at: int|
                {
                    &&& #[trigger] first_serving(held, value@[pairs[i].0].zone(), at)
                    &&& pairs[i].1 == localization(value@[pairs[i].0], held[at])
                }
        } by {
            assert(entries@[i].0 == shown[i].0);
            assert(value@[*shown[i].0] == *shown[i].1);
            assert(first_serving(held, value@[pairs[i].0].zone(), places[i]));
        }
    }
    entries
}

/// The scalar adapter is the conversion of what the value tells: what it
/// gives for `value` in a zone is the conversion of the instant of `value`
/// in that zone after the layout of `value`.
pub proof fn scalar_adapter_is_conversion<V: TimeZoner>(value: V, zone: gostd_time::Location)
    ensures
        localization(value, zone) == conversion(value.millis(), zone, value.pattern()),
        localization(value, zone).0 == shown_in(instant_of(value.millis()), zone),
        localization(value, zone).1 + localization(value, zone).2 == pattern_of(value.pattern()),
{
    empty_layout_is_canonical(value.millis(), zone, value.pattern());
}

/// What the map adapter returns keeps the keys of the map and their number:
/// as many pairs as entries, a pair for every key, and no key twice.
pub proof fn map_adapter_keeps_keys<K, V: TimeZoner>(
    input: Map<K, V>,
    zones: Seq<gostd_time::Location>,
    pairs: Seq<(K, (gostd_time::Time, Seq<char>, Seq<char>))>,
)
    requires
        localizes_map(input, zones, pairs),
    ensures
        pairs.len() == input.dom().len(),
        forall|k: K|
            input.contains_key(k) <==> exists|i: int|
                0 <= i < pairs.len() && (#[trigger] pairs[i]).0 == k,
        forall|i: int, j: int|
            0 <= i < j < pairs.len() ==> (#[trigger] pairs[i]).0 != (#[trigger] pairs[j]).0,
{
    let keys = keys_of(pairs);
    assert forall|k: K| input.contains_key(k) implies exists|i: int|
        0 <= i < pairs.len() && (#[trigger] pairs[i]).0 == k by {
        assert(keys.to_set().contains(k));
        let i = choose|i: int| 0 <= i < keys.len() && keys[i] == k;
        assert(pairs[i].0 == k);
    }
    assert forall|i: int, j: int| 0 <= i < j < pairs.len() implies (#[trigger] pairs[i]).0 != (
    #[trigger] pairs[j]).0 by {
        assert(keys[i] != keys[j]);
    }
}

/// Every rendering that the map adapter returns is the one that the scalar
/// adapter gives for the timestamp under the same key, in a zone of the
/// directory that answers to the name of that timestamp.
pub proof fn map_adapter_is_scalar_adapter<K, V: TimeZoner>(
    input: Map<K, V>,
    zones: Seq<gostd_time::Location>,
    pairs: Seq<(K, (gostd_time::Time, Seq<char>, Seq<char>))>,
    i: int,
)
    requires
        localizes_map(input, zones, pairs),
        0 <= i < pairs.len(),
    ensures
        input.contains_key(pairs[i].0),
        exists|at: int|
            {
                &&& 0 <= at < zones.len()
                &&& serves(#[trigger] zones[at], input[pairs[i].0].zone())
                &&& pairs[i].1 == localization(input[pairs[i].0], zones[at])
            },
{
    let at = choose|at: int|
        {
            &&& #[trigger] first_serving(zones, input[pairs[i].0].zone(), at)
            &&& pairs[i].1 == localization(input[pairs[i].0], zones[at])
        };
    assert(serves(zones[at], input[pairs[i].0].zone()));
}

/// The order in which a map hands out its entries does not matter: pairs that
/// stand for a map still stand for it when they are put in another order.
/// `place` says where each pair of `shuffled` stood in `pairs`.
pub proof fn map_adapter_ignores_order<K, V: TimeZoner>(
    input: Map<K, V>,
    zones: Seq<gostd_time::Location>,
    pairs: Seq<(K, (gostd_time::Time, Seq<char>, Seq<char>))>,
    shuffled: Seq<(K, (gostd_time::Time, Seq<char>, Seq<char>))>,
    place: spec_fn(int) -> int,
)
    requires
        input.dom().finite(),
        localizes_map(input, zones, pairs),
        shuffled.len() == pairs.len(),
        forall|j: int|
            0 <= j < shuffled.len() ==> {
                &&& 0 <= #[trigger] place(j) < pairs.len()
                &&& shuffled[j] == pairs[place(j)]
            },
        forall|i: int, j: int|
            0 <= i < j < shuffled.len() ==> #[trigger] place(i) != #[trigger] place(j),
    ensures
        localizes_map(input, zones, shuffled),
{
    let keys = keys_of(pairs);
    let moved = keys_of(shuffled);
    assert forall|i: int, j: int|
        0 <= i < moved.len() && 0 <= j < moved.len() && i != j implies moved[i] != moved[j] by {
        assert(moved[i] == keys[place(i)]);
        assert(moved[j] == keys[place(j)]);
        if i < j {
            assert(place(i) != place(j));
        } else {
            assert(place(j) != place(i));
        }
    }
    assert forall|k: K| moved.to_set().contains(k) implies input.dom().contains(k) by {
        let j = choose|j: int| 0 <= j < moved.len() && moved[j] == k;
        assert(input.contains_key(pairs[place(j)].0));
    }
    moved.unique_seq_to_set();
    lemma_subset_equality(moved.to_set(), input.dom());
    assert forall|j: int| 0 <= j < shuffled.len() implies {
        &&& input.contains_key((#[trigger] shuffled[j]).0)
        &&& exists|at: int|
            {
                &&& #[trigger] first_serving(zones, input[shuffled[j].0].zone(), at)
                &&& shuffled[j].1 == localization(input[shuffled[j].0], zones[at])
            }
    } by {
        assert(shuffled[j] == pairs[place(j)]);
    }
}

} // verus!
