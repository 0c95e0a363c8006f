//! The list of capture devices, with repeated reports of one device removed.

use vstd::prelude::*;
use crate::dedup::{
    all_distinct, dedup_by_keys, first_positions, is_first_occurrence, kept_keys, key_texts,
    keys_selected, lemma_dedup_by_equivalent_keys, lemma_dedup_first_seen, lemma_dedup_keys_once,
    lemma_dedup_of_distinct, lemma_first_positions, remove_duplicates_by,
};
use crate::device::{identity_key, lemma_key_text_injective, DeviceDescriptor, DeviceIdentity};

verus! {

/// The identity of each device of a list.
pub open spec fn identities(devices: Seq<DeviceDescriptor>) -> Seq<DeviceIdentity> {
    Seq::new(devices.len(), |i: int| devices[i].identity())
}

/// The devices of a list that are the first of their identity, in the order
/// of the list.
pub open spec fn distinct_devices(devices: Seq<DeviceDescriptor>) -> Seq<DeviceDescriptor> {
    dedup_by_keys(devices, identities(devices))
}

/// The catalogue for what a query of the backend gave. A query that failed
/// gives the empty catalogue: that no camera is there is no error.
pub open spec fn catalog_of(queried: Option<Vec<DeviceDescriptor>>) -> Seq<DeviceDescriptor> {
    match queried {
        Some(devices) => distinct_devices(devices@),
        None => Seq::empty(),
    }
}

/// Removes repeated reports of one device from a device list. Two reports
/// are of one device if index and readable name agree; the first stays.
pub fn unique_devices(devices: Vec<DeviceDescriptor>) -> (unique: Vec<DeviceDescriptor>)
    ensures
        unique@ == distinct_devices(devices@),
{
    let ghost all = devices@;
    let key_of = |device: &DeviceDescriptor| -> (key: String)
        ensures
            key@ == device.identity().key_text(),
            device.identity().well_formed(),
        { identity_key(device) };
    let unique: Vec<DeviceDescriptor> = remove_duplicates_by(devices, key_of);
    proof {
        let keys = choose|keys: Seq<String>| #[trigger]
            keys_selected(key_of, all, keys) && unique@ == dedup_by_keys(all, key_texts(keys));
        let texts = key_texts(keys);
        let ids = identities(all);
        assert forall|i: int| 0 <= i < all.len() implies texts[i] == ids[i].key_text()
            && ids[i].well_formed() by {
            assert(call_ensures(key_of, (&all[i],), keys[i]));
        }
        assert forall|i: int, j: int| 0 <= i < j < texts.len() implies ((texts[i] == texts[j]) <==> (
        ids[i] == ids[j])) by {
            if texts[i] == texts[j] {
                lemma_key_text_injective(ids[i], ids[j]);
            }
        }
        lemma_dedup_by_equivalent_keys(all, texts, ids);
    }
    unique
}

/// Builds the device catalogue from the answer of the backend.
pub fn enumerate(queried: Option<Vec<DeviceDescriptor>>) -> (devices: Vec<DeviceDescriptor>)
    ensures
        devices@ == catalog_of(queried),
{
    match queried {
        Some(devices) => unique_devices(devices),
        None => Vec::new(),
    }
}

/// The catalogue holds every identity of the device list exactly once, by
/// the first device that has it, and in the order in which the identities
/// are first seen.
pub proof fn lemma_catalog_first_seen(devices: Seq<DeviceDescriptor>)
    ensures
        ({
            let kept = distinct_devices(devices);
            let at = first_positions(identities(devices));
            &&& kept.len() == at.len()
            &&& forall|r: int| 0 <= r < kept.len() ==> #[trigger] kept[r] == devices[at[r]]
            &&& forall|r: int|
                0 <= r < at.len() ==> is_first_occurrence(identities(devices), #[trigger] at[r])
            &&& forall|r: int, s: int| 0 <= r < s < at.len() ==> at[r] < at[s]
            &&& all_distinct(identities(kept))
            &&& forall|i: int|
                0 <= i < devices.len() ==> identities(kept).contains(
                    #[trigger] devices[i].identity(),
                )
        }),
{
    let ids = identities(devices);
    let kept = distinct_devices(devices);
    lemma_dedup_first_seen(devices, ids);
    lemma_dedup_first_seen(ids, ids);
    lemma_first_positions(ids);
    lemma_dedup_keys_once(ids);
    assert(identities(kept) =~= kept_keys(ids)) by {
        let at = first_positions(ids);
        assert forall|r: int| 0 <= r < kept.len() implies identities(kept)[r] == kept_keys(ids)[r] by {
            assert(is_first_occurrence(ids, at[r]));
            assert(kept[r] == devices[at[r]]);
        }
    }
    assert forall|i: int| 0 <= i < devices.len() implies identities(kept).contains(
        #[trigger] devices[i].identity(),
    ) by {
        assert(ids[i] == devices[i].identity());
    }
}

/// Building the catalogue of a catalogue changes nothing.
pub proof fn lemma_catalog_idempotent(devices: Seq<DeviceDescriptor>)
    ensures
        distinct_devices(distinct_devices(devices)) == distinct_devices(devices),
{
    let kept = distinct_devices(devices);
    lemma_catalog_first_seen(devices);
    lemma_dedup_of_distinct(kept, identities(kept));
}

} // verus!
