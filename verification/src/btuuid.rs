//! Bluetooth identifiers as 128-bit numbers.
//!
//! A service or characteristic that the Bluetooth SIG has assigned a 16-bit
//! number is known on the air by that number placed in bits 96 to 111 of
//! the Bluetooth base UUID. The two identifiers that a session looks for
//! are taken from bluest's table of assigned numbers.

use vstd::prelude::*;

verus! {

/// The Bluetooth base UUID, `00000000-0000-1000-8000-00805f9b34fb`.
pub const BLUETOOTH_BASE_UUID: u128 = 0x00000000_0000_1000_8000_00805f9b34fb;

/// The fitness-machine service, assigned number `0x1826`.
pub const FITNESS_MACHINE: u128 = 0x00001826_0000_1000_8000_00805f9b34fb;

/// The indoor-bike-data characteristic, assigned number `0x2AD2`.
pub const INDOOR_BIKE_DATA: u128 = 0x00002ad2_0000_1000_8000_00805f9b34fb;

/// The full identifier of a 16-bit assigned number.
pub open spec fn spec_bluetooth_uuid(short: u16) -> u128 {
    ((short as u128) << 96) | BLUETOOTH_BASE_UUID
}

/// Reads `bluest::btuuid::services::FITNESS_MACHINE` as a number, with
/// `Uuid::as_u128`. bluest defines the constant as the assigned number
/// `0x1826` shifted to bit 96 and joined with the base UUID, and the
/// number of a UUID is the number it was made from.
#[verifier::external_body]
pub(crate) fn fitness_machine_service() -> (id: u128)
    ensures
        id == spec_bluetooth_uuid(0x1826),
{
    bluest::btuuid::services::FITNESS_MACHINE.as_u128()
}

/// Reads `bluest::btuuid::characteristics::INDOOR_BIKE_DATA` as a number,
/// with `Uuid::as_u128`. bluest defines the constant as the assigned
/// number `0x2AD2` shifted to bit 96 and joined with the base UUID, and
/// the number of a UUID is the number it was made from.
#[verifier::external_body]
pub(crate) fn indoor_bike_data_characteristic() -> (id: u128)
    ensures
        id == spec_bluetooth_uuid(0x2AD2),
{
    bluest::btuuid::characteristics::INDOOR_BIKE_DATA.as_u128()
}

/// The two identifiers that a session looks for are the assigned numbers
/// `0x1826` and `0x2AD2` on the base UUID.
pub proof fn assigned_numbers()
    ensures
        FITNESS_MACHINE == spec_bluetooth_uuid(0x1826),
        INDOOR_BIKE_DATA == spec_bluetooth_uuid(0x2AD2),
        FITNESS_MACHINE != INDOOR_BIKE_DATA,
{
    assert((0x1826u128 << 96) | 0x00000000_0000_1000_8000_00805f9b34fbu128
        == 0x00001826_0000_1000_8000_00805f9b34fbu128) by (bit_vector);
    assert((0x2ad2u128 << 96) | 0x00000000_0000_1000_8000_00805f9b34fbu128
        == 0x00002ad2_0000_1000_8000_00805f9b34fbu128) by (bit_vector);
}

/// Whether `i` is the least index at which `ids` holds `wanted`.
pub open spec fn is_first_index(ids: Seq<u128>, wanted: u128, i: int) -> bool {
    &&& 0 <= i < ids.len()
    &&& ids[i] == wanted
    &&& forall|j: int| 0 <= j < i ==> ids[j] != wanted
}

/// Where `wanted` first occurs in `ids`, if it occurs.
pub open spec fn first_index(ids: Seq<u128>, wanted: u128) -> Option<int> {
    if exists|i: int| is_first_index(ids, wanted, i) {
        Some(choose|i: int| is_first_index(ids, wanted, i))
    } else {
        None
    }
}

/// A least index is the first index.
pub proof fn first_index_found(ids: Seq<u128>, wanted: u128, i: int)
    requires
        is_first_index(ids, wanted, i),
    ensures
        first_index(ids, wanted) == Some(i),
        ids.contains(wanted),
{
    let k = choose|k: int| is_first_index(ids, wanted, k);
    assert(is_first_index(ids, wanted, k));
    if k < i {
        assert(ids[k] != wanted);
    }
    if i < k {
        assert(ids[i] != wanted);
    }
}

/// There is a first index exactly when the identifier occurs.
pub proof fn first_index_some_iff_contains(ids: Seq<u128>, wanted: u128)
    ensures
        first_index(ids, wanted) is Some <==> ids.contains(wanted),
        first_index(ids, wanted) matches Some(i) ==> is_first_index(ids, wanted, i),
{
    if ids.contains(wanted) {
        let k = choose|k: int| 0 <= k < ids.len() && ids[k] == wanted;
        least_index_exists(ids, wanted, k);
    }
    if first_index(ids, wanted) is Some {
        let i = choose|i: int| is_first_index(ids, wanted, i);
        assert(is_first_index(ids, wanted, i));
        assert(ids[i] == wanted);
    }
}

proof fn least_index_exists(ids: Seq<u128>, wanted: u128, k: int)
    requires
        0 <= k < ids.len(),
        ids[k] == wanted,
    ensures
        exists|i: int| is_first_index(ids, wanted, i),
    decreases k,
{
    if exists|j: int| 0 <= j < k && ids[j] == wanted {
        let j = choose|j: int| 0 <= j < k && ids[j] == wanted;
        least_index_exists(ids, wanted, j);
    } else {
        assert(is_first_index(ids, wanted, k));
    }
}

/// Finds the first entry of `ids` equal to `wanted`.
pub fn position(ids: &[u128], wanted: u128) -> (r: Option<usize>)
    ensures
        r is Some <==> ids@.contains(wanted),
        r matches Some(i) ==> first_index(ids@, wanted) == Some(i as int),
        r is None ==> first_index(ids@, wanted) is None,
{
    let mut i: usize = 0;
    while i < ids.len()
        invariant
            i <= ids@.len(),
            forall|j: int| 0 <= j < i ==> ids@[j] != wanted,
        decreases ids@.len() - i,
    {
        if ids[i] == wanted {
            proof {
                first_index_found(ids@, wanted, i as int);
            }
            return Some(i);
        }
        i += 1;
    }
    proof {
        first_index_some_iff_contains(ids@, wanted);
    }
    None
}

/// Whether `wanted` is one of `ids`.
pub fn advertises(ids: &[u128], wanted: u128) -> (b: bool)
    ensures
        b <==> ids@.contains(wanted),
{
    position(ids, wanted).is_some()
}

} // verus!
