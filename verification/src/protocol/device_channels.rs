//! The one-to-one table of devices and their channels, kept in a `bimap::BiHashMap` from
//! device numbers to channel bytes.

use bimap::BiHashMap;
use vstd::prelude::*;

verus! {

#[verifier::external_type_specification]
#[verifier::external_body]
#[verifier::reject_recursive_types(L)]
#[verifier::reject_recursive_types(R)]
#[verifier::reject_recursive_types(LS)]
#[verifier::reject_recursive_types(RS)]
pub struct ExBiHashMap<L, R, LS, RS>(BiHashMap<L, R, LS, RS>);

/// The pairs of a table of device numbers (left) and channel bytes (right), as a map from
/// left to right.
pub uninterp spec fn device_channel_pairs(m: DeviceTable) -> Map<u32, u8>;

/// A table of device numbers and channel bytes.
pub type DeviceTable = BiHashMap<u32, u8>;

/// Calls `BiHashMap::new`; the contract states that the new table holds no pair.
#[verifier::external_body]
pub(crate) fn table_new() -> (table: DeviceTable)
    ensures
        device_channel_pairs(table).dom() == Set::<u32>::empty(),
{
    BiHashMap::new()
}

/// Calls `BiHashMap::len`, which the source defines as the number of left-right pairs.
#[verifier::external_body]
pub(crate) fn table_len(m: &DeviceTable) -> (n: usize)
    ensures
        n == device_channel_pairs(*m).len(),
{
    m.len()
}

/// Calls `BiHashMap::is_empty`: true exactly when the table holds no pair.
#[verifier::external_body]
pub(crate) fn table_is_empty(m: &DeviceTable) -> (b: bool)
    ensures
        b == (device_channel_pairs(*m).len() == 0),
{
    m.is_empty()
}

/// Calls `BiHashMap::get_by_left`: the right value paired with `left`, if any.
#[verifier::external_body]
pub(crate) fn table_get_by_left(m: &DeviceTable, left: u32) -> (r: Option<u8>)
    ensures
        r == (if device_channel_pairs(*m).contains_key(left) {
            Some(device_channel_pairs(*m)[left])
        } else {
            None
        }),
{
    m.get_by_left(&left).copied()
}

/// Calls `BiHashMap::get_by_right`: the left value paired with `right`, if any. Each right
/// value is paired with at most one left value.
#[verifier::external_body]
pub(crate) fn table_get_by_right(m: &DeviceTable, right: u8) -> (r: Option<u32>)
    ensures
        r matches Some(left) ==> device_channel_pairs(*m).contains_key(left)
            && device_channel_pairs(*m)[left] == right,
        r is None ==> forall|left: u32| #[trigger] device_channel_pairs(*m).contains_key(left)
            ==> device_channel_pairs(*m)[left] != right,
{
    m.get_by_right(&right).copied()
}

/// Calls `BiHashMap::insert`: the pairs that held `left` or `right` are removed and the
/// pair of `left` and `right` is added. What was overwritten is not passed on.
#[verifier::external_body]
pub(crate) fn table_insert(m: &mut DeviceTable, left: u32, right: u8)
    ensures
        device_channel_pairs(*final(m)) == device_channel_pairs(*old(m)).restrict(
            device_channel_pairs(*old(m)).dom().filter(
                |k: u32| k != left && device_channel_pairs(*old(m))[k] != right,
            ),
        ).insert(left, right),
{
    m.insert(left, right);
}

} // verus!
