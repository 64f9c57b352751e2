//! What a store of records owes its callers.

use crate::entities::sensor_data::{SensorData, SensorDataView};
use vstd::prelude::*;

verus! {

/// A failure of the store. What went wrong is the store's to say; nothing
/// here looks into it.
#[derive(Debug)]
pub struct StorageError {
    pub message: String,
}

impl Clone for StorageError {
    fn clone(&self) -> (r: StorageError)
        ensures
            r == *self,
    {
        StorageError { message: self.message.clone() }
    }
}

/// Of `records`, those of the device `device_id`, in their order.
pub open spec fn records_of_device(records: Seq<SensorDataView>, device_id: Seq<char>) -> Seq<
    SensorDataView,
>
    decreases records.len(),
{
    if records.len() == 0 {
        Seq::empty()
    } else if records.last().device_id == device_id {
        records_of_device(records.drop_last(), device_id).push(records.last())
    } else {
        records_of_device(records.drop_last(), device_id)
    }
}

/// What a list of records stands for.
pub open spec fn views_of(records: Seq<SensorData>) -> Seq<SensorDataView> {
    Seq::new(records.len(), |i: int| records[i]@)
}

/// A store that keeps every record it is given and finds them again by
/// device. It neither checks a record nor leaves one out because an equal one
/// is there already.
pub trait SensorRepository {
    /// Every record saved so far, in the order of saving.
    spec fn saved(&self) -> Seq<SensorDataView>;

    /// Keeps `data`. Either the record is kept whole or, on failure, the
    /// store holds what it held before.
    fn save(&mut self, data: &SensorData) -> (r: Result<(), StorageError>)
        ensures
            r is Ok ==> final(self).saved() == old(self).saved().push(data@),
            r is Err ==> final(self).saved() == old(self).saved(),
    ;

    /// Every record saved for `device_id`, each as often as it was saved, in
    /// no promised order. That there is none is no failure: the list is then
    /// empty.
    fn find_by_device_id(&self, device_id: &str) -> (r: Result<Vec<SensorData>, StorageError>)
        ensures
            r matches Ok(found) ==> views_of(found@).to_multiset() == records_of_device(
                self.saved(),
                device_id@,
            ).to_multiset(),
    ;
}

/// Every record found for a device is a record of that device.
pub proof fn lemma_found_records_are_of_device(
    records: Seq<SensorDataView>,
    device_id: Seq<char>,
    i: int,
)
    requires
        0 <= i < records_of_device(records, device_id).len(),
    ensures
        records_of_device(records, device_id)[i].device_id == device_id,
        records.contains(records_of_device(records, device_id)[i]),
    decreases records.len(),
{
    if records.len() > 0 {
        let front = records.drop_last();
        let found = records_of_device(front, device_id);
        if records.last().device_id == device_id && i == found.len() {
            assert(records[records.len() - 1] == records.last());
        } else {
            lemma_found_records_are_of_device(front, device_id, i);
            let k = choose|k: int| 0 <= k < front.len() && front[k] == found[i];
            assert(records[k] == found[i]);
        }
    }
}

/// Where nothing was saved for a device, nothing is found for it.
pub proof fn lemma_nothing_saved_nothing_found(records: Seq<SensorDataView>, device_id: Seq<char>)
    requires
        forall|i: int| 0 <= i < records.len() ==> (#[trigger] records[i]).device_id != device_id,
    ensures
        records_of_device(records, device_id) == Seq::<SensorDataView>::empty(),
    decreases records.len(),
{
    if records.len() > 0 {
        let front = records.drop_last();
        assert forall|i: int| 0 <= i < front.len() implies (#[trigger] front[i]).device_id
            != device_id by {
            assert(records[i].device_id != device_id);
        }
        lemma_nothing_saved_nothing_found(front, device_id);
        assert(records[records.len() - 1].device_id != device_id);
    }
}

/// A record just saved is found under its own device, after all that was
/// found there before, and under no other device.
pub proof fn lemma_saved_record_is_found(
    records: Seq<SensorDataView>,
    data: SensorDataView,
    device_id: Seq<char>,
)
    ensures
        records_of_device(records.push(data), device_id) == if data.device_id == device_id {
            records_of_device(records, device_id).push(data)
        } else {
            records_of_device(records, device_id)
        },
{
    assert(records.push(data).drop_last() =~= records);
}

} // verus!
