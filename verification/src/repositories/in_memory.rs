//! A store that keeps its records in memory.

use crate::entities::sensor_data::{SensorData, SensorDataView};
use crate::repositories::sensor_repository::{
    records_of_device, views_of, SensorRepository, StorageError,
};
use crate::text::same_text;
use vstd::prelude::*;

verus! {

/// A store that lives as long as the value does. It never fails, and it finds
/// records in the order in which they were saved.
#[derive(Debug)]
pub struct InMemorySensorRepository {
    records: Vec<SensorData>,
}

impl InMemorySensorRepository {
    /// A store with nothing in it.
    pub fn new() -> (r: InMemorySensorRepository)
        ensures
            r.saved() == Seq::<SensorDataView>::empty(),
    {
        let r = InMemorySensorRepository { records: Vec::new() };
        assert(r.saved() =~= Seq::<SensorDataView>::empty());
        r
    }

    /// How many records the store holds.
    pub fn len(&self) -> (r: usize)
        ensures
            r == self.saved().len(),
    {
        self.records.len()
    }
}

impl SensorRepository for InMemorySensorRepository {
    closed spec fn saved(&self) -> Seq<SensorDataView> {
        views_of(self.records@)
    }

    fn save(&mut self, data: &SensorData) -> (r: Result<(), StorageError>)
        ensures
            r is Ok,
    {
        self.records.push(data.clone());
        assert(self.saved() =~= old(self).saved().push(data@));
        Ok(())
    }

    fn find_by_device_id(&self, device_id: &str) -> (r: Result<Vec<SensorData>, StorageError>)
        ensures
            r matches Ok(found) && views_of(found@) == records_of_device(
                self.saved(),
                device_id@,
            ),
    {
        let mut found: Vec<SensorData> = Vec::new();
        let mut i: usize = 0;
        while i < self.records.len()
            invariant
                i <= self.records@.len(),
                views_of(found@) == records_of_device(self.saved().take(i as int), device_id@),
            decreases self.records@.len() - i,
        {
            let record = &self.records[i];
            proof {
                assert(self.saved().take(i + 1).drop_last() =~= self.saved().take(i as int));
                assert(self.saved().take(i + 1).last() == record@);
            }
            let ghost before = views_of(found@);
            if same_text(record.device_id.as_str(), device_id) {
                found.push(record.clone());
                assert(views_of(found@) =~= before.push(record@));
            }
            i += 1;
        }
        assert(self.saved().take(self.records@.len() as int) =~= self.saved());
        Ok(found)
    }
}

} // verus!
