//! Stored documents and their mapping to and from records.
//!
//! A document holds what a record holds, and beside it the identifier that
//! the store gives to what it keeps. Its further sensors are a list of named
//! fields, as a document has them: in an order, and read from the front, so
//! that of two fields with one name the later counts.

use crate::double::Double;
use crate::entities::measurement_map::{fields_mapping, MeasurementMap};
use crate::entities::sensor_data::{
    slot_view, Measurement, SensorData, SensorDataView, SensorMeasurement as DomainMeasurement,
};
use crate::time::Timestamp;
use vstd::prelude::*;

verus! {

/// A measurement as it is stored.
#[derive(Debug)]
pub struct SensorMeasurement {
    pub value: Double,
    pub unit: String,
}

impl View for SensorMeasurement {
    type V = Measurement;

    open spec fn view(&self) -> Measurement {
        Measurement { value: self.value, unit: self.unit@ }
    }
}

impl Clone for SensorMeasurement {
    fn clone(&self) -> (r: SensorMeasurement)
        ensures
            r@ == self@,
    {
        SensorMeasurement { value: self.value, unit: self.unit.clone() }
    }
}

/// A record as it is stored.
#[derive(Debug)]
pub struct SensorDataDocument {
    /// The twelve bytes by which the store knows the document; `None` until
    /// the store has given them.
    pub id: Option<[u8; 12]>,
    pub device_id: String,
    pub timestamp: Timestamp,
    pub temperature: Option<SensorMeasurement>,
    pub humidity: Option<SensorMeasurement>,
    pub co2: Option<SensorMeasurement>,
    pub additional_sensors: Vec<(String, SensorMeasurement)>,
}

/// A document as a mathematical value.
pub struct SensorDataDocumentView {
    pub id: Option<[u8; 12]>,
    pub device_id: Seq<char>,
    pub timestamp: Timestamp,
    pub temperature: Option<Measurement>,
    pub humidity: Option<Measurement>,
    pub co2: Option<Measurement>,
    pub additional_sensors: Seq<(Seq<char>, Measurement)>,
}

/// What a slot of a document stands for.
pub open spec fn stored_slot_view(slot: Option<SensorMeasurement>) -> Option<Measurement> {
    match slot {
        Some(measurement) => Some(measurement@),
        None => None,
    }
}

/// What the named fields of a document stand for.
pub open spec fn stored_fields_view(fields: Seq<(String, SensorMeasurement)>) -> Seq<
    (Seq<char>, Measurement),
> {
    Seq::new(fields.len(), |i: int| (fields[i].0@, fields[i].1@))
}

impl View for SensorDataDocument {
    type V = SensorDataDocumentView;

    open spec fn view(&self) -> SensorDataDocumentView {
        SensorDataDocumentView {
            id: self.id,
            device_id: self.device_id@,
            timestamp: self.timestamp,
            temperature: stored_slot_view(self.temperature),
            humidity: stored_slot_view(self.humidity),
            co2: stored_slot_view(self.co2),
            additional_sensors: stored_fields_view(self.additional_sensors@),
        }
    }
}

/// The document under which a record is stored: the record's own fields, its
/// further sensors in their order, and no identifier yet.
pub open spec fn document_of(data: SensorDataView, fields: Seq<(Seq<char>, Measurement)>)
    -> SensorDataDocumentView {
    SensorDataDocumentView {
        id: None,
        device_id: data.device_id,
        timestamp: data.timestamp,
        temperature: data.temperature,
        humidity: data.humidity,
        co2: data.co2,
        additional_sensors: fields,
    }
}

/// The record that a document holds: everything but the identifier, the named
/// fields read from the front.
pub open spec fn record_of(document: SensorDataDocumentView) -> SensorDataView {
    SensorDataView {
        device_id: document.device_id,
        timestamp: document.timestamp,
        temperature: document.temperature,
        humidity: document.humidity,
        co2: document.co2,
        additional_sensors: fields_mapping(document.additional_sensors),
    }
}

impl From<&DomainMeasurement> for SensorMeasurement {
    fn from(m: &DomainMeasurement) -> (r: SensorMeasurement)
        ensures
            r@ == m@,
    {
        SensorMeasurement { value: m.value, unit: m.unit.clone() }
    }
}

impl vstd::std_specs::convert::FromSpecImpl<&DomainMeasurement> for SensorMeasurement {
    open spec fn obeys_from_spec() -> bool {
        true
    }

    open spec fn from_spec(m: &DomainMeasurement) -> SensorMeasurement {
        SensorMeasurement { value: m.value, unit: m.unit }
    }
}

impl From<SensorMeasurement> for DomainMeasurement {
    fn from(m: SensorMeasurement) -> (r: DomainMeasurement)
        ensures
            r@ == m@,
    {
        DomainMeasurement { value: m.value, unit: m.unit }
    }
}

impl vstd::std_specs::convert::FromSpecImpl<SensorMeasurement> for DomainMeasurement {
    open spec fn obeys_from_spec() -> bool {
        true
    }

    open spec fn from_spec(m: SensorMeasurement) -> DomainMeasurement {
        DomainMeasurement { value: m.value, unit: m.unit }
    }
}

/// The stored form of a slot.
fn stored_slot(slot: &Option<DomainMeasurement>) -> (r: Option<SensorMeasurement>)
    ensures
        stored_slot_view(r) == slot_view(*slot),
{
    match slot {
        Some(measurement) => Some(SensorMeasurement::from(measurement)),
        None => None,
    }
}

/// The slot that a stored slot holds.
fn loaded_slot(slot: Option<SensorMeasurement>) -> (r: Option<DomainMeasurement>)
    ensures
        slot_view(r) == stored_slot_view(slot),
{
    match slot {
        Some(measurement) => Some(DomainMeasurement::from(measurement)),
        None => None,
    }
}

impl From<&SensorData> for SensorDataDocument {
    /// The document under which `data` is stored.
    fn from(data: &SensorData) -> (r: SensorDataDocument)
        ensures
            r@ == document_of(data@, data.additional_sensors.fields()),
    {
        let n: usize = data.additional_sensors.len();
        let mut fields: Vec<(String, SensorMeasurement)> = Vec::new();
        let mut i: usize = 0;
        while i < n
            invariant
                n == data.additional_sensors.fields().len(),
                i <= n,
                fields@.len() == i,
                forall|j: int|
                    0 <= j < i ==> ((#[trigger] fields@[j]).0@, fields@[j].1@)
                        == data.additional_sensors.fields()[j],
            decreases n - i,
        {
            let (name, measurement) = data.additional_sensors.entry(i);
            fields.push((name.to_owned(), SensorMeasurement::from(measurement)));
            i += 1;
        }
        assert(stored_fields_view(fields@) =~= data.additional_sensors.fields());
        SensorDataDocument {
            id: None,
            device_id: data.device_id.clone(),
            timestamp: data.timestamp,
            temperature: stored_slot(&data.temperature),
            humidity: stored_slot(&data.humidity),
            co2: stored_slot(&data.co2),
            additional_sensors: fields,
        }
    }
}

/// What `from` returns holds a freshly made list, which no specification
/// value can name: the exact statement stands in the `ensures` of `from`
/// itself, over `document_of`.
impl vstd::std_specs::convert::FromSpecImpl<&SensorData> for SensorDataDocument {
    open spec fn obeys_from_spec() -> bool {
        false
    }

    open spec fn from_spec(data: &SensorData) -> SensorDataDocument {
        arbitrary()
    }
}

impl From<SensorDataDocument> for SensorData {
    /// The record that `document` holds.
    fn from(document: SensorDataDocument) -> (r: SensorData)
        ensures
            r@ == record_of(document@),
    {
        let ghost stored = stored_fields_view(document.additional_sensors@);
        let mut additional_sensors = MeasurementMap::new();
        let mut fields = document.additional_sensors;
        let n: usize = fields.len();
        let mut i: usize = 0;
        while i < n
            invariant
                n == fields@.len(),
                stored == stored_fields_view(fields@),
                i <= n,
                additional_sensors@ == fields_mapping(stored.take(i as int)),
            decreases n - i,
        {
            let name = fields[i].0.clone();
            let measurement = DomainMeasurement::from(fields[i].1.clone());
            additional_sensors.insert(name, measurement);
            proof {
                assert(stored.take(i + 1).drop_last() =~= stored.take(i as int));
                assert(stored.take(i + 1).last() == stored[i as int]);
            }
            i += 1;
        }
        assert(stored.take(n as int) =~= stored);
        SensorData {
            device_id: document.device_id,
            timestamp: document.timestamp,
            temperature: loaded_slot(document.temperature),
            humidity: loaded_slot(document.humidity),
            co2: loaded_slot(document.co2),
            additional_sensors,
        }
    }
}

/// What `from` returns holds a mapping built field by field, which no
/// specification value can name: the exact statement stands in the `ensures`
/// of `from` itself, over `record_of`.
impl vstd::std_specs::convert::FromSpecImpl<SensorDataDocument> for SensorData {
    open spec fn obeys_from_spec() -> bool {
        false
    }

    open spec fn from_spec(document: SensorDataDocument) -> SensorData {
        arbitrary()
    }
}

/// The records that a list of documents holds, one for one and in their order.
pub fn records_of(documents: Vec<SensorDataDocument>) -> (r: Vec<SensorData>)
    ensures
        r@.len() == documents@.len(),
        forall|i: int| 0 <= i < r@.len() ==> (#[trigger] r@[i])@ == record_of(documents@[i]@),
{
    let mut documents = documents;
    let ghost all = documents@;
    // taken from the back, the documents come out last first: turn them round
    // once, so that the second pass meets them first to last
    let mut turned: Vec<SensorDataDocument> = Vec::new();
    while documents.len() > 0
        invariant
            turned@.len() + documents@.len() == all.len(),
            forall|i: int| 0 <= i < documents@.len() ==> documents@[i] == all[i],
            forall|i: int| 0 <= i < turned@.len() ==> turned@[i] == all[all.len() - 1 - i],
        decreases documents@.len(),
    {
        let document = documents.pop().unwrap();
        turned.push(document);
    }
    let mut records: Vec<SensorData> = Vec::new();
    while turned.len() > 0
        invariant
            records@.len() + turned@.len() == all.len(),
            forall|i: int| 0 <= i < turned@.len() ==> turned@[i] == all[all.len() - 1 - i],
            forall|i: int|
                0 <= i < records@.len() ==> (#[trigger] records@[i])@ == record_of(all[i]@),
        decreases turned@.len(),
    {
        let document = turned.pop().unwrap();
        records.push(SensorData::from(document));
    }
    records
}

/// Storing a record and loading it again gives the record back: the document
/// made of a record holds that record.
pub proof fn lemma_stored_record_is_kept(data: SensorData)
    ensures
        record_of(document_of(data@, data.additional_sensors.fields())) == data@,
{
}

} // verus!
