//! Measurements found by the name of their sensor.

use crate::entities::sensor_data::{Measurement, SensorMeasurement};
use crate::text::same_text;
use vstd::prelude::*;

verus! {

/// The mapping that a list of named measurements spells when it is read from
/// the front: a name that occurs again takes the later measurement.
pub open spec fn fields_mapping(fields: Seq<(Seq<char>, Measurement)>) -> Map<
    Seq<char>,
    Measurement,
>
    decreases fields.len(),
{
    if fields.len() == 0 {
        Map::empty()
    } else {
        fields_mapping(fields.drop_last()).insert(fields.last().0, fields.last().1)
    }
}

/// Whether no two fields carry the same name.
pub open spec fn names_distinct(fields: Seq<(Seq<char>, Measurement)>) -> bool {
    forall|i: int, j: int|
        0 <= i < j < fields.len() ==> (#[trigger] fields[i]).0 != (#[trigger] fields[j]).0
}

/// What a list of stored entries stands for.
pub open spec fn fields_of(entries: Seq<(String, SensorMeasurement)>) -> Seq<
    (Seq<char>, Measurement),
> {
    Seq::new(entries.len(), |i: int| (entries[i].0@, entries[i].1@))
}

/// A mapping from sensor names to measurements. Each name occurs at most once;
/// a measurement put under a name that is taken replaces the one that was
/// there.
#[derive(Debug)]
pub struct MeasurementMap {
    entries: Vec<(String, SensorMeasurement)>,
}

impl View for MeasurementMap {
    type V = Map<Seq<char>, Measurement>;

    open spec fn view(&self) -> Map<Seq<char>, Measurement> {
        fields_mapping(self.fields())
    }
}

impl MeasurementMap {
    #[verifier::type_invariant]
    closed spec fn distinct(&self) -> bool {
        names_distinct(fields_of(self.entries@))
    }

    /// The names with their measurements, in the order in which the names
    /// first came in.
    pub closed spec fn fields(&self) -> Seq<(Seq<char>, Measurement)> {
        fields_of(self.entries@)
    }

    /// The mapping without any name.
    pub fn new() -> (r: MeasurementMap)
        ensures
            r.fields() == Seq::<(Seq<char>, Measurement)>::empty(),
            r@ == Map::<Seq<char>, Measurement>::empty(),
    {
        let r = MeasurementMap { entries: Vec::new() };
        assert(r.fields() =~= Seq::<(Seq<char>, Measurement)>::empty());
        r
    }

    /// The place of the entry called `name`, if there is one.
    fn find(&self, name: &str) -> (r: Option<usize>)
        ensures
            match r {
                Some(i) => i < self.fields().len() && self.fields()[i as int].0 == name@,
                None => forall|i: int|
                    0 <= i < self.fields().len() ==> (#[trigger] self.fields()[i]).0 != name@,
            },
    {
        let mut i: usize = 0;
        while i < self.entries.len()
            invariant
                i <= self.entries@.len(),
                forall|j: int| 0 <= j < i ==> (#[trigger] self.fields()[j]).0 != name@,
            decreases self.entries@.len() - i,
        {
            if same_text(self.entries[i].0.as_str(), name) {
                return Some(i);
            }
            i += 1;
        }
        None
    }

    /// How many names the mapping holds.
    pub fn len(&self) -> (r: usize)
        ensures
            r == self.fields().len(),
            names_distinct(self.fields()),
            self@.dom().finite(),
            r == self@.dom().len(),
    {
        proof {
            use_type_invariant(self);
            lemma_domain_size(self.fields());
        }
        self.entries.len()
    }

    /// Whether the mapping holds no name.
    pub fn is_empty(&self) -> (r: bool)
        ensures
            r == (self.fields().len() == 0),
            r == (self@ == Map::<Seq<char>, Measurement>::empty()),
    {
        proof {
            use_type_invariant(self);
            if self.fields().len() > 0 {
                lemma_present(self.fields(), 0);
            }
        }
        self.entries.len() == 0
    }

    /// Whether a measurement stands under `name`.
    pub fn contains_key(&self, name: &str) -> (r: bool)
        ensures
            r == self@.dom().contains(name@),
    {
        proof {
            use_type_invariant(self);
        }
        match self.find(name) {
            Some(i) => {
                proof {
                    lemma_present(self.fields(), i as int);
                }
                true
            },
            None => {
                proof {
                    lemma_absent(self.fields(), name@);
                }
                false
            },
        }
    }

    /// The measurement under `name`, if there is one.
    pub fn get(&self, name: &str) -> (r: Option<&SensorMeasurement>)
        ensures
            match r {
                Some(found) => self@.dom().contains(name@) && found@ == self@[name@],
                None => !self@.dom().contains(name@),
            },
    {
        proof {
            use_type_invariant(self);
        }
        match self.find(name) {
            Some(i) => {
                proof {
                    lemma_present(self.fields(), i as int);
                }
                Some(&self.entries[i].1)
            },
            None => {
                proof {
                    lemma_absent(self.fields(), name@);
                }
                None
            },
        }
    }

    /// The name and the measurement at place `i` of the fields.
    pub fn entry(&self, i: usize) -> (r: (&str, &SensorMeasurement))
        requires
            i < self.fields().len(),
        ensures
            (r.0@, r.1@) == self.fields()[i as int],
            self@.dom().contains(r.0@),
            self@[r.0@] == r.1@,
    {
        proof {
            use_type_invariant(self);
            lemma_present(self.fields(), i as int);
        }
        (self.entries[i].0.as_str(), &self.entries[i].1)
    }

    /// Puts `measurement` under `name`. Whatever stood under that name is
    /// replaced, in its place among the fields; a new name goes to the end.
    /// Every other name keeps its measurement.
    pub fn insert(&mut self, name: String, measurement: SensorMeasurement)
        ensures
            final(self)@ == old(self)@.insert(name@, measurement@),
            final(self).fields() == put(old(self).fields(), name@, measurement@),
    {
        proof {
            use_type_invariant(&*self);
        }
        let place = self.find(name.as_str());
        // the list is changed outside the mapping and put back whole
        let mut taken = MeasurementMap { entries: Vec::new() };
        core::mem::swap(self, &mut taken);
        let mut entries = taken.entries;
        let ghost before = fields_of(entries@);
        match place {
            Some(i) => {
                entries.set(i, (name, measurement));
                proof {
                    assert(place_of(before, name@) == i) by {
                        lemma_place_is_first(before, name@, i as int);
                    }
                    lemma_replaced(before, i as int, measurement@);
                    assert(fields_of(entries@) =~= before.update(i as int, (name@, measurement@)));
                }
            },
            None => {
                entries.push((name, measurement));
                proof {
                    assert(place_of(before, name@) == before.len()) by {
                        lemma_place_is_first(before, name@, before.len() as int);
                    }
                    lemma_appended(before, (name@, measurement@));
                    assert(fields_of(entries@) =~= before.push((name@, measurement@)));
                }
            },
        }
        *self = MeasurementMap { entries };
    }
}

impl Clone for MeasurementMap {
    fn clone(&self) -> (r: MeasurementMap)
        ensures
            r.fields() == self.fields(),
            r@ == self@,
    {
        proof {
            use_type_invariant(self);
        }
        let mut entries: Vec<(String, SensorMeasurement)> = Vec::new();
        let mut i: usize = 0;
        while i < self.entries.len()
            invariant
                i <= self.entries@.len(),
                entries@.len() == i,
                forall|j: int|
                    0 <= j < i ==> (#[trigger] entries@[j]).0@ == self.entries@[j].0@
                        && entries@[j].1@ == self.entries@[j].1@,
            decreases self.entries@.len() - i,
        {
            entries.push((self.entries[i].0.clone(), self.entries[i].1.clone()));
            i += 1;
        }
        assert(fields_of(entries@) =~= self.fields());
        MeasurementMap { entries }
    }
}

/// The first place at which `name` stands among the fields, or their number
/// where it stands nowhere.
pub open spec fn place_of(fields: Seq<(Seq<char>, Measurement)>, name: Seq<char>) -> int
    decreases fields.len(),
{
    if fields.len() == 0 {
        0
    } else if fields.first().0 == name {
        0
    } else {
        1 + place_of(fields.drop_first(), name)
    }
}

/// The fields after `measurement` is put under `name`: written over the field
/// of that name where there is one, added at the end where there is none.
pub open spec fn put(
    fields: Seq<(Seq<char>, Measurement)>,
    name: Seq<char>,
    measurement: Measurement,
) -> Seq<(Seq<char>, Measurement)> {
    let place = place_of(fields, name);
    if place < fields.len() {
        fields.update(place, (name, measurement))
    } else {
        fields.push((name, measurement))
    }
}

/// The place at which a name is found, none of the fields before it carrying
/// the name, is its first place.
proof fn lemma_place_is_first(fields: Seq<(Seq<char>, Measurement)>, name: Seq<char>, i: int)
    requires
        0 <= i <= fields.len(),
        forall|j: int| 0 <= j < i ==> (#[trigger] fields[j]).0 != name,
        i < fields.len() ==> fields[i].0 == name,
    ensures
        place_of(fields, name) == i,
    decreases fields.len(),
{
    if fields.len() > 0 && i > 0 {
        assert(fields[0].0 != name);
        let rest = fields.drop_first();
        assert forall|j: int| 0 <= j < i - 1 implies (#[trigger] rest[j]).0 != name by {
            assert(fields[j + 1].0 != name);
        }
        lemma_place_is_first(rest, name, i - 1);
    }
}

/// A name that no field carries is not in the mapping.
proof fn lemma_absent(fields: Seq<(Seq<char>, Measurement)>, name: Seq<char>)
    requires
        forall|i: int| 0 <= i < fields.len() ==> (#[trigger] fields[i]).0 != name,
    ensures
        !fields_mapping(fields).dom().contains(name),
    decreases fields.len(),
{
    if fields.len() > 0 {
        let front = fields.drop_last();
        assert forall|i: int| 0 <= i < front.len() implies (#[trigger] front[i]).0 != name by {
            assert(fields[i].0 != name);
        }
        lemma_absent(front, name);
        assert(fields[fields.len() - 1].0 != name);
    }
}

/// The front of a list with distinct names has distinct names.
proof fn lemma_front_distinct(fields: Seq<(Seq<char>, Measurement)>)
    requires
        names_distinct(fields),
        fields.len() > 0,
    ensures
        names_distinct(fields.drop_last()),
        forall|i: int|
            0 <= i < fields.len() - 1 ==> (#[trigger] fields.drop_last()[i]).0 != fields.last().0,
{
    let front = fields.drop_last();
    assert forall|i: int, j: int| 0 <= i < j < front.len() implies (#[trigger] front[i]).0 != (
    #[trigger] front[j]).0 by {
        assert(fields[i].0 != fields[j].0);
    }
    assert forall|i: int| 0 <= i < fields.len() - 1 implies (#[trigger] front[i]).0
        != fields.last().0 by {
        assert(fields[i].0 != fields[fields.len() - 1].0);
    }
}

/// Among distinct names, each field's name maps to that field's measurement.
proof fn lemma_present(fields: Seq<(Seq<char>, Measurement)>, i: int)
    requires
        names_distinct(fields),
        0 <= i < fields.len(),
    ensures
        fields_mapping(fields).dom().contains(fields[i].0),
        fields_mapping(fields)[fields[i].0] == fields[i].1,
    decreases fields.len(),
{
    if i < fields.len() - 1 {
        lemma_front_distinct(fields);
        let front = fields.drop_last();
        assert(front[i] == fields[i]);
        lemma_present(front, i);
    }
}

/// Writing a measurement over the field at place `i` puts it under that
/// field's name and leaves the rest of the mapping alone.
proof fn lemma_replaced(fields: Seq<(Seq<char>, Measurement)>, i: int, measurement: Measurement)
    requires
        names_distinct(fields),
        0 <= i < fields.len(),
    ensures
        names_distinct(fields.update(i, (fields[i].0, measurement))),
        fields_mapping(fields.update(i, (fields[i].0, measurement))) == fields_mapping(
            fields,
        ).insert(fields[i].0, measurement),
    decreases fields.len(),
{
    let name = fields[i].0;
    let after = fields.update(i, (name, measurement));
    assert forall|a: int, b: int| 0 <= a < b < after.len() implies (#[trigger] after[a]).0 != (
    #[trigger] after[b]).0 by {
        assert(fields[a].0 != fields[b].0);
    }
    let front = fields.drop_last();
    lemma_front_distinct(fields);
    if i == fields.len() - 1 {
        assert(after.drop_last() =~= front);
        assert(fields_mapping(after) =~= fields_mapping(fields).insert(name, measurement));
    } else {
        assert(front[i] == fields[i]);
        lemma_replaced(front, i, measurement);
        assert(after.drop_last() =~= front.update(i, (name, measurement)));
        assert(after.last() == fields.last());
        assert(fields.last().0 != name);
        assert(fields_mapping(after) =~= fields_mapping(fields).insert(name, measurement));
    }
}

/// Adding a field under a name that is free keeps the names distinct and puts
/// the measurement under that name.
proof fn lemma_appended(fields: Seq<(Seq<char>, Measurement)>, field: (Seq<char>, Measurement))
    requires
        names_distinct(fields),
        forall|i: int| 0 <= i < fields.len() ==> (#[trigger] fields[i]).0 != field.0,
    ensures
        names_distinct(fields.push(field)),
        fields_mapping(fields.push(field)) == fields_mapping(fields).insert(field.0, field.1),
{
    let after = fields.push(field);
    assert forall|a: int, b: int| 0 <= a < b < after.len() implies (#[trigger] after[a]).0 != (
    #[trigger] after[b]).0 by {
        if b < fields.len() {
            assert(fields[a].0 != fields[b].0);
        } else {
            assert(fields[a].0 != field.0);
        }
    }
    assert(after.drop_last() =~= fields);
}

/// A list with distinct names maps as many names as it has fields.
proof fn lemma_domain_size(fields: Seq<(Seq<char>, Measurement)>)
    requires
        names_distinct(fields),
    ensures
        fields_mapping(fields).dom().finite(),
        fields_mapping(fields).dom().len() == fields.len(),
    decreases fields.len(),
{
    if fields.len() > 0 {
        let front = fields.drop_last();
        lemma_front_distinct(fields);
        lemma_domain_size(front);
        lemma_absent(front, fields.last().0);
    }
}

} // verus!
