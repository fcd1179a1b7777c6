//! Sensor records, their CSV row shapes, and the clean-up of empty optional fields.
use vstd::prelude::*;

use crate::errors::AppError;
use crate::mapping::{decode_value_mapping, mappings_view, unpack, ValueMapping};

verus! {

/// The text of an optional string field.
pub open spec fn opt_view(o: Option<String>) -> Option<Seq<char>> {
    match o {
        Some(s) => Some(s@),
        None => None,
    }
}

/// An optional field as text: an absent one reads as empty.
pub open spec fn text_or_empty(o: Option<Seq<char>>) -> Seq<char> {
    match o {
        Some(s) => s,
        None => Seq::empty(),
    }
}

/// `after` is `before` with an empty value turned into an absent one.
pub open spec fn cleared(before: Option<String>, after: Option<String>) -> bool {
    if opt_view(before) == Some(Seq::<char>::empty()) {
        after is None
    } else {
        after == before
    }
}

/// The text of an optional field, empty where it is absent.
pub fn text_of(o: &Option<String>) -> (r: String)
    ensures
        r@ == text_or_empty(opt_view(*o)),
{
    match o {
        Some(s) => s.clone(),
        None => String::new(),
    }
}

/// Turns a present but empty value into an absent one.
pub fn clear_if_empty(o: &mut Option<String>)
    ensures
        cleared(*old(o), *final(o)),
{
    let empty = match o {
        Some(s) => {
            let e = s.as_str().is_empty();
            proof {
                if e {
                    assert(s@ =~= Seq::<char>::empty());
                }
            }
            e
        },
        None => false,
    };
    if empty {
        *o = None;
    }
}

/// What every sensor record offers: its identifier as text, and the clean-up of
/// an empty identifier before it goes out.
pub trait GenericSensor: Sized {
    spec fn id_field(&self) -> Option<String>;

    /// Every field but the identifier agrees with `other`.
    spec fn same_but_id(&self, other: &Self) -> bool;

    fn get_id_as_string(&self) -> (r: String)
        ensures
            r@ == text_or_empty(opt_view(self.id_field())),
    ;

    fn clean_empty_id(&mut self)
        ensures
            cleared(old(self).id_field(), final(self).id_field()),
            final(self).same_but_id(old(self)),
    ;
}

/// What a numeric sensor adds: the clean-up of an empty unit and unit id.
pub trait NumericSensor: Sized {
    spec fn unit_field(&self) -> Option<String>;

    spec fn unit_id_field(&self) -> Option<String>;

    /// Every field but the unit and the unit id agrees with `other`.
    spec fn same_but_units(&self, other: &Self) -> bool;

    fn clean_sensor_empty_unit(&mut self)
        ensures
            cleared(old(self).unit_field(), final(self).unit_field()),
            cleared(old(self).unit_id_field(), final(self).unit_id_field()),
            final(self).same_but_units(old(self)),
    ;
}

/// A continuous-valued BACnet/IP sensor.
#[derive(Debug)]
pub struct BacnetIpNumericSensor {
    pub id: Option<String>,
    pub name: String,
    /// IEEE-754 bit pattern of the scale factor; the library never reads it.
    pub multiplier_bits: u64,
    pub object_instance: usize,
    pub object_type: String,
    pub sensor_type: String,
    pub sensor_type_id: String,
    pub unit: Option<String>,
    pub unit_id: Option<String>,
}

/// A continuous-valued Modbus/TCP sensor.
#[derive(Debug)]
pub struct ModbusTcpNumericSensor {
    pub id: Option<String>,
    pub name: String,
    /// IEEE-754 bit pattern of the scale factor; the library never reads it.
    pub multiplier_bits: u64,
    pub address: usize,
    pub register_type: String,
    pub data_setting: String,
    pub sensor_type: String,
    pub sensor_type_id: String,
    pub unit: Option<String>,
    pub unit_id: Option<String>,
}

/// An enumerated BACnet/IP sensor as a CSV row holds it: the mapping packed in one cell.
#[derive(Debug)]
pub struct BacnetIpNonNumericSersorCsv {
    pub id: String,
    pub name: String,
    pub object_instance: usize,
    pub object_type: String,
    pub sensor_type: String,
    pub sensor_type_id: String,
    pub value_mapping: String,
}

/// An enumerated BACnet/IP sensor with its mapping as an ordered list.
#[derive(Debug)]
pub struct BacnetIpNonNumericSensor {
    pub id: Option<String>,
    pub name: String,
    pub object_instance: usize,
    pub object_type: String,
    pub sensor_type: String,
    pub sensor_type_id: String,
    pub value_mapping: Vec<ValueMapping>,
}

/// An enumerated Modbus/TCP sensor as a CSV row holds it: the mapping packed in one cell.
#[derive(Debug)]
pub struct ModbusTcpNonNumericSensorCsv {
    pub id: Option<String>,
    pub name: String,
    pub address: usize,
    pub data_type: String,
    pub register_type: String,
    pub start_bit: usize,
    pub end_bit: usize,
    pub sensor_type: String,
    pub sensor_type_id: String,
    pub value_mapping: String,
}

/// An enumerated Modbus/TCP sensor with its mapping as an ordered list.
#[derive(Debug)]
pub struct ModbusTcpNonNumericSensor {
    pub id: Option<String>,
    pub name: String,
    pub address: usize,
    pub data_type: String,
    pub register_type: String,
    pub start_bit: usize,
    pub end_bit: usize,
    pub sensor_type: String,
    pub sensor_type_id: String,
    pub value_mapping: Vec<ValueMapping>,
}

impl GenericSensor for BacnetIpNumericSensor {
    open spec fn id_field(&self) -> Option<String> {
        self.id
    }

    open spec fn same_but_id(&self, o: &Self) -> bool {
        &&& self.name == o.name
        &&& self.multiplier_bits == o.multiplier_bits
        &&& self.object_instance == o.object_instance
        &&& self.object_type == o.object_type
        &&& self.sensor_type == o.sensor_type
        &&& self.sensor_type_id == o.sensor_type_id
        &&& self.unit == o.unit
        &&& self.unit_id == o.unit_id
    }

    fn get_id_as_string(&self) -> (r: String) {
        text_of(&self.id)
    }

    fn clean_empty_id(&mut self) {
        clear_if_empty(&mut self.id);
    }
}

impl NumericSensor for BacnetIpNumericSensor {
    open spec fn unit_field(&self) -> Option<String> {
        self.unit
    }

    open spec fn unit_id_field(&self) -> Option<String> {
        self.unit_id
    }

    open spec fn same_but_units(&self, o: &Self) -> bool {
        &&& self.id == o.id
        &&& self.name == o.name
        &&& self.multiplier_bits == o.multiplier_bits
        &&& self.object_instance == o.object_instance
        &&& self.object_type == o.object_type
        &&& self.sensor_type == o.sensor_type
        &&& self.sensor_type_id == o.sensor_type_id
    }

    fn clean_sensor_empty_unit(&mut self) {
        clear_if_empty(&mut self.unit_id);
        clear_if_empty(&mut self.unit);
    }
}

impl GenericSensor for ModbusTcpNumericSensor {
    open spec fn id_field(&self) -> Option<String> {
        self.id
    }

    open spec fn same_but_id(&self, o: &Self) -> bool {
        &&& self.name == o.name
        &&& self.multiplier_bits == o.multiplier_bits
        &&& self.address == o.address
        &&& self.register_type == o.register_type
        &&& self.data_setting == o.data_setting
        &&& self.sensor_type == o.sensor_type
        &&& self.sensor_type_id == o.sensor_type_id
        &&& self.unit == o.unit
        &&& self.unit_id == o.unit_id
    }

    fn get_id_as_string(&self) -> (r: String) {
        text_of(&self.id)
    }

    fn clean_empty_id(&mut self) {
        clear_if_empty(&mut self.id);
    }
}

impl NumericSensor for ModbusTcpNumericSensor {
    open spec fn unit_field(&self) -> Option<String> {
        self.unit
    }

    open spec fn unit_id_field(&self) -> Option<String> {
        self.unit_id
    }

    open spec fn same_but_units(&self, o: &Self) -> bool {
        &&& self.id == o.id
        &&& self.name == o.name
        &&& self.multiplier_bits == o.multiplier_bits
        &&& self.address == o.address
        &&& self.register_type == o.register_type
        &&& self.data_setting == o.data_setting
        &&& self.sensor_type == o.sensor_type
        &&& self.sensor_type_id == o.sensor_type_id
    }

    fn clean_sensor_empty_unit(&mut self) {
        clear_if_empty(&mut self.unit_id);
        clear_if_empty(&mut self.unit);
    }
}

impl GenericSensor for BacnetIpNonNumericSensor {
    open spec fn id_field(&self) -> Option<String> {
        self.id
    }

    open spec fn same_but_id(&self, o: &Self) -> bool {
        &&& self.name == o.name
        &&& self.object_instance == o.object_instance
        &&& self.object_type == o.object_type
        &&& self.sensor_type == o.sensor_type
        &&& self.sensor_type_id == o.sensor_type_id
        &&& self.value_mapping == o.value_mapping
    }

    fn get_id_as_string(&self) -> (r: String) {
        text_of(&self.id)
    }

    fn clean_empty_id(&mut self) {
        clear_if_empty(&mut self.id);
    }
}

impl GenericSensor for ModbusTcpNonNumericSensor {
    open spec fn id_field(&self) -> Option<String> {
        self.id
    }

    open spec fn same_but_id(&self, o: &Self) -> bool {
        &&& self.name == o.name
        &&& self.address == o.address
        &&& self.data_type == o.data_type
        &&& self.register_type == o.register_type
        &&& self.start_bit == o.start_bit
        &&& self.end_bit == o.end_bit
        &&& self.sensor_type == o.sensor_type
        &&& self.sensor_type_id == o.sensor_type_id
        &&& self.value_mapping == o.value_mapping
    }

    fn get_id_as_string(&self) -> (r: String) {
        text_of(&self.id)
    }

    fn clean_empty_id(&mut self) {
        clear_if_empty(&mut self.id);
    }
}

impl BacnetIpNonNumericSensor {
    /// The record that a CSV row stands for, with its packed mapping read back into
    /// pairs; fails where a value in the mapping is not an unsigned integer.
    pub fn from_csv(source: BacnetIpNonNumericSersorCsv) -> (r: Result<Self, AppError>)
        ensures
            match r {
                Ok(s) => {
                    &&& unpack(source.value_mapping@) == Some(mappings_view(s.value_mapping@))
                    &&& s.id == Some(source.id)
                    &&& s.name == source.name
                    &&& s.object_instance == source.object_instance
                    &&& s.object_type == source.object_type
                    &&& s.sensor_type == source.sensor_type
                    &&& s.sensor_type_id == source.sensor_type_id
                },
                Err(e) => unpack(source.value_mapping@) is None && e == AppError::InvalidValueMapping,
            },
    {
        let mappings = match decode_value_mapping(source.value_mapping.as_str()) {
            Ok(m) => m,
            Err(e) => return Err(e),
        };
        Ok(BacnetIpNonNumericSensor {
            id: Some(source.id),
            name: source.name,
            object_instance: source.object_instance,
            object_type: source.object_type,
            sensor_type: source.sensor_type,
            sensor_type_id: source.sensor_type_id,
            value_mapping: mappings,
        })
    }
}

impl ModbusTcpNonNumericSensor {
    /// The record that a CSV row stands for, with its packed mapping read back into
    /// pairs; fails where a value in the mapping is not an unsigned integer.
    pub fn from_csv(source: ModbusTcpNonNumericSensorCsv) -> (r: Result<Self, AppError>)
        ensures
            match r {
                Ok(s) => {
                    &&& unpack(source.value_mapping@) == Some(mappings_view(s.value_mapping@))
                    &&& s.id == source.id
                    &&& s.name == source.name
                    &&& s.address == source.address
                    &&& s.data_type == source.data_type
                    &&& s.register_type == source.register_type
                    &&& s.start_bit == source.start_bit
                    &&& s.end_bit == source.end_bit
                    &&& s.sensor_type == source.sensor_type
                    &&& s.sensor_type_id == source.sensor_type_id
                },
                Err(e) => unpack(source.value_mapping@) is None && e == AppError::InvalidValueMapping,
            },
    {
        let mappings = match decode_value_mapping(source.value_mapping.as_str()) {
            Ok(m) => m,
            Err(e) => return Err(e),
        };
        Ok(ModbusTcpNonNumericSensor {
            id: source.id,
            name: source.name,
            address: source.address,
            data_type: source.data_type,
            register_type: source.register_type,
            start_bit: source.start_bit,
            end_bit: source.end_bit,
            sensor_type: source.sensor_type,
            sensor_type_id: source.sensor_type_id,
            value_mapping: mappings,
        })
    }
}

impl Default for BacnetIpNumericSensor {
    fn default() -> (r: Self)
        ensures
            r.id is None,
            r.name@ == Seq::<char>::empty(),
            r.multiplier_bits == 0,
            r.object_instance == 0,
            r.object_type@ == Seq::<char>::empty(),
            r.sensor_type@ == Seq::<char>::empty(),
            r.sensor_type_id@ == Seq::<char>::empty(),
            r.unit is None,
            r.unit_id is None,
    {
        BacnetIpNumericSensor {
            id: None,
            name: String::new(),
            multiplier_bits: 0,
            object_instance: 0,
            object_type: String::new(),
            sensor_type: String::new(),
            sensor_type_id: String::new(),
            unit: None,
            unit_id: None,
        }
    }
}

impl Default for ModbusTcpNumericSensor {
    fn default() -> (r: Self)
        ensures
            r.id is None,
            r.name@ == Seq::<char>::empty(),
            r.multiplier_bits == 0,
            r.address == 0,
            r.register_type@ == Seq::<char>::empty(),
            r.data_setting@ == Seq::<char>::empty(),
            r.sensor_type@ == Seq::<char>::empty(),
            r.sensor_type_id@ == Seq::<char>::empty(),
            r.unit is None,
            r.unit_id is None,
    {
        ModbusTcpNumericSensor {
            id: None,
            name: String::new(),
            multiplier_bits: 0,
            address: 0,
            register_type: String::new(),
            data_setting: String::new(),
            sensor_type: String::new(),
            sensor_type_id: String::new(),
            unit: None,
            unit_id: None,
        }
    }
}

impl Default for BacnetIpNonNumericSensor {
    fn default() -> (r: Self)
        ensures
            r.id is None,
            r.name@ == Seq::<char>::empty(),
            r.object_instance == 0,
            r.object_type@ == Seq::<char>::empty(),
            r.sensor_type@ == Seq::<char>::empty(),
            r.sensor_type_id@ == Seq::<char>::empty(),
            r.value_mapping@ == Seq::<ValueMapping>::empty(),
    {
        BacnetIpNonNumericSensor {
            id: None,
            name: String::new(),
            object_instance: 0,
            object_type: String::new(),
            sensor_type: String::new(),
            sensor_type_id: String::new(),
            value_mapping: Vec::new(),
        }
    }
}

impl Default for ModbusTcpNonNumericSensor {
    fn default() -> (r: Self)
        ensures
            r.id is None,
            r.name@ == Seq::<char>::empty(),
            r.address == 0,
            r.data_type@ == Seq::<char>::empty(),
            r.register_type@ == Seq::<char>::empty(),
            r.start_bit == 0,
            r.end_bit == 0,
            r.sensor_type@ == Seq::<char>::empty(),
            r.sensor_type_id@ == Seq::<char>::empty(),
            r.value_mapping@ == Seq::<ValueMapping>::empty(),
    {
        ModbusTcpNonNumericSensor {
            id: None,
            name: String::new(),
            address: 0,
            data_type: String::new(),
            register_type: String::new(),
            start_bit: 0,
            end_bit: 0,
            sensor_type: String::new(),
            sensor_type_id: String::new(),
            value_mapping: Vec::new(),
        }
    }
}

} // verus!
