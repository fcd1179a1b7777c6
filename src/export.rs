//! The flat (CSV) shape of exported records: a header, and one row per record
//! with an enumerated sensor's mapping packed into a single cell.
use vstd::prelude::*;

use crate::mapping::{
    encode_value_mapping, lemma_round_trip, mappings_view, pack, packable, packable_label, unpack,
    ValueMapping,
};
use crate::output::{csv_document, csv_document_text, rows_view};
use crate::records::SensorType;
use crate::sensors::{
    opt_view, text_of, text_or_empty, BacnetIpNonNumericSensor, ModbusTcpNonNumericSensor,
};
use crate::text::{decimal, render_decimal};

verus! {

/// A record with a flat shape: a fixed header, and the fields of one row.
pub trait CsvRecord: Sized {
    spec fn header_view() -> Seq<Seq<char>>;

    spec fn fields_view(&self) -> Seq<Seq<char>>;

    fn csv_header() -> (r: Vec<String>)
        ensures
            r@.map_values(|f: String| f@) == Self::header_view(),
    ;

    fn csv_fields(&self) -> (r: Vec<String>)
        ensures
            r@.map_values(|f: String| f@) == self.fields_view(),
    ;
}

/// The rows of an export: the header, then one row per record in order.
pub open spec fn export_rows<T: CsvRecord>(items: Seq<T>) -> Seq<Seq<Seq<char>>> {
    seq![T::header_view()] + items.map_values(|x: T| x.fields_view())
}

/// The CSV text of `items`: the header, then one row per record in order.
pub fn export_csv<T: CsvRecord>(items: &Vec<T>) -> (r: Option<String>)
    ensures
        r is Some,
        r matches Some(t) ==> t@ == csv_document_text(export_rows(items@)),
{
    let mut rows: Vec<Vec<String>> = Vec::new();
    rows.push(T::csv_header());
    let mut i: usize = 0;
    assert(rows_view(rows@) =~= export_rows(items@.take(0)));
    while i < items.len()
        invariant
            i <= items@.len(),
            rows_view(rows@) == export_rows(items@.take(i as int)),
        decreases items@.len() - i,
    {
        let ghost before = rows@;
        let fields = items[i].csv_fields();
        rows.push(fields);
        proof {
            let f = |x: T| x.fields_view();
            assert(items@.take(i + 1).map_values(f) =~= items@.take(i as int).map_values(f).push(
                items@[i as int].fields_view(),
            ));
            assert(rows_view(rows@) =~= rows_view(before).push(fields@.map_values(|f: String| f@)));
            assert(rows_view(rows@) =~= export_rows(items@.take(i + 1)));
        }
        i = i + 1;
    }
    assert(items@.take(items@.len() as int) =~= items@);
    csv_document(&rows)
}

/// An enumerated BACnet/IP sensor in its flat shape, the mapping packed into one cell.
pub struct BacnetIpNonNumericSensorExportWrapper(pub BacnetIpNonNumericSensor);

/// An enumerated Modbus/TCP sensor in its flat shape, the mapping packed into one cell.
pub struct ModbusTcpNonNumericSensorExportWrapper(pub ModbusTcpNonNumericSensor);

impl CsvRecord for BacnetIpNonNumericSensorExportWrapper {
    open spec fn header_view() -> Seq<Seq<char>> {
        seq![
            "id"@,
            "name"@,
            "objectInstance"@,
            "objectType"@,
            "sensorType"@,
            "sensorTypeId"@,
            "valueMapping"@,
        ]
    }

    open spec fn fields_view(&self) -> Seq<Seq<char>> {
        seq![
            text_or_empty(opt_view(self.0.id)),
            self.0.name@,
            decimal(self.0.object_instance as nat),
            self.0.object_type@,
            self.0.sensor_type@,
            self.0.sensor_type_id@,
            pack(mappings_view(self.0.value_mapping@)),
        ]
    }

    fn csv_header() -> (r: Vec<String>) {
        let r = vec![
            String::from_str("id"),
            String::from_str("name"),
            String::from_str("objectInstance"),
            String::from_str("objectType"),
            String::from_str("sensorType"),
            String::from_str("sensorTypeId"),
            String::from_str("valueMapping"),
        ];
        assert(r@.map_values(|f: String| f@) =~= Self::header_view());
        r
    }

    fn csv_fields(&self) -> (r: Vec<String>) {
        let s = &self.0;
        let r = vec![
            text_of(&s.id),
            s.name.clone(),
            render_decimal(s.object_instance),
            s.object_type.clone(),
            s.sensor_type.clone(),
            s.sensor_type_id.clone(),
            encode_value_mapping(&s.value_mapping),
        ];
        assert(r@.map_values(|f: String| f@) =~= self.fields_view());
        r
    }
}

impl CsvRecord for ModbusTcpNonNumericSensorExportWrapper {
    open spec fn header_view() -> Seq<Seq<char>> {
        seq![
            "id"@,
            "name"@,
            "address"@,
            "dataType"@,
            "registerType"@,
            "startBit"@,
            "endBit"@,
            "sensorType"@,
            "sensorTypeId"@,
            "valueMapping"@,
        ]
    }

    open spec fn fields_view(&self) -> Seq<Seq<char>> {
        seq![
            text_or_empty(opt_view(self.0.id)),
            self.0.name@,
            decimal(self.0.address as nat),
            self.0.data_type@,
            self.0.register_type@,
            decimal(self.0.start_bit as nat),
            decimal(self.0.end_bit as nat),
            self.0.sensor_type@,
            self.0.sensor_type_id@,
            pack(mappings_view(self.0.value_mapping@)),
        ]
    }

    fn csv_header() -> (r: Vec<String>) {
        let r = vec![
            String::from_str("id"),
            String::from_str("name"),
            String::from_str("address"),
            String::from_str("dataType"),
            String::from_str("registerType"),
            String::from_str("startBit"),
            String::from_str("endBit"),
            String::from_str("sensorType"),
            String::from_str("sensorTypeId"),
            String::from_str("valueMapping"),
        ];
        assert(r@.map_values(|f: String| f@) =~= Self::header_view());
        r
    }

    fn csv_fields(&self) -> (r: Vec<String>) {
        let s = &self.0;
        let r = vec![
            text_of(&s.id),
            s.name.clone(),
            render_decimal(s.address),
            s.data_type.clone(),
            s.register_type.clone(),
            render_decimal(s.start_bit),
            render_decimal(s.end_bit),
            s.sensor_type.clone(),
            s.sensor_type_id.clone(),
            encode_value_mapping(&s.value_mapping),
        ];
        assert(r@.map_values(|f: String| f@) =~= self.fields_view());
        r
    }
}

/// Every label of `ms` holds no `:` and no `,`.
pub open spec fn labels_packable(ms: Seq<ValueMapping>) -> bool {
    forall|k: int| 0 <= k < ms.len() ==> packable_label(#[trigger] ms[k].text@)
}

proof fn lemma_mappings_packable(ms: Seq<ValueMapping>)
    requires
        labels_packable(ms),
    ensures
        packable(mappings_view(ms)),
{
    let v = mappings_view(ms);
    assert forall|k: int| 0 <= k < v.len() implies packable_label(#[trigger] v[k].0) && v[k].1
        <= usize::MAX by {
        assert(v[k] == ms[k]@);
        assert(packable_label(ms[k].text@));
    }
}

/// The packed cell of an exported BACnet/IP enumerated sensor reads back, on
/// import, as the sensor's own mapping list, when no label holds `:` or `,`.
pub proof fn lemma_bacnet_export_reimports(s: BacnetIpNonNumericSensorExportWrapper)
    requires
        labels_packable(s.0.value_mapping@),
    ensures
        unpack(s.fields_view()[6]) == Some(mappings_view(s.0.value_mapping@)),
{
    lemma_mappings_packable(s.0.value_mapping@);
    lemma_round_trip(mappings_view(s.0.value_mapping@));
}

/// The packed cell of an exported Modbus/TCP enumerated sensor reads back, on
/// import, as the sensor's own mapping list, when no label holds `:` or `,`.
pub proof fn lemma_modbus_export_reimports(s: ModbusTcpNonNumericSensorExportWrapper)
    requires
        labels_packable(s.0.value_mapping@),
    ensures
        unpack(s.fields_view()[9]) == Some(mappings_view(s.0.value_mapping@)),
{
    lemma_mappings_packable(s.0.value_mapping@);
    lemma_round_trip(mappings_view(s.0.value_mapping@));
}

/// `true` or `false`.
pub open spec fn bool_text(b: bool) -> Seq<char> {
    if b {
        "true"@
    } else {
        "false"@
    }
}

fn render_bool(b: bool) -> (r: String)
    ensures
        r@ == bool_text(b),
{
    if b {
        String::from_str("true")
    } else {
        String::from_str("false")
    }
}

impl CsvRecord for SensorType {
    open spec fn header_view() -> Seq<Seq<char>> {
        seq![
            "_abbreviated_unit"@,
            "_is_manually_creatable"@,
            "_minimum_valid_value"@,
            "sensor_description"@,
            "_sensor_parent_type"@,
            "sensor_type_id"@,
            "unit_description"@,
            "unit_id"@,
        ]
    }

    open spec fn fields_view(&self) -> Seq<Seq<char>> {
        seq![
            self.abbreviated_unit@,
            bool_text(self.is_manually_creatable),
            self.minimum_valid_value@,
            self.sensor_description@,
            self.sensor_parent_type@,
            self.sensor_type_id@,
            self.unit_description@,
            self.unit_id@,
        ]
    }

    fn csv_header() -> (r: Vec<String>) {
        let r = vec![
            String::from_str("_abbreviated_unit"),
            String::from_str("_is_manually_creatable"),
            String::from_str("_minimum_valid_value"),
            String::from_str("sensor_description"),
            String::from_str("_sensor_parent_type"),
            String::from_str("sensor_type_id"),
            String::from_str("unit_description"),
            String::from_str("unit_id"),
        ];
        assert(r@.map_values(|f: String| f@) =~= Self::header_view());
        r
    }

    fn csv_fields(&self) -> (r: Vec<String>) {
        let r = vec![
            self.abbreviated_unit.clone(),
            render_bool(self.is_manually_creatable),
            self.minimum_valid_value.clone(),
            self.sensor_description.clone(),
            self.sensor_parent_type.clone(),
            self.sensor_type_id.clone(),
            self.unit_description.clone(),
            self.unit_id.clone(),
        ];
        assert(r@.map_values(|f: String| f@) =~= self.fields_view());
        r
    }
}

} // verus!
