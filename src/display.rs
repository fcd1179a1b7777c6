//! The human-readable rendering of records, printed one block per record.
use vstd::prelude::*;

use crate::export::{BacnetIpNonNumericSensorExportWrapper, ModbusTcpNonNumericSensorExportWrapper};
use crate::mapping::{mappings_view, ValueMapping};
use crate::records::{Definition, SensorType};
use crate::sensors::{opt_view, text_of, text_or_empty, BacnetIpNonNumericSensor, ModbusTcpNonNumericSensor};
use crate::text::{decimal, render_decimal};

verus! {

pub open spec fn definition_text(d: Definition) -> Seq<char> {
    "id: "@ + text_or_empty(opt_view(d.id)) + "\nname: "@ + d.name@ + "\nasset type: "@
        + d.asset_type@ + "\nassociated_assets: "@ + decimal(d.associated_assets as nat)
}

pub open spec fn sensor_type_text(s: SensorType) -> Seq<char> {
    "id: "@ + s.sensor_type_id@ + "\ndiscription: "@ + s.sensor_description@ + "\nunit id: "@
        + s.unit_id@ + "\nunit: "@ + s.unit_description@
}

pub open spec fn mapping_text(m: (Seq<char>, nat)) -> Seq<char> {
    "text: "@ + m.0 + ", value: "@ + decimal(m.1)
}

/// Each mapping on a line of its own, each line started by a newline.
pub open spec fn mapping_lines(ms: Seq<(Seq<char>, nat)>) -> Seq<char>
    decreases ms.len(),
{
    if ms.len() == 0 {
        Seq::empty()
    } else {
        mapping_lines(ms.drop_last()) + "\n"@ + mapping_text(ms.last())
    }
}

pub open spec fn bacnet_non_numeric_text(s: BacnetIpNonNumericSensor) -> Seq<char> {
    "id: "@ + text_or_empty(opt_view(s.id)) + "\nname: "@ + s.name@ + "\nobject type: "@
        + s.object_type@ + "\nsensor type: "@ + s.sensor_type@ + "\nsensor type id: "@
        + s.sensor_type_id@ + "\n"@ + mapping_lines(mappings_view(s.value_mapping@))
}

pub open spec fn modbus_non_numeric_text(s: ModbusTcpNonNumericSensor) -> Seq<char> {
    "id: "@ + text_or_empty(opt_view(s.id)) + "\nname: "@ + s.name@ + "\naddress: "@ + decimal(
        s.address as nat,
    ) + "\ndata type: "@ + s.data_type@ + "\nregister type: "@ + s.register_type@
        + "\nstart bit: "@ + decimal(s.start_bit as nat) + "\nend bit: "@ + decimal(
        s.end_bit as nat,
    ) + "\nsensor type: "@ + s.sensor_type@ + "\nsensor type id: "@ + s.sensor_type_id@
        + "\n"@ + mapping_lines(mappings_view(s.value_mapping@))
}

impl Definition {
    pub fn render(&self) -> (r: String)
        ensures
            r@ == definition_text(*self),
    {
        let mut out = String::from_str("id: ");
        out.append(text_of(&self.id).as_str());
        out.append("\nname: ");
        out.append(self.name.as_str());
        out.append("\nasset type: ");
        out.append(self.asset_type.as_str());
        out.append("\nassociated_assets: ");
        out.append(render_decimal(self.associated_assets).as_str());
        out
    }
}

impl SensorType {
    pub fn render(&self) -> (r: String)
        ensures
            r@ == sensor_type_text(*self),
    {
        let mut out = String::from_str("id: ");
        out.append(self.sensor_type_id.as_str());
        out.append("\ndiscription: ");
        out.append(self.sensor_description.as_str());
        out.append("\nunit id: ");
        out.append(self.unit_id.as_str());
        out.append("\nunit: ");
        out.append(self.unit_description.as_str());
        out
    }
}

impl ValueMapping {
    pub fn render(&self) -> (r: String)
        ensures
            r@ == mapping_text(self@),
    {
        let mut out = String::from_str("text: ");
        out.append(self.text.as_str());
        out.append(", value: ");
        out.append(render_decimal(self.value).as_str());
        out
    }
}

/// Appends each mapping's line to `out`, each started by a newline.
fn append_mapping_lines(out: &mut String, ms: &Vec<ValueMapping>)
    ensures
        final(out)@ == old(out)@ + mapping_lines(mappings_view(ms@)),
{
    let ghost start = out@;
    let mut i: usize = 0;
    assert(mappings_view(ms@.take(0)) =~= Seq::<(Seq<char>, nat)>::empty());
    assert(start + Seq::<char>::empty() =~= start);
    while i < ms.len()
        invariant
            i <= ms@.len(),
            out@ == start + mapping_lines(mappings_view(ms@.take(i as int))),
        decreases ms@.len() - i,
    {
        let ghost before = out@;
        out.append("\n");
        out.append(ms[i].render().as_str());
        proof {
            let v = mappings_view(ms@.take(i + 1));
            assert(v.drop_last() =~= mappings_view(ms@.take(i as int)));
            assert(v.last() == ms@[i as int]@);
            assert(out@ =~= start + mapping_lines(v));
        }
        i = i + 1;
    }
    assert(ms@.take(ms@.len() as int) =~= ms@);
}

impl BacnetIpNonNumericSensor {
    pub fn render(&self) -> (r: String)
        ensures
            r@ == bacnet_non_numeric_text(*self),
    {
        let mut out = String::from_str("id: ");
        out.append(text_of(&self.id).as_str());
        out.append("\nname: ");
        out.append(self.name.as_str());
        out.append("\nobject type: ");
        out.append(self.object_type.as_str());
        out.append("\nsensor type: ");
        out.append(self.sensor_type.as_str());
        out.append("\nsensor type id: ");
        out.append(self.sensor_type_id.as_str());
        out.append("\n");
        append_mapping_lines(&mut out, &self.value_mapping);
        out
    }
}

impl ModbusTcpNonNumericSensor {
    pub fn render(&self) -> (r: String)
        ensures
            r@ == modbus_non_numeric_text(*self),
    {
        let mut out = String::from_str("id: ");
        out.append(text_of(&self.id).as_str());
        out.append("\nname: ");
        out.append(self.name.as_str());
        out.append("\naddress: ");
        out.append(render_decimal(self.address).as_str());
        out.append("\ndata type: ");
        out.append(self.data_type.as_str());
        out.append("\nregister type: ");
        out.append(self.register_type.as_str());
        out.append("\nstart bit: ");
        out.append(render_decimal(self.start_bit).as_str());
        out.append("\nend bit: ");
        out.append(render_decimal(self.end_bit).as_str());
        out.append("\nsensor type: ");
        out.append(self.sensor_type.as_str());
        out.append("\nsensor type id: ");
        out.append(self.sensor_type_id.as_str());
        out.append("\n");
        append_mapping_lines(&mut out, &self.value_mapping);
        out
    }
}

impl BacnetIpNonNumericSensorExportWrapper {
    pub fn render(&self) -> (r: String)
        ensures
            r@ == bacnet_non_numeric_text(self.0),
    {
        self.0.render()
    }
}

impl ModbusTcpNonNumericSensorExportWrapper {
    pub fn render(&self) -> (r: String)
        ensures
            r@ == modbus_non_numeric_text(self.0),
    {
        self.0.render()
    }
}

} // verus!
