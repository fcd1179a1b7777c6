//! Definitions, sensor types, and the protocol and data-type selectors.
use vstd::prelude::*;

verus! {

/// The device protocol of a definition; each has its own URL prefix.
#[derive(Debug, Clone, Copy, PartialEq, Eq, Structural)]
pub enum DefinitionType {
    Bacnet,
    Modbus,
}

/// Whether the sensors in question are continuous-valued or enumerated.
#[derive(Debug, Clone, Copy, PartialEq, Eq, Structural)]
pub enum DefinitionDataType {
    Numeric,
    NonNumeric,
}

/// A device template that groups sensors under one asset type.
#[derive(Debug)]
pub struct Definition {
    /// Assigned by the server; absent in a create request.
    pub id: Option<String>,
    pub name: String,
    pub asset_type: String,
    /// Read-only count kept by the server.
    pub associated_assets: usize,
}

/// A catalog entry pairing a sensor type with a unit for one asset type.
#[derive(Debug)]
pub struct SensorType {
    pub abbreviated_unit: String,
    pub is_manually_creatable: bool,
    pub minimum_valid_value: String,
    pub sensor_description: String,
    pub sensor_parent_type: String,
    pub sensor_type_id: String,
    pub unit_description: String,
    pub unit_id: String,
}

impl Definition {
    /// The body of a create request: a name and an asset type, nothing else set.
    pub fn new_request(name: String, asset_type: String) -> (r: Definition)
        ensures
            r.id is None,
            r.name == name,
            r.asset_type == asset_type,
            r.associated_assets == 0,
    {
        Definition { id: None, name, asset_type, associated_assets: 0 }
    }
}

} // verus!
