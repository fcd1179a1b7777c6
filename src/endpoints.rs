//! The fixed URL paths of the remote API.
use vstd::prelude::*;

use crate::records::{DefinitionDataType, DefinitionType};

verus! {

/// The collection path of the definitions of one protocol.
pub open spec fn definitions_prefix(t: DefinitionType) -> Seq<char> {
    match t {
        DefinitionType::Bacnet => "/api/setting/bacnetIpDefinitions"@,
        DefinitionType::Modbus => "/api/setting/modbusTcpDefinitions"@,
    }
}

/// The path segment of a sensor sub-collection, between the prefix and the definition id.
pub open spec fn sensors_segment(t: DefinitionType, d: DefinitionDataType) -> Seq<char> {
    match (t, d) {
        (DefinitionType::Bacnet, DefinitionDataType::Numeric) => "/bacnetIpNumericSensors/"@,
        (DefinitionType::Bacnet, DefinitionDataType::NonNumeric) => "/bacnetIpNonNumericSensors/"@,
        (DefinitionType::Modbus, DefinitionDataType::Numeric) => "/modbusTcpNumericSensors/"@,
        (DefinitionType::Modbus, DefinitionDataType::NonNumeric) => "/modbusTcpNonNumericSensors/"@,
    }
}

/// The sensor sub-collection of one definition.
pub open spec fn sensors_path(
    base: Seq<char>,
    t: DefinitionType,
    d: DefinitionDataType,
    definition_id: Seq<char>,
) -> Seq<char> {
    base + definitions_prefix(t) + sensors_segment(t, d) + definition_id
}

/// One sensor of one definition.
pub open spec fn sensor_path(
    base: Seq<char>,
    t: DefinitionType,
    d: DefinitionDataType,
    definition_id: Seq<char>,
    sensor_id: Seq<char>,
) -> Seq<char> {
    sensors_path(base, t, d, definition_id) + "/"@ + sensor_id
}

fn definitions_prefix_text(t: DefinitionType) -> (r: &'static str)
    ensures
        r@ == definitions_prefix(t),
{
    match t {
        DefinitionType::Bacnet => "/api/setting/bacnetIpDefinitions",
        DefinitionType::Modbus => "/api/setting/modbusTcpDefinitions",
    }
}

fn sensors_segment_text(t: DefinitionType, d: DefinitionDataType) -> (r: &'static str)
    ensures
        r@ == sensors_segment(t, d),
{
    match (t, d) {
        (DefinitionType::Bacnet, DefinitionDataType::Numeric) => "/bacnetIpNumericSensors/",
        (DefinitionType::Bacnet, DefinitionDataType::NonNumeric) => "/bacnetIpNonNumericSensors/",
        (DefinitionType::Modbus, DefinitionDataType::Numeric) => "/modbusTcpNumericSensors/",
        (DefinitionType::Modbus, DefinitionDataType::NonNumeric) => "/modbusTcpNonNumericSensors/",
    }
}

/// The URL of the definitions of one protocol: listed by GET, created by POST.
pub fn definitions_url(instance_url: &str, t: DefinitionType) -> (r: String)
    ensures
        r@ == instance_url@ + definitions_prefix(t),
{
    let mut url = String::from_str(instance_url);
    url.append(definitions_prefix_text(t));
    url
}

/// The URL of the sensors of one definition: listed by GET, created by POST.
pub fn sensors_url(
    instance_url: &str,
    t: DefinitionType,
    d: DefinitionDataType,
    definition_id: &str,
) -> (r: String)
    ensures
        r@ == sensors_path(instance_url@, t, d, definition_id@),
{
    let mut url = definitions_url(instance_url, t);
    url.append(sensors_segment_text(t, d));
    url.append(definition_id);
    url
}

/// The URL of one sensor of one definition, updated by PUT.
pub fn sensor_url(
    instance_url: &str,
    t: DefinitionType,
    d: DefinitionDataType,
    definition_id: &str,
    sensor_id: &str,
) -> (r: String)
    ensures
        r@ == sensor_path(instance_url@, t, d, definition_id@, sensor_id@),
{
    let mut url = sensors_url(instance_url, t, d, definition_id);
    url.append("/");
    url.append(sensor_id);
    url
}

/// The URL of the sensor-type catalog.
pub fn sensor_types_url(instance_url: &str) -> (r: String)
    ensures
        r@ == instance_url@ + "/api/setting/sensorTypeAssetType"@,
{
    let mut url = String::from_str(instance_url);
    url.append("/api/setting/sensorTypeAssetType");
    url
}

/// The query of the sensor-type catalog: the asset type and the sensor class.
pub fn sensor_types_query(asset_type: String, sensor_class: String) -> (r: Vec<(String, String)>)
    ensures
        r@.len() == 2,
        r@[0].0@ == "assetTypeId"@,
        r@[0].1 == asset_type,
        r@[1].0@ == "sensorTypeValueType"@,
        r@[1].1 == sensor_class,
{
    let mut q: Vec<(String, String)> = Vec::new();
    q.push((String::from_str("assetTypeId"), asset_type));
    q.push((String::from_str("sensorTypeValueType"), sensor_class));
    q
}

/// The `Authorization` header value that carries a bearer token.
pub fn bearer_header(token: &str) -> (r: String)
    ensures
        r@ == "Bearer "@ + token@,
{
    let mut h = String::from_str("Bearer ");
    h.append(token);
    h
}

} // verus!
