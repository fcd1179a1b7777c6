//! The client's settings and command line, as plain values.
use vstd::prelude::*;

verus! {

/// Connection settings, read from the user's configuration file.
#[derive(Debug, Clone, Default)]
pub struct AppConfig {
    pub client_id: String,
    pub client_secret: String,
    pub scope: String,
    pub auth_url: String,
    pub token_url: String,
    pub instance_url: String,
}

/// The parsed command line.
pub struct AppArgs {
    /// One of `trace`, `debug`, `info`, `warn`, `error`.
    pub debug_level: String,
    pub command: LoaderCommands,
}

/// The client's subcommands.
pub enum LoaderCommands {
    ListBacnetDefinitions,
    AddBacnetDefinition(AddDefinitionArgs),
    ListBacnetNumericSensors(ListSensorsArgs),
    ListBacnetNonNumericSensors(ListSensorsArgs),
    ImportBacnetNumericSensors(ImportSensorArgs),
    ImportBacnetNonNumericSensors(ImportSensorArgs),
    ListModbusDefinitions,
    AddModbusDefinition(AddDefinitionArgs),
    ListModbusNumericSensors(ListSensorsArgs),
    ListModbusNonNumericSensors(ListSensorsArgs),
    ImportModbusNumericSensors(ImportSensorArgs),
    ImportModbusNonNumericSensors(ImportSensorArgs),
    ListSensorTypes(ListSensorTypesArgs),
}

pub struct AddDefinitionArgs {
    pub name: String,
    pub asset_type: String,
}

pub struct ListSensorsArgs {
    pub definition_id: String,
    /// `record` or `csv`.
    pub output_type: String,
    pub filename: Option<String>,
}

pub struct ImportSensorArgs {
    pub filename: String,
    pub definition_id: String,
}

pub struct ListSensorTypesArgs {
    pub asset_type: String,
    /// `numeric` or `enum`.
    pub sensor_class: String,
    /// `record` or `csv`.
    pub output_type: String,
    pub filename: Option<String>,
}

} // verus!
