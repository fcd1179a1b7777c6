use hyperview::export::{
    export_csv, BacnetIpNonNumericSensorExportWrapper, ModbusTcpNonNumericSensorExportWrapper,
};
use hyperview::mapping::ValueMapping;
use hyperview::sensors::{
    BacnetIpNonNumericSensor, BacnetIpNumericSensor, GenericSensor, ModbusTcpNonNumericSensor,
    ModbusTcpNumericSensor, NumericSensor,
};

#[test]
fn test_bacnet_sensor_csv_serialization() {
    let sensor = BacnetIpNonNumericSensorExportWrapper(BacnetIpNonNumericSensor {
        id: Some("247a4ad9-9d18-4bf4-b20b-a1d7d61b3971".to_string()),
        name: "Sensor 1".to_string(),
        object_instance: 0,
        object_type: "Temperature".to_string(),
        sensor_type: "Analog".to_string(),
        sensor_type_id: "1000".to_string(),
        value_mapping: vec![
            ValueMapping {
                text: "Low".to_string(),
                value: 0,
            },
            ValueMapping {
                text: "High".to_string(),
                value: 1,
            },
        ],
    });

    let data = export_csv(&vec![sensor]).expect("Failed to serialize sensor");

    let expected_data = "id,name,objectInstance,objectType,sensorType,sensorTypeId,valueMapping\n247a4ad9-9d18-4bf4-b20b-a1d7d61b3971,Sensor 1,0,Temperature,Analog,1000,\"Low:0,High:1\"\n";

    assert_eq!(data, expected_data);
}

#[test]
fn test_modbus_sensor_csv_serialization() {
    let sensor = ModbusTcpNonNumericSensorExportWrapper(ModbusTcpNonNumericSensor {
        id: Some("ffd733e3-2ee2-4e81-a688-2483cb011698".to_string()),
        name: "Clogged filter 1".to_string(),
        address: 1,
        data_type: "uInteger16".to_string(),
        register_type: "holdingRegister".to_string(),
        start_bit: 1,
        end_bit: 16,
        sensor_type: "cloggedFilter".to_string(),
        sensor_type_id: "f4531ff2-ebf8-49d2-bd4f-4d64c39e4283".to_string(),
        value_mapping: vec![
            ValueMapping {
                text: "Inactive".to_string(),
                value: 0,
            },
            ValueMapping {
                text: "Active".to_string(),
                value: 1,
            },
        ],
    });

    let data = export_csv(&vec![sensor]).expect("Failed to serialize sensor");

    let expected_data = "id,name,address,dataType,registerType,startBit,endBit,sensorType,sensorTypeId,valueMapping\nffd733e3-2ee2-4e81-a688-2483cb011698,Clogged filter 1,1,uInteger16,holdingRegister,1,16,cloggedFilter,f4531ff2-ebf8-49d2-bd4f-4d64c39e4283,\"Inactive:0,Active:1\"\n";

    assert_eq!(data, expected_data);
}

#[test]
fn test_get_id_as_string() {
    let mut sensor = BacnetIpNumericSensor {
        id: Some("13d2cbd0-77c0-49a4-b9c8-38d91ce957d8".to_string()),
        ..Default::default()
    };
    assert_eq!(
        sensor.get_id_as_string(),
        "13d2cbd0-77c0-49a4-b9c8-38d91ce957d8".to_string()
    );

    sensor.id = Some("".to_string());
    assert_eq!(sensor.get_id_as_string(), "".to_string());

    sensor.id = None;
    assert_eq!(sensor.get_id_as_string(), "".to_string());

    let mut sensor = BacnetIpNonNumericSensor {
        id: Some("13d2cbd0-77c0-49a4-b9c8-38d91ce957d8".to_string()),
        ..Default::default()
    };
    assert_eq!(
        sensor.get_id_as_string(),
        "13d2cbd0-77c0-49a4-b9c8-38d91ce957d8".to_string()
    );

    sensor.id = Some("".to_string());
    assert_eq!(sensor.get_id_as_string(), "".to_string());

    sensor.id = None;
    assert_eq!(sensor.get_id_as_string(), "".to_string());

    let mut sensor = ModbusTcpNumericSensor {
        id: Some("13d2cbd0-77c0-49a4-b9c8-38d91ce957d8".to_string()),
        ..Default::default()
    };
    assert_eq!(
        sensor.get_id_as_string(),
        "13d2cbd0-77c0-49a4-b9c8-38d91ce957d8".to_string()
    );

    sensor.id = Some("".to_string());
    assert_eq!(sensor.get_id_as_string(), "".to_string());

    sensor.id = None;
    assert_eq!(sensor.get_id_as_string(), "".to_string());

    let mut sensor = ModbusTcpNonNumericSensor {
        id: Some("13d2cbd0-77c0-49a4-b9c8-38d91ce957d8".to_string()),
        ..Default::default()
    };
    assert_eq!(
        sensor.get_id_as_string(),
        "13d2cbd0-77c0-49a4-b9c8-38d91ce957d8".to_string()
    );

    sensor.id = Some("".to_string());
    assert_eq!(sensor.get_id_as_string(), "".to_string());

    sensor.id = None;
    assert_eq!(sensor.get_id_as_string(), "".to_string());
}

#[test]
fn test_clean_empty_id() {
    let mut sensor = BacnetIpNumericSensor {
        id: Some("13d2cbd0-77c0-49a4-b9c8-38d91ce957d8".to_string()),
        ..Default::default()
    };
    sensor.clean_empty_id();
    assert_eq!(
        sensor.id,
        Some("13d2cbd0-77c0-49a4-b9c8-38d91ce957d8".to_string())
    );

    sensor.id = Some("".to_string());
    sensor.clean_empty_id();
    assert_eq!(sensor.id, None);

    sensor.id = None;
    sensor.clean_empty_id();
    assert_eq!(sensor.id, None);

    sensor.unit = Some("".to_string());
    sensor.unit_id = Some("".to_string());
    sensor.clean_sensor_empty_unit();
    assert_eq!(sensor.unit, None);
    assert_eq!(sensor.unit_id, None);

    sensor.unit = Some("286194d7-a688-468e-b7a3-6ae8cd5ec1e4".to_string());
    sensor.unit_id = Some("0508c778-e84e-4bc6-b143-da485bdb7682".to_string());
    sensor.clean_sensor_empty_unit();
    assert_eq!(
        sensor.unit,
        Some("286194d7-a688-468e-b7a3-6ae8cd5ec1e4".to_string())
    );
    assert_eq!(
        sensor.unit_id,
        Some("0508c778-e84e-4bc6-b143-da485bdb7682".to_string())
    );

    let mut sensor = ModbusTcpNumericSensor {
        id: Some("13d2cbd0-77c0-49a4-b9c8-38d91ce957d8".to_string()),
        ..Default::default()
    };
    sensor.clean_empty_id();
    assert_eq!(
        sensor.id,
        Some("13d2cbd0-77c0-49a4-b9c8-38d91ce957d8".to_string())
    );

    sensor.id = Some("".to_string());
    sensor.clean_empty_id();
    assert_eq!(sensor.id, None);

    sensor.id = None;
    sensor.clean_empty_id();
    assert_eq!(sensor.id, None);

    sensor.unit = Some("".to_string());
    sensor.unit_id = Some("".to_string());
    sensor.clean_sensor_empty_unit();
    assert_eq!(sensor.unit, None);
    assert_eq!(sensor.unit_id, None);

    sensor.unit = Some("286194d7-a688-468e-b7a3-6ae8cd5ec1e4".to_string());
    sensor.unit_id = Some("0508c778-e84e-4bc6-b143-da485bdb7682".to_string());
    sensor.clean_sensor_empty_unit();
    assert_eq!(
        sensor.unit,
        Some("286194d7-a688-468e-b7a3-6ae8cd5ec1e4".to_string())
    );
    assert_eq!(
        sensor.unit_id,
        Some("0508c778-e84e-4bc6-b143-da485bdb7682".to_string())
    );

    let mut sensor = BacnetIpNonNumericSensor {
        id: Some("13d2cbd0-77c0-49a4-b9c8-38d91ce957d8".to_string()),
        ..Default::default()
    };
    sensor.clean_empty_id();
    assert_eq!(
        sensor.id,
        Some("13d2cbd0-77c0-49a4-b9c8-38d91ce957d8".to_string())
    );

    sensor.id = Some("".to_string());
    sensor.clean_empty_id();
    assert_eq!(sensor.id, None);

    sensor.id = None;
    sensor.clean_empty_id();
    assert_eq!(sensor.id, None);

    let mut sensor = ModbusTcpNonNumericSensor {
        id: Some("13d2cbd0-77c0-49a4-b9c8-38d91ce957d8".to_string()),
        ..Default::default()
    };
    sensor.clean_empty_id();
    assert_eq!(
        sensor.id,
        Some("13d2cbd0-77c0-49a4-b9c8-38d91ce957d8".to_string())
    );

    sensor.id = Some("".to_string());
    sensor.clean_empty_id();
    assert_eq!(sensor.id, None);

    sensor.id = None;
    sensor.clean_empty_id();
    assert_eq!(sensor.id, None);
}

#[test]
fn unit_normalization_keeps_other_fields() {
    let mut sensor = ModbusTcpNumericSensor {
        name: "Flow".to_string(),
        multiplier_bits: 2.5f64.to_bits(),
        address: 7,
        unit: Some("".to_string()),
        unit_id: Some("u-1".to_string()),
        ..Default::default()
    };
    sensor.clean_sensor_empty_unit();
    assert_eq!(sensor.unit, None);
    assert_eq!(sensor.unit_id, Some("u-1".to_string()));
    assert_eq!(sensor.name, "Flow");
    assert_eq!(f64::from_bits(sensor.multiplier_bits), 2.5);
    assert_eq!(sensor.address, 7);
}
