use hyperview::export::{export_csv, BacnetIpNonNumericSensorExportWrapper, CsvRecord};
use hyperview::mapping::ValueMapping;
use hyperview::records::{Definition, SensorType};
use hyperview::sensors::{
    BacnetIpNonNumericSensor, BacnetIpNonNumericSersorCsv, ModbusTcpNonNumericSensor,
};

fn sensor_type() -> SensorType {
    SensorType {
        abbreviated_unit: "°C".to_string(),
        is_manually_creatable: true,
        minimum_valid_value: "-40".to_string(),
        sensor_description: "Temperature".to_string(),
        sensor_parent_type: "Environmental".to_string(),
        sensor_type_id: "1000".to_string(),
        unit_description: "Celsius".to_string(),
        unit_id: "u-1".to_string(),
    }
}

#[test]
fn definition_rendering() {
    let d = Definition {
        id: Some("abc".to_string()),
        name: "Crah 1".to_string(),
        asset_type: "Crah".to_string(),
        associated_assets: 12,
    };
    assert_eq!(d.render(), "id: abc\nname: Crah 1\nasset type: Crah\nassociated_assets: 12");
    let d = Definition::new_request("n".to_string(), "Rack".to_string());
    assert_eq!(d.render(), "id: \nname: n\nasset type: Rack\nassociated_assets: 0");
}

#[test]
fn sensor_type_rendering_and_csv() {
    let s = sensor_type();
    assert_eq!(s.render(), "id: 1000\ndiscription: Temperature\nunit id: u-1\nunit: Celsius");
    assert_eq!(
        export_csv(&vec![s]).unwrap(),
        "_abbreviated_unit,_is_manually_creatable,_minimum_valid_value,sensor_description,_sensor_parent_type,sensor_type_id,unit_description,unit_id\n°C,true,-40,Temperature,Environmental,1000,Celsius,u-1\n"
    );
}

#[test]
fn non_numeric_rendering() {
    let s = BacnetIpNonNumericSensor {
        id: None,
        name: "Door".to_string(),
        object_instance: 4,
        object_type: "binaryInput".to_string(),
        sensor_type: "State".to_string(),
        sensor_type_id: "7".to_string(),
        value_mapping: vec![
            ValueMapping { text: "Closed".to_string(), value: 0 },
            ValueMapping { text: "Open".to_string(), value: 1 },
        ],
    };
    assert_eq!(
        s.render(),
        "id: \nname: Door\nobject type: binaryInput\nsensor type: State\nsensor type id: 7\n\ntext: Closed, value: 0\ntext: Open, value: 1"
    );
    let m = ModbusTcpNonNumericSensor {
        name: "Pump".to_string(),
        address: 2,
        end_bit: 3,
        ..Default::default()
    };
    assert_eq!(
        m.render(),
        "id: \nname: Pump\naddress: 2\ndata type: \nregister type: \nstart bit: 0\nend bit: 3\nsensor type: \nsensor type id: \n"
    );
    assert_eq!(ValueMapping { text: "On".to_string(), value: 5 }.render(), "text: On, value: 5");
}

#[test]
fn export_quotes_and_orders_rows() {
    let a = BacnetIpNonNumericSensorExportWrapper(BacnetIpNonNumericSensor {
        name: "Say \"hi\"".to_string(),
        ..Default::default()
    });
    let b = BacnetIpNonNumericSensorExportWrapper(BacnetIpNonNumericSensor {
        id: Some("x".to_string()),
        name: "B".to_string(),
        object_instance: 9,
        value_mapping: vec![ValueMapping { text: "Only".to_string(), value: 3 }],
        ..Default::default()
    });
    assert_eq!(a.render(), "id: \nname: Say \"hi\"\nobject type: \nsensor type: \nsensor type id: \n");
    assert_eq!(
        export_csv(&vec![a, b]).unwrap(),
        "id,name,objectInstance,objectType,sensorType,sensorTypeId,valueMapping\n,\"Say \"\"hi\"\"\",0,,,,\nx,B,9,,,,Only:3\n"
    );
    let none: Vec<BacnetIpNonNumericSensorExportWrapper> = vec![];
    assert_eq!(
        export_csv(&none).unwrap(),
        "id,name,objectInstance,objectType,sensorType,sensorTypeId,valueMapping\n"
    );
}

#[test]
fn exported_row_reimports_its_mapping() {
    let mapping = vec![
        ValueMapping { text: "Normal".to_string(), value: 0 },
        ValueMapping { text: "Alarm".to_string(), value: 7 },
    ];
    let w = BacnetIpNonNumericSensorExportWrapper(BacnetIpNonNumericSensor {
        id: Some("247a4ad9-9d18-4bf4-b20b-a1d7d61b3971".to_string()),
        name: "Leak".to_string(),
        object_instance: 5,
        value_mapping: mapping.clone(),
        ..Default::default()
    });
    let fields = w.csv_fields();
    assert_eq!(fields[6], "Normal:0,Alarm:7");
    let row = BacnetIpNonNumericSersorCsv {
        id: fields[0].clone(),
        name: fields[1].clone(),
        object_instance: 5,
        object_type: fields[3].clone(),
        sensor_type: fields[4].clone(),
        sensor_type_id: fields[5].clone(),
        value_mapping: fields[6].clone(),
    };
    let back = BacnetIpNonNumericSensor::from_csv(row).unwrap();
    assert_eq!(back.value_mapping, mapping);
    assert_eq!(back.id, w.0.id);
}
