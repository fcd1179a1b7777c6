use hyperview::errors::AppError;
use hyperview::output::{
    check_input_file, get_debug_filter, handle_output_choice, render_listing, LogLevel,
    OutputPlan,
};

#[test]
fn test_handle_output_choice_no_filename() {
    let output_type = "csv".to_string();
    let filename = None;

    match handle_output_choice(&output_type, filename, false) {
        Err(e) => assert_eq!(e.message(), AppError::NoOutputFilename.message()),
        _ => panic!("Expected Err, but got Ok"),
    }
}

#[test]
fn test_handle_output_choice_file_exists() {
    let output_type = "csv".to_string();
    let filename = Some("existing.csv".to_string());

    match handle_output_choice(&output_type, filename, true) {
        Err(e) => assert_eq!(e.message(), AppError::FileExists.message()),
        _ => panic!("Expected Err, but got Ok"),
    }
}

#[test]
fn output_choice_new_csv_file_is_written() {
    let r = handle_output_choice("csv", Some("out.csv".to_string()), false);
    assert_eq!(r, Ok(OutputPlan::CsvFile("out.csv".to_string())));
}

#[test]
fn output_choice_record_mode_prints() {
    assert_eq!(handle_output_choice("record", None, false), Ok(OutputPlan::Records));
    assert_eq!(
        handle_output_choice("record", Some("x.csv".to_string()), true),
        Ok(OutputPlan::Records)
    );
}

#[test]
fn input_file_check() {
    assert_eq!(check_input_file(true), Ok(()));
    assert_eq!(check_input_file(false), Err(AppError::InputFileDoesNotExist));
}

#[test]
fn error_messages() {
    assert_eq!(AppError::InputFileDoesNotExist.message(), "Input file does not exist");
    assert_eq!(AppError::FileExists.message(), "File already exists, can't over write");
    assert_eq!(AppError::NoOutputFilename.message(), "Must provide an output filename");
    assert_eq!(AppError::InvalidValueMapping.message(), "could not parse value to integer");
}

#[test]
fn debug_filter_levels() {
    assert_eq!(get_debug_filter(&"error".to_string()), LogLevel::Error);
    assert_eq!(get_debug_filter("warn"), LogLevel::Warn);
    assert_eq!(get_debug_filter("info"), LogLevel::Info);
    assert_eq!(get_debug_filter("debug"), LogLevel::Debug);
    assert_eq!(get_debug_filter("trace"), LogLevel::Trace);
    assert_eq!(get_debug_filter("verbose"), LogLevel::Info);
    assert_eq!(get_debug_filter(""), LogLevel::Info);
}

#[test]
fn listing_numbers_blocks() {
    let blocks = vec!["a: 1".to_string(), "b: 2".to_string()];
    assert_eq!(render_listing(&blocks), "---- [0] ----\na: 1\n\n---- [1] ----\nb: 2\n\n");
    assert_eq!(render_listing(&vec![]), "");
}
