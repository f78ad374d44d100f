//! Shaping of decoded structures into tabular command results.

use modbus_ext::device_id::{
    DeviceConformity, DeviceIDObject, DeviceIdentification, DeviceIdentificationCode,
};
use modbus_ext::errors::EncodingError;
use modbus_ext::file_record::FileRecord;
use modbus_ext::projection::{
    custom_result, device_identification_result, fifo_result, file_record_result,
    registers_result, split_custom_input, statuses_result, write_success_result,
};
use modbus_ext::text::{decimal_string, hex_string_upper};

fn identification(objects: Vec<DeviceIDObject>) -> DeviceIdentification {
    DeviceIdentification {
        mei_type: 0x0E,
        read_device_id_code: DeviceIdentificationCode::Basic,
        conformity_level: DeviceConformity::Basic,
        more_follows: 0,
        next_object_id: 0,
        number_of_objects: objects.len() as u8,
        objects,
    }
}

#[test]
fn decimal_and_hex_rendering() {
    assert_eq!(decimal_string(0), "0");
    assert_eq!(decimal_string(1234), "1234");
    assert_eq!(decimal_string(u64::MAX), "18446744073709551615");
    assert_eq!(hex_string_upper(0), "0");
    assert_eq!(hex_string_upper(0xABC), "ABC");
    assert_eq!(hex_string_upper(0xDEADBEEF), "DEADBEEF");
}

#[test]
fn fifo_result_cells() {
    let r = fifo_result(&vec![5u16, 0x1234]);
    assert_eq!(r.columns, vec!["offset", "value"]);
    assert_eq!(r.rows, vec![vec!["0", "0x05"], vec!["1", "0x1234"]]);
}

#[test]
fn fifo_result_hex_padding() {
    let r = fifo_result(&vec![0u16, 15, 16, 0xFFFF]);
    assert_eq!(
        r.rows,
        vec![
            vec!["0", "0x00"],
            vec!["1", "0x0f"],
            vec!["2", "0x10"],
            vec!["3", "0xffff"],
        ]
    );
}

#[test]
fn registers_result_cells() {
    let r = registers_result(&vec![0x2Au16]);
    assert_eq!(r.columns, vec!["address", "value"]);
    assert_eq!(r.rows, vec![vec!["0", "0x2a"]]);
}

#[test]
fn statuses_result_cells() {
    let r = statuses_result(&vec![true, false]);
    assert_eq!(r.columns, vec!["address", "status"]);
    assert_eq!(r.rows, vec![vec!["0", "true"], vec!["1", "false"]]);
}

fn record_of(words: Vec<u16>) -> FileRecord {
    FileRecord { resp_data_len: 0, file_resp_len: 0, ref_type: 6, record_data: words }
}

#[test]
fn file_record_result_groups_eight_words_per_row() {
    let words: Vec<u16> = (0u16..9).collect();
    let r = file_record_result(&record_of(words));
    assert_eq!(r.columns, vec!["offset", "value"]);
    assert_eq!(r.rows.len(), 2);
    assert_eq!(r.rows[0], vec!["0000:", "0 1 2 3 4 5 6 7"]);
    assert_eq!(r.rows[1], vec!["0016:", "8"]);
}

#[test]
fn file_record_result_uppercase_hex_cells() {
    let r = file_record_result(&record_of(vec![0x00AB, 0xFFFF, 0x0001]));
    assert_eq!(r.rows, vec![vec!["0000:", "AB FFFF 1"]]);
}

#[test]
fn file_record_result_empty_record() {
    let r = file_record_result(&record_of(Vec::new()));
    assert_eq!(r.rows.len(), 0);
}

#[test]
fn file_record_result_wide_offset_label() {
    // 505 words make 64 rows; the 64th row starts at word 504, an offset
    // label of 1008, wider than the padded four characters.
    let words = vec![0u16; 505];
    let r = file_record_result(&record_of(words));
    assert_eq!(r.rows.len(), 64);
    assert_eq!(r.rows[63][0], "1008:");
    assert_eq!(r.rows[62][0], "0992:");
}

#[test]
fn device_identification_result_rows() {
    let d = identification(vec![
        DeviceIDObject { id: 0, length: 8, value: b"MyVendor".to_vec() },
        DeviceIDObject { id: 1, length: 4, value: b"Unit".to_vec() },
    ]);
    let r = device_identification_result(&d).unwrap();
    assert_eq!(r.columns, vec!["object_id", "value", "conformity_level"]);
    assert_eq!(
        r.rows,
        vec![
            vec!["0", "MyVendor", "Basic"],
            vec!["1", "Unit", "Basic"],
        ]
    );
}

#[test]
fn device_identification_result_rejects_invalid_utf8() {
    let d = identification(vec![
        DeviceIDObject { id: 0, length: 2, value: vec![0xFF, 0xFE] },
    ]);
    assert_eq!(device_identification_result(&d), Err(EncodingError));
}

#[test]
fn device_identification_result_conformity_labels() {
    let mut d = identification(vec![
        DeviceIDObject { id: 3, length: 1, value: b"x".to_vec() },
    ]);
    d.conformity_level = DeviceConformity::ExtendedWithIndividual;
    let r = device_identification_result(&d).unwrap();
    assert_eq!(r.rows, vec![vec!["3", "x", "ExtendedWithIndividual"]]);
}

#[test]
fn write_success_result_shape() {
    let r = write_success_result();
    assert_eq!(r.columns, vec!["status"]);
    assert_eq!(r.rows, vec![vec!["success"]]);
}

#[test]
fn split_custom_input_empty() {
    assert_eq!(split_custom_input(Vec::new()), None);
}

#[test]
fn split_custom_input_code_and_payload() {
    assert_eq!(split_custom_input(vec![7, 1, 2]), Some((7, vec![1, 2])));
    assert_eq!(split_custom_input(vec![0x14]), Some((0x14, Vec::new())));
}

#[test]
fn custom_result_ascii_rows() {
    let r = custom_result(0x2B, &b"hi".to_vec()).unwrap();
    assert_eq!(r.columns.len(), 0);
    assert_eq!(r.rows, vec![vec!["0x2B", "h"], vec!["0x2B", "i"]]);
}

#[test]
fn custom_result_rejects_non_ascii() {
    assert_eq!(custom_result(0x2B, &vec![0x80]), Err(EncodingError));
}
