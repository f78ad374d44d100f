//! Projection of decoded structures into the tabular result handed to the
//! output renderer.

use vstd::prelude::*;
use vstd::utf8::{decode_utf8, valid_utf8};

use crate::device_id::{DeviceConformity, DeviceIdentification};
use crate::errors::EncodingError;
use crate::file_record::FileRecord;
use crate::text::{
    bool_label, bool_string, dec_digits, decimal_string, hex_cell, hex_cell_string,
    hex_digits_upper, hex_string_upper, offset_label, offset_label_string, push_char,
    push_hex_upper,
};

verus! {

/// Generic tabular output: header labels in order, and rows whose cells align
/// positionally with the columns.
#[derive(Debug, Clone, PartialEq, Eq)]
pub struct CommandResult {
    pub columns: Vec<String>,
    pub rows: Vec<Vec<String>>,
}

/// The texts a vector of strings holds.
pub open spec fn strings_view(v: Vec<String>) -> Seq<Seq<char>> {
    v@.map_values(|s: String| s@)
}

/// The texts a table of strings holds.
pub open spec fn rows_view(v: Vec<Vec<String>>) -> Seq<Seq<Seq<char>>> {
    v@.map_values(|r: Vec<String>| strings_view(r))
}

/// A two-cell row.
fn make_row2(a: String, b: String) -> (r: Vec<String>)
    ensures
        strings_view(r) == seq![a@, b@],
{
    let mut r: Vec<String> = Vec::new();
    r.push(a);
    r.push(b);
    proof {
        assert(strings_view(r) =~= seq![a@, b@]);
    }
    r
}

/// A three-cell row.
fn make_row3(a: String, b: String, c: String) -> (r: Vec<String>)
    ensures
        strings_view(r) == seq![a@, b@, c@],
{
    let mut r: Vec<String> = Vec::new();
    r.push(a);
    r.push(b);
    r.push(c);
    proof {
        assert(strings_view(r) =~= seq![a@, b@, c@]);
    }
    r
}

/// Rows that list each word against its position: the index in decimal, the
/// word as a `0x`-prefixed hexadecimal cell.
pub open spec fn indexed_word_rows(words: Seq<u16>) -> Seq<Seq<Seq<char>>> {
    Seq::new(words.len(), |i: int| seq![dec_digits(i as nat), hex_cell(words[i])])
}

/// Rows that list each status flag against its position.
pub open spec fn status_rows(statuses: Seq<bool>) -> Seq<Seq<Seq<char>>> {
    Seq::new(statuses.len(), |i: int| seq![dec_digits(i as nat), bool_label(statuses[i])])
}

fn indexed_word_row_table(words: &Vec<u16>) -> (rows: Vec<Vec<String>>)
    ensures
        rows_view(rows) == indexed_word_rows(words@),
{
    let mut rows: Vec<Vec<String>> = Vec::new();
    let mut i: usize = 0;
    while i < words.len()
        invariant
            i <= words@.len(),
            rows@.len() == i,
            forall|j: int| 0 <= j < i ==> rows_view(rows)[j] == indexed_word_rows(words@)[j],
        decreases words@.len() - i,
    {
        let row = make_row2(decimal_string(i as u64), hex_cell_string(words[i]));
        proof {
            assert(rows@.push(row).map_values(|r: Vec<String>| strings_view(r)) =~= rows_view(
                rows,
            ).push(strings_view(row)));
        }
        rows.push(row);
        i = i + 1;
    }
    proof {
        assert(rows_view(rows) =~= indexed_word_rows(words@));
    }
    rows
}

/// Project the words of a FIFO queue response: columns `offset` and `value`,
/// one row per word, the word as zero-padded hexadecimal.
pub fn fifo_result(words: &Vec<u16>) -> (r: CommandResult)
    ensures
        strings_view(r.columns) == seq!["offset"@, "value"@],
        rows_view(r.rows) == indexed_word_rows(words@),
{
    let columns = make_row2("offset".to_owned(), "value".to_owned());
    let rows = indexed_word_row_table(words);
    CommandResult { columns, rows }
}

/// Project a register read: columns `address` and `value`, one row per
/// register, the value as zero-padded hexadecimal.
pub fn registers_result(values: &Vec<u16>) -> (r: CommandResult)
    ensures
        strings_view(r.columns) == seq!["address"@, "value"@],
        rows_view(r.rows) == indexed_word_rows(values@),
{
    let columns = make_row2("address".to_owned(), "value".to_owned());
    let rows = indexed_word_row_table(values);
    CommandResult { columns, rows }
}

/// Project a coil or discrete-input read: columns `address` and `status`, one
/// row per flag.
pub fn statuses_result(statuses: &Vec<bool>) -> (r: CommandResult)
    ensures
        strings_view(r.columns) == seq!["address"@, "status"@],
        rows_view(r.rows) == status_rows(statuses@),
{
    let columns = make_row2("address".to_owned(), "status".to_owned());
    let mut rows: Vec<Vec<String>> = Vec::new();
    let mut i: usize = 0;
    while i < statuses.len()
        invariant
            i <= statuses@.len(),
            rows@.len() == i,
            forall|j: int| 0 <= j < i ==> rows_view(rows)[j] == status_rows(statuses@)[j],
        decreases statuses@.len() - i,
    {
        let row = make_row2(decimal_string(i as u64), bool_string(statuses[i]));
        proof {
            assert(rows@.push(row).map_values(|r: Vec<String>| strings_view(r)) =~= rows_view(
                rows,
            ).push(strings_view(row)));
        }
        rows.push(row);
        i = i + 1;
    }
    proof {
        assert(rows_view(rows) =~= status_rows(statuses@));
    }
    CommandResult { columns, rows }
}

/// Space-joined uppercase hexadecimal of the words at `from..to`.
pub open spec fn hex_words_cell(words: Seq<u16>, from: int, to: int) -> Seq<char>
    recommends
        0 <= from,
        to <= words.len(),
    decreases to - from,
{
    if to <= from {
        Seq::empty()
    } else if to - from == 1 {
        hex_digits_upper(words[from] as nat)
    } else {
        hex_words_cell(words, from, to - 1) + seq![' '] + hex_digits_upper(
            words[to - 1] as nat,
        )
    }
}

/// Rows of a file-record table: eight words per row, the offset label worth
/// two bytes per word, the row's words space-joined in uppercase hexadecimal.
pub open spec fn file_record_rows(words: Seq<u16>) -> Seq<Seq<Seq<char>>> {
    Seq::new(
        (words.len() + 7) / 8,
        |r: int|
            seq![
                offset_label((16 * r) as nat),
                hex_words_cell(
                    words,
                    8 * r,
                    if 8 * r + 8 <= words.len() {
                        8 * r + 8
                    } else {
                        words.len() as int
                    },
                ),
            ],
    )
}

/// Project a file record: columns `offset` and `value`, the record's words
/// grouped eight to a row for xxd-like output.
#[verifier::rlimit(100)]
#[verifier::spinoff_prover]
pub fn file_record_result(record: &FileRecord) -> (r: CommandResult)
    requires
        record.record_data@.len() <= usize::MAX / 2,
    ensures
        strings_view(r.columns) == seq!["offset"@, "value"@],
        rows_view(r.rows) == file_record_rows(record.record_data@),
{
    let words = &record.record_data;
    let n = words.len();
    let columns = make_row2("offset".to_owned(), "value".to_owned());
    let mut rows: Vec<Vec<String>> = Vec::new();
    let mut i: usize = 0;
    while i < n
        invariant
            n == words@.len(),
            n <= usize::MAX / 2,
            i % 8 == 0,
            i == 8 * rows@.len(),
            i < n + 8,
            forall|j: int| 0 <= j < rows@.len() ==> rows_view(rows)[j] == file_record_rows(
                words@,
            )[j],
        decreases n + 8 - i,
    {
        let end = if n - i > 8 {
            i + 8
        } else {
            n
        };
        let mut cell = hex_string_upper(words[i] as u64);
        let mut j = i + 1;
        while j < end
            invariant
                n == words@.len(),
                i < end,
                end <= n,
                end <= i + 8,
                i < j <= end,
                cell@ == hex_words_cell(words@, i as int, j as int),
            decreases end - j,
        {
            push_char(&mut cell, ' ');
            push_hex_upper(&mut cell, words[j] as u64);
            proof {
                assert(cell@ =~= hex_words_cell(words@, i as int, j + 1 as int));
            }
            j = j + 1;
        }
        let row = make_row2(offset_label_string((i as u64) * 2), cell);
        proof {
            let r = rows@.len() as int;
            assert(16 * r == 2 * i);
            assert(rows@.push(row).map_values(|x: Vec<String>| strings_view(x)) =~= rows_view(
                rows,
            ).push(strings_view(row)));
        }
        rows.push(row);
        i = i + 8;
    }
    proof {
        assert(rows@.len() == (words@.len() + 7) / 8);
        assert(rows_view(rows) =~= file_record_rows(words@));
    }
    CommandResult { columns, rows }
}

/// Text of a conformity level, as rendered in the identification table.
pub open spec fn conformity_label(c: DeviceConformity) -> Seq<char> {
    match c {
        DeviceConformity::Basic => "Basic"@,
        DeviceConformity::Regular => "Regular"@,
        DeviceConformity::Extended => "Extended"@,
        DeviceConformity::BasicWithIndividual => "BasicWithIndividual"@,
        DeviceConformity::RegularWithIndividual => "RegularWithIndividual"@,
        DeviceConformity::ExtendedWithIndividual => "ExtendedWithIndividual"@,
        DeviceConformity::Unknown => "Unknown"@,
    }
}

/// Render a conformity level.
pub fn conformity_string(c: DeviceConformity) -> (s: String)
    ensures
        s@ == conformity_label(c),
{
    match c {
        DeviceConformity::Basic => "Basic".to_owned(),
        DeviceConformity::Regular => "Regular".to_owned(),
        DeviceConformity::Extended => "Extended".to_owned(),
        DeviceConformity::BasicWithIndividual => "BasicWithIndividual".to_owned(),
        DeviceConformity::RegularWithIndividual => "RegularWithIndividual".to_owned(),
        DeviceConformity::ExtendedWithIndividual => "ExtendedWithIndividual".to_owned(),
        DeviceConformity::Unknown => "Unknown".to_owned(),
    }
}

/// Relies on `core::str::from_utf8`: succeeds exactly on valid UTF-8 and
/// decodes it to its characters; the result is converted to an owned string.
#[verifier::external_body]
fn utf8_to_string(bytes: &[u8]) -> (r: Option<String>)
    ensures
        r is Some <==> valid_utf8(bytes@),
        r matches Some(s) ==> s@ == decode_utf8(bytes@),
{
    match core::str::from_utf8(bytes) {
        Ok(s) => Some(s.to_owned()),
        Err(_) => None,
    }
}

/// Rows of a device-identification table: one row per object — its id in
/// decimal, its value decoded as UTF-8 text, and the response's conformity
/// level.
pub open spec fn device_id_rows(
    objects: Seq<crate::device_id::DeviceIDObjectView>,
    conformity: DeviceConformity,
) -> Seq<Seq<Seq<char>>> {
    Seq::new(
        objects.len(),
        |i: int|
            seq![
                dec_digits(objects[i].id as nat),
                decode_utf8(objects[i].value),
                conformity_label(conformity),
            ],
    )
}

/// Project a device identification: columns `object_id`, `value` and
/// `conformity_level`, one row per object. Fails when some object's value
/// bytes are not valid UTF-8 — identification values are not guaranteed to be
/// text.
pub fn device_identification_result(identification: &DeviceIdentification) -> (r: Result<
    CommandResult,
    EncodingError,
>)
    ensures
        r is Ok <==> (forall|i: int|
            0 <= i < identification.objects@.len() ==> #[trigger] valid_utf8(
                identification.objects@[i]@.value,
            )),
        r matches Ok(c) ==> strings_view(c.columns) == seq![
            "object_id"@,
            "value"@,
            "conformity_level"@,
        ],
        r matches Ok(c) ==> rows_view(c.rows) == device_id_rows(
            identification@.objects,
            identification.conformity_level,
        ),
        r matches Err(e) ==> e == EncodingError,
{
    let columns = make_row3(
        "object_id".to_owned(),
        "value".to_owned(),
        "conformity_level".to_owned(),
    );
    let objects = &identification.objects;
    let mut rows: Vec<Vec<String>> = Vec::new();
    let mut i: usize = 0;
    while i < objects.len()
        invariant
            i <= objects@.len(),
            rows@.len() == i,
            objects@ == identification.objects@,
            identification@.objects == objects@.map_values(|o: crate::device_id::DeviceIDObject| o@),
            forall|j: int| 0 <= j < i ==> #[trigger] valid_utf8(objects@[j]@.value),
            forall|j: int| 0 <= j < i ==> rows_view(rows)[j] == device_id_rows(
                identification@.objects,
                identification.conformity_level,
            )[j],
        decreases objects@.len() - i,
    {
        let value_text = match utf8_to_string(objects[i].value.as_slice()) {
            Some(s) => s,
            None => {
                proof {
                    assert(!(forall|k: int|
                        0 <= k < identification.objects@.len() ==> #[trigger] valid_utf8(
                            identification.objects@[k]@.value,
                        ))) by {
                        assert(!valid_utf8(identification.objects@[i as int]@.value));
                    }
                }
                return Err(EncodingError);
            },
        };
        let row = make_row3(
            decimal_string(objects[i].id as u64),
            value_text,
            conformity_string(identification.conformity_level),
        );
        proof {
            assert(rows@.push(row).map_values(|x: Vec<String>| strings_view(x)) =~= rows_view(
                rows,
            ).push(strings_view(row)));
        }
        rows.push(row);
        i = i + 1;
    }
    proof {
        assert(rows_view(rows) =~= device_id_rows(
            identification@.objects,
            identification.conformity_level,
        ));
    }
    Ok(CommandResult { columns, rows })
}

/// The one-row table reported after a successful write.
pub fn write_success_result() -> (r: CommandResult)
    ensures
        strings_view(r.columns) == seq!["status"@],
        rows_view(r.rows) == seq![seq!["success"@]],
{
    let mut columns: Vec<String> = Vec::new();
    columns.push("status".to_owned());
    let mut row: Vec<String> = Vec::new();
    row.push("success".to_owned());
    let mut rows: Vec<Vec<String>> = Vec::new();
    proof {
        assert(strings_view(columns) =~= seq!["status"@]);
        assert(strings_view(row) =~= seq!["success"@]);
    }
    rows.push(row);
    proof {
        assert(rows_view(rows) =~= seq![seq!["success"@]]);
    }
    CommandResult { columns, rows }
}

/// Split a custom request's input: the first byte is the function code, the
/// rest is the payload. `None` when the input is empty.
pub fn split_custom_input(input: Vec<u8>) -> (r: Option<(u8, Vec<u8>)>)
    ensures
        r is Some <==> input@.len() > 0,
        r matches Some((code, payload)) ==> code == input@[0] && payload@ == input@.skip(1),
{
    let ghost whole = input@;
    let mut rest = input;
    if rest.len() == 0 {
        return None;
    }
    let code = rest.remove(0);
    proof {
        assert(rest@ =~= whole.skip(1));
    }
    Some((code, rest))
}

/// The function-code cell of a custom response row: `0x` and the code in
/// uppercase hexadecimal.
pub open spec fn custom_code_cell(function_code: u8) -> Seq<char> {
    seq!['0', 'x'] + hex_digits_upper(function_code as nat)
}

/// Rows of a custom response: one row per data byte — the echoed function
/// code, and the byte read as a single character of text.
pub open spec fn custom_rows(function_code: u8, data: Seq<u8>) -> Seq<Seq<Seq<char>>> {
    Seq::new(data.len(), |i: int| seq![custom_code_cell(function_code), seq![data[i] as char]])
}

/// Project a custom response: no header labels, one row per data byte. Fails
/// when a byte is not a single-byte UTF-8 character, that is, not ASCII.
pub fn custom_result(function_code: u8, data: &Vec<u8>) -> (r: Result<
    CommandResult,
    EncodingError,
>)
    ensures
        r is Ok <==> (forall|i: int| 0 <= i < data@.len() ==> data@[i] < 0x80),
        r matches Ok(c) ==> c.columns@.len() == 0 && rows_view(c.rows) == custom_rows(
            function_code,
            data@,
        ),
        r matches Err(e) ==> e == EncodingError,
{
    let columns: Vec<String> = Vec::new();
    let mut rows: Vec<Vec<String>> = Vec::new();
    let mut i: usize = 0;
    while i < data.len()
        invariant
            i <= data@.len(),
            rows@.len() == i,
            forall|j: int| 0 <= j < i ==> data@[j] < 0x80,
            forall|j: int| 0 <= j < i ==> rows_view(rows)[j] == custom_rows(
                function_code,
                data@,
            )[j],
        decreases data@.len() - i,
    {
        let byte = data[i];
        if byte >= 0x80 {
            return Err(EncodingError);
        }
        let mut code_cell = String::new();
        push_char(&mut code_cell, '0');
        push_char(&mut code_cell, 'x');
        push_hex_upper(&mut code_cell, function_code as u64);
        let mut text_cell = String::new();
        push_char(&mut text_cell, byte as char);
        let row = make_row2(code_cell, text_cell);
        proof {
            assert(row@.map_values(|s: String| s@)[0] =~= custom_code_cell(function_code));
            assert(row@.map_values(|s: String| s@)[1] =~= seq![data@[i as int] as char]);
            assert(rows@.push(row).map_values(|x: Vec<String>| strings_view(x)) =~= rows_view(
                rows,
            ).push(strings_view(row)));
        }
        rows.push(row);
        i = i + 1;
    }
    proof {
        assert(rows_view(rows) =~= custom_rows(function_code, data@));
    }
    Ok(CommandResult { columns, rows })
}

} // verus!
