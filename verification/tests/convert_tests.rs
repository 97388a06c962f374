use cpa005::convert::{convert_rows, convert_to_cpa005};
use cpa005::rows::RawRow;
use cpa005::types::RecordType;

fn field_row(cols: &[&str]) -> RawRow {
    RawRow::Fields(cols.iter().map(|c| c.to_string()).collect())
}

fn metadata_rows() -> Vec<RawRow> {
    vec![
        field_row(&["Client Name", "Acme"]),
        field_row(&["Client Number", "1234567890"]),
        field_row(&["Processing Centre", "00300"]),
        field_row(&["Currency Code", "CAD"]),
        field_row(&["Payment Date", "2023/01/15"]),
        field_row(&["Transaction Code", "200"]),
        field_row(&["customer number", "customer name", "bank", "branch", "account", "amount", "suspend", "todo", "total"]),
    ]
}

#[test]
fn unreadable_rows_are_logged_verbatim() {
    let mut rows = metadata_rows();
    rows.push(RawRow::Malformed("record 8: broken quoting".to_string()));
    let err = convert_rows(&rows, RecordType::Credit).expect_err("must fail");
    assert!(err.to_string().contains("record 8: broken quoting"));
}

#[test]
fn rows_without_nine_columns_are_logged() {
    let mut rows = metadata_rows();
    rows.push(field_row(&["cust1", "John Doe", "0001"]));
    let err = convert_rows(&rows, RecordType::Credit).expect_err("must fail");
    assert!(err.to_string().contains("Row must have exactly 9 columns"));
}

fn meta_line(key: &str, value: &str) -> String {
    format!("{},{},,,,,,,\n", key, value)
}

fn standard_metadata() -> String {
    let mut text = String::new();
    text.push_str(&meta_line("Client Name", "Acme"));
    text.push_str(&meta_line("Client Number", "1234567890"));
    text.push_str(&meta_line("Processing Centre", "00300"));
    text.push_str(&meta_line("Currency Code", "CAD"));
    text.push_str(&meta_line("Payment Date", "2023/01/15"));
    text.push_str(&meta_line("Transaction Code", "200"));
    text.push_str("customer number,customer name,bank,branch,account,amount,suspend,todo,total\n");
    text
}

fn standard_input() -> String {
    let mut text = standard_metadata();
    text.push_str("cust1,John Doe,0001,00001,123456789012,$100.00,N,,\n");
    text
}

#[test]
fn end_to_end_credit_file() {
    let result = convert_to_cpa005(standard_input(), RecordType::Credit);
    let text = result.expect("conversion succeeds");
    let lines: Vec<&str> = text.split('\n').collect();
    assert_eq!(lines.len(), 3);
    assert_eq!(lines[0].len(), 1464);
    assert_eq!(lines[1].len(), 264);
    assert_eq!(lines[2].len(), 1464);

    let expected_header = format!(
        "A{:0>9}{}{:<4}0{:0>2}{:0>3}{}{}{}{}",
        1,
        "1234567890",
        1,
        23,
        1,
        "00300",
        " ".repeat(20),
        "CAD",
        " ".repeat(1406)
    );
    assert_eq!(lines[0], expected_header);

    let expected_segment = format!(
        "{}{:0>8}{:0>2}0{:0>2}{:0>3}{}{}{:<12}{}{}{:<15}{:<30}{:<30}{:<10}{:<19}{}{}{:<15}{}{}{}",
        "200",
        100,
        0,
        23,
        15,
        "0001",
        "00001",
        "123456789012",
        "0".repeat(22),
        "000",
        "Acme",
        "John Doe",
        "Acme",
        "1234567890",
        "cust1",
        "0".repeat(9),
        " ".repeat(12),
        "",
        " ".repeat(22),
        "  ",
        " ".repeat(11)
    );
    let expected_detail = format!("C{:0>9}{}{:<4}{}", 2, "1234567890", 2, expected_segment);
    assert_eq!(lines[1], expected_detail);

    // Trailer: debit fields zero, credit total 10000 cents, credit count 1.
    assert_eq!(&lines[2][0..1], "Z");
    assert_eq!(&lines[2][1..10], "000000003");
    assert_eq!(&lines[2][10..20], "1234567890");
    assert_eq!(&lines[2][20..24], "1   ");
    assert_eq!(&lines[2][24..38], "00000000000000");
    assert_eq!(&lines[2][38..46], "00000000");
    assert_eq!(&lines[2][46..60], "00000000010000");
    assert_eq!(&lines[2][60..68], "00000001");
    assert_eq!(&lines[2][68..], "0".repeat(1396));
}

#[test]
fn end_to_end_debit_file_uses_debit_fields() {
    let result = convert_to_cpa005(standard_input(), RecordType::Debit);
    let text = result.expect("conversion succeeds");
    let lines: Vec<&str> = text.split('\n').collect();
    assert_eq!(lines.len(), 3);
    assert!(lines[1].starts_with('D'));
    assert_eq!(&lines[2][24..38], "00000000010000");
    assert_eq!(&lines[2][38..46], "00000001");
    assert_eq!(&lines[2][46..60], "00000000000000");
    assert_eq!(&lines[2][60..68], "00000000");
}

#[test]
fn suspended_rows_are_skipped_silently() {
    for suspend in ["Y", "y", " y "] {
        let mut text = standard_metadata();
        text.push_str(&format!(
            "cust1,John Doe,0001,00001,123456789012,$100.00,{},,\n",
            suspend
        ));
        let result = convert_to_cpa005(text, RecordType::Credit);
        let file = result.expect("a suspended row is no error");
        let lines: Vec<&str> = file.split('\n').collect();
        assert_eq!(lines.len(), 2, "no detail line for a suspended row");
        assert_eq!(&lines[1][60..68], "00000000");
    }
}

#[test]
fn blank_customer_number_rows_are_skipped_silently() {
    let mut text = standard_metadata();
    text.push_str(" ,John Doe,0001,00001,123456789012,$100.00,N,,\n");
    let result = convert_to_cpa005(text, RecordType::Credit);
    let file = result.expect("a blank customer number is no error");
    assert_eq!(file.split('\n').count(), 2);
}

#[test]
fn short_client_number_fails_with_length_error() {
    let text = standard_input().replace("1234567890", "12345");
    let err = convert_to_cpa005(text, RecordType::Credit).expect_err("must fail");
    assert!(err
        .to_string()
        .contains("Client number must be exactly 10 numeric digits long"));
}

#[test]
fn long_client_number_fails_with_length_error() {
    let text = standard_input().replace("1234567890", "12345678901");
    let err = convert_to_cpa005(text, RecordType::Credit).expect_err("must fail");
    assert!(err
        .to_string()
        .contains("Client number must be exactly 10 numeric digits long"));
}

#[test]
fn bad_amount_is_logged_and_row_dropped() {
    let text = standard_input().replace("$100.00", "abc");
    let err = convert_to_cpa005(text, RecordType::Credit).expect_err("must fail");
    assert!(err.to_string().contains("Failed to parse payment amount: abc"));
}

#[test]
fn wrong_metadata_key_is_reported() {
    let text = standard_input().replace("Client Number,", "Client Nr,");
    let err = convert_to_cpa005(text, RecordType::Credit).expect_err("must fail");
    assert!(err
        .to_string()
        .contains("Expected header Client Number, got Client Nr instead"));
}

#[test]
fn missing_metadata_lines_are_reported() {
    let err = convert_to_cpa005("".to_string(), RecordType::Credit).expect_err("must fail");
    let text = err.to_string();
    assert!(text.contains("Could not read CSV header record: Client Name"));
    assert!(text.contains("Could not read CSV header record: Transaction Code"));
}

#[test]
fn unknown_processing_centre_is_reported_zero_padded() {
    let text = standard_input().replace("00300", "999");
    let err = convert_to_cpa005(text, RecordType::Credit).expect_err("must fail");
    assert!(err
        .to_string()
        .contains("Invalid Processing Centre: 00999 specified in CSV header"));
}

#[test]
fn currency_code_is_upper_cased_before_matching() {
    let text = standard_input().replace("CAD", "usd");
    let file = convert_to_cpa005(text, RecordType::Credit).expect("usd is USD");
    let lines: Vec<&str> = file.split('\n').collect();
    assert_eq!(&lines[0][55..58], "USD");
}

#[test]
fn unknown_currency_is_reported_upper_cased() {
    let text = standard_input().replace("CAD", "xxx");
    let err = convert_to_cpa005(text, RecordType::Credit).expect_err("must fail");
    assert!(err
        .to_string()
        .contains("Invalid Currency Code: XXX specified in CSV header"));
}

#[test]
fn bad_payment_date_is_reported() {
    let text = standard_input().replace("2023/01/15", "2023/02/29");
    let err = convert_to_cpa005(text, RecordType::Credit).expect_err("must fail");
    assert!(err.to_string().contains(
        "Could not parse payment date. Date should be in the form of YYYY/MM/DD: 2023/02/29"
    ));
}

#[test]
fn payment_date_becomes_ordinal_day_of_year() {
    // 2024 is a leap year: March 1st is its 61st day; in 2023 it is the 60th.
    let text = standard_input().replace("2023/01/15", "2024/03/01");
    let file = convert_to_cpa005(text, RecordType::Credit).expect("valid date");
    let lines: Vec<&str> = file.split('\n').collect();
    assert_eq!(&lines[1][37..43], "024061");

    let text = standard_input().replace("2023/01/15", "2023/03/01");
    let file = convert_to_cpa005(text, RecordType::Credit).expect("valid date");
    let lines: Vec<&str> = file.split('\n').collect();
    assert_eq!(&lines[1][37..43], "023060");
}

#[test]
fn quoted_fields_keep_embedded_commas() {
    let mut text = standard_metadata();
    text.push_str("cust1,\"Doe, John\",0001,00001,123456789012,$100.00,N,,\n");
    let file = convert_to_cpa005(text, RecordType::Credit).expect("quoted field parses");
    let lines: Vec<&str> = file.split('\n').collect();
    // Customer name column of the detail segment holds the whole quoted value.
    assert_eq!(&lines[1][104..134], format!("{:<30}", "Doe, John"));
}

#[test]
fn row_with_wrong_field_count_is_logged() {
    let mut text = standard_metadata();
    text.push_str("cust1,John Doe,0001\n");
    let err = convert_to_cpa005(text, RecordType::Credit).expect_err("must fail");
    assert!(!err.to_string().is_empty());
}

#[test]
fn long_client_name_is_truncated_to_short_name() {
    let text = standard_input().replace("Client Name,Acme", "Client Name,A Very Long Client Name Ltd");
    let file = convert_to_cpa005(text, RecordType::Credit).expect("long name is fine");
    let lines: Vec<&str> = file.split('\n').collect();
    // Short name field: characters 69..84 of the detail line.
    assert_eq!(&lines[1][89..104], "A Very Long Cli");
}

#[test]
fn multiple_rows_get_sequential_record_numbers() {
    let mut text = standard_metadata();
    text.push_str("cust1,John Doe,0001,00001,123456789012,$100.00,N,,\n");
    text.push_str("cust2,Jane Doe,0002,00002,210987654321,$2.50,N,,\n");
    text.push_str("cust3,Jim Doe,0003,00003,111111111111,$0.25,N,,\n");
    let file = convert_to_cpa005(text, RecordType::Credit).expect("all rows valid");
    let lines: Vec<&str> = file.split('\n').collect();
    assert_eq!(lines.len(), 5);
    assert_eq!(&lines[1][1..10], "000000002");
    assert_eq!(&lines[2][1..10], "000000003");
    assert_eq!(&lines[3][1..10], "000000004");
    assert_eq!(&lines[4][1..10], "000000005");
    // Credit total: 10000 + 250 + 25 cents.
    assert_eq!(&lines[4][46..60], "00000000010275");
    assert_eq!(&lines[4][60..68], "00000003");
}

#[test]
fn field_errors_fail_the_conversion_atomically() {
    // 13-digit account number: the field error is collected and the whole
    // conversion fails; no partial file comes back.
    let text = standard_input().replace("123456789012", "1234567890123");
    let err = convert_to_cpa005(text, RecordType::Credit).expect_err("must fail");
    assert!(err
        .to_string()
        .contains("Account number cannot exceed 12 digits"));
}

#[test]
fn header_and_trailer_record_types_are_rejected_per_row() {
    let err = convert_to_cpa005(standard_input(), RecordType::Header).expect_err("must fail");
    assert!(err
        .to_string()
        .contains("Basic Payment Record Type can only be CREDIT or DEBIT!"));
}

#[test]
fn all_problems_are_reported_in_one_pass() {
    let mut text = String::new();
    text.push_str(&meta_line("Client Name", "Acme"));
    text.push_str(&meta_line("Client Number", "123"));
    text.push_str(&meta_line("Processing Centre", "99999"));
    text.push_str(&meta_line("Currency Code", "EUR"));
    text.push_str(&meta_line("Payment Date", "not a date"));
    text.push_str(&meta_line("Transaction Code", "200"));
    text.push_str("customer number,customer name,bank,branch,account,amount,suspend,todo,total\n");
    text.push_str("cust1,John Doe,0001,00001,123456789012,bad,N,,\n");
    let err = convert_to_cpa005(text, RecordType::Credit).expect_err("must fail");
    let rendered = err.to_string();
    assert!(rendered.contains("Invalid Processing Centre: 99999"));
    assert!(rendered.contains("Invalid Currency Code: EUR"));
    assert!(rendered.contains("Could not parse payment date"));
    assert!(rendered.contains("Failed to parse payment amount: bad"));
    assert!(rendered.contains("Client number must be exactly 10 numeric digits long"));
}
