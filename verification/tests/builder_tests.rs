use cpa005::error::ErrorLog;
use cpa005::header::CPA005Record;
use cpa005::payment::{BasicPayment, BasicPaymentSegment};
use cpa005::types::{CurrencyType, ProcessingCentre, RecordType};
use cpa005::utils::n_digits;

fn sample_segment(cents: u64) -> BasicPaymentSegment {
    let mut seg = BasicPaymentSegment::new();
    seg.set_transaction_code("200".to_string());
    seg.set_client_name("Acme".to_string());
    seg.set_customer_number("cust1".to_string());
    seg.set_customer_name("John Doe".to_string());
    seg.set_financial_institution_number("0001".to_string());
    seg.set_financial_institution_branch_number("00001".to_string());
    seg.set_account_number("123456789012".to_string());
    seg.set_payment_date(2023, 15);
    seg.set_client_number("1234567890".to_string());
    seg.set_client_short_name("Acme".to_string());
    seg.set_amount(cents);
    assert!(seg.error_log.has_errors(), "segment should be clean");
    seg
}

fn sample_payment(cents: u64, record_type: RecordType) -> BasicPayment {
    let mut payment = BasicPayment::new();
    payment.record_type = record_type;
    payment.set_client_number("1234567890".to_string());
    payment.segments.push(sample_segment(cents));
    payment
}

#[test]
fn error_log_orders_and_merges() {
    let mut a = ErrorLog::new();
    assert!(a.has_errors(), "a fresh log is empty");
    a.write_error("first");
    a.write_error("second");
    let mut b = ErrorLog::new();
    b.write_error("third");
    a.merge_log(&b);
    assert!(!a.has_errors());
    assert_eq!(a.to_string(), "first\nsecond\nthird");
    assert_eq!(b.to_string(), "third");
}

#[test]
fn n_digits_counts() {
    assert_eq!(n_digits(0), 0);
    assert_eq!(n_digits(7), 1);
    assert_eq!(n_digits(9999), 4);
    assert_eq!(n_digits(10000), 5);
}

#[test]
fn segment_build_is_240_chars_with_exact_fields() {
    let seg = sample_segment(10000);
    let text = seg.build();
    assert_eq!(text.len(), 240);
    let expected = format!(
        "{}{:0>8}{:0>2}0{:0>2}{:0>3}{}{}{:<12}{}{}{:<15}{:<30}{:<30}{:<10}{:<19}{}{}{:<15}{}{}{}",
        "200",
        100,
        0,
        23,
        15,
        "0001",
        "00001",
        "123456789012",
        "0".repeat(22),
        "000",
        "Acme",
        "John Doe",
        "Acme",
        "1234567890",
        "cust1",
        "0".repeat(9),
        " ".repeat(12),
        "",
        " ".repeat(22),
        "  ",
        " ".repeat(11)
    );
    assert_eq!(text, expected);
}

#[test]
fn segment_setters_validate_fields() {
    let mut seg = BasicPaymentSegment::new();
    seg.set_transaction_code("20".to_string());
    assert_eq!(
        seg.error_log.to_string(),
        "Transaction code must be 3 digits, received 20 instead"
    );
    assert_eq!(seg.transaction_code, "");

    let mut seg = BasicPaymentSegment::new();
    seg.set_financial_institution_branch_number("12a".to_string());
    assert_eq!(seg.error_log.to_string(), "Branch number must be 5 digits");

    let mut seg = BasicPaymentSegment::new();
    seg.set_financial_institution_branch_number("7".to_string());
    assert_eq!(seg.financial_institution_branch_number, "00007");

    let mut seg = BasicPaymentSegment::new();
    seg.set_financial_institution_number("81".to_string());
    assert_eq!(seg.financial_institution_number, "0081");

    let mut seg = BasicPaymentSegment::new();
    seg.set_account_number("12345abc".to_string());
    assert_eq!(
        seg.error_log.to_string(),
        "Account number must only include digits"
    );
    seg.set_account_number("1234567890123".to_string());
    assert_eq!(
        seg.error_log.to_string(),
        "Account number must only include digits\nAccount number cannot exceed 12 digits"
    );

    let mut seg = BasicPaymentSegment::new();
    seg.set_payment_date(2023, 0);
    assert_eq!(seg.error_log.to_string(), "Payment Date Day number is 0");
    assert_eq!(seg.payment_date, (0, 0));

    let mut seg = BasicPaymentSegment::new();
    seg.set_client_short_name("sixteen chars!!!".to_string());
    assert_eq!(
        seg.error_log.to_string(),
        "Client Short Name must not exceed 15 characters"
    );

    let mut seg = BasicPaymentSegment::new();
    seg.set_customer_name("x".repeat(31));
    assert_eq!(
        seg.error_log.to_string(),
        "Customer Name must not exceed 30 characters"
    );

    let mut seg = BasicPaymentSegment::new();
    seg.set_client_name("x".repeat(31));
    assert_eq!(
        seg.error_log.to_string(),
        "Client Name must not exceed 30 characters"
    );

    let mut seg = BasicPaymentSegment::new();
    seg.set_customer_number("x".repeat(20));
    assert_eq!(
        seg.error_log.to_string(),
        "Customer number must not exceed 19 characters"
    );

    let mut seg = BasicPaymentSegment::new();
    seg.set_customer_sundry_information("x".repeat(16));
    assert_eq!(
        seg.error_log.to_string(),
        "Client Sundry Information must not exceed 15 characters"
    );
}

#[test]
fn client_number_rules_on_every_builder() {
    let mut seg = BasicPaymentSegment::new();
    seg.set_client_number("12345".to_string());
    assert_eq!(
        seg.error_log.to_string(),
        "Client number must be exactly 10 numeric digits long"
    );

    let mut seg = BasicPaymentSegment::new();
    seg.set_client_number("12345678901".to_string());
    assert_eq!(
        seg.error_log.to_string(),
        "Client number must be exactly 10 numeric digits long"
    );

    let mut seg = BasicPaymentSegment::new();
    seg.set_client_number("123456789x".to_string());
    assert_eq!(
        seg.error_log.to_string(),
        "Client number must not contain non-numeric digits"
    );

    let mut seg = BasicPaymentSegment::new();
    seg.set_client_number("1234567890".to_string());
    assert!(seg.error_log.has_errors());
    assert_eq!(seg.client_number, "1234567890");

    let mut payment = BasicPayment::new();
    payment.set_client_number("12345".to_string());
    assert_eq!(
        payment.error_log.to_string(),
        "Client number must be exactly 10 numeric digits long"
    );

    let mut record = CPA005Record::new();
    record.set_client_number("12345".to_string());
    assert_eq!(
        record.error_log.to_string(),
        "Client number must be exactly 10 numeric digits long"
    );
}

#[test]
fn payment_build_rejects_header_and_trailer_types() {
    let mut payment = sample_payment(10000, RecordType::Credit);
    payment.record_count = 2;
    payment.file_creation_number = 2;
    let line = payment.build().expect("credit payment builds");
    assert_eq!(line.len(), 264);
    assert!(line.starts_with("C0000000021234567890" ));
    assert_eq!(&line[20..24], "2   ");

    payment.record_type = RecordType::Header;
    assert_eq!(
        payment.build(),
        Err("Expected record of type CREDIT or DEBIT".to_string())
    );
    payment.record_type = RecordType::Trailer;
    assert!(payment.build().is_err());
}

#[test]
fn aggregator_rejects_invalid_record_type_without_panic() {
    let mut record = CPA005Record::new();
    let payment = sample_payment(100, RecordType::Header);
    record.add_basic_payment(payment);
    assert_eq!(
        record.error_log.to_string(),
        "Basic Payment Record Type can only be CREDIT or DEBIT!"
    );
    assert_eq!(record.basic_payment.len(), 0);
    assert_eq!(record.current_record_no, 1);
}

#[test]
fn aggregator_assigns_sequential_record_numbers_from_two() {
    let mut record = CPA005Record::new();
    record.set_client_number("1234567890".to_string());
    record.add_basic_payment(sample_payment(100, RecordType::Credit));
    record.add_basic_payment(sample_payment(250, RecordType::Debit));
    record.add_basic_payment(sample_payment(50, RecordType::Credit));
    let numbers: Vec<u32> = record.basic_payment.iter().map(|p| p.record_count).collect();
    assert_eq!(numbers, vec![2, 3, 4]);
    let fcns: Vec<u32> = record
        .basic_payment
        .iter()
        .map(|p| p.file_creation_number)
        .collect();
    assert_eq!(fcns, vec![2, 3, 4]);
    assert_eq!(record.current_record_no, 4);
}

#[test]
fn aggregator_totals_split_by_record_type() {
    let mut record = CPA005Record::new();
    record.add_basic_payment(sample_payment(100, RecordType::Credit));
    record.add_basic_payment(sample_payment(250, RecordType::Debit));
    record.add_basic_payment(sample_payment(50, RecordType::Credit));
    assert_eq!(record.total_credit_amount, 150);
    assert_eq!(record.total_credit_count, 2);
    assert_eq!(record.total_debit_amount, 250);
    assert_eq!(record.total_debit_count, 1);
    assert_eq!(
        record.total_credit_amount + record.total_debit_amount,
        400,
        "credit and debit totals together hold every segment amount"
    );
    assert_eq!(
        record.total_credit_count + record.total_debit_count,
        record.basic_payment.len() as u64
    );
}

#[test]
fn header_and_trailer_records_are_1464_chars() {
    let mut record = CPA005Record::new();
    record.set_client_number("1234567890".to_string());
    record.set_file_creation_number(1);
    record.set_file_creation_date(2023, 15);
    record.set_destination_currency_code(CurrencyType::CAD);
    record.add_basic_payment(sample_payment(10000, RecordType::Credit));
    let header = record.build_header_record();
    let trailer = record.build_trailer_record();
    assert_eq!(header.len(), 1464);
    assert_eq!(trailer.len(), 1464);
    let expected_header = format!(
        "A{:0>9}{}{:<4}0{:0>2}{:0>3}{}{}{}{}",
        1,
        "1234567890",
        1,
        23,
        15,
        "00300",
        " ".repeat(20),
        "CAD",
        " ".repeat(1406)
    );
    assert_eq!(header, expected_header);
    let expected_trailer = format!(
        "Z{:0>9}{}{:<4}{:0>12}{:0>2}{:0>8}{:0>12}{:0>2}{:0>8}{}",
        3,
        "1234567890",
        1,
        0,
        0,
        0,
        100,
        0,
        1,
        "0".repeat(1396)
    );
    assert_eq!(trailer, expected_trailer);
}

#[test]
fn header_record_carries_each_centre_code() {
    let centres = [
        (ProcessingCentre::Halifax, "00330"),
        (ProcessingCentre::Montreal, "00310"),
        (ProcessingCentre::Toronto, "00320"),
        (ProcessingCentre::Regina, "00278"),
        (ProcessingCentre::Winnipeg, "00370"),
        (ProcessingCentre::Calgary, "00390"),
        (ProcessingCentre::Vancouver, "00300"),
    ];
    for (centre, code) in centres {
        let mut record = CPA005Record::new();
        record.set_client_number("1234567890".to_string());
        record.rbc_processing_centre = centre;
        let header = record.build_header_record();
        assert_eq!(&header[30..35], code);
    }
}

#[test]
fn file_creation_number_limited_to_four_digits() {
    let mut record = CPA005Record::new();
    record.set_file_creation_number(10000);
    assert_eq!(
        record.error_log.to_string(),
        "File creation number exceeds 4 digits"
    );
    assert_eq!(record.file_creation_number, 0);
    record.set_file_creation_number(9999);
    assert_eq!(record.file_creation_number, 9999);

    let mut payment = BasicPayment::new();
    payment.set_file_creation_number(12345);
    assert_eq!(
        payment.error_log.to_string(),
        "File creation number exceeds 4 digits"
    );
}

#[test]
fn file_creation_date_validates_and_truncates_year() {
    let mut record = CPA005Record::new();
    record.set_file_creation_date(10000, 1);
    assert_eq!(
        record.error_log.to_string(),
        "File Creation Date: Year number exceeds 4 digits"
    );
    record.set_file_creation_date(2023, 1000);
    assert!(record.error_log.to_string().contains(
        "File Creation Date: Day number exceeds 4 digits"
    ));
    record.set_file_creation_date(2023, 15);
    assert_eq!(record.file_creation_date, (23, 15));
}

#[test]
fn aggregator_rejects_total_overflow_with_error() {
    let mut record = CPA005Record::new();
    record.add_basic_payment(sample_payment(u64::MAX - 10, RecordType::Credit));
    assert!(record.error_log.has_errors(), "first payment fits");
    record.add_basic_payment(sample_payment(100, RecordType::Credit));
    assert_eq!(record.error_log.to_string(), "File capacity exceeded");
    assert_eq!(record.basic_payment.len(), 1);
    assert_eq!(record.total_credit_count, 1);
}

#[test]
fn build_skips_directly_injected_invalid_payment() {
    let mut record = CPA005Record::new();
    record.set_client_number("1234567890".to_string());
    record.add_basic_payment(sample_payment(100, RecordType::Credit));
    // Bypassing the append contract leaves the payment without a line.
    let mut rogue = sample_payment(200, RecordType::Trailer);
    rogue.record_count = 9;
    record.basic_payment.push(rogue);
    let text = record.build();
    let lines: Vec<&str> = text.split('\n').collect();
    assert_eq!(lines.len(), 3, "only the valid payment produces a line");
}

#[test]
fn full_file_build_lines() {
    let mut record = CPA005Record::new();
    record.set_client_number("1234567890".to_string());
    record.set_file_creation_number(1);
    record.set_file_creation_date(2023, 1);
    record.add_basic_payment(sample_payment(10000, RecordType::Credit));
    let text = record.build();
    let lines: Vec<&str> = text.split('\n').collect();
    assert_eq!(lines.len(), 3);
    assert_eq!(lines[0].len(), 1464);
    assert_eq!(lines[1].len(), 264);
    assert_eq!(lines[2].len(), 1464);
    assert!(lines[0].starts_with('A'));
    assert!(lines[1].starts_with('C'));
    assert!(lines[2].starts_with('Z'));
}
