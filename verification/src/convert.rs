//! The pipeline orchestrator: parses the six-line metadata block, walks
//! the data rows applying the skip rules, builds segments and payments,
//! feeds them to the file aggregator, and decides success or failure from
//! the merged error log.

use vstd::prelude::*;
use crate::amount::parse_dollar_amount_to_cents;
use crate::amount::spec_parse_dollar_amount;
use crate::dates::parse_date_ymd;
use crate::dates::parsed_date_of;
use crate::error::ErrorLog;
use crate::header::lemma_add_preserves_inv;
use crate::header::lemma_rec_new_inv;
use crate::header::rec_add_payment;
use crate::header::rec_inv;
use crate::header::rec_new;
use crate::header::rec_set_client_number;
use crate::header::rec_set_file_creation_date;
use crate::header::rec_set_file_creation_number;
use crate::header::spec_file_text;
use crate::header::CPA005Record;
use crate::header::RecordView;
use crate::payment::pay_new;
use crate::payment::pay_set_client_number;
use crate::payment::seg_new;
use crate::payment::seg_set_account_number;
use crate::payment::seg_set_amount;
use crate::payment::seg_set_client_name;
use crate::payment::seg_set_client_number;
use crate::payment::seg_set_client_short_name;
use crate::payment::seg_set_customer_name;
use crate::payment::seg_set_customer_number;
use crate::payment::seg_set_financial_institution_branch_number;
use crate::payment::seg_set_financial_institution_number;
use crate::payment::seg_set_payment_date;
use crate::payment::seg_set_transaction_code;
use crate::payment::BasicPayment;
use crate::payment::BasicPaymentSegment;
use crate::payment::PaymentView;
use crate::rows::csv_rows_of;
use crate::rows::read_csv_rows;
use crate::rows::rows_view;
use crate::rows::RawRow;
use crate::text::chars_eq;
use crate::text::chars_to_string;
use crate::text::pad_left;
use crate::text::prefix_chars;
use crate::text::push_chars;
use crate::text::push_repeat;
use crate::text::to_char_vec;
use crate::text::to_upper_chars;
use crate::text::trim_chars;
use crate::text::trimmed;
use crate::text::upper_seq;
use crate::types::centre_from_code;
use crate::types::centre_of_code;
use crate::types::currency_from_code;
use crate::types::currency_of_code;
use crate::types::CurrencyType;
use crate::types::ProcessingCentre;
use crate::types::RecordType;

verus! {

/// Mathematical value of the parsed metadata block.
#[verifier::ext_equal]
pub ghost struct HeaderView {
    pub client_name: Seq<char>,
    pub client_number: Seq<char>,
    pub processing_centre: ProcessingCentre,
    pub currency_code: CurrencyType,
    pub payment_date: (u64, u64),
    pub transaction_code: Seq<char>,
}

/// The metadata read from the six fixed key/value lines at the top of
/// the input.
pub struct CSVHeader {
    pub client_name: String,
    pub client_number: String,
    pub processing_centre: ProcessingCentre,
    pub currency_code: CurrencyType,
    pub payment_date: (u64, u64),
    pub transaction_code: String,
}

impl View for CSVHeader {
    type V = HeaderView;

    open spec fn view(&self) -> HeaderView {
        HeaderView {
            client_name: self.client_name@,
            client_number: self.client_number@,
            processing_centre: self.processing_centre,
            currency_code: self.currency_code,
            payment_date: self.payment_date,
            transaction_code: self.transaction_code@,
        }
    }
}

/// The defaults the metadata keeps when a line is missing or invalid:
/// empty texts, Vancouver, CAD, date pair (0, 0).
pub open spec fn header_new() -> HeaderView {
    HeaderView {
        client_name: Seq::empty(),
        client_number: Seq::empty(),
        processing_centre: ProcessingCentre::Vancouver,
        currency_code: CurrencyType::CAD,
        payment_date: (0, 0),
        transaction_code: Seq::empty(),
    }
}

impl CSVHeader {
    /// The metadata defaults.
    pub fn new() -> (h: Self)
        ensures
            h@ == header_new(),
    {
        let h = Self {
            client_name: String::new(),
            client_number: String::new(),
            processing_centre: ProcessingCentre::Vancouver,
            currency_code: CurrencyType::CAD,
            payment_date: (0, 0),
            transaction_code: String::new(),
        };
        proof {
            assert(h@.client_name =~= Seq::<char>::empty());
            assert(h@.client_number =~= Seq::<char>::empty());
            assert(h@.transaction_code =~= Seq::<char>::empty());
        }
        h
    }
}

/// The value of the metadata line at index `i`, whose key must be `key`
/// after trimming; or the error that reading it produces.
pub open spec fn meta_field(
    rows: Seq<Result<Seq<Seq<char>>, Seq<char>>>,
    i: int,
    key: Seq<char>,
) -> Result<Seq<char>, Seq<char>> {
    if i >= rows.len() {
        Err("Could not read CSV header record: "@ + key + "\n"@)
    } else {
        match rows[i] {
            Err(_) => Err("Could not read CSV header record: "@ + key + "\n"@),
            Ok(cols) => {
                if cols.len() == 0 {
                    Err("No header found!\n"@)
                } else if trimmed(cols[0]) != key {
                    Err("Expected header "@ + key + ", got "@ + cols[0] + " instead\n"@)
                } else if cols.len() < 2 {
                    Err("Expected value for header "@ + key + "\n"@)
                } else {
                    Ok(cols[1])
                }
            },
        }
    }
}

/// Build `a`, then `mid`, then `b` as one string.
fn concat3(a: &str, mid: &Vec<char>, b: &str) -> (s: String)
    ensures
        s@ == a@ + mid@ + b@,
{
    let mut out = to_char_vec(a);
    push_chars(&mut out, mid);
    let tail = to_char_vec(b);
    push_chars(&mut out, &tail);
    chars_to_string(&out)
}

/// Read the metadata line at index `i` and check its key against
/// `header_name`; return its value, or the error to log.
pub fn validate_csv_header(rows: &Vec<RawRow>, i: usize, header_name: &str) -> (r: Result<
    String,
    String,
>)
    ensures
        ({
            let m = meta_field(rows_view(rows@), i as int, header_name@);
            &&& (r is Ok) == (m is Ok)
            &&& (r matches Ok(s) ==> m matches Ok(mv) && s@ == mv)
            &&& (r matches Err(e) ==> m matches Err(me) && e@ == me)
        }),
{
    let key = to_char_vec(header_name);
    if i >= rows.len() {
        return Err(concat3("Could not read CSV header record: ", &key, "\n"));
    }
    match &rows[i] {
        RawRow::Malformed(_) => Err(concat3("Could not read CSV header record: ", &key, "\n")),
        RawRow::Fields(cols) => {
            if cols.len() == 0 {
                Err("No header found!\n".to_owned())
            } else {
                let first = to_char_vec(cols[0].as_str());
                let t = trim_chars(&first);
                if !chars_eq(&t, &key) {
                    let mut msg = to_char_vec("Expected header ");
                    push_chars(&mut msg, &key);
                    let mid = to_char_vec(", got ");
                    push_chars(&mut msg, &mid);
                    push_chars(&mut msg, &first);
                    let tail = to_char_vec(" instead\n");
                    push_chars(&mut msg, &tail);
                    Err(chars_to_string(&msg))
                } else if cols.len() < 2 {
                    Err(concat3("Expected value for header ", &key, "\n"))
                } else {
                    Ok(cols[1].clone())
                }
            }
        },
    }
}

/// Value and errors of the client-name line.
pub open spec fn meta_client_name(rows: Seq<Result<Seq<Seq<char>>, Seq<char>>>) -> (
    Seq<char>,
    Seq<Seq<char>>,
) {
    match meta_field(rows, 0, "Client Name"@) {
        Ok(s) => (s, Seq::<Seq<char>>::empty()),
        Err(e) => (Seq::<char>::empty(), seq![e]),
    }
}

/// Value and errors of the client-number line.
pub open spec fn meta_client_number(rows: Seq<Result<Seq<Seq<char>>, Seq<char>>>) -> (
    Seq<char>,
    Seq<Seq<char>>,
) {
    match meta_field(rows, 1, "Client Number"@) {
        Ok(s) => (s, Seq::<Seq<char>>::empty()),
        Err(e) => (Seq::<char>::empty(), seq![e]),
    }
}

/// Value and errors of the processing-centre line: the value is
/// zero-padded to 5 digits and matched against the code table; an
/// unknown code is an error and leaves the Vancouver default.
pub open spec fn meta_centre(rows: Seq<Result<Seq<Seq<char>>, Seq<char>>>) -> (
    ProcessingCentre,
    Seq<Seq<char>>,
) {
    match meta_field(rows, 2, "Processing Centre"@) {
        Ok(s) => {
            let padded = pad_left(s, '0', 5);
            match centre_of_code(padded) {
                Some(c) => (c, Seq::<Seq<char>>::empty()),
                None => (
                    ProcessingCentre::Vancouver,
                    seq!["Invalid Processing Centre: "@ + padded + " specified in CSV header\n"@],
                ),
            }
        },
        Err(e) => (ProcessingCentre::Vancouver, seq![e]),
    }
}

/// Value and errors of the currency-code line: the value is upper-cased
/// and matched against CAD/USD; an unknown code is an error and leaves
/// the CAD default.
pub open spec fn meta_currency(rows: Seq<Result<Seq<Seq<char>>, Seq<char>>>) -> (
    CurrencyType,
    Seq<Seq<char>>,
) {
    match meta_field(rows, 3, "Currency Code"@) {
        Ok(s) => {
            let up = upper_seq(s);
            match currency_of_code(up) {
                Some(c) => (c, Seq::<Seq<char>>::empty()),
                None => (
                    CurrencyType::CAD,
                    seq!["Invalid Currency Code: "@ + up + " specified in CSV header\n"@],
                ),
            }
        },
        Err(e) => (CurrencyType::CAD, seq![e]),
    }
}

/// Value and errors of the payment-date line: parsed as `YYYY/MM/DD`
/// into a calendar year and ordinal day; a parse failure is an error and
/// leaves the pair (0, 0).
pub open spec fn meta_date(rows: Seq<Result<Seq<Seq<char>>, Seq<char>>>) -> (
    (u64, u64),
    Seq<Seq<char>>,
) {
    match meta_field(rows, 4, "Payment Date"@) {
        Ok(s) => {
            match parsed_date_of(s) {
                Some(p) => (((p.0 as u64), p.1), Seq::<Seq<char>>::empty()),
                None => (
                    (0u64, 0u64),
                    seq![
                        "Could not parse payment date. Date should be in the form of YYYY/MM/DD: "@
                            + s + "\n"@
                    ],
                ),
            }
        },
        Err(e) => ((0u64, 0u64), seq![e]),
    }
}

/// Value and errors of the transaction-code line.
pub open spec fn meta_transaction_code(rows: Seq<Result<Seq<Seq<char>>, Seq<char>>>) -> (
    Seq<char>,
    Seq<Seq<char>>,
) {
    match meta_field(rows, 5, "Transaction Code"@) {
        Ok(s) => (s, Seq::<Seq<char>>::empty()),
        Err(e) => (Seq::<char>::empty(), seq![e]),
    }
}

/// The whole metadata block and the errors of all six lines, in reading
/// order.
pub open spec fn parse_metadata(rows: Seq<Result<Seq<Seq<char>>, Seq<char>>>) -> (
    HeaderView,
    Seq<Seq<char>>,
) {
    (
        HeaderView {
            client_name: meta_client_name(rows).0,
            client_number: meta_client_number(rows).0,
            processing_centre: meta_centre(rows).0,
            currency_code: meta_currency(rows).0,
            payment_date: meta_date(rows).0,
            transaction_code: meta_transaction_code(rows).0,
        },
        meta_client_name(rows).1 + meta_client_number(rows).1 + meta_centre(rows).1 + meta_currency(
            rows,
        ).1 + meta_date(rows).1 + meta_transaction_code(rows).1,
    )
}

/// Read the client-name line, logging its error if any.
fn read_client_name(rows: &Vec<RawRow>, errors: &mut ErrorLog) -> (s: String)
    ensures
        s@ == meta_client_name(rows_view(rows@)).0,
        final(errors)@ == old(errors)@ + meta_client_name(rows_view(rows@)).1,
{
    let r = match validate_csv_header(rows, 0, "Client Name") {
        Ok(s) => s,
        Err(e) => {
            errors.write_error(e.as_str());
            String::new()
        },
    };
    proof {
        assert(errors@ =~= old(errors)@ + meta_client_name(rows_view(rows@)).1);
    }
    r
}

/// Read the client-number line, logging its error if any.
fn read_client_number(rows: &Vec<RawRow>, errors: &mut ErrorLog) -> (s: String)
    ensures
        s@ == meta_client_number(rows_view(rows@)).0,
        final(errors)@ == old(errors)@ + meta_client_number(rows_view(rows@)).1,
{
    let r = match validate_csv_header(rows, 1, "Client Number") {
        Ok(s) => s,
        Err(e) => {
            errors.write_error(e.as_str());
            String::new()
        },
    };
    proof {
        assert(errors@ =~= old(errors)@ + meta_client_number(rows_view(rows@)).1);
    }
    r
}

/// Read the processing-centre line: zero-pad the value to 5 digits and
/// look it up; log an error and keep Vancouver when it is unknown.
fn read_centre(rows: &Vec<RawRow>, errors: &mut ErrorLog) -> (c: ProcessingCentre)
    ensures
        c == meta_centre(rows_view(rows@)).0,
        final(errors)@ == old(errors)@ + meta_centre(rows_view(rows@)).1,
{
    let r = match validate_csv_header(rows, 2, "Processing Centre") {
        Ok(s) => {
            let sv = to_char_vec(s.as_str());
            let mut padded: Vec<char> = Vec::new();
            if sv.len() < 5 {
                push_repeat(&mut padded, '0', 5 - sv.len());
            }
            push_chars(&mut padded, &sv);
            proof {
                assert(padded@ =~= pad_left(s@, '0', 5));
            }
            match centre_from_code(&padded) {
                Some(c) => c,
                None => {
                    let msg = concat3(
                        "Invalid Processing Centre: ",
                        &padded,
                        " specified in CSV header\n",
                    );
                    errors.write_error(msg.as_str());
                    ProcessingCentre::Vancouver
                },
            }
        },
        Err(e) => {
            errors.write_error(e.as_str());
            ProcessingCentre::Vancouver
        },
    };
    proof {
        assert(errors@ =~= old(errors)@ + meta_centre(rows_view(rows@)).1);
    }
    r
}

/// Read the currency-code line: upper-case the value and look it up; log
/// an error and keep CAD when it is unknown.
fn read_currency(rows: &Vec<RawRow>, errors: &mut ErrorLog) -> (c: CurrencyType)
    ensures
        c == meta_currency(rows_view(rows@)).0,
        final(errors)@ == old(errors)@ + meta_currency(rows_view(rows@)).1,
{
    let r = match validate_csv_header(rows, 3, "Currency Code") {
        Ok(s) => {
            let sv = to_char_vec(s.as_str());
            let up = to_upper_chars(&sv);
            match currency_from_code(&up) {
                Some(c) => c,
                None => {
                    let msg = concat3("Invalid Currency Code: ", &up, " specified in CSV header\n");
                    errors.write_error(msg.as_str());
                    CurrencyType::CAD
                },
            }
        },
        Err(e) => {
            errors.write_error(e.as_str());
            CurrencyType::CAD
        },
    };
    proof {
        assert(errors@ =~= old(errors)@ + meta_currency(rows_view(rows@)).1);
    }
    r
}

/// Read the payment-date line and parse it as `YYYY/MM/DD`; log an error
/// and keep (0, 0) when it does not parse.
fn read_date(rows: &Vec<RawRow>, errors: &mut ErrorLog) -> (d: (u64, u64))
    ensures
        d == meta_date(rows_view(rows@)).0,
        final(errors)@ == old(errors)@ + meta_date(rows_view(rows@)).1,
{
    let r = match validate_csv_header(rows, 4, "Payment Date") {
        Ok(s) => {
            match parse_date_ymd(s.as_str()) {
                Some(p) => (p.0 as u64, p.1),
                None => {
                    let sv = to_char_vec(s.as_str());
                    let msg = concat3(
                        "Could not parse payment date. Date should be in the form of YYYY/MM/DD: ",
                        &sv,
                        "\n",
                    );
                    errors.write_error(msg.as_str());
                    (0, 0)
                },
            }
        },
        Err(e) => {
            errors.write_error(e.as_str());
            (0, 0)
        },
    };
    proof {
        assert(errors@ =~= old(errors)@ + meta_date(rows_view(rows@)).1);
    }
    r
}

/// Read the transaction-code line, logging its error if any.
fn read_transaction_code(rows: &Vec<RawRow>, errors: &mut ErrorLog) -> (s: String)
    ensures
        s@ == meta_transaction_code(rows_view(rows@)).0,
        final(errors)@ == old(errors)@ + meta_transaction_code(rows_view(rows@)).1,
{
    let r = match validate_csv_header(rows, 5, "Transaction Code") {
        Ok(s) => s,
        Err(e) => {
            errors.write_error(e.as_str());
            String::new()
        },
    };
    proof {
        assert(errors@ =~= old(errors)@ + meta_transaction_code(rows_view(rows@)).1);
    }
    r
}

/// Parse the six metadata lines, logging every problem into `errors` and
/// substituting the documented default for each field that fails, so that
/// one pass can report all header problems at once.
pub fn parse_csv_header(rows: &Vec<RawRow>, errors: &mut ErrorLog) -> (h: CSVHeader)
    ensures
        ({
            let (hv, errs) = parse_metadata(rows_view(rows@));
            &&& h@ == hv
            &&& final(errors)@ == old(errors)@ + errs
        }),
{
    let ghost rv = rows_view(rows@);
    let client_name = read_client_name(rows, errors);
    let client_number = read_client_number(rows, errors);
    let processing_centre = read_centre(rows, errors);
    let currency_code = read_currency(rows, errors);
    let payment_date = read_date(rows, errors);
    let transaction_code = read_transaction_code(rows, errors);
    let header = CSVHeader {
        client_name,
        client_number,
        processing_centre,
        currency_code,
        payment_date,
        transaction_code,
    };
    proof {
        let (hv, errs) = parse_metadata(rv);
        assert(header@ =~= hv);
        assert(errors@ =~= old(errors)@ + errs);
    }
    header
}

/// The client name truncated to at most 15 characters, as handed to the
/// segment's short-name field.
pub open spec fn short_name_of(client_name: Seq<char>) -> Seq<char> {
    if client_name.len() > 15 {
        client_name.subrange(0, 15)
    } else {
        client_name
    }
}

/// Outcome of one data row on the aggregator and the top-level error
/// list.  An unreadable row logs its message; a row without exactly 9
/// columns logs an error; a row with a blank customer number, or whose
/// suspend column is `Y` in any case, is skipped silently.  Otherwise a
/// payment with one segment is built from the row and the metadata, its
/// errors are merged upward, and it is appended to the aggregator; an
/// unparsable amount logs an error and drops the row instead.
pub open spec fn row_step(
    h: HeaderView,
    rt: RecordType,
    st: (RecordView, Seq<Seq<char>>),
    row: Result<Seq<Seq<char>>, Seq<char>>,
) -> (RecordView, Seq<Seq<char>>) {
    match row {
        Err(e) => (st.0, st.1.push(e)),
        Ok(cols) => {
            if cols.len() != 9 {
                (st.0, st.1.push("Row must have exactly 9 columns"@))
            } else if trimmed(cols[0]).len() == 0 {
                st
            } else if upper_seq(trimmed(cols[6])) == "Y"@ {
                st
            } else {
                let p = pay_set_client_number(
                    PaymentView { record_type: rt, ..pay_new() },
                    h.client_number,
                );
                let s1 = seg_set_transaction_code(seg_new(), h.transaction_code);
                let s2 = seg_set_client_name(s1, h.client_name);
                let s3 = seg_set_customer_number(s2, cols[0]);
                let s4 = seg_set_customer_name(s3, cols[1]);
                let s5 = seg_set_financial_institution_number(s4, cols[2]);
                let s6 = seg_set_financial_institution_branch_number(s5, cols[3]);
                let s7 = seg_set_account_number(s6, cols[4]);
                let s8 = seg_set_payment_date(s7, h.payment_date.0, h.payment_date.1);
                let s9 = seg_set_client_number(s8, h.client_number);
                let s10 = seg_set_client_short_name(s9, short_name_of(h.client_name));
                match spec_parse_dollar_amount(cols[5]) {
                    None => (st.0, st.1.push("Failed to parse payment amount: "@ + cols[5])),
                    Some(cents) => {
                        let seg = seg_set_amount(s10, cents);
                        let p2 = PaymentView { error_log: p.error_log + seg.error_log, ..p };
                        let r1 = RecordView { error_log: st.0.error_log + p2.error_log, ..st.0 };
                        let p3 = PaymentView { segments: p2.segments.push(seg), ..p2 };
                        (rec_add_payment(r1, p3), st.1)
                    },
                }
            }
        },
    }
}

/// The state after processing every row of `rows` in order.
pub open spec fn run_rows(
    h: HeaderView,
    rt: RecordType,
    st: (RecordView, Seq<Seq<char>>),
    rows: Seq<Result<Seq<Seq<char>>, Seq<char>>>,
) -> (RecordView, Seq<Seq<char>>)
    decreases rows.len(),
{
    if rows.len() == 0 {
        st
    } else {
        run_rows(h, rt, row_step(h, rt, st, rows.first()), rows.drop_first())
    }
}

/// The aggregator as the pipeline initializes it: client number and
/// currency from the metadata, file-creation number 1, file-creation
/// date (2023, day 1).
pub open spec fn init_record(h: HeaderView) -> RecordView {
    let r1 = rec_set_client_number(rec_new(), h.client_number);
    let r2 = RecordView { destination_currency_code: h.currency_code, ..r1 };
    let r3 = rec_set_file_creation_number(r2, 1);
    rec_set_file_creation_date(r3, 2023, 1)
}

/// The data rows of the input: everything after the six metadata lines
/// and the column-title row at index 6.
pub open spec fn data_rows(rows: Seq<Result<Seq<Seq<char>>, Seq<char>>>) -> Seq<
    Result<Seq<Seq<char>>, Seq<char>>,
> {
    if rows.len() <= 7 {
        Seq::empty()
    } else {
        rows.subrange(7, rows.len() as int)
    }
}

/// The aggregator and the top-level error list after the whole input has
/// been processed.
pub open spec fn convert_state(
    rows: Seq<Result<Seq<Seq<char>>, Seq<char>>>,
    rt: RecordType,
) -> (RecordView, Seq<Seq<char>>) {
    let (h, meta_errs) = parse_metadata(rows);
    run_rows(h, rt, (init_record(h), meta_errs), data_rows(rows))
}

/// The whole conversion on already-split rows: the rendered file when no
/// error was collected anywhere, and the collected error list otherwise.
pub open spec fn spec_convert(
    rows: Seq<Result<Seq<Seq<char>>, Seq<char>>>,
    rt: RecordType,
) -> Result<Seq<char>, Seq<Seq<char>>> {
    let st = convert_state(rows, rt);
    let all = st.1 + st.0.error_log;
    if all.len() == 0 {
        Ok(spec_file_text(st.0))
    } else {
        Err(all)
    }
}

/// One row keeps the aggregator invariant intact: a skipped or logged row
/// leaves the aggregator alone, and an appended payment goes through
/// `rec_add_payment`, which preserves it.
pub proof fn lemma_row_step_preserves_inv(
    h: HeaderView,
    rt: RecordType,
    st: (RecordView, Seq<Seq<char>>),
    row: Result<Seq<Seq<char>>, Seq<char>>,
)
    requires
        rec_inv(st.0),
    ensures
        rec_inv(row_step(h, rt, st, row).0),
{
    match row {
        Err(_) => {},
        Ok(cols) => {
            if cols.len() == 9 && trimmed(cols[0]).len() != 0 && upper_seq(trimmed(cols[6]))
                != "Y"@ {
                let p = pay_set_client_number(
                    PaymentView { record_type: rt, ..pay_new() },
                    h.client_number,
                );
                let s1 = seg_set_transaction_code(seg_new(), h.transaction_code);
                let s2 = seg_set_client_name(s1, h.client_name);
                let s3 = seg_set_customer_number(s2, cols[0]);
                let s4 = seg_set_customer_name(s3, cols[1]);
                let s5 = seg_set_financial_institution_number(s4, cols[2]);
                let s6 = seg_set_financial_institution_branch_number(s5, cols[3]);
                let s7 = seg_set_account_number(s6, cols[4]);
                let s8 = seg_set_payment_date(s7, h.payment_date.0, h.payment_date.1);
                let s9 = seg_set_client_number(s8, h.client_number);
                let s10 = seg_set_client_short_name(s9, short_name_of(h.client_name));
                match spec_parse_dollar_amount(cols[5]) {
                    None => {},
                    Some(cents) => {
                        let seg = seg_set_amount(s10, cents);
                        let p2 = PaymentView { error_log: p.error_log + seg.error_log, ..p };
                        let r1 = RecordView { error_log: st.0.error_log + p2.error_log, ..st.0 };
                        let p3 = PaymentView { segments: p2.segments.push(seg), ..p2 };
                        assert(rec_inv(r1));
                        lemma_add_preserves_inv(r1, p3);
                    },
                }
            }
        },
    }
}

/// A whole run of rows keeps the aggregator invariant intact.
pub proof fn lemma_run_rows_preserves_inv(
    h: HeaderView,
    rt: RecordType,
    st: (RecordView, Seq<Seq<char>>),
    rows: Seq<Result<Seq<Seq<char>>, Seq<char>>>,
)
    requires
        rec_inv(st.0),
    ensures
        rec_inv(run_rows(h, rt, st, rows).0),
    decreases rows.len(),
{
    if rows.len() > 0 {
        lemma_row_step_preserves_inv(h, rt, st, rows.first());
        lemma_run_rows_preserves_inv(h, rt, row_step(h, rt, st, rows.first()), rows.drop_first());
    }
}

/// Every aggregator state the conversion builds satisfies the aggregator
/// invariant, so the balance of totals and the gap-free record numbering
/// hold of every converted file.
pub proof fn lemma_convert_state_inv(rows: Seq<Result<Seq<Seq<char>>, Seq<char>>>, rt: RecordType)
    ensures
        rec_inv(convert_state(rows, rt).0),
{
    let (h, meta_errs) = parse_metadata(rows);
    lemma_rec_new_inv();
    assert(rec_inv(init_record(h)));
    lemma_run_rows_preserves_inv(h, rt, (init_record(h), meta_errs), data_rows(rows));
}

/// Process one data row: log unreadable or malformed rows, apply the two
/// silent skip rules, and otherwise build the payment and feed it to the
/// aggregator.
fn process_row(
    record: &mut CPA005Record,
    errors: &mut ErrorLog,
    header: &CSVHeader,
    record_type: RecordType,
    row: &RawRow,
)
    ensures
        ({
            let st2 = row_step(header@, record_type, (old(record)@, old(errors)@), row@);
            &&& final(record)@ == st2.0
            &&& final(errors)@ == st2.1
        }),
{
    match row {
        RawRow::Malformed(msg) => {
            errors.write_error(msg.as_str());
        },
        RawRow::Fields(cols) => {
            if cols.len() != 9 {
                errors.write_error("Row must have exactly 9 columns");
                return;
            }
            let cust = to_char_vec(cols[0].as_str());
            let t0 = trim_chars(&cust);
            if t0.len() == 0 {
                return;
            }
            let susp = to_char_vec(cols[6].as_str());
            let t6 = trim_chars(&susp);
            let u6 = to_upper_chars(&t6);
            let y = to_char_vec("Y");
            if chars_eq(&u6, &y) {
                return;
            }
            let mut payment = BasicPayment::new();
            payment.record_type = record_type;
            payment.set_client_number(header.client_number.clone());
            let mut seg = BasicPaymentSegment::new();
            seg.set_transaction_code(header.transaction_code.clone());
            seg.set_client_name(header.client_name.clone());
            seg.set_customer_number(cols[0].clone());
            seg.set_customer_name(cols[1].clone());
            seg.set_financial_institution_number(cols[2].clone());
            seg.set_financial_institution_branch_number(cols[3].clone());
            seg.set_account_number(cols[4].clone());
            seg.set_payment_date(header.payment_date.0, header.payment_date.1);
            seg.set_client_number(header.client_number.clone());
            let cn_chars = to_char_vec(header.client_name.as_str());
            let short = if cn_chars.len() > 15 {
                let p = prefix_chars(&cn_chars, 15);
                chars_to_string(&p)
            } else {
                header.client_name.clone()
            };
            seg.set_client_short_name(short);
            match parse_dollar_amount_to_cents(&cols[5]) {
                None => {
                    let mut msg = to_char_vec("Failed to parse payment amount: ");
                    let amt_chars = to_char_vec(cols[5].as_str());
                    push_chars(&mut msg, &amt_chars);
                    let msg_s = chars_to_string(&msg);
                    errors.write_error(msg_s.as_str());
                },
                Some(cents) => {
                    seg.set_amount(cents);
                    payment.error_log.merge_log(&seg.error_log);
                    record.error_log.merge_log(&payment.error_log);
                    let ghost p2v = payment@;
                    let ghost segv = seg@;
                    payment.segments.push(seg);
                    proof {
                        assert(payment@.segments =~= p2v.segments.push(segv));
                        assert(payment@ =~= PaymentView { segments: p2v.segments.push(segv), ..p2v });
                    }
                    record.add_basic_payment(payment);
                },
            }
        },
    }
}

/// Convert already-split rows into the rendered CPA-005 file, or into
/// the newline-joined list of every problem found.  `record_type` selects
/// a deposit (`Credit`) or pre-authorized debit (`Debit`) file.
pub fn convert_rows(rows: &Vec<RawRow>, record_type: RecordType) -> (r: Result<String, ErrorLog>)
    ensures
        ({
            let c = spec_convert(rows_view(rows@), record_type);
            &&& (r is Ok) == (c is Ok)
            &&& (r matches Ok(s) ==> c matches Ok(cv) && s@ == cv)
            &&& (r matches Err(log) ==> c matches Err(ce) && log@ == ce)
        }),
{
    let ghost rv = rows_view(rows@);
    let ghost data = data_rows(rv);
    let mut errors = ErrorLog::new();
    let header = parse_csv_header(rows, &mut errors);
    let mut record = CPA005Record::new();
    record.set_client_number(header.client_number.clone());
    record.set_destination_currency_code(header.currency_code);
    record.set_file_creation_number(1);
    record.set_file_creation_date(2023, 1);
    proof {
        assert(record@ =~= init_record(header@));
        assert(errors@ =~= parse_metadata(rv).1);
    }
    let ghost st0 = (init_record(header@), parse_metadata(rv).1);
    proof {
        assert(data.subrange(0, data.len() as int) =~= data);
    }
    let mut idx: usize = 7;
    while idx < rows.len()
        invariant
            idx >= 7,
            idx <= rows.len() || idx == 7,
            rv == rows_view(rows@),
            data == data_rows(rv),
            data.len() == if rv.len() <= 7 { 0int } else { rv.len() - 7 },
            run_rows(header@, record_type, st0, data) == run_rows(
                header@,
                record_type,
                (record@, errors@),
                data.subrange(idx - 7, data.len() as int),
            ),
        decreases rows.len() - idx,
    {
        let ghost k = idx - 7;
        proof {
            let rest = data.subrange(k, data.len() as int);
            assert(rest.first() == data[k]);
            assert(data[k] == rv[idx as int]);
            assert(rest.drop_first() =~= data.subrange(k + 1, data.len() as int));
        }
        process_row(&mut record, &mut errors, &header, record_type, &rows[idx]);
        idx += 1;
    }
    proof {
        assert(data.subrange(data.len() as int, data.len() as int) =~= Seq::<
            Result<Seq<Seq<char>>, Seq<char>>,
        >::empty());
        let st = run_rows(header@, record_type, st0, data);
        assert(record@ == st.0 && errors@ == st.1);
    }
    errors.merge_log(&record.error_log);
    if errors.has_errors() {
        let text = record.build();
        Ok(text)
    } else {
        Err(errors)
    }
}

/// Convert the raw delimited text into the rendered CPA-005 file, or
/// into the collected error log.  The first six rows are the metadata
/// block, row seven is the discarded column-title row, and every further
/// row is a data row.
pub fn convert_to_cpa005(csv: String, record_type: RecordType) -> (r: Result<String, ErrorLog>)
    ensures
        ({
            let c = spec_convert(csv_rows_of(csv@), record_type);
            &&& (r is Ok) == (c is Ok)
            &&& (r matches Ok(s) ==> c matches Ok(cv) && s@ == cv)
            &&& (r matches Err(log) ==> c matches Err(ce) && log@ == ce)
        }),
{
    let rows = read_csv_rows(csv.as_str());
    convert_rows(&rows, record_type)
}

} // verus!
