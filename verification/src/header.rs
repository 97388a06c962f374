//! The file aggregator: assigns sequential record numbers across the
//! whole file, sums debit/credit totals and counts, and serializes the
//! file header and trailer records.

use vstd::prelude::*;
use crate::error::ErrorLog;
use crate::payment::all_digits;
use crate::payment::BasicPayment;
use crate::payment::BasicPaymentSegment;
use crate::payment::check_all_digits;
use crate::payment::pay_wf;
use crate::payment::spec_payment_text;
use crate::payment::valid_client_number;
use crate::payment::PaymentView;
use crate::payment::SegmentView;
use crate::text::chars_to_string;
use crate::text::left_aligned_num;
use crate::text::lemma_left_aligned_num_len;
use crate::text::lemma_zero_padded_len;
use crate::text::pow10;
use crate::text::push_chars;
use crate::text::push_left_aligned_num;
use crate::text::push_repeat;
use crate::text::push_zero_padded;
use crate::text::repeat_char;
use crate::text::to_char_vec;
use crate::text::zero_padded;
use crate::types::CurrencyType;
use crate::types::ProcessingCentre;
use crate::types::RecordType;
use crate::utils::lemma_n_digits_iff;
use crate::utils::n_digits;

verus! {

/// Mathematical value of the aggregator state.
#[verifier::ext_equal]
pub ghost struct RecordView {
    pub current_record_no: u32,
    pub client_number: Seq<char>,
    pub file_creation_number: u32,
    pub file_creation_date: (u32, u32),
    pub rbc_processing_centre: ProcessingCentre,
    pub destination_currency_code: CurrencyType,
    pub total_debit_amount: u64,
    pub total_debit_count: u64,
    pub total_credit_amount: u64,
    pub total_credit_count: u64,
    pub basic_payment: Seq<PaymentView>,
    pub error_log: Seq<Seq<char>>,
}

/// The top-level accumulator for one CPA-005 file.
pub struct CPA005Record {
    pub current_record_no: u32,
    pub client_number: String,
    pub file_creation_number: u32,
    pub file_creation_date: (u32, u32),
    pub rbc_processing_centre: ProcessingCentre,
    pub destination_currency_code: CurrencyType,
    pub total_debit_amount: u64,
    pub total_debit_count: u64,
    pub total_credit_amount: u64,
    pub total_credit_count: u64,
    pub basic_payment: Vec<BasicPayment>,
    pub error_log: ErrorLog,
}

impl View for CPA005Record {
    type V = RecordView;

    open spec fn view(&self) -> RecordView {
        RecordView {
            current_record_no: self.current_record_no,
            client_number: self.client_number@,
            file_creation_number: self.file_creation_number,
            file_creation_date: self.file_creation_date,
            rbc_processing_centre: self.rbc_processing_centre,
            destination_currency_code: self.destination_currency_code,
            total_debit_amount: self.total_debit_amount,
            total_debit_count: self.total_debit_count,
            total_credit_amount: self.total_credit_amount,
            total_credit_count: self.total_credit_count,
            basic_payment: Seq::new(self.basic_payment@.len(), |i: int| self.basic_payment@[i]@),
            error_log: self.error_log@,
        }
    }
}

/// A fresh aggregator: record counter at 1 (the file header's number),
/// empty client number, Vancouver/CAD defaults, zero totals, no payments.
pub open spec fn rec_new() -> RecordView {
    RecordView {
        current_record_no: 1,
        client_number: Seq::empty(),
        file_creation_number: 0,
        file_creation_date: (0, 0),
        rbc_processing_centre: ProcessingCentre::Vancouver,
        destination_currency_code: CurrencyType::CAD,
        total_debit_amount: 0,
        total_debit_count: 0,
        total_credit_amount: 0,
        total_credit_count: 0,
        basic_payment: Seq::empty(),
        error_log: Seq::empty(),
    }
}

/// Outcome of the aggregator's `set_client_number`: exactly 10 ASCII
/// digits.
pub open spec fn rec_set_client_number(r: RecordView, client_number: Seq<char>) -> RecordView {
    if client_number.len() != 10 {
        RecordView {
            error_log: r.error_log.push("Client number must be exactly 10 numeric digits long"@),
            ..r
        }
    } else if !all_digits(client_number) {
        RecordView {
            error_log: r.error_log.push("Client number must not contain non-numeric digits"@),
            ..r
        }
    } else {
        RecordView { client_number: client_number, ..r }
    }
}

/// Outcome of `set_file_creation_number`: at most 4 decimal digits.
pub open spec fn rec_set_file_creation_number(r: RecordView, no: u32) -> RecordView {
    if no > 9999 {
        RecordView { error_log: r.error_log.push("File creation number exceeds 4 digits"@), ..r }
    } else {
        RecordView { file_creation_number: no, ..r }
    }
}

/// Outcome of `set_file_creation_date`: the year may have at most 4
/// digits and the day at most 3; the stored year is reduced to its final
/// two digits so that the header's date field keeps its fixed width.
pub open spec fn rec_set_file_creation_date(r: RecordView, year: u32, day: u32) -> RecordView {
    if year > 9999 {
        RecordView {
            error_log: r.error_log.push("File Creation Date: Year number exceeds 4 digits"@),
            ..r
        }
    } else if day > 999 {
        RecordView {
            error_log: r.error_log.push("File Creation Date: Day number exceeds 4 digits"@),
            ..r
        }
    } else {
        RecordView { file_creation_date: ((year % 100) as u32, day), ..r }
    }
}

/// Sum of the amounts of a run of segments, in cents.
pub open spec fn seg_amount_sum(ss: Seq<SegmentView>) -> int
    decreases ss.len(),
{
    if ss.len() == 0 {
        0
    } else {
        seg_amount_sum(ss.drop_last()) + ss.last().amount
    }
}

/// A sum of amounts is never negative.
pub proof fn lemma_seg_amount_sum_nonneg(ss: Seq<SegmentView>)
    ensures
        seg_amount_sum(ss) >= 0,
    decreases ss.len(),
{
    if ss.len() > 0 {
        lemma_seg_amount_sum_nonneg(ss.drop_last());
    }
}

/// Whether one more payment fits the machine limits of the counters:
/// the record number stays a `u32` and the affected total and count stay
/// `u64`s.
pub open spec fn rec_add_capacity_ok(r: RecordView, p: PaymentView) -> bool {
    let s = seg_amount_sum(p.segments);
    &&& r.current_record_no < u32::MAX
    &&& (p.record_type is Credit ==> r.total_credit_count < u64::MAX && r.total_credit_amount + s
        <= u64::MAX)
    &&& (p.record_type is Debit ==> r.total_debit_count < u64::MAX && r.total_debit_amount + s
        <= u64::MAX)
}

/// Outcome of `add_basic_payment`.  A payment whose record type is not
/// `Credit` or `Debit` is rejected with an error, as is one that would
/// overflow a counter; otherwise the payment is given the next record
/// number (also reused as its file-creation number, per the layout), the
/// matching count rises by one, the matching total by the sum of the
/// payment's segment amounts, and the payment joins the file.
pub open spec fn rec_add_payment(r: RecordView, p: PaymentView) -> RecordView {
    if !p.record_type.is_payment_type() {
        RecordView {
            error_log: r.error_log.push("Basic Payment Record Type can only be CREDIT or DEBIT!"@),
            ..r
        }
    } else if !rec_add_capacity_ok(r, p) {
        RecordView { error_log: r.error_log.push("File capacity exceeded"@), ..r }
    } else {
        let n = (r.current_record_no + 1) as u32;
        let p2 = PaymentView { record_count: n, file_creation_number: n, ..p };
        let s = seg_amount_sum(p.segments);
        RecordView {
            current_record_no: n,
            total_credit_count: if p.record_type is Credit {
                (r.total_credit_count + 1) as u64
            } else {
                r.total_credit_count
            },
            total_debit_count: if p.record_type is Debit {
                (r.total_debit_count + 1) as u64
            } else {
                r.total_debit_count
            },
            total_credit_amount: if p.record_type is Credit {
                (r.total_credit_amount + s) as u64
            } else {
                r.total_credit_amount
            },
            total_debit_amount: if p.record_type is Debit {
                (r.total_debit_amount + s) as u64
            } else {
                r.total_debit_amount
            },
            basic_payment: r.basic_payment.push(p2),
            ..r
        }
    }
}

/// The 1464-character file header record: type `A`, sequence 1, client
/// number, file-creation number, `0`-prefixed creation date, the
/// processing centre's code, 20 spaces, the currency code, and 1406
/// trailing spaces.
pub open spec fn spec_header_record(r: RecordView) -> Seq<char> {
    seq!['A'] + zero_padded(1, 9) + r.client_number + left_aligned_num(
        r.file_creation_number as nat,
        4,
    ) + seq!['0'] + zero_padded(r.file_creation_date.0 as nat, 2) + zero_padded(
        r.file_creation_date.1 as nat,
        3,
    ) + r.rbc_processing_centre.code_seq() + repeat_char(' ', 20)
        + r.destination_currency_code.code_seq() + repeat_char(' ', 1406)
}

/// The 1464-character file trailer record: type `Z`, the next record
/// number, client number, file-creation number, the zero-padded debit
/// total (dollars then cents) and count, the same for credit, and 1396
/// trailing zeros.
pub open spec fn spec_trailer_record(r: RecordView) -> Seq<char> {
    seq!['Z'] + zero_padded((r.current_record_no + 1) as nat, 9) + r.client_number
        + left_aligned_num(r.file_creation_number as nat, 4) + zero_padded(
        (r.total_debit_amount / 100) as nat,
        12,
    ) + zero_padded((r.total_debit_amount % 100) as nat, 2) + zero_padded(
        r.total_debit_count as nat,
        8,
    ) + zero_padded((r.total_credit_amount / 100) as nat, 12) + zero_padded(
        (r.total_credit_amount % 100) as nat,
        2,
    ) + zero_padded(r.total_credit_count as nat, 8) + repeat_char('0', 1396)
}

/// The detail lines of the file: each payment's encoding followed by a
/// newline, in append order; a payment whose record type is invalid
/// produces no line.
pub open spec fn payments_lines(ps: Seq<PaymentView>) -> Seq<char>
    decreases ps.len(),
{
    if ps.len() == 0 {
        Seq::empty()
    } else {
        payments_lines(ps.drop_last()) + if ps.last().record_type.is_payment_type() {
            spec_payment_text(ps.last()) + seq!['\n']
        } else {
            Seq::empty()
        }
    }
}

/// The whole file: header record, newline, one line per payment, trailer
/// record.
pub open spec fn spec_file_text(r: RecordView) -> Seq<char> {
    spec_header_record(r) + seq!['\n'] + payments_lines(r.basic_payment) + spec_trailer_record(r)
}

/// Field bounds under which header and trailer encode to their exact
/// fixed widths and every payment line to its own.
pub open spec fn rec_wf(r: RecordView) -> bool {
    &&& valid_client_number(r.client_number)
    &&& r.file_creation_number <= 9999
    &&& r.file_creation_date.0 < 100
    &&& r.file_creation_date.1 < 1000
    &&& r.current_record_no < 999999999
    &&& r.total_debit_amount < 100000000000000
    &&& r.total_credit_amount < 100000000000000
    &&& r.total_debit_count < 100000000
    &&& r.total_credit_count < 100000000
    &&& forall|i: int| 0 <= i < r.basic_payment.len() ==> pay_wf(#[trigger] r.basic_payment[i])
}

/// Both centre codes and currency codes have their fixed widths.
proof fn lemma_code_lens(r: RecordView)
    ensures
        r.rbc_processing_centre.code_seq().len() == 5,
        r.destination_currency_code.code_seq().len() == 3,
{
    reveal_strlit("00330");
    reveal_strlit("00310");
    reveal_strlit("00320");
    reveal_strlit("00278");
    reveal_strlit("00370");
    reveal_strlit("00390");
    reveal_strlit("00300");
    reveal_strlit("CAD");
    reveal_strlit("USD");
}

/// A well-formed aggregator's header record is exactly 1464 characters.
pub proof fn lemma_header_record_len(r: RecordView)
    requires
        rec_wf(r),
    ensures
        spec_header_record(r).len() == 1464,
{
    assert(pow10(9) == 1000000000 && pow10(4) == 10000 && pow10(2) == 100 && pow10(3) == 1000) by {
        reveal_with_fuel(pow10, 10);
    }
    lemma_zero_padded_len(1, 9);
    lemma_left_aligned_num_len(r.file_creation_number as nat, 4);
    lemma_zero_padded_len(r.file_creation_date.0 as nat, 2);
    lemma_zero_padded_len(r.file_creation_date.1 as nat, 3);
    lemma_code_lens(r);
}

/// A well-formed aggregator's trailer record is exactly 1464 characters.
pub proof fn lemma_trailer_record_len(r: RecordView)
    requires
        rec_wf(r),
    ensures
        spec_trailer_record(r).len() == 1464,
{
    assert(pow10(9) == 1000000000 && pow10(4) == 10000 && pow10(2) == 100 && pow10(12)
        == 1000000000000 && pow10(8) == 100000000) by {
        reveal_with_fuel(pow10, 13);
    }
    lemma_zero_padded_len((r.current_record_no + 1) as nat, 9);
    lemma_left_aligned_num_len(r.file_creation_number as nat, 4);
    lemma_zero_padded_len((r.total_debit_amount / 100) as nat, 12);
    lemma_zero_padded_len((r.total_debit_amount % 100) as nat, 2);
    lemma_zero_padded_len(r.total_debit_count as nat, 8);
    lemma_zero_padded_len((r.total_credit_amount / 100) as nat, 12);
    lemma_zero_padded_len((r.total_credit_amount % 100) as nat, 2);
    lemma_zero_padded_len(r.total_credit_count as nat, 8);
}

/// Number of `Credit` payments in `ps`.
pub open spec fn credit_count(ps: Seq<PaymentView>) -> int
    decreases ps.len(),
{
    if ps.len() == 0 {
        0
    } else {
        credit_count(ps.drop_last()) + if ps.last().record_type is Credit {
            1int
        } else {
            0int
        }
    }
}

/// Number of `Debit` payments in `ps`.
pub open spec fn debit_count(ps: Seq<PaymentView>) -> int
    decreases ps.len(),
{
    if ps.len() == 0 {
        0
    } else {
        debit_count(ps.drop_last()) + if ps.last().record_type is Debit {
            1int
        } else {
            0int
        }
    }
}

/// Sum of the segment amounts of the `Credit` payments in `ps`.
pub open spec fn credit_amount(ps: Seq<PaymentView>) -> int
    decreases ps.len(),
{
    if ps.len() == 0 {
        0
    } else {
        credit_amount(ps.drop_last()) + if ps.last().record_type is Credit {
            seg_amount_sum(ps.last().segments)
        } else {
            0int
        }
    }
}

/// Sum of the segment amounts of the `Debit` payments in `ps`.
pub open spec fn debit_amount(ps: Seq<PaymentView>) -> int
    decreases ps.len(),
{
    if ps.len() == 0 {
        0
    } else {
        debit_amount(ps.drop_last()) + if ps.last().record_type is Debit {
            seg_amount_sum(ps.last().segments)
        } else {
            0int
        }
    }
}

/// Sum of all segment amounts across all payments in `ps`.
pub open spec fn total_amount(ps: Seq<PaymentView>) -> int
    decreases ps.len(),
{
    if ps.len() == 0 {
        0
    } else {
        total_amount(ps.drop_last()) + seg_amount_sum(ps.last().segments)
    }
}

/// The aggregator invariant: the record counter equals one more than the
/// number of appended payments, every appended payment carries `Credit`
/// or `Debit` and the record number of its position, and the four running
/// totals equal the sums they stand for.
pub open spec fn rec_inv(r: RecordView) -> bool {
    &&& r.current_record_no == 1 + r.basic_payment.len()
    &&& forall|i: int|
        0 <= i < r.basic_payment.len() ==> (#[trigger] r.basic_payment[i]).record_count == i + 2
    &&& forall|i: int|
        0 <= i < r.basic_payment.len() ==> (#[trigger] r.basic_payment[i]).record_type.is_payment_type()
    &&& r.total_credit_count == credit_count(r.basic_payment)
    &&& r.total_debit_count == debit_count(r.basic_payment)
    &&& r.total_credit_amount == credit_amount(r.basic_payment)
    &&& r.total_debit_amount == debit_amount(r.basic_payment)
}

/// A fresh aggregator satisfies the invariant.
pub proof fn lemma_rec_new_inv()
    ensures
        rec_inv(rec_new()),
{
    assert(rec_new().basic_payment.len() == 0);
}

/// Appending a payment preserves the invariant, whether the payment was
/// accepted or rejected.
pub proof fn lemma_add_preserves_inv(r: RecordView, p: PaymentView)
    requires
        rec_inv(r),
    ensures
        rec_inv(rec_add_payment(r, p)),
{
    if p.record_type.is_payment_type() && rec_add_capacity_ok(r, p) {
        let r2 = rec_add_payment(r, p);
        let n = (r.current_record_no + 1) as u32;
        let p2 = PaymentView { record_count: n, file_creation_number: n, ..p };
        lemma_seg_amount_sum_nonneg(p.segments);
        assert(r2.basic_payment =~= r.basic_payment.push(p2));
        assert(r2.basic_payment.drop_last() =~= r.basic_payment);
        assert(r2.basic_payment.last() == p2);
        assert forall|i: int| 0 <= i < r2.basic_payment.len() implies (
        #[trigger] r2.basic_payment[i]).record_count == i + 2 by {
            if i < r.basic_payment.len() {
                assert(r2.basic_payment[i] == r.basic_payment[i]);
            } else {
                assert(r2.basic_payment[i] == p2);
            }
        }
        assert forall|i: int| 0 <= i < r2.basic_payment.len() implies (
        #[trigger] r2.basic_payment[i]).record_type.is_payment_type() by {
            if i < r.basic_payment.len() {
                assert(r2.basic_payment[i] == r.basic_payment[i]);
            } else {
                assert(r2.basic_payment[i] == p2);
            }
        }
        assert(r2.current_record_no == 1 + r2.basic_payment.len());
        assert(r2.total_credit_count == credit_count(r2.basic_payment));
        assert(r2.total_debit_count == debit_count(r2.basic_payment));
        assert(r2.total_credit_amount == credit_amount(r2.basic_payment));
        assert(r2.total_debit_amount == debit_amount(r2.basic_payment));
    }
}

/// Balance of the running totals: the credit and debit totals together
/// hold the sum of every segment amount across every appended payment,
/// and the credit and debit counts together count the appended payments.
pub proof fn lemma_totals_balance(r: RecordView)
    requires
        rec_inv(r),
    ensures
        r.total_credit_amount + r.total_debit_amount == total_amount(r.basic_payment),
        r.total_credit_count + r.total_debit_count == r.basic_payment.len(),
{
    lemma_split_sums(r.basic_payment);
}

/// For payments restricted to `Credit` and `Debit`, the per-type sums and
/// counts split the overall ones.
proof fn lemma_split_sums(ps: Seq<PaymentView>)
    requires
        forall|i: int| 0 <= i < ps.len() ==> (#[trigger] ps[i]).record_type.is_payment_type(),
    ensures
        credit_amount(ps) + debit_amount(ps) == total_amount(ps),
        credit_count(ps) + debit_count(ps) == ps.len(),
    decreases ps.len(),
{
    if ps.len() > 0 {
        assert(ps[ps.len() - 1].record_type.is_payment_type());
        lemma_split_sums(ps.drop_last());
    }
}

/// Record numbers are strictly increasing integers starting at 2, with no
/// gaps, in append order.
pub proof fn lemma_record_numbers(r: RecordView)
    requires
        rec_inv(r),
    ensures
        forall|i: int|
            0 <= i < r.basic_payment.len() ==> (#[trigger] r.basic_payment[i]).record_count == i
                + 2,
        forall|i: int, j: int|
            0 <= i < j < r.basic_payment.len() ==> r.basic_payment[i].record_count
                < r.basic_payment[j].record_count,
{
}

/// Sum the amounts of `segs`; the flag reports that the mathematical sum
/// exceeds `u64::MAX` (and the returned number is then meaningless).
fn segments_sum_flagged(segs: &Vec<BasicPaymentSegment>) -> (r: (u64, bool))
    ensures
        ({
            let sv = Seq::new(segs@.len(), |i: int| segs@[i]@);
            &&& !r.1 ==> r.0 == seg_amount_sum(sv)
            &&& r.1 ==> seg_amount_sum(sv) > u64::MAX
        }),
{
    let ghost sv = Seq::new(segs@.len(), |i: int| segs@[i]@);
    let mut sum: u64 = 0;
    let mut overflow: bool = false;
    let mut i: usize = 0;
    while i < segs.len()
        invariant
            i <= segs.len(),
            sv == Seq::new(segs@.len(), |k: int| segs@[k]@),
            !overflow ==> sum == seg_amount_sum(sv.subrange(0, i as int)),
            overflow ==> seg_amount_sum(sv.subrange(0, i as int)) > u64::MAX,
        decreases segs.len() - i,
    {
        let amt = segs[i].amount;
        proof {
            let upto = sv.subrange(0, i + 1);
            assert(upto.drop_last() =~= sv.subrange(0, i as int));
            assert(upto.last() == sv[i as int]);
            assert(sv[i as int].amount == segs@[i as int]@.amount);
        }
        if !overflow && sum <= u64::MAX - amt {
            sum = sum + amt;
        } else {
            overflow = true;
        }
        i += 1;
    }
    proof {
        assert(sv.subrange(0, sv.len() as int) =~= sv);
    }
    (sum, overflow)
}

impl CPA005Record {
    /// A fresh aggregator.
    pub fn new() -> (r: Self)
        ensures
            r@ == rec_new(),
            rec_inv(r@),
    {
        let r = Self {
            current_record_no: 1,
            client_number: String::new(),
            file_creation_number: 0,
            file_creation_date: (0, 0),
            destination_currency_code: CurrencyType::CAD,
            rbc_processing_centre: ProcessingCentre::Vancouver,
            total_debit_amount: 0,
            total_debit_count: 0,
            total_credit_amount: 0,
            total_credit_count: 0,
            basic_payment: Vec::new(),
            error_log: ErrorLog::new(),
        };
        proof {
            assert(r@.basic_payment =~= Seq::<PaymentView>::empty());
            assert(r@.client_number =~= Seq::<char>::empty());
            assert(r@ =~= rec_new());
            lemma_rec_new_inv();
        }
        r
    }

    /// Set the client number; exactly 10 ASCII digits are required.
    pub fn set_client_number(&mut self, client_number: String)
        ensures
            final(self)@ == rec_set_client_number(old(self)@, client_number@),
    {
        let cv = to_char_vec(client_number.as_str());
        if cv.len() != 10 {
            self.error_log.write_error("Client number must be exactly 10 numeric digits long");
        } else if !check_all_digits(&cv) {
            self.error_log.write_error("Client number must not contain non-numeric digits");
        } else {
            self.client_number = client_number;
        }
    }

    /// Set the file-creation number; at most 4 decimal digits.
    pub fn set_file_creation_number(&mut self, no: u32)
        ensures
            final(self)@ == rec_set_file_creation_number(old(self)@, no),
    {
        proof {
            lemma_n_digits_iff(no as nat, 4);
            assert(pow10(4) == 10000) by {
                reveal_with_fuel(pow10, 5);
            }
        }
        if n_digits(no) > 4 {
            self.error_log.write_error("File creation number exceeds 4 digits");
        } else {
            self.file_creation_number = no;
        }
    }

    /// Set the file-creation date; the year may have at most 4 digits and
    /// the day at most 3, and the stored year keeps only its final two
    /// digits.
    pub fn set_file_creation_date(&mut self, year: u32, day: u32)
        ensures
            final(self)@ == rec_set_file_creation_date(old(self)@, year, day),
    {
        proof {
            lemma_n_digits_iff(year as nat, 4);
            lemma_n_digits_iff(day as nat, 3);
            assert(pow10(4) == 10000 && pow10(3) == 1000) by {
                reveal_with_fuel(pow10, 5);
            }
        }
        if n_digits(year) > 4 {
            self.error_log.write_error("File Creation Date: Year number exceeds 4 digits");
        } else if n_digits(day) > 3 {
            self.error_log.write_error("File Creation Date: Day number exceeds 4 digits");
        } else {
            self.file_creation_date = (year % 100, day);
        }
    }

    /// Set the destination currency.
    pub fn set_destination_currency_code(&mut self, t: CurrencyType)
        ensures
            final(self)@ == (RecordView { destination_currency_code: t, ..old(self)@ }),
    {
        self.destination_currency_code = t;
    }

    /// Append one payment: give it the next record number, bump the
    /// matching count and total, and keep it.  A payment with an invalid
    /// record type, or one that would overflow a counter, is rejected
    /// with an error instead.
    pub fn add_basic_payment(&mut self, payment: BasicPayment)
        ensures
            final(self)@ == rec_add_payment(old(self)@, payment@),
            rec_inv(old(self)@) ==> rec_inv(final(self)@),
    {
        proof {
            if rec_inv(old(self)@) {
                lemma_add_preserves_inv(old(self)@, payment@);
            }
        }
        let is_credit: bool = match payment.record_type {
            RecordType::Credit => true,
            _ => false,
        };
        let is_debit: bool = match payment.record_type {
            RecordType::Debit => true,
            _ => false,
        };
        if !is_credit && !is_debit {
            self.error_log.write_error("Basic Payment Record Type can only be CREDIT or DEBIT!");
            return;
        }
        let (sum, overflow) = segments_sum_flagged(&payment.segments);
        let capacity_ok: bool = self.current_record_no < u32::MAX && !overflow && if is_credit {
            self.total_credit_count < u64::MAX && self.total_credit_amount <= u64::MAX - sum
        } else {
            self.total_debit_count < u64::MAX && self.total_debit_amount <= u64::MAX - sum
        };
        if !capacity_ok {
            self.error_log.write_error("File capacity exceeded");
            return;
        }
        let n = self.current_record_no + 1;
        self.current_record_no = n;
        let mut pay = payment;
        pay.record_count = n;
        pay.file_creation_number = n;
        if is_credit {
            self.total_credit_count = self.total_credit_count + 1;
            self.total_credit_amount = self.total_credit_amount + sum;
        } else {
            self.total_debit_count = self.total_debit_count + 1;
            self.total_debit_amount = self.total_debit_amount + sum;
        }
        let ghost pre = self@.basic_payment;
        self.basic_payment.push(pay);
        proof {
            let p2 = PaymentView {
                record_count: n,
                file_creation_number: n,
                ..payment@
            };
            assert(self@.basic_payment =~= pre.push(p2));
            assert(self@ =~= rec_add_payment(old(self)@, payment@));
        }
    }

    /// Serialize the file header record.
    pub fn build_header_record(&self) -> (r: String)
        ensures
            r@ == spec_header_record(self@),
    {
        let mut out: Vec<char> = Vec::new();
        out.push('A');
        push_zero_padded(&mut out, 1, 9);
        let client_number = to_char_vec(self.client_number.as_str());
        push_chars(&mut out, &client_number);
        push_left_aligned_num(&mut out, self.file_creation_number as u64, 4);
        out.push('0');
        push_zero_padded(&mut out, self.file_creation_date.0 as u64, 2);
        push_zero_padded(&mut out, self.file_creation_date.1 as u64, 3);
        let centre = to_char_vec(self.rbc_processing_centre.code_str());
        push_chars(&mut out, &centre);
        push_repeat(&mut out, ' ', 20);
        let currency = to_char_vec(self.destination_currency_code.code_str());
        push_chars(&mut out, &currency);
        push_repeat(&mut out, ' ', 1406);
        proof {
            assert(out@ =~= spec_header_record(self@));
        }
        chars_to_string(&out)
    }

    /// Serialize the file trailer record.
    pub fn build_trailer_record(&self) -> (r: String)
        ensures
            r@ == spec_trailer_record(self@),
    {
        let mut out: Vec<char> = Vec::new();
        out.push('Z');
        let next: u64 = self.current_record_no as u64 + 1;
        push_zero_padded(&mut out, next, 9);
        let client_number = to_char_vec(self.client_number.as_str());
        push_chars(&mut out, &client_number);
        push_left_aligned_num(&mut out, self.file_creation_number as u64, 4);
        push_zero_padded(&mut out, self.total_debit_amount / 100, 12);
        push_zero_padded(&mut out, self.total_debit_amount % 100, 2);
        push_zero_padded(&mut out, self.total_debit_count, 8);
        push_zero_padded(&mut out, self.total_credit_amount / 100, 12);
        push_zero_padded(&mut out, self.total_credit_amount % 100, 2);
        push_zero_padded(&mut out, self.total_credit_count, 8);
        push_repeat(&mut out, '0', 1396);
        proof {
            assert(out@ =~= spec_trailer_record(self@));
        }
        chars_to_string(&out)
    }

    /// Serialize the whole file: header record, newline, one line per
    /// payment, trailer record.
    pub fn build(&self) -> (r: String)
        ensures
            r@ == spec_file_text(self@),
    {
        let mut out: Vec<char> = Vec::new();
        let header = self.build_header_record();
        let header_chars = to_char_vec(header.as_str());
        push_chars(&mut out, &header_chars);
        out.push('\n');
        let ghost prefix = out@;
        let mut i: usize = 0;
        while i < self.basic_payment.len()
            invariant
                i <= self.basic_payment.len(),
                out@ == prefix + payments_lines(self@.basic_payment.subrange(0, i as int)),
            decreases self.basic_payment.len() - i,
        {
            proof {
                let upto = self@.basic_payment.subrange(0, i + 1);
                assert(upto.drop_last() =~= self@.basic_payment.subrange(0, i as int));
                assert(upto.last() == self@.basic_payment[i as int]);
            }
            match self.basic_payment[i].build() {
                Ok(line) => {
                    let line_chars = to_char_vec(line.as_str());
                    push_chars(&mut out, &line_chars);
                    out.push('\n');
                    proof {
                        assert(out@ =~= prefix + payments_lines(
                            self@.basic_payment.subrange(0, i + 1),
                        ));
                    }
                },
                Err(_) => {
                    proof {
                        assert(out@ =~= prefix + payments_lines(
                            self@.basic_payment.subrange(0, i + 1),
                        ));
                    }
                },
            }
            i += 1;
        }
        proof {
            assert(self@.basic_payment.subrange(0, self@.basic_payment.len() as int)
                =~= self@.basic_payment);
        }
        let trailer = self.build_trailer_record();
        let trailer_chars = to_char_vec(trailer.as_str());
        push_chars(&mut out, &trailer_chars);
        proof {
            assert(out@ =~= spec_file_text(self@));
        }
        chars_to_string(&out)
    }
}

} // verus!
