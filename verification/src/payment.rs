//! The per-transaction detail segment and the payment detail record that
//! wraps one or more segments.  Every setter validates its field against
//! the field's width/charset/range contract and records violations in the
//! entity's error log instead of aborting; a failed field keeps its
//! previous value.

use vstd::prelude::*;
use crate::error::ErrorLog;
use crate::text::chars_to_string;
use crate::text::left_aligned_num;
use crate::text::lemma_left_aligned_num_len;
use crate::text::lemma_pad_right_len;
use crate::text::lemma_zero_padded_len;
use crate::text::pad_left;
use crate::text::pad_right;
use crate::text::pow10;
use crate::text::push_chars;
use crate::text::push_left_aligned_num;
use crate::text::push_padded_chars;
use crate::text::push_repeat;
use crate::text::push_zero_padded;
use crate::text::repeat_char;
use crate::text::to_char_vec;
use crate::text::zero_padded;
use crate::types::RecordType;
use crate::utils::lemma_n_digits_iff;
use crate::utils::n_digits;

verus! {

/// Whether `c` is an ASCII decimal digit.
pub open spec fn is_digit_char(c: char) -> bool {
    '0' <= c && c <= '9'
}

/// Whether every character of `s` is an ASCII decimal digit.
pub open spec fn all_digits(s: Seq<char>) -> bool {
    forall|i: int| 0 <= i < s.len() ==> is_digit_char(#[trigger] s[i])
}

/// Check that every character of `v` is an ASCII decimal digit.
pub fn check_all_digits(v: &Vec<char>) -> (r: bool)
    ensures
        r == all_digits(v@),
{
    let mut i: usize = 0;
    while i < v.len()
        invariant
            i <= v.len(),
            forall|j: int| 0 <= j < i ==> is_digit_char(#[trigger] v@[j]),
        decreases v.len() - i,
    {
        let c = v[i];
        if !(c >= '0' && c <= '9') {
            return false;
        }
        i += 1;
    }
    true
}

/// Mathematical value of one payment detail segment: each text field as
/// its character sequence, plus the segment's own error log.
#[verifier::ext_equal]
pub ghost struct SegmentView {
    pub transaction_code: Seq<char>,
    pub amount: u64,
    pub payment_date: (u64, u64),
    pub financial_institution_number: Seq<char>,
    pub financial_institution_branch_number: Seq<char>,
    pub account_number: Seq<char>,
    pub client_short_name: Seq<char>,
    pub customer_name: Seq<char>,
    pub client_name: Seq<char>,
    pub client_number: Seq<char>,
    pub customer_number: Seq<char>,
    pub client_sundry_information: Seq<char>,
    pub error_log: Seq<Seq<char>>,
}

/// One transaction's field block within a payment detail record.
pub struct BasicPaymentSegment {
    pub transaction_code: String,
    pub amount: u64,
    pub payment_date: (u64, u64),
    pub financial_institution_number: String,
    pub financial_institution_branch_number: String,
    pub account_number: String,
    pub client_short_name: String,
    pub customer_name: String,
    pub client_name: String,
    pub client_number: String,
    pub customer_number: String,
    pub client_sundry_information: String,
    pub error_log: ErrorLog,
}

impl View for BasicPaymentSegment {
    type V = SegmentView;

    open spec fn view(&self) -> SegmentView {
        SegmentView {
            transaction_code: self.transaction_code@,
            amount: self.amount,
            payment_date: self.payment_date,
            financial_institution_number: self.financial_institution_number@,
            financial_institution_branch_number: self.financial_institution_branch_number@,
            account_number: self.account_number@,
            client_short_name: self.client_short_name@,
            customer_name: self.customer_name@,
            client_name: self.client_name@,
            client_number: self.client_number@,
            customer_number: self.customer_number@,
            client_sundry_information: self.client_sundry_information@,
            error_log: self.error_log@,
        }
    }
}

/// A fresh segment: every text field empty, amount and date zero, no
/// errors.
pub open spec fn seg_new() -> SegmentView {
    SegmentView {
        transaction_code: Seq::empty(),
        amount: 0,
        payment_date: (0, 0),
        financial_institution_number: Seq::empty(),
        financial_institution_branch_number: Seq::empty(),
        account_number: Seq::empty(),
        client_short_name: Seq::empty(),
        customer_name: Seq::empty(),
        client_name: Seq::empty(),
        client_number: Seq::empty(),
        customer_number: Seq::empty(),
        client_sundry_information: Seq::empty(),
        error_log: Seq::empty(),
    }
}

/// `s` with `msg` appended to its error log and no other change.
pub open spec fn seg_with_error(s: SegmentView, msg: Seq<char>) -> SegmentView {
    SegmentView { error_log: s.error_log.push(msg), ..s }
}

/// The message rejecting `code` as a transaction code.
pub open spec fn msg_bad_transaction_code(code: Seq<char>) -> Seq<char> {
    "Transaction code must be 3 digits, received "@ + code + " instead"@
}

/// Outcome of `set_transaction_code`: exactly 3 characters are required.
pub open spec fn seg_set_transaction_code(s: SegmentView, code: Seq<char>) -> SegmentView {
    if code.len() == 3 {
        SegmentView { transaction_code: code, ..s }
    } else {
        seg_with_error(s, msg_bad_transaction_code(code))
    }
}

/// Outcome of `set_amount`: the amount in cents is stored unchecked.
pub open spec fn seg_set_amount(s: SegmentView, cents: u64) -> SegmentView {
    SegmentView { amount: cents, ..s }
}

/// Outcome of `set_payment_date`: the day of year must be nonzero; the
/// year is reduced to its final two digits.
pub open spec fn seg_set_payment_date(s: SegmentView, year: u64, day: u64) -> SegmentView {
    if day == 0 {
        seg_with_error(s, "Payment Date Day number is 0"@)
    } else {
        SegmentView { payment_date: ((year % 100) as u64, day), ..s }
    }
}

/// Outcome of `set_financial_institution_number`: left-padded with zeros
/// to 4 characters, with no digit validation.
pub open spec fn seg_set_financial_institution_number(s: SegmentView, no: Seq<char>) -> SegmentView {
    SegmentView { financial_institution_number: pad_left(no, '0', 4), ..s }
}

/// Outcome of `set_financial_institution_branch_number`: the value must be
/// a nonempty string of digits, and is left-padded with zeros to 5
/// characters.
pub open spec fn seg_set_financial_institution_branch_number(
    s: SegmentView,
    no: Seq<char>,
) -> SegmentView {
    if no.len() > 0 && all_digits(no) {
        SegmentView { financial_institution_branch_number: pad_left(no, '0', 5), ..s }
    } else {
        seg_with_error(s, "Branch number must be 5 digits"@)
    }
}

/// Outcome of `set_account_number`: digits only, at most 12 of them.
pub open spec fn seg_set_account_number(s: SegmentView, account_no: Seq<char>) -> SegmentView {
    if !all_digits(account_no) {
        seg_with_error(s, "Account number must only include digits"@)
    } else if account_no.len() > 12 {
        seg_with_error(s, "Account number cannot exceed 12 digits"@)
    } else {
        SegmentView { account_number: account_no, ..s }
    }
}

/// Outcome of `set_client_short_name`: at most 15 characters.
pub open spec fn seg_set_client_short_name(s: SegmentView, short_name: Seq<char>) -> SegmentView {
    if short_name.len() > 15 {
        seg_with_error(s, "Client Short Name must not exceed 15 characters"@)
    } else {
        SegmentView { client_short_name: short_name, ..s }
    }
}

/// Outcome of `set_customer_name`: at most 30 characters.
pub open spec fn seg_set_customer_name(s: SegmentView, customer_name: Seq<char>) -> SegmentView {
    if customer_name.len() > 30 {
        seg_with_error(s, "Customer Name must not exceed 30 characters"@)
    } else {
        SegmentView { customer_name: customer_name, ..s }
    }
}

/// Outcome of `set_client_name`: at most 30 characters.
pub open spec fn seg_set_client_name(s: SegmentView, client_name: Seq<char>) -> SegmentView {
    if client_name.len() > 30 {
        seg_with_error(s, "Client Name must not exceed 30 characters"@)
    } else {
        SegmentView { client_name: client_name, ..s }
    }
}

/// Whether `s` is a well-formed client number: exactly 10 ASCII digits.
pub open spec fn valid_client_number(s: Seq<char>) -> bool {
    s.len() == 10 && all_digits(s)
}

/// Outcome of a client-number setter: exactly 10 characters, all digits.
pub open spec fn seg_set_client_number(s: SegmentView, client_number: Seq<char>) -> SegmentView {
    if client_number.len() != 10 {
        seg_with_error(s, "Client number must be exactly 10 numeric digits long"@)
    } else if !all_digits(client_number) {
        seg_with_error(s, "Client number must not contain non-numeric digits"@)
    } else {
        SegmentView { client_number: client_number, ..s }
    }
}

/// Outcome of `set_customer_number`: at most 19 characters.
pub open spec fn seg_set_customer_number(s: SegmentView, customer_number: Seq<char>) -> SegmentView {
    if customer_number.len() > 19 {
        seg_with_error(s, "Customer number must not exceed 19 characters"@)
    } else {
        SegmentView { customer_number: customer_number, ..s }
    }
}

/// Outcome of `set_customer_sundry_information`: at most 15 characters.
pub open spec fn seg_set_customer_sundry_information(
    s: SegmentView,
    info: Seq<char>,
) -> SegmentView {
    if info.len() > 15 {
        seg_with_error(s, "Client Sundry Information must not exceed 15 characters"@)
    } else {
        SegmentView { client_sundry_information: info, ..s }
    }
}

/// The 240-character fixed-width encoding of one segment: transaction
/// code, zero-padded amount (dollars then cents), `0`-prefixed date pair,
/// institution and branch numbers, the text fields space-padded
/// left-aligned, and the reserved zero- and space-filled gap regions.
pub open spec fn spec_segment_text(s: SegmentView) -> Seq<char> {
    s.transaction_code + zero_padded((s.amount / 100) as nat, 8) + zero_padded(
        (s.amount % 100) as nat,
        2,
    ) + seq!['0'] + zero_padded(s.payment_date.0 as nat, 2) + zero_padded(
        s.payment_date.1 as nat,
        3,
    ) + s.financial_institution_number + s.financial_institution_branch_number + pad_right(
        s.account_number,
        ' ',
        12,
    ) + repeat_char('0', 22) + repeat_char('0', 3) + pad_right(s.client_short_name, ' ', 15)
        + pad_right(s.customer_name, ' ', 30) + pad_right(s.client_name, ' ', 30) + pad_right(
        s.client_number,
        ' ',
        10,
    ) + pad_right(s.customer_number, ' ', 19) + repeat_char('0', 9) + repeat_char(' ', 12)
        + pad_right(s.client_sundry_information, ' ', 15) + repeat_char(' ', 22) + repeat_char(
        ' ',
        2,
    ) + repeat_char(' ', 11)
}

/// Field bounds under which the segment encodes to its exact fixed
/// widths: every field within the width its column affords.
pub open spec fn seg_wf(s: SegmentView) -> bool {
    &&& s.transaction_code.len() == 3
    &&& s.amount < 10000000000
    &&& s.payment_date.0 < 100
    &&& 0 < s.payment_date.1 < 1000
    &&& s.financial_institution_number.len() == 4
    &&& s.financial_institution_branch_number.len() == 5
    &&& s.account_number.len() <= 12
    &&& s.client_short_name.len() <= 15
    &&& s.customer_name.len() <= 30
    &&& s.client_name.len() <= 30
    &&& s.client_number.len() == 10
    &&& s.customer_number.len() <= 19
    &&& s.client_sundry_information.len() <= 15
}

/// A well-formed segment always encodes to exactly 240 characters.
pub proof fn lemma_segment_text_len(s: SegmentView)
    requires
        seg_wf(s),
    ensures
        spec_segment_text(s).len() == 240,
{
    assert(pow10(8) == 100000000 && pow10(2) == 100 && pow10(3) == 1000) by {
        reveal_with_fuel(pow10, 9);
    }
    lemma_zero_padded_len((s.amount / 100) as nat, 8);
    lemma_zero_padded_len((s.amount % 100) as nat, 2);
    lemma_zero_padded_len(s.payment_date.0 as nat, 2);
    lemma_zero_padded_len(s.payment_date.1 as nat, 3);
    lemma_pad_right_len(s.account_number, ' ', 12);
    lemma_pad_right_len(s.client_short_name, ' ', 15);
    lemma_pad_right_len(s.customer_name, ' ', 30);
    lemma_pad_right_len(s.client_name, ' ', 30);
    lemma_pad_right_len(s.client_number, ' ', 10);
    lemma_pad_right_len(s.customer_number, ' ', 19);
    lemma_pad_right_len(s.client_sundry_information, ' ', 15);
}

impl BasicPaymentSegment {
    /// A fresh segment with every field at its default.
    pub fn new() -> (s: Self)
        ensures
            s@ == seg_new(),
    {
        let s = Self {
            transaction_code: String::new(),
            amount: 0,
            payment_date: (0, 0),
            financial_institution_number: String::new(),
            financial_institution_branch_number: String::new(),
            account_number: String::new(),
            client_short_name: String::new(),
            customer_name: String::new(),
            client_name: String::new(),
            client_number: String::new(),
            customer_number: String::new(),
            client_sundry_information: String::new(),
            error_log: ErrorLog::new(),
        };
        proof {
            assert(s@.error_log =~= Seq::<Seq<char>>::empty());
            assert(s@.transaction_code =~= Seq::<char>::empty());
        }
        s
    }

    /// Set the transaction code; it must be exactly 3 characters.
    pub fn set_transaction_code(&mut self, code: String)
        ensures
            final(self)@ == seg_set_transaction_code(old(self)@, code@),
    {
        let cv = to_char_vec(code.as_str());
        if cv.len() == 3 {
            self.transaction_code = code;
        } else {
            let mut msg = to_char_vec("Transaction code must be 3 digits, received ");
            push_chars(&mut msg, &cv);
            let tail = to_char_vec(" instead");
            push_chars(&mut msg, &tail);
            let msg_s = chars_to_string(&msg);
            self.error_log.write_error(msg_s.as_str());
        }
    }

    /// Set the amount in cents; any value is accepted here.
    pub fn set_amount(&mut self, cents: u64)
        ensures
            final(self)@ == seg_set_amount(old(self)@, cents),
    {
        self.amount = cents;
    }

    /// Set the payment date pair; the day of year must be nonzero, and
    /// the year is reduced to its final two digits.
    pub fn set_payment_date(&mut self, year: u64, day: u64)
        ensures
            final(self)@ == seg_set_payment_date(old(self)@, year, day),
    {
        if day == 0 {
            self.error_log.write_error("Payment Date Day number is 0");
        } else {
            self.payment_date = (year % 100, day);
        }
    }

    /// Set the financial institution number, left-padded with zeros to 4
    /// characters.
    pub fn set_financial_institution_number(&mut self, no: String)
        ensures
            final(self)@ == seg_set_financial_institution_number(old(self)@, no@),
    {
        let cv = to_char_vec(no.as_str());
        let mut padded: Vec<char> = Vec::new();
        if cv.len() < 4 {
            push_repeat(&mut padded, '0', 4 - cv.len());
        }
        push_chars(&mut padded, &cv);
        proof {
            assert(padded@ =~= pad_left(no@, '0', 4));
        }
        self.financial_institution_number = chars_to_string(&padded);
    }

    /// Set the branch number; it must be a nonempty string of digits, and
    /// is left-padded with zeros to 5 characters.
    pub fn set_financial_institution_branch_number(&mut self, no: String)
        ensures
            final(self)@ == seg_set_financial_institution_branch_number(old(self)@, no@),
    {
        let cv = to_char_vec(no.as_str());
        if cv.len() > 0 && check_all_digits(&cv) {
            let mut padded: Vec<char> = Vec::new();
            if cv.len() < 5 {
                push_repeat(&mut padded, '0', 5 - cv.len());
            }
            push_chars(&mut padded, &cv);
            proof {
                assert(padded@ =~= pad_left(no@, '0', 5));
            }
            self.financial_institution_branch_number = chars_to_string(&padded);
        } else {
            self.error_log.write_error("Branch number must be 5 digits");
        }
    }

    /// Set the account number; digits only, at most 12 of them.
    pub fn set_account_number(&mut self, account_no: String)
        ensures
            final(self)@ == seg_set_account_number(old(self)@, account_no@),
    {
        let cv = to_char_vec(account_no.as_str());
        if !check_all_digits(&cv) {
            self.error_log.write_error("Account number must only include digits");
        } else if cv.len() > 12 {
            self.error_log.write_error("Account number cannot exceed 12 digits");
        } else {
            self.account_number = account_no;
        }
    }

    /// Set the client short name; at most 15 characters.
    pub fn set_client_short_name(&mut self, short_name: String)
        ensures
            final(self)@ == seg_set_client_short_name(old(self)@, short_name@),
    {
        let cv = to_char_vec(short_name.as_str());
        if cv.len() > 15 {
            self.error_log.write_error("Client Short Name must not exceed 15 characters");
        } else {
            self.client_short_name = short_name;
        }
    }

    /// Set the customer name; at most 30 characters.
    pub fn set_customer_name(&mut self, customer_name: String)
        ensures
            final(self)@ == seg_set_customer_name(old(self)@, customer_name@),
    {
        let cv = to_char_vec(customer_name.as_str());
        if cv.len() > 30 {
            self.error_log.write_error("Customer Name must not exceed 30 characters");
        } else {
            self.customer_name = customer_name;
        }
    }

    /// Set the client name; at most 30 characters.
    pub fn set_client_name(&mut self, client_name: String)
        ensures
            final(self)@ == seg_set_client_name(old(self)@, client_name@),
    {
        let cv = to_char_vec(client_name.as_str());
        if cv.len() > 30 {
            self.error_log.write_error("Client Name must not exceed 30 characters");
        } else {
            self.client_name = client_name;
        }
    }

    /// Set the client number; exactly 10 ASCII digits are required.
    pub fn set_client_number(&mut self, client_number: String)
        ensures
            final(self)@ == seg_set_client_number(old(self)@, client_number@),
    {
        let cv = to_char_vec(client_number.as_str());
        if cv.len() != 10 {
            self.error_log.write_error("Client number must be exactly 10 numeric digits long");
        } else if !check_all_digits(&cv) {
            self.error_log.write_error("Client number must not contain non-numeric digits");
        } else {
            self.client_number = client_number;
        }
    }

    /// Set the customer number; at most 19 characters.
    pub fn set_customer_number(&mut self, customer_number: String)
        ensures
            final(self)@ == seg_set_customer_number(old(self)@, customer_number@),
    {
        let cv = to_char_vec(customer_number.as_str());
        if cv.len() > 19 {
            self.error_log.write_error("Customer number must not exceed 19 characters");
        } else {
            self.customer_number = customer_number;
        }
    }

    /// Set the sundry information; at most 15 characters.
    pub fn set_customer_sundry_information(&mut self, info: String)
        ensures
            final(self)@ == seg_set_customer_sundry_information(old(self)@, info@),
    {
        let cv = to_char_vec(info.as_str());
        if cv.len() > 15 {
            self.error_log.write_error("Client Sundry Information must not exceed 15 characters");
        } else {
            self.client_sundry_information = info;
        }
    }

    /// Serialize the segment into its fixed-width field block.
    pub fn build(&self) -> (r: String)
        ensures
            r@ == spec_segment_text(self@),
    {
        let mut out: Vec<char> = Vec::new();
        let tc = to_char_vec(self.transaction_code.as_str());
        push_chars(&mut out, &tc);
        push_zero_padded(&mut out, self.amount / 100, 8);
        push_zero_padded(&mut out, self.amount % 100, 2);
        out.push('0');
        push_zero_padded(&mut out, self.payment_date.0, 2);
        push_zero_padded(&mut out, self.payment_date.1, 3);
        let fin = to_char_vec(self.financial_institution_number.as_str());
        push_chars(&mut out, &fin);
        let branch = to_char_vec(self.financial_institution_branch_number.as_str());
        push_chars(&mut out, &branch);
        let account = to_char_vec(self.account_number.as_str());
        push_padded_chars(&mut out, &account, ' ', 12);
        push_repeat(&mut out, '0', 22);
        push_repeat(&mut out, '0', 3);
        let short_name = to_char_vec(self.client_short_name.as_str());
        push_padded_chars(&mut out, &short_name, ' ', 15);
        let customer_name = to_char_vec(self.customer_name.as_str());
        push_padded_chars(&mut out, &customer_name, ' ', 30);
        let client_name = to_char_vec(self.client_name.as_str());
        push_padded_chars(&mut out, &client_name, ' ', 30);
        let client_number = to_char_vec(self.client_number.as_str());
        push_padded_chars(&mut out, &client_number, ' ', 10);
        let customer_number = to_char_vec(self.customer_number.as_str());
        push_padded_chars(&mut out, &customer_number, ' ', 19);
        push_repeat(&mut out, '0', 9);
        push_repeat(&mut out, ' ', 12);
        let sundry = to_char_vec(self.client_sundry_information.as_str());
        push_padded_chars(&mut out, &sundry, ' ', 15);
        push_repeat(&mut out, ' ', 22);
        push_repeat(&mut out, ' ', 2);
        push_repeat(&mut out, ' ', 11);
        proof {
            assert(out@ =~= spec_segment_text(self@));
        }
        chars_to_string(&out)
    }
}

/// Mathematical value of one payment detail record.
#[verifier::ext_equal]
pub ghost struct PaymentView {
    pub record_type: RecordType,
    pub record_count: u32,
    pub client_number: Seq<char>,
    pub file_creation_number: u32,
    pub segments: Seq<SegmentView>,
    pub error_log: Seq<Seq<char>>,
}

/// A payment detail record: one or more segments under a record type,
/// with the record number the file aggregator assigned to it.
pub struct BasicPayment {
    pub record_type: RecordType,
    pub record_count: u32,
    pub client_number: String,
    pub file_creation_number: u32,
    pub segments: Vec<BasicPaymentSegment>,
    pub error_log: ErrorLog,
}

impl View for BasicPayment {
    type V = PaymentView;

    open spec fn view(&self) -> PaymentView {
        PaymentView {
            record_type: self.record_type,
            record_count: self.record_count,
            client_number: self.client_number@,
            file_creation_number: self.file_creation_number,
            segments: Seq::new(self.segments@.len(), |i: int| self.segments@[i]@),
            error_log: self.error_log@,
        }
    }
}

/// A fresh payment: type `Credit`, no record number, no segments.
pub open spec fn pay_new() -> PaymentView {
    PaymentView {
        record_type: RecordType::Credit,
        record_count: 0,
        client_number: Seq::empty(),
        file_creation_number: 0,
        segments: Seq::empty(),
        error_log: Seq::empty(),
    }
}

/// Outcome of the payment's `set_client_number`: exactly 10 ASCII digits.
pub open spec fn pay_set_client_number(p: PaymentView, client_number: Seq<char>) -> PaymentView {
    if client_number.len() != 10 {
        PaymentView {
            error_log: p.error_log.push("Client number must be exactly 10 numeric digits long"@),
            ..p
        }
    } else if !all_digits(client_number) {
        PaymentView {
            error_log: p.error_log.push("Client number must not contain non-numeric digits"@),
            ..p
        }
    } else {
        PaymentView { client_number: client_number, ..p }
    }
}

/// Outcome of the payment's `set_file_creation_number`: at most 4 decimal
/// digits.
pub open spec fn pay_set_file_creation_number(p: PaymentView, no: u32) -> PaymentView {
    if no > 9999 {
        PaymentView { error_log: p.error_log.push("File creation number exceeds 4 digits"@), ..p }
    } else {
        PaymentView { file_creation_number: no, ..p }
    }
}

/// The concatenated encodings of a run of segments, in order.
pub open spec fn segs_text(ss: Seq<SegmentView>) -> Seq<char>
    decreases ss.len(),
{
    if ss.len() == 0 {
        Seq::empty()
    } else {
        segs_text(ss.drop_last()) + spec_segment_text(ss.last())
    }
}

/// The encoding of a payment detail record: 1-character type code,
/// 9-digit zero-padded record number, client number, 4-character
/// left-aligned file-creation number, then every segment in insertion
/// order.
pub open spec fn spec_payment_text(p: PaymentView) -> Seq<char> {
    seq![p.record_type.spec_code_char()] + zero_padded(p.record_count as nat, 9) + p.client_number
        + left_aligned_num(p.file_creation_number as nat, 4) + segs_text(p.segments)
}

/// Field bounds under which a payment detail record encodes to its exact
/// fixed widths.
pub open spec fn pay_wf(p: PaymentView) -> bool {
    &&& p.record_type.is_payment_type()
    &&& p.record_count < 1000000000
    &&& valid_client_number(p.client_number)
    &&& p.file_creation_number <= 9999
    &&& forall|i: int| 0 <= i < p.segments.len() ==> seg_wf(#[trigger] p.segments[i])
}

/// The segment run of a well-formed payment encodes to 240 characters per
/// segment.
pub proof fn lemma_segs_text_len(ss: Seq<SegmentView>)
    requires
        forall|i: int| 0 <= i < ss.len() ==> seg_wf(#[trigger] ss[i]),
    ensures
        segs_text(ss).len() == 240 * ss.len(),
    decreases ss.len(),
{
    if ss.len() > 0 {
        lemma_segs_text_len(ss.drop_last());
        lemma_segment_text_len(ss.last());
    }
}

/// A well-formed payment detail record encodes to exactly
/// `24 + 240 * segments` characters.
pub proof fn lemma_payment_text_len(p: PaymentView)
    requires
        pay_wf(p),
    ensures
        spec_payment_text(p).len() == 24 + 240 * p.segments.len(),
{
    assert(pow10(9) == 1000000000 && pow10(4) == 10000) by {
        reveal_with_fuel(pow10, 10);
    }
    lemma_zero_padded_len(p.record_count as nat, 9);
    lemma_left_aligned_num_len(p.file_creation_number as nat, 4);
    lemma_segs_text_len(p.segments);
}

impl BasicPayment {
    /// A fresh payment with every field at its default.
    pub fn new() -> (p: Self)
        ensures
            p@ == pay_new(),
    {
        let p = Self {
            record_type: RecordType::Credit,
            record_count: 0,
            client_number: String::new(),
            file_creation_number: 0,
            segments: Vec::new(),
            error_log: ErrorLog::new(),
        };
        proof {
            assert(p@.segments =~= Seq::<SegmentView>::empty());
            assert(p@.client_number =~= Seq::<char>::empty());
        }
        p
    }

    /// Set the client number; exactly 10 ASCII digits are required.
    pub fn set_client_number(&mut self, client_number: String)
        ensures
            final(self)@ == pay_set_client_number(old(self)@, client_number@),
    {
        let cv = to_char_vec(client_number.as_str());
        if cv.len() != 10 {
            self.error_log.write_error("Client number must be exactly 10 numeric digits long");
        } else if !check_all_digits(&cv) {
            self.error_log.write_error("Client number must not contain non-numeric digits");
        } else {
            self.client_number = client_number;
        }
    }

    /// Set the file-creation number; at most 4 decimal digits.
    pub fn set_file_creation_number(&mut self, no: u32)
        ensures
            final(self)@ == pay_set_file_creation_number(old(self)@, no),
    {
        proof {
            lemma_n_digits_iff(no as nat, 4);
            assert(pow10(4) == 10000) by {
                reveal_with_fuel(pow10, 5);
            }
        }
        if n_digits(no) > 4 {
            self.error_log.write_error("File creation number exceeds 4 digits");
        } else {
            self.file_creation_number = no;
        }
    }

    /// Serialize the payment detail record.  A record type other than
    /// `Credit` or `Debit` is a contract violation and is reported as an
    /// error, never a crash.
    pub fn build(&self) -> (r: Result<String, String>)
        ensures
            r is Ok <==> self@.record_type.is_payment_type(),
            r is Ok ==> r->Ok_0@ == spec_payment_text(self@),
            r is Err ==> r->Err_0@ == "Expected record of type CREDIT or DEBIT"@,
    {
        match self.record_type {
            RecordType::Credit => {}
            RecordType::Debit => {}
            _ => {
                let msg = to_char_vec("Expected record of type CREDIT or DEBIT");
                return Err(chars_to_string(&msg));
            }
        }
        let mut out: Vec<char> = Vec::new();
        out.push(self.record_type.code_char());
        push_zero_padded(&mut out, self.record_count as u64, 9);
        let client_number = to_char_vec(self.client_number.as_str());
        push_chars(&mut out, &client_number);
        push_left_aligned_num(&mut out, self.file_creation_number as u64, 4);
        let ghost prefix = out@;
        let mut i: usize = 0;
        while i < self.segments.len()
            invariant
                i <= self.segments.len(),
                out@ == prefix + segs_text(self@.segments.subrange(0, i as int)),
            decreases self.segments.len() - i,
        {
            let seg_text = self.segments[i].build();
            let seg_chars = to_char_vec(seg_text.as_str());
            push_chars(&mut out, &seg_chars);
            proof {
                let upto = self@.segments.subrange(0, i + 1);
                assert(upto.drop_last() =~= self@.segments.subrange(0, i as int));
                assert(upto.last() == self@.segments[i as int]);
                assert(out@ =~= prefix + segs_text(upto));
            }
            i += 1;
        }
        proof {
            assert(self@.segments.subrange(0, self@.segments.len() as int) =~= self@.segments);
            assert(out@ =~= spec_payment_text(self@));
        }
        Ok(chars_to_string(&out))
    }
}

} // verus!
