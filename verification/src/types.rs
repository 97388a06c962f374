//! The closed sets of the format: currencies, processing centres, and the
//! four record kinds.

use vstd::prelude::*;
use crate::text::chars_eq;
use crate::text::to_char_vec;

verus! {

/// Destination currency of the file.
#[derive(Clone, Copy, PartialEq, Eq, Structural, Debug)]
pub enum CurrencyType {
    CAD,
    USD,
}

/// Processing centre, in fixed bidirectional correspondence with its
/// 5-digit routing code.
#[derive(Clone, Copy, PartialEq, Eq, Structural, Debug)]
pub enum ProcessingCentre {
    Halifax,
    Montreal,
    Toronto,
    Regina,
    Winnipeg,
    Calgary,
    Vancouver,
}

/// Role of a physical record line; the first character of each line.
/// A payment detail record may only carry `Credit` or `Debit`.
#[derive(Clone, Copy, PartialEq, Eq, Structural, Debug)]
pub enum RecordType {
    Header,
    Credit,
    Debit,
    Trailer,
}

impl CurrencyType {
    /// The 3-letter currency code.
    pub open spec fn code_seq(self) -> Seq<char> {
        match self {
            CurrencyType::CAD => "CAD"@,
            CurrencyType::USD => "USD"@,
        }
    }

    /// The 3-letter currency code.
    pub fn code_str(&self) -> (s: &'static str)
        ensures
            s@ == self.code_seq(),
    {
        match self {
            CurrencyType::CAD => "CAD",
            CurrencyType::USD => "USD",
        }
    }
}

/// The currency denoted by an already upper-cased 3-letter code, if any.
pub open spec fn currency_of_code(s: Seq<char>) -> Option<CurrencyType> {
    if s == "CAD"@ {
        Some(CurrencyType::CAD)
    } else if s == "USD"@ {
        Some(CurrencyType::USD)
    } else {
        None
    }
}

/// Look a currency up by its upper-cased code.
pub fn currency_from_code(code: &Vec<char>) -> (r: Option<CurrencyType>)
    ensures
        r == currency_of_code(code@),
{
    if chars_eq(code, &to_char_vec("CAD")) {
        Some(CurrencyType::CAD)
    } else if chars_eq(code, &to_char_vec("USD")) {
        Some(CurrencyType::USD)
    } else {
        None
    }
}

impl ProcessingCentre {
    /// The centre's 5-digit routing code.
    pub open spec fn code_seq(self) -> Seq<char> {
        match self {
            ProcessingCentre::Halifax => "00330"@,
            ProcessingCentre::Montreal => "00310"@,
            ProcessingCentre::Toronto => "00320"@,
            ProcessingCentre::Regina => "00278"@,
            ProcessingCentre::Winnipeg => "00370"@,
            ProcessingCentre::Calgary => "00390"@,
            ProcessingCentre::Vancouver => "00300"@,
        }
    }

    /// The centre's 5-digit routing code.
    pub fn code_str(&self) -> (s: &'static str)
        ensures
            s@ == self.code_seq(),
    {
        match self {
            ProcessingCentre::Halifax => "00330",
            ProcessingCentre::Montreal => "00310",
            ProcessingCentre::Toronto => "00320",
            ProcessingCentre::Regina => "00278",
            ProcessingCentre::Winnipeg => "00370",
            ProcessingCentre::Calgary => "00390",
            ProcessingCentre::Vancouver => "00300",
        }
    }
}

/// The centre denoted by a zero-padded 5-digit code, if any.
pub open spec fn centre_of_code(s: Seq<char>) -> Option<ProcessingCentre> {
    if s == "00330"@ {
        Some(ProcessingCentre::Halifax)
    } else if s == "00310"@ {
        Some(ProcessingCentre::Montreal)
    } else if s == "00320"@ {
        Some(ProcessingCentre::Toronto)
    } else if s == "00278"@ {
        Some(ProcessingCentre::Regina)
    } else if s == "00370"@ {
        Some(ProcessingCentre::Winnipeg)
    } else if s == "00390"@ {
        Some(ProcessingCentre::Calgary)
    } else if s == "00300"@ {
        Some(ProcessingCentre::Vancouver)
    } else {
        None
    }
}

/// Look a processing centre up by its zero-padded code.
pub fn centre_from_code(code: &Vec<char>) -> (r: Option<ProcessingCentre>)
    ensures
        r == centre_of_code(code@),
{
    if chars_eq(code, &to_char_vec("00330")) {
        Some(ProcessingCentre::Halifax)
    } else if chars_eq(code, &to_char_vec("00310")) {
        Some(ProcessingCentre::Montreal)
    } else if chars_eq(code, &to_char_vec("00320")) {
        Some(ProcessingCentre::Toronto)
    } else if chars_eq(code, &to_char_vec("00278")) {
        Some(ProcessingCentre::Regina)
    } else if chars_eq(code, &to_char_vec("00370")) {
        Some(ProcessingCentre::Winnipeg)
    } else if chars_eq(code, &to_char_vec("00390")) {
        Some(ProcessingCentre::Calgary)
    } else if chars_eq(code, &to_char_vec("00300")) {
        Some(ProcessingCentre::Vancouver)
    } else {
        None
    }
}

impl RecordType {
    /// The type character that opens a physical line of this kind.
    pub open spec fn spec_code_char(self) -> char {
        match self {
            RecordType::Header => 'A',
            RecordType::Credit => 'C',
            RecordType::Debit => 'D',
            RecordType::Trailer => 'Z',
        }
    }

    /// The type character that opens a physical line of this kind.
    pub fn code_char(&self) -> (c: char)
        ensures
            c == self.spec_code_char(),
    {
        match self {
            RecordType::Header => 'A',
            RecordType::Credit => 'C',
            RecordType::Debit => 'D',
            RecordType::Trailer => 'Z',
        }
    }

    /// Whether this kind may appear on a payment detail record.
    pub open spec fn is_payment_type(self) -> bool {
        self is Credit || self is Debit
    }
}

} // verus!
