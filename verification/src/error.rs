//! Error types for LEZ SDK programs.

use vstd::prelude::*;
use vstd::string::*;
use crate::output::SdkOutput;

verus! {

/// Result type of instruction handlers.
pub type SdkResult = Result<SdkOutput, SdkError>;

/// Structured error type for LEZ programs.
#[derive(Debug)]
pub enum SdkError {
    /// Wrong number of accounts provided.
    AccountCountMismatch { expected: usize, actual: usize },
    /// Failed to decode instruction arguments from raw bytes.
    DecodeError(String),
    /// Unknown instruction discriminant.
    UnknownInstruction(u32),
    /// Authorization failure.
    Unauthorized(String),
    /// Custom program error.
    Custom { code: u32, message: String },
}

/// The base added to the code of a custom program error.
pub const CUSTOM_CODE_BASE: u32 = 6000;

/// The numeric code of an error, for client-side handling.
pub open spec fn error_code(e: SdkError) -> int {
    match e {
        SdkError::AccountCountMismatch { .. } => 1000,
        SdkError::DecodeError(_) => 1001,
        SdkError::UnknownInstruction(_) => 1002,
        SdkError::Unauthorized(_) => 1003,
        SdkError::Custom { code, .. } => CUSTOM_CODE_BASE + code,
    }
}

/// Whether the code of `e` fits in a `u32`: a custom code above
/// `u32::MAX - 6000` overflows the addition.
pub open spec fn code_fits(e: SdkError) -> bool {
    e matches SdkError::Custom { code, .. } ==> code <= u32::MAX - CUSTOM_CODE_BASE
}

/// The character of a decimal digit.
pub open spec fn digit_char(d: nat) -> char {
    if d == 0 { '0' }
    else if d == 1 { '1' }
    else if d == 2 { '2' }
    else if d == 3 { '3' }
    else if d == 4 { '4' }
    else if d == 5 { '5' }
    else if d == 6 { '6' }
    else if d == 7 { '7' }
    else if d == 8 { '8' }
    else { '9' }
}

/// The decimal notation of `n`, without leading zeros.
pub open spec fn decimal(n: nat) -> Seq<char>
    decreases n,
{
    if n < 10 {
        seq![digit_char(n)]
    } else {
        decimal(n / 10).push(digit_char(n % 10))
    }
}

/// The number that a string of decimal digits stands for.
pub open spec fn digits_value(s: Seq<char>) -> int
    decreases s.len(),
{
    if s.len() == 0 {
        0
    } else {
        digits_value(s.drop_last()) * 10 + (s.last() as int - '0' as int)
    }
}

/// The digit character of `d` stands `d` places after '0'.
proof fn lemma_digit_char(d: nat)
    requires
        d < 10,
    ensures
        digit_char(d) as int == '0' as int + d,
{
    assert('0' as int == 48 && '1' as int == 49 && '2' as int == 50 && '3' as int == 51 && '4' as int == 52);
    assert('5' as int == 53 && '6' as int == 54 && '7' as int == 55 && '8' as int == 56 && '9' as int == 57);
}

/// The decimal notation of `n` is a non-empty string of digits '0' to '9'
/// that reads back as `n`, with no leading zero.
pub proof fn lemma_decimal_reads_back(n: nat)
    ensures
        decimal(n).len() >= 1,
        forall|i: int| 0 <= i < decimal(n).len() ==> '0' as int <= #[trigger] decimal(n)[i] as int <= '9' as int,
        digits_value(decimal(n)) == n,
        n >= 10 ==> decimal(n)[0] != '0',
    decreases n,
{
    if n >= 10 {
        lemma_decimal_reads_back(n / 10);
        lemma_digit_char(n % 10);
        let rest = decimal(n / 10);
        assert(decimal(n).drop_last() =~= rest);
        assert(decimal(n)[0] == rest[0]);
        assert(decimal(n).last() == digit_char(n % 10));
        assert(digits_value(decimal(n)) == digits_value(rest) * 10 + (digit_char(n % 10) as int - '0' as int));
        assert(digits_value(rest) == n / 10);
        assert(n == (n / 10) * 10 + n % 10);
    } else {
        lemma_digit_char(n);
        assert(decimal(n).drop_last() =~= Seq::<char>::empty());
        assert(digits_value(Seq::<char>::empty()) == 0);
        assert(digits_value(decimal(n)) == 0 * 10 + (digit_char(n) as int - '0' as int));
    }
}

/// The codes of errors: 1000 for a wrong account count, 1001 for a decode
/// error, 1002 for an unknown instruction, 1003 for an authorization
/// failure, and 6000 plus the program's code for a custom error.
pub proof fn lemma_error_code_table(e: SdkError)
    ensures
        e is AccountCountMismatch ==> error_code(e) == 1000,
        e is DecodeError ==> error_code(e) == 1001,
        e is UnknownInstruction ==> error_code(e) == 1002,
        e is Unauthorized ==> error_code(e) == 1003,
        e matches SdkError::Custom { code, .. } ==> error_code(e) == 6000 + code,
{
}

/// The message that an error displays.
pub open spec fn error_message(e: SdkError) -> Seq<char> {
    match e {
        SdkError::AccountCountMismatch { expected, actual } =>
            "expected "@ + decimal(expected as nat) + " accounts, got "@ + decimal(actual as nat),
        SdkError::DecodeError(s) => "failed to decode instruction arguments: "@ + s@,
        SdkError::UnknownInstruction(d) => "unknown instruction discriminant: "@ + decimal(d as nat),
        SdkError::Unauthorized(s) => "unauthorized: "@ + s@,
        SdkError::Custom { code, message } =>
            "program error "@ + decimal(code as nat) + ": "@ + message@,
    }
}

/// The one-character string of the digit `d`.
fn digit_str(d: u64) -> (s: &'static str)
    requires
        d < 10,
    ensures
        s@ == seq![digit_char(d as nat)],
{
    proof {
        reveal_strlit("0");
        reveal_strlit("1");
        reveal_strlit("2");
        reveal_strlit("3");
        reveal_strlit("4");
        reveal_strlit("5");
        reveal_strlit("6");
        reveal_strlit("7");
        reveal_strlit("8");
        reveal_strlit("9");
    }
    if d == 0 { "0" }
    else if d == 1 { "1" }
    else if d == 2 { "2" }
    else if d == 3 { "3" }
    else if d == 4 { "4" }
    else if d == 5 { "5" }
    else if d == 6 { "6" }
    else if d == 7 { "7" }
    else if d == 8 { "8" }
    else { "9" }
}

/// Appends the decimal notation of `n` to `out`.
pub fn push_decimal(out: &mut String, n: u64)
    ensures
        final(out)@ == old(out)@ + decimal(n as nat),
    decreases n,
{
    if n >= 10 {
        push_decimal(out, n / 10);
        out.append(digit_str(n % 10));
        assert(out@ =~= old(out)@ + decimal(n as nat));
    } else {
        out.append(digit_str(n));
        assert(out@ =~= old(out)@ + decimal(n as nat));
    }
}

/// The variant of an error, with the custom code where it has one.
pub open spec fn error_kind(e: SdkError) -> (int, int) {
    match e {
        SdkError::AccountCountMismatch { .. } => (0, 0),
        SdkError::DecodeError(_) => (1, 0),
        SdkError::UnknownInstruction(_) => (2, 0),
        SdkError::Unauthorized(_) => (3, 0),
        SdkError::Custom { code, .. } => (4, code as int),
    }
}

/// Error codes tell errors apart: two errors with the same code are of the
/// same variant, and two custom errors with the same code carry the same
/// program code. Custom codes never fall among the fixed codes.
pub proof fn lemma_code_identifies_kind(e1: SdkError, e2: SdkError)
    requires
        code_fits(e1),
        code_fits(e2),
    ensures
        error_code(e1) == error_code(e2) <==> error_kind(e1) == error_kind(e2),
        e1 is Custom ==> error_code(e1) >= CUSTOM_CODE_BASE,
        !(e1 is Custom) ==> 1000 <= error_code(e1) <= 1003,
{
}

impl SdkError {
    /// Numeric error code for client-side handling.
    pub fn code(&self) -> (c: u32)
        requires
            code_fits(*self),
        ensures
            c == error_code(*self),
    {
        match self {
            SdkError::AccountCountMismatch { .. } => 1000,
            SdkError::DecodeError(_) => 1001,
            SdkError::UnknownInstruction(_) => 1002,
            SdkError::Unauthorized(_) => 1003,
            SdkError::Custom { code, .. } => CUSTOM_CODE_BASE + *code,
        }
    }

    /// The message of the error, as it is displayed.
    pub fn to_string(&self) -> (s: String)
        ensures
            s@ == error_message(*self),
    {
        match self {
            SdkError::AccountCountMismatch { expected, actual } => {
                let mut s = String::from_str("expected ");
                push_decimal(&mut s, *expected as u64);
                s.append(" accounts, got ");
                push_decimal(&mut s, *actual as u64);
                s
            },
            SdkError::DecodeError(m) => {
                let mut s = String::from_str("failed to decode instruction arguments: ");
                s.append(m.as_str());
                s
            },
            SdkError::UnknownInstruction(d) => {
                let mut s = String::from_str("unknown instruction discriminant: ");
                push_decimal(&mut s, *d as u64);
                s
            },
            SdkError::Unauthorized(m) => {
                let mut s = String::from_str("unauthorized: ");
                s.append(m.as_str());
                s
            },
            SdkError::Custom { code, message } => {
                let mut s = String::from_str("program error ");
                push_decimal(&mut s, *code as u64);
                s.append(": ");
                s.append(message.as_str());
                s
            },
        }
    }
}

} // verus!
