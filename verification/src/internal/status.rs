//! Exit statuses: a 16-bit code with the POSIX meanings of a few values.
use super::text::{parse_bounded, parse_number};
use vstd::prelude::*;
use vstd::std_specs::convert::FromSpec;

verus! {

/// An exit status.
///
/// The meanings of the named values follow
/// <https://tldp.org/LDP/abs/html/exitcodes.html>.
#[derive(Debug, Copy, Clone, PartialEq, Eq, Structural)]
pub struct ReturnCode {
    /// The code itself.
    pub val: u16,
}

/// The error of a text that is no exit status.
#[derive(Debug, PartialEq, Eq)]
pub struct ParseReturnCodeError;

impl View for ReturnCode {
    type V = u16;

    open spec fn view(&self) -> u16 {
        self.val
    }
}

impl ReturnCode {
    /// A successful command returns `0`.
    pub const SUCCESS: u16 = 0;

    /// A general failure returns `1`.
    pub const FAILURE: u16 = 1;

    /// Misuse of a builtin returns `2`.
    pub const MISUSE: u16 = 2;

    /// A command that may not be executed returns `126`.
    pub const PERMISSION_DENIED: u16 = 126;

    /// A command that is not found returns `127`.
    pub const COMMAND_NOT_FOUND: u16 = 127;

    /// A script interrupted from the keyboard returns `130`.
    pub const CTRL_C: u16 = 130;

    /// The status with the given code.
    pub fn ret(val: u16) -> (r: Self)
        ensures
            r@ == val,
    {
        ReturnCode { val }
    }

    /// The code of this status.
    pub fn get(self) -> (r: u16)
        ensures
            r == self@,
    {
        self.val
    }

    /// Whether this status is success.
    pub open spec fn succeeded(self) -> bool {
        self@ == 0
    }

    /// The status folded to success or failure, the other way round where
    /// `invert` is set.
    pub open spec fn spec_invert(self, invert: bool) -> u16 {
        if self.succeeded() != invert {
            0
        } else {
            1
        }
    }

    /// Fold the status to success or failure; `true` swaps the two.
    pub fn invert(self, invert: bool) -> (r: Self)
        ensures
            r@ == self.spec_invert(invert),
    {
        if invert {
            Self { val: if self.val == Self::SUCCESS { Self::FAILURE } else { Self::SUCCESS } }
        } else {
            Self { val: if self.val == Self::SUCCESS { Self::SUCCESS } else { Self::FAILURE } }
        }
    }

    /// The status as a process hands it to its parent: the code modulo 256.
    pub fn cap(self) -> (r: u8)
        ensures
            r as int == self@ as int % 256,
    {
        (self.val % 256) as u8
    }

    /// The status of a truth value: success for `true`, failure for `false`.
    pub fn from_bool(value: bool) -> (r: Self)
        ensures
            r@ == (if value { 0u16 } else { 1u16 }),
    {
        if value {
            Self { val: Self::SUCCESS }
        } else {
            Self { val: Self::FAILURE }
        }
    }

    /// The status that a program leaves: its exit code modulo 256.
    pub fn from_exit_code(code: i32) -> (r: Self)
        ensures
            r@ as int == (code as int) % 256,
    {
        let low: u16 = #[verifier::truncate] (code as u16);
        assert((low % 256) as int == (code as int) % 256) by (bit_vector)
            requires
                low == code as u16,
        ;
        Self { val: low % 256 }
    }

    /// The status that a text writes: a decimal number that fits in sixteen
    /// bits, with or without a `+` in front.
    pub fn parse(s: &str) -> (r: Result<Self, ParseReturnCodeError>)
        ensures
            match r {
                Ok(code) => parse_number(s@, u16::MAX as nat) == Some(code@ as nat),
                Err(_) => parse_number(s@, u16::MAX as nat) is None,
            },
    {
        match parse_bounded(s, u16::MAX as u64) {
            Some(code) => Ok(ReturnCode { val: code as u16 }),
            None => Err(ParseReturnCodeError),
        }
    }

    /// The opposite outcome: failure for success, success for anything else.
    pub fn negate(self) -> (r: Self)
        ensures
            r@ == self.spec_invert(true),
    {
        if self.val == 0 {
            Self { val: Self::FAILURE }
        } else {
            Self { val: Self::SUCCESS }
        }
    }
}

impl From<bool> for ReturnCode {
    fn from(value: bool) -> (r: Self) {
        Self::from_bool(value)
    }
}

impl vstd::std_specs::convert::FromSpecImpl<bool> for ReturnCode {
    open spec fn obeys_from_spec() -> bool {
        true
    }

    open spec fn from_spec(value: bool) -> Self {
        ReturnCode { val: if value { 0u16 } else { 1u16 } }
    }
}

impl From<u16> for ReturnCode {
    fn from(value: u16) -> (r: Self) {
        Self { val: value }
    }
}

impl vstd::std_specs::convert::FromSpecImpl<u16> for ReturnCode {
    open spec fn obeys_from_spec() -> bool {
        true
    }

    open spec fn from_spec(value: u16) -> Self {
        ReturnCode { val: value }
    }
}

impl From<i32> for ReturnCode {
    /// The low sixteen bits of the number, as a process's exit code is read.
    fn from(value: i32) -> (r: Self) {
        Self { val: #[verifier::truncate] (value as u16) }
    }
}

impl vstd::std_specs::convert::FromSpecImpl<i32> for ReturnCode {
    open spec fn obeys_from_spec() -> bool {
        true
    }

    open spec fn from_spec(value: i32) -> Self {
        ReturnCode { val: value as u16 }
    }
}

impl core::str::FromStr for ReturnCode {
    type Err = ParseReturnCodeError;

    /// The status that a text writes: a decimal number that fits in sixteen
    /// bits, with or without a `+` in front; any other text is an error.
    fn from_str(s: &str) -> (r: Result<Self, ParseReturnCodeError>)
        ensures
            match r {
                Ok(code) => parse_number(s@, u16::MAX as nat) == Some(code@ as nat),
                Err(_) => parse_number(s@, u16::MAX as nat) is None,
            },
    {
        ReturnCode::parse(s)
    }
}

impl core::ops::Not for ReturnCode {
    type Output = ReturnCode;

    fn not(self) -> (r: ReturnCode) {
        self.negate()
    }
}

impl vstd::std_specs::ops::NotSpecImpl for ReturnCode {
    open spec fn obeys_not_spec() -> bool {
        true
    }

    open spec fn not_req(self) -> bool {
        true
    }

    open spec fn not_spec(self) -> ReturnCode {
        ReturnCode { val: self.spec_invert(true) }
    }
}

/// The law of the low sixteen bits: a number that fits is kept, and any
/// number is taken modulo 65536.
pub proof fn lemma_from_i32(value: i32)
    ensures
        0 <= value < 65536 ==> ReturnCode::from_spec(value)@ == value,
        ReturnCode::from_spec(value)@ as int == (value as int) % 65536,
{
    assert(0 <= value < 65536 ==> (value as u16) == value) by (bit_vector);
    assert((value as u16) as int == (value as int) % 65536) by (bit_vector);
}

/// What a statement leaves behind: a status with which the script goes on,
/// or one with which the shell is to leave at once.
#[derive(Debug, Copy, Clone, PartialEq, Eq, Structural)]
pub enum Verdict {
    /// The script goes on with this status.
    Continue(ReturnCode),
    /// The shell leaves at once with this status.
    Terminate(ReturnCode),
}

} // verus!
