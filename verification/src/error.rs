//! The checked error type and the error of its conversion.

use vstd::prelude::*;
use vstd::string::StringExecFns;

use crate::codes::{error_info_of, error_name_of, is_error_code, is_known_code, spec_error_info, spec_error_name};
use crate::decimal::{int_to_decimal, spec_int_decimal};

verus! {

/// The raw status code type of ESP-IDF.
#[allow(non_camel_case_types)]
pub type esp_err_t = i32;

/// An `i32` that is not zero.
#[derive(Clone, Copy, PartialEq, Eq, Structural, Debug)]
pub struct NonZeroI32(i32);

impl View for NonZeroI32 {
    type V = i32;

    /// The value.
    closed spec fn view(&self) -> i32 {
        self.0
    }
}

impl NonZeroI32 {
    #[verifier::type_invariant]
    spec fn non_zero(self) -> bool {
        self.0 != 0
    }

    /// `n` as a non-zero value, or `None` where `n` is 0.
    pub fn new(n: i32) -> (res: Option<NonZeroI32>)
        ensures
            res is Some <==> n != 0,
            res matches Some(v) ==> v@ == n,
    {
        if n != 0 {
            Some(NonZeroI32(n))
        } else {
            None
        }
    }

    /// The value, which is not zero.
    pub fn get(self) -> (n: i32)
        ensures
            n == self@,
            n != 0,
    {
        proof {
            use_type_invariant(&self);
        }
        self.0
    }
}

/// Why a raw status code could not become an [`IdfError`].
#[derive(Debug)]
pub enum IdfErrorError {
    /// The code was `ESP_OK` (0), which is success and no error.
    SuccessCodePassed,
    /// The code is non-zero but is none of the known error codes.
    InvalidErrorCode(NonZeroI32),
}

/// A known ESP-IDF error code.
#[derive(PartialEq, Eq, Structural, Debug)]
pub struct IdfError(i32);

impl View for IdfError {
    type V = i32;

    /// The raw error code.
    closed spec fn view(&self) -> i32 {
        self.0
    }
}

impl IdfError {
    #[verifier::type_invariant]
    spec fn well_formed(self) -> bool {
        is_error_code(self.0)
    }

    /// What converting the raw `code` gives: `SuccessCodePassed` for 0, the
    /// error for a known error code, and `InvalidErrorCode` for any other code.
    pub closed spec fn spec_from_code(code: esp_err_t) -> Result<IdfError, IdfErrorError> {
        if code == 0 {
            Err(IdfErrorError::SuccessCodePassed)
        } else if is_error_code(code) {
            Ok(IdfError(code))
        } else {
            Err(IdfErrorError::InvalidErrorCode(NonZeroI32(code)))
        }
    }

    /// Two errors with the same code are the same error.
    pub proof fn lemma_view_injective(a: IdfError, b: IdfError)
        ensures
            a@ == b@ <==> a == b,
    {
    }

    /// Converting the code of an error gives that same error back.
    pub proof fn lemma_code_round_trip(err: IdfError)
        requires
            is_error_code(err@),
        ensures
            IdfError::spec_from_code(err@) == Ok::<IdfError, IdfErrorError>(err),
    {
    }

    /// The raw error code.
    pub fn code(&self) -> (code: esp_err_t)
        ensures
            code == self@,
            is_error_code(code),
    {
        proof {
            use_type_invariant(self);
        }
        self.0
    }

    /// The symbolic name of the error, such as `ESP_ERR_NO_MEM`.
    pub fn error_name(&self) -> (name: &'static str)
        ensures
            spec_error_name(self@) == Some(name@),
    {
        proof {
            use_type_invariant(self);
        }
        error_name_of(self.0)
    }

    /// The description of the error: its name in brackets, a colon and what it means.
    pub fn error_info(&self) -> (info: &'static str)
        ensures
            spec_error_info(self@) == Some(info@),
    {
        proof {
            use_type_invariant(self);
        }
        error_info_of(self.0)
    }

    /// The text that displays the error: its description.
    pub fn to_string(&self) -> (text: String)
        ensures
            spec_error_info(self@) == Some(text@),
    {
        String::from_str(self.error_info())
    }
}

impl TryFrom<esp_err_t> for IdfError {
    type Error = IdfErrorError;

    /// Checks a raw status code: 0 is success and no error, a known error
    /// code becomes an `IdfError`, and any other code is invalid.
    fn try_from(code: esp_err_t) -> (res: Result<Self, Self::Error>)
        ensures
            match res {
                Ok(err) => err@ == code && is_error_code(code),
                Err(IdfErrorError::SuccessCodePassed) => code == 0,
                Err(IdfErrorError::InvalidErrorCode(c)) => c@ == code && code != 0 && !is_error_code(code),
            },
            res == IdfError::spec_from_code(code),
    {
        if code == 0 {
            Err(IdfErrorError::SuccessCodePassed)
        } else if is_known_code(code) {
            Ok(IdfError(code))
        } else {
            Err(IdfErrorError::InvalidErrorCode(NonZeroI32(code)))
        }
    }
}

impl vstd::std_specs::convert::TryFromSpecImpl<esp_err_t> for IdfError {
    open spec fn obeys_try_from_spec() -> bool {
        true
    }

    closed spec fn try_from_spec(code: esp_err_t) -> Result<Self, Self::Error> {
        IdfError::spec_from_code(code)
    }
}

impl IdfErrorError {
    /// The text that displays this error.
    pub open spec fn spec_display(self) -> Seq<char> {
        match self {
            IdfErrorError::SuccessCodePassed => "supplied exit code was ESP_OK"@,
            IdfErrorError::InvalidErrorCode(code) => "invalid error code: "@ + spec_int_decimal(code@ as int),
        }
    }

    /// The text that shows this error for debugging.
    pub open spec fn spec_debug(self) -> Seq<char> {
        match self {
            IdfErrorError::SuccessCodePassed =>
                "recieved an esp-idf success exit code (0) when an error code was expected"@,
            IdfErrorError::InvalidErrorCode(code) =>
                "recieved an invalid esp-idf error code: "@ + spec_int_decimal(code@ as int),
        }
    }

    /// The text that displays this error.
    pub fn to_string(&self) -> (text: String)
        ensures
            text@ == self.spec_display(),
    {
        match self {
            IdfErrorError::SuccessCodePassed => String::from_str("supplied exit code was ESP_OK"),
            IdfErrorError::InvalidErrorCode(code) => {
                let mut text = String::from_str("invalid error code: ");
                let digits = int_to_decimal(code.get());
                text.append(digits.as_str());
                text
            },
        }
    }

    /// The text that shows this error for debugging.
    pub fn debug_string(&self) -> (text: String)
        ensures
            text@ == self.spec_debug(),
    {
        match self {
            IdfErrorError::SuccessCodePassed => String::from_str(
                "recieved an esp-idf success exit code (0) when an error code was expected",
            ),
            IdfErrorError::InvalidErrorCode(code) => {
                let mut text = String::from_str("recieved an invalid esp-idf error code: ");
                let digits = int_to_decimal(code.get());
                text.append(digits.as_str());
                text
            },
        }
    }
}

} // verus!
