//! The error type of the pipeline and the reports made from it.

use vstd::prelude::*;

use crate::text::{
    is_digit, law_numbers_read_back, lemma_width, number_in, number_text, push_number, push_str,
};

verus! {

/// What went wrong, and in which component.
#[derive(Debug)]
pub enum WincapError {
    /// An operating-system call returned a failure code.
    HResult { component: &'static str, hr: i32, context: String },
    /// A condition of the pipeline itself was not met.
    General { component: &'static str, message: String },
}

/// The contents of a `WincapError` as mathematical values.
pub enum ErrorModel {
    HResult { component: Seq<char>, hr: i32, context: Seq<char> },
    General { component: Seq<char>, message: Seq<char> },
}

pub type WincapResult<T> = Result<T, WincapError>;

/// An error in the shape in which it is handed to an error callback.
#[derive(Debug)]
pub struct ErrorPayload {
    pub component: String,
    pub hresult: i32,
    pub message: String,
}

/// The contents of an `ErrorPayload` as mathematical values.
pub struct PayloadModel {
    pub component: Seq<char>,
    pub hresult: i32,
    pub message: Seq<char>,
}

impl View for WincapError {
    type V = ErrorModel;

    open spec fn view(&self) -> ErrorModel {
        match *self {
            WincapError::HResult { component, hr, context } => ErrorModel::HResult {
                component: component@,
                hr,
                context: context@,
            },
            WincapError::General { component, message } => ErrorModel::General {
                component: component@,
                message: message@,
            },
        }
    }
}

impl View for ErrorPayload {
    type V = PayloadModel;

    open spec fn view(&self) -> PayloadModel {
        PayloadModel {
            component: self.component@,
            hresult: self.hresult,
            message: self.message@,
        }
    }
}

/// The 32 bits of a result code read as an unsigned number.
pub open spec fn code_bits(hr: i32) -> nat {
    if hr < 0 {
        (hr + 0x1_0000_0000) as nat
    } else {
        hr as nat
    }
}

impl ErrorModel {
    /// The text that describes the error to a person.
    pub open spec fn text(self) -> Seq<char> {
        match self {
            ErrorModel::HResult { component, hr, context } => component + ": HRESULT 0x"@
                + number_text(code_bits(hr), 16, 8, true) + " \u{2014} "@ + context,
            ErrorModel::General { component, message } => component + ": "@ + message,
        }
    }

    /// The report that an error callback receives: the code is zero where no
    /// operating-system call failed.
    pub open spec fn payload(self) -> PayloadModel {
        match self {
            ErrorModel::HResult { component, hr, context } => PayloadModel {
                component,
                hresult: hr,
                message: context,
            },
            ErrorModel::General { component, message } => PayloadModel {
                component,
                hresult: 0,
                message,
            },
        }
    }
}

/// What is reported of an error: its report where anybody listens, else nothing.
pub open spec fn report_to(listening: bool, e: ErrorModel) -> Option<PayloadModel> {
    if listening {
        Some(e.payload())
    } else {
        None
    }
}

/// The contents of a report that may be missing.
pub open spec fn report_view(report: Option<ErrorPayload>) -> Option<PayloadModel> {
    match report {
        Some(p) => Some(p@),
        None => None,
    }
}

/// The bits of a signed result code as an unsigned number.
pub fn unsigned_code(hr: i32) -> (bits: u32)
    ensures
        bits == code_bits(hr),
{
    let bits: u32 = hr as u32;
    assert(hr >= 0 ==> bits == hr) by (bit_vector)
        requires
            bits == hr as u32,
    ;
    assert(hr < 0 ==> bits == hr + 0x1_0000_0000) by (bit_vector)
        requires
            bits == hr as u32,
    ;
    bits
}

/// A declaration of the error type of the `windows-core` crate.
#[verifier::external_type_specification]
#[verifier::external_body]
pub struct ExWindowsError(windows_core::Error);

/// The result code that `windows_core::Error::code` reads out of an error.
pub uninterp spec fn windows_error_code(e: windows_core::Error) -> i32;

/// Calls `windows_core::Error::code`: the result code stored in the error.
#[verifier::external_body]
fn read_code(e: &windows_core::Error) -> (hr: i32)
    ensures
        hr == windows_error_code(*e),
{
    e.code().0
}

/// Calls `windows_core::Error::message`. Which words come back rests on the
/// error's attached information object and on the system's language, so
/// nothing is claimed of them.
#[verifier::external_body]
fn read_message(e: &windows_core::Error) -> (message: String) {
    e.message()
}

/// Calls `windows_core::HRESULT::is_err`: a code is a failure exactly when it
/// is negative.
#[verifier::external_body]
pub(crate) fn hresult_is_err(hr: i32) -> (failed: bool)
    ensures
        failed == (hr < 0),
{
    windows_core::HRESULT(hr).is_err()
}

impl WincapError {
    /// The error made of a code and the words that the system gave for it.
    pub fn from_code_and_message(hr: i32, message: String) -> (e: Self)
        ensures
            e@ == (ErrorModel::HResult {
                component: "windows"@,
                hr,
                context: message@,
            }),
    {
        WincapError::HResult { component: "windows", hr, context: message }
    }

    /// An error of the pipeline itself.
    pub fn general(component: &'static str, message: &str) -> (e: Self)
        ensures
            e@ == (ErrorModel::General { component: component@, message: message@ }),
    {
        WincapError::General { component, message: message.to_owned() }
    }

    /// An error of an operating-system call.
    pub fn hresult(component: &'static str, hr: i32, context: &str) -> (e: Self)
        ensures
            e@ == (ErrorModel::HResult { component: component@, hr, context: context@ }),
    {
        WincapError::HResult { component, hr, context: context.to_owned() }
    }

    /// The text that describes the error to a person.
    pub fn to_string(&self) -> (s: String)
        ensures
            s@ == self@.text(),
    {
        let mut s = String::new();
        match self {
            WincapError::HResult { component, hr, context } => {
                push_str(&mut s, component);
                push_str(&mut s, ": HRESULT 0x");
                push_number(&mut s, unsigned_code(*hr) as u64, 16, 8, true);
                push_str(&mut s, " \u{2014} ");
                push_str(&mut s, context.as_str());
            },
            WincapError::General { component, message } => {
                push_str(&mut s, component);
                push_str(&mut s, ": ");
                push_str(&mut s, message.as_str());
            },
        }
        assert(s@ =~= self@.text());
        s
    }

    /// The report for an error callback.
    pub fn report(&self) -> (p: ErrorPayload)
        ensures
            p@ == self@.payload(),
    {
        match self {
            WincapError::HResult { component, hr, context } => ErrorPayload {
                component: (*component).to_owned(),
                hresult: *hr,
                message: context.as_str().to_owned(),
            },
            WincapError::General { component, message } => ErrorPayload {
                component: (*component).to_owned(),
                hresult: 0,
                message: message.as_str().to_owned(),
            },
        }
    }
}

impl From<windows_core::Error> for WincapError {
    fn from(e: windows_core::Error) -> (r: Self)
        ensures
            r@ matches ErrorModel::HResult { component, hr, .. } && component == "windows"@ && hr
                == windows_error_code(e),
    {
        WincapError::from_code_and_message(read_code(&e), read_message(&e))
    }
}

impl vstd::std_specs::convert::FromSpecImpl<windows_core::Error> for WincapError {
    open spec fn obeys_from_spec() -> bool {
        false
    }

    open spec fn from_spec(e: windows_core::Error) -> Self {
        choose|r: WincapError| (#[trigger] r@) is HResult
    }
}

/// Hands on the value of a call that succeeded, and turns the code of one that
/// failed into an error of the given component.
pub fn hr_call<T>(component: &'static str, result: Result<T, i32>, context: &str) -> (r:
    WincapResult<T>)
    ensures
        match result {
            Ok(v) => r == Ok::<T, WincapError>(v),
            Err(hr) => r matches Err(e) && e@ == (ErrorModel::HResult {
                component: component@,
                hr,
                context: context@,
            }),
        },
{
    match result {
        Ok(v) => Ok(v),
        Err(hr) => Err(WincapError::hresult(component, hr, context)),
    }
}

/// Hands on the object that a call left in its out-parameter; a call that
/// succeeded without leaving one is an error of the given component.
pub fn require_some<T>(component: &'static str, value: Option<T>, message: &str) -> (r:
    WincapResult<T>)
    ensures
        match value {
            Some(v) => r == Ok::<T, WincapError>(v),
            None => r matches Err(e) && e@ == (ErrorModel::General {
                component: component@,
                message: message@,
            }),
        },
{
    match value {
        Some(v) => Ok(v),
        None => Err(WincapError::general(component, message)),
    }
}

/// The bits of a code are the code itself up to a multiple of 2 to the power of 32,
/// so two codes with the same bits are the same.
pub proof fn law_codes_keep_their_bits(hr: i32, other: i32)
    ensures
        code_bits(hr) < 0x1_0000_0000,
        (code_bits(hr) - hr) % 0x1_0000_0000 == 0,
        code_bits(hr) == code_bits(other) ==> hr == other,
{
}

/// The text of an error starts with its component. Of a failed call it gives the
/// code in eight hexadecimal digits and ends with the context; of any other error it
/// ends with the message.
pub proof fn law_texts_tell_everything(e: ErrorModel)
    ensures
        match e {
            ErrorModel::HResult { component, hr, context } => {
                let n = component.len() as int;
                let code = e.text().subrange(n + 12, n + 20);
                &&& e.text() == component + ": HRESULT 0x"@ + code + " \u{2014} "@ + context
                &&& (number_in(code, 16) - hr) % 0x1_0000_0000 == 0
                &&& forall|i: int| 0 <= i < 8 ==> is_digit(#[trigger] code[i], true)
            },
            ErrorModel::General { component, message } => e.text() == component + ": "@ + message,
        },
{
    if let ErrorModel::HResult { component, hr, context } = e {
        let n = component.len() as int;
        let code = number_text(code_bits(hr), 16, 8, true);
        reveal_strlit(": HRESULT 0x");
        law_numbers_read_back(code_bits(hr), 16, 8, true);
        assert(vstd::arithmetic::power::pow(16, 8) == 0x1_0000_0000) by {
            reveal_with_fuel(vstd::arithmetic::power::pow, 9);
        }
        lemma_width(code_bits(hr), 16, 8);
        assert(e.text().subrange(n + 12, n + 20) =~= code);
    }
}

/// The report of an error holds its component and its words, and the code of the
/// call that failed, or zero where none did.
pub proof fn law_reports_hold_the_error(e: ErrorModel)
    ensures
        match e {
            ErrorModel::HResult { component, hr, context } => {
                &&& e.payload().component == component
                &&& e.payload().hresult == hr
                &&& e.payload().message == context
            },
            ErrorModel::General { component, message } => {
                &&& e.payload().component == component
                &&& e.payload().hresult == 0
                &&& e.payload().message == message
            },
        },
{
}

/// An error is reported exactly if anybody listens, with its own component, code and words.
pub proof fn law_listeners_get_the_report(listening: bool, e: ErrorModel)
    ensures
        report_to(listening, e) is Some <==> listening,
        report_to(listening, e) matches Some(p) ==> match e {
            ErrorModel::HResult { component, hr, context } => {
                &&& p.component == component
                &&& p.hresult == hr
                &&& p.message == context
            },
            ErrorModel::General { component, message } => {
                &&& p.component == component
                &&& p.hresult == 0
                &&& p.message == message
            },
        },
{
}

} // verus!
