//! The error type surfaced by every fallible operation.
use vstd::prelude::*;

use crate::error_codes::{code_name as table_code_name, engine_code_name, names};
use crate::text::{
    alternate_hex, padded_hex, push_alternate_hex, push_padded_hex, push_signed_decimal, push_text,
    signed_decimal, string_from_chars,
};

verus! {

/// An error from a TestStand COM operation.
///
/// Engine failures are reported by name where the engine defines one, so a
/// caller is not left decoding a bare number.
#[derive(Debug)]
#[non_exhaustive]
pub enum Error {
    /// The engine raised a failure it has a name for.
    Engine {
        /// The engine error code.
        code: i32,
        /// The dispatch id of the member that failed, or `0` when the failure
        /// did not come from a member call.
        dispid: i32,
    },
    /// A COM call failed with a code the engine does not name: a standard
    /// Windows `HRESULT`, or a code newer than the table.
    Com {
        /// The 32-bit `HRESULT`.
        hresult: i32,
        /// The dispatch id of the member that failed, or `0`.
        dispid: i32,
    },
    /// A returned value was not the type the caller expected.
    UnexpectedType {
        /// The type the caller asked for.
        expected: &'static str,
        /// The type actually returned.
        actual: &'static str,
    },
    /// The engine did not grant a license.
    NoLicense,
    /// The engine reported a license value this build does not name.
    UnknownLicenseType {
        /// The raw value.
        bits: i32,
    },
}

impl Error {
    /// The numeric code an error carries, when it came from COM.
    pub open spec fn numeric_code(self) -> Option<i32> {
        match self {
            Error::Engine { code, .. } => Some(code),
            Error::Com { hresult, .. } => Some(hresult),
            _ => None,
        }
    }

    /// How an `HRESULT` raised by a member is classified: as an engine error
    /// when the engine names the code, as an opaque COM error otherwise.
    pub open spec fn classified(code: i32, dispid: i32) -> Error {
        if engine_code_name(code) is Some {
            Error::Engine { code, dispid }
        } else {
            Error::Com { hresult: code, dispid }
        }
    }

    /// Classifies a failed COM call by its `HRESULT` and the dispatch id of the
    /// member that raised it.
    ///
    /// Routes to [`Error::Engine`] only when the engine actually names the
    /// code, so [`Error::Com`] stays honest about being an opaque `HRESULT`.
    pub fn from_hresult(code: i32, dispid: i32) -> (error: Error)
        ensures
            error == Error::classified(code, dispid),
    {
        if table_code_name(code).is_some() {
            Error::Engine { code, dispid }
        } else {
            Error::Com { hresult: code, dispid }
        }
    }

    /// The engine's name for this error, when it has one.
    ///
    /// `None` for plain Windows `HRESULT`s and for every error that carries
    /// no code.
    pub fn code_name(&self) -> (name: Option<&'static str>)
        ensures
            names(
                name,
                match self.numeric_code() {
                    Some(code) => engine_code_name(code),
                    None => None,
                },
            ),
    {
        match self {
            Error::Engine { code, .. } => table_code_name(*code),
            Error::Com { hresult, .. } => table_code_name(*hresult),
            _ => None,
        }
    }

    /// The underlying numeric code, when the failure came from COM.
    pub fn code(&self) -> (code: Option<i32>)
        ensures
            code == self.numeric_code(),
    {
        match self {
            Error::Engine { code, .. } => Some(*code),
            Error::Com { hresult, .. } => Some(*hresult),
            _ => None,
        }
    }
}

/// The tail naming the member that failed: nothing when the failure did not
/// come from a member call, since a dangling "from DISPID 0x0" would be noise.
pub open spec fn dispid_suffix(dispid: i32) -> Seq<char> {
    if dispid != 0 {
        " from DISPID "@ + alternate_hex(dispid)
    } else {
        Seq::<char>::empty()
    }
}

/// How an engine error opens: by the engine's name for the code where it has
/// one, by the number otherwise.
pub open spec fn engine_headline(code: i32) -> Seq<char> {
    match engine_code_name(code) {
        Some(name) => "engine error "@ + name + " ("@ + signed_decimal(code as int) + ")"@,
        None => "engine error "@ + signed_decimal(code as int),
    }
}

/// The message for an error, as a person reads it.
pub open spec fn error_message(error: Error) -> Seq<char> {
    match error {
        Error::Engine { code, dispid } => engine_headline(code) + dispid_suffix(dispid),
        Error::Com { hresult, dispid } => "COM call failed (HRESULT "@ + padded_hex(hresult) + ")"@
            + dispid_suffix(dispid),
        Error::UnexpectedType { expected, actual } => "unexpected value type: expected "@
            + expected@ + ", got "@ + actual@,
        Error::NoLicense => "no license could be acquired"@,
        Error::UnknownLicenseType { bits } => "unknown license type "@ + signed_decimal(
            bits as int,
        ),
    }
}

fn push_dispid_suffix(out: &mut Vec<char>, dispid: i32)
    ensures
        final(out)@ == old(out)@ + dispid_suffix(dispid),
{
    if dispid != 0 {
        push_text(out, " from DISPID ");
        push_alternate_hex(out, dispid);
    } else {
        assert(out@ =~= out@ + Seq::<char>::empty());
    }
}

impl Error {
    /// The message a person reads for this error: the engine's name for the
    /// code where it has one, the number otherwise, and the member that
    /// refused when the failure came from a member call.
    pub fn message(&self) -> (message: String)
        ensures
            message@ == error_message(*self),
    {
        let mut out: Vec<char> = Vec::new();
        match self {
            Error::Engine { code, dispid } => {
                push_text(&mut out, "engine error ");
                match table_code_name(*code) {
                    Some(name) => {
                        push_text(&mut out, name);
                        push_text(&mut out, " (");
                        push_signed_decimal(&mut out, *code);
                        push_text(&mut out, ")");
                    },
                    None => {
                        push_signed_decimal(&mut out, *code);
                    },
                }
                push_dispid_suffix(&mut out, *dispid);
            },
            Error::Com { hresult, dispid } => {
                push_text(&mut out, "COM call failed (HRESULT ");
                push_padded_hex(&mut out, *hresult);
                push_text(&mut out, ")");
                push_dispid_suffix(&mut out, *dispid);
            },
            Error::UnexpectedType { expected, actual } => {
                push_text(&mut out, "unexpected value type: expected ");
                push_text(&mut out, expected);
                push_text(&mut out, ", got ");
                push_text(&mut out, actual);
            },
            Error::NoLicense => {
                push_text(&mut out, "no license could be acquired");
            },
            Error::UnknownLicenseType { bits } => {
                push_text(&mut out, "unknown license type ");
                push_signed_decimal(&mut out, *bits);
            },
        }
        assert(out@ =~= error_message(*self));
        string_from_chars(out)
    }
}

/// Classifying an `HRESULT` keeps its code: the classified error reports the
/// number it was built from, and it is named exactly when it is an engine
/// error.
pub proof fn lemma_classification_keeps_the_code(code: i32, dispid: i32)
    ensures
        Error::classified(code, dispid).numeric_code() == Some(code),
        (Error::classified(code, dispid) is Engine) <==> engine_code_name(code) is Some,
{
}

} // verus!
