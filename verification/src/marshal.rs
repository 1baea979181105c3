//! The formats of the user files and the errors that reading them can end in.
use vstd::prelude::*;

verus! {

/// The formats in which a user and its sites are written to a file.
#[allow(non_camel_case_types)]
#[derive(Clone, Copy, Debug, PartialEq, Eq, Structural)]
pub enum MarshalFormat {
    flat,
    json,
}

impl MarshalFormat {
    /// The numeric code of the format in the algorithm's interface.
    pub open spec fn code(self) -> u32 {
        match self {
            MarshalFormat::flat => 1,
            MarshalFormat::json => 2,
        }
    }

    /// The numeric code of the format.
    pub fn to_u32(&self) -> (r: u32)
        ensures
            r == self.code(),
    {
        match self {
            MarshalFormat::flat => 1,
            MarshalFormat::json => 2,
        }
    }
}

/// The name of the format with numeric code `format`: 0 is no format, 1 the flat format
/// and 2 JSON.
pub open spec fn format_name(format: u32) -> Seq<char> {
    if format == 0 {
        "none"@
    } else if format == 1 {
        "flat"@
    } else {
        "JSON"@
    }
}

/// The name of the format with numeric code `format`, such as "JSON" for 2.
pub fn name_for_format(format: u32) -> (r: String)
    requires
        format <= 2,
    ensures
        r@ == format_name(format),
{
    if format == 0 {
        String::from_str("none")
    } else if format == 1 {
        String::from_str("flat")
    } else {
        String::from_str("JSON")
    }
}

/// Reading the user file succeeded.
#[allow(non_upper_case_globals)]
pub const SpectreMarshalSuccess: u32 = 0;

/// An error in the structure of the user file interrupted reading it.
#[allow(non_upper_case_globals)]
pub const SpectreMarshalErrorStructure: u32 = 1;

/// The user file uses an unsupported format version.
#[allow(non_upper_case_globals)]
pub const SpectreMarshalErrorFormat: u32 = 2;

/// A required value is missing or not specified.
#[allow(non_upper_case_globals)]
pub const SpectreMarshalErrorMissing: u32 = 3;

/// The given user secret is not valid.
#[allow(non_upper_case_globals)]
pub const SpectreMarshalErrorUserSecret: u32 = 4;

/// An illegal value was specified.
#[allow(non_upper_case_globals)]
pub const SpectreMarshalErrorIllegal: u32 = 5;

/// An internal system error interrupted reading or writing.
#[allow(non_upper_case_globals)]
pub const SpectreMarshalErrorInternal: u32 = 6;

/// What reading or writing a user file ended in: the numeric error type and the message
/// that came with it.
pub struct MarshalError {
    pub type_: u32,
    pub message: String,
}

/// Declares std's `std::io::Error`, which a failed file operation hands back.
#[verifier::external_type_specification]
#[verifier::external_body]
pub struct ExIoError(std::io::Error);

/// Why a user file could not be read: the file itself, or its contents.
pub enum FileMarshalReadError {
    File(std::io::Error),
    Marshal(MarshalError),
}

/// The message shown to the user for a numeric marshalling error type; none for a type
/// that the algorithm does not define.
pub open spec fn marshal_error_text(error_type: u32) -> Option<Seq<char>> {
    if error_type == SpectreMarshalSuccess {
        Some("success"@)
    } else if error_type == SpectreMarshalErrorStructure {
        Some("An error in the structure of the marshall file interrupted marshalling."@)
    } else if error_type == SpectreMarshalErrorFormat {
        Some("The marshall file uses an unsupported format version."@)
    } else if error_type == SpectreMarshalErrorMissing {
        Some("A required value is missing or not specified."@)
    } else if error_type == SpectreMarshalErrorUserSecret {
        Some("The given user secret is not valid."@)
    } else if error_type == SpectreMarshalErrorIllegal {
        Some("An illegal value was specified."@)
    } else if error_type == SpectreMarshalErrorInternal {
        Some("An internal system error interrupted marshalling."@)
    } else {
        None
    }
}

/// The message shown to the user for a numeric marshalling error type, or `None` for a
/// type that the algorithm does not define.
pub fn marshal_error_message(error_type: u32) -> (r: Option<&'static str>)
    ensures
        r is Some <==> error_type <= SpectreMarshalErrorInternal,
        r matches Some(m) ==> marshal_error_text(error_type) == Some(m@),
        r is None ==> marshal_error_text(error_type) is None,
{
    if error_type == SpectreMarshalSuccess {
        Some("success")
    } else if error_type == SpectreMarshalErrorStructure {
        Some("An error in the structure of the marshall file interrupted marshalling.")
    } else if error_type == SpectreMarshalErrorFormat {
        Some("The marshall file uses an unsupported format version.")
    } else if error_type == SpectreMarshalErrorMissing {
        Some("A required value is missing or not specified.")
    } else if error_type == SpectreMarshalErrorUserSecret {
        Some("The given user secret is not valid.")
    } else if error_type == SpectreMarshalErrorIllegal {
        Some("An illegal value was specified.")
    } else if error_type == SpectreMarshalErrorInternal {
        Some("An internal system error interrupted marshalling.")
    } else {
        None
    }
}

impl FileMarshalReadError {
    /// The message that the user is shown for the error: for an error in the file's
    /// contents the message of its error type; none for an error of the file itself or an
    /// error type that the algorithm does not define, on which the program stops.
    pub fn user_message(&self) -> (r: Option<&'static str>)
        ensures
            match self {
                FileMarshalReadError::File(_) => r is None,
                FileMarshalReadError::Marshal(e) => (r matches Some(m) ==> marshal_error_text(
                    e.type_,
                ) == Some(m@)) && (r is None <==> marshal_error_text(e.type_) is None),
            },
    {
        match self {
            FileMarshalReadError::File(_) => None,
            FileMarshalReadError::Marshal(e) => marshal_error_message(e.type_),
        }
    }
}

} // verus!
