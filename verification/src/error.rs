use vstd::prelude::*;
use vstd::string::StringExecFns;

verus! {

/// Result type used throughout the library.
pub type KubeResult<T> = Result<T, KubeError>;

/// Error type used throughout the library: a closed taxonomy of the two
/// failure kinds a fallible operation can report, so that callers can match
/// exhaustively. Each variant carries the underlying failure's message.
#[derive(Debug)]
pub enum KubeError {
    /// A codec failure (for example malformed JSON); carries the codec's own
    /// message for display.
    Json(String),
    /// An I/O failure; carries the OS-level error's message as its cause.
    Io(String),
}

/// `serde_json::Error` appears in conversion signatures; it is opaque here.
#[verifier::external_type_specification]
#[verifier::external_body]
pub struct ExSerdeJsonError(serde_json::Error);

/// Relies on the `Display` impl of `serde_json::Error` (through `ToString`)
/// to render the codec failure's own message.
#[verifier::external_body]
fn json_error_text(e: &serde_json::Error) -> String {
    e.to_string()
}

/// `std::io::Error` appears in conversion signatures; it is opaque here.
#[verifier::external_type_specification]
#[verifier::external_body]
pub struct ExIoError(std::io::Error);

/// Relies on the `Display` impl of `std::io::Error` (through `ToString`)
/// to render the OS-level error's message.
#[verifier::external_body]
fn io_error_text(e: &std::io::Error) -> String {
    e.to_string()
}

impl KubeError {
    /// The display string of an error: the failure kind's prefix followed by
    /// the underlying cause's message.
    pub open spec fn spec_message(self) -> Seq<char> {
        match self {
            KubeError::Json(m) => "JSON coding error: "@ + m@,
            KubeError::Io(m) => "I/O error: "@ + m@,
        }
    }

    /// Human-readable message embedding the underlying cause's message.
    pub fn message(&self) -> (r: String)
        ensures
            r@ == self.spec_message(),
    {
        match self {
            KubeError::Json(m) => String::from_str("JSON coding error: ").concat(m.as_str()),
            KubeError::Io(m) => String::from_str("I/O error: ").concat(m.as_str()),
        }
    }

    /// Conversion from a codec failure: the construction path for the codec
    /// kind, preserving the codec's message.
    pub fn from_json_error(e: serde_json::Error) -> (r: KubeError)
        ensures
            r is Json,
    {
        KubeError::Json(json_error_text(&e))
    }

    /// Conversion from an I/O failure: the construction path for the I/O
    /// kind, preserving the OS error's message.
    pub fn from_io_error(e: std::io::Error) -> (r: KubeError)
        ensures
            r is Io,
    {
        KubeError::Io(io_error_text(&e))
    }
}

} // verus!
