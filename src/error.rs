//! Error taxonomy: general decode failures, capabilities a layer does not
//! offer, and checksum verification failures.
use vstd::prelude::*;

verus! {

/// Relies on std's `Backtrace::capture` and its `Debug` output: a text
/// describing the call stack, whose content depends on the environment.
#[verifier::external_body]
fn capture_trace() -> (r: String) {
    format!("{:?}", std::backtrace::Backtrace::capture())
}

/// Errors that carry a stack trace.
pub trait Backtraceable {
    /// The text of the stack trace captured when the error was made.
    fn backtrace(&self) -> &str;
}

/// Errors made of a message and an optional cause.
pub trait ErrorDecodeable: Sized {
    /// Makes an error with the given message and cause.
    fn new(message: &str, source: Option<Box<PacketError>>) -> Self;

    /// The message the error was made with.
    fn message(&self) -> &str;
}

/// `message`, then a line that introduces the stack trace, then the trace.
pub open spec fn rendered(message: Seq<char>, trace: Seq<char>) -> Seq<char> {
    message + "\nStack trace:\n"@ + trace
}

fn render(message: &String, trace: &String) -> (r: String)
    ensures
        r@ == rendered(message@, trace@),
{
    let mut s = message.clone();
    s.append("\nStack trace:\n");
    s.append(trace.as_str());
    s
}

/// A general decode failure.
#[derive(Debug)]
pub struct DecodeError {
    pub message: String,
    pub stack_trace: String,
    pub source: Option<Box<PacketError>>,
}

/// The error that `next_decoder` returns when no layer was added yet.
pub type NoLastLayerError = DecodeError;

impl ErrorDecodeable for DecodeError {
    fn new(message: &str, source: Option<Box<PacketError>>) -> (r: Self)
        ensures
            r.message@ == message@,
            r.source == source,
    {
        DecodeError { message: message.to_owned(), stack_trace: capture_trace(), source }
    }

    fn message(&self) -> (r: &str)
        ensures
            r@ == self.message@,
    {
        self.message.as_str()
    }
}

impl Backtraceable for DecodeError {
    fn backtrace(&self) -> (r: &str)
        ensures
            r@ == self.stack_trace@,
    {
        self.stack_trace.as_str()
    }
}

impl DecodeError {
    /// The message followed by the stack trace.
    pub fn to_string(&self) -> (r: String)
        ensures
            r@ == rendered(self.message@, self.stack_trace@),
    {
        render(&self.message, &self.stack_trace)
    }
}

/// A capability that a layer deliberately does not offer.
#[derive(Debug)]
pub struct MethodNotImplementedError {
    pub message: String,
    pub stack_trace: String,
    pub source: Option<Box<PacketError>>,
}

impl ErrorDecodeable for MethodNotImplementedError {
    fn new(message: &str, source: Option<Box<PacketError>>) -> (r: Self)
        ensures
            r.message@ == message@,
            r.source == source,
    {
        MethodNotImplementedError {
            message: message.to_owned(),
            stack_trace: capture_trace(),
            source,
        }
    }

    fn message(&self) -> (r: &str)
        ensures
            r@ == self.message@,
    {
        self.message.as_str()
    }
}

impl Backtraceable for MethodNotImplementedError {
    fn backtrace(&self) -> (r: &str)
        ensures
            r@ == self.stack_trace@,
    {
        self.stack_trace.as_str()
    }
}

impl MethodNotImplementedError {
    /// The message followed by the stack trace.
    pub fn to_string(&self) -> (r: String)
        ensures
            r@ == rendered(self.message@, self.stack_trace@),
    {
        render(&self.message, &self.stack_trace)
    }
}

/// A failure of checksum verification itself.
#[derive(Debug)]
pub struct VerifyChecksumError {
    pub message: String,
    pub stack_trace: String,
    pub source: Option<Box<PacketError>>,
}

impl ErrorDecodeable for VerifyChecksumError {
    fn new(message: &str, source: Option<Box<PacketError>>) -> (r: Self)
        ensures
            r.message@ == message@,
            r.source == source,
    {
        VerifyChecksumError { message: message.to_owned(), stack_trace: capture_trace(), source }
    }

    fn message(&self) -> (r: &str)
        ensures
            r@ == self.message@,
    {
        self.message.as_str()
    }
}

impl Backtraceable for VerifyChecksumError {
    fn backtrace(&self) -> (r: &str)
        ensures
            r@ == self.stack_trace@,
    {
        self.stack_trace.as_str()
    }
}

impl VerifyChecksumError {
    /// The message followed by the stack trace.
    pub fn to_string(&self) -> (r: String)
        ensures
            r@ == rendered(self.message@, self.stack_trace@),
    {
        render(&self.message, &self.stack_trace)
    }
}

/// Any of the library's errors.
#[derive(Debug)]
pub enum PacketError {
    Decode(DecodeError),
    MethodNotImplemented(MethodNotImplementedError),
    VerifyChecksum(VerifyChecksumError),
}

impl From<DecodeError> for PacketError {
    fn from(error: DecodeError) -> (r: Self) {
        PacketError::Decode(error)
    }
}

impl vstd::std_specs::convert::FromSpecImpl<DecodeError> for PacketError {
    open spec fn obeys_from_spec() -> bool {
        true
    }

    open spec fn from_spec(v: DecodeError) -> PacketError {
        PacketError::Decode(v)
    }
}

impl From<MethodNotImplementedError> for PacketError {
    fn from(error: MethodNotImplementedError) -> (r: Self) {
        PacketError::MethodNotImplemented(error)
    }
}

impl vstd::std_specs::convert::FromSpecImpl<MethodNotImplementedError> for PacketError {
    open spec fn obeys_from_spec() -> bool {
        true
    }

    open spec fn from_spec(v: MethodNotImplementedError) -> PacketError {
        PacketError::MethodNotImplemented(v)
    }
}

impl From<VerifyChecksumError> for PacketError {
    fn from(error: VerifyChecksumError) -> (r: Self) {
        PacketError::VerifyChecksum(error)
    }
}

impl vstd::std_specs::convert::FromSpecImpl<VerifyChecksumError> for PacketError {
    open spec fn obeys_from_spec() -> bool {
        true
    }

    open spec fn from_spec(v: VerifyChecksumError) -> PacketError {
        PacketError::VerifyChecksum(v)
    }
}

/// The name of the error's kind, a colon, then the error's own text.
pub open spec fn packet_error_text(e: PacketError) -> Seq<char> {
    match e {
        PacketError::Decode(d) => "DecodeError: "@ + rendered(d.message@, d.stack_trace@),
        PacketError::MethodNotImplemented(m) => "MethodNotImplementedError: "@ + rendered(
            m.message@,
            m.stack_trace@,
        ),
        PacketError::VerifyChecksum(v) => "VerifyChecksumError: "@ + rendered(
            v.message@,
            v.stack_trace@,
        ),
    }
}

impl PacketError {
    /// The error's kind followed by its message and stack trace.
    pub fn to_string(&self) -> (r: String)
        ensures
            r@ == packet_error_text(*self),
    {
        let (mut s, inner) = match self {
            PacketError::Decode(e) => ("DecodeError: ".to_owned(), e.to_string()),
            PacketError::MethodNotImplemented(e) => (
                "MethodNotImplementedError: ".to_owned(),
                e.to_string(),
            ),
            PacketError::VerifyChecksum(e) => ("VerifyChecksumError: ".to_owned(), e.to_string()),
        };
        s.append(inner.as_str());
        s
    }
}

} // verus!
