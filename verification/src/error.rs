//! Error values returned by option validation, message conversion and the
//! response layer. Every validation failure is a typed, recoverable value;
//! only broken lifetime contracts of the session model are treated as fatal
//! by callers.

use vstd::prelude::*;

use crate::protocol::{CoapMessageType, CoapOptionType};

verus! {

/// Failure to decode or encode a single option value.
#[derive(Clone, Copy, Debug, PartialEq, Eq, Structural)]
pub enum OptionValueError {
    /// The value has fewer bytes than the option admits.
    TooShort,
    /// The value has more bytes than the option admits.
    TooLong,
    /// The value is structurally illegal for the option.
    IllegalValue,
    /// The value of a text option is not valid UTF-8.
    StringConversion,
}

/// Failure to convert between an envelope and a native message, or to decode
/// an envelope into a response.
#[derive(Clone, Copy, Debug, PartialEq, Eq, Structural)]
pub enum MessageConversionError {
    /// The envelope has no message id, which wire conversion requires.
    MissingMessageId,
    /// The envelope has no token slot, which wire conversion requires even
    /// for a zero-length token.
    MissingToken,
    /// The envelope carries a payload although its code is empty.
    DataInEmptyMessage,
    /// An option that appears at most once appeared twice.
    NonRepeatableOptionRepeated(CoapOptionType),
    /// An option that is not applicable to this kind of message appeared.
    InvalidOptionForMessageType(CoapOptionType),
    /// An option value could not be decoded or encoded.
    InvalidOptionValue(Option<CoapOptionType>, OptionValueError),
    /// The engine reported a native failure.
    Unknown,
}

/// Attempt to build or retag a message with a type or code that its role
/// does not admit.
#[derive(Clone, Copy, Debug, PartialEq, Eq, Structural)]
pub enum MessageTypeError {
    /// The message type is not allowed for this message code.
    InvalidForMessageCode(CoapMessageType),
    /// The code does not fit the role of the message object.
    InvalidCodeForRole,
}

/// Broken ownership contract between the session-handle model and the
/// engine. These are fatal for the caller: the session state is undefined
/// and must not be used further.
#[derive(Clone, Copy, Debug, PartialEq, Eq, Structural)]
pub enum SessionLifetimeError {
    /// The native session is of no type or of a client type, so no
    /// server-side handle may be built on it.
    WrongSessionType,
    /// A back-reference is already installed in the native session.
    BackReferenceAlreadyInstalled,
    /// The native session carries no back-reference to recover a handle from.
    MissingBackReference,
}

} // verus!
