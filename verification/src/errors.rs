//! Failure taxonomies: marshaling failures, transport failures, and their
//! canonical mapping into the outer return-code space.

use vstd::prelude::*;

verus! {

/// Success or [`MarshalingError`] failure, used by marshal/unmarshal logic.
pub type MarshalingResult<T> = Result<T, MarshalingError>;

/// Closed set of encoding/decoding failure kinds, so that every call site can
/// handle failures exhaustively and a new failure mode is caught where the
/// enumeration is extended.
#[derive(PartialEq, Eq, Copy, Clone, Debug, Structural)]
pub enum MarshalingError {
    ArrayLengthExceeded,
    MarshalingDeriveError,
    UnexpectedEndOfBuffer,
    UnknownSelector,
}

/// Lightweight return codes of the outer return-code space.
#[derive(PartialEq, Eq, Copy, Clone, Debug, Structural)]
pub enum TpmRcError {
    Size,
    Failure,
    Memory,
    Selector,
}

/// Transport failure taxonomy of the command and platform-control channels.
///
/// `ProtocolViolation` carries the offending word: a nonzero response trailer
/// or a nonzero platform result code. After `InsufficientBuffer` or
/// `ProtocolViolation` the connection's framing state is undefined; callers
/// must close it and reestablish.
#[derive(PartialEq, Eq, Copy, Clone, Debug, Structural)]
pub enum TpmError {
    IoError,
    BadSize,
    InsufficientBuffer,
    ProtocolViolation { code: u32 },
}

/// Structured top-level error, representing transport and marshaling failures
/// uniformly.
#[derive(PartialEq, Eq, Copy, Clone, Debug, Structural)]
pub enum TssError {
    TpmRc { rc: TpmRcError },
    Transport { err: TpmError },
}

/// The canonical table: the one return code that stands for each marshaling
/// failure kind. Both outward conversions are proved against this table, so
/// the two can never disagree.
pub open spec fn rc_of_marshaling(e: MarshalingError) -> TpmRcError {
    match e {
        MarshalingError::ArrayLengthExceeded => TpmRcError::Size,
        MarshalingError::MarshalingDeriveError => TpmRcError::Failure,
        MarshalingError::UnexpectedEndOfBuffer => TpmRcError::Memory,
        MarshalingError::UnknownSelector => TpmRcError::Selector,
    }
}

impl MarshalingError {
    /// The canonical return code for this failure kind.
    pub fn rc(self) -> (r: TpmRcError)
        ensures
            r == rc_of_marshaling(self),
    {
        match self {
            MarshalingError::ArrayLengthExceeded => TpmRcError::Size,
            MarshalingError::MarshalingDeriveError => TpmRcError::Failure,
            MarshalingError::UnexpectedEndOfBuffer => TpmRcError::Memory,
            MarshalingError::UnknownSelector => TpmRcError::Selector,
        }
    }

    /// A human-readable description of this failure kind.
    pub fn description(&self) -> (r: &'static str)
        ensures
            *self == MarshalingError::ArrayLengthExceeded ==> r@ == "length of array is larger than the type allows"@,
            *self == MarshalingError::MarshalingDeriveError ==> r@ == "unexpected derive error"@,
            *self == MarshalingError::UnexpectedEndOfBuffer ==> r@ == "expected to have more buffer data but found none"@,
            *self == MarshalingError::UnknownSelector ==> r@ == "selector targeted is not known to the unmarshaling code"@,
    {
        match self {
            MarshalingError::ArrayLengthExceeded => "length of array is larger than the type allows",
            MarshalingError::MarshalingDeriveError => "unexpected derive error",
            MarshalingError::UnexpectedEndOfBuffer => "expected to have more buffer data but found none",
            MarshalingError::UnknownSelector => "selector targeted is not known to the unmarshaling code",
        }
    }
}

impl From<MarshalingError> for TpmRcError {
    fn from(orig: MarshalingError) -> Self {
        orig.rc()
    }
}

impl vstd::std_specs::convert::FromSpecImpl<MarshalingError> for TpmRcError {
    open spec fn obeys_from_spec() -> bool {
        true
    }

    open spec fn from_spec(orig: MarshalingError) -> Self {
        rc_of_marshaling(orig)
    }
}

impl From<MarshalingError> for TssError {
    fn from(orig: MarshalingError) -> Self {
        TssError::TpmRc { rc: orig.rc() }
    }
}

impl vstd::std_specs::convert::FromSpecImpl<MarshalingError> for TssError {
    open spec fn obeys_from_spec() -> bool {
        true
    }

    open spec fn from_spec(orig: MarshalingError) -> Self {
        TssError::TpmRc { rc: rc_of_marshaling(orig) }
    }
}

impl From<TpmRcError> for TssError {
    fn from(orig: TpmRcError) -> Self {
        TssError::TpmRc { rc: orig }
    }
}

impl vstd::std_specs::convert::FromSpecImpl<TpmRcError> for TssError {
    open spec fn obeys_from_spec() -> bool {
        true
    }

    open spec fn from_spec(orig: TpmRcError) -> Self {
        TssError::TpmRc { rc: orig }
    }
}

impl From<TpmError> for TssError {
    fn from(orig: TpmError) -> Self {
        TssError::Transport { err: orig }
    }
}

impl vstd::std_specs::convert::FromSpecImpl<TpmError> for TssError {
    open spec fn obeys_from_spec() -> bool {
        true
    }

    open spec fn from_spec(orig: TpmError) -> Self {
        TssError::Transport { err: orig }
    }
}

/// The two outward representations of a marshaling failure agree: the
/// structured error wraps exactly the return code that the lightweight
/// conversion yields, for every failure kind.
pub proof fn lemma_error_representations_agree(e: MarshalingError)
    ensures
        <TssError as vstd::std_specs::convert::FromSpec<MarshalingError>>::from_spec(e)
            == (TssError::TpmRc { rc: <TpmRcError as vstd::std_specs::convert::FromSpec<MarshalingError>>::from_spec(e) }),
{
}

} // verus!
