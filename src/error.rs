use vstd::prelude::*;

verus! {

#[verifier::external_type_specification]
pub struct ExErrorKind(opendal::ErrorKind);

#[verifier::external_type_specification]
#[verifier::external_body]
pub struct ExError(opendal::Error);

/// Stable, append-only classification of failures, as seen by callers.
/// The wire value of each kind is its position in this list, counting from 1.
#[allow(non_camel_case_types)]
#[derive(PartialEq, Eq, Structural, Clone, Copy, Debug)]
pub enum od_code {
    /// Nothing more is known of what happened, for example an internal
    /// service error of the backend.
    ODE_UNEXPECTED,
    /// The backend does not support this operation or scheme.
    ODE_UNSUPPORTED,
    /// The configuration of the backend is invalid.
    ODE_CONFIG_INVALID,
    /// The given path is not found.
    ODE_NOT_FOUND,
    /// The given path lacks the permission for this operation.
    ODE_PERMISSION_DENIED,
    /// The given path is a directory.
    ODE_IS_A_DIRECTORY,
    /// The given path is not a directory.
    ODE_NOT_A_DIRECTORY,
    /// The given path already exists.
    ODE_ALREADY_EXISTS,
    /// Requests on this path are over the limit.
    ODE_RATE_LIMITED,
}

/// The code of each backend error kind. The mapping is total: a kind that
/// has no code of its own is classified as unexpected.
pub open spec fn code_of_kind(k: opendal::ErrorKind) -> od_code {
    match k {
        opendal::ErrorKind::Unexpected => od_code::ODE_UNEXPECTED,
        opendal::ErrorKind::Unsupported => od_code::ODE_UNSUPPORTED,
        opendal::ErrorKind::ConfigInvalid => od_code::ODE_CONFIG_INVALID,
        opendal::ErrorKind::NotFound => od_code::ODE_NOT_FOUND,
        opendal::ErrorKind::PermissionDenied => od_code::ODE_PERMISSION_DENIED,
        opendal::ErrorKind::IsADirectory => od_code::ODE_IS_A_DIRECTORY,
        opendal::ErrorKind::NotADirectory => od_code::ODE_NOT_A_DIRECTORY,
        opendal::ErrorKind::AlreadyExists => od_code::ODE_ALREADY_EXISTS,
        opendal::ErrorKind::RateLimited => od_code::ODE_RATE_LIMITED,
        _ => od_code::ODE_UNEXPECTED,
    }
}

/// The wire value of a code: 1 for the first kind, 9 for the last.
pub open spec fn wire_of(c: od_code) -> int {
    match c {
        od_code::ODE_UNEXPECTED => 1,
        od_code::ODE_UNSUPPORTED => 2,
        od_code::ODE_CONFIG_INVALID => 3,
        od_code::ODE_NOT_FOUND => 4,
        od_code::ODE_PERMISSION_DENIED => 5,
        od_code::ODE_IS_A_DIRECTORY => 6,
        od_code::ODE_NOT_A_DIRECTORY => 7,
        od_code::ODE_ALREADY_EXISTS => 8,
        od_code::ODE_RATE_LIMITED => 9,
    }
}

/// Distinct kinds have distinct wire values, and none of them is 0, so 0
/// stays free to mean "no error".
pub proof fn wire_values_are_distinct(a: od_code, b: od_code)
    ensures
        wire_of(a) != 0,
        wire_of(a) == wire_of(b) ==> a == b,
{
}

/// A backend's configuration failure is reported as invalid configuration,
/// never as unexpected, and a missing path as not found; no other kind is
/// reported with either of those codes.
pub proof fn kind_codes_are_faithful(k: opendal::ErrorKind)
    ensures
        code_of_kind(k) == od_code::ODE_CONFIG_INVALID <==> k == opendal::ErrorKind::ConfigInvalid,
        code_of_kind(k) == od_code::ODE_NOT_FOUND <==> k == opendal::ErrorKind::NotFound,
        k == opendal::ErrorKind::ConfigInvalid ==> code_of_kind(k) != od_code::ODE_UNEXPECTED,
{
}

impl od_code {
    /// The wire value of this code, as compiled callers see it.
    pub fn wire(&self) -> (r: i32)
        ensures
            r == wire_of(*self),
            1 <= r <= 9,
    {
        match self {
            od_code::ODE_UNEXPECTED => 1,
            od_code::ODE_UNSUPPORTED => 2,
            od_code::ODE_CONFIG_INVALID => 3,
            od_code::ODE_NOT_FOUND => 4,
            od_code::ODE_PERMISSION_DENIED => 5,
            od_code::ODE_IS_A_DIRECTORY => 6,
            od_code::ODE_NOT_A_DIRECTORY => 7,
            od_code::ODE_ALREADY_EXISTS => 8,
            od_code::ODE_RATE_LIMITED => 9,
        }
    }
}

impl From<opendal::ErrorKind> for od_code {
    fn from(v: opendal::ErrorKind) -> (r: od_code)
        ensures
            r == code_of_kind(v),
    {
        match v {
            opendal::ErrorKind::Unexpected => od_code::ODE_UNEXPECTED,
            opendal::ErrorKind::Unsupported => od_code::ODE_UNSUPPORTED,
            opendal::ErrorKind::ConfigInvalid => od_code::ODE_CONFIG_INVALID,
            opendal::ErrorKind::NotFound => od_code::ODE_NOT_FOUND,
            opendal::ErrorKind::PermissionDenied => od_code::ODE_PERMISSION_DENIED,
            opendal::ErrorKind::IsADirectory => od_code::ODE_IS_A_DIRECTORY,
            opendal::ErrorKind::NotADirectory => od_code::ODE_NOT_A_DIRECTORY,
            opendal::ErrorKind::AlreadyExists => od_code::ODE_ALREADY_EXISTS,
            opendal::ErrorKind::RateLimited => od_code::ODE_RATE_LIMITED,
            _ => od_code::ODE_UNEXPECTED,
        }
    }
}

impl vstd::std_specs::convert::FromSpecImpl<opendal::ErrorKind> for od_code {
    open spec fn obeys_from_spec() -> bool {
        true
    }

    open spec fn from_spec(v: opendal::ErrorKind) -> od_code {
        code_of_kind(v)
    }
}

/// A classified failure: its kind and a human-readable message.
/// Only the kind is stable; the message text may change between versions.
pub struct OdError {
    pub code: od_code,
    pub message: String,
}

/// The kind of a backend error.
pub uninterp spec fn error_kind(e: opendal::Error) -> opendal::ErrorKind;

/// Relies on opendal::Error::kind: the kind that the error was made with.
#[verifier::external_body]
fn kind_of(e: &opendal::Error) -> (r: opendal::ErrorKind)
    ensures
        r == error_kind(*e),
{
    e.kind()
}

/// Relies on opendal::Error's Display impl to render the error as text.
#[verifier::external_body]
fn message_of(e: &opendal::Error) -> (r: String) {
    e.to_string()
}

impl OdError {
    /// A failure of kind `k` with the given message.
    pub fn classify(k: opendal::ErrorKind, message: String) -> (r: OdError)
        ensures
            r.code == code_of_kind(k),
            r.message == message,
    {
        OdError { code: od_code::from(k), message }
    }

    /// Classifies an error reported by a backend by its kind. Kinds without
    /// a code of their own become unexpected rather than aborting.
    pub fn from_backend(e: &opendal::Error) -> (r: OdError)
        ensures
            r.code == code_of_kind(error_kind(*e)),
    {
        OdError::classify(kind_of(e), message_of(e))
    }
}

/// The last-error slot of one execution context (one per calling thread).
/// Every failing call at the boundary overwrites it; queries never clear it,
/// and neither does a later success.
pub struct ErrorSlot {
    pub last: Option<OdError>,
}

impl ErrorSlot {
    /// An empty slot: no error has been recorded yet.
    pub fn new() -> (r: ErrorSlot)
        ensures
            r.last is None,
    {
        ErrorSlot { last: None }
    }

    /// Stores `error`, replacing whatever was recorded before.
    pub fn record(&mut self, error: OdError)
        ensures
            final(self).last == Some(error),
    {
        self.last = Some(error);
    }

    /// The code of the last recorded error, if any. Leaves the slot as it is.
    pub fn query(&self) -> (r: Option<od_code>)
        ensures
            r == last_code(*self),
    {
        match &self.last {
            Some(e) => Some(e.code),
            None => None,
        }
    }
}

/// The code held by the slot, if an error was recorded.
pub open spec fn last_code(s: ErrorSlot) -> Option<od_code> {
    match s.last {
        Some(e) => Some(e.code),
        None => None,
    }
}

/// `errno`-style query: the code of the last error recorded in this
/// context's slot, or `None` when no call has failed in it yet.
pub fn od_err_code(slot: &ErrorSlot) -> (r: Option<od_code>)
    ensures
        r == last_code(*slot),
{
    slot.query()
}

} // verus!
