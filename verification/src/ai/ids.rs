use crate::text::{owned, text_eq};
use vstd::prelude::*;

verus! {

/// Longest identifier, in bytes.
pub const MAX_ID_BYTES: usize = 96;

/// Failures of the AI layer.
#[derive(Clone, Copy, Debug, PartialEq, Eq)]
pub enum AiError {
    /// An input was refused; the text names what.
    InvalidInput(&'static str),
    /// A bounded table is full; the text names which.
    Capacity(&'static str),
    /// Authentication, authorization or contribution policy refused the operation.
    Unauthorized,
    /// A newer or equal record already exists; the text names which.
    Conflict(&'static str),
    /// An integrity check failed; the text names which.
    Integrity(&'static str),
    /// A requested item does not exist; the text names which.
    NotFound(&'static str),
    /// A bounded quantity exceeded its limit.
    LimitExceeded {
        /// Which quantity.
        kind: LimitKind,
        /// The value that was seen.
        actual: u64,
        /// The limit it exceeded.
        limit: u64,
    },
    /// Swarm execution was requested but no swarm bridge is installed.
    SwarmUnavailable,
    /// The caller cancelled the request.
    Cancelled,
    /// The request deadline passed.
    DeadlineExceeded,
}

/// The bounded quantities of a request and its answer.
#[derive(Clone, Copy, Debug, PartialEq, Eq, Structural)]
pub enum LimitKind {
    /// Remote routes offered for one model.
    Peers,
    /// Execution attempts of one request.
    Attempts,
    /// Bytes of one output.
    OutputBytes,
    /// Entries of response metadata.
    MetadataEntries,
    /// Bytes of one metadata key.
    MetadataKeyBytes,
    /// Bytes of one metadata value.
    MetadataValueBytes,
}

/// A byte allowed in identifiers: ASCII letter or digit, `-`, `_`, `.`, `:` or `/`.
pub open spec fn id_byte(b: u8) -> bool {
    ||| 48 <= b <= 57
    ||| 65 <= b <= 90
    ||| 97 <= b <= 122
    ||| b == 45
    ||| b == 95
    ||| b == 46
    ||| b == 58
    ||| b == 47
}

/// Two adjacent bytes that identifiers may not hold: `..` or `//`.
pub open spec fn bad_pair(a: u8, b: u8) -> bool {
    (a == 46 && b == 46) || (a == 47 && b == 47)
}

/// Allowed bytes only, no `..` or `//`, and no `/` at either end.
pub open spec fn id_shape_ok(b: Seq<u8>) -> bool {
    &&& forall|i: int| 0 <= i < b.len() ==> #[trigger] id_byte(b[i])
    &&& forall|i: int| 0 <= i < b.len() - 1 ==> !#[trigger] bad_pair(b[i], b[i + 1])
    &&& b[0] != 47
    &&& b[b.len() - 1] != 47
}

/// Outcome of checking identifier text.
pub open spec fn id_check(s: Seq<char>) -> Result<(), AiError> {
    let b = vstd::utf8::encode_utf8(s);
    if b.len() == 0 || b.len() > MAX_ID_BYTES {
        Err(AiError::InvalidInput("identifier length"))
    } else if !id_shape_ok(b) {
        Err(AiError::InvalidInput("identifier characters"))
    } else {
        Ok(())
    }
}

/// Checks identifier text: 1 to 96 bytes of letters, digits, `-_.:/`, without `..`, `//`,
/// or a `/` at either end.
pub fn check_identifier(value: &str) -> (r: Result<(), AiError>)
    ensures
        r == id_check(value@),
{
    let b = value.as_bytes();
    assert(b@ == vstd::utf8::encode_utf8(value@));
    let n = b.len();
    if n == 0 || n > MAX_ID_BYTES {
        return Err(AiError::InvalidInput("identifier length"));
    }
    if b[0] == 47 || b[n - 1] == 47 {
        return Err(AiError::InvalidInput("identifier characters"));
    }
    let mut i: usize = 0;
    while i < n
        invariant
            i <= n,
            n == b.len(),
            0 < n <= MAX_ID_BYTES,
            b@ == vstd::utf8::encode_utf8(value@),
            forall|j: int| 0 <= j < i ==> #[trigger] id_byte(b@[j]),
            forall|j: int| 0 <= j < i && j + 1 < n ==> !#[trigger] bad_pair(b@[j], b@[j + 1]),
        decreases n - i,
    {
        let x = b[i];
        let ok = (48 <= x && x <= 57) || (65 <= x && x <= 90) || (97 <= x && x <= 122) || x == 45
            || x == 95 || x == 46 || x == 58 || x == 47;
        if !ok {
            assert(!id_byte(b@[i as int]));
            return Err(AiError::InvalidInput("identifier characters"));
        }
        if i + 1 < n {
            let y = b[i + 1];
            if (x == 46 && y == 46) || (x == 47 && y == 47) {
                assert(bad_pair(b@[i as int], b@[i + 1]));
                return Err(AiError::InvalidInput("identifier characters"));
            }
        }
        i = i + 1;
    }
    Ok(())
}

/// Logical model identity.
#[derive(Clone, Debug, PartialEq, Eq, PartialOrd, Ord, Hash)]
pub struct ModelId(String);

impl View for ModelId {
    type V = Seq<char>;

    closed spec fn view(&self) -> Seq<char> {
        self.0@
    }
}

impl ModelId {
    /// A checked identifier.
    pub fn new(value: &str) -> (r: Result<Self, AiError>)
        ensures
            match r {
                Ok(id) => id_check(value@) is Ok && id@ == value@,
                Err(e) => id_check(value@) == Err::<(), AiError>(e),
            },
    {
        match check_identifier(value) {
            Ok(()) => Ok(ModelId(owned(value))),
            Err(e) => Err(e),
        }
    }

    /// The identifier text.
    pub fn as_str(&self) -> (r: &str)
        ensures
            r@ == self@,
    {
        self.0.as_str()
    }

    /// A copy with the same text.
    pub(crate) fn duplicate(&self) -> (r: Self)
        ensures
            r@ == self@,
    {
        ModelId(self.0.clone())
    }

    /// Whether two identifiers hold the same text.
    pub(crate) fn same(&self, other: &Self) -> (r: bool)
        ensures
            r == (self@ == other@),
    {
        text_eq(self.0.as_str(), other.0.as_str())
    }
}

/// Backend adapter identity.
#[derive(Clone, Debug, PartialEq, Eq, PartialOrd, Ord, Hash)]
pub struct BackendId(String);

impl View for BackendId {
    type V = Seq<char>;

    closed spec fn view(&self) -> Seq<char> {
        self.0@
    }
}

impl BackendId {
    /// A checked identifier.
    pub fn new(value: &str) -> (r: Result<Self, AiError>)
        ensures
            match r {
                Ok(id) => id_check(value@) is Ok && id@ == value@,
                Err(e) => id_check(value@) == Err::<(), AiError>(e),
            },
    {
        match check_identifier(value) {
            Ok(()) => Ok(BackendId(owned(value))),
            Err(e) => Err(e),
        }
    }

    /// The identifier text.
    pub fn as_str(&self) -> (r: &str)
        ensures
            r@ == self@,
    {
        self.0.as_str()
    }

    /// A copy with the same text.
    pub(crate) fn duplicate(&self) -> (r: Self)
        ensures
            r@ == self@,
    {
        BackendId(self.0.clone())
    }

    /// Whether two identifiers hold the same text.
    pub(crate) fn same(&self, other: &Self) -> (r: bool)
        ensures
            r == (self@ == other@),
    {
        text_eq(self.0.as_str(), other.0.as_str())
    }
}

/// Compute device identity.
#[derive(Clone, Debug, PartialEq, Eq, PartialOrd, Ord, Hash)]
pub struct DeviceId(String);

impl View for DeviceId {
    type V = Seq<char>;

    closed spec fn view(&self) -> Seq<char> {
        self.0@
    }
}

impl DeviceId {
    /// A checked identifier.
    pub fn new(value: &str) -> (r: Result<Self, AiError>)
        ensures
            match r {
                Ok(id) => id_check(value@) is Ok && id@ == value@,
                Err(e) => id_check(value@) == Err::<(), AiError>(e),
            },
    {
        match check_identifier(value) {
            Ok(()) => Ok(DeviceId(owned(value))),
            Err(e) => Err(e),
        }
    }

    /// The identifier text.
    pub fn as_str(&self) -> (r: &str)
        ensures
            r@ == self@,
    {
        self.0.as_str()
    }

    /// A copy with the same text.
    pub(crate) fn duplicate(&self) -> (r: Self)
        ensures
            r@ == self@,
    {
        DeviceId(self.0.clone())
    }

    /// Whether two identifiers hold the same text.
    pub(crate) fn same(&self, other: &Self) -> (r: bool)
        ensures
            r == (self@ == other@),
    {
        text_eq(self.0.as_str(), other.0.as_str())
    }
}

/// Remote node identity.
#[derive(Clone, Debug, PartialEq, Eq, PartialOrd, Ord, Hash)]
pub struct PeerId(String);

impl View for PeerId {
    type V = Seq<char>;

    closed spec fn view(&self) -> Seq<char> {
        self.0@
    }
}

impl PeerId {
    /// A checked identifier.
    pub fn new(value: &str) -> (r: Result<Self, AiError>)
        ensures
            match r {
                Ok(id) => id_check(value@) is Ok && id@ == value@,
                Err(e) => id_check(value@) == Err::<(), AiError>(e),
            },
    {
        match check_identifier(value) {
            Ok(()) => Ok(PeerId(owned(value))),
            Err(e) => Err(e),
        }
    }

    /// The identifier text.
    pub fn as_str(&self) -> (r: &str)
        ensures
            r@ == self@,
    {
        self.0.as_str()
    }

    /// A copy with the same text.
    pub(crate) fn duplicate(&self) -> (r: Self)
        ensures
            r@ == self@,
    {
        PeerId(self.0.clone())
    }

    /// Whether two identifiers hold the same text.
    pub(crate) fn same(&self, other: &Self) -> (r: bool)
        ensures
            r == (self@ == other@),
    {
        text_eq(self.0.as_str(), other.0.as_str())
    }
}

/// Tenant, subject, grant or provider identity.
#[derive(Clone, Debug, PartialEq, Eq, PartialOrd, Ord, Hash)]
pub struct CapabilityId(String);

impl View for CapabilityId {
    type V = Seq<char>;

    closed spec fn view(&self) -> Seq<char> {
        self.0@
    }
}

impl CapabilityId {
    /// A checked identifier.
    pub fn new(value: &str) -> (r: Result<Self, AiError>)
        ensures
            match r {
                Ok(id) => id_check(value@) is Ok && id@ == value@,
                Err(e) => id_check(value@) == Err::<(), AiError>(e),
            },
    {
        match check_identifier(value) {
            Ok(()) => Ok(CapabilityId(owned(value))),
            Err(e) => Err(e),
        }
    }

    /// The identifier text.
    pub fn as_str(&self) -> (r: &str)
        ensures
            r@ == self@,
    {
        self.0.as_str()
    }

    /// A copy with the same text.
    pub(crate) fn duplicate(&self) -> (r: Self)
        ensures
            r@ == self@,
    {
        CapabilityId(self.0.clone())
    }

    /// Whether two identifiers hold the same text.
    pub(crate) fn same(&self, other: &Self) -> (r: bool)
        ensures
            r == (self@ == other@),
    {
        text_eq(self.0.as_str(), other.0.as_str())
    }
}

} // verus!
