//! Error kinds and the translation of native status codes and texts.

use vstd::prelude::*;
use crate::types::BMStatus;

verus! {

/// What went wrong in a call of the library.
///
/// Usage errors (`SessionNotOpen`, `AlreadyOpen`, `PayloadTooLarge`,
/// `FieldOutOfRange`) are found before any native call; `Status` carries a
/// failure reported by the native library.
#[derive(Clone, Copy, Debug, PartialEq, Eq, Structural)]
pub enum Error {
    /// The session is closed, or the operation is not legal in its state.
    SessionNotOpen,
    /// The session is already open.
    AlreadyOpen,
    /// A payload longer than the buffer that holds it.
    PayloadTooLarge,
    /// A field value that does not fit the bits of its field.
    FieldOutOfRange,
    /// A failure status reported by the native library.
    Status(BMStatus),
}

impl Error {
    /// The native status carried, for an error the native library reported.
    pub fn status(&self) -> (r: Option<BMStatus>)
        ensures
            r == (match *self {
                Error::Status(s) => Some(s),
                _ => None,
            }),
    {
        match *self {
            Error::Status(s) => Some(s),
            _ => None,
        }
    }

    /// The error is a misuse of the library, found before any native call.
    pub fn is_usage(&self) -> (r: bool)
        ensures
            r == !(*self is Status),
    {
        match *self {
            Error::Status(_) => false,
            _ => true,
        }
    }
}

/// The result of a native call that returned `status`.
pub open spec fn spec_cvt(status: BMStatus) -> Result<(), Error> {
    if status == BMStatus::Success {
        Ok(())
    } else {
        Err(Error::Status(status))
    }
}

/// Turns a native status into a result: success is the one non-error value.
pub fn cvt_r(status: BMStatus) -> (r: Result<(), Error>)
    ensures
        r == spec_cvt(status),
{
    if status == BMStatus::Success {
        Ok(())
    } else {
        Err(Error::Status(status))
    }
}

/// Turns a raw native status code into a result.
pub fn cvt_code(code: u32) -> (r: Result<(), Error>)
    ensures
        r == spec_cvt(BMStatus::spec_from_code(code)),
{
    cvt_r(BMStatus::from_code(code))
}

/// The text that `String::from_utf8_lossy` makes of the bytes: valid UTF-8
/// kept, each invalid sequence replaced by U+FFFD.
pub uninterp spec fn utf8_lossy(b: Seq<u8>) -> Seq<char>;

/// Relies on `String::from_utf8_lossy`: the text depends on the bytes alone,
/// and no bytes give no text.
#[verifier::external_body]
fn lossy_text(b: &[u8]) -> (r: String)
    ensures
        r@ == utf8_lossy(b@),
        b@.len() == 0 ==> r@.len() == 0,
{
    String::from_utf8_lossy(b).into_owned()
}

/// Position of the first zero byte of `b` at or after `i`; the length of `b`
/// where there is none.
pub open spec fn nul_index(b: Seq<u8>, i: nat) -> nat
    decreases b.len() - i,
{
    if i >= b.len() {
        b.len()
    } else if b[i as int] == 0 {
        i
    } else {
        nul_index(b, i + 1)
    }
}

/// The bytes of a zero-terminated string held in `b`: those before the first
/// zero byte, all of them where there is none.
pub open spec fn c_prefix(b: Seq<u8>) -> Seq<u8> {
    b.take(nul_index(b, 0) as int)
}

proof fn lemma_nul_index_bounds(b: Seq<u8>, i: nat)
    requires
        i <= b.len(),
    ensures
        i <= nul_index(b, i) <= b.len(),
        nul_index(b, i) < b.len() ==> b[nul_index(b, i) as int] == 0,
        forall|j: int| i <= j < nul_index(b, i) ==> b[j] != 0,
    decreases b.len() - i,
{
    if i < b.len() && b[i as int] != 0 {
        lemma_nul_index_bounds(b, i + 1);
    }
}

/// The bytes before the first zero byte of `b`.
pub fn c_str_bytes(b: &[u8]) -> (r: Vec<u8>)
    ensures
        r@ == c_prefix(b@),
        forall|j: int| 0 <= j < r@.len() ==> r@[j] != 0,
        r@.len() == b@.len() || b@[r@.len() as int] == 0,
{
    proof {
        lemma_nul_index_bounds(b@, 0);
    }
    let mut r: Vec<u8> = Vec::new();
    let mut i: usize = 0;
    while i < b.len() && b[i] != 0
        invariant
            i <= b@.len(),
            nul_index(b@, 0) == nul_index(b@, i as nat),
            r@ == b@.take(i as int),
        decreases b@.len() - i,
    {
        r.push(b[i]);
        i = i + 1;
        assert(r@ =~= b@.take(i as int));
    }
    r
}

/// The text of a zero-terminated string held in a fixed buffer.
pub fn string_from_c_chars(b: &[u8]) -> (r: String)
    ensures
        r@ == utf8_lossy(c_prefix(b@)),
{
    let bytes = c_str_bytes(b);
    lossy_text(bytes.as_slice())
}

/// The text of a fixed byte buffer, every byte of it included.
pub fn string_from_bytes(b: &[u8]) -> (r: String)
    ensures
        r@ == utf8_lossy(b@),
{
    lossy_text(b)
}

} // verus!
