//! The bounded scratch area through which a process's bytes pass on their
//! way to the log.

use vstd::prelude::*;
use vstd::string::StringSliceAdditionalSpecFns;
use vstd::utf8::valid_utf8;
use crate::error::ErrorCode;

verus! {

/// The capacity of the staging buffer, in bytes.
pub const BUF_SIZE: usize = 1024;

/// The error of `core::str::from_utf8`. Nothing is read from it.
#[verifier::external_type_specification]
#[verifier::external_body]
pub struct ExUtf8Error(core::str::Utf8Error);

/// `core::str::from_utf8` succeeds on exactly the byte strings that are
/// well-formed UTF-8, and the text it returns then consists of the very
/// bytes it was given. Not proved here: taken from the documentation of
/// the standard library.
pub assume_specification<'a>[ core::str::from_utf8 ](v: &'a [u8]) -> (res: Result<
    &'a str,
    core::str::Utf8Error,
>)
    ensures
        res is Ok <==> valid_utf8(v@),
        res is Ok ==> res->Ok_0.spec_bytes() == v@,
;

/// A copy of a process's bytes in kernel memory: a fixed array and the
/// number of its bytes that are in use. It never holds more than
/// `BUF_SIZE` bytes, and the bytes beyond those in use are never read.
pub struct StagingBuffer {
    data: [u8; BUF_SIZE],
    used: usize,
}

impl View for StagingBuffer {
    type V = Seq<u8>;

    /// The bytes in use.
    closed spec fn view(&self) -> Seq<u8> {
        self.data@.subrange(0, self.used as int)
    }
}

impl StagingBuffer {
    #[verifier::type_invariant]
    spec fn within_capacity(self) -> bool {
        self.used <= BUF_SIZE
    }

    /// Whether a region of `bytes` can be staged: it fits the buffer.
    pub open spec fn fits(bytes: Seq<u8>) -> bool {
        bytes.len() <= BUF_SIZE
    }

    /// Copies `region` into a fresh staging buffer. A region longer than
    /// the buffer is refused with `SizeError` before any byte is copied;
    /// nothing is ever cut short.
    pub fn stage(region: &[u8]) -> (res: Result<StagingBuffer, ErrorCode>)
        ensures
            Self::fits(region@) ==> res is Ok && res->Ok_0@ == region@,
            !Self::fits(region@) ==> res == Err::<StagingBuffer, ErrorCode>(ErrorCode::SizeError),
    {
        let n: usize = region.len();
        if n > BUF_SIZE {
            return Err(ErrorCode::SizeError);
        }
        let mut data: [u8; BUF_SIZE] = [0u8; BUF_SIZE];
        let mut i: usize = 0;
        while i < n
            invariant
                n == region@.len(),
                n <= BUF_SIZE,
                i <= n,
                forall|j: int| 0 <= j < i ==> data@[j] == region@[j],
            decreases n - i,
        {
            data[i] = region[i];
            i += 1;
        }
        let staged = StagingBuffer { data, used: n };
        assert(staged@ =~= region@);
        Ok(staged)
    }

    /// The number of bytes staged.
    pub fn len(&self) -> (len: usize)
        ensures
            len == self@.len(),
            len <= BUF_SIZE,
    {
        proof {
            use_type_invariant(self);
        }
        self.used
    }

    /// The staged bytes as text. Bytes that are not well-formed UTF-8 are
    /// refused with `InvalidEncoding`; otherwise the text is made of
    /// exactly the staged bytes.
    pub fn as_str(&self) -> (res: Result<&str, ErrorCode>)
        ensures
            valid_utf8(self@) ==> res is Ok && res->Ok_0.spec_bytes() == self@,
            !valid_utf8(self@) ==> res == Err::<&str, ErrorCode>(ErrorCode::InvalidEncoding),
    {
        proof {
            use_type_invariant(self);
        }
        let window: &[u8] = &self.data[0..self.used];
        match core::str::from_utf8(window) {
            Ok(text) => Ok(text),
            Err(_) => Err(ErrorCode::InvalidEncoding),
        }
    }
}

} // verus!
