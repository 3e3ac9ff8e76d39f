//! Byte-cursor codec: bounds-checked decoding of null-terminated byte
//! strings from an arbitrary buffer offset.

use vstd::prelude::*;

verus! {

use vstd::slice::slice_index_get;
use vstd::string::StringExecFns;
use vstd::utf8::{valid_utf8, decode_utf8};

/// Error returned when a string cannot be read from a buffer: the start
/// offset is past the end, or the scanned bytes are not valid UTF-8.
#[derive(Debug, Clone, Copy, PartialEq, Eq, Structural)]
pub struct ByteReadStringError;

impl ByteReadStringError {
    /// The error's description.
    pub fn message(&self) -> (s: String)
        ensures
            s@ == "Error reading byte string"@,
    {
        String::from_str("Error reading byte string")
    }
}

/// Position of the first zero byte at or after `start`, or the length of
/// the buffer if no zero byte follows `start`.
pub open spec fn scan_end(bytes: Seq<u8>, start: int) -> int
    decreases bytes.len() - start,
{
    if start >= bytes.len() {
        bytes.len() as int
    } else if bytes[start] == 0 {
        start
    } else {
        scan_end(bytes, start + 1)
    }
}

/// Number of bytes a read starting at `start` consumes: the scanned run
/// plus its zero terminator, or the run alone when the buffer ends first.
pub open spec fn field_len(bytes: Seq<u8>, start: int) -> int {
    if scan_end(bytes, start) < bytes.len() {
        scan_end(bytes, start) - start + 1
    } else {
        bytes.len() - start
    }
}

/// The scanned bytes themselves, terminator excluded.
pub open spec fn field_bytes(bytes: Seq<u8>, start: int) -> Seq<u8> {
    bytes.subrange(start, scan_end(bytes, start))
}

/// A read at `start` succeeds: some byte is available and the scanned
/// run is valid UTF-8.
pub open spec fn field_ok(bytes: Seq<u8>, start: int) -> bool {
    start < bytes.len() && valid_utf8(field_bytes(bytes, start))
}

/// The text a successful read at `start` returns.
pub open spec fn field_text(bytes: Seq<u8>, start: int) -> Seq<char>
    recommends
        field_ok(bytes, start),
{
    decode_utf8(field_bytes(bytes, start))
}

/// Offset at which a chained read continues after a read at `start`.
pub open spec fn next_start(bytes: Seq<u8>, start: int) -> int {
    start + field_len(bytes, start)
}

/// What `read_string` returns on `bytes` at offset `start`.
pub open spec fn read_string_rel(
    bytes: Seq<u8>,
    start: int,
    r: Result<(String, usize), ByteReadStringError>,
) -> bool {
    if field_ok(bytes, start) {
        r matches Ok((s, consumed)) && s@ == field_text(bytes, start) && consumed
            == field_len(bytes, start)
    } else {
        r is Err
    }
}

/// Relies on `String::from_utf8`: it succeeds exactly when the input is
/// valid UTF-8, and then returns the text those bytes encode.
#[verifier::external_body]
pub(crate) fn bytes_to_string(bytes: Vec<u8>) -> (r: Option<String>)
    ensures
        r is Some <==> valid_utf8(bytes@),
        r matches Some(s) ==> s@ == decode_utf8(bytes@),
{
    String::from_utf8(bytes).ok()
}

/// Buffers that strings can be decoded out of.
pub trait ByteReading {
    /// The bytes the reader scans over.
    spec fn readable_bytes(&self) -> Seq<u8>;

    /// Decode the null-terminated string that starts at `start`,
    /// returning the text and the number of bytes consumed, terminator
    /// included. When the buffer ends before a terminator, whatever was
    /// scanned is decoded and the raw scanned length is consumed.
    fn read_string(&self, start: usize) -> (r: Result<(String, usize), ByteReadStringError>)
        ensures
            read_string_rel(self.readable_bytes(), start as int, r),
            r matches Ok((s, consumed)) ==> 1 <= consumed && start + consumed
                <= self.readable_bytes().len(),
    ;
}

impl ByteReading for [u8] {
    open spec fn readable_bytes(&self) -> Seq<u8> {
        self@
    }

    fn read_string(&self, start: usize) -> (r: Result<(String, usize), ByteReadStringError>) {
        if start >= self.len() {
            return Err(ByteReadStringError);
        }
        let mut field: Vec<u8> = Vec::new();
        let mut i: usize = start;
        while i < self.len() && *slice_index_get(self, i) != 0
            invariant
                start <= i <= self@.len(),
                field@ == self@.subrange(start as int, i as int),
                scan_end(self@, start as int) == scan_end(self@, i as int),
            decreases self@.len() - i,
        {
            field.push(*slice_index_get(self, i));
            i = i + 1;
            proof {
                assert(field@ =~= self@.subrange(start as int, i as int));
            }
        }
        proof {
            assert(scan_end(self@, start as int) == i);
            assert(field@ =~= field_bytes(self@, start as int));
        }
        let consumed: usize = if i < self.len() {
            i - start + 1
        } else {
            i - start
        };
        match bytes_to_string(field) {
            Some(s) => Ok((s, consumed)),
            None => Err(ByteReadStringError),
        }
    }
}

/// A zero byte at offset `k`, the first one at or after `start`, makes a
/// read at `start` consume `k - start + 1` bytes and return the text of
/// exactly the bytes in `[start, k)`.
pub proof fn lemma_read_terminated(bytes: Seq<u8>, start: int, k: int)
    requires
        0 <= start <= k < bytes.len(),
        bytes[k] == 0,
        forall|j: int| start <= j < k ==> bytes[j] != 0,
    ensures
        scan_end(bytes, start) == k,
        field_len(bytes, start) == k - start + 1,
        field_bytes(bytes, start) == bytes.subrange(start, k),
        valid_utf8(bytes.subrange(start, k)) ==> field_ok(bytes, start) && field_text(bytes, start)
            == decode_utf8(bytes.subrange(start, k)),
    decreases k - start,
{
    if start < k {
        lemma_read_terminated(bytes, start + 1, k);
    }
}

/// The scanned run never leaves the buffer, holds no zero byte, and ends
/// at a zero byte whenever one follows `start`.
pub proof fn lemma_scan_end_bounds(bytes: Seq<u8>, start: int)
    requires
        0 <= start <= bytes.len(),
    ensures
        start <= scan_end(bytes, start) <= bytes.len(),
        forall|j: int| start <= j < scan_end(bytes, start) ==> bytes[j] != 0,
        scan_end(bytes, start) < bytes.len() ==> bytes[scan_end(bytes, start)] == 0,
    decreases bytes.len() - start,
{
    if start < bytes.len() && bytes[start] != 0 {
        lemma_scan_end_bounds(bytes, start + 1);
    }
}

/// Cursor chaining: a second read at `start + consumed` begins right
/// after the first field's terminator and decodes the field that
/// immediately follows it — the run up to the next zero byte.
pub proof fn lemma_cursor_chaining(bytes: Seq<u8>, start: int)
    requires
        0 <= start < bytes.len(),
        scan_end(bytes, start) < bytes.len(),
    ensures
        next_start(bytes, start) == scan_end(bytes, start) + 1,
        field_bytes(bytes, next_start(bytes, start)) == bytes.subrange(
            scan_end(bytes, start) + 1,
            scan_end(bytes, next_start(bytes, start)),
        ),
        forall|j: int|
            next_start(bytes, start) <= j < scan_end(bytes, next_start(bytes, start))
                ==> bytes[j] != 0,
        scan_end(bytes, next_start(bytes, start)) < bytes.len() ==> bytes[scan_end(
            bytes,
            next_start(bytes, start),
        )] == 0,
{
    lemma_scan_end_bounds(bytes, start);
    lemma_scan_end_bounds(bytes, next_start(bytes, start));
}

} // verus!
