//! Incremental line framing over a raw byte stream.
//!
//! The caller reads chunks of bytes and feeds them in; the framer
//! accumulates them until either the bytes reach a line boundary (a
//! newline, optionally followed by a carriage return) or a zero-byte read
//! signals the end of the stream. The completed line is handed out as the
//! lossy decoding of all accumulated bytes, together with the byte count
//! — zero when the stream ended, which callers treat as the disconnect
//! signal.

use vstd::prelude::*;
use vstd::string::*;
use vstd::utf8::{decode_utf8, valid_utf8};

verus! {

/// The characters that lossy UTF-8 decoding yields for a byte sequence.
/// Undecodable bytes come back as replacement characters, so the result
/// is a function of the bytes alone.
pub uninterp spec fn lossy_of(bytes: Seq<u8>) -> Seq<char>;

/// Relies on String::from_utf8_lossy: the decoding depends on the bytes
/// alone, valid UTF-8 decodes to its scalar values unchanged, and no
/// bytes yield no characters.
#[verifier::external_body]
fn decode_lossy(bytes: &[u8]) -> (r: String)
    ensures
        r@ == lossy_of(bytes@),
        valid_utf8(bytes@) ==> r@ == decode_utf8(bytes@),
        bytes@.len() == 0 ==> r@.len() == 0,
{
    String::from_utf8_lossy(bytes).into_owned()
}

/// True of a byte buffer that ends at a line boundary: a newline, or a
/// newline directly followed by one carriage return.
pub open spec fn ends_line(s: Seq<u8>) -> bool {
    ||| s.len() >= 1 && s.last() == 10
    ||| s.len() >= 2 && s[s.len() - 2] == 10 && s.last() == 13
}

/// Assembles one line out of the chunks an underlying stream yields.
pub struct LineFramer {
    buf: Vec<u8>,
    total: u32,
    closed: bool,
}

impl LineFramer {
    /// The bytes accumulated for the line in progress.
    pub closed spec fn pending(self) -> Seq<u8> {
        self.buf@
    }

    /// How many bytes came in since the last line was handed out.
    pub closed spec fn count(self) -> u32 {
        self.total
    }

    /// Whether a zero-byte read has signalled the end of the stream.
    pub closed spec fn seen_eof(self) -> bool {
        self.closed
    }

    pub fn new() -> (r: LineFramer)
        ensures
            r.pending() == Seq::<u8>::empty(),
            r.count() == 0,
            !r.seen_eof(),
    {
        LineFramer { buf: Vec::new(), total: 0, closed: false }
    }

    /// `count()`, for callers that must keep the byte total in bounds.
    pub fn taken(&self) -> (r: u32)
        ensures
            r == self.count(),
    {
        self.total
    }

    /// Takes the bytes of one underlying read. The returned flag says
    /// the line is complete: either the stream ended (an empty chunk) or
    /// the accumulated bytes reach a line boundary.
    pub fn feed(&mut self, chunk: &[u8]) -> (done: bool)
        requires
            old(self).count() + chunk@.len() <= u32::MAX,
        ensures
            final(self).pending() == old(self).pending() + chunk@,
            final(self).count() == old(self).count() + chunk@.len(),
            final(self).seen_eof() == (old(self).seen_eof() || chunk@.len() == 0),
            done == (chunk@.len() == 0 || ends_line(final(self).pending())),
    {
        if chunk.len() == 0 {
            self.closed = true;
            proof {
                assert(self.buf@ =~= old(self).buf@ + chunk@);
            }
            return true;
        }
        self.buf.extend_from_slice(chunk);
        self.total = self.total + chunk.len() as u32;
        let n = self.buf.len();
        if self.buf[n - 1] == 10 {
            true
        } else if n >= 2 && self.buf[n - 2] == 10 && self.buf[n - 1] == 13 {
            true
        } else {
            false
        }
    }

    /// Hands out the completed line: the lossy decoding of everything
    /// accumulated, and the byte count — zero when the stream ended,
    /// whatever partial content there was. Resets the framer for the
    /// next line.
    pub fn take_line(&mut self) -> (r: (String, u32))
        ensures
            r.0@ == lossy_of(old(self).pending()),
            valid_utf8(old(self).pending()) ==> r.0@ == decode_utf8(old(self).pending()),
            old(self).pending().len() == 0 ==> r.0@.len() == 0,
            r.1 == if old(self).seen_eof() { 0u32 } else { old(self).count() },
            final(self).pending() == Seq::<u8>::empty(),
            final(self).count() == 0,
            !final(self).seen_eof(),
    {
        let text = decode_lossy(self.buf.as_slice());
        let n = if self.closed { 0 } else { self.total };
        self.buf.clear();
        self.total = 0;
        self.closed = false;
        proof {
            assert(self.buf@ =~= Seq::<u8>::empty());
        }
        (text, n)
    }
}

} // verus!
