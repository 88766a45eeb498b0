//! PL011 UART transmit encoding.
//!
//! The console expects CRLF line endings: every line feed that is written
//! to the data register is preceded by a carriage return. Bytes are
//! collected in a transmit stream; the caller hands that stream to the
//! device one byte at a time.

use vstd::prelude::*;
use vstd::string::StringSliceAdditionalSpecFns;

verus! {

/// Line feed.
pub const LF: u8 = 10;

/// Carriage return.
pub const CR: u8 = 13;

/// What the device receives for one source byte.
pub open spec fn crlf_byte(b: u8) -> Seq<u8> {
    if b == LF {
        seq![CR, LF]
    } else {
        seq![b]
    }
}

/// What the device receives for a sequence of source bytes: each byte in
/// order, with a carriage return inserted before every line feed.
pub open spec fn crlf_encode(bytes: Seq<u8>) -> Seq<u8>
    decreases bytes.len(),
{
    if bytes.len() == 0 {
        Seq::empty()
    } else {
        crlf_encode(bytes.drop_last()) + crlf_byte(bytes.last())
    }
}

/// Number of line feeds in `bytes`.
pub open spec fn count_lf(bytes: Seq<u8>) -> nat
    decreases bytes.len(),
{
    if bytes.len() == 0 {
        0
    } else {
        count_lf(bytes.drop_last()) + if bytes.last() == LF {
            1nat
        } else {
            0nat
        }
    }
}

/// Encoding distributes over concatenation: writing `a` and then `b` puts
/// the same bytes on the wire as writing `a + b` at once.
pub proof fn lemma_crlf_encode_concat(a: Seq<u8>, b: Seq<u8>)
    ensures
        crlf_encode(a + b) == crlf_encode(a) + crlf_encode(b),
    decreases b.len(),
{
    if b.len() == 0 {
        assert(a + b =~= a);
        assert(crlf_encode(a) + crlf_encode(b) =~= crlf_encode(a));
    } else {
        lemma_crlf_encode_concat(a, b.drop_last());
        assert((a + b).drop_last() =~= a + b.drop_last());
        assert((a + b).last() == b.last());
        assert(crlf_encode(a + b) =~= crlf_encode(a) + crlf_encode(b));
    }
}

/// The encoding grows the input by exactly one byte per line feed.
pub proof fn lemma_crlf_encode_len(bytes: Seq<u8>)
    ensures
        crlf_encode(bytes).len() == bytes.len() + count_lf(bytes),
    decreases bytes.len(),
{
    if bytes.len() > 0 {
        lemma_crlf_encode_len(bytes.drop_last());
    }
}

/// Input without line feeds reaches the device unchanged.
pub proof fn lemma_crlf_encode_no_lf(bytes: Seq<u8>)
    requires
        forall|i: int| 0 <= i < bytes.len() ==> bytes[i] != LF,
    ensures
        crlf_encode(bytes) == bytes,
    decreases bytes.len(),
{
    if bytes.len() > 0 {
        lemma_crlf_encode_no_lf(bytes.drop_last());
        assert(crlf_encode(bytes) =~= bytes);
    }
}

/// In the encoded stream every line feed directly follows a carriage return.
pub proof fn lemma_crlf_encode_lf_after_cr(bytes: Seq<u8>)
    ensures
        forall|i: int|
            0 <= i < crlf_encode(bytes).len() && #[trigger] crlf_encode(bytes)[i] == LF ==> i > 0
                && crlf_encode(bytes)[i - 1] == CR,
    decreases bytes.len(),
{
    if bytes.len() > 0 {
        let prev = bytes.drop_last();
        lemma_crlf_encode_lf_after_cr(prev);
        let e = crlf_encode(bytes);
        let p = crlf_encode(prev);
        assert(e == p + crlf_byte(bytes.last()));
        assert forall|i: int| 0 <= i < e.len() && #[trigger] e[i] == LF implies i > 0 && e[i - 1]
            == CR by {
            if i < p.len() {
                assert(e[i] == p[i]);
                assert(e[i - 1] == p[i - 1]);
            }
        }
    }
}

/// Appends one byte to the transmit stream.
pub fn uart_putc(out: &mut Vec<u8>, c: u8)
    ensures
        final(out)@ == old(out)@.push(c),
{
    out.push(c);
}

/// Appends the UTF-8 bytes of `s` to the transmit stream, with a carriage
/// return before each line feed.
pub fn uart_puts(out: &mut Vec<u8>, s: &str)
    ensures
        final(out)@ == old(out)@ + crlf_encode(s.spec_bytes()),
{
    let bytes = s.as_bytes();
    let n = bytes.len();
    let mut i: usize = 0;
    while i < n
        invariant
            n == bytes@.len(),
            bytes@ == s.spec_bytes(),
            i <= n,
            out@ == old(out)@ + crlf_encode(bytes@.take(i as int)),
        decreases n - i,
    {
        let b = bytes[i];
        assert(bytes@.take(i + 1).drop_last() =~= bytes@.take(i as int));
        if b == LF {
            uart_putc(out, CR);
        }
        uart_putc(out, b);
        i = i + 1;
        assert(out@ =~= old(out)@ + crlf_encode(bytes@.take(i as int)));
    }
    assert(bytes@.take(n as int) =~= bytes@);
}

} // verus!
