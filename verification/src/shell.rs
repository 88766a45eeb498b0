//! Line editing for the debug shell's console input.
//!
//! Input arrives one byte at a time. Printable bytes are echoed and kept;
//! backspace removes the last kept byte and erases it on screen with
//! BS, space, BS; Ctrl+C drops the line; Enter hands the line over as a
//! command.

use vstd::prelude::*;

use crate::uart::{CR, LF};

verus! {

/// Backspace.
pub const BS: u8 = 8;

/// Delete, sent by many terminals for the backspace key.
pub const DEL: u8 = 127;

/// Ctrl+C.
pub const CTRL_C: u8 = 3;

/// Space.
pub const SPACE: u8 = 32;

/// A byte that is echoed and kept in the line.
pub open spec fn is_printable(b: u8) -> bool {
    SPACE <= b < DEL
}

/// A byte that erases the last kept byte.
pub open spec fn is_erase(b: u8) -> bool {
    b == BS || b == DEL
}

/// A byte that ends the line and submits it.
pub open spec fn is_enter(b: u8) -> bool {
    b == CR || b == LF
}

/// The line after the byte `b` is typed.
pub open spec fn next_line(line: Seq<u8>, b: u8) -> Seq<u8> {
    if is_enter(b) || b == CTRL_C {
        Seq::empty()
    } else if is_erase(b) {
        if line.len() > 0 {
            line.drop_last()
        } else {
            line
        }
    } else if is_printable(b) {
        line.push(b)
    } else {
        line
    }
}

/// What is written back to the console when the byte `b` is typed.
pub open spec fn echo(line: Seq<u8>, b: u8) -> Seq<u8> {
    if is_enter(b) {
        seq![CR, LF]
    } else if b == CTRL_C {
        seq![94u8, 67u8, CR, LF]
    } else if is_erase(b) {
        if line.len() > 0 {
            seq![BS, SPACE, BS]
        } else {
            Seq::empty()
        }
    } else if is_printable(b) {
        seq![b]
    } else {
        Seq::empty()
    }
}

/// The line being typed at the shell prompt.
pub struct LineEditor {
    buf: Vec<u8>,
}

impl View for LineEditor {
    type V = Seq<u8>;

    closed spec fn view(&self) -> Seq<u8> {
        self.buf@
    }
}

impl LineEditor {
    /// Only printable bytes are ever kept.
    #[verifier::type_invariant]
    spec fn inv(self) -> bool {
        forall|i: int| 0 <= i < self.buf@.len() ==> is_printable(#[trigger] self.buf@[i])
    }

    /// An editor with an empty line.
    pub fn new() -> (e: Self)
        ensures
            e@ == Seq::<u8>::empty(),
    {
        LineEditor { buf: Vec::new() }
    }

    /// The bytes typed so far.
    pub fn line(&self) -> (l: Vec<u8>)
        ensures
            l@ == self@,
            forall|i: int| 0 <= i < l@.len() ==> is_printable(#[trigger] l@[i]),
    {
        proof {
            use_type_invariant(self);
        }
        self.buf.clone()
    }

    /// Takes one input byte: updates the line, appends the echo to `out`,
    /// and on Enter returns the finished line.
    pub fn feed(&mut self, b: u8, out: &mut Vec<u8>) -> (cmd: Option<Vec<u8>>)
        ensures
            final(self)@ == next_line(old(self)@, b),
            final(out)@ == old(out)@ + echo(old(self)@, b),
            cmd is Some <==> is_enter(b),
            cmd is Some ==> cmd->0@ == old(self)@,
            cmd is Some <==> (b == 13 || b == 10),
    {
        proof {
            use_type_invariant(&*self);
        }
        if b == CR || b == LF {
            out.push(CR);
            out.push(LF);
            let mut line: Vec<u8> = Vec::new();
            std::mem::swap(&mut line, &mut self.buf);
            Some(line)
        } else if b == CTRL_C {
            out.push(94u8);
            out.push(67u8);
            out.push(CR);
            out.push(LF);
            self.buf = Vec::new();
            None
        } else if b == BS || b == DEL {
            if self.buf.len() > 0 {
                let mut line: Vec<u8> = Vec::new();
                std::mem::swap(&mut line, &mut self.buf);
                line.pop();
                self.buf = line;
                out.push(BS);
                out.push(SPACE);
                out.push(BS);
            }
            None
        } else if SPACE <= b && b < DEL {
            let mut line: Vec<u8> = Vec::new();
            std::mem::swap(&mut line, &mut self.buf);
            line.push(b);
            self.buf = line;
            out.push(b);
            None
        } else {
            None
        }
    }
}

/// Every byte from space (32) to tilde (126) is kept at the end of the line
/// and echoed as itself.
pub proof fn lemma_printable_kept_and_echoed(line: Seq<u8>, b: u8)
    requires
        32 <= b <= 126,
    ensures
        next_line(line, b) == line.push(b),
        echo(line, b) == seq![b],
{
}

/// Carriage return and line feed both end the line: the line is empty
/// afterwards and the console moves to a new line.
pub proof fn lemma_enter_ends_line(line: Seq<u8>)
    ensures
        next_line(line, 13) == Seq::<u8>::empty(),
        next_line(line, 10) == Seq::<u8>::empty(),
        echo(line, 13) == seq![13u8, 10u8],
        echo(line, 10) == seq![13u8, 10u8],
{
}

/// Backspace (8) and delete (127) drop the last byte of a non-empty line and
/// rub it out with BS, space, BS; on an empty line they do nothing.
pub proof fn lemma_erase_drops_last(line: Seq<u8>, b: u8)
    requires
        b == 8 || b == 127,
    ensures
        line.len() > 0 ==> next_line(line, b) == line.subrange(0, line.len() - 1),
        line.len() > 0 ==> echo(line, b) == seq![8u8, 32u8, 8u8],
        line.len() == 0 ==> next_line(line, b) == line,
        line.len() == 0 ==> echo(line, b) == Seq::<u8>::empty(),
{
}

/// Ctrl+C (3) drops the line and shows `^C` and a new line.
pub proof fn lemma_ctrl_c_drops_line(line: Seq<u8>)
    ensures
        next_line(line, 3) == Seq::<u8>::empty(),
        echo(line, 3) == seq![94u8, 67u8, 13u8, 10u8],
{
}

/// Any other byte (control bytes other than 3, 8, 10, 13, and bytes from
/// 128 up) leaves the line alone and shows nothing.
pub proof fn lemma_other_bytes_ignored(line: Seq<u8>, b: u8)
    requires
        b < 32 || b >= 128,
        b != 3 && b != 8 && b != 10 && b != 13,
    ensures
        next_line(line, b) == line,
        echo(line, b) == Seq::<u8>::empty(),
{
}

/// The line after typing every byte of `bytes`, one after the other,
/// starting from `line`.
pub open spec fn type_all(line: Seq<u8>, bytes: Seq<u8>) -> Seq<u8>
    decreases bytes.len(),
{
    if bytes.len() == 0 {
        line
    } else {
        next_line(type_all(line, bytes.drop_last()), bytes.last())
    }
}

/// What the console shows while every byte of `bytes` is typed, starting
/// from `line`.
pub open spec fn echo_all(line: Seq<u8>, bytes: Seq<u8>) -> Seq<u8>
    decreases bytes.len(),
{
    if bytes.len() == 0 {
        Seq::empty()
    } else {
        echo_all(line, bytes.drop_last()) + echo(type_all(line, bytes.drop_last()), bytes.last())
    }
}

/// Typing a run of bytes from 32 to 126 appends exactly that run to the
/// line and echoes exactly that run: a command with spaces in it arrives
/// with its spaces.
pub proof fn lemma_printable_run(line: Seq<u8>, bytes: Seq<u8>)
    requires
        forall|i: int| 0 <= i < bytes.len() ==> 32 <= #[trigger] bytes[i] <= 126,
    ensures
        type_all(line, bytes) == line + bytes,
        echo_all(line, bytes) == bytes,
    decreases bytes.len(),
{
    if bytes.len() > 0 {
        let prev = bytes.drop_last();
        assert forall|i: int| 0 <= i < prev.len() implies 32 <= #[trigger] prev[i] <= 126 by {
            assert(prev[i] == bytes[i]);
        }
        lemma_printable_run(line, prev);
        assert(32 <= bytes[bytes.len() - 1] <= 126);
        lemma_printable_kept_and_echoed(line + prev, bytes.last());
        assert((line + prev).push(bytes.last()) =~= line + bytes);
        assert(prev + seq![bytes.last()] =~= bytes);
    }
}

/// After Enter, whatever was typed before is gone: typing a run of bytes
/// from 32 to 126 after Enter gives exactly that run, for either Enter byte.
pub proof fn lemma_fresh_line_after_enter(line: Seq<u8>, enter: u8, bytes: Seq<u8>)
    requires
        enter == 13 || enter == 10,
        forall|i: int| 0 <= i < bytes.len() ==> 32 <= #[trigger] bytes[i] <= 126,
    ensures
        type_all(next_line(line, enter), bytes) == bytes,
{
    lemma_enter_ends_line(line);
    lemma_printable_run(next_line(line, enter), bytes);
    assert(Seq::<u8>::empty() + bytes =~= bytes);
}

/// Typing a printable byte and then backspace leaves the line as it was,
/// and the screen shows the byte, then BS, space, BS.
pub proof fn lemma_type_then_erase(line: Seq<u8>, b: u8, erase: u8)
    requires
        is_printable(b),
        is_erase(erase),
    ensures
        next_line(next_line(line, b), erase) == line,
        echo(line, b) + echo(next_line(line, b), erase) == seq![b, BS, SPACE, BS],
{
    assert(line.push(b).drop_last() =~= line);
    assert(echo(line, b) + echo(next_line(line, b), erase) =~= seq![b, BS, SPACE, BS]);
}

/// Every byte `next_line` keeps is printable, whatever is typed.
pub proof fn lemma_next_line_printable(line: Seq<u8>, b: u8)
    requires
        forall|i: int| 0 <= i < line.len() ==> is_printable(#[trigger] line[i]),
    ensures
        forall|i: int|
            0 <= i < next_line(line, b).len() ==> is_printable(#[trigger] next_line(line, b)[i]),
{
}

} // verus!
