//! The `write` system call: lossy UTF-8 decoding of the written bytes.
use vstd::prelude::*;
use vstd::utf8::valid_utf8;

use crate::abi::FD_STDOUT;

verus! {

/// What `core::str::from_utf8` reports about `bytes`: `None` when they are
/// valid UTF-8, otherwise `valid_up_to()` and `error_len()` of the error.
pub uninterp spec fn utf8_error(bytes: Seq<u8>) -> Option<(usize, Option<usize>)>;

/// `core::str::from_utf8`, with the error turned into `valid_up_to()` and
/// `error_len()`. Its documentation states: the call fails exactly when the
/// bytes are not valid UTF-8; `valid_up_to` is the largest index up to which
/// the bytes are valid (the prefix up to it is valid, no longer prefix is,
/// and it lies before the end); `error_len`, when
/// present, is the length of the invalid sequence that starts there, and
/// when absent (the input ends inside a character) `valid_up_to` is 1 to 3
/// bytes from the end. Which
/// sequence counts as one invalid sequence is left to the name
/// [`utf8_error`].
#[verifier::external_body]
fn check_utf8(bytes: &[u8]) -> (r: Option<(usize, Option<usize>)>)
    ensures
        r == utf8_error(bytes@),
        r is None <==> valid_utf8(bytes@),
        r matches Some((v, e)) ==> {
            &&& v < bytes@.len()
            &&& valid_utf8(bytes@.subrange(0, v as int))
            &&& forall|k: int| v < k <= bytes@.len() ==> !valid_utf8(#[trigger] bytes@.subrange(0, k))
            &&& e matches Some(n) ==> 0 < n && v + n <= bytes@.len()
            &&& e is None ==> bytes@.len() - v <= 3
        },
{
    match core::str::from_utf8(bytes) {
        Ok(_) => None,
        Err(error) => Some((error.valid_up_to(), error.error_len())),
    }
}

/// One piece of lossily decoded output.
#[derive(Copy, Clone, PartialEq, Eq, Structural, Debug)]
pub enum Piece {
    /// The bytes `start..end` of the input, which are valid UTF-8.
    Text { start: usize, end: usize },
    /// The marker printed in place of an invalid sequence.
    Replacement,
}

/// One step of lossy decoding of the `len` bytes from byte `offset` on,
/// given what `from_utf8` reports about them: all valid — one text piece and
/// the end; an invalid sequence of `n` bytes after `v` valid ones — the
/// valid text, a replacement marker, and decoding resumes after the
/// sequence; input ending inside a character after `v` valid bytes — the
/// valid text, a marker, and the end.
pub open spec fn lossy_step_spec(offset: int, len: int, check: Option<(usize, Option<usize>)>) -> (
    Seq<Piece>,
    Option<usize>,
) {
    match check {
        None => (seq![Piece::Text { start: offset as usize, end: (offset + len) as usize }], None),
        Some((v, None)) => (
            seq![Piece::Text { start: offset as usize, end: (offset + v) as usize }, Piece::Replacement],
            None,
        ),
        Some((v, Some(n))) => (
            seq![Piece::Text { start: offset as usize, end: (offset + v) as usize }, Piece::Replacement],
            Some((offset + v + n) as usize),
        ),
    }
}

/// Lossy decoding of `input`, whose first byte is byte `offset` of the
/// whole buffer: the pieces of one step, then the decoding of the bytes
/// from where the step resumes.
pub open spec fn lossy_pieces(input: Seq<u8>, offset: nat) -> Seq<Piece>
    decreases input.len(),
{
    let (step, next) = lossy_step_spec(offset as int, input.len() as int, utf8_error(input));
    match next {
        Some(resume) => if offset < resume <= offset + input.len() {
            step + lossy_pieces(
                input.subrange(resume - offset, input.len() as int),
                resume as nat,
            )
        } else {
            step
        },
        None => step,
    }
}

/// Law: lossy decoding of `input` (byte `offset` of the buffer on) when
/// `from_utf8` reports an invalid sequence of `n` bytes after `v` valid ones:
/// the valid text, exactly one replacement marker, and then the decoding of
/// the bytes right after the invalid sequence.
pub proof fn lemma_lossy_resumes_after_invalid_sequence(
    input: Seq<u8>,
    offset: nat,
    v: usize,
    n: usize,
)
    requires
        utf8_error(input) == Some((v, Some(n))),
        0 < n,
        v + n <= input.len(),
        offset + input.len() <= usize::MAX,
    ensures
        lossy_pieces(input, offset) == seq![
            Piece::Text { start: offset as usize, end: (offset + v) as usize },
            Piece::Replacement,
        ] + lossy_pieces(input.subrange(v + n, input.len() as int), (offset + v + n) as nat),
{
}

/// Law: lossy decoding of valid UTF-8 is one text piece covering it, and of
/// input that ends inside a character after `v` valid bytes, the valid text
/// and one replacement marker.
pub proof fn lemma_lossy_valid_or_truncated(input: Seq<u8>, offset: nat)
    requires
        offset + input.len() <= usize::MAX,
    ensures
        utf8_error(input) is None ==> lossy_pieces(input, offset) == seq![
            Piece::Text { start: offset as usize, end: (offset + input.len()) as usize },
        ],
        utf8_error(input) matches Some((v, None)) ==> lossy_pieces(input, offset) == seq![
            Piece::Text { start: offset as usize, end: (offset + v) as usize },
            Piece::Replacement,
        ],
{
}

/// A text piece covers a valid UTF-8 stretch of `input`.
pub open spec fn text_in(p: Piece, input: Seq<u8>) -> bool {
    p matches Piece::Text { start, end } ==> start <= end <= input.len() && valid_utf8(
        input.subrange(start as int, end as int),
    )
}

/// One step of lossy decoding (see [`lossy_step_spec`]) of the `len` bytes
/// from byte `offset` on, given what `from_utf8` reported about them.
pub fn lossy_step(offset: usize, len: usize, check: Option<(usize, Option<usize>)>) -> (r: (
    Vec<Piece>,
    Option<usize>,
))
    requires
        offset + len <= usize::MAX,
        check matches Some((v, e)) ==> v <= len && (e matches Some(n) ==> v + n <= len),
    ensures
        (r.0@, r.1) == lossy_step_spec(offset as int, len as int, check),
        check matches Some((v, Some(n))) ==> r.1 == Some((offset + v + n) as usize),
        check matches Some((v, _)) ==> r.0@ == seq![
            Piece::Text { start: offset, end: (offset + v) as usize },
            Piece::Replacement,
        ],
        check is None ==> r.0@ == seq![Piece::Text { start: offset, end: (offset + len) as usize }]
            && r.1 is None,
{
    let mut step: Vec<Piece> = Vec::new();
    match check {
        None => {
            step.push(Piece::Text { start: offset, end: offset + len });
            (step, None)
        },
        Some((valid_up_to, error_len)) => {
            step.push(Piece::Text { start: offset, end: offset + valid_up_to });
            step.push(Piece::Replacement);
            match error_len {
                Some(invalid_sequence_length) => (
                    step,
                    Some(offset + valid_up_to + invalid_sequence_length),
                ),
                None => (step, None),
            }
        },
    }
}

/// Splits `input` into valid UTF-8 text and replacement markers, the way
/// the kernel prints what an application writes.
pub fn from_utf8_lossy(input: &[u8]) -> (pieces: Vec<Piece>)
    ensures
        pieces@ == lossy_pieces(input@, 0),
        forall|i: int| 0 <= i < pieces@.len() ==> #[trigger] text_in(pieces@[i], input@),
        valid_utf8(input@) ==> pieces@ == seq![Piece::Text { start: 0, end: input@.len() as usize }],
{
    let mut pieces: Vec<Piece> = Vec::new();
    let mut rest: &[u8] = input;
    let mut offset: usize = 0;
    let total = input.len();
    loop
        invariant_except_break
            total == input@.len(),
            offset + rest@.len() == input@.len(),
            rest@ == input@.subrange(offset as int, input@.len() as int),
            pieces@ + lossy_pieces(rest@, offset as nat) == lossy_pieces(input@, 0),
            forall|i: int| 0 <= i < pieces@.len() ==> #[trigger] text_in(pieces@[i], input@),
            valid_utf8(input@) ==> offset == 0 && pieces@.len() == 0,
        ensures
            pieces@ == lossy_pieces(input@, 0),
            forall|i: int| 0 <= i < pieces@.len() ==> #[trigger] text_in(pieces@[i], input@),
            valid_utf8(input@) ==> pieces@ == seq![Piece::Text { start: 0, end: input@.len() as usize }],
        decreases rest@.len(),
    {
        let check = check_utf8(rest);
        let ghost before = pieces@;
        let ghost old_rest = rest@;
        let ghost old_offset = offset;
        let (mut step, next) = lossy_step(offset, rest.len(), check);
        proof {
            match check {
                None => {
                    assert(rest@.subrange(0, rest@.len() as int) =~= rest@);
                },
                Some((v, _)) => {
                    assert(!valid_utf8(input@)) by {
                        if valid_utf8(input@) {
                            assert(rest@ =~= input@);
                        }
                    }
                    assert(rest@.subrange(0, v as int) =~= input@.subrange(
                        offset as int,
                        offset + v,
                    ));
                },
            }
            assert(forall|i: int| 0 <= i < step@.len() ==> #[trigger] text_in(step@[i], input@));
        }
        pieces.append(&mut step);
        proof {
            assert forall|i: int| 0 <= i < pieces@.len() implies #[trigger] text_in(pieces@[i], input@) by {
                if i >= before.len() {
                    assert(pieces@[i] == lossy_step_spec(old_offset as int, old_rest.len() as int, check).0[i - before.len()]);
                }
            }
        }
        match next {
            Some(resume) => {
                rest = &input[resume..total];
                offset = resume;
                proof {
                    assert(rest@ =~= old_rest.subrange(resume - old_offset, old_rest.len() as int));
                    assert(pieces@ + lossy_pieces(rest@, offset as nat) =~= before
                        + lossy_pieces(old_rest, old_offset as nat));
                }
            },
            None => {
                proof {
                    if valid_utf8(input@) {
                        assert(pieces@ =~= seq![Piece::Text { start: 0, end: input@.len() as usize }]);
                    }
                    assert(pieces@ =~= lossy_pieces(input@, 0));
                }
                break ;
            },
        }
    }
    pieces
}

/// `write` of `buffer` to file `fd`, which must be standard output (the
/// only file there is): the pieces to print and the number of bytes written
/// (the whole buffer, as an `isize`).
pub fn sys_write(fd: usize, buffer: &[u8]) -> (r: (Vec<Piece>, isize))
    requires
        fd == FD_STDOUT,
    ensures
        r.0@ == lossy_pieces(buffer@, 0),
        forall|i: int| 0 <= i < r.0@.len() ==> #[trigger] text_in(r.0@[i], buffer@),
        r.1 == buffer@.len() as isize,
{
    let pieces = from_utf8_lossy(buffer);
    (pieces, buffer.len() as isize)
}

} // verus!
