//! Streaming compression codec.
//!
//! Wraps an arbitrary-length buffer in a size-unbounded compressed stream.
//! Compress and decompress are structurally symmetric incremental loops: each
//! iteration feeds the remaining input to the underlying stream (compression
//! under a terminal flush; decompression as a resumable read, since the
//! stream announces its own end), grows the destination by a fixed chunk when
//! the stream wants more space, and advances the input cursor by exactly the
//! number of bytes the stream reports as consumed. An iteration that consumes
//! nothing and produces nothing without reaching stream end aborts with a stall
//! error: that guard is the sole defense against unbounded looping on
//! truncated or adversarial compressed input, and it is what the termination
//! measures of both loops rest on.
//!
//! The underlying stream is flate2's zlib implementation, modelled here by
//! uninterpreted functions: what a stream has consumed and produced so far,
//! what a complete stream decodes to, and a bound on how much output a given
//! amount of consumed input can ever yield.
use vstd::prelude::*;

verus! {

#[verifier::external_type_specification]
#[verifier::external_body]
pub struct ExCompress(flate2::Compress);

#[verifier::external_type_specification]
#[verifier::external_body]
pub struct ExDecompress(flate2::Decompress);

#[verifier::external_type_specification]
#[verifier::external_body]
pub struct ExCompressError(flate2::CompressError);

#[verifier::external_type_specification]
#[verifier::external_body]
pub struct ExDecompressError(flate2::DecompressError);

/// What a fresh decompressor yields from a byte sequence beginning with one
/// complete compressed stream; `None` when no complete valid stream starts
/// there. Trailing bytes after the stream's end do not affect the result.
pub uninterp spec fn inflate_of(input: Seq<u8>) -> Option<Seq<u8>>;

/// An upper bound on how many bytes a decompressor can ever have produced
/// after consuming exactly `input`: decompressed output is decoded from the
/// consumed bytes alone.
pub uninterp spec fn inflate_cap(input: Seq<u8>) -> nat;

/// An upper bound on how many bytes a compressor can ever have produced after
/// being fed exactly `input`: compressed output is derived from the consumed
/// bytes alone.
pub uninterp spec fn deflate_cap(input: Seq<u8>) -> nat;

/// The bytes a decompressor has consumed so far.
pub uninterp spec fn taken_in(d: flate2::Decompress) -> Seq<u8>;

/// The bytes a decompressor has produced so far.
pub uninterp spec fn given_out(d: flate2::Decompress) -> Seq<u8>;

/// The bytes a compressor has consumed so far.
pub uninterp spec fn fed_in(c: flate2::Compress) -> Seq<u8>;

/// The bytes a compressor has produced so far.
pub uninterp spec fn pressed_out(c: flate2::Compress) -> Seq<u8>;

/// Whether a compressor has finished its stream; a finished stream consumes
/// nothing more.
pub uninterp spec fn deflate_done(c: flate2::Compress) -> bool;

/// What one step of the underlying stream reported, beyond its byte counts.
#[derive(Clone, Copy, Debug, PartialEq, Eq, Structural)]
pub enum StepStatus {
    /// The stream made ordinary progress.
    Wait,
    /// The stream wants more output space.
    NeedSpace,
    /// The stream reached its end.
    End,
}

/// Why compression failed.
#[derive(Debug)]
pub enum CompressFault {
    /// The underlying stream reported an error.
    Backend(flate2::CompressError),
    /// An iteration consumed and produced nothing before stream end. The
    /// guard mirrors the decompression side's; on this side the contracts
    /// prove it is never taken.
    Stall,
}

/// Why decompression failed.
#[derive(Debug)]
pub enum DecompressFault {
    /// The underlying stream reported an error.
    Backend(flate2::DecompressError),
    /// An iteration consumed and produced nothing before stream end.
    Stall,
}

/// Relies on `flate2::Decompress::new`: a fresh zlib decompressor has
/// consumed and produced nothing.
#[verifier::external_body]
fn new_decompress() -> (d: flate2::Decompress)
    ensures
        taken_in(d) == Seq::<u8>::empty(),
        given_out(d) == Seq::<u8>::empty(),
{
    flate2::Decompress::new(true)
}

/// Relies on `flate2::Compress::new`: a fresh zlib compressor at the default
/// level has consumed and produced nothing.
#[verifier::external_body]
fn new_compress() -> (c: flate2::Compress)
    ensures
        fed_in(c) == Seq::<u8>::empty(),
        pressed_out(c) == Seq::<u8>::empty(),
        !deflate_done(c),
{
    flate2::Compress::new(flate2::Compression::default(), true)
}

/// Relies on `flate2::Decompress::decompress_vec`: it appends what it
/// produces to `out` (after space is reserved), consumes a prefix of `input`,
/// reports both counts through `total_in`/`total_out`, and at `StreamEnd` the
/// bytes produced over the stream's whole life are the decoding of the bytes
/// consumed, whatever trailing input follows them. The read is resumable: no
/// terminal flush is requested, since the stream announces its own end.
///
/// Two further facts of the backend carry the callers' liveness and failure
/// contracts: with fresh output space, a step that consumes nothing and
/// produces nothing without reaching stream end happens only when it was
/// handed no input while the stream is still unfinished; and a reported
/// error means the stream is corrupt, so no extension of the bytes seen so
/// far begins with a complete valid stream.
#[verifier::external_body]
fn decompress_step(d: &mut flate2::Decompress, input: &[u8], out: &mut Vec<u8>) -> (r: Result<
    (StepStatus, usize, usize),
    flate2::DecompressError,
>)
    ensures
        match r {
            Ok((st, consumed, produced)) => {
                &&& consumed <= input@.len()
                &&& taken_in(*final(d)) == taken_in(*old(d)) + input@.take(consumed as int)
                &&& final(out)@.len() == old(out)@.len() + produced
                &&& final(out)@.take(old(out)@.len() as int) == old(out)@
                &&& given_out(*final(d)) == given_out(*old(d)) + final(out)@.skip(
                    old(out)@.len() as int,
                )
                &&& given_out(*final(d)).len() <= inflate_cap(taken_in(*final(d)))
                &&& (st == StepStatus::End ==> forall|rest: Seq<u8>|
                    inflate_of(taken_in(*final(d)) + rest) == Some(given_out(*final(d))))
                &&& (st != StepStatus::End && consumed == 0 && produced == 0 ==> input@.len() == 0
                    && inflate_of(taken_in(*final(d))) is None)
            },
            Err(_) => forall|rest: Seq<u8>| inflate_of(taken_in(*old(d)) + input@ + rest) is None,
        },
{
    out.reserve(1024);
    let (before_in, before_out) = (d.total_in(), d.total_out());
    let st = d.decompress_vec(input, out, flate2::FlushDecompress::None)?;
    let step = match st {
        flate2::Status::Ok => StepStatus::Wait,
        flate2::Status::BufError => StepStatus::NeedSpace,
        flate2::Status::StreamEnd => StepStatus::End,
    };
    Ok((step, (d.total_in() - before_in) as usize, (d.total_out() - before_out) as usize))
}

/// Relies on `flate2::Compress::compress_vec` with a terminal flush: it
/// appends what it produces to `out` (after space is reserved), consumes a
/// prefix of `input`, and reports both counts through `total_in`/`total_out`.
/// `StreamEnd` reports exactly that the stream is finished; on a stream that
/// was not already finished it means all input handed to this call has been
/// consumed and the bytes produced over the stream's whole life form one
/// complete stream that decompresses back to the bytes consumed. Under the
/// terminal flush, with fresh output space, every step short of stream end
/// consumes or produces at least one byte, so compression can never stall.
#[verifier::external_body]
fn compress_step(c: &mut flate2::Compress, input: &[u8], out: &mut Vec<u8>) -> (r: Result<
    (StepStatus, usize, usize),
    flate2::CompressError,
>)
    ensures
        match r {
            Ok((st, consumed, produced)) => {
                &&& consumed <= input@.len()
                &&& fed_in(*final(c)) == fed_in(*old(c)) + input@.take(consumed as int)
                &&& final(out)@.len() == old(out)@.len() + produced
                &&& final(out)@.take(old(out)@.len() as int) == old(out)@
                &&& pressed_out(*final(c)) == pressed_out(*old(c)) + final(out)@.skip(
                    old(out)@.len() as int,
                )
                &&& pressed_out(*final(c)).len() <= deflate_cap(fed_in(*final(c)))
                &&& (st == StepStatus::End <==> deflate_done(*final(c)))
                &&& (st == StepStatus::End && !deflate_done(*old(c)) ==> consumed == input@.len()
                    && inflate_of(pressed_out(*final(c))) == Some(fed_in(*final(c))))
                &&& (st != StepStatus::End ==> consumed + produced > 0)
            },
            Err(_) => true,
        },
{
    out.reserve(1024);
    let (before_in, before_out) = (c.total_in(), c.total_out());
    let st = c.compress_vec(input, out, flate2::FlushCompress::Finish)?;
    let step = match st {
        flate2::Status::Ok => StepStatus::Wait,
        flate2::Status::BufError => StepStatus::NeedSpace,
        flate2::Status::StreamEnd => StepStatus::End,
    };
    Ok((step, (c.total_in() - before_in) as usize, (c.total_out() - before_out) as usize))
}

/// Compresses a whole buffer into one complete stream.
///
/// On success the output is a stream that decompresses back to exactly the
/// input; the only failure left open is a fault of the stream itself. The
/// stall guard mirrors the decompression side's, and on this side it is
/// provably never taken: a non-terminal step always makes progress.
pub fn compress(input: &[u8]) -> (r: Result<Vec<u8>, CompressFault>)
    ensures
        r matches Ok(out) ==> inflate_of(out@) == Some(input@),
        r matches Err(f) ==> f is Backend,
{
    let mut c = new_compress();
    let mut dst: Vec<u8> = Vec::new();
    let mut cursor: usize = 0;
    let total = input.len();
    assert(fed_in(c) =~= input@.take(0));
    loop
        invariant_except_break
            cursor <= input@.len(),
            total == input@.len(),
            !deflate_done(c),
            fed_in(c) == input@.take(cursor as int),
            pressed_out(c) == dst@,
            dst@.len() <= deflate_cap(fed_in(c)),
        ensures
            inflate_of(dst@) == Some(input@),
        decreases input@.len() - cursor, deflate_cap(input@.take(cursor as int)) - dst@.len(),
    {
        let remaining = input.split_at(cursor).1;
        assert(remaining@ =~= input@.skip(cursor as int));
        let ghost dst_before = dst@;
        let (st, consumed, produced) = match compress_step(&mut c, remaining, &mut dst) {
            Ok(step) => step,
            Err(e) => {
                return Err(CompressFault::Backend(e));
            },
        };
        proof {
            assert(input@.take(cursor as int) + input@.skip(cursor as int).take(consumed as int)
                =~= input@.take(cursor + consumed));
            assert(dst_before + dst@.skip(dst_before.len() as int) =~= dst@);
        }
        cursor = cursor + consumed;
        match st {
            StepStatus::End => {
                assert(input@.take(cursor as int) =~= input@);
                break;
            },
            _ => {},
        }
        if consumed == 0 && produced == 0 {
            proof {
                assert(false);
            }
            return Err(CompressFault::Stall);
        }
        proof {
            if consumed == 0 {
                assert(input@.take(cursor as int) + input@.skip(cursor as int).take(0)
                    =~= input@.take(cursor as int));
            }
        }
    }
    Ok(dst)
}

/// Decompresses one complete stream from the front of a buffer.
///
/// The result is complete: the call succeeds if and only if the input begins
/// with one complete valid stream, whose decoding it returns. An iteration
/// that makes no progress before stream end yields the stall fault instead of
/// looping forever, and faults come only from input that holds no complete
/// stream.
pub fn decompress(input: &[u8]) -> (r: Result<Vec<u8>, DecompressFault>)
    ensures
        r matches Ok(out) ==> inflate_of(input@) == Some(out@),
        r is Err ==> inflate_of(input@) is None,
{
    let mut d = new_decompress();
    let mut raw: Vec<u8> = Vec::new();
    let mut cursor: usize = 0;
    let total = input.len();
    assert(taken_in(d) =~= input@.take(0));
    loop
        invariant_except_break
            cursor <= input@.len(),
            total == input@.len(),
            taken_in(d) == input@.take(cursor as int),
            given_out(d) == raw@,
            raw@.len() <= inflate_cap(taken_in(d)),
        ensures
            inflate_of(input@) == Some(raw@),
        decreases input@.len() - cursor, inflate_cap(input@.take(cursor as int)) - raw@.len(),
    {
        let remaining = input.split_at(cursor).1;
        assert(remaining@ =~= input@.skip(cursor as int));
        let ghost raw_before = raw@;
        let (st, consumed, produced) = match decompress_step(&mut d, remaining, &mut raw) {
            Ok(step) => step,
            Err(e) => {
                proof {
                    assert(inflate_of(input@.take(cursor as int) + input@.skip(cursor as int)
                        + Seq::<u8>::empty()) is None);
                    assert(input@.take(cursor as int) + input@.skip(cursor as int)
                        + Seq::<u8>::empty() =~= input@);
                }
                return Err(DecompressFault::Backend(e));
            },
        };
        proof {
            assert(input@.take(cursor as int) + input@.skip(cursor as int).take(consumed as int)
                =~= input@.take(cursor + consumed));
            assert(raw_before + raw@.skip(raw_before.len() as int) =~= raw@);
        }
        cursor = cursor + consumed;
        match st {
            StepStatus::End => {
                proof {
                    let rest = input@.skip(cursor as int);
                    assert(inflate_of(taken_in(d) + rest) == Some(given_out(d)));
                    assert(taken_in(d) + rest =~= input@);
                }
                break;
            },
            _ => {},
        }
        if consumed == 0 && produced == 0 {
            proof {
                assert(input@.skip(cursor as int).len() == 0);
                assert(cursor == input@.len());
                assert(taken_in(d) =~= input@);
            }
            return Err(DecompressFault::Stall);
        }
        proof {
            if consumed == 0 {
                assert(input@.take(cursor as int) + input@.skip(cursor as int).take(0)
                    =~= input@.take(cursor as int));
            }
        }
    }
    Ok(raw)
}

} // verus!
