//! Encode and decode entry points: fixed-capacity ones that write into a
//! caller's buffer, and growable ones that return a vector.
use vstd::prelude::*;

use crate::adapters::{SliceReader, SliceWriter, VecWriter};
use crate::dictionary::Dictionary;
use crate::status::BrotliStatus;

verus! {

/// Size of each scratch buffer through which the codec pulls input and
/// pushes output.
pub const SCRATCH_LEN: usize = 4096;

/// The stream that brotli's encoder emits for `input` at quality `quality`
/// and window `lgwin` against dictionary `dict`, when the input reaches it in
/// pieces of `chunk` bytes; `None` where the encoder reports an error.
pub uninterp spec fn brotli_encoded(
    input: Seq<u8>,
    quality: u32,
    lgwin: u32,
    dict: Seq<u8>,
    chunk: nat,
) -> Option<Seq<u8>>;

/// What brotli's decoder makes of `stream` against dictionary `dict`: the
/// decoded bytes, or `None` where the stream is not valid against it.
pub uninterp spec fn brotli_decoded(stream: Seq<u8>, dict: Seq<u8>) -> Option<Seq<u8>>;

/// brotli's own worst-case size of a stream that encodes `n` bytes.
pub open spec fn brotli_max_compressed_size(n: nat) -> nat {
    if n == 0 {
        17
    } else {
        let word = usize::MAX as int + 1;
        let large_blocks: int = n as int / 16384;
        let tail: int = (n as int - (large_blocks * 16777216) % word) % word;
        let tail_overhead: int = if tail > 1048576 {
            4
        } else {
            3
        };
        (n + 2 + 4 * large_blocks + tail_overhead + 1 + 16) as nat
    }
}

/// The capacity that compression of `len` bytes at `level` is given.
pub open spec fn bound_of(len: nat, level: u32) -> nat {
    let base = brotli_max_compressed_size(len);
    let low = len + (len / 1024) * 8 + 64;
    if level <= 2 && base < low {
        low
    } else {
        base
    }
}

/// The window that brotli works with when asked for `window_size`: it reads
/// the value as a signed 32-bit number and clamps it into 10..=24.
pub open spec fn window_bits(window_size: u32) -> u32 {
    if window_size < 10 || window_size > i32::MAX {
        10
    } else if window_size > 24 {
        24
    } else {
        window_size
    }
}

/// The stream that this codec produces for `input`, or `None` where the
/// encoder reports an error.
pub open spec fn encoded(input: Seq<u8>, level: u32, window_size: u32, dictionary: Dictionary) -> Option<
    Seq<u8>,
> {
    brotli_encoded(input, level, window_bits(window_size), dictionary.bytes(), SCRATCH_LEN as nat)
}

/// Whether the stream for `input` exists and takes at most `room` bytes.
pub open spec fn encodes_within(
    input: Seq<u8>,
    level: u32,
    window_size: u32,
    dictionary: Dictionary,
    room: nat,
) -> bool {
    encoded(input, level, window_size, dictionary) matches Some(e) && e.len() <= room
}

/// Whether `stream` decodes and its content takes at most `room` bytes.
pub open spec fn decodes_within(stream: Seq<u8>, dictionary: Dictionary, room: nat) -> bool {
    decoded(stream, dictionary) matches Some(d) && d.len() <= room
}

/// Clamps a requested window the way brotli does, so that the encoder is
/// never handed a window it would shift by before clamping it itself.
pub fn clamp_window(window_size: u32) -> (r: u32)
    ensures
        r == window_bits(window_size),
        10 <= r <= 24,
{
    if window_size < 10 || window_size > 0x7fff_ffff {
        10
    } else if window_size > 24 {
        24
    } else {
        window_size
    }
}

/// What this codec decodes `stream` to, or `None`.
pub open spec fn decoded(stream: Seq<u8>, dictionary: Dictionary) -> Option<Seq<u8>> {
    brotli_decoded(stream, dictionary.bytes())
}

/// Capacity that suffices to compress `len` bytes at `level`: brotli's own
/// worst case, raised at the fast levels (2 and below), where brotli's
/// figure falls short.
pub fn compression_bound(len: usize, level: u32) -> (r: usize)
    requires
        len <= usize::MAX / 2,
    ensures
        r == bound_of(len as nat, level),
{
    let base_bound = max_compressed_size(len);
    if level <= 2 {
        let low: usize = len + (len / 1024) * 8 + 64;
        if base_bound < low {
            low
        } else {
            base_bound
        }
    } else {
        base_bound
    }
}

/// The one place where a codec run's output becomes a result: `Ok` with the
/// first `bytes_written` bytes of `out` when the backend succeeded and the
/// count lies within `out`, else `Failure`.
pub fn written_prefix<'a>(out: &'a [u8], bytes_written: usize, backend_ok: bool) -> (r: Result<
    &'a [u8],
    BrotliStatus,
>)
    ensures
        match r {
            Ok(prefix) => backend_ok && bytes_written <= out@.len() && prefix@ == out@.subrange(
                0,
                bytes_written as int,
            ),
            Err(s) => !(backend_ok && bytes_written <= out@.len()) && s == BrotliStatus::Failure,
        },
{
    if !backend_ok || bytes_written > out.len() {
        return Err(BrotliStatus::Failure);
    }
    Ok(vstd::slice::slice_subrange(out, 0, bytes_written))
}

/// Compresses `input` into the front of `output` and returns the part of
/// `output` that holds the stream. It fails when the stream does not fit or
/// the encoder reports an error; it never hands back a cut-off stream.
pub fn compress_fixed<'a>(
    input: &'a [u8],
    output: &'a mut [u8],
    level: u32,
    window_size: u32,
    dictionary: Dictionary,
) -> (r: Result<&'a [u8], BrotliStatus>)
    ensures
        final(output)@.len() == old(output)@.len(),
        match r {
            Ok(out) => {
                &&& encoded(input@, level, window_size, dictionary) == Some(out@)
                &&& final(output)@ == out@ + old(output)@.subrange(
                    out@.len() as int,
                    old(output)@.len() as int,
                )
            },
            Err(s) => s == BrotliStatus::Failure,
        },
        r is Ok <==> encodes_within(input@, level, window_size, dictionary, old(output)@.len()),
{
    let mut reader = SliceReader::new(input);
    let mut writer = SliceWriter::new(output);
    let mut input_buffer = [0u8; SCRATCH_LEN];
    let mut output_buffer = [0u8; SCRATCH_LEN];
    let dict: &[u8] = match dictionary.slice() {
        Some(d) => d,
        None => &[],
    };
    assert(dict@ == dictionary.bytes());
    assert(reader.unread() =~= input@);
    assert(input_buffer@.len() == SCRATCH_LEN);
    let result = encode_stream(
        &mut reader,
        &mut writer,
        &mut input_buffer,
        &mut output_buffer,
        level,
        clamp_window(window_size),
        dict,
    );
    let bytes_written = writer.position();
    let out = writer.into_inner();
    let shared: &'a [u8] = out;
    written_prefix(shared, bytes_written, result.is_ok())
}

/// Compresses `input` and appends the stream to `output`. The spare room is
/// sized by `compression_bound` once and zero-filled before the encoder
/// writes into it; a failure is reported as it is, not retried with more
/// room.
pub fn compress_into(
    input: &[u8],
    output: Vec<u8>,
    level: u32,
    window_size: u32,
    dictionary: Dictionary,
) -> (r: Result<Vec<u8>, BrotliStatus>)
    requires
        input@.len() <= usize::MAX / 2,
        output@.len() + bound_of(input@.len(), level) <= usize::MAX,
    ensures
        match r {
            Ok(v) => encoded(input@, level, window_size, dictionary) matches Some(e) && v@ == output@
                + e,
            Err(s) => s == BrotliStatus::Failure,
        },
        r is Ok <==> encodes_within(
            input@,
            level,
            window_size,
            dictionary,
            bound_of(input@.len(), level),
        ),
{
    let ghost old_output = output@;
    let mut output = output;
    let start = output.len();
    let bound = compression_bound(input.len(), level);
    output.resize(start + bound, 0u8);
    let count: usize;
    {
        let (_, space) = output.as_mut_slice().split_at_mut(start);
        match compress_fixed(input, space, level, window_size, dictionary) {
            Ok(written) => {
                count = written.len();
            },
            Err(s) => {
                return Err(s);
            },
        }
    }
    output.truncate(start + count);
    assert(output@ =~= old_output + encoded(input@, level, window_size, dictionary)->Some_0);
    Ok(output)
}

/// Compresses `input` into a new vector.
pub fn compress(input: &[u8], level: u32, window_size: u32, dictionary: Dictionary) -> (r: Result<
    Vec<u8>,
    BrotliStatus,
>)
    requires
        input@.len() <= usize::MAX / 2,
    ensures
        match r {
            Ok(v) => encoded(input@, level, window_size, dictionary) == Some(v@),
            Err(s) => s == BrotliStatus::Failure,
        },
        r is Ok <==> encodes_within(
            input@,
            level,
            window_size,
            dictionary,
            bound_of(input@.len(), level),
        ),
{
    let r = compress_into(input, Vec::new(), level, window_size, dictionary);
    proof {
        if let Some(e) = encoded(input@, level, window_size, dictionary) {
            assert(Seq::<u8>::empty() + e =~= e);
        }
    }
    r
}

/// Decompresses `input` into the front of `output` and returns the part of
/// `output` that holds the decoded bytes. It fails when the stream is not
/// valid against `dictionary` or its content does not fit; it never hands
/// back cut-off content.
pub fn decompress_fixed<'a>(input: &'a [u8], output: &'a mut [u8], dictionary: Dictionary) -> (r:
    Result<&'a [u8], BrotliStatus>)
    ensures
        final(output)@.len() == old(output)@.len(),
        match r {
            Ok(out) => decoded(input@, dictionary) == Some(out@) && final(output)@ == out@
                + old(output)@.subrange(out@.len() as int, old(output)@.len() as int),
            Err(s) => s == BrotliStatus::Failure,
        },
        r is Ok <==> decodes_within(input@, dictionary, old(output)@.len()),
{
    let mut reader = SliceReader::new(input);
    let mut writer = SliceWriter::new(output);
    let mut input_buffer = [0u8; SCRATCH_LEN];
    let mut output_buffer = [0u8; SCRATCH_LEN];
    let dict: &[u8] = match dictionary.slice() {
        Some(d) => d,
        None => &[],
    };
    assert(dict@ == dictionary.bytes());
    assert(reader.unread() =~= input@);
    let result = decode_stream(
        &mut reader,
        &mut writer,
        &mut input_buffer,
        &mut output_buffer,
        dict,
    );
    let bytes_written = writer.position();
    let out = writer.into_inner();
    let shared: &'a [u8] = out;
    written_prefix(shared, bytes_written, result.is_ok())
}

/// Decompresses `input` into a new vector, which grows as the content
/// arrives; it starts with room for twice the input.
pub fn decompress(input: &[u8], dictionary: Dictionary) -> (r: Result<Vec<u8>, BrotliStatus>)
    ensures
        match r {
            Ok(v) => decoded(input@, dictionary) == Some(v@),
            Err(s) => s == BrotliStatus::Failure,
        },
        r is Ok <==> decoded(input@, dictionary) is Some,
{
    let hint: usize = if input.len() <= usize::MAX / 2 {
        input.len() * 2
    } else {
        input.len()
    };
    let mut writer = VecWriter::with_capacity(hint);
    let mut reader = SliceReader::new(input);
    let mut input_buffer = [0u8; SCRATCH_LEN];
    let mut output_buffer = [0u8; SCRATCH_LEN];
    let dict: &[u8] = match dictionary.slice() {
        Some(d) => d,
        None => &[],
    };
    assert(dict@ == dictionary.bytes());
    assert(reader.unread() =~= input@);
    let result = decode_stream_growable(
        &mut reader,
        &mut writer,
        &mut input_buffer,
        &mut output_buffer,
        dict,
    );
    if result.is_err() {
        return Err(BrotliStatus::Failure);
    }
    let out = writer.into_inner();
    Ok(out)
}

/// Relies on brotli::enc::BrotliEncoderMaxCompressedSize, which computes
/// `brotli_max_compressed_size` in machine words; below half the word range
/// nothing wraps.
#[verifier::external_body]
fn max_compressed_size(n: usize) -> (r: usize)
    requires
        n <= usize::MAX / 2,
    ensures
        r == brotli_max_compressed_size(n as nat),
{
    brotli::enc::BrotliEncoderMaxCompressedSize(n)
}

/// Relies on brotli::BrotliCompressCustomIoCustomDict: it reads `reader`
/// through `in_buf` until a read yields nothing, encodes with quality and
/// window taken from `quality` and `lgwin` against `dict`, and pushes the
/// stream through `out_buf` into `writer` in order. It returns `Ok` with the
/// stream's length exactly when the encoder succeeds and the writer takes
/// every byte, which it does while it has room; the reader never fails. The
/// writer's own `write` is the only thing that touches it. brotli's built-in static
/// dictionary stays on, as its parameters have it by default.
#[verifier::external_body]
fn encode_stream(
    reader: &mut SliceReader,
    writer: &mut SliceWriter,
    in_buf: &mut [u8],
    out_buf: &mut [u8],
    quality: u32,
    lgwin: u32,
    dict: &[u8],
) -> (r: Result<usize, ()>)
    requires
        old(in_buf)@.len() > 0,
        old(out_buf)@.len() > 0,
        10 <= lgwin <= 24,
    ensures
        final(writer).capacity() == old(writer).capacity(),
        final(final(writer).buf)@ == final(old(writer).buf)@,
        old(writer).pos <= final(writer).pos,
        old(writer).pos <= old(writer).capacity() ==> final(writer).pos <= final(writer).capacity(),
        r is Ok <==> (brotli_encoded(old(reader).unread(), quality, lgwin, dict@, old(in_buf)@.len())
            matches Some(e) && e.len() <= old(writer).room()),
        r is Ok ==> ({
            let e = brotli_encoded(
                old(reader).unread(),
                quality,
                lgwin,
                dict@,
                old(in_buf)@.len(),
            )->Some_0;
            &&& r == Ok::<usize, ()>(e.len() as usize)
            &&& final(writer).pos == old(writer).pos + e.len()
            &&& final(writer).buf@ == old(writer).buf@.subrange(0, old(writer).pos as int) + e
                + old(writer).buf@.subrange(
                old(writer).pos + e.len(),
                old(writer).capacity() as int,
            )
        }),
{
    let mut params = brotli::enc::BrotliEncoderParams::default();
    params.quality = quality as i32;
    params.lgwin = lgwin as i32;
    brotli::BrotliCompressCustomIoCustomDict(
        reader,
        writer,
        in_buf,
        out_buf,
        &params,
        brotli::enc::StandardAlloc::default(),
        &mut |_, _: &mut [_], _, _: &mut _| (),
        dict,
        (),
    )
}

/// Relies on brotli::BrotliDecompressCustomIoCustomDict: it reads `reader`
/// through `in_buf` and pushes what it decodes against `dict` through
/// `out_buf` into `writer` in order. It returns `Ok` exactly when the stream
/// is complete and valid and the writer takes every decoded byte, which it
/// does while it has room; the reader never fails. The writer's own `write`
/// is the only thing that touches it.
#[verifier::external_body]
fn decode_stream(
    reader: &mut SliceReader,
    writer: &mut SliceWriter,
    in_buf: &mut [u8],
    out_buf: &mut [u8],
    dict: &[u8],
) -> (r: Result<(), ()>)
    requires
        old(in_buf)@.len() > 0,
        old(out_buf)@.len() > 0,
    ensures
        final(writer).capacity() == old(writer).capacity(),
        final(final(writer).buf)@ == final(old(writer).buf)@,
        old(writer).pos <= final(writer).pos,
        old(writer).pos <= old(writer).capacity() ==> final(writer).pos <= final(writer).capacity(),
        r is Ok <==> (brotli_decoded(old(reader).unread(), dict@) matches Some(d) && d.len()
            <= old(writer).room()),
        r is Ok ==> (brotli_decoded(old(reader).unread(), dict@) matches Some(d) && {
            &&& final(writer).pos == old(writer).pos + d.len()
            &&& final(writer).buf@ == old(writer).buf@.subrange(0, old(writer).pos as int) + d
                + old(writer).buf@.subrange(
                old(writer).pos + d.len(),
                old(writer).capacity() as int,
            )
        }),
{
    brotli::BrotliDecompressCustomIoCustomDict(
        reader,
        writer,
        in_buf,
        out_buf,
        brotli::enc::StandardAlloc::default(),
        brotli::enc::StandardAlloc::default(),
        brotli::enc::StandardAlloc::default(),
        dict.to_vec().into(),
        (),
    )
}

/// Relies on brotli::BrotliDecompressCustomIoCustomDict, as `decode_stream`
/// does, with a sink that takes every byte: it returns `Ok` exactly when the
/// stream is complete and valid, and the writer then holds its decoded bytes
/// after what it held before.
#[verifier::external_body]
fn decode_stream_growable(
    reader: &mut SliceReader,
    writer: &mut VecWriter,
    in_buf: &mut [u8],
    out_buf: &mut [u8],
    dict: &[u8],
) -> (r: Result<(), ()>)
    requires
        old(in_buf)@.len() > 0,
        old(out_buf)@.len() > 0,
    ensures
        r is Ok <==> brotli_decoded(old(reader).unread(), dict@) is Some,
        r is Ok ==> (brotli_decoded(old(reader).unread(), dict@) matches Some(d) && final(writer)@
            == old(writer)@ + d),
{
    brotli::BrotliDecompressCustomIoCustomDict(
        reader,
        writer,
        in_buf,
        out_buf,
        brotli::enc::StandardAlloc::default(),
        brotli::enc::StandardAlloc::default(),
        brotli::enc::StandardAlloc::default(),
        dict.to_vec().into(),
        (),
    )
}

} // verus!
