//! Bounded decompression of section chunks.
//!
//! A legacy chunk is compressed with the PKWARE implode algorithm, a modern
//! chunk with zlib. Both decompressors come from outside crates and are driven
//! through [`SafeDecompressor`], a guard that enforces three independent
//! limits on every read — output size, output/input ratio and elapsed time —
//! so that a crafted chunk ("decompression bomb") cannot exhaust memory or
//! time.

use vstd::prelude::*;

use crate::errors::DecompressionError;

verus! {

// ---------------------------------------------------------------------------
// Declarations of the outside types that carry a decompression in progress.
// ---------------------------------------------------------------------------

/// Declares `std::io::Cursor`, the in-memory reader both decompressors pull
/// their compressed input from.
#[verifier::external_type_specification]
#[verifier::external_body]
#[verifier::reject_recursive_types(T)]
pub struct ExCursor<T>(std::io::Cursor<T>);

/// Declares `explode::ExplodeReader`, the streaming decoder for the PKWARE
/// implode algorithm used by legacy chunks.
#[verifier::external_type_specification]
#[verifier::external_body]
#[verifier::reject_recursive_types(R)]
pub struct ExExplodeReader<R>(explode::ExplodeReader<R>);

/// Declares `flate2::bufread::ZlibDecoder`, the streaming decoder for the
/// zlib streams used by modern chunks.
#[verifier::external_type_specification]
#[verifier::external_body]
#[verifier::reject_recursive_types(R)]
pub struct ExZlibDecoder<R>(flate2::bufread::ZlibDecoder<R>);

/// Declares `std::time::Instant`, the monotonic clock point the guard's lazy
/// timer starts from.
#[verifier::external_type_specification]
#[verifier::external_body]
pub struct ExInstant(std::time::Instant);

// ---------------------------------------------------------------------------
// Names for what the decompressors compute. Decompression of a byte stream is
// deterministic — the same input always yields the same output — but stating
// the algorithms themselves would take pages, so their results are named and
// every contract speaks through the names.
// ---------------------------------------------------------------------------

/// The bytes the PKWARE implode decoder ultimately produces for `input`
/// (meaningful where `implode_wf(input)` holds).
pub uninterp spec fn implode_decoded(input: Seq<u8>) -> Seq<u8>;

/// Whether the implode decoder, fed `input`, reaches the end-of-stream marker
/// without a decoding error.
pub uninterp spec fn implode_wf(input: Seq<u8>) -> bool;

/// The bytes the zlib decoder ultimately produces for `input` (meaningful
/// where `zlib_wf(input)` holds).
pub uninterp spec fn zlib_decoded(input: Seq<u8>) -> Seq<u8>;

/// Whether the zlib decoder, fed `input`, reaches the end of the compressed
/// stream without a decoding error.
pub uninterp spec fn zlib_wf(input: Seq<u8>) -> bool;

/// Whether an implode reader has reported a decoding error. The decoder does
/// not pin a failed stream: a read after an error resumes on the remaining
/// bytes, so nothing is claimed of reads made after a failure.
pub uninterp spec fn explode_reader_failed(
    r: explode::ExplodeReader<std::io::Cursor<Vec<u8>>>,
) -> bool;

/// Whether a zlib reader has reported a decoding error. flate2's decoder does
/// pin a failed stream (every later read errors again), but for symmetry
/// nothing is claimed of reads made after a failure here either.
pub uninterp spec fn zlib_reader_failed(
    r: flate2::bufread::ZlibDecoder<std::io::Cursor<Vec<u8>>>,
) -> bool;

/// The compressed input an implode reader was constructed over.
pub uninterp spec fn explode_reader_source(
    r: explode::ExplodeReader<std::io::Cursor<Vec<u8>>>,
) -> Seq<u8>;

/// The decoded bytes an implode reader has handed out so far.
pub uninterp spec fn explode_reader_emitted(
    r: explode::ExplodeReader<std::io::Cursor<Vec<u8>>>,
) -> Seq<u8>;

/// The compressed input a zlib reader was constructed over.
pub uninterp spec fn zlib_reader_source(
    r: flate2::bufread::ZlibDecoder<std::io::Cursor<Vec<u8>>>,
) -> Seq<u8>;

/// The decoded bytes a zlib reader has handed out so far.
pub uninterp spec fn zlib_reader_emitted(
    r: flate2::bufread::ZlibDecoder<std::io::Cursor<Vec<u8>>>,
) -> Seq<u8>;

// ---------------------------------------------------------------------------
// Trusted wrappers around the decompressor streams.
// ---------------------------------------------------------------------------

/// Relies on `explode::ExplodeReader::new` over an in-memory cursor: the
/// reader decodes exactly the bytes handed to it and starts out having
/// produced nothing.
#[verifier::external_body]
fn explode_reader_new(data: Vec<u8>) -> (r: explode::ExplodeReader<std::io::Cursor<Vec<u8>>>)
    ensures
        explode_reader_source(r) == data@,
        explode_reader_emitted(r) == Seq::<u8>::empty(),
        !explode_reader_failed(r),
{
    explode::ExplodeReader::new(std::io::Cursor::new(data))
}

/// Relies on `<explode::ExplodeReader as std::io::Read>::read`: on a stream
/// that has not failed, it hands out at most `n` further bytes of the decoded
/// stream, in order; it returns `Ok(0)` (for `n >= 1`) exactly when the
/// end-of-stream marker has been reached, by which point the full decoded
/// stream has been handed out; and it returns an error only on input the
/// decoder cannot finish. The decoder does not pin a failed stream — a read
/// made after an error resumes mid-stream — so every claim but the source
/// staying put is conditioned on the stream not having failed, and an error
/// marks it failed.
#[verifier::external_body]
fn explode_reader_read(
    r: &mut explode::ExplodeReader<std::io::Cursor<Vec<u8>>>,
    n: usize,
) -> (res: Result<Vec<u8>, ()>)
    requires
        1 <= n,
    ensures
        explode_reader_source(*final(r)) == explode_reader_source(*old(r)),
        implode_wf(explode_reader_source(*old(r))) && !explode_reader_failed(*old(r))
            ==> explode_reader_emitted(*final(r)).is_prefix_of(
            implode_decoded(explode_reader_source(*old(r))),
        ),
        !explode_reader_failed(*old(r)) ==> match res {
            Ok(buf) => {
                &&& buf@.len() <= n
                &&& !explode_reader_failed(*final(r))
                &&& explode_reader_emitted(*final(r)) == explode_reader_emitted(*old(r)) + buf@
                &&& buf@.len() == 0 ==> {
                    &&& implode_wf(explode_reader_source(*old(r)))
                    &&& explode_reader_emitted(*old(r)) == implode_decoded(
                        explode_reader_source(*old(r)),
                    )
                }
            },
            Err(_) => {
                &&& explode_reader_failed(*final(r))
                &&& explode_reader_emitted(*final(r)) == explode_reader_emitted(*old(r))
                &&& !implode_wf(explode_reader_source(*old(r)))
            },
        },
{
    let mut buf = vec![0u8; n];
    match std::io::Read::read(r, &mut buf) {
        Ok(k) => {
            buf.truncate(k);
            Ok(buf)
        },
        Err(_) => Err(()),
    }
}

/// Relies on `flate2::bufread::ZlibDecoder::new` over an in-memory cursor:
/// the reader decodes exactly the bytes handed to it and starts out having
/// produced nothing.
#[verifier::external_body]
fn zlib_reader_new(data: Vec<u8>) -> (r: flate2::bufread::ZlibDecoder<std::io::Cursor<Vec<u8>>>)
    ensures
        zlib_reader_source(r) == data@,
        zlib_reader_emitted(r) == Seq::<u8>::empty(),
        !zlib_reader_failed(r),
{
    flate2::bufread::ZlibDecoder::new(std::io::Cursor::new(data))
}

/// Relies on `<flate2::bufread::ZlibDecoder as std::io::Read>::read`: on a
/// stream that has not failed, it hands out at most `n` further bytes of the
/// decoded stream, in order; it returns `Ok(0)` (for `n >= 1`) exactly at the
/// end of the compressed stream, by which point the full decoded stream has
/// been handed out; and it returns an error only on truncated or corrupt
/// input, leaving the stream failed. (flate2 in fact keeps a failed stream
/// failed, but nothing here relies on more than that an error marks it.)
#[verifier::external_body]
fn zlib_reader_read(
    r: &mut flate2::bufread::ZlibDecoder<std::io::Cursor<Vec<u8>>>,
    n: usize,
) -> (res: Result<Vec<u8>, ()>)
    requires
        1 <= n,
    ensures
        zlib_reader_source(*final(r)) == zlib_reader_source(*old(r)),
        zlib_wf(zlib_reader_source(*old(r))) && !zlib_reader_failed(*old(r))
            ==> zlib_reader_emitted(*final(r)).is_prefix_of(
            zlib_decoded(zlib_reader_source(*old(r))),
        ),
        !zlib_reader_failed(*old(r)) ==> match res {
            Ok(buf) => {
                &&& buf@.len() <= n
                &&& !zlib_reader_failed(*final(r))
                &&& zlib_reader_emitted(*final(r)) == zlib_reader_emitted(*old(r)) + buf@
                &&& buf@.len() == 0 ==> {
                    &&& zlib_wf(zlib_reader_source(*old(r)))
                    &&& zlib_reader_emitted(*old(r)) == zlib_decoded(zlib_reader_source(*old(r)))
                }
            },
            Err(_) => {
                &&& zlib_reader_failed(*final(r))
                &&& zlib_reader_emitted(*final(r)) == zlib_reader_emitted(*old(r))
                &&& !zlib_wf(zlib_reader_source(*old(r)))
            },
        },
{
    let mut buf = vec![0u8; n];
    match std::io::Read::read(r, &mut buf) {
        Ok(k) => {
            buf.truncate(k);
            Ok(buf)
        },
        Err(_) => Err(()),
    }
}

/// Relies on `std::time::Instant::now`: a point on the monotonic clock.
/// Nothing can be promised of its value.
#[verifier::external_body]
fn instant_now() -> (t: std::time::Instant) {
    std::time::Instant::now()
}

/// Relies on `std::time::Instant::elapsed`: the milliseconds since `t`.
/// Nothing can be promised of its value.
#[verifier::external_body]
fn instant_elapsed_millis(t: &std::time::Instant) -> (ms: u64) {
    let ms = t.elapsed().as_millis();
    if ms > u64::MAX as u128 {
        u64::MAX
    } else {
        ms as u64
    }
}

// ---------------------------------------------------------------------------
// The decompression stream selected for one chunk.
// ---------------------------------------------------------------------------

/// A decompression stream over one compressed chunk: the implode algorithm
/// for legacy chunks, zlib for modern ones.
pub enum ChunkReader {
    Implode(explode::ExplodeReader<std::io::Cursor<Vec<u8>>>),
    Zlib(flate2::bufread::ZlibDecoder<std::io::Cursor<Vec<u8>>>),
}

impl ChunkReader {
    /// The compressed input this stream decodes.
    pub open spec fn source(self) -> Seq<u8> {
        match self {
            ChunkReader::Implode(r) => explode_reader_source(r),
            ChunkReader::Zlib(r) => zlib_reader_source(r),
        }
    }

    /// The decoded bytes handed out so far.
    pub open spec fn emitted(self) -> Seq<u8> {
        match self {
            ChunkReader::Implode(r) => explode_reader_emitted(r),
            ChunkReader::Zlib(r) => zlib_reader_emitted(r),
        }
    }

    /// The full decoded stream of the source (meaningful where
    /// `stream_wf()` holds).
    pub open spec fn decoded(self) -> Seq<u8> {
        match self {
            ChunkReader::Implode(r) => implode_decoded(explode_reader_source(r)),
            ChunkReader::Zlib(r) => zlib_decoded(zlib_reader_source(r)),
        }
    }

    /// Whether the source decodes to completion without error.
    pub open spec fn stream_wf(self) -> bool {
        match self {
            ChunkReader::Implode(r) => implode_wf(explode_reader_source(r)),
            ChunkReader::Zlib(r) => zlib_wf(zlib_reader_source(r)),
        }
    }

    /// Whether the stream has reported a decoding error; nothing is claimed
    /// of reads made after that.
    pub open spec fn failed(self) -> bool {
        match self {
            ChunkReader::Implode(r) => explode_reader_failed(r),
            ChunkReader::Zlib(r) => zlib_reader_failed(r),
        }
    }

    /// A fresh implode stream over `data`.
    pub fn implode(data: Vec<u8>) -> (r: ChunkReader)
        ensures
            r.source() == data@,
            r.emitted() == Seq::<u8>::empty(),
            r.decoded() == implode_decoded(data@),
            r.stream_wf() == implode_wf(data@),
            !r.failed(),
    {
        ChunkReader::Implode(explode_reader_new(data))
    }

    /// A fresh zlib stream over `data`.
    pub fn zlib(data: Vec<u8>) -> (r: ChunkReader)
        ensures
            r.source() == data@,
            r.emitted() == Seq::<u8>::empty(),
            r.decoded() == zlib_decoded(data@),
            r.stream_wf() == zlib_wf(data@),
            !r.failed(),
    {
        ChunkReader::Zlib(zlib_reader_new(data))
    }

    /// Reads up to `n` further decoded bytes from a stream that has not yet
    /// failed.
    fn read_some(&mut self, n: usize) -> (res: Result<Vec<u8>, ()>)
        requires
            1 <= n,
            !old(self).failed(),
        ensures
            final(self).source() == old(self).source(),
            final(self).decoded() == old(self).decoded(),
            final(self).stream_wf() == old(self).stream_wf(),
            old(self).stream_wf() ==> final(self).emitted().is_prefix_of(old(self).decoded()),
            match res {
                Ok(buf) => {
                    &&& buf@.len() <= n
                    &&& !final(self).failed()
                    &&& final(self).emitted() == old(self).emitted() + buf@
                    &&& buf@.len() == 0 ==> {
                        &&& old(self).stream_wf()
                        &&& old(self).emitted() == old(self).decoded()
                    }
                },
                Err(_) => {
                    &&& final(self).emitted() == old(self).emitted()
                    &&& !old(self).stream_wf()
                },
            },
    {
        match self {
            ChunkReader::Implode(r) => explode_reader_read(r, n),
            ChunkReader::Zlib(r) => zlib_reader_read(r, n),
        }
    }
}

// ---------------------------------------------------------------------------
// The guard configuration and outcome.
// ---------------------------------------------------------------------------

/// Limits on a single decompression. These settings defeat decompression
/// bombs by bounding how much output a chunk may produce, how much it may
/// amplify its input, and how long decoding may run.
#[derive(Debug, Copy, Clone)]
pub struct DecompressionConfig {
    /// Maximum bytes to decompress (default: 100MB).
    pub max_decompressed_size: u64,
    /// Maximum output/input ratio allowed (default: 500:1).
    pub max_compression_ratio: u64,
    /// Maximum time to spend decompressing, in milliseconds (default: 30
    /// seconds). `None` disables the time limit.
    pub max_decompression_time: Option<u64>,
}

impl Default for DecompressionConfig {
    fn default() -> (c: Self)
        ensures
            c.max_decompressed_size == 100 * 1024 * 1024,
            c.max_compression_ratio == 500,
            c.max_decompression_time == Some(30000u64),
    {
        DecompressionConfig {
            max_decompressed_size: 100 * 1024 * 1024,
            max_compression_ratio: 500,
            max_decompression_time: Some(30000),
        }
    }
}

/// Everything the guard promises of one bounded decompression, as a relation
/// between its configuration, the decoded stream of the input, the result and
/// the bytes `appended` to the output.
///
/// - No more than `max` bytes are ever handed out.
/// - On success over a well-formed stream, the output is exactly the decoded
///   stream (so decoding is deterministic), and it respects both the size cap
///   and — when the compressed input size is known — the ratio cap.
/// - `SizeLimitExceeded` comes exactly at the cap: `max` bytes were handed
///   out, a further byte was available, and (when the input size is known)
///   the ratio cap had not already been hit.
/// - `CompressionRatioExceeded` requires a known input size.
/// - `TimeoutExceeded` requires a configured time limit.
/// - `Io` means the compressed stream itself failed to decode.
pub open spec fn guard_outcome(
    max: u64,
    ratio: u64,
    time_limited: bool,
    input_size: Option<u64>,
    wf: bool,
    decoded: Seq<u8>,
    res: Result<(), DecompressionError>,
    appended: Seq<u8>,
) -> bool {
    &&& appended.len() <= max
    &&& match res {
        Ok(()) => {
            &&& (wf && appended == decoded) || (!wf && appended.len() == max)
            &&& input_size is Some ==> appended.len() <= ratio * input_size->0
        },
        Err(DecompressionError::SizeLimitExceeded) => {
            &&& appended.len() == max
            &&& wf ==> decoded.len() > max
            &&& input_size is Some ==> max <= ratio * input_size->0
        },
        Err(DecompressionError::CompressionRatioExceeded) => {
            &&& input_size is Some
            &&& wf ==> decoded.len() > ratio * input_size->0
        },
        Err(DecompressionError::TimeoutExceeded) => time_limited,
        Err(DecompressionError::Io) => !wf,
    }
}

/// Law: with the output cap set below the stream's true decoded size, ratio
/// enforcement off (no known input size) and no time limit, a bounded
/// decompression of a well-formed stream cannot succeed: it fails with
/// `SizeLimitExceeded`, and it never hands out more than the cap.
pub proof fn lemma_size_cap_forces_size_error(
    max: u64,
    ratio: u64,
    wf: bool,
    decoded: Seq<u8>,
    res: Result<(), DecompressionError>,
    appended: Seq<u8>,
)
    requires
        guard_outcome(max, ratio, false, None, wf, decoded, res, appended),
        wf,
        decoded.len() > max,
    ensures
        res == Err::<(), DecompressionError>(DecompressionError::SizeLimitExceeded),
        appended.len() <= max,
{
}

/// Law: with the ratio cap set below the stream's true output/input ratio —
/// and the output cap above the point where the ratio trips, so that the two
/// checks act independently — and no time limit, a bounded decompression of a
/// well-formed stream fails with `CompressionRatioExceeded`.
pub proof fn lemma_ratio_cap_forces_ratio_error(
    max: u64,
    ratio: u64,
    input_size: u64,
    wf: bool,
    decoded: Seq<u8>,
    res: Result<(), DecompressionError>,
    appended: Seq<u8>,
)
    requires
        guard_outcome(max, ratio, false, Some(input_size), wf, decoded, res, appended),
        wf,
        decoded.len() > ratio * input_size,
        ratio * input_size < max,
    ensures
        res == Err::<(), DecompressionError>(DecompressionError::CompressionRatioExceeded),
{
}

/// Law: decoding is deterministic. Two successful bounded decompressions of
/// the same well-formed stream hand out byte-identical output — the stream's
/// decoded bytes — whatever limits each ran under.
pub proof fn lemma_decode_deterministic(
    max1: u64,
    ratio1: u64,
    tl1: bool,
    in1: Option<u64>,
    max2: u64,
    ratio2: u64,
    tl2: bool,
    in2: Option<u64>,
    wf: bool,
    decoded: Seq<u8>,
    res1: Result<(), DecompressionError>,
    app1: Seq<u8>,
    res2: Result<(), DecompressionError>,
    app2: Seq<u8>,
)
    requires
        guard_outcome(max1, ratio1, tl1, in1, wf, decoded, res1, app1),
        guard_outcome(max2, ratio2, tl2, in2, wf, decoded, res2, app2),
        wf,
        res1 is Ok,
        res2 is Ok,
    ensures
        app1 == app2,
        app1 == decoded,
{
}

// ---------------------------------------------------------------------------
// The guard itself.
// ---------------------------------------------------------------------------

/// A wrapper around a decompression stream that bounds every read: it fails
/// with a [`DecompressionError`] as soon as the configured output size,
/// output/input ratio or time limit would be exceeded. The timer starts
/// lazily on the first read; ratio enforcement is skipped when the compressed
/// input size is unknown.
pub struct SafeDecompressor {
    inner: ChunkReader,
    max_decompressed_size: u64,
    max_ratio: u64,
    max_time: Option<u64>,
    input_size: Option<u64>,
    start_time: Option<std::time::Instant>,
    bytes_read: u64,
}

impl SafeDecompressor {
    /// The compressed input being decoded.
    pub closed spec fn spec_source(self) -> Seq<u8> {
        self.inner.source()
    }

    /// The full decoded stream of the input (meaningful where
    /// `spec_stream_wf()` holds).
    pub closed spec fn spec_decoded(self) -> Seq<u8> {
        self.inner.decoded()
    }

    /// Whether the input decodes to completion without error.
    pub closed spec fn spec_stream_wf(self) -> bool {
        self.inner.stream_wf()
    }

    pub closed spec fn spec_max_size(self) -> u64 {
        self.max_decompressed_size
    }

    pub closed spec fn spec_max_ratio(self) -> u64 {
        self.max_ratio
    }

    pub closed spec fn spec_time_limited(self) -> bool {
        self.max_time is Some
    }

    pub closed spec fn spec_input_size(self) -> Option<u64> {
        self.input_size
    }

    /// A guard that has not yet handed out any bytes, over a stream that has
    /// not failed.
    pub closed spec fn is_fresh(self) -> bool {
        &&& self.bytes_read == 0
        &&& self.inner.emitted() == Seq::<u8>::empty()
        &&& !self.inner.failed()
    }

    /// Constructs a new `SafeDecompressor` wrapping the given decompression
    /// stream. `input_size` is the size of the compressed input data in
    /// bytes, if known; if not specified, compression ratio limits will not
    /// apply.
    pub fn new(reader: ChunkReader, config: DecompressionConfig, input_size: Option<u64>) -> (d:
        Self)
        requires
            reader.emitted() == Seq::<u8>::empty(),
            !reader.failed(),
        ensures
            d.is_fresh(),
            d.spec_source() == reader.source(),
            d.spec_decoded() == reader.decoded(),
            d.spec_stream_wf() == reader.stream_wf(),
            d.spec_max_size() == config.max_decompressed_size,
            d.spec_max_ratio() == config.max_compression_ratio,
            d.spec_time_limited() == (config.max_decompression_time is Some),
            d.spec_input_size() == input_size,
    {
        SafeDecompressor {
            inner: reader,
            max_decompressed_size: config.max_decompressed_size,
            max_ratio: config.max_compression_ratio,
            max_time: config.max_decompression_time,
            input_size,
            start_time: None,
            bytes_read: 0,
        }
    }

    /// Decodes the whole stream, appending to `out`, stopping with an error
    /// as soon as a limit is exceeded. The exact outcome is stated by
    /// [`guard_outcome`].
    pub fn read_to_end(&mut self, out: &mut Vec<u8>) -> (res: Result<(), DecompressionError>)
        requires
            old(self).is_fresh(),
        ensures
            old(out)@.is_prefix_of(final(out)@),
            guard_outcome(
                old(self).spec_max_size(),
                old(self).spec_max_ratio(),
                old(self).spec_time_limited(),
                old(self).spec_input_size(),
                old(self).spec_stream_wf(),
                old(self).spec_decoded(),
                res,
                final(out)@.skip(old(out)@.len() as int),
            ),
    {
        let ghost base: Seq<u8> = out@;
        loop
            invariant
                base == old(out)@,
                self.max_decompressed_size == old(self).max_decompressed_size,
                self.max_ratio == old(self).max_ratio,
                self.max_time == old(self).max_time,
                self.input_size == old(self).input_size,
                self.inner.source() == old(self).inner.source(),
                self.inner.decoded() == old(self).inner.decoded(),
                self.inner.stream_wf() == old(self).inner.stream_wf(),
                self.bytes_read <= self.max_decompressed_size,
                self.inner.emitted().len() == self.bytes_read,
                out@ == base + self.inner.emitted(),
                self.input_size is Some ==> self.bytes_read <= self.max_ratio as int
                    * self.input_size->0 as int,
                !self.inner.failed(),
                self.inner.stream_wf() ==> self.inner.emitted().is_prefix_of(
                    self.inner.decoded(),
                ),
            decreases self.max_decompressed_size - self.bytes_read,
        {
            if let Some(limit) = self.max_time {
                if self.start_time.is_none() {
                    self.start_time = Some(instant_now());
                }
                let elapsed: u64 = match &self.start_time {
                    Some(t) => instant_elapsed_millis(t),
                    None => 0,
                };
                if elapsed > limit {
                    proof {
                        assert(out@.subrange(0, base.len() as int) =~= base);
                        assert(out@.skip(base.len() as int) =~= self.inner.emitted());
                    }
                    return Err(DecompressionError::TimeoutExceeded);
                }
            }
            if self.bytes_read == self.max_decompressed_size {
                // At the cap: probe for one byte beyond it to distinguish an
                // exact fit from a truncation.
                let ghost pre_emitted: Seq<u8> = self.inner.emitted();
                match self.inner.read_some(1) {
                    Ok(probe) => {
                        proof {
                            assert(out@.subrange(0, base.len() as int) =~= base);
                            assert(out@.skip(base.len() as int) =~= pre_emitted);
                        }
                        if probe.len() > 0 {
                            return Err(DecompressionError::SizeLimitExceeded);
                        }
                        return Ok(());
                    },
                    Err(_) => {
                        // No further byte could be produced: ordinary EOF.
                        proof {
                            assert(out@.subrange(0, base.len() as int) =~= base);
                            assert(out@.skip(base.len() as int) =~= pre_emitted);
                        }
                        return Ok(());
                    },
                }
            }
            let remaining: u64 = self.max_decompressed_size - self.bytes_read;
            let want: usize = if remaining < 8192 {
                remaining as usize
            } else {
                8192
            };
            let ghost pre_emitted: Seq<u8> = self.inner.emitted();
            match self.inner.read_some(want) {
                Err(_) => {
                    proof {
                        assert(out@.subrange(0, base.len() as int) =~= base);
                        assert(out@.skip(base.len() as int) =~= pre_emitted);
                    }
                    return Err(DecompressionError::Io);
                },
                Ok(buf) => {
                    let k: usize = buf.len();
                    if k == 0 {
                        proof {
                            assert(out@.subrange(0, base.len() as int) =~= base);
                            assert(out@.skip(base.len() as int) =~= pre_emitted);
                        }
                        return Ok(());
                    }
                    self.bytes_read = self.bytes_read + k as u64;
                    if let Some(sz) = self.input_size {
                        proof {
                            assert((self.max_ratio as int) * (sz as int) <= (u64::MAX as int) * (
                            u64::MAX as int)) by (nonlinear_arith)
                                requires
                                    self.max_ratio <= u64::MAX,
                                    sz <= u64::MAX,
                            ;
                        }
                        if (self.bytes_read as u128) > (self.max_ratio as u128) * (sz as u128) {
                            proof {
                                assert(out@.subrange(0, base.len() as int) =~= base);
                                assert(out@.skip(base.len() as int) =~= pre_emitted);
                            }
                            return Err(DecompressionError::CompressionRatioExceeded);
                        }
                    }
                    let mut buf = buf;
                    out.append(&mut buf);
                    proof {
                        assert(out@.skip(base.len() as int) =~= self.inner.emitted());
                    }
                },
            }
        }
    }
}

} // verus!
