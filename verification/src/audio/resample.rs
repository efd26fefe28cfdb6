//! Conversion of captured audio to the rate that recognition engines take.
//!
//! The audio is cut into chunks of as many frames as the resampler takes at
//! a time. The resampler itself works on sample values and is supplied by
//! the caller; what is established here is which chunks it is given, in
//! which order, and what is kept of what it returns.

use vstd::arithmetic::div_mod::{lemma_div_is_ordered, lemma_hoist_over_denominator};
use vstd::prelude::*;
use vstd::slice::{slice_subrange, slice_to_vec};
use vstd::string::StringExecFns;

verus! {

/// The sample rate that every transcription engine takes, in Hz.
pub const TARGET_SAMPLE_RATE: u32 = 16000;

/// How many source frames a chunk should hold; a resampler may settle on a
/// size of its own near this one.
pub const CHUNK_SIZE: usize = 1024;

/// How many of the `produced` frames that a resampler made of the last,
/// zero-padded chunk belong to the `remaining` frames of real input: their
/// share by the ratio of the rates, rounded down, and no more than there
/// are. A source rate of zero sets no bound.
pub open spec fn tail_keep(remaining: int, source_rate: int, produced: int) -> int {
    if source_rate > 0 && remaining * TARGET_SAMPLE_RATE / source_rate < produced {
        remaining * TARGET_SAMPLE_RATE / source_rate
    } else {
        produced
    }
}

/// Computes [`tail_keep`].
pub fn tail_keep_len(remaining: usize, source_rate: u32, produced: usize) -> (keep: usize)
    ensures
        keep == tail_keep(remaining as int, source_rate as int, produced as int),
        keep <= produced,
{
    if source_rate == 0 {
        return produced;
    }
    assert(remaining * TARGET_SAMPLE_RATE <= 0xffff_ffff_ffff_ffff * 16000) by (nonlinear_arith)
        requires
            remaining <= 0xffff_ffff_ffff_ffff,
            TARGET_SAMPLE_RATE == 16000,
    ;
    let share: u128 = (remaining as u128) * (TARGET_SAMPLE_RATE as u128) / (source_rate as u128);
    if share < produced as u128 {
        share as usize
    } else {
        produced
    }
}

/// How many chunks of `frames` frames cover `len` frames, a partial last one
/// counted.
pub open spec fn chunk_count(len: int, frames: int) -> int {
    (len + frames - 1) / frames
}

/// The frames handed to the resampler in call `i`: the next `frames` frames
/// of the audio, or what is left of it followed by `silence` up to that
/// length.
pub open spec fn chunk_input<S>(audio: Seq<S>, frames: int, silence: S, i: int) -> Seq<S> {
    let lo = i * frames;
    if lo + frames <= audio.len() {
        audio.subrange(lo, lo + frames)
    } else {
        audio.subrange(lo, audio.len() as int) + Seq::new(
            (lo + frames - audio.len()) as nat,
            |k: int| silence,
        )
    }
}

/// What is kept of the frames `produced` in call `i`: all of them for a full
/// chunk, and for a padded one the share of the real input.
pub open spec fn chunk_kept<S>(
    len: int,
    frames: int,
    source_rate: int,
    i: int,
    produced: Seq<S>,
) -> Seq<S> {
    if (i + 1) * frames <= len {
        produced
    } else {
        produced.take(tail_keep(len - i * frames, source_rate, produced.len() as int))
    }
}

/// `calls` is a faithful record of successful calls: call `i` was given
/// chunk `i` of the audio and returned the frames recorded with it.
pub open spec fn is_call_record<S, P: Fn(Vec<S>) -> Result<Vec<S>, String>>(
    process: P,
    audio: Seq<S>,
    frames: int,
    silence: S,
    calls: Seq<(Vec<S>, Vec<S>)>,
) -> bool {
    forall|i: int|
        0 <= i < calls.len() ==> {
            &&& (#[trigger] calls[i]).0@ == chunk_input(audio, frames, silence, i)
            &&& process.ensures((calls[i].0,), Ok::<Vec<S>, String>(calls[i].1))
        }
}

/// What the first `upto` recorded calls contribute to the output, in order.
pub open spec fn assembled<S>(
    len: int,
    frames: int,
    source_rate: int,
    calls: Seq<(Vec<S>, Vec<S>)>,
    upto: int,
) -> Seq<S>
    decreases upto,
{
    if upto <= 0 {
        Seq::empty()
    } else {
        assembled(len, frames, source_rate, calls, upto - 1) + chunk_kept(
            len,
            frames,
            source_rate,
            upto - 1,
            calls[upto - 1].1@,
        )
    }
}

/// How the failure of call `i` is worded.
pub open spec fn failure_message(len: int, frames: int, i: int, cause: Seq<char>) -> Seq<char> {
    if (i + 1) * frames <= len {
        "Resampling failed: "@ + cause
    } else {
        "Resampling failed on final chunk: "@ + cause
    }
}

/// `result` is what driving `process` over the chunks of `audio` comes to.
///
/// Either every chunk was processed and the output is what was kept of each
/// call, in order; or the calls up to some chunk succeeded, the call on that
/// chunk failed, and the failure is reported with its cause.
pub open spec fn is_chunked_outcome<S, P: Fn(Vec<S>) -> Result<Vec<S>, String>>(
    process: P,
    audio: Seq<S>,
    source_rate: int,
    frames: int,
    silence: S,
    result: Result<Vec<S>, String>,
) -> bool {
    let len = audio.len() as int;
    match result {
        Ok(output) => exists|calls: Seq<(Vec<S>, Vec<S>)>|
            {
                &&& calls.len() == chunk_count(len, frames)
                &&& #[trigger] is_call_record(process, audio, frames, silence, calls)
                &&& output@ == assembled(len, frames, source_rate, calls, calls.len() as int)
            },
        Err(message) => exists|calls: Seq<(Vec<S>, Vec<S>)>, input: Vec<S>, cause: String|
            {
                &&& calls.len() < chunk_count(len, frames)
                &&& #[trigger] is_call_record(process, audio, frames, silence, calls)
                &&& input@ == chunk_input(audio, frames, silence, calls.len() as int)
                &&& #[trigger] process.ensures((input,), Err::<Vec<S>, String>(cause))
                &&& message@ == failure_message(len, frames, calls.len() as int, cause@)
            },
    }
}

/// `process` may be called on every chunk.
pub open spec fn accepts_chunks<S, P: Fn(Vec<S>) -> Result<Vec<S>, String>>(process: P) -> bool {
    forall|chunk: Vec<S>| process.requires((chunk,))
}

/// What the first calls contribute does not depend on later calls.
proof fn lemma_assembled_prefix<S>(
    len: int,
    frames: int,
    source_rate: int,
    calls: Seq<(Vec<S>, Vec<S>)>,
    more: Seq<(Vec<S>, Vec<S>)>,
    upto: int,
)
    requires
        upto <= calls.len(),
        calls.len() <= more.len(),
        forall|i: int| 0 <= i < calls.len() ==> calls[i] == more[i],
    ensures
        assembled(len, frames, source_rate, calls, upto) == assembled(
            len,
            frames,
            source_rate,
            more,
            upto,
        ),
    decreases upto,
{
    if upto > 0 {
        lemma_assembled_prefix(len, frames, source_rate, calls, more, upto - 1);
    }
}

/// Counting chunks: as long as audio is left, the next chunk exists, and
/// the chunk that uses up the audio is the last.
proof fn lemma_chunk_progress(len: int, frames: int, done: int)
    requires
        frames > 0,
        0 <= done,
        done * frames <= len,
    ensures
        (done + 1) * frames == done * frames + frames,
        done * frames == len ==> chunk_count(len, frames) == done,
        done * frames < len ==> done < chunk_count(len, frames),
        done * frames < len && len < (done + 1) * frames ==> chunk_count(len, frames) == done + 1,
{
    assert((done + 1) * frames == done * frames + frames) by (nonlinear_arith);
    let q = (len + frames - 1) / frames;
    assert(q * frames <= len + frames - 1 < (q + 1) * frames) by (nonlinear_arith)
        requires
            q == (len + frames - 1) / frames,
            frames > 0,
    ;
    if done * frames == len {
        assert(q == done) by (nonlinear_arith)
            requires
                done * frames == len,
                q * frames <= len + frames - 1 < (q + 1) * frames,
                frames > 0,
        ;
    }
    if done * frames < len {
        assert(done < q) by (nonlinear_arith)
            requires
                done * frames < len,
                len + frames - 1 < (q + 1) * frames,
                frames > 0,
        ;
        if len < (done + 1) * frames {
            assert(q <= done + 1) by (nonlinear_arith)
                requires
                    len < (done + 1) * frames,
                    q * frames <= len + frames - 1,
                    frames > 0,
            ;
        }
    }
}

/// The chunks cut the audio up without gap or overlap: frame `k` of the
/// audio is frame `k % frames` of chunk `k / frames`, and what follows the
/// audio in the last chunk is silence.
pub proof fn lemma_chunks_partition<S>(audio: Seq<S>, frames: int, silence: S, k: int)
    requires
        frames > 0,
        0 <= k < chunk_count(audio.len() as int, frames) * frames,
    ensures
        0 <= k / frames < chunk_count(audio.len() as int, frames),
        chunk_input(audio, frames, silence, k / frames).len() == frames,
        (chunk_input(audio, frames, silence, k / frames)[k % frames] == if k < audio.len() {
            audio[k]
        } else {
            silence
        }),
{
    let count = chunk_count(audio.len() as int, frames);
    let chunk = k / frames;
    let place = k % frames;
    assert(k == chunk * frames + place && 0 <= place < frames && 0 <= chunk) by (nonlinear_arith)
        requires
            chunk == k / frames,
            place == k % frames,
            frames > 0,
            0 <= k,
    ;
    assert(chunk < count) by (nonlinear_arith)
        requires
            chunk * frames + place < count * frames,
            0 <= place,
            frames > 0,
    ;
    assert(count * frames <= audio.len() + frames - 1) by (nonlinear_arith)
        requires
            count == (audio.len() + frames - 1) / frames,
            frames > 0,
    ;
    assert(chunk * frames < audio.len()) by (nonlinear_arith)
        requires
            chunk < count,
            count * frames <= audio.len() + frames - 1,
            frames > 0,
    ;
}

/// The frames of chunk `i` of `audio`, ready for the resampler.
pub fn padded_chunk<S: Copy>(audio: &[S], frames: usize, silence: S, offset: usize) -> (chunk: Vec<
    S,
>)
    requires
        offset <= audio@.len(),
    ensures
        chunk@.len() == frames,
        (forall|k: int|
            0 <= k < frames ==> #[trigger] chunk@[k] == if offset + k < audio@.len() {
                audio@[offset + k]
            } else {
                silence
            }),
{
    let len = audio.len();
    let mut chunk: Vec<S> = Vec::with_capacity(frames);
    let mut k: usize = 0;
    while k < frames
        invariant
            len == audio@.len(),
            offset <= len,
            k <= frames,
            chunk@.len() == k,
            forall|j: int|
                0 <= j < k ==> #[trigger] chunk@[j] == if offset + j < len {
                    audio@[offset + j]
                } else {
                    silence
                },
        decreases frames - k,
    {
        if k < len - offset {
            chunk.push(audio[offset + k]);
        } else {
            chunk.push(silence);
        }
        k += 1;
    }
    chunk
}

/// Drive `process` over `audio` in chunks of `frames` frames.
///
/// Full chunks are processed in order and all of their output is kept. What
/// is left after the last full chunk is padded with `silence` to a whole
/// chunk, and of its output only the share of the real input is kept. The
/// first failure ends the conversion; nothing that was processed before is
/// handed back in its place.
pub fn resample_in_chunks<S: Copy, P: Fn(Vec<S>) -> Result<Vec<S>, String>>(
    audio: &[S],
    source_rate: u32,
    frames: usize,
    silence: S,
    process: P,
) -> (result: Result<Vec<S>, String>)
    requires
        frames > 0,
        accepts_chunks(process),
    ensures
        is_chunked_outcome(process, audio@, source_rate as int, frames as int, silence, result),
{
    let len = audio.len();
    let mut output: Vec<S> = Vec::new();
    let ghost mut calls: Seq<(Vec<S>, Vec<S>)> = Seq::empty();
    let mut offset: usize = 0;
    assert(calls.len() * frames == 0) by (nonlinear_arith)
        requires
            calls.len() == 0,
    ;
    while len - offset >= frames
        invariant
            frames > 0,
            len == audio@.len(),
            offset <= len,
            offset == calls.len() * frames,
            accepts_chunks(process),
            is_call_record(process, audio@, frames as int, silence, calls),
            output@ == assembled(
                len as int,
                frames as int,
                source_rate as int,
                calls,
                calls.len() as int,
            ),
        decreases len - offset,
    {
        let ghost done = calls.len() as int;
        proof {
            lemma_chunk_progress(len as int, frames as int, done);
        }
        let chunk = padded_chunk(audio, frames, silence, offset);
        let ghost input = chunk;
        assert(input@ == chunk_input(audio@, frames as int, silence, done));
        match process(chunk) {
            Err(cause) => {
                let mut message = String::from_str("Resampling failed: ");
                message.append(cause.as_str());
                return Err(message);
            },
            Ok(mut produced) => {
                let ghost made = produced;
                let ghost before = calls;
                proof {
                    calls = calls.push((input, made));
                    lemma_assembled_prefix(
                        len as int,
                        frames as int,
                        source_rate as int,
                        before,
                        calls,
                        done,
                    );
                }
                output.append(&mut produced);
                offset += frames;
            },
        }
    }
    let ghost done = calls.len() as int;
    proof {
        lemma_chunk_progress(len as int, frames as int, done);
    }
    if offset < len {
        let remaining = len - offset;
        let chunk = padded_chunk(audio, frames, silence, offset);
        let ghost input = chunk;
        assert(input@ == chunk_input(audio@, frames as int, silence, done));
        match process(chunk) {
            Err(cause) => {
                let mut message = String::from_str("Resampling failed on final chunk: ");
                message.append(cause.as_str());
                return Err(message);
            },
            Ok(mut produced) => {
                let ghost made = produced;
                let ghost before = calls;
                proof {
                    calls = calls.push((input, made));
                    lemma_assembled_prefix(
                        len as int,
                        frames as int,
                        source_rate as int,
                        before,
                        calls,
                        done,
                    );
                }
                let keep = tail_keep_len(remaining, source_rate, produced.len());
                produced.truncate(keep);
                output.append(&mut produced);
            },
        }
    }
    assert(is_call_record(process, audio@, frames as int, silence, calls));
    Ok(output)
}

/// `result` is what conversion with the resampler that `made` describes
/// comes to: a resampler that could not be made, or that takes no frames at
/// all, is a failure; any other is driven over the audio in chunks.
pub open spec fn is_resampler_outcome<S, P: Fn(Vec<S>) -> Result<Vec<S>, String>>(
    made: Result<(usize, P), String>,
    audio: Seq<S>,
    source_rate: int,
    silence: S,
    result: Result<Vec<S>, String>,
) -> bool {
    match made {
        Err(cause) => result is Err && result->Err_0@ == "Failed to create resampler: "@ + cause@,
        Ok((frames, process)) => if frames == 0 {
            result is Err && result->Err_0@
                == "Failed to create resampler: it takes no input frames"@
        } else {
            is_chunked_outcome(process, audio, source_rate, frames as int, silence, result)
        },
    }
}

/// Resample mono audio from `source_rate` to 16 kHz.
///
/// Audio that is at the target rate already comes back unchanged, and empty
/// audio comes back empty; neither needs a resampler. For anything else
/// `make_resampler` is called once, with the source rate, the target rate,
/// the wanted chunk size and the number of channels (one). It returns how
/// many frames the resampler takes per call, and the function that resamples
/// one such chunk; that function is then driven over the audio as
/// [`resample_in_chunks`] says.
pub fn resample_to_16khz<S, P, M>(
    audio: &[S],
    source_rate: u32,
    silence: S,
    make_resampler: M,
) -> (result: Result<Vec<S>, String>) where
    S: Copy,
    P: Fn(Vec<S>) -> Result<Vec<S>, String>,
    M: FnOnce(usize, usize, usize, usize) -> Result<(usize, P), String>,

    requires
        make_resampler.requires(
            (source_rate as usize, TARGET_SAMPLE_RATE as usize, CHUNK_SIZE, 1usize),
        ),
        forall|made: (usize, P)|
            make_resampler.ensures(
                (source_rate as usize, TARGET_SAMPLE_RATE as usize, CHUNK_SIZE, 1usize),
                Ok::<(usize, P), String>(made),
            ) ==> accepts_chunks(made.1),
    ensures
        source_rate == TARGET_SAMPLE_RATE ==> result is Ok && result->Ok_0@ == audio@,
        source_rate != TARGET_SAMPLE_RATE && audio@.len() == 0 ==> result is Ok
            && result->Ok_0@.len() == 0,
        (source_rate != TARGET_SAMPLE_RATE && audio@.len() > 0 ==> exists|
            made: Result<(usize, P), String>,
        |
            {
                &&& make_resampler.ensures(
                    (source_rate as usize, TARGET_SAMPLE_RATE as usize, CHUNK_SIZE, 1usize),
                    made,
                )
                &&& is_resampler_outcome(made, audio@, source_rate as int, silence, result)
            }),
{
    if source_rate == TARGET_SAMPLE_RATE {
        return Ok(slice_to_vec(audio));
    }
    if audio.len() == 0 {
        return Ok(Vec::new());
    }
    let made = make_resampler(source_rate as usize, TARGET_SAMPLE_RATE as usize, CHUNK_SIZE, 1);
    let ghost made_as_returned = made;
    let result = match made {
        Err(cause) => {
            let mut message = String::from_str("Failed to create resampler: ");
            message.append(cause.as_str());
            Err(message)
        },
        Ok((frames, process)) => {
            if frames == 0 {
                Err(String::from_str("Failed to create resampler: it takes no input frames"))
            } else {
                resample_in_chunks(audio, source_rate, frames, silence, process)
            }
        },
    };
    assert(is_resampler_outcome(made_as_returned, audio@, source_rate as int, silence, result));
    result
}


/// Full chunks of equal output make up an output of that many times the
/// length.
proof fn lemma_full_chunks_length<S>(
    len: int,
    frames: int,
    source_rate: int,
    per_chunk: int,
    calls: Seq<(Vec<S>, Vec<S>)>,
    upto: int,
)
    requires
        frames > 0,
        0 <= upto <= calls.len(),
        upto * frames <= len,
        forall|i: int| 0 <= i < calls.len() ==> (#[trigger] calls[i]).1@.len() == per_chunk,
    ensures
        assembled(len, frames, source_rate, calls, upto).len() == upto * per_chunk,
    decreases upto,
{
    if upto > 0 {
        assert((upto - 1) * frames <= upto * frames && upto * per_chunk == (upto - 1) * per_chunk
            + per_chunk) by (nonlinear_arith)
            requires
                frames > 0,
                upto > 0,
        ;
        lemma_full_chunks_length(len, frames, source_rate, per_chunk, calls, upto - 1);
        assert(calls[upto - 1].1@.len() == per_chunk);
        assert(((upto - 1) + 1) * frames == upto * frames);
        assert(chunk_kept(len, frames, source_rate, upto - 1, calls[upto - 1].1@)
            == calls[upto - 1].1@);
    } else {
        assert(upto * per_chunk == 0) by (nonlinear_arith)
            requires
                upto == 0,
        ;
    }
}

/// A resampler that keeps the ratio of the rates keeps it over the whole
/// conversion.
///
/// Let a resampler make of every chunk of `frames` frames exactly the
/// frames that stand for them at the target rate, `frames * 16000 /
/// source_rate` without remainder. Then the output of a conversion that
/// went through holds `len * 16000 / source_rate` frames, rounded down,
/// whatever the length `len` of the audio.
pub proof fn lemma_output_length_is_proportional<S>(
    len: int,
    frames: int,
    source_rate: int,
    calls: Seq<(Vec<S>, Vec<S>)>,
)
    requires
        0 <= len,
        frames > 0,
        source_rate > 0,
        (frames * TARGET_SAMPLE_RATE) % source_rate == 0,
        calls.len() == chunk_count(len, frames),
        forall|i: int|
            0 <= i < calls.len() ==> (#[trigger] calls[i]).1@.len() == frames * TARGET_SAMPLE_RATE
                / source_rate,
    ensures
        assembled(len, frames, source_rate, calls, calls.len() as int).len() == len
            * TARGET_SAMPLE_RATE / source_rate,
{
    let per_chunk = frames * TARGET_SAMPLE_RATE / source_rate;
    let full = len / frames;
    let rest = len % frames;
    assert(len == full * frames + rest && 0 <= rest < frames && 0 <= full) by (nonlinear_arith)
        requires
            full == len / frames,
            rest == len % frames,
            frames > 0,
            0 <= len,
    ;
    assert(per_chunk * source_rate == frames * 16000) by (nonlinear_arith)
        requires
            per_chunk == frames * 16000 / source_rate,
            (frames * 16000) % source_rate == 0,
            source_rate > 0,
    ;
    lemma_chunk_progress(len, frames, full);
    assert(full * frames * 16000 == (full * per_chunk) * source_rate) by (nonlinear_arith)
        requires
            per_chunk * source_rate == frames * 16000,
    ;
    lemma_full_chunks_length(len, frames, source_rate, per_chunk, calls, full);
    lemma_hoist_over_denominator(rest * 16000, full * per_chunk, source_rate as nat);
    assert(len * 16000 == rest * 16000 + (full * per_chunk) * source_rate) by (nonlinear_arith)
        requires
            len == full * frames + rest,
            full * frames * 16000 == (full * per_chunk) * source_rate,
    ;
    assert(len * 16000 / source_rate == rest * 16000 / source_rate + full * per_chunk);
    if rest == 0 {
        assert(calls.len() == full);
        assert(rest * 16000 / source_rate == 0);
    } else {
        assert(calls.len() == full + 1);
        assert((full + 1) * frames == full * frames + frames) by (nonlinear_arith);
        let produced = calls[full].1@;
        assert(produced.len() == per_chunk);
        assert(rest * 16000 <= frames * 16000) by (nonlinear_arith)
            requires
                rest < frames,
        ;
        lemma_div_is_ordered(rest * 16000, frames * 16000, source_rate);
        assert(0 <= rest * 16000 / source_rate) by (nonlinear_arith)
            requires
                0 <= rest,
                source_rate > 0,
        ;
        assert(len - full * frames == rest);
        assert(tail_keep(rest, source_rate, per_chunk) == rest * 16000 / source_rate);
        assert(chunk_kept(len, frames, source_rate, full, produced).len() == rest * 16000
            / source_rate);
    }
}

} // verus!
