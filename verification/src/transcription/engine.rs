//! Speech-to-text engines, and the way of audio and text to and from them.

use vstd::prelude::*;
use vstd::slice::slice_subrange;
use vstd::string::StringExecFns;

verus! {

/// A speech-to-text engine: mono audio at the target rate in, text or failure out.
pub trait TranscriptionEngine<S>: Send + Sync {
    fn transcribe(&self, audio: &[S]) -> Result<String, String>;
}

/// An engine in a box is the engine: whatever it answers is an answer of the
/// engine in the box to the same audio.
impl<S, T: TranscriptionEngine<S> + ?Sized> TranscriptionEngine<S> for Box<T> {
    fn transcribe(&self, audio: &[S]) -> (result: Result<String, String>)
        ensures
            call_ensures(T::transcribe, (&**self, audio), result),
    {
        (**self).transcribe(audio)
    }
}

/// The Parakeet models that can be loaded.
#[derive(Debug, Clone, Copy, PartialEq, Eq, Structural)]
pub enum ParakeetKind {
    Ctc,
    Tdt,
    Eou,
}

/// Tell which Parakeet model a variant name stands for.
pub fn parakeet_kind(variant: &str) -> (result: Result<ParakeetKind, String>)
    ensures
        variant@ == "ParakeetCTC"@ ==> result == Ok::<ParakeetKind, String>(ParakeetKind::Ctc),
        variant@ != "ParakeetCTC"@ && variant@ == "ParakeetTDT"@ ==> result == Ok::<
            ParakeetKind,
            String,
        >(ParakeetKind::Tdt),
        variant@ != "ParakeetCTC"@ && variant@ != "ParakeetTDT"@ && variant@ == "ParakeetEOU"@
            ==> result == Ok::<ParakeetKind, String>(ParakeetKind::Eou),
        variant@ != "ParakeetCTC"@ && variant@ != "ParakeetTDT"@ && variant@ != "ParakeetEOU"@
            ==> result is Err && result->Err_0@ == "Unknown Parakeet variant: "@ + variant@,
{
    let name = String::from_str(variant);
    if name == String::from_str("ParakeetCTC") {
        Ok(ParakeetKind::Ctc)
    } else if name == String::from_str("ParakeetTDT") {
        Ok(ParakeetKind::Tdt)
    } else if name == String::from_str("ParakeetEOU") {
        Ok(ParakeetKind::Eou)
    } else {
        let mut message = String::from_str("Unknown Parakeet variant: ");
        message.append(variant);
        Err(message)
    }
}

/// `text` without the white space at its two ends.
pub uninterp spec fn trimmed(text: Seq<char>) -> Seq<char>;

/// `text` with every occurrence of `from`, found from left to right and
/// without overlap, replaced by `to`.
pub uninterp spec fn replaced(text: Seq<char>, from: Seq<char>, to: Seq<char>) -> Seq<char>;

/// Calls `str::trim` of the standard library, which strips leading and
/// trailing white space; the contract gives the result its name and claims
/// nothing else of it.
#[verifier::external_body]
fn trim(text: &str) -> (stripped: String)
    ensures
        stripped@ == trimmed(text@),
{
    text.trim().to_string()
}

/// Calls `str::replace` of the standard library, which replaces all matches
/// of a pattern with another text; the contract gives the result its name
/// and claims nothing else of it.
#[verifier::external_body]
fn replace(text: &str, from: &str, to: &str) -> (result: String)
    ensures
        result@ == replaced(text@, from@, to@),
{
    text.replace(from, to)
}

/// The text that an engine returned, as it is handed on: without the white
/// space at its ends.
pub fn finish_transcript(raw: &str) -> (text: String)
    ensures
        text@ == trimmed(raw@),
{
    trim(raw)
}

/// The decimal digit `d` as text.
pub open spec fn digit(d: nat) -> Seq<char> {
    if d == 0 {
        "0"@
    } else if d == 1 {
        "1"@
    } else if d == 2 {
        "2"@
    } else if d == 3 {
        "3"@
    } else if d == 4 {
        "4"@
    } else if d == 5 {
        "5"@
    } else if d == 6 {
        "6"@
    } else if d == 7 {
        "7"@
    } else if d == 8 {
        "8"@
    } else {
        "9"@
    }
}

/// The number `n` in decimal notation.
pub open spec fn decimal(n: nat) -> Seq<char>
    decreases n,
{
    if n < 10 {
        digit(n)
    } else {
        decimal(n / 10) + digit(n % 10)
    }
}

/// Computes [`digit`].
fn digit_text(d: usize) -> (text: &'static str)
    requires
        d < 10,
    ensures
        text@ == digit(d as nat),
{
    if d == 0 {
        "0"
    } else if d == 1 {
        "1"
    } else if d == 2 {
        "2"
    } else if d == 3 {
        "3"
    } else if d == 4 {
        "4"
    } else if d == 5 {
        "5"
    } else if d == 6 {
        "6"
    } else if d == 7 {
        "7"
    } else if d == 8 {
        "8"
    } else {
        "9"
    }
}

/// Write a number in decimal notation.
pub fn decimal_text(n: usize) -> (text: String)
    ensures
        text@ == decimal(n as nat),
    decreases n,
{
    if n < 10 {
        String::from_str(digit_text(n))
    } else {
        let mut text = decimal_text(n / 10);
        text.append(digit_text(n % 10));
        text
    }
}

/// Segment `i` could not be read.
pub open spec fn is_unreadable(segments: Seq<Option<Result<String, String>>>, i: int) -> bool {
    0 <= i < segments.len() && segments[i] is Some && segments[i]->Some_0 is Err
}

/// The texts of the readable ones among the first `n` segments, one after
/// the other; a segment that is not there contributes nothing.
pub open spec fn segment_texts(segments: Seq<Option<Result<String, String>>>, n: int) -> Seq<char>
    decreases n,
{
    if n <= 0 {
        Seq::empty()
    } else {
        match segments[n - 1] {
            Some(Ok(text)) => segment_texts(segments, n - 1) + text@,
            _ => segment_texts(segments, n - 1),
        }
    }
}

/// `result` is the transcript that the segments make up: their texts in
/// order, stripped at the ends, unless a segment could not be read; then the
/// first such segment is reported with its position and the cause.
pub open spec fn is_transcript_of(
    segments: Seq<Option<Result<String, String>>>,
    result: Result<String, String>,
) -> bool {
    if exists|i: int| is_unreadable(segments, i) {
        exists|i: int|
            {
                &&& #[trigger] is_unreadable(segments, i)
                &&& forall|j: int| 0 <= j < i ==> !is_unreadable(segments, j)
                &&& result is Err
                &&& result->Err_0@ == "Failed to get segment "@ + decimal(i as nat) + " text: "@
                    + segments[i]->Some_0->Err_0@
            }
    } else {
        result is Ok && result->Ok_0@ == trimmed(segment_texts(segments, segments.len() as int))
    }
}

/// Put the segments of a transcription together.
///
/// `segments` holds, for each segment that the engine counted, its text or
/// why the text could not be read, or `None` where the engine has no such
/// segment after all.
pub fn join_segments(segments: &[Option<Result<String, String>>]) -> (result: Result<
    String,
    String,
>)
    ensures
        is_transcript_of(segments@, result),
{
    let mut text = String::new();
    let mut i: usize = 0;
    while i < segments.len()
        invariant
            i <= segments@.len(),
            forall|j: int| 0 <= j < i ==> !is_unreadable(segments@, j),
            text@ == segment_texts(segments@, i as int),
        decreases segments@.len() - i,
    {
        match &segments[i] {
            Some(Ok(segment)) => {
                text.append(segment.as_str());
            },
            Some(Err(cause)) => {
                let mut message = String::from_str("Failed to get segment ");
                let position = decimal_text(i);
                message.append(position.as_str());
                message.append(" text: ");
                message.append(cause.as_str());
                assert(is_unreadable(segments@, i as int));
                return Err(message);
            },
            None => {},
        }
        i += 1;
    }
    Ok(trim(text.as_str()))
}

/// The text of a streaming engine's raw tokens: each word boundary marker
/// (U+2581) becomes a space, the end-of-utterance tokens are dropped, and
/// the white space at the ends is stripped.
pub open spec fn cleaned_tokens(raw: Seq<char>) -> Seq<char> {
    trimmed(replaced(replaced(raw, "\u{2581}"@, " "@), "<EOU>"@, ""@))
}

/// Clean up the raw token output of a streaming engine.
pub fn clean_tokens(raw: &str) -> (text: String)
    ensures
        text@ == cleaned_tokens(raw@),
{
    let spaced = replace(raw, "\u{2581}", " ");
    let spoken = replace(spaced.as_str(), "<EOU>", "");
    trim(spoken.as_str())
}

/// How many frames a streaming engine is fed at a time: 160 ms at the
/// target rate.
pub const STREAM_CHUNK_FRAMES: usize = 2560;

/// How many chunks `len` frames are streamed in.
pub open spec fn stream_chunk_count(len: int) -> int {
    (len + STREAM_CHUNK_FRAMES - 1) / (STREAM_CHUNK_FRAMES as int)
}

/// The frames of chunk `i` of a stream; the last chunk may be short.
pub open spec fn stream_chunk<S>(audio: Seq<S>, i: int) -> Seq<S> {
    let lo = i * STREAM_CHUNK_FRAMES;
    let hi = if lo + STREAM_CHUNK_FRAMES <= audio.len() {
        lo + STREAM_CHUNK_FRAMES
    } else {
        audio.len() as int
    };
    audio.subrange(lo, hi)
}

/// `step` returned `answer` for chunk `i` of the stream, told whether the
/// chunk is the last.
pub open spec fn is_stream_step<S, F: Fn(&[S], bool) -> Result<String, String>>(
    step: F,
    audio: Seq<S>,
    i: int,
    answer: Result<String, String>,
) -> bool {
    let last = i == stream_chunk_count(audio.len() as int) - 1;
    exists|chunk: &[S]|
        chunk@ == stream_chunk(audio, i) && #[trigger] step.ensures((chunk, last), answer)
}

/// The first `n` texts, one after the other.
pub open spec fn concatenated(parts: Seq<String>, n: int) -> Seq<char>
    decreases n,
{
    if n <= 0 {
        Seq::empty()
    } else {
        concatenated(parts, n - 1) + parts[n - 1]@
    }
}

/// `result` is what streaming `audio` through `step` comes to.
///
/// Either every chunk was taken and the result is the cleaned text of all
/// answers in order; or the chunks up to some chunk were taken, that chunk
/// failed, and the failure is reported with its cause.
pub open spec fn is_stream_outcome<S, F: Fn(&[S], bool) -> Result<String, String>>(
    step: F,
    audio: Seq<S>,
    result: Result<String, String>,
) -> bool {
    match result {
        Ok(text) => exists|parts: Seq<String>|
            {
                &&& parts.len() == stream_chunk_count(audio.len() as int)
                &&& forall|i: int|
                    0 <= i < parts.len() ==> is_stream_step(
                        step,
                        audio,
                        i,
                        Ok::<String, String>(#[trigger] parts[i]),
                    )
                &&& text@ == cleaned_tokens(#[trigger] concatenated(parts, parts.len() as int))
            },
        Err(message) => exists|parts: Seq<String>, cause: String|
            {
                &&& parts.len() < stream_chunk_count(audio.len() as int)
                &&& forall|i: int|
                    0 <= i < parts.len() ==> is_stream_step(
                        step,
                        audio,
                        i,
                        Ok::<String, String>(#[trigger] parts[i]),
                    )
                &&& #[trigger] is_stream_step(
                    step,
                    audio,
                    parts.len() as int,
                    Err::<String, String>(cause),
                )
                &&& message@ == "Parakeet EOU transcription failed: "@ + cause@
            },
    }
}

/// What the first texts make up does not depend on later texts.
proof fn lemma_concatenated_prefix(parts: Seq<String>, more: Seq<String>, n: int)
    requires
        n <= parts.len() <= more.len(),
        forall|i: int| 0 <= i < parts.len() ==> parts[i] == more[i],
    ensures
        concatenated(parts, n) == concatenated(more, n),
    decreases n,
{
    if n > 0 {
        lemma_concatenated_prefix(parts, more, n - 1);
    }
}

/// Counting the chunks of a stream: as long as audio is left, the next
/// chunk exists, and the chunk that uses up the audio is the last.
proof fn lemma_stream_progress(len: int, done: int)
    requires
        0 <= done,
        done * STREAM_CHUNK_FRAMES <= len,
    ensures
        done * STREAM_CHUNK_FRAMES == len ==> stream_chunk_count(len) == done,
        done * STREAM_CHUNK_FRAMES < len ==> done < stream_chunk_count(len),
        done * STREAM_CHUNK_FRAMES < len <= (done + 1) * STREAM_CHUNK_FRAMES
            ==> stream_chunk_count(len) == done + 1,
        done * STREAM_CHUNK_FRAMES < len && (done + 1) * STREAM_CHUNK_FRAMES < len ==> done + 1
            < stream_chunk_count(len),
{
}

/// Transcribe audio with a streaming engine.
///
/// Empty audio is empty text, and the engine is not called. Any other audio
/// is fed to `step` chunk by chunk, in order, the last chunk marked as such;
/// the answers are put together and cleaned up as [`cleaned_tokens`] says.
/// The first failure ends the transcription.
pub fn transcribe_stream<S, F: Fn(&[S], bool) -> Result<String, String>>(
    audio: &[S],
    step: F,
) -> (result: Result<String, String>)
    requires
        forall|chunk: &[S], last: bool| step.requires((chunk, last)),
    ensures
        audio@.len() == 0 ==> result is Ok && result->Ok_0@.len() == 0,
        audio@.len() > 0 ==> is_stream_outcome(step, audio@, result),
{
    let len = audio.len();
    if len == 0 {
        return Ok(String::new());
    }
    let mut full_text = String::new();
    let ghost mut parts: Seq<String> = Seq::empty();
    let mut offset: usize = 0;
    while offset < len
        invariant
            len == audio@.len(),
            offset <= len,
            offset < len ==> offset == parts.len() * STREAM_CHUNK_FRAMES,
            offset == len ==> parts.len() == stream_chunk_count(len as int),
            forall|chunk: &[S], last: bool| step.requires((chunk, last)),
            forall|i: int|
                0 <= i < parts.len() ==> is_stream_step(
                    step,
                    audio@,
                    i,
                    Ok::<String, String>(#[trigger] parts[i]),
                ),
            full_text@ == concatenated(parts, parts.len() as int),
        decreases len - offset,
    {
        let ghost done = parts.len() as int;
        proof {
            lemma_stream_progress(len as int, done);
        }
        let end = if len - offset > STREAM_CHUNK_FRAMES {
            offset + STREAM_CHUNK_FRAMES
        } else {
            len
        };
        let is_last = end == len;
        let chunk = slice_subrange(audio, offset, end);
        assert(chunk@ == stream_chunk(audio@, done));
        assert(is_last == (done == stream_chunk_count(len as int) - 1));
        match step(chunk, is_last) {
            Err(cause) => {
                let mut message = String::from_str("Parakeet EOU transcription failed: ");
                message.append(cause.as_str());
                assert(is_stream_step(step, audio@, done, Err::<String, String>(cause)));
                return Err(message);
            },
            Ok(text) => {
                let ghost before = parts;
                proof {
                    parts = parts.push(text);
                    lemma_concatenated_prefix(before, parts, done);
                    assert(is_stream_step(step, audio@, done, Ok::<String, String>(text)));
                }
                full_text.append(text.as_str());
                offset = end;
            },
        }
    }
    Ok(clean_tokens(full_text.as_str()))
}

} // verus!
