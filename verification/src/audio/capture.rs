//! The capture side: input devices, the per-buffer downmix, and the
//! amplitude window that feeds the live visualization.
//!
//! Samples are of a type `S` that this module never looks into. Whatever is
//! computed from sample values (the mix of a frame, the loudness of a
//! window) is computed by a function that the caller supplies; what is
//! established here is which samples each such function is given and where
//! its result ends up.

use vstd::prelude::*;
use vstd::slice::{slice_subrange, slice_to_vec};
use vstd::string::StringExecFns;

verus! {

/// How many bins a visualization event holds.
pub const VISUALIZATION_BINS: usize = 48;

/// How many windows make up one second of audio.
pub const WINDOWS_PER_SECOND: u32 = 20;

/// An available audio input device.
#[derive(Debug, Clone, PartialEq, Eq)]
pub struct AudioDeviceInfo {
    pub name: String,
    pub is_default: bool,
}

/// One step of the live visualization: the envelope of a full window and its
/// loudness.
#[derive(Debug, Clone, PartialEq)]
pub struct VisualizationEvent<S> {
    pub amplitudes: Vec<S>,
    pub rms: S,
}

/// `output` is a value that `f` may return for a slice that holds `input`.
pub open spec fn yields<S, F: Fn(&[S]) -> S>(f: F, input: Seq<S>, output: S) -> bool {
    exists|slice: &[S]| slice@ == input && #[trigger] f.ensures((slice,), output)
}

/// `f` may be called on every slice.
pub open spec fn accepts_all<S, F: Fn(&[S]) -> S>(f: F) -> bool {
    forall|slice: &[S]| f.requires((slice,))
}

/// The capacity that holds `max_duration_secs` seconds of mono audio at
/// `sample_rate`, or the largest capacity there is where that is less.
pub open spec fn buffer_capacity(sample_rate: u32, max_duration_secs: u32) -> int {
    if sample_rate * max_duration_secs <= usize::MAX {
        sample_rate * max_duration_secs
    } else {
        usize::MAX as int
    }
}

/// Estimate the buffer capacity for a sample rate and a longest duration in
/// seconds, so that a long recording does not reallocate.
pub fn estimate_buffer_capacity(sample_rate: u32, max_duration_secs: u32) -> (capacity: usize)
    ensures
        capacity == buffer_capacity(sample_rate, max_duration_secs),
{
    assert(sample_rate * max_duration_secs <= 0xffff_ffff * 0xffff_ffff) by (nonlinear_arith)
        requires
            sample_rate <= 0xffff_ffff,
            max_duration_secs <= 0xffff_ffff,
    ;
    let wanted: u64 = (sample_rate as u64) * (max_duration_secs as u64);
    if wanted <= usize::MAX as u64 {
        wanted as usize
    } else {
        usize::MAX
    }
}

/// How many samples make up one amplitude window at `sample_rate`: a
/// twentieth of a second.
pub fn amplitude_window_size(sample_rate: u32) -> (size: usize)
    ensures
        size == sample_rate / WINDOWS_PER_SECOND,
{
    (sample_rate / WINDOWS_PER_SECOND) as usize
}

/// How many frames `len` interleaved samples of `channels` channels make
/// up; a last frame may be short.
pub open spec fn frame_count(len: int, channels: int) -> int {
    if channels <= 1 {
        len
    } else {
        (len + channels - 1) / channels
    }
}

/// The samples of frame `i`: one per channel, fewer in a short last frame.
pub open spec fn frame_at<S>(data: Seq<S>, channels: int, i: int) -> Seq<S> {
    let lo = i * channels;
    let hi = if lo + channels <= data.len() {
        lo + channels
    } else {
        data.len() as int
    };
    data.subrange(lo, hi)
}

/// Counting frames: as long as data is left, the next frame exists, and
/// the frame that uses up the data is the last.
proof fn lemma_frame_progress(len: int, channels: int, frames: int)
    requires
        channels > 1,
        0 <= frames,
        frames * channels < len,
    ensures
        frames < frame_count(len, channels),
        (frames + 1) * channels == frames * channels + channels,
        (frames + 1) * channels >= len ==> frames + 1 == frame_count(len, channels),
{
    assert((frames + 1) * channels == frames * channels + channels) by (nonlinear_arith);
    let q = (len + channels - 1) / channels;
    assert(q * channels <= len + channels - 1 < (q + 1) * channels) by (nonlinear_arith)
        requires
            q == (len + channels - 1) / channels,
            channels > 1,
    ;
    assert(frames < q) by (nonlinear_arith)
        requires
            frames * channels < len,
            len + channels - 1 < (q + 1) * channels,
            channels > 1,
    ;
    if (frames + 1) * channels >= len {
        assert(frames + 1 >= q) by (nonlinear_arith)
            requires
                (frames + 1) * channels >= len,
                q * channels <= len + channels - 1,
                channels > 1,
        ;
    }
}

/// The frames cut the data up without gap or overlap: sample `k` of the
/// data is sample `k % channels` of frame `k / channels`.
pub proof fn lemma_frames_partition<S>(data: Seq<S>, channels: int, k: int)
    requires
        channels > 1,
        0 <= k < data.len(),
    ensures
        0 <= k / channels < frame_count(data.len() as int, channels),
        0 <= k % channels < frame_at(data, channels, k / channels).len(),
        frame_at(data, channels, k / channels)[k % channels] == data[k],
{
    let frame = k / channels;
    let place = k % channels;
    assert(k == frame * channels + place && 0 <= place < channels && 0 <= frame)
        by (nonlinear_arith)
        requires
            frame == k / channels,
            place == k % channels,
            channels > 1,
            0 <= k,
    ;
    lemma_frame_progress(data.len() as int, channels, frame);
}

/// Reduce interleaved multi-channel audio to mono.
///
/// With one channel the data is mono already and is handed back as it is.
/// With more, sample `i` of the result is what `mix` makes of frame `i`.
pub fn downmix_to_mono<S: Copy, F: Fn(&[S]) -> S>(data: &[S], channels: usize, mix: F) -> (mono:
    Vec<S>)
    requires
        accepts_all(mix),
    ensures
        mono@.len() == frame_count(data@.len() as int, channels as int),
        channels <= 1 ==> mono@ == data@,
        channels > 1 ==> forall|i: int|
            0 <= i < mono@.len() ==> yields(
                mix,
                frame_at(data@, channels as int, i),
                #[trigger] mono@[i],
            ),
{
    if channels <= 1 {
        return slice_to_vec(data);
    }
    let len = data.len();
    let mut mono: Vec<S> = Vec::new();
    let mut offset: usize = 0;
    assert(len == 0 ==> frame_count(len as int, channels as int) == 0) by (nonlinear_arith)
        requires
            channels > 1,
    ;
    while offset < len
        invariant
            channels > 1,
            len == data@.len(),
            offset <= len,
            offset < len ==> offset == mono@.len() * channels,
            offset == len ==> mono@.len() == frame_count(len as int, channels as int),
            accepts_all(mix),
            forall|i: int|
                0 <= i < mono@.len() ==> yields(
                    mix,
                    frame_at(data@, channels as int, i),
                    #[trigger] mono@[i],
                ),
        decreases len - offset,
    {
        let ghost frames = mono@.len() as int;
        proof {
            lemma_frame_progress(len as int, channels as int, frames);
        }
        let end = if len - offset >= channels {
            offset + channels
        } else {
            len
        };
        let frame = slice_subrange(data, offset, end);
        let mixed = mix(frame);
        assert(frame@ == frame_at(data@, channels as int, frames));
        mono.push(mixed);
        offset = end;
    }
    mono
}

/// Bin `i` of the envelope of `samples` holds `value`.
///
/// A window of at least `num_bins` samples is cut into `num_bins` equal
/// runs, as long as integer division allows, and a bin holds what `level`
/// makes of its run. A shorter window is copied as it is and followed by
/// `silence`.
pub open spec fn bin_holds<S, F: Fn(&[S]) -> S>(
    level: F,
    silence: S,
    samples: Seq<S>,
    num_bins: int,
    i: int,
    value: S,
) -> bool {
    let run = samples.len() as int / num_bins;
    if run == 0 {
        value == if i < samples.len() {
            samples[i]
        } else {
            silence
        }
    } else {
        yields(level, samples.subrange(i * run, (i + 1) * run), value)
    }
}

/// `bins` is the envelope of `samples` in `num_bins` bins.
pub open spec fn is_envelope<S, F: Fn(&[S]) -> S>(
    level: F,
    silence: S,
    samples: Seq<S>,
    num_bins: int,
    bins: Seq<S>,
) -> bool {
    &&& bins.len() == num_bins
    &&& forall|i: int|
        0 <= i < num_bins ==> bin_holds(level, silence, samples, num_bins, i, #[trigger] bins[i])
}

/// Run `i` of an envelope lies within the window.
proof fn lemma_run_bounds(len: int, num_bins: int, i: int)
    requires
        0 <= len,
        0 <= i < num_bins,
    ensures
        0 <= i * (len / num_bins),
        (i + 1) * (len / num_bins) == i * (len / num_bins) + len / num_bins,
        (i + 1) * (len / num_bins) <= len,
{
    let run = len / num_bins;
    assert(0 <= run && run * num_bins <= len) by (nonlinear_arith)
        requires
            run == len / num_bins,
            0 <= len,
            0 < num_bins,
    ;
    assert(0 <= i * run && (i + 1) * run == i * run + run && (i + 1) * run <= run * num_bins)
        by (nonlinear_arith)
        requires
            0 <= run,
            0 <= i < num_bins,
    ;
}

/// Downsample a window to a fixed number of bins for visualization.
///
/// The result always holds `num_bins` bins; those of an empty window are all
/// `silence`.
pub fn downsample_for_visualization<S: Copy, F: Fn(&[S]) -> S>(
    samples: &[S],
    num_bins: usize,
    silence: S,
    level: F,
) -> (bins: Vec<S>)
    requires
        accepts_all(level),
    ensures
        bins@.len() == num_bins,
        is_envelope(level, silence, samples@, num_bins as int, bins@),
        samples@.len() == 0 ==> forall|i: int| 0 <= i < num_bins ==> bins@[i] == silence,
{
    let len = samples.len();
    let mut bins: Vec<S> = Vec::new();
    if num_bins == 0 {
        return bins;
    }
    let run = len / num_bins;
    let mut i: usize = 0;
    while i < num_bins
        invariant
            len == samples@.len(),
            num_bins > 0,
            run == len / num_bins,
            i <= num_bins,
            bins@.len() == i,
            accepts_all(level),
            forall|k: int|
                0 <= k < i ==> bin_holds(
                    level,
                    silence,
                    samples@,
                    num_bins as int,
                    k,
                    #[trigger] bins@[k],
                ),
            len == 0 ==> forall|k: int| 0 <= k < i ==> bins@[k] == silence,
        decreases num_bins - i,
    {
        if run == 0 {
            if i < len {
                bins.push(samples[i]);
            } else {
                bins.push(silence);
            }
        } else {
            proof {
                lemma_run_bounds(len as int, num_bins as int, i as int);
            }
            let lo = i * run;
            let chunk = slice_subrange(samples, lo, lo + run);
            let value = level(chunk);
            assert(chunk@ == samples@.subrange(i * run, (i + 1) * run));
            bins.push(value);
        }
        i += 1;
    }
    bins
}

/// The mono samples that have not filled a window yet, and the size of a
/// window.
pub struct AmplitudeWindow<S> {
    pending: Vec<S>,
    size: usize,
}

impl<S: Copy> AmplitudeWindow<S> {
    /// The samples that wait for their window to fill, oldest first.
    pub closed spec fn pending(self) -> Seq<S> {
        self.pending@
    }

    /// How many samples make up a window.
    pub closed spec fn size(self) -> nat {
        self.size as nat
    }

    /// An empty window for a stream of `sample_rate`.
    pub fn new(sample_rate: u32) -> (window: Self)
        ensures
            window.pending() == Seq::<S>::empty(),
            window.size() == sample_rate / WINDOWS_PER_SECOND,
    {
        let size = amplitude_window_size(sample_rate);
        AmplitudeWindow { pending: Vec::with_capacity(size), size }
    }

    /// Take in the mono samples of one hardware buffer.
    ///
    /// Once a window's worth of samples is there, the oldest window is
    /// drained, and an event is made of it: `rms` gives its loudness, and its
    /// envelope in [`VISUALIZATION_BINS`] bins is made with `level`. One call
    /// drains at most one window; what is left waits for the next call.
    pub fn feed<R: Fn(&[S]) -> S, L: Fn(&[S]) -> S>(
        &mut self,
        mono: &[S],
        silence: S,
        rms: R,
        level: L,
    ) -> (event: Option<VisualizationEvent<S>>)
        requires
            accepts_all(rms),
            accepts_all(level),
        ensures
            final(self).size() == old(self).size(),
            old(self).pending().len() + mono@.len() < old(self).size() ==> event is None
                && final(self).pending() == old(self).pending() + mono@,
            (old(self).pending().len() + mono@.len() >= old(self).size() ==> {
                let all = old(self).pending() + mono@;
                let size = old(self).size() as int;
                &&& final(self).pending() == all.skip(size)
                &&& event is Some
                &&& yields(rms, all.take(size), event->Some_0.rms)
                &&& is_envelope(
                    level,
                    silence,
                    all.take(size),
                    VISUALIZATION_BINS as int,
                    event->Some_0.amplitudes@,
                )
            }),
    {
        let n = mono.len();
        let mut i: usize = 0;
        while i < n
            invariant
                n == mono@.len(),
                i <= n,
                self.size == old(self).size,
                self.pending@ == old(self).pending@ + mono@.subrange(0, i as int),
            decreases n - i,
        {
            self.pending.push(mono[i]);
            assert(self.pending@ == old(self).pending@ + mono@.subrange(0, i + 1));
            i += 1;
        }
        assert(mono@.subrange(0, n as int) == mono@);
        if self.pending.len() < self.size {
            return None;
        }
        let ghost all = self.pending@;
        let mut drained = self.pending.split_off(self.size);
        core::mem::swap(&mut drained, &mut self.pending);
        assert(drained@ == all.take(self.size as int));
        assert(self.pending@ == all.skip(self.size as int));
        let loudness = rms(drained.as_slice());
        let amplitudes = downsample_for_visualization(
            drained.as_slice(),
            VISUALIZATION_BINS,
            silence,
            level,
        );
        Some(VisualizationEvent { amplitudes, rms: loudness })
    }
}

impl AudioDeviceInfo {
    /// The device's name as text, and whether it is the default.
    pub open spec fn describes(self) -> (Seq<char>, bool) {
        (self.name@, self.is_default)
    }
}

/// Whether a device of this name is the system's default input.
pub open spec fn is_default_name(name: String, default_name: Option<String>) -> bool {
    default_name is Some && default_name->Some_0@ == name@
}

/// The devices among the first `n` names, in order: a device whose name
/// could not be resolved is left out.
pub open spec fn listed_devices(
    names: Seq<Option<String>>,
    default_name: Option<String>,
    n: int,
) -> Seq<(Seq<char>, bool)>
    decreases n,
{
    if n <= 0 {
        Seq::empty()
    } else {
        match names[n - 1] {
            Some(name) => listed_devices(names, default_name, n - 1).push(
                (name@, is_default_name(name, default_name)),
            ),
            None => listed_devices(names, default_name, n - 1),
        }
    }
}

/// List the available input devices and mark the default.
///
/// `names` holds, for each input device that the host reports, its name, or
/// `None` where the name cannot be had; `default_name` is the name of the
/// host's default input device, if it has one with a name.
pub fn list_input_devices(names: &[Option<String>], default_name: &Option<String>) -> (devices:
    Vec<AudioDeviceInfo>)
    ensures
        devices@.map_values(|d: AudioDeviceInfo| d.describes()) == listed_devices(
            names@,
            *default_name,
            names@.len() as int,
        ),
{
    let n = names.len();
    let mut devices: Vec<AudioDeviceInfo> = Vec::new();
    let mut i: usize = 0;
    while i < n
        invariant
            n == names@.len(),
            i <= n,
            devices@.map_values(|d: AudioDeviceInfo| d.describes()) == listed_devices(
                names@,
                *default_name,
                i as int,
            ),
        decreases n - i,
    {
        match &names[i] {
            Some(name) => {
                let is_default = match default_name {
                    Some(default) => *default == *name,
                    None => false,
                };
                let ghost before = devices@;
                let device = AudioDeviceInfo { name: name.clone(), is_default };
                devices.push(device);
                assert(devices@.map_values(|d: AudioDeviceInfo| d.describes())
                    == before.map_values(|d: AudioDeviceInfo| d.describes()).push(
                    device.describes(),
                ));
            },
            None => {},
        }
        i += 1;
    }
    devices
}

/// Which device a capture is opened on.
#[derive(Debug, Clone, Copy, PartialEq, Eq, Structural)]
pub enum InputDeviceChoice {
    /// The device at this position of the host's list.
    Listed(usize),
    /// The host's default input device.
    SystemDefault,
}

/// Device `i` bears the name `wanted`.
pub open spec fn is_named(names: Seq<Option<String>>, i: int, wanted: Seq<char>) -> bool {
    0 <= i < names.len() && names[i] is Some && names[i]->Some_0@ == wanted
}

/// The device that a capture is opened on, or why there is none.
///
/// A requested name selects the first device that bears exactly that name;
/// where no device does, or no name is requested, the default is used; and
/// without a default there is nothing to capture from.
pub open spec fn device_choice(
    names: Seq<Option<String>>,
    requested: Option<Seq<char>>,
    has_default: bool,
    choice: Result<InputDeviceChoice, String>,
) -> bool {
    match requested {
        Some(wanted) if exists|i: int| is_named(names, i, wanted) => match choice {
            Ok(InputDeviceChoice::Listed(first)) => {
                &&& is_named(names, first as int, wanted)
                &&& forall|j: int| 0 <= j < first ==> !is_named(names, j, wanted)
            },
            _ => false,
        },
        Some(_) => if has_default {
            choice == Ok::<InputDeviceChoice, String>(InputDeviceChoice::SystemDefault)
        } else {
            choice is Err && choice->Err_0@ == "No default input device"@
        },
        None => if has_default {
            choice == Ok::<InputDeviceChoice, String>(InputDeviceChoice::SystemDefault)
        } else {
            choice is Err && choice->Err_0@
                == "No input device available. Check microphone permissions."@
        },
    }
}

/// Choose the input device of a new capture.
///
/// `names` is the host's list as in [`list_input_devices`], `requested` the
/// device that the preferences select, and `has_default` whether the host has
/// a default input device.
pub fn select_input_device(
    names: &[Option<String>],
    requested: Option<&str>,
    has_default: bool,
) -> (choice: Result<InputDeviceChoice, String>)
    ensures
        (device_choice(
            names@,
            match requested {
                Some(name) => Some(name@),
                None => None,
            },
            has_default,
            choice,
        )),
{
    match requested {
        Some(name) => {
            let wanted = String::from_str(name);
            let n = names.len();
            let mut i: usize = 0;
            while i < n
                invariant
                    n == names@.len(),
                    i <= n,
                    requested == Some(name),
                    wanted@ == name@,
                    forall|j: int| 0 <= j < i ==> !is_named(names@, j, name@),
                decreases n - i,
            {
                let found = match &names[i] {
                    Some(candidate) => *candidate == wanted,
                    None => false,
                };
                if found {
                    assert(is_named(names@, i as int, name@));
                    return Ok(InputDeviceChoice::Listed(i));
                }
                i += 1;
            }
            if has_default {
                Ok(InputDeviceChoice::SystemDefault)
            } else {
                Err(String::from_str("No default input device"))
            }
        },
        None => {
            if has_default {
                Ok(InputDeviceChoice::SystemDefault)
            } else {
                Err(String::from_str("No input device available. Check microphone permissions."))
            }
        },
    }
}


} // verus!
