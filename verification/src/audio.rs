//! Audio framing between the host and the transport.
//!
//! The transport takes mono 16-bit PCM in frames of exactly ten milliseconds.
//! The host delivers buffers of arbitrary length once per tick, so samples are
//! gathered until a whole frame is available and the rest is kept for the next
//! delivery.

use vstd::arithmetic::div_mod::{
    lemma_div_pos_is_pos, lemma_fundamental_div_mod, lemma_fundamental_div_mod_converse,
    lemma_mod_pos_bound,
};
use vstd::arithmetic::mul::{lemma_mul_inequality, lemma_mul_is_distributive_add_other_way};
use vstd::prelude::*;
use vstd::slice::{slice_subrange, slice_to_vec};

verus! {

/// Number of transport frames per second: one frame lasts 10 ms.
pub const FRAMES_PER_SECOND: i32 = 100;

/// The lowest sample rate at which a 10 ms frame holds at least one sample.
pub const MIN_SAMPLE_RATE: i32 = 100;

/// Channels of the published audio track: the session publishes mono.
pub const PUBLISH_CHANNELS: u32 = 1;

/// How much audio, in milliseconds, the published source may hold in its queue.
pub const SOURCE_QUEUE_MS: u32 = 1000;

/// The name under which the local audio track is published.
pub const LOCAL_TRACK_NAME: &'static str = "mic";

/// Whether the published source cancels echo.
pub const ECHO_CANCELLATION: bool = true;

/// Whether the published source suppresses noise.
pub const NOISE_SUPPRESSION: bool = true;

/// Whether the published source controls its gain by itself.
pub const AUTO_GAIN_CONTROL: bool = true;

/// The sample rate at which remote audio is decoded.
pub const DECODE_SAMPLE_RATE: i32 = 48000;

/// Channels of decoded remote audio.
pub const DECODE_CHANNELS: i32 = 1;

/// The complete frames of length `frame_len` at the front of `samples`, in order.
pub open spec fn frames_of(samples: Seq<i16>, frame_len: int) -> Seq<Seq<i16>>
    recommends
        frame_len > 0,
{
    Seq::new(
        (samples.len() as int / frame_len) as nat,
        |j: int| samples.subrange(j * frame_len, (j + 1) * frame_len),
    )
}

/// What is left of `samples` after its complete frames are taken from the front.
pub open spec fn remainder_of(samples: Seq<i16>, frame_len: int) -> Seq<i16>
    recommends
        frame_len > 0,
{
    samples.subrange((samples.len() as int / frame_len) * frame_len, samples.len() as int)
}

/// What a fresh chain of pushes releases and retains: each push frames what was
/// held together with what it brings, and hands its remainder to the next.
pub open spec fn push_all(held: Seq<i16>, pushes: Seq<Seq<i16>>, frame_len: int) -> (
    Seq<Seq<i16>>,
    Seq<i16>,
)
    recommends
        frame_len > 0,
    decreases pushes.len(),
{
    if pushes.len() == 0 {
        (Seq::empty(), held)
    } else {
        let total = held + pushes.first();
        let later = push_all(remainder_of(total, frame_len), pushes.drop_first(), frame_len);
        (frames_of(total, frame_len) + later.0, later.1)
    }
}

/// Quotient and remainder of a length by the frame length, with the bounds
/// that the framing proofs lean on.
proof fn lemma_len_div(len: int, frame_len: int)
    requires
        0 <= len,
        0 < frame_len,
    ensures
        0 <= len / frame_len,
        0 <= len % frame_len < frame_len,
        len == (len / frame_len) * frame_len + len % frame_len,
        (len / frame_len) * frame_len <= len,
{
    lemma_div_pos_is_pos(len, frame_len);
    lemma_mod_pos_bound(len, frame_len);
    lemma_fundamental_div_mod(len, frame_len);
    assert(frame_len * (len / frame_len) == (len / frame_len) * frame_len) by (nonlinear_arith);
}

/// The start and end of frame `j` lie inside a sequence that holds `count`
/// whole frames.
proof fn lemma_frame_bounds(j: int, count: int, frame_len: int)
    requires
        0 <= j < count,
        0 < frame_len,
    ensures
        0 <= j * frame_len,
        (j + 1) * frame_len == j * frame_len + frame_len,
        (j + 1) * frame_len <= count * frame_len,
{
    lemma_mul_inequality(0, j, frame_len);
    lemma_mul_inequality(j + 1, count, frame_len);
    lemma_mul_is_distributive_add_other_way(frame_len, j, 1);
}

/// Framing counts: `len / frame_len` frames come out, each of exactly
/// `frame_len` samples, and `len % frame_len` samples, fewer than a frame,
/// remain.
pub proof fn lemma_framing_counts(samples: Seq<i16>, frame_len: int)
    requires
        frame_len > 0,
    ensures
        frames_of(samples, frame_len).len() == samples.len() as int / frame_len,
        remainder_of(samples, frame_len).len() == samples.len() as int % frame_len,
        remainder_of(samples, frame_len).len() < frame_len,
        forall|j: int|
            0 <= j < frames_of(samples, frame_len).len() ==> (#[trigger] frames_of(
                samples,
                frame_len,
            )[j]).len() == frame_len,
{
    let len = samples.len() as int;
    lemma_len_div(len, frame_len);
    assert forall|j: int| 0 <= j < frames_of(samples, frame_len).len() implies (#[trigger] frames_of(
        samples,
        frame_len,
    )[j]).len() == frame_len by {
        lemma_frame_bounds(j, len / frame_len, frame_len);
    }
}

/// Pushing in two parts is the same as pushing at once: the frames released
/// for `earlier`, followed by those released when `later` joins the remainder,
/// are the frames of `earlier + later`, and the same samples remain.
pub proof fn lemma_push_split(earlier: Seq<i16>, later: Seq<i16>, frame_len: int)
    requires
        frame_len > 0,
    ensures
        frames_of(earlier, frame_len) + frames_of(
            remainder_of(earlier, frame_len) + later,
            frame_len,
        ) == frames_of(earlier + later, frame_len),
        remainder_of(remainder_of(earlier, frame_len) + later, frame_len) == remainder_of(
            earlier + later,
            frame_len,
        ),
{
    let n = frame_len;
    let whole = earlier + later;
    let q = earlier.len() as int / n;
    let rem = remainder_of(earlier, n);
    let joined = rem + later;
    let q2 = joined.len() as int / n;
    lemma_len_div(earlier.len() as int, n);
    lemma_len_div(joined.len() as int, n);
    lemma_len_div(whole.len() as int, n);
    assert(rem.len() == earlier.len() - q * n);
    assert(whole.len() == (q + q2) * n + joined.len() as int % n) by {
        lemma_mul_is_distributive_add_other_way(n, q, q2);
    }
    lemma_fundamental_div_mod_converse(whole.len() as int, n, q + q2, joined.len() as int % n);
    let left = frames_of(earlier, n) + frames_of(joined, n);
    let right = frames_of(whole, n);
    assert(left.len() == right.len());
    assert forall|j: int| 0 <= j < right.len() implies left[j] == right[j] by {
        lemma_frame_bounds(j, q + q2, n);
        if j < q {
            lemma_frame_bounds(j, q, n);
            assert(left[j] =~= right[j]);
        } else {
            let i = j - q;
            lemma_frame_bounds(i, q2, n);
            assert(j * n == q * n + i * n) by {
                lemma_mul_is_distributive_add_other_way(n, q, i);
            }
            assert(left[j] == joined.subrange(i * n, (i + 1) * n));
            assert(left[j] =~= right[j]);
        }
    }
    assert(left =~= right);
    assert(remainder_of(joined, n) =~= remainder_of(whole, n)) by {
        assert((q + q2) * n == q * n + q2 * n) by {
            lemma_mul_is_distributive_add_other_way(n, q, q2);
        }
    }
}

/// Framing neither drops nor reorders a sample: the released frames laid end
/// to end, followed by the remainder, are the input again.
pub proof fn lemma_framing_preserves_samples(samples: Seq<i16>, frame_len: int)
    requires
        frame_len > 0,
    ensures
        frames_of(samples, frame_len).flatten() + remainder_of(samples, frame_len) == samples,
    decreases samples.len(),
{
    let n = frame_len;
    let len = samples.len() as int;
    lemma_len_div(len, n);
    if len < n {
        lemma_fundamental_div_mod_converse(len, n, 0, len);
        assert(frames_of(samples, n).flatten() =~= Seq::<i16>::empty());
        assert(remainder_of(samples, n) =~= samples);
    } else {
        let head = samples.subrange(0, n);
        let tail = samples.subrange(n, len);
        assert(samples =~= head + tail);
        lemma_fundamental_div_mod_converse(n, n, 1, 0);
        assert(frames_of(head, n) =~= seq![head]) by {
            lemma_frame_bounds(0, 1, n);
            assert(frames_of(head, n)[0] =~= head);
        }
        assert(remainder_of(head, n) =~= Seq::<i16>::empty());
        assert(remainder_of(head, n) + tail =~= tail);
        lemma_push_split(head, tail, n);
        lemma_framing_preserves_samples(tail, n);
        let all = frames_of(samples, n);
        assert(all =~= seq![head] + frames_of(tail, n));
        assert(all.first() == head);
        assert(all.drop_first() =~= frames_of(tail, n));
        assert(all.flatten() + remainder_of(samples, n) =~= head + (frames_of(tail, n).flatten()
            + remainder_of(tail, n)));
    }
}

/// However the host splits its audio over successive pushes, the frames that
/// leave are those of the whole stream and the samples that stay are its
/// remainder: after pushes that bring `t` samples in all to an assembler that
/// held `h`, exactly `(h + t) / frame_len` frames were released and
/// `(h + t) % frame_len` samples are retained.
pub proof fn lemma_pushes_accumulate(held: Seq<i16>, pushes: Seq<Seq<i16>>, frame_len: int)
    requires
        frame_len > 0,
        held.len() < frame_len,
    ensures
        push_all(held, pushes, frame_len).0 == frames_of(held + pushes.flatten(), frame_len),
        push_all(held, pushes, frame_len).1 == remainder_of(held + pushes.flatten(), frame_len),
        push_all(held, pushes, frame_len).0.len() == (held.len() + pushes.flatten().len()) as int
            / frame_len,
        push_all(held, pushes, frame_len).1.len() == (held.len() + pushes.flatten().len()) as int
            % frame_len,
    decreases pushes.len(),
{
    let n = frame_len;
    lemma_framing_counts(held + pushes.flatten(), n);
    if pushes.len() == 0 {
        assert(held + pushes.flatten() =~= held);
        lemma_fundamental_div_mod_converse(held.len() as int, n, 0, held.len() as int);
        assert(frames_of(held, n) =~= Seq::<Seq<i16>>::empty());
        assert(remainder_of(held, n) =~= held);
    } else {
        let total = held + pushes.first();
        let rest = pushes.drop_first();
        lemma_framing_counts(total, n);
        lemma_pushes_accumulate(remainder_of(total, n), rest, n);
        lemma_push_split(total, rest.flatten(), n);
        assert(total + rest.flatten() =~= held + pushes.flatten());
    }
}

/// A mono signal laid on two channels: every sample stands on the left and on
/// the right.
pub open spec fn upmixed<T>(mono: Seq<T>) -> Seq<(T, T)> {
    mono.map_values(|sample: T| (sample, sample))
}

/// Duplicates each mono sample to both channels of a stereo signal.
pub fn upmix_to_stereo<T: Copy>(mono: &[T]) -> (stereo: Vec<(T, T)>)
    ensures
        stereo@ == upmixed(mono@),
{
    let mut stereo: Vec<(T, T)> = Vec::new();
    let mut i: usize = 0;
    while i < mono.len()
        invariant
            i <= mono@.len(),
            stereo@ =~= upmixed(mono@.subrange(0, i as int)),
        decreases mono@.len() - i,
    {
        let sample: T = mono[i];
        stereo.push((sample, sample));
        i = i + 1;
    }
    assert(mono@.subrange(0, i as int) =~= mono@);
    stereo
}

/// Mixing down and laying out again. Let `mix` make one sample of a left and
/// a right one and give a sample back when handed it twice, as an average
/// does wherever it is exact. Then a stereo signal whose channels agree in
/// every sample is restored by upmixing what `mix` made of it.
pub proof fn lemma_upmix_restores_equal_channels<T>(stereo: Seq<(T, T)>, mix: spec_fn(T, T) -> T)
    requires
        forall|x: T| #[trigger] mix(x, x) == x,
        forall|i: int| 0 <= i < stereo.len() ==> (#[trigger] stereo[i]).0 == stereo[i].1,
    ensures
        upmixed(stereo.map_values(|pair: (T, T)| mix(pair.0, pair.1))) == stereo,
{
    let mono = stereo.map_values(|pair: (T, T)| mix(pair.0, pair.1));
    assert forall|i: int| 0 <= i < stereo.len() implies upmixed(mono)[i] == stereo[i] by {
        assert(stereo[i].0 == stereo[i].1);
        assert(mono[i] == mix(stereo[i].0, stereo[i].0));
    }
    assert(upmixed(mono) =~= stereo);
}

/// The sample sequences that a list of frames holds.
pub open spec fn frames_view(frames: Seq<Vec<i16>>) -> Seq<Seq<i16>> {
    frames.map_values(|f: Vec<i16>| f@)
}

/// The shape of the frames that go out to the transport.
#[derive(Clone, Copy, Debug, PartialEq, Eq, Structural)]
pub struct FrameFormat {
    /// Samples per second.
    pub sample_rate: u32,
    /// Channels per frame; the session publishes mono.
    pub num_channels: u32,
    /// Samples that one frame holds for each channel.
    pub samples_per_channel: u32,
}

/// The number of samples in a ten-millisecond frame at `sample_rate` Hz.
pub open spec fn samples_per_frame(sample_rate: i32) -> int {
    sample_rate as int / FRAMES_PER_SECOND as int
}

/// The shape of the frames that are published at `sample_rate` Hz.
pub open spec fn format_at(sample_rate: i32) -> FrameFormat {
    FrameFormat {
        sample_rate: sample_rate as u32,
        num_channels: PUBLISH_CHANNELS,
        samples_per_channel: samples_per_frame(sample_rate) as u32,
    }
}

/// A sample rate at which a ten-millisecond frame holds at least one sample.
#[derive(Clone, Copy, Debug)]
pub struct SampleRate {
    hz: i32,
}

impl SampleRate {
    #[verifier::type_invariant]
    spec fn inv(self) -> bool {
        self.hz >= MIN_SAMPLE_RATE
    }

    /// The rate in samples per second.
    pub closed spec fn spec_hz(self) -> i32 {
        self.hz
    }

    /// The rate of `hz` samples per second, or `None` when `hz` is below
    /// [`MIN_SAMPLE_RATE`].
    pub fn new(hz: i32) -> (r: Option<SampleRate>)
        ensures
            r is Some <==> hz >= MIN_SAMPLE_RATE,
            r matches Some(rate) ==> rate.spec_hz() == hz,
    {
        if hz >= MIN_SAMPLE_RATE {
            Some(SampleRate { hz })
        } else {
            None
        }
    }

    /// The rate in samples per second; at least [`MIN_SAMPLE_RATE`].
    pub fn hz(&self) -> (hz: i32)
        ensures
            hz == self.spec_hz(),
            hz >= MIN_SAMPLE_RATE,
    {
        proof {
            use_type_invariant(self);
        }
        self.hz
    }
}

/// Gathers pushed samples and releases them as frames of a fixed length.
pub struct FrameAssembler {
    sample_rate: i32,
    frame_len: usize,
    residual: Vec<i16>,
}

impl FrameAssembler {
    #[verifier::type_invariant]
    spec fn inv(self) -> bool {
        &&& self.sample_rate >= MIN_SAMPLE_RATE
        &&& self.frame_len == samples_per_frame(self.sample_rate)
        &&& self.residual@.len() < self.frame_len
    }

    /// The sample rate that the frames are cut for.
    pub closed spec fn spec_sample_rate(self) -> i32 {
        self.sample_rate
    }

    /// Samples per released frame.
    pub open spec fn spec_frame_len(self) -> int {
        samples_per_frame(self.spec_sample_rate())
    }

    /// Samples received so far that do not yet fill a frame.
    pub closed spec fn spec_residual(self) -> Seq<i16> {
        self.residual@
    }

    /// An empty assembler for ten-millisecond frames at `sample_rate` Hz, or
    /// `None` when the rate is too low for such a frame to hold a sample.
    pub fn new(sample_rate: i32) -> (r: Option<FrameAssembler>)
        ensures
            r is Some <==> sample_rate >= MIN_SAMPLE_RATE,
            r matches Some(a) ==> a.spec_sample_rate() == sample_rate && a.spec_residual()
                == Seq::<i16>::empty(),
    {
        if sample_rate < MIN_SAMPLE_RATE {
            None
        } else {
            let per_frame: i32 = sample_rate / FRAMES_PER_SECOND;
            Some(FrameAssembler { sample_rate, frame_len: per_frame as usize, residual: Vec::new() })
        }
    }

    /// The sample rate that the frames are cut for; at least
    /// [`MIN_SAMPLE_RATE`].
    pub fn sample_rate(&self) -> (rate: i32)
        ensures
            rate == self.spec_sample_rate(),
            rate >= MIN_SAMPLE_RATE,
    {
        proof {
            use_type_invariant(self);
        }
        self.sample_rate
    }

    /// Samples per released frame; at least one.
    pub fn frame_len(&self) -> (n: usize)
        ensures
            n as int == self.spec_frame_len(),
            n > 0,
    {
        proof {
            use_type_invariant(self);
        }
        self.frame_len
    }

    /// The shape of the released frames, as the transport is told it.
    pub fn format(&self) -> (format: FrameFormat)
        ensures
            format == format_at(self.spec_sample_rate()),
    {
        proof {
            use_type_invariant(self);
        }
        FrameFormat {
            sample_rate: self.sample_rate as u32,
            num_channels: PUBLISH_CHANNELS,
            samples_per_channel: self.frame_len as u32,
        }
    }

    /// Takes `samples` in after what is already held and releases every frame
    /// that is complete by now, oldest first. What does not fill a frame
    /// stays behind for the next push; no sample is dropped or reordered.
    pub fn push(&mut self, samples: &[i16]) -> (frames: Vec<Vec<i16>>)
        ensures
            final(self).spec_sample_rate() == old(self).spec_sample_rate(),
            frames_view(frames@) == frames_of(
                old(self).spec_residual() + samples@,
                old(self).spec_frame_len(),
            ),
            final(self).spec_residual() == remainder_of(
                old(self).spec_residual() + samples@,
                old(self).spec_frame_len(),
            ),
    {
        proof {
            use_type_invariant(&*self);
        }
        let n: usize = self.frame_len;
        let mut pending: Vec<i16> = Vec::new();
        std::mem::swap(&mut self.residual, &mut pending);
        pending.extend_from_slice(samples);
        let ghost all: Seq<i16> = pending@;
        assert(all =~= old(self).spec_residual() + samples@);
        let total: usize = pending.len();
        let mut frames: Vec<Vec<i16>> = Vec::new();
        let mut start: usize = 0;
        assert(0 * n == 0) by (nonlinear_arith);
        while total - start >= n
            invariant
                n > 0,
                pending@ == all,
                total == all.len(),
                start <= total,
                start == frames@.len() * n,
                frames_view(frames@) =~= Seq::new(
                    frames@.len(),
                    |j: int| all.subrange(j * n, (j + 1) * n),
                ),
            decreases total - start,
        {
            let ghost k: int = frames@.len() as int;
            assert((k + 1) * n == start + n) by (nonlinear_arith)
                requires
                    start == k * n,
            ;
            let ghost before: Seq<Vec<i16>> = frames@;
            let frame: Vec<i16> = slice_to_vec(slice_subrange(pending.as_slice(), start, start + n));
            frames.push(frame);
            start = start + n;
            assert forall|j: int| 0 <= j < frames@.len() implies frames_view(frames@)[j]
                == all.subrange(j * n, (j + 1) * n) by {
                if j < k {
                    assert(frames_view(frames@)[j] == frames_view(before)[j]);
                }
            }
        }
        proof {
            lemma_fundamental_div_mod_converse(
                total as int,
                n as int,
                frames@.len() as int,
                total - start,
            );
        }
        let rest: Vec<i16> = slice_to_vec(slice_subrange(pending.as_slice(), start, total));
        self.residual = rest;
        frames
    }

    /// Number of samples held back for the next push.
    pub fn buffered(&self) -> (n: usize)
        ensures
            n as int == self.spec_residual().len(),
            (n as int) < self.spec_frame_len(),
    {
        proof {
            use_type_invariant(self);
        }
        self.residual.len()
    }
}

} // verus!
