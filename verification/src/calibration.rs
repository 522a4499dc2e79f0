//! Finding the calibration pulse in what the device captured.

use vstd::prelude::*;
use vstd::string::StringExecFns;

use crate::sample::{amplitude, unsigned_abs};

verus! {

/// Frames at the start of a calibration capture that are not looked at.
pub const CALIBRATION_SKIP_FRAMES: usize = 4_800;

/// The strongest sample of a calibration capture.
#[derive(Debug, PartialEq, Eq)]
pub struct CalibrationPeak {
    pub frame: usize,
    pub channel: usize,
    pub sample: i32,
    pub channel_peaks: Vec<u32>,
}

/// `at` is the first of the strongest samples from `low` up to `high`.
pub open spec fn is_first_peak(samples: Seq<i32>, low: int, high: int, at: int) -> bool {
    &&& low <= at < high
    &&& forall|i: int|
        low <= i < high ==> amplitude(#[trigger] samples[i]) <= amplitude(samples[at])
    &&& forall|i: int| low <= i < at ==> amplitude(#[trigger] samples[i]) < amplitude(samples[at])
}

/// `peak` is the greatest amplitude of the samples from `low` up to `high` that
/// belong to `channel`, and zero where there is none.
pub open spec fn is_channel_peak(
    samples: Seq<i32>,
    channels: int,
    low: int,
    high: int,
    channel: int,
    peak: int,
) -> bool {
    &&& 0 <= peak
    &&& forall|i: int|
        low <= i < high && i % channels == channel ==> amplitude(#[trigger] samples[i]) <= peak
    &&& peak > 0 ==> exists|i: int|
        low <= i < high && i % channels == channel && amplitude(#[trigger] samples[i]) == peak
}

/// `peak` is what a capture of `channels` interleaved channels shows from frame
/// `skip_frames` on. A rest that fills no frame does not count.
pub open spec fn is_calibration_peak(
    samples: Seq<i32>,
    channels: int,
    skip_frames: int,
    peak: CalibrationPeak,
) -> bool {
    let low = skip_frames * channels;
    let high = samples.len() as int / channels * channels;
    let at = peak.frame * channels + peak.channel;
    &&& 0 <= peak.channel < channels
    &&& is_first_peak(samples, low, high, at)
    &&& peak.sample == samples[at]
    &&& peak.channel_peaks@.len() == channels
    &&& forall|channel: int|
        0 <= channel < channels ==> is_channel_peak(
            samples,
            channels,
            low,
            high,
            channel,
            #[trigger] peak.channel_peaks@[channel] as int,
        )
}

proof fn lemma_multiples(length: int, channels: int, skip: int)
    requires
        0 < channels,
        0 <= length,
        0 <= skip < length / channels,
    ensures
        0 <= skip * channels < length / channels * channels <= length,
        (length / channels * channels) % channels == 0,
        (skip * channels) % channels == 0,
        (skip * channels) / channels == skip,
{
    vstd::arithmetic::div_mod::lemma_fundamental_div_mod(length, channels);
    vstd::arithmetic::mul::lemma_mul_is_commutative(length / channels, channels);
    vstd::arithmetic::mul::lemma_mul_strict_inequality(skip, length / channels, channels);
    vstd::arithmetic::mul::lemma_mul_nonnegative(skip, channels);
    vstd::arithmetic::div_mod::lemma_mod_multiples_basic(length / channels, channels);
    vstd::arithmetic::div_mod::lemma_mod_multiples_basic(skip, channels);
    vstd::arithmetic::div_mod::lemma_div_by_multiple(skip, channels);
}

/// The strongest sample of a capture of `channels` interleaved channels from
/// frame `skip_frames` on, with the greatest amplitude of every channel.
pub fn find_calibration_peak(
    interleaved_samples: &[i32],
    channels: usize,
    skip_frames: usize,
) -> (found: Option<CalibrationPeak>)
    ensures
        found is Some <==> channels > 0 && skip_frames < interleaved_samples@.len() as int
            / channels as int,
        found matches Some(peak) ==> is_calibration_peak(
            interleaved_samples@,
            channels as int,
            skip_frames as int,
            peak,
        ),
{
    if channels == 0 {
        return None;
    }
    let length: usize = interleaved_samples.len();
    let frames: usize = length / channels;
    if skip_frames >= frames {
        return None;
    }
    proof {
        lemma_multiples(length as int, channels as int, skip_frames as int);
    }
    let low: usize = skip_frames * channels;
    let high: usize = frames * channels;
    let mut channel_peaks: Vec<u32> = Vec::new();
    let mut filled: usize = 0;
    while filled < channels
        invariant
            filled <= channels,
            channel_peaks@.len() == filled,
            forall|c: int| 0 <= c < filled ==> channel_peaks@[c] == 0,
        decreases channels - filled,
    {
        channel_peaks.push(0);
        filled = filled + 1;
    }
    let mut best: usize = low;
    let mut best_amplitude: u32 = 0;
    let mut best_channel: usize = 0;
    let mut best_frame: usize = skip_frames;
    let mut at: usize = low;
    let mut channel: usize = 0;
    let mut frame: usize = skip_frames;
    while at < high
        invariant
            0 < channels,
            high <= length == interleaved_samples@.len(),
            low <= at <= high,
            high % channels == 0,
            0 <= channel < channels,
            at == frame * channels + channel,
            at % channels == channel,
            frame <= at,
            channel_peaks@.len() == channels,
            forall|c: int|
                0 <= c < channels ==> is_channel_peak(
                    interleaved_samples@,
                    channels as int,
                    low as int,
                    at as int,
                    c,
                    #[trigger] channel_peaks@[c] as int,
                ),
            at > low ==> is_first_peak(
                interleaved_samples@,
                low as int,
                at as int,
                best as int,
            ),
            at > low ==> best_amplitude == amplitude(interleaved_samples@[best as int]),
            at == low ==> best == low && best_amplitude == 0,
            best == best_frame * channels + best_channel,
            0 <= best_channel < channels,
        decreases high - at,
    {
        let sample: i32 = interleaved_samples[at];
        let height: u32 = unsigned_abs(sample);
        let ghost before = channel_peaks@;
        if height > channel_peaks[channel] {
            channel_peaks.set(channel, height);
        }
        proof {
            lemma_channel_peaks_step(
                interleaved_samples@,
                channels as int,
                low as int,
                at as int,
                before,
                channel_peaks@,
            );
        }
        if at == low || height > best_amplitude {
            best = at;
            best_amplitude = height;
            best_channel = channel;
            best_frame = frame;
        }
        proof {
            lemma_next_position(at as int, frame as int, channel as int, channels as int);
        }
        at = at + 1;
        if channel + 1 == channels {
            channel = 0;
            frame = frame + 1;
        } else {
            channel = channel + 1;
        }
    }
    assert(at == high);
    Some(
        CalibrationPeak {
            frame: best_frame,
            channel: best_channel,
            sample: interleaved_samples[best],
            channel_peaks,
        },
    )
}

proof fn lemma_next_position(at: int, frame: int, channel: int, channels: int)
    requires
        0 <= channel < channels,
        0 <= frame,
        at == frame * channels + channel,
        at % channels == channel,
    ensures
        channel + 1 == channels ==> at + 1 == (frame + 1) * channels && (at + 1) % channels == 0
            && frame + 1 <= at + 1,
        channel + 1 < channels ==> (at + 1) % channels == channel + 1,
{
    vstd::arithmetic::mul::lemma_mul_is_distributive_add_other_way(channels, frame, 1);
    if channel + 1 == channels {
        assert(at + 1 == (frame + 1) * channels);
        vstd::arithmetic::div_mod::lemma_mod_multiples_basic(frame + 1, channels);
        assert(frame * 1 <= frame * channels) by (nonlinear_arith)
            requires
                0 <= frame,
                1 <= channels,
        ;
    } else {
        vstd::arithmetic::div_mod::lemma_fundamental_div_mod_converse(
            at + 1,
            channels,
            frame,
            channel + 1,
        );
    }
}

proof fn lemma_channel_peaks_step(
    samples: Seq<i32>,
    channels: int,
    low: int,
    at: int,
    before: Seq<u32>,
    after: Seq<u32>,
)
    requires
        0 < channels,
        0 <= low <= at < samples.len(),
        before.len() == channels,
        forall|c: int|
            0 <= c < channels ==> is_channel_peak(
                samples,
                channels,
                low,
                at,
                c,
                #[trigger] before[c] as int,
            ),
        after == (if amplitude(samples[at]) > before[at % channels] {
            before.update(at % channels, amplitude(samples[at]) as u32)
        } else {
            before
        }),
        amplitude(samples[at]) <= u32::MAX,
    ensures
        forall|c: int|
            0 <= c < channels ==> is_channel_peak(
                samples,
                channels,
                low,
                at + 1,
                c,
                #[trigger] after[c] as int,
            ),
{
    assert forall|c: int| 0 <= c < channels implies is_channel_peak(
        samples,
        channels,
        low,
        at + 1,
        c,
        #[trigger] after[c] as int,
    ) by {
        assert(is_channel_peak(samples, channels, low, at, c, before[c] as int));
        if before[c] > 0 {
            let i = choose|i: int|
                low <= i < at && i % channels == c && amplitude(#[trigger] samples[i])
                    == before[c];
            assert(amplitude(samples[i]) == before[c]);
        }
        if c == at % channels && amplitude(samples[at]) > before[c] {
            assert(amplitude(samples[at]) == after[c]);
        }
    }
}

/// Why a calibration capture gave no offset.
#[derive(Debug)]
pub enum CalibrationFailure {
    /// Nothing was captured after the frames that are not looked at.
    NoSamples,
    /// The strongest sample is no pulse: it is within a twentieth of full scale.
    PulseNotDetected(CalibrationPeak),
}

/// Greatest amplitude that is still taken for noise.
pub const NOISE_AMPLITUDE: u32 = 107_374_182;

/// Frames from the nearest whole second to `frame`. A `frame` half-way between
/// two seconds counts from the later one.
pub open spec fn offset_from_second(frame: int) -> int {
    frame - (frame + 24_000) / 48_000 * 48_000
}

/// The lag of captures behind playback, where a pulse is played at every whole
/// second and `samples` hold the ten channels that were captured.
pub fn calibration_offset(samples: &[i32]) -> (result: Result<i64, CalibrationFailure>)
    ensures
        result matches Err(CalibrationFailure::NoSamples) <==> CALIBRATION_SKIP_FRAMES
            >= samples@.len() / 10,
        result matches Err(CalibrationFailure::PulseNotDetected(peak)) ==> {
            &&& is_calibration_peak(samples@, 10, CALIBRATION_SKIP_FRAMES as int, peak)
            &&& amplitude(peak.sample) <= NOISE_AMPLITUDE
        },
        result matches Ok(offset) ==> exists|peak: CalibrationPeak|
            {
                &&& #[trigger] is_calibration_peak(
                    samples@,
                    10,
                    CALIBRATION_SKIP_FRAMES as int,
                    peak,
                )
                &&& amplitude(peak.sample) > NOISE_AMPLITUDE
                &&& offset == offset_from_second(peak.frame as int)
            },
        forall|peak: CalibrationPeak| #[trigger]
            is_calibration_peak(samples@, 10, CALIBRATION_SKIP_FRAMES as int, peak) ==> (result is Ok
                <==> amplitude(peak.sample) > NOISE_AMPLITUDE),
{
    let peak = match find_calibration_peak(samples, 10, CALIBRATION_SKIP_FRAMES) {
        Some(peak) => peak,
        None => {
            return Err(CalibrationFailure::NoSamples);
        },
    };
    proof {
        assert forall|other: CalibrationPeak| #[trigger]
            is_calibration_peak(
                samples@,
                10,
                CALIBRATION_SKIP_FRAMES as int,
                other,
            ) implies other.sample == peak.sample by {
            law_calibration_peak_is_unique(
                samples@,
                10,
                CALIBRATION_SKIP_FRAMES as int,
                peak,
                other,
            );
        }
    }
    if unsigned_abs(peak.sample) <= NOISE_AMPLITUDE {
        return Err(CalibrationFailure::PulseNotDetected(peak));
    }
    assert(peak.frame * 10 + peak.channel < samples@.len());
    let length: usize = samples.len();
    let frame: i64 = peak.frame as i64;
    let expected: i64 = (frame + 24_000) / 48_000 * 48_000;
    Ok(frame - expected)
}

/// A calibration offset is at most half a second either way.
pub proof fn law_offset_is_within_half_a_second(frame: int)
    ensures
        -24_000 <= offset_from_second(frame) < 24_000,
        (frame - offset_from_second(frame)) % 48_000 == 0,
{
}

/// The calibration peak of a capture is determined by the capture.
pub proof fn law_calibration_peak_is_unique(
    samples: Seq<i32>,
    channels: int,
    skip_frames: int,
    one: CalibrationPeak,
    other: CalibrationPeak,
)
    requires
        channels > 0,
        is_calibration_peak(samples, channels, skip_frames, one),
        is_calibration_peak(samples, channels, skip_frames, other),
    ensures
        one.frame == other.frame,
        one.channel == other.channel,
        one.sample == other.sample,
        one.channel_peaks@ == other.channel_peaks@,
{
    let at = one.frame * channels + one.channel;
    let there = other.frame * channels + other.channel;
    assert(amplitude(samples[at]) == amplitude(samples[there]));
    assert(at == there);
    vstd::arithmetic::div_mod::lemma_fundamental_div_mod_converse(
        at,
        channels,
        one.frame as int,
        one.channel as int,
    );
    vstd::arithmetic::div_mod::lemma_fundamental_div_mod_converse(
        at,
        channels,
        other.frame as int,
        other.channel as int,
    );
    let low = skip_frames * channels;
    let high = samples.len() as int / channels * channels;
    assert forall|c: int| 0 <= c < channels implies one.channel_peaks@[c] == other.channel_peaks@[c] by {
        let a = one.channel_peaks@[c] as int;
        let b = other.channel_peaks@[c] as int;
        assert(is_channel_peak(samples, channels, low, high, c, a));
        assert(is_channel_peak(samples, channels, low, high, c, b));
    }
    assert(one.channel_peaks@ =~= other.channel_peaks@);
}

/// The pipeline that plays pulses and captures what comes back.
pub fn calibration_pipeline(playback_device: &str, capture_device: &str) -> (description: String)
    ensures
        description@
            == "audiotestsrc is-live=true wave=ticks samplesperbuffer=256 ! audioconvert ! audio/x-raw,format=S32LE,rate=48000,channels=2 ! alsasink device=\""@
            + playback_device@ + "\" sync=true alsasrc device=\""@ + capture_device@
            + "\" ! audio/x-raw,format=S32LE,rate=48000,channels=10 ! appsink name=calibration sync=false"@,
{
    let mut description: String =
        "audiotestsrc is-live=true wave=ticks samplesperbuffer=256 ! audioconvert ! audio/x-raw,format=S32LE,rate=48000,channels=2 ! alsasink device=\"".to_string();
    description.append(playback_device);
    description.append("\" sync=true alsasrc device=\"");
    description.append(capture_device);
    description.append(
        "\" ! audio/x-raw,format=S32LE,rate=48000,channels=10 ! appsink name=calibration sync=false",
    );
    description
}

/// The calibration peak is the strongest sample that is looked at, and the first of those
/// as strong: none from the first frame that counts to the last whole frame is farther
/// from zero, and each before it is nearer.
pub proof fn law_peak_is_the_strongest_sample(
    samples: Seq<i32>,
    channels: int,
    skip_frames: int,
    peak: CalibrationPeak,
    i: int,
)
    requires
        channels > 0,
        is_calibration_peak(samples, channels, skip_frames, peak),
        skip_frames * channels <= i < samples.len() as int / channels * channels,
    ensures
        ({
            let height = if peak.sample >= 0 {
                peak.sample as int
            } else {
                -peak.sample
            };
            let at = peak.frame * channels + peak.channel;
            &&& 0 <= peak.channel < channels
            &&& skip_frames * channels <= at < samples.len() as int / channels * channels
            &&& samples[at] == peak.sample
            &&& -height <= samples[i] <= height
            &&& i < at ==> -height < samples[i] < height
        }),
{
    let at = peak.frame * channels + peak.channel;
    assert(amplitude(samples[i]) <= amplitude(samples[at]));
}

/// The peak of a channel bounds every sample of the channel that is looked at, and is
/// reached by one of them unless it is zero.
pub proof fn law_channel_peaks_bound_their_channel(
    samples: Seq<i32>,
    channels: int,
    skip_frames: int,
    peak: CalibrationPeak,
    channel: int,
)
    requires
        channels > 0,
        is_calibration_peak(samples, channels, skip_frames, peak),
        0 <= channel < channels,
    ensures
        ({
            let low = skip_frames * channels;
            let high = samples.len() as int / channels * channels;
            let height = peak.channel_peaks@[channel];
            &&& peak.channel_peaks@.len() == channels
            &&& forall|i: int|
                low <= i < high && i % channels == channel ==> -height <= #[trigger] samples[i]
                    <= height
            &&& height > 0 ==> exists|i: int|
                low <= i < high && i % channels == channel && (#[trigger] samples[i] == height
                    || samples[i] == -height)
        }),
{
    let low = skip_frames * channels;
    let high = samples.len() as int / channels * channels;
    let height = peak.channel_peaks@[channel] as int;
    assert(is_channel_peak(samples, channels, low, high, channel, height));
    assert forall|i: int| low <= i < high && i % channels == channel implies -height
        <= #[trigger] samples[i] <= height by {
        assert(amplitude(samples[i]) <= height);
    }
    if height > 0 {
        let i = choose|i: int|
            low <= i < high && i % channels == channel && amplitude(#[trigger] samples[i])
                == height;
        assert(samples[i] == height || samples[i] == -height);
    }
}

/// A tenth of a second is not looked at, and noise reaches up to a twentieth of full
/// scale.
pub proof fn law_noise_and_pause()
    ensures
        10 * CALIBRATION_SKIP_FRAMES == 48_000,
        20 * NOISE_AMPLITUDE <= i32::MAX < 20 * (NOISE_AMPLITUDE + 1),
{
}

} // verus!
