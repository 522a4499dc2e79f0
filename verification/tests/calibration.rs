use kma_audio_agent::calibration::{
    calibration_offset, calibration_pipeline, find_calibration_peak, CalibrationFailure,
};
use kma_audio_agent::device::{Calibration, CalibrationRefusal, HealthItem, ProbeReport};

#[test]
fn calibration_peak_scans_every_capture_channel() {
    let mut samples = vec![0_i32; 8 * 10];
    samples[2 * 10] = i32::MAX;
    samples[6 * 10 + 8] = -1_500_000_000;

    let peak = find_calibration_peak(&samples, 10, 4).expect("peak after skipped frames");

    assert_eq!(peak.frame, 6);
    assert_eq!(peak.channel, 8);
    assert_eq!(peak.sample, -1_500_000_000);
    assert_eq!(peak.channel_peaks[0], 0);
    assert_eq!(peak.channel_peaks[8], 1_500_000_000);
}

#[test]
fn calibration_peak_ignores_incomplete_capture_frame() {
    let mut samples = vec![0_i32; 10];
    samples[4] = 123;
    samples.extend([i32::MAX, i32::MAX]);

    let peak = find_calibration_peak(&samples, 10, 0).expect("complete capture frame");

    assert_eq!(peak.frame, 0);
    assert_eq!(peak.channel, 4);
    assert_eq!(peak.sample, 123);
}

#[test]
fn calibration_peak_rejects_zero_channel_layout() {
    assert!(find_calibration_peak(&[1, 2, 3], 0, 0).is_none());
}

#[test]
fn the_first_of_equally_strong_samples_is_the_peak() {
    let peak = find_calibration_peak(&[0, 7, -7, 7], 2, 0).unwrap();
    assert_eq!((peak.frame, peak.channel, peak.sample), (0, 1, 7));
    assert_eq!(peak.channel_peaks, vec![7, 7]);
    let lowest = find_calibration_peak(&[i32::MAX, i32::MIN], 1, 0).unwrap();
    assert_eq!(lowest.frame, 1);
    assert_eq!(lowest.channel_peaks, vec![2_147_483_648]);
}

#[test]
fn silence_has_a_peak_and_nothing_has_none() {
    let peak = find_calibration_peak(&[0, 0], 2, 0).unwrap();
    assert_eq!((peak.frame, peak.channel, peak.sample), (0, 0, 0));
    assert!(find_calibration_peak(&[], 2, 0).is_none());
    assert!(find_calibration_peak(&[5, 6], 2, 1).is_none());
}

fn capture_with_pulse(frame: usize, sample: i32) -> Vec<i32> {
    let mut samples = vec![0_i32; 100_000 * 10];
    samples[frame * 10 + 3] = sample;
    samples
}

#[test]
fn the_offset_counts_from_the_nearest_second() {
    assert_eq!(
        calibration_offset(&capture_with_pulse(48_500, i32::MAX)).unwrap(),
        500
    );
    assert_eq!(
        calibration_offset(&capture_with_pulse(47_000, i32::MIN)).unwrap(),
        -1_000
    );
    assert_eq!(
        calibration_offset(&capture_with_pulse(24_000, i32::MAX)).unwrap(),
        -24_000
    );
    assert_eq!(
        calibration_offset(&capture_with_pulse(71_999, i32::MAX)).unwrap(),
        23_999
    );
}

#[test]
fn a_weak_pulse_is_noise() {
    match calibration_offset(&capture_with_pulse(50_000, 107_374_182)) {
        Err(CalibrationFailure::PulseNotDetected(peak)) => {
            assert_eq!(peak.channel, 3);
            assert_eq!(peak.frame, 50_000);
            assert_eq!(peak.channel_peaks[3], 107_374_182);
        }
        other => panic!("unexpected {other:?}"),
    }
    assert_eq!(
        calibration_offset(&capture_with_pulse(50_000, -107_374_183)).unwrap(),
        2_000
    );
}

#[test]
fn the_first_frames_of_a_calibration_are_not_looked_at() {
    assert!(matches!(
        calibration_offset(&vec![i32::MAX; 4_800 * 10]),
        Err(CalibrationFailure::NoSamples)
    ));
    assert!(matches!(
        calibration_offset(&capture_with_pulse(4_799, i32::MAX)),
        Err(CalibrationFailure::PulseNotDetected(_))
    ));
    assert_eq!(
        calibration_offset(&capture_with_pulse(4_800, i32::MAX)).unwrap(),
        4_800
    );
}

#[test]
fn the_calibration_pipeline_names_both_devices() {
    assert_eq!(
        calibration_pipeline("out", "in"),
        "audiotestsrc is-live=true wave=ticks samplesperbuffer=256 ! audioconvert ! audio/x-raw,format=S32LE,rate=48000,channels=2 ! alsasink device=\"out\" sync=true alsasrc device=\"in\" ! audio/x-raw,format=S32LE,rate=48000,channels=10 ! appsink name=calibration sync=false"
    );
}

#[test]
fn a_device_that_plays_and_captures_can_be_calibrated() {
    let report = |playback, capture| {
        ProbeReport::of_device(playback, capture, HealthItem::ok(), false, 3)
    };
    assert_eq!(
        report(HealthItem::ok(), HealthItem::ok()).can_calibrate(),
        Ok(())
    );
    assert_eq!(
        report(HealthItem::failed("busy"), HealthItem::failed("busy")).can_calibrate(),
        Err(CalibrationRefusal::PlaybackUnavailable)
    );
    assert_eq!(
        report(HealthItem::ok(), HealthItem::failed("busy")).can_calibrate(),
        Err(CalibrationRefusal::CaptureUnavailable)
    );
    assert_eq!(
        CalibrationRefusal::PlaybackUnavailable.to_string(),
        "FLOW 8 playback is unavailable"
    );
    assert_eq!(
        CalibrationRefusal::CaptureUnavailable.to_string(),
        "FLOW 8 capture is unavailable"
    );
}

#[test]
fn a_calibration_says_when_it_was_measured() {
    let calibration = Calibration::measured(-17, 1_700_000_000);
    assert_eq!(calibration.playback_to_capture_offset_frames, -17);
    assert_eq!(calibration.sample_rate, 48_000);
    assert_eq!(calibration.measured_at, "1700000000");
    assert_eq!(Calibration::measured(0, 0).measured_at, "0");
}

#[test]
fn the_health_of_recording_follows_the_other_parts() {
    let report = ProbeReport::of_device(
        HealthItem::ok(),
        HealthItem::ok(),
        HealthItem::failed("no port"),
        true,
        7,
    );
    assert!(report.recording.ok);
    assert_eq!(report.midi.reason.as_deref(), Some("no port"));
    assert_eq!((report.sample_rate, report.playback_channels), (48_000, 2));
    assert_eq!((report.capture_channels, report.snapshot_slot), (10, 7));
    let deaf = ProbeReport::of_device(
        HealthItem::ok(),
        HealthItem::failed("busy"),
        HealthItem::ok(),
        true,
        7,
    );
    assert_eq!(deaf.recording.reason.as_deref(), Some("capture_unavailable"));
    let uncalibrated = ProbeReport::of_device(
        HealthItem::ok(),
        HealthItem::ok(),
        HealthItem::ok(),
        false,
        7,
    );
    assert_eq!(
        uncalibrated.recording.reason.as_deref(),
        Some("calibration_missing")
    );
    assert!(!uncalibrated.recording.ok);
}

#[test]
fn a_build_without_audio_says_so() {
    let report = ProbeReport::unsupported(true, 4);
    let reason = Some("binary was built without the linux-audio feature");
    assert_eq!(report.playback.reason.as_deref(), reason);
    assert_eq!(report.recording.reason.as_deref(), reason);
    assert_eq!((report.playback_channels, report.capture_channels), (0, 0));
    assert_eq!((report.sample_rate, report.snapshot_slot), (48_000, 4));
    assert_eq!(
        ProbeReport::unsupported(false, 4).recording.reason.as_deref(),
        Some("calibration_missing")
    );
}
