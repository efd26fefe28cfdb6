//! Capture bookkeeping: buffer sizing, downmix, amplitude window, envelope
//! and the choice of the input device.

use text_to_code_lib::audio::capture::{
    amplitude_window_size, downmix_to_mono, downsample_for_visualization,
    estimate_buffer_capacity, list_input_devices, select_input_device, AmplitudeWindow,
    AudioDeviceInfo, InputDeviceChoice, VISUALIZATION_BINS,
};

fn mean_abs(chunk: &[f32]) -> f32 {
    chunk.iter().map(|s| s.abs()).sum::<f32>() / chunk.len() as f32
}

fn rms(samples: &[f32]) -> f32 {
    if samples.is_empty() {
        return 0.0;
    }
    let sum_sq: f32 = samples.iter().map(|s| s * s).sum();
    (sum_sq / samples.len() as f32).sqrt()
}

#[test]
fn test_downsample_basic() {
    let samples: Vec<f32> = (0..64).map(|i| i as f32 / 64.0).collect();
    let bins = downsample_for_visualization(&samples, 8, 0.0, mean_abs);
    assert_eq!(bins.len(), 8);
}

#[test]
fn test_downsample_empty() {
    let bins = downsample_for_visualization(&[], 8, 0.0, mean_abs);
    assert_eq!(bins.len(), 8);
    assert!(bins.iter().all(|&b| b == 0.0));
}

#[test]
fn test_downsample_48_bins() {
    let samples: Vec<f32> = (0..960).map(|i| (i as f32 / 960.0).sin()).collect();
    let bins = downsample_for_visualization(&samples, 48, 0.0, mean_abs);
    assert_eq!(bins.len(), 48);
    assert!(bins.iter().all(|&b| b >= 0.0));
}

#[test]
fn test_preallocate_capacity_for_long_recording() {
    // 10 minutes at 48kHz mono = 28_800_000 samples
    let capacity = estimate_buffer_capacity(48000, 600);
    assert!(capacity >= 28_800_000);
}

#[test]
fn test_preallocate_capacity_scales_with_duration() {
    let short = estimate_buffer_capacity(48000, 60);
    let long = estimate_buffer_capacity(48000, 600);
    assert!(long > short);
}

#[test]
fn test_capacity_is_rate_times_duration() {
    assert_eq!(estimate_buffer_capacity(44100, 600), 26_460_000);
    assert_eq!(estimate_buffer_capacity(0, 600), 0);
    assert_eq!(estimate_buffer_capacity(16000, 0), 0);
}

#[test]
fn test_window_is_a_twentieth_of_a_second() {
    assert_eq!(amplitude_window_size(48000), 2400);
    assert_eq!(amplitude_window_size(44100), 2205);
    assert_eq!(amplitude_window_size(19), 0);
}

#[test]
fn test_downsample_bins_are_means_of_equal_runs() {
    let samples: Vec<f32> = vec![1.0, -1.0, 2.0, -2.0, 3.0, -3.0, 9.0];
    let bins = downsample_for_visualization(&samples, 3, 0.0, mean_abs);
    assert_eq!(bins, vec![1.0, 2.0, 3.0]);
}

#[test]
fn test_downsample_short_window_is_copied_and_padded() {
    let bins = downsample_for_visualization(&[0.5, -0.25], 4, 0.0, mean_abs);
    assert_eq!(bins, vec![0.5, -0.25, 0.0, 0.0]);
}

#[test]
fn test_downsample_zero_bins() {
    let bins = downsample_for_visualization(&[0.5, -0.25], 0, 0.0, mean_abs);
    assert!(bins.is_empty());
}

#[test]
fn test_downmix_stereo_is_mean_of_each_frame() {
    let channels = 2usize;
    let data: Vec<f32> = vec![1.0, 0.0, 0.5, 0.5, -1.0, 1.0];
    let mono = downmix_to_mono(&data, channels, |frame: &[f32]| {
        frame.iter().sum::<f32>() / channels as f32
    });
    assert_eq!(mono, vec![0.5, 0.5, 0.0]);
}

#[test]
fn test_downmix_three_channels() {
    let channels = 3usize;
    let data: Vec<f32> = vec![3.0, 6.0, 9.0, 1.0, 1.0, 1.0];
    let mono = downmix_to_mono(&data, channels, |frame: &[f32]| {
        frame.iter().sum::<f32>() / channels as f32
    });
    assert_eq!(mono, vec![6.0, 1.0]);
}

#[test]
fn test_downmix_mono_is_identity() {
    let data: Vec<f32> = vec![0.1, -0.2, 0.3];
    let mono = downmix_to_mono(&data, 1, |_frame: &[f32]| panic!("mono data is not mixed"));
    assert_eq!(mono, data);
}

#[test]
fn test_downmix_short_last_frame() {
    let channels = 2usize;
    let data: Vec<f32> = vec![1.0, 1.0, 4.0];
    let mono = downmix_to_mono(&data, channels, |frame: &[f32]| {
        frame.iter().sum::<f32>() / channels as f32
    });
    assert_eq!(mono, vec![1.0, 2.0]);
}

#[test]
fn test_rms_of_silence_window_is_zero() {
    let mut window: AmplitudeWindow<f32> = AmplitudeWindow::new(80);
    let event = window.feed(&[0.0, 0.0, 0.0, 0.0], 0.0, rms, mean_abs).unwrap();
    assert_eq!(event.rms, 0.0);
}

#[test]
fn test_rms_of_alternating_window_is_one() {
    let mut window: AmplitudeWindow<f32> = AmplitudeWindow::new(80);
    let event = window.feed(&[1.0, -1.0, 1.0, -1.0], 0.0, rms, mean_abs).unwrap();
    assert!((event.rms - 1.0).abs() < 0.001);
}

#[test]
fn test_window_emits_one_event_per_full_window() {
    // 100 Hz: a window holds 5 samples.
    let mut window: AmplitudeWindow<f32> = AmplitudeWindow::new(100);
    assert!(window.feed(&[0.1, 0.2], 0.0, rms, mean_abs).is_none());
    assert!(window.feed(&[0.3, 0.4], 0.0, rms, mean_abs).is_none());
    let event = window.feed(&[0.5, 0.6, 0.7], 0.0, rms, mean_abs).unwrap();
    assert_eq!(event.amplitudes.len(), VISUALIZATION_BINS);
    assert_eq!(&event.amplitudes[..5], &[0.1, 0.2, 0.3, 0.4, 0.5]);
    assert!(event.amplitudes[5..].iter().all(|&b| b == 0.0));
    // 0.6 and 0.7 wait; three more samples fill the next window.
    assert!(window.feed(&[0.8], 0.0, rms, mean_abs).is_none());
    let event = window.feed(&[0.9, 1.0], 0.0, rms, mean_abs).unwrap();
    assert_eq!(&event.amplitudes[..5], &[0.6, 0.7, 0.8, 0.9, 1.0]);
}

#[test]
fn test_window_drains_one_window_per_call() {
    let mut window: AmplitudeWindow<f32> = AmplitudeWindow::new(40);
    let event = window.feed(&[1.0, 2.0, 3.0, 4.0, 5.0], 0.0, rms, mean_abs).unwrap();
    assert_eq!(&event.amplitudes[..2], &[1.0, 2.0]);
    let event = window.feed(&[], 0.0, rms, mean_abs).unwrap();
    assert_eq!(&event.amplitudes[..2], &[3.0, 4.0]);
    assert!(window.feed(&[], 0.0, rms, mean_abs).is_none());
}

#[test]
fn test_window_envelope_of_full_window() {
    // 960 Hz: a window holds 48 samples, one per bin.
    let mut window: AmplitudeWindow<f32> = AmplitudeWindow::new(960);
    let samples: Vec<f32> = (0..48).map(|i| -(i as f32)).collect();
    let event = window.feed(&samples, 0.0, rms, mean_abs).unwrap();
    let expected: Vec<f32> = (0..48).map(|i| i as f32).collect();
    assert_eq!(event.amplitudes, expected);
}

fn names(list: &[Option<&str>]) -> Vec<Option<String>> {
    list.iter().map(|n| n.map(|s| s.to_string())).collect()
}

#[test]
fn test_list_devices_marks_default_and_skips_nameless() {
    let devices = list_input_devices(
        &names(&[Some("Built-in"), None, Some("USB Mic")]),
        &Some("USB Mic".to_string()),
    );
    assert_eq!(
        devices,
        vec![
            AudioDeviceInfo { name: "Built-in".to_string(), is_default: false },
            AudioDeviceInfo { name: "USB Mic".to_string(), is_default: true },
        ]
    );
}

#[test]
fn test_list_devices_without_default() {
    let devices = list_input_devices(&names(&[Some("Built-in")]), &None);
    assert_eq!(devices, vec![AudioDeviceInfo { name: "Built-in".to_string(), is_default: false }]);
    assert!(list_input_devices(&[], &None).is_empty());
}

#[test]
fn test_select_device_by_exact_name() {
    let list = names(&[Some("Built-in"), Some("USB Mic"), Some("USB Mic")]);
    assert_eq!(select_input_device(&list, Some("USB Mic"), true), Ok(InputDeviceChoice::Listed(1)));
    assert_eq!(select_input_device(&list, Some("Built-in"), false), Ok(InputDeviceChoice::Listed(0)));
}

#[test]
fn test_select_device_falls_back_to_default() {
    let list = names(&[Some("Built-in"), None]);
    assert_eq!(select_input_device(&list, Some("usb mic"), true), Ok(InputDeviceChoice::SystemDefault));
    assert_eq!(select_input_device(&list, None, true), Ok(InputDeviceChoice::SystemDefault));
}

#[test]
fn test_select_device_fails_without_default() {
    let list = names(&[Some("Built-in")]);
    assert_eq!(
        select_input_device(&list, Some("USB Mic"), false),
        Err("No default input device".to_string())
    );
    assert_eq!(
        select_input_device(&list, None, false),
        Err("No input device available. Check microphone permissions.".to_string())
    );
}
