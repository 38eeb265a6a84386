use audio_capture::accumulator::Accumulator;
use audio_capture::config::{AudioConfig, BUFFER_SIZE, CHANNELS, SAMPLE_RATE};
use audio_capture::controller::{AudioCapture, CapturePhase, SelectedDevice};
use audio_capture::device::{find_device, first_containing, matches_filter};
use audio_capture::error::CaptureError;
use audio_capture::handoff::Handoff;

fn names(list: &[&str]) -> Vec<String> {
    list.iter().map(|s| s.to_string()).collect()
}

fn running(device: &str) -> AudioCapture {
    let mut c = AudioCapture::new().unwrap();
    c.start_capture().unwrap();
    c.finish_start(Ok(device.to_string())).unwrap();
    c
}

#[test]
fn test_list_devices() {
    let devices = AudioCapture::list_input_devices(vec![Some("Built-in Microphone".to_string())]);
    assert!(devices.is_ok());
    println!("Dispositivos encontrados: {:?}", devices.unwrap());
}

#[test]
fn test_capture_basic() {
    let mut capture = AudioCapture::new().unwrap();
    let config = capture.config();
    capture.start_capture().unwrap();
    capture.finish_start(Ok("default".to_string())).unwrap();

    // Two seconds of mono input, delivered in native callbacks of 512 frames.
    let mut acc: Accumulator<f32> = Accumulator::new(config.buffer_size);
    let mut handoff: Handoff<f32> = Handoff::new();
    let callback: Vec<f32> = (0..512).map(|i| i as f32 / 512.0).collect();
    let callbacks = 2 * config.sample_rate as usize / 512;
    for _ in 0..callbacks {
        for block in acc.feed(&callback, config.channels as usize) {
            assert!(handoff.send(block));
        }
    }

    let count = capture.check_signal(handoff.len()).unwrap();
    println!("Buffers capturados: {}", count);
    assert!(count > 0, "Deveria ter capturado pelo menos 1 buffer");
    assert_eq!(handoff.try_drain().len(), count);
}

#[test]
fn default_config_values() {
    let c = AudioConfig::default();
    assert_eq!(c.sample_rate, SAMPLE_RATE);
    assert_eq!(c.sample_rate, 44100);
    assert_eq!(c.channels, CHANNELS);
    assert_eq!(c.channels, 1);
    assert_eq!(c.buffer_size, BUFFER_SIZE);
    assert_eq!(c.buffer_size, 2048);
    assert!(c.validate());
}

#[test]
fn invalid_config_is_rejected() {
    let bad = AudioConfig { sample_rate: 48000, channels: 2, buffer_size: 0 };
    assert!(!bad.validate());
    assert!(matches!(AudioCapture::with_config(bad), Err(CaptureError::StreamConfig(_))));
    let good = AudioConfig { sample_rate: 48000, channels: 2, buffer_size: 256 };
    let c = AudioCapture::with_config(good).unwrap();
    assert_eq!(c.config(), good);
    assert_eq!(c.phase(), CapturePhase::Idle);
}

#[test]
fn list_devices_keeps_readable_names_in_order() {
    let found = vec![Some("Mic A".to_string()), None, Some("Mic B (USB)".to_string())];
    assert_eq!(AudioCapture::list_input_devices(found), Ok(names(&["Mic A", "Mic B (USB)"])));
}

#[test]
fn list_devices_fails_when_none_found() {
    assert_eq!(AudioCapture::list_input_devices(vec![]), Err(CaptureError::NoDevicesFound));
    assert_eq!(AudioCapture::list_input_devices(vec![None, None]), Err(CaptureError::NoDevicesFound));
}

#[test]
fn resolve_device_by_substring() {
    let list = names(&["Mic A", "Mic B (USB)"]);
    let r = AudioCapture::select_device(&list, Some("usb"), None);
    assert_eq!(r, Ok(SelectedDevice { index: Some(1), name: "Mic B (USB)".to_string() }));
    let r = AudioCapture::select_device(&list, Some("nonexistent"), None);
    assert_eq!(r, Err(CaptureError::DeviceNotFound("nonexistent".to_string())));
}

#[test]
fn resolve_device_takes_first_match() {
    let list = names(&["USB Audio", "Karsect UPC", "Other USB"]);
    assert_eq!(find_device(&list, "usb"), Some(0));
    assert_eq!(find_device(&list, "KARSECT upc"), Some(1));
    assert_eq!(find_device(&list, "line in"), None);
    let r = AudioCapture::select_device(&list, Some("UPC"), Some("USB Audio".to_string())).unwrap();
    assert_eq!(r.name, "Karsect UPC");
}

#[test]
fn resolve_default_device() {
    let list = names(&["Mic A"]);
    let r = AudioCapture::select_device(&list, None, Some("System Default".to_string()));
    assert_eq!(r, Ok(SelectedDevice { index: None, name: "System Default".to_string() }));
    assert_eq!(AudioCapture::select_device(&list, None, None), Err(CaptureError::NoDefaultDevice));
}

#[test]
fn filter_match_ignores_case() {
    assert!(matches_filter("Mic B (USB)", "usb"));
    assert!(matches_filter("mic b (usb)", "USB"));
    assert!(!matches_filter("Mic A", "usb"));
    assert!(matches_filter("Mic A", ""));
    // Exact comparison once case has been folded by the caller.
    let folded = names(&["mic a", "mic b (usb)"]);
    assert_eq!(first_containing(&folded, "usb"), Some(1));
    assert_eq!(first_containing(&folded, "USB"), None);
}

#[test]
fn mono_slices_chunk_into_blocks() {
    let mut acc: Accumulator<f32> = Accumulator::new(4);
    let first = acc.feed(&[1.0, 2.0, 3.0], 1);
    assert!(first.is_empty());
    assert_eq!(acc.pending_len(), 3);
    let second = acc.feed(&[4.0, 5.0, 6.0, 7.0, 8.0], 1);
    assert_eq!(second, vec![vec![1.0, 2.0, 3.0, 4.0], vec![5.0, 6.0, 7.0, 8.0]]);
    assert_eq!(acc.pending_len(), 0);
}

#[test]
fn stereo_downmix_selects_first_channel() {
    let mut acc: Accumulator<f32> = Accumulator::new(4);
    let data = [0.0, 0.5, 1.0, 1.5, 2.0, 2.5, 3.0, 3.5];
    let blocks = acc.feed(&data, 2);
    assert_eq!(blocks, vec![vec![0.0, 1.0, 2.0, 3.0]]);
    assert_eq!(acc.pending_len(), 0);
}

#[test]
fn downmix_keeps_partial_trailing_frame_head() {
    let mut acc: Accumulator<i32> = Accumulator::new(2);
    let blocks = acc.feed(&[1, 2, 3, 4, 5, 6, 7], 3);
    assert_eq!(blocks, vec![vec![1, 4]]);
    assert_eq!(acc.pending_len(), 1);
    let blocks = acc.feed(&[8, 9, 10], 3);
    assert_eq!(blocks, vec![vec![7, 8]]);
}

#[test]
fn every_block_has_block_size_samples() {
    let mut acc: Accumulator<u32> = Accumulator::new(4);
    let mut all: Vec<Vec<u32>> = Vec::new();
    let mut next: u32 = 0;
    for size in [1usize, 4, 9, 0, 3, 17, 2] {
        let slice: Vec<u32> = (next..next + size as u32).collect();
        next += size as u32;
        all.extend(acc.feed(&slice, 1));
        assert!(acc.pending_len() < 4);
    }
    assert_eq!(all.len(), 9);
    assert!(all.iter().all(|b| b.len() == 4));
    let flat: Vec<u32> = all.concat();
    assert_eq!(flat, (0..36).collect::<Vec<u32>>());
    assert_eq!(acc.pending_len(), 0);
    assert_eq!(acc.block_size(), 4);
}

#[test]
fn reset_discards_leftover() {
    let mut acc: Accumulator<i16> = Accumulator::new(3);
    assert!(acc.feed(&[1, 2], 1).is_empty());
    acc.reset();
    assert_eq!(acc.pending_len(), 0);
    assert_eq!(acc.feed(&[3, 4, 5], 1), vec![vec![3, 4, 5]]);
}

#[test]
fn handoff_drains_in_emission_order() {
    let mut h: Handoff<u8> = Handoff::new();
    assert!(h.send(vec![1]));
    assert!(h.send(vec![2]));
    assert_eq!(h.try_drain(), vec![vec![1], vec![2]]);
    assert_eq!(h.len(), 0);
    assert!(h.try_drain().is_empty());
    assert!(h.send(vec![3]));
    assert!(h.send(vec![4]));
    assert!(h.send(vec![5]));
    assert_eq!(h.len(), 3);
    assert_eq!(h.try_drain(), vec![vec![3], vec![4], vec![5]]);
}

#[test]
fn handoff_counts_sends_after_close() {
    let mut h: Handoff<u8> = Handoff::new();
    assert!(h.send(vec![1]));
    h.close();
    assert_eq!(h.len(), 0);
    assert!(!h.send(vec![2]));
    assert!(!h.send(vec![3]));
    assert_eq!(h.failed_count(), 2);
    assert!(h.try_drain().is_empty());
}

#[test]
fn stop_is_idempotent() {
    let mut idle = AudioCapture::new().unwrap();
    assert!(!idle.stop_capture());
    assert_eq!(idle.phase(), CapturePhase::Idle);

    let mut c = running("Mic A");
    assert!(c.stop_capture());
    assert_eq!(c.phase(), CapturePhase::Idle);
    assert_eq!(c.current_device(), None);
    assert!(!c.stop_capture());
    assert_eq!(c.phase(), CapturePhase::Idle);
}

#[test]
fn double_start_fails_fast() {
    let mut c = running("Mic A");
    assert_eq!(c.start_capture(), Err(CaptureError::AlreadyRunning));
    assert_eq!(c.phase(), CapturePhase::Running);
    assert_eq!(c.current_device(), Some("Mic A".to_string()));
}

#[test]
fn failed_open_allows_retry() {
    let mut c = AudioCapture::new().unwrap();
    c.start_capture().unwrap();
    assert_eq!(c.phase(), CapturePhase::Starting);
    let err = CaptureError::StreamOpen("device busy".to_string());
    assert_eq!(c.finish_start(Err(err.clone())), Err(err));
    assert_eq!(c.phase(), CapturePhase::Idle);
    assert_eq!(c.current_device(), None);
    assert_eq!(c.start_capture(), Ok(()));
    assert_eq!(c.finish_start(Ok("Mic A".to_string())), Ok("Mic A".to_string()));
    assert_eq!(c.current_device(), Some("Mic A".to_string()));
}

#[test]
fn check_signal_needs_a_session() {
    let idle = AudioCapture::new().unwrap();
    assert_eq!(idle.check_signal(3), Err(CaptureError::NotRunning));
    let c = running("Mic A");
    assert_eq!(c.check_signal(3), Ok(3));
    assert_eq!(c.check_signal(0), Ok(0));
}
