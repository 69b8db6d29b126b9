use clap_to_jack::errors::HostError;
use clap_to_jack::lifecycle::AudioConfig;
use clap_to_jack::render::RenderBridge;

fn cfg(min: u32, max: u32) -> AudioConfig {
    AudioConfig {
        sample_rate: 48000,
        min_block_frames: min,
        max_block_frames: max,
    }
}

/// A stand-in for a deterministic generator plugin: it renders a ramp that
/// continues from wherever the previous block left off.
struct PhaseRamp {
    phase: u32,
}

impl PhaseRamp {
    fn render(&mut self, left: &mut [f32], right: &mut [f32]) {
        for i in 0..left.len() {
            let v = (self.phase % 100) as f32 / 100.0;
            left[i] = v;
            right[i] = -v;
            self.phase += 1;
        }
    }
}

#[test]
fn invalid_configuration_is_rejected() {
    match RenderBridge::<f32>::new(cfg(512, 256), 0.0) {
        Err(e) => assert_eq!(e, HostError::ActivationError),
        Ok(_) => panic!("inverted block range must be rejected"),
    }
}

#[test]
fn buffers_are_prewarmed_to_max_block_frames() {
    let bridge = RenderBridge::new(cfg(256, 512), 0.0f32).unwrap();
    assert_eq!(bridge.in_l.len(), 512);
    assert_eq!(bridge.in_r.len(), 512);
    assert_eq!(bridge.scratch_l.len(), 512);
    assert_eq!(bridge.scratch_r.len(), 512);
    assert!(bridge.in_l.iter().all(|&s| s == 0.0));
    assert!(bridge.in_r.iter().all(|&s| s == 0.0));
}

#[test]
fn block_length_bounds_are_checked() {
    let bridge = RenderBridge::new(cfg(256, 512), 0.0f32).unwrap();
    assert!(bridge.accepts_block_len(256));
    assert!(bridge.accepts_block_len(400));
    assert!(bridge.accepts_block_len(512));
    assert!(!bridge.accepts_block_len(255));
    assert!(!bridge.accepts_block_len(513));
}

#[test]
fn prepare_sizes_buffers_and_silences_inputs() {
    let mut bridge = RenderBridge::new(cfg(128, 512), 0.0f32).unwrap();
    bridge.prepare(256);
    assert_eq!(bridge.in_l.len(), 256);
    assert_eq!(bridge.in_r.len(), 256);
    assert_eq!(bridge.scratch_l.len(), 256);
    assert_eq!(bridge.scratch_r.len(), 256);
    assert!(bridge.in_l.iter().all(|&s| s == 0.0));
    assert!(bridge.in_r.iter().all(|&s| s == 0.0));
}

#[test]
fn commit_writes_exactly_the_block_and_nothing_outside() {
    let mut bridge = RenderBridge::new(cfg(4, 4), 0.0f32).unwrap();
    bridge.prepare(4);
    for i in 0..4 {
        bridge.scratch_l[i] = (i + 1) as f32;
        bridge.scratch_r[i] = -((i + 1) as f32);
    }
    // Host buffers longer than the block, with sentinels past the block end.
    let mut out_l = vec![9.0f32; 6];
    let mut out_r = vec![9.0f32; 6];
    bridge.commit(true, &mut out_l, &mut out_r);
    assert_eq!(&out_l[..4], &[1.0, 2.0, 3.0, 4.0]);
    assert_eq!(&out_r[..4], &[-1.0, -2.0, -3.0, -4.0]);
    assert_eq!(&out_l[4..], &[9.0, 9.0]);
    assert_eq!(&out_r[4..], &[9.0, 9.0]);
}

#[test]
fn failed_plugin_status_substitutes_silence() {
    let mut bridge = RenderBridge::new(cfg(4, 4), 0.0f32).unwrap();
    bridge.prepare(4);
    for i in 0..4 {
        bridge.scratch_l[i] = 1.0;
        bridge.scratch_r[i] = 1.0;
    }
    let mut out_l = vec![9.0f32; 5];
    let mut out_r = vec![9.0f32; 5];
    bridge.commit(false, &mut out_l, &mut out_r);
    assert_eq!(&out_l[..4], &[0.0, 0.0, 0.0, 0.0]);
    assert_eq!(&out_r[..4], &[0.0, 0.0, 0.0, 0.0]);
    assert_eq!(out_l[4], 9.0);
    assert_eq!(out_r[4], 9.0);
}

#[test]
fn consecutive_blocks_continue_the_signal() {
    let mut bridge = RenderBridge::new(cfg(8, 8), 0.0f32).unwrap();
    let mut plugin = PhaseRamp { phase: 0 };

    bridge.prepare(8);
    plugin.render(&mut bridge.scratch_l, &mut bridge.scratch_r);
    let mut first_l = vec![0.0f32; 8];
    let mut first_r = vec![0.0f32; 8];
    bridge.commit(true, &mut first_l, &mut first_r);

    bridge.prepare(8);
    plugin.render(&mut bridge.scratch_l, &mut bridge.scratch_r);
    let mut second_l = vec![0.0f32; 8];
    let mut second_r = vec![0.0f32; 8];
    bridge.commit(true, &mut second_l, &mut second_r);

    // The generator's state carried over: the second block continues the
    // ramp instead of restarting it.
    assert_ne!(first_l, second_l);
    assert_eq!(first_l[0], 0.0);
    assert_eq!(second_l[0], 8.0 / 100.0);
}
