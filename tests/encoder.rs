use dpcm_distortion::encoder::{effective_window, ChannelEncoder};

fn encode_n(e: &mut ChannelEncoder, n: usize, comp: i32, depth: i32, window: usize) -> i32 {
    let mut level = e.level();
    for _ in 0..n {
        level = e.step(true, comp, depth, window);
    }
    level
}

#[test]
fn fresh_encoder_is_silent_and_centered() {
    let e = ChannelEncoder::new();
    assert_eq!(e.level(), 0);
    assert_eq!(e.delta_running(), 0);
    assert_eq!(e.delta_output(), 0);
    assert_eq!(e.zero_run_length(), 0);
    assert_eq!(e.queue_index(), 0);
    for i in 0..32 {
        assert_eq!(e.committed_bit(i), 0);
        assert_eq!(e.building_bit(i), 0);
    }
    let d = ChannelEncoder::default();
    assert_eq!(d.level(), 0);
    assert_eq!(d.queue_index(), 0);
}

#[test]
fn effective_window_falls_back_to_eight() {
    assert_eq!(effective_window(0), 8);
    assert_eq!(effective_window(1), 1);
    assert_eq!(effective_window(5), 5);
    assert_eq!(effective_window(32), 32);
}

#[test]
fn first_step_emits_up_bit() {
    let mut e = ChannelEncoder::new();
    let level = e.step(true, 1, 1, 0);
    assert_eq!(level, 0);
    assert_eq!(e.building_bit(0), 1);
    assert_eq!(e.delta_running(), 1);
    assert_eq!(e.queue_index(), 1);
    assert_eq!(e.zero_run_length(), 0);
}

#[test]
fn step_below_running_level_emits_down_bit() {
    let mut e = ChannelEncoder::new();
    e.step(true, -5, 4, 0);
    assert_eq!(e.building_bit(0), -1);
    assert_eq!(e.delta_running(), -1);
}

#[test]
fn floor_forces_up_bit() {
    let mut e = ChannelEncoder::new();
    e.step(true, -100, 1, 0);
    assert_eq!(e.delta_running(), -1);
    // running level sits on the floor: the next bit goes up whatever the input
    e.step(true, -100, 1, 0);
    assert_eq!(e.building_bit(1), 1);
    assert_eq!(e.delta_running(), 0);
}

#[test]
fn sample_without_clock_tick_changes_nothing() {
    let mut e = ChannelEncoder::new();
    e.step(true, 3, 8, 0);
    e.step(true, 3, 8, 0);
    let before_index = e.queue_index();
    let before_running = e.delta_running();
    let level = e.step(false, 100, 8, 0);
    assert_eq!(level, 0);
    assert_eq!(e.queue_index(), before_index);
    assert_eq!(e.delta_running(), before_running);
    assert_eq!(e.zero_run_length(), 0);
}

#[test]
fn running_level_saturates_at_depth() {
    let mut e = ChannelEncoder::new();
    encode_n(&mut e, 3, 1000, 3, 0);
    assert_eq!(e.delta_running(), 3);
    // at the ceiling the predictor steps down, then back up
    e.step(true, 1000, 3, 0);
    assert_eq!(e.building_bit(3), -1);
    assert_eq!(e.delta_running(), 2);
    e.step(true, 1000, 3, 0);
    assert_eq!(e.delta_running(), 3);
    encode_n(&mut e, 40, 1000, 3, 0);
    assert!(e.delta_running() <= 3 && e.delta_running() >= 2);
    assert!(e.delta_output() <= 3 && e.delta_output() >= -3);
}

#[test]
fn lowering_depth_clamps_both_levels() {
    let mut e = ChannelEncoder::new();
    encode_n(&mut e, 200, 1000, 256, 0);
    assert_eq!(e.delta_running(), 200);
    assert!(e.delta_output() > 1);
    e.step(true, 1000, 1, 0);
    assert_eq!(e.delta_running(), 1);
    assert_eq!(e.delta_output(), 1);
}

#[test]
fn identity_window_commits_after_eight_steps() {
    let mut e = ChannelEncoder::new();
    let comps = [5, -5, 5, 5, -5, -5, 5, -5];
    for (k, c) in comps.iter().enumerate() {
        e.step(true, *c, 8, 0);
        if k < 7 {
            assert_eq!(e.queue_index(), k + 1);
            assert_eq!(e.committed_bit(k), 0);
        }
    }
    assert_eq!(e.queue_index(), 0);
    for i in 0..32 {
        assert_eq!(e.committed_bit(i), e.building_bit(i));
    }
    let bits: Vec<i32> = (0..8).map(|i| e.building_bit(i)).collect();
    assert_eq!(bits, vec![1, -1, 1, 1, -1, -1, 1, -1]);
}

#[test]
fn reversed_window_commits_in_reverse_order() {
    let mut e = ChannelEncoder::new();
    let comps = [9, 9, -9, 9, -9];
    for c in comps.iter() {
        e.step(true, *c, 8, 5);
    }
    assert_eq!(e.queue_index(), 0);
    let built: Vec<i32> = (0..5).map(|i| e.building_bit(i)).collect();
    assert_eq!(built, vec![1, 1, -1, 1, -1]);
    let committed: Vec<i32> = (0..5).map(|i| e.committed_bit(i)).collect();
    assert_eq!(committed, vec![-1, 1, -1, 1, 1]);
    for i in 5..32 {
        assert_eq!(e.committed_bit(i), 0);
    }
}

#[test]
fn largest_window_wraps_after_thirty_two_steps() {
    let mut e = ChannelEncoder::new();
    encode_n(&mut e, 31, 1, 256, 32);
    assert_eq!(e.queue_index(), 31);
    e.step(true, 1, 256, 32);
    assert_eq!(e.queue_index(), 0);
    for i in 0..32 {
        assert_eq!(e.committed_bit(i), e.building_bit(31 - i));
    }
}

#[test]
fn output_follows_committed_window_one_cycle_late() {
    let mut e = ChannelEncoder::new();
    let first = encode_n(&mut e, 8, 10, 8, 0);
    assert_eq!(first, 0);
    assert_eq!(e.delta_output(), 0);
    // the committed window is now all up bits
    let level = e.step(true, 10, 8, 0);
    assert_eq!(level, 1);
    let level = e.step(true, 10, 8, 0);
    assert_eq!(level, 2);
}

#[test]
fn sixteen_zero_inputs_mute_the_output() {
    let mut e = ChannelEncoder::new();
    encode_n(&mut e, 16, 10, 8, 0);
    assert_eq!(e.level(), 8);
    let level = encode_n(&mut e, 15, 0, 8, 0);
    assert_eq!(e.zero_run_length(), 15);
    assert_ne!(level, 0);
    let level = e.step(true, 0, 8, 0);
    assert_eq!(e.zero_run_length(), 16);
    assert_eq!(level, 0);
    let level = encode_n(&mut e, 40, 0, 8, 0);
    assert_eq!(level, 0);
}

#[test]
fn nonzero_input_reopens_the_gate() {
    let mut e = ChannelEncoder::new();
    encode_n(&mut e, 16, 10, 8, 0);
    encode_n(&mut e, 20, 0, 8, 0);
    assert_eq!(e.level(), 0);
    e.step(true, 10, 8, 0);
    assert_eq!(e.zero_run_length(), 0);
    assert_eq!(e.level(), e.delta_output());
}

#[test]
fn constant_full_scale_input_gives_square_wave() {
    // 44100 Hz, gain 1.0, depth 1, identity window, fully wet
    let sample_rate: f32 = 44100.0;
    let gain: f32 = 1.0;
    let depth: i32 = 1;
    let mix: f32 = 1.0;
    let mut e = ChannelEncoder::new();
    let mut clock: f32 = 0.0;
    let mut levels = Vec::new();
    for _ in 0..100 {
        let x: f32 = 1.0;
        clock += sample_rate / 33144.0;
        let advance = clock >= 1.0;
        if advance {
            clock -= 1.0;
        }
        let comp = (x * (depth as f32) * gain) as i32;
        assert_eq!(comp, 1);
        let level = e.step(advance, comp, depth, 0);
        assert_eq!(e.zero_run_length(), 0);
        let wet = (level as f32) / (depth as f32);
        let y = ((wet * mix) + (x * (1.0 - mix) * gain)) / gain;
        assert!(y <= 1.0 && y >= -1.0);
        levels.push(level);
    }
    for (k, level) in levels.iter().enumerate() {
        let expected = if k < 8 { 0 } else if k % 2 == 0 { 1 } else { 0 };
        assert_eq!(*level, expected);
    }
}
