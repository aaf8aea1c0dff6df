//! End-to-end runs of the degradation pipeline: the float preparation a
//! caller performs (quantization grid, threshold scaling) around the
//! library's verified scan and per-sample pass.

use entrope::buffer::SampleBuffer;
use entrope::clip::clip_scan;
use entrope::params::ParamSnapshot;
use entrope::pipeline::process_prepared;
use entrope::EntropeRust;
use entrope::ProcessStatus;

fn quantize(s: f32, crush: f32) -> f32 {
    let total_q_levels = 2.0f32.powf(crush);
    let remainder = s % (1.0 / total_q_levels);
    s - remainder
}

fn bits_buffer(rows: &[Vec<f32>]) -> SampleBuffer {
    let bits: Vec<Vec<u32>> = rows
        .iter()
        .map(|r| r.iter().map(|s| s.to_bits()).collect())
        .collect();
    SampleBuffer::from_channels(bits).expect("rectangular buffer")
}

fn read_back(buf: &SampleBuffer, channels: usize, frames: usize) -> Vec<Vec<f32>> {
    let mut rows: Vec<Vec<f32>> = Vec::new();
    for ch in 0..channels {
        let mut row: Vec<f32> = Vec::new();
        for i in 0..frames {
            row.push(f32::from_bits(buf.sample(ch, i)));
        }
        rows.push(row);
    }
    rows
}

/// Runs the full pipeline as a host would: snapshot, entropy divisor, peak
/// scan on the raw buffer, quantization, then the verified per-sample pass.
fn run(crush: f32, redux: i32, entropy: i32, clip: f32, rows: &[Vec<f32>]) -> (ProcessStatus, Vec<Vec<f32>>) {
    let mut plugin = EntropeRust::default();
    let params = ParamSnapshot::snapshot(crush.to_bits(), redux, entropy, clip.to_bits())
        .expect("parameters in range");

    let n = plugin.crush_divisor(params.entropy);
    let mut crush_eff = crush;
    if params.entropy > 1 {
        crush_eff = crush_eff / n as f32;
    }

    let raw = bits_buffer(rows);
    let (clip_max, clip_min) = match clip_scan(params.clip, &raw) {
        Some((low, high)) => (
            (clip * f32::from_bits(low)).to_bits(),
            (clip * f32::from_bits(high)).to_bits(),
        ),
        None => (0u32, 0u32),
    };

    let quantized: Vec<Vec<f32>> = rows
        .iter()
        .map(|r| r.iter().map(|s| quantize(*s, crush_eff)).collect())
        .collect();
    let mut buf = bits_buffer(&quantized);
    let status = process_prepared(&mut buf, params.redux, clip_max, clip_min);
    let out = read_back(&buf, rows.len(), if rows.is_empty() { 0 } else { rows[0].len() });
    (status, out)
}

#[test]
fn full_crush_is_transparent() {
    let input = vec![vec![0.9f32, -0.33, 0.127, 0.0, -0.9999, 0.61803]];
    let (status, out) = run(32.0, 1, 1, 1.0, &input);
    assert_eq!(status, ProcessStatus::Normal);
    let step = 1.0f32 / 2.0f32.powf(32.0);
    assert!(step < 2.4e-10);
    for (o, i) in out[0].iter().zip(input[0].iter()) {
        assert!((o - i).abs() <= step);
    }
}

#[test]
fn crush_two_lands_on_quarter_grid() {
    let input = vec![vec![0.9f32, 0.3, 0.26, 0.74, 0.5, 0.01, 0.99]];
    let (_, out) = run(2.0, 1, 1, 1.0, &input);
    let grid = [0.0f32, 0.25, 0.5, 0.75];
    for o in &out[0] {
        assert!(grid.contains(o), "{o} is off the quarter grid");
    }
}

#[test]
fn redux_one_decimation_is_noop() {
    let input = vec![
        vec![0.9f32, -0.33, 0.127, -0.8],
        vec![0.1f32, 0.45, -0.2, 0.77],
    ];
    let (_, out) = run(2.0, 1, 1, 1.0, &input);
    for ch in 0..2 {
        for i in 0..4 {
            assert_eq!(out[ch][i].to_bits(), quantize(input[ch][i], 2.0).to_bits());
        }
    }
}

#[test]
fn redux_holds_between_capture_frames() {
    // Dyadic samples pass through a depth-32 grid bit-exactly, so the hold
    // pattern shows plainly. The held cell is shared by both channels and
    // ends each capture frame holding the last channel's sample.
    let input = vec![
        vec![0.500f32, 0.125, -0.250, 0.750, 0.0625, -0.500, 0.875],
        vec![-1.000f32, 0.375, 0.625, -0.750, 0.3125, 0.250, -0.125],
    ];
    let (_, out) = run(32.0, 3, 1, 1.0, &input);
    for ch in 0..2 {
        for i in 0..7 {
            let expected = if i % 3 == 0 { input[ch][i] } else { input[1][i - i % 3] };
            assert_eq!(out[ch][i].to_bits(), expected.to_bits(), "channel {ch} frame {i}");
        }
    }
}

#[test]
fn entropy_one_keeps_raw_crush() {
    let mut plugin = EntropeRust::default();
    for _ in 0..8 {
        assert_eq!(plugin.crush_divisor(1), 1);
    }
}

#[test]
fn entropy_divisor_stays_in_range() {
    let mut plugin = EntropeRust::default();
    for _ in 0..64 {
        let n = plugin.crush_divisor(5);
        assert!((1..5).contains(&n));
    }
}

#[test]
fn clip_one_bypasses_the_clipper() {
    let input = vec![vec![0.9f32, -0.99, 0.3, -0.26]];
    let raw = bits_buffer(&input);
    assert!(clip_scan(1.0f32.to_bits(), &raw).is_none());
    let (_, out) = run(2.0, 1, 1, 1.0, &input);
    for i in 0..4 {
        assert_eq!(out[0][i].to_bits(), quantize(input[0][i], 2.0).to_bits());
    }
}

#[test]
fn clip_thresholds_follow_buffer_peaks() {
    // Peaks 0.8 and -0.6 scaled by a clip of 0.5: samples below the scaled
    // low peak are raised to it, samples above the scaled high peak are
    // lowered to it, samples between the two pass unaltered.
    let input = vec![vec![0.8f32, -0.6, 0.5, -0.5, 0.1]];
    let raw = bits_buffer(&input);
    let (low, high) = clip_scan(0.5f32.to_bits(), &raw).expect("stage enabled");
    assert_eq!(f32::from_bits(low), -0.6);
    assert_eq!(f32::from_bits(high), 0.8);
    assert_eq!(0.5 * f32::from_bits(low), -0.3);
    assert_eq!(0.5 * f32::from_bits(high), 0.4);

    let (_, out) = run(32.0, 1, 1, 0.5, &input);
    let expected = [0.4f32, -0.3, 0.4, -0.3, 0.1];
    for i in 0..5 {
        assert_eq!(out[0][i].to_bits(), expected[i].to_bits(), "frame {i}");
    }
}

#[test]
fn one_sided_buffer_leaves_a_peak_at_zero() {
    // A buffer that never dips below zero keeps its low peak at zero, so the
    // floor threshold stays zero and is never applied; only the ceiling acts.
    let input = vec![vec![0.25f32, 0.8, 0.1]];
    let raw = bits_buffer(&input);
    let (low, high) = clip_scan(0.5f32.to_bits(), &raw).expect("stage enabled");
    assert_eq!(f32::from_bits(low), 0.0);
    assert_eq!(f32::from_bits(high), 0.8);
    let (_, out) = run(32.0, 1, 1, 0.5, &input);
    let expected = [0.25f32, 0.4, 0.1];
    for i in 0..3 {
        assert_eq!(out[0][i].to_bits(), expected[i].to_bits(), "frame {i}");
    }
}

#[test]
fn clip_zero_scales_thresholds_to_inert_zero() {
    let input = vec![vec![0.5f32, -0.5, 0.25]];
    let (_, out) = run(32.0, 1, 1, 0.0, &input);
    for i in 0..3 {
        assert_eq!(out[0][i].to_bits(), input[0][i].to_bits());
    }
}

#[test]
fn empty_buffer_processes_normally() {
    let rows: Vec<Vec<f32>> = Vec::new();
    let (status, out) = run(32.0, 4, 1, 0.5, &rows);
    assert_eq!(status, ProcessStatus::Normal);
    assert!(out.is_empty());
}
