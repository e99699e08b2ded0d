use hdr_oxide::histogram::Histogram;

#[test]
fn test_histogram_new() {
    let hist = Histogram::new();
    assert_eq!(hist.red.len(), 256);
    assert_eq!(hist.green.len(), 256);
    assert_eq!(hist.blue.len(), 256);
    assert_eq!(hist.luminance.len(), 256);
    assert!(hist.red.iter().all(|&v| v == 0));
}

fn uniform_pixels(count: usize, color: [u8; 3]) -> (Vec<u8>, Vec<u8>) {
    let mut rgb = Vec::new();
    let mut luma = Vec::new();
    for _ in 0..count {
        rgb.extend_from_slice(&color);
        let lum = (0.2126 * color[0] as f32 + 0.7152 * color[1] as f32 + 0.0722 * color[2] as f32)
            as u8;
        luma.push(lum);
    }
    (rgb, luma)
}

#[test]
fn test_histogram_counts_uniform_pixels() {
    let (rgb, luma) = uniform_pixels(100, [128, 64, 192]);
    let hist = Histogram::from_rgb_and_luma(&rgb, &luma);
    assert_eq!(hist.red[128], 100);
    assert_eq!(hist.green[64], 100);
    assert_eq!(hist.blue[192], 100);
    assert!(hist.luminance.iter().sum::<u32>() == 100);
    assert_eq!(hist.red.iter().sum::<u32>(), 100);
    assert_eq!(hist.red[127], 0);
}

#[test]
fn test_histogram_counts_mixed_pixels() {
    let rgb = vec![0, 0, 0, 255, 255, 255, 0, 10, 255];
    let luma = vec![0, 255, 7];
    let hist = Histogram::from_rgb_and_luma(&rgb, &luma);
    assert_eq!(hist.red[0], 2);
    assert_eq!(hist.red[255], 1);
    assert_eq!(hist.green[0], 1);
    assert_eq!(hist.green[10], 1);
    assert_eq!(hist.green[255], 1);
    assert_eq!(hist.blue[255], 2);
    assert_eq!(hist.luminance[7], 1);
    assert_eq!(hist.max_count(), 2);
}

#[test]
fn test_histogram_empty_input() {
    let hist = Histogram::from_rgb_and_luma(&[], &[]);
    assert_eq!(hist.red.len(), 256);
    assert_eq!(hist.max_count(), 0);
}

#[test]
fn test_histogram_max_count_over_channels() {
    let mut hist = Histogram::new();
    assert_eq!(hist.max_count(), 0);
    hist.green[17] = 5;
    hist.luminance[3] = 9;
    hist.red[200] = 2;
    assert_eq!(hist.max_count(), 9);
}

#[test]
fn test_histogram_clear_resets_bins() {
    let (rgb, luma) = uniform_pixels(10, [1, 2, 3]);
    let mut hist = Histogram::from_rgb_and_luma(&rgb, &luma);
    assert_eq!(hist.max_count(), 10);
    hist.clear();
    assert_eq!(hist.max_count(), 0);
    assert_eq!(hist.blue.len(), 256);
}

#[test]
fn test_histogram_default_is_empty() {
    let hist = Histogram::default();
    assert_eq!(hist.luminance.len(), 256);
    assert_eq!(hist.max_count(), 0);
}

#[test]
fn test_histogram_clear_keeps_bins_past_the_first_256() {
    let mut hist = Histogram::new();
    hist.red = vec![7; 300];
    hist.luminance[10] = 4;
    hist.clear();
    assert_eq!(hist.red.len(), 300);
    assert!(hist.red[..256].iter().all(|&v| v == 0));
    assert!(hist.red[256..].iter().all(|&v| v == 7));
    assert_eq!(hist.luminance[10], 0);
}
