use nightshade_bridge::imaging::{
    bayer_pattern_for, be_bytes_to_u16, be_u32_bytes_to_u16, channel_peak, clamp_pixels_to_u16,
    display_histogram, display_to_solver_bytes, downscale, is_color_frame, le_bytes_to_u16,
    u16_to_le_bytes, u8_to_u16_pixels, white_balance_peaks, BayerPattern, blob_is_fits,
    fits_header_end, indi_blob_pixels,
};
use nightshade_bridge::thumbnail::encode_thumbnail_jpeg;

#[test]
fn clamping_and_byte_orders() {
    assert_eq!(clamp_pixels_to_u16(&vec![-5, 0, 1234, 65535, 70000]), vec![0, 0, 1234, 65535, 65535]);
    let bytes = u16_to_le_bytes(&vec![0x1234, 0xffff]);
    assert_eq!(bytes, vec![0x34, 0x12, 0xff, 0xff]);
    assert_eq!(le_bytes_to_u16(&bytes), vec![0x1234, 0xffff]);
    assert_eq!(le_bytes_to_u16(&vec![1, 2, 3]), vec![0x0201]);
    assert_eq!(u8_to_u16_pixels(&vec![0, 1, 255]), vec![0, 256, 65280]);
    assert_eq!(be_bytes_to_u16(&vec![0x12, 0x34, 0xab]), vec![0x1234]);
    assert_eq!(be_u32_bytes_to_u16(&vec![0xde, 0xad, 0xbe, 0xef, 1]), vec![0xdead]);
}

#[test]
fn histogram_counts_each_value() {
    let h = display_histogram(&vec![0, 0, 255, 7]);
    assert_eq!(h.len(), 256);
    assert_eq!(h[0], 2);
    assert_eq!(h[7], 1);
    assert_eq!(h[255], 1);
    assert_eq!(h.iter().sum::<u32>(), 4);
}

#[test]
fn colour_and_bayer() {
    assert!(is_color_frame(&Some("Color".to_string()), Some((0, 0))));
    assert!(!is_color_frame(&Some("Color".to_string()), None));
    assert!(!is_color_frame(&Some("Monochrome".to_string()), Some((0, 0))));
    assert_eq!(bayer_pattern_for(true, Some((1, 0))), BayerPattern::GRBG);
    assert_eq!(bayer_pattern_for(true, Some((0, 1))), BayerPattern::GBRG);
    assert_eq!(bayer_pattern_for(true, Some((1, 1))), BayerPattern::BGGR);
    assert_eq!(bayer_pattern_for(true, Some((2, 0))), BayerPattern::RGGB);
    assert_eq!(bayer_pattern_for(false, Some((1, 1))), BayerPattern::RGGB);
}

#[test]
fn nearest_neighbour_downscale() {
    // 4x3 image, values are their index
    let data: Vec<u16> = (0..12).collect();
    assert_eq!(downscale(&data, 4, 3, 2), vec![0, 2]);
    assert_eq!(downscale(&data, 4, 3, 1), data);
    // missing source pixels are 0
    assert_eq!(downscale(&vec![9], 2, 2, 1), vec![9, 0, 0, 0]);
}

#[test]
fn white_balance_peaks_pick_the_most_frequent_value_from_100() {
    let img: Vec<u16> = vec![
        50, 200, 300, 50, 200, 300, 50, 201, 300, 120, 201, 300, 120, 202, 400,
    ];
    assert_eq!(white_balance_peaks(&img), Some((120, 200, 300)));
    assert_eq!(channel_peak(&vec![10, 20, 30], 0), 0);
    assert_eq!(white_balance_peaks(&vec![1, 2]), None);
}

#[test]
fn plate_solver_samples() {
    assert_eq!(display_to_solver_bytes(&vec![1, 255], false), vec![0, 1, 0, 255]);
    // mean of 10, 20, 31 is 20
    assert_eq!(display_to_solver_bytes(&vec![10, 20, 31], true), vec![0, 20]);
}

#[test]
fn thumbnail_jpeg() {
    let pixels: Vec<u8> = (0..64u32).map(|v| (v * 4) as u8).collect();
    let jpeg = encode_thumbnail_jpeg(8, 8, pixels).unwrap();
    assert_eq!(&jpeg[..2], &[0xFF, 0xD8]);
    assert_eq!(&jpeg[jpeg.len() - 2..], &[0xFF, 0xD9]);
    assert_eq!(encode_thumbnail_jpeg(8, 8, vec![0; 10]).unwrap_err(), "Failed to create grayscale image");
    assert!(encode_thumbnail_jpeg(0, 5, vec![]).unwrap_err().starts_with("JPEG encoding failed: "));
}

#[test]
fn histogram_counts_every_pixel() {
    let data: Vec<u8> = (0..1000u32).map(|i| (i * 7 % 256) as u8).collect();
    let h = display_histogram(&data);
    assert_eq!(h.iter().map(|&c| c as u64).sum::<u64>(), 1000);
}

#[test]
fn indi_blob_pixels_skip_fits_header() {
    let mut fits: Vec<u8> = Vec::new();
    let mut card = b"SIMPLE  =                    T".to_vec();
    card.resize(80, b' ');
    fits.extend_from_slice(&card);
    let mut end = b"END".to_vec();
    end.resize(80, b' ');
    fits.extend_from_slice(&end);
    fits.resize(2880, b' ');
    fits.extend_from_slice(&[0x01, 0x02, 0xff, 0x00, 0x07]);
    assert!(blob_is_fits(&fits));
    assert_eq!(fits_header_end(&fits), 2880);
    assert_eq!(indi_blob_pixels(&fits), vec![0x0102, 0xff00]);
    let raw = vec![0x01u8, 0x02, 0xff, 0x00];
    assert!(!blob_is_fits(&raw));
    assert_eq!(indi_blob_pixels(&raw), vec![0x0201, 0x00ff]);
}
