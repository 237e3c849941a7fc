use dj_client::spectrum::band_boundaries;

#[test]
fn band_bins_at_48k_with_1024_point_fft() {
    assert_eq!(band_boundaries(48000, 1024), [(1, 5), (5, 11), (11, 43), (43, 128), (128, 427)]);
}

#[test]
fn band_bins_at_44k1() {
    assert_eq!(band_boundaries(44100, 1024), [(1, 6), (6, 12), (12, 46), (46, 139), (139, 464)]);
}

#[test]
fn air_band_stops_at_nyquist() {
    assert_eq!(band_boundaries(32000, 1024)[4], (192, 512));
    assert_eq!(band_boundaries(16000, 256)[4], (96, 128));
}
