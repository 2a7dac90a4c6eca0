use iou_modern::components::terrain_encoding::{
    terrain_code_from_rgb, terrain_rgb_from_code, MAX_TERRAIN_CODE,
};

#[test]
fn sea_level_code_splits_into_known_channels() {
    // 0 m = -10000 + 100000 * 0.1
    assert_eq!(terrain_rgb_from_code(100000), (1, 134, 160));
    assert_eq!(terrain_code_from_rgb(1, 134, 160), 100000);
}

#[test]
fn extreme_codes() {
    assert_eq!(terrain_rgb_from_code(0), (0, 0, 0));
    assert_eq!(terrain_rgb_from_code(MAX_TERRAIN_CODE), (255, 255, 255));
    assert_eq!(terrain_code_from_rgb(255, 255, 255), 16777215);
    assert_eq!(terrain_code_from_rgb(0, 0, 0), 0);
}

#[test]
fn codes_round_trip_through_channels() {
    for code in [1u32, 255, 256, 65535, 65536, 99945, 100032, 112345, 16777214] {
        let (r, g, b) = terrain_rgb_from_code(code);
        assert_eq!(terrain_code_from_rgb(r, g, b), code);
    }
}

#[test]
fn channels_round_trip_through_code() {
    for (r, g, b) in [(0u8, 0u8, 1u8), (1, 2, 3), (128, 0, 255), (255, 1, 0)] {
        assert_eq!(terrain_rgb_from_code(terrain_code_from_rgb(r, g, b)), (r, g, b));
    }
}

#[test]
fn only_the_low_24_bits_are_split() {
    assert_eq!(terrain_rgb_from_code(0x0100_0000), (0, 0, 0));
    assert_eq!(terrain_rgb_from_code(0xFF12_3456), (0x12, 0x34, 0x56));
}
