use espm_core::asset::Asset;
use espm_core::manifest_settings::BuildOptimizePng;
use espm_core::manifest_settings::ManifestBuild;

fn make_asset(src: &str, optimize_png: BuildOptimizePng) -> Asset {
    Asset::new(
        src.to_string(),
        format!("/out/{}", src),
        ManifestBuild {
            decorators: None,
            exclude: vec![],
            optimize_png,
        },
    )
}

/// A small generated RGB gradient image, stored as raw PNG bytes.
fn png_fixture() -> Vec<u8> {
    vec![
        137, 80, 78, 71, 13, 10, 26, 10, 0, 0, 0, 13, 73, 72, 68, 82,
        0, 0, 0, 24, 0, 0, 0, 24, 8, 2, 0, 0, 0, 111, 21, 170,
        175, 0, 0, 5, 240, 73, 68, 65, 84, 120, 1, 21, 148, 209, 107, 216,
        228, 30, 64, 127, 87, 235, 236, 154, 218, 37, 181, 139, 189, 58, 75, 191,
        88, 102, 169, 153, 244, 38, 99, 153, 88, 88, 77, 226, 40, 106, 164, 23,
        18, 137, 85, 176, 152, 37, 172, 48, 66, 81, 76, 26, 145, 34, 18, 73,
        144, 66, 10, 130, 152, 32, 50, 135, 129, 221, 248, 146, 135, 42, 147, 15,
        69, 240, 18, 124, 8, 106, 246, 228, 67, 2, 94, 28, 6, 124, 8, 35,
        47, 130, 44, 228, 206, 127, 224, 60, 157, 115, 0, 0, 8, 0, 26, 0,
        1, 176, 0, 2, 128, 8, 160, 0, 232, 0, 6, 128, 13, 224, 1, 248,
        0, 17, 64, 2, 144, 2, 228, 0, 24, 160, 0, 168, 0, 106, 128, 22,
        160, 7, 24, 238, 82, 128, 2, 130, 250, 7, 77, 221, 131, 168, 123, 89,
        106, 66, 160, 238, 19, 169, 99, 10, 117, 191, 78, 77, 26, 212, 113, 155,
        154, 242, 40, 194, 167, 166, 35, 234, 129, 132, 154, 73, 169, 19, 57, 69,
        98, 138, 42, 168, 217, 138, 122, 176, 166, 230, 90, 234, 100, 79, 209, 3,
        245, 16, 0, 3, 4, 115, 15, 205, 76, 32, 230, 24, 203, 76, 10, 204,
        148, 200, 76, 43, 204, 140, 206, 144, 6, 51, 107, 51, 115, 30, 67, 251,
        204, 124, 196, 60, 156, 48, 167, 82, 102, 33, 103, 22, 49, 195, 20, 204,
        82, 197, 156, 174, 153, 229, 150, 89, 233, 25, 118, 96, 158, 4, 224, 129,
        224, 239, 165, 249, 99, 136, 63, 206, 242, 211, 2, 127, 66, 228, 103, 21,
        254, 164, 206, 207, 27, 252, 35, 54, 191, 224, 241, 200, 231, 151, 34, 254,
        241, 132, 95, 73, 249, 51, 57, 191, 138, 121, 190, 224, 207, 85, 252, 83,
        53, 191, 214, 242, 23, 122, 94, 28, 248, 103, 1, 100, 32, 228, 9, 90,
        158, 68, 242, 52, 43, 147, 130, 60, 39, 202, 243, 138, 124, 74, 151, 23,
        13, 121, 201, 150, 151, 61, 153, 245, 229, 213, 72, 62, 155, 200, 231, 83,
        121, 45, 151, 215, 177, 44, 23, 242, 70, 37, 191, 80, 203, 155, 173, 172,
        246, 178, 62, 200, 175, 2, 104, 64, 104, 247, 209, 218, 20, 210, 78, 176,
        218, 156, 160, 253, 83, 212, 22, 20, 237, 49, 93, 91, 54, 180, 51, 182,
        198, 121, 154, 224, 107, 107, 145, 246, 76, 162, 93, 76, 181, 231, 115, 109,
        19, 107, 90, 161, 109, 85, 218, 107, 181, 118, 169, 213, 118, 122, 205, 30,
        180, 55, 1, 44, 32, 172, 99, 180, 53, 141, 172, 89, 214, 154, 23, 172,
        5, 209, 90, 82, 172, 21, 221, 90, 53, 172, 115, 182, 181, 230, 89, 162,
        111, 109, 68, 214, 139, 137, 165, 166, 214, 86, 110, 109, 99, 203, 42, 172,
        43, 149, 245, 70, 109, 237, 181, 214, 126, 111, 249, 131, 245, 1, 128, 11,
        132, 123, 63, 237, 206, 32, 247, 36, 235, 158, 18, 220, 199, 68, 119, 69,
        113, 255, 165, 187, 231, 13, 247, 130, 237, 94, 244, 92, 197, 119, 213, 200,
        125, 37, 113, 95, 79, 221, 157, 220, 221, 197, 174, 91, 184, 251, 149, 251,
        126, 237, 30, 180, 238, 135, 189, 155, 12, 238, 103, 0, 33, 16, 225, 36,
        29, 146, 40, 156, 103, 195, 69, 33, 92, 22, 195, 85, 37, 60, 175, 135,
        235, 70, 184, 97, 135, 155, 94, 168, 251, 225, 118, 20, 94, 78, 194, 221,
        52, 220, 203, 195, 119, 113, 24, 22, 225, 97, 21, 126, 92, 135, 87, 219,
        240, 122, 31, 230, 67, 120, 3, 32, 6, 34, 62, 78, 199, 179, 40, 126,
        132, 141, 151, 132, 248, 140, 24, 159, 83, 226, 11, 122, 188, 97, 196, 255,
        182, 227, 45, 47, 54, 252, 248, 74, 20, 191, 149, 196, 251, 105, 28, 228,
        241, 33, 142, 227, 34, 190, 86, 197, 95, 212, 241, 81, 27, 127, 211, 199,
        197, 16, 255, 4, 144, 1, 145, 77, 209, 217, 28, 202, 22, 216, 108, 89,
        200, 56, 49, 91, 83, 178, 139, 122, 182, 105, 100, 91, 118, 118, 201, 203,
        108, 63, 219, 139, 178, 247, 146, 236, 32, 205, 62, 202, 179, 171, 56, 203,
        138, 236, 168, 202, 190, 173, 179, 31, 218, 236, 102, 159, 213, 67, 246, 251,
        223, 194, 19, 152, 160, 49, 141, 48, 98, 49, 43, 96, 65, 196, 162, 130,
        21, 29, 235, 6, 54, 108, 108, 123, 216, 243, 177, 31, 225, 40, 193, 73,
        138, 211, 28, 231, 24, 227, 2, 23, 21, 174, 106, 92, 183, 184, 237, 113,
        63, 224, 187, 145, 148, 64, 148, 211, 116, 57, 143, 202, 37, 182, 92, 21,
        202, 53, 177, 220, 80, 74, 85, 47, 183, 141, 242, 138, 93, 238, 121, 165,
        239, 151, 135, 81, 249, 73, 82, 94, 79, 203, 163, 188, 252, 14, 151, 101,
        81, 254, 82, 149, 183, 234, 242, 118, 91, 222, 233, 203, 201, 161, 156, 3,
        104, 128, 104, 30, 160, 155, 135, 81, 243, 56, 219, 156, 21, 154, 103, 196,
        230, 69, 165, 121, 69, 111, 46, 27, 205, 91, 118, 243, 158, 215, 68, 126,
        243, 73, 212, 252, 39, 105, 190, 74, 155, 239, 243, 230, 103, 220, 52, 69,
        243, 71, 213, 252, 89, 55, 19, 109, 67, 245, 205, 194, 208, 60, 1, 208,
        1, 209, 205, 208, 221, 41, 212, 173, 176, 221, 121, 161, 187, 40, 118, 170,
        210, 189, 174, 119, 187, 70, 183, 111, 119, 7, 94, 151, 248, 221, 245, 168,
        251, 42, 233, 254, 155, 118, 55, 243, 238, 87, 220, 117, 69, 119, 167, 234,
        166, 234, 110, 190, 237, 78, 247, 221, 217, 161, 187, 187, 140, 17, 136, 241,
        4, 61, 46, 160, 241, 12, 59, 174, 9, 227, 243, 226, 184, 165, 140, 59,
        250, 184, 103, 140, 129, 61, 126, 228, 141, 169, 63, 30, 69, 227, 247, 201,
        120, 51, 29, 255, 151, 143, 183, 241, 56, 22, 227, 76, 53, 62, 90, 143,
        108, 59, 62, 221, 143, 207, 13, 227, 203, 0, 36, 16, 36, 73, 147, 139,
        136, 92, 101, 201, 117, 129, 220, 20, 201, 109, 133, 220, 213, 201, 119, 13,
        242, 208, 38, 175, 122, 100, 238, 147, 223, 69, 228, 207, 9, 249, 107, 74,
        222, 206, 73, 192, 36, 89, 144, 139, 21, 185, 90, 147, 235, 45, 185, 217,
        147, 219, 3, 185, 251, 247, 208, 8, 68, 209, 136, 65, 136, 103, 145, 44,
        32, 77, 68, 150, 130, 92, 29, 133, 6, 138, 109, 148, 121, 8, 251, 168,
        140, 80, 147, 160, 46, 69, 99, 142, 72, 140, 80, 129, 184, 10, 73, 53,
        82, 91, 100, 246, 200, 25, 80, 0, 192, 1, 193, 205, 210, 220, 18, 226,
        206, 177, 220, 134, 192, 109, 137, 220, 21, 133, 219, 215, 185, 67, 131, 187,
        102, 115, 71, 30, 87, 248, 220, 47, 17, 247, 71, 194, 221, 73, 185, 153,
        156, 91, 196, 28, 87, 112, 114, 197, 189, 84, 115, 151, 91, 238, 237, 158,
        59, 24, 184, 79, 1, 36, 32, 164, 7, 105, 233, 52, 146, 158, 98, 165,
        23, 4, 233, 53, 81, 122, 67, 145, 222, 215, 165, 143, 13, 233, 11, 91,
        250, 214, 147, 42, 95, 186, 21, 73, 127, 38, 210, 84, 42, 61, 154, 75,
        171, 88, 146, 10, 233, 165, 74, 218, 169, 165, 119, 90, 41, 234, 165, 107,
        131, 244, 37, 128, 10, 132, 58, 71, 171, 203, 72, 93, 99, 213, 77, 65,
        189, 36, 170, 123, 138, 122, 160, 171, 87, 13, 245, 200, 86, 127, 240, 212,
        218, 87, 111, 71, 234, 68, 162, 206, 167, 42, 155, 171, 235, 88, 85, 11,
        245, 114, 165, 190, 83, 171, 135, 173, 250, 121, 175, 222, 24, 212, 18, 192,
        4, 194, 60, 73, 155, 43, 200, 188, 192, 154, 170, 96, 238, 136, 230, 190,
        98, 126, 168, 155, 215, 13, 243, 27, 219, 188, 233, 153, 173, 111, 222, 137,
        76, 42, 49, 79, 167, 230, 211, 185, 185, 137, 77, 179, 48, 223, 174, 204,
        168, 54, 63, 111, 205, 175, 123, 243, 199, 193, 252, 13, 192, 1, 194, 161,
        105, 135, 69, 142, 200, 58, 186, 224, 216, 162, 227, 43, 78, 162, 59, 185,
        225, 20, 182, 83, 123, 78, 239, 59, 147, 145, 179, 144, 56, 103, 83, 231,
        185, 220, 217, 198, 142, 83, 56, 7, 149, 115, 173, 118, 110, 180, 206, 143,
        189, 115, 107, 112, 254, 2, 8, 128, 8, 30, 162, 131, 39, 81, 240, 44,
        27, 188, 42, 4, 111, 138, 193, 7, 74, 240, 153, 30, 220, 48, 130, 159,
        236, 224, 119, 47, 24, 252, 96, 46, 10, 158, 72, 2, 49, 13, 94, 206,
        131, 93, 28, 4, 69, 240, 105, 21, 124, 89, 7, 101, 27, 252, 214, 7,
        127, 13, 1, 245, 127, 216, 77, 219, 47, 183, 6, 43, 178, 0, 0, 0,
        0, 73, 69, 78, 68, 174, 66, 96, 130,
    ]
}

#[test]
fn copies_non_js_files() {
    let svg = make_asset("icons/add.svg", BuildOptimizePng::Enabled(true));
    assert!(svg.is_svg());
    assert!(!svg.is_png());
    let bytes = vec![60, 115, 118, 103, 62];
    let out = svg.process_bytes(bytes.clone()).unwrap();
    assert_eq!(out, bytes);
}

#[test]
fn optimizes_png() {
    let asset = make_asset("img/help.png", BuildOptimizePng::Enabled(true));
    assert!(asset.is_png());
    let input = png_fixture();
    let out = asset.process_bytes(input.clone()).unwrap();
    // Lossless re-encoding answers a valid PNG, never a larger one; the
    // fixture is deliberately under-compressed, so it must shrink.
    assert_eq!(&out[0..8], &input[0..8]);
    assert!(out.len() < input.len());
    assert_ne!(out, input);
}

#[test]
fn optimizes_png_with_diff_level() {
    let input = png_fixture();

    // Level 0 means optimization is off: output is byte-identical.
    let off = make_asset("img/help.png", BuildOptimizePng::Level(0));
    assert!(!off.build_settings.optimize_png.is_enabled());
    assert_eq!(off.process_bytes(input.clone()).unwrap(), input);

    // So is a plain disable.
    let disabled = make_asset("img/help.png", BuildOptimizePng::Enabled(false));
    assert_eq!(disabled.process_bytes(input.clone()).unwrap(), input);

    // A stronger level never does worse than a weaker one.
    let level1 = make_asset("img/help.png", BuildOptimizePng::Level(1))
        .process_bytes(input.clone())
        .unwrap();
    let level6 = make_asset("img/help.png", BuildOptimizePng::Level(6))
        .process_bytes(input.clone())
        .unwrap();
    assert!(level6.len() <= level1.len());
}

#[test]
fn rejects_invalid_png_bytes() {
    let asset = make_asset("img/help.png", BuildOptimizePng::Enabled(true));
    let error = asset.process_bytes(vec![1, 2, 3]).unwrap_err();
    assert!(error.message().contains("Failed to optimize asset img/help.png"));
}

#[test]
fn classifies_asset_extensions_ignoring_case() {
    let jpg = make_asset("photos/pic.JPEG", BuildOptimizePng::Enabled(true));
    assert!(jpg.is_jpg());
    let png = make_asset("img/logo.PNG", BuildOptimizePng::Enabled(true));
    assert!(png.is_png());
}
