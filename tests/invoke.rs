use jxl_converter::invoke::{arguments, is_jpeg, EncodeOptions, FailureKind, ItemFailure, Target};
use jxl_converter::types::OutputFormat;

fn opts(lossless: bool, jpeg_lossless: bool) -> EncodeOptions {
    EncodeOptions { lossless, jpeg_lossless, quality: 90, effort: 7 }
}

#[test]
fn lossless_wins_over_jpeg_flag_for_jpeg() {
    let args = arguments(Target::Jxl(opts(true, false)), "/in/a.jpg", "/abs/a.jpg", "/abs/a.jxl");
    assert_eq!(args, vec!["/abs/a.jpg", "/abs/a.jxl", "--lossless_jpeg=1", "-e", "7"]);
}

#[test]
fn lossless_non_jpeg_uses_distance_zero() {
    let args = arguments(Target::Jxl(opts(true, false)), "/in/a.png", "/abs/a.png", "/abs/a.jxl");
    assert_eq!(args, vec!["/abs/a.png", "/abs/a.jxl", "-d", "0", "-e", "7"]);
    let args = arguments(Target::Jxl(opts(true, true)), "/in/a.png", "/abs/a.png", "/abs/a.jxl");
    assert_eq!(args, vec!["/abs/a.png", "/abs/a.jxl", "-d", "0", "-e", "7"]);
}

#[test]
fn jpeg_lossless_flag_applies_to_jpeg_only() {
    let args = arguments(Target::Jxl(opts(false, true)), "/in/a.JPEG", "/abs/a.JPEG", "/abs/a.jxl");
    assert_eq!(args, vec!["/abs/a.JPEG", "/abs/a.jxl", "--lossless_jpeg=1", "-e", "7"]);
    let args = arguments(Target::Jxl(opts(false, true)), "/in/a.png", "/abs/a.png", "/abs/a.jxl");
    assert_eq!(args, vec!["/abs/a.png", "/abs/a.jxl", "-q", "90", "-e", "7"]);
}

#[test]
fn lossy_uses_quality_and_effort() {
    let o = EncodeOptions { lossless: false, jpeg_lossless: false, quality: 100, effort: 1 };
    let args = arguments(Target::Jxl(o), "/in/a.jpg", "/abs/a.jpg", "/abs/a.jxl");
    assert_eq!(args, vec!["/abs/a.jpg", "/abs/a.jxl", "-q", "100", "-e", "1"]);
}

#[test]
fn jpeg_is_judged_on_the_input_as_found() {
    let args = arguments(Target::Jxl(opts(false, true)), "/in/a.jpeg", "/abs/target.bin", "/abs/a.jxl");
    assert_eq!(args, vec!["/abs/target.bin", "/abs/a.jxl", "--lossless_jpeg=1", "-e", "7"]);
}

#[test]
fn decode_arguments_are_paths_only() {
    let args = arguments(Target::Raster(OutputFormat::Ppm), "/in/a.jxl", "/abs/a.jxl", "/abs/a.ppm");
    assert_eq!(args, vec!["/abs/a.jxl", "/abs/a.ppm"]);
}

#[test]
fn jpeg_detection() {
    assert!(is_jpeg("/a/b.jpg"));
    assert!(is_jpeg("/a/b.JpEg"));
    assert!(!is_jpeg("/a/b.png"));
    assert!(!is_jpeg("/a/jpg"));
}

#[test]
fn target_extensions() {
    assert_eq!(Target::Jxl(opts(false, false)).extension(), "jxl");
    assert_eq!(Target::Raster(OutputFormat::Jpeg).extension(), "jpg");
    assert_eq!(OutputFormat::Png.extension(), "png");
    assert_eq!(OutputFormat::Pgm.extension(), "pgm");
    assert_eq!(OutputFormat::Pbm.name(), "PBM");
    assert_eq!(OutputFormat::Jpeg.name(), "JPEG");
    assert_eq!(
        OutputFormat::all(),
        &[OutputFormat::Png, OutputFormat::Jpeg, OutputFormat::Ppm, OutputFormat::Pgm, OutputFormat::Pbm]
    );
}

#[test]
fn failure_messages() {
    let f = |kind| ItemFailure { kind, detail: "x".to_string() };
    assert_eq!(f(FailureKind::CreateOutputDir).message("cjxl"), "Failed to create output directory: x");
    assert_eq!(f(FailureKind::ResolveInput).message("cjxl"), "Failed to resolve input path: x");
    assert_eq!(f(FailureKind::ResolveOutput).message("cjxl"), "Failed to resolve output path: x");
    assert_eq!(f(FailureKind::ResolveOutputDir).message("cjxl"), "Failed to resolve output directory: x");
    assert_eq!(f(FailureKind::Launch).message("djxl"), "Failed to execute djxl: x");
    assert_eq!(f(FailureKind::Exit).message("cjxl"), "cjxl failed: x");
}
