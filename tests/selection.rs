use jxl_converter::batch::BatchState;
use jxl_converter::engine::ConversionEngine;
use jxl_converter::invoke::{resolve_output_path, Target};
use jxl_converter::select::InputPath;
use jxl_converter::types::ConversionSettings;

fn engine() -> ConversionEngine {
    ConversionEngine::new(Some("/usr/bin/cjxl".to_string()), Some("/usr/bin/djxl".to_string()))
}

fn file(p: &str) -> InputPath {
    InputPath { path: p.to_string(), is_file: true }
}

fn dir(p: &str) -> InputPath {
    InputPath { path: p.to_string(), is_file: false }
}

#[test]
fn supported_images_ignore_case() {
    let e = engine();
    assert!(e.is_supported_image("/p/im.png"));
    assert!(e.is_supported_image("/p/shot.JPEG"));
    assert!(e.is_supported_image("/p/a.TiF"));
    assert!(e.is_supported_image("/p/a.webp"));
    assert!(e.is_supported_image("/p/a.pnm"));
    assert!(!e.is_supported_image("/p/note.txt"));
    assert!(!e.is_supported_image("/p/a.jxl"));
    assert!(!e.is_supported_image("/p/png"));
    assert!(!e.is_supported_image("/p/.png"));
}

#[test]
fn extension_filter_keeps_images_of_a_directory() {
    let files = vec![
        "/pics/im.png".to_string(),
        "/pics/note.txt".to_string(),
        "/pics/shot.JPEG".to_string(),
    ];
    let mut settings = ConversionSettings::default();
    settings.output_dir = "/out".to_string();
    settings.recursive = false;
    let r = engine().convert_batch(vec![dir("/pics")], files, settings);
    let kept: Vec<&str> = r.sources.iter().map(|s| s.path.as_str()).collect();
    assert_eq!(kept, vec!["/pics/im.png", "/pics/shot.JPEG"]);
    assert_eq!(r.state, BatchState::Idle);
    assert!(r.base.is_none());
}

#[test]
fn common_base_of_files_in_sibling_directories() {
    let e = engine();
    assert_eq!(e.find_common_base(&vec![file("/a/b/x.png"), file("/a/c/y.png")]), Some("/a".to_string()));
}

#[test]
fn common_base_of_directory_and_file_inside() {
    let e = engine();
    assert_eq!(e.find_common_base(&vec![dir("/a/b"), file("/a/b/c/y.png")]), Some("/a/b".to_string()));
    assert_eq!(e.find_common_base(&vec![file("/a/b/c/y.png"), dir("/a/b")]), Some("/a/b".to_string()));
}

#[test]
fn common_base_walks_to_root() {
    let e = engine();
    assert_eq!(e.find_common_base(&vec![file("/a/x.png"), file("/b/y.png")]), Some("/".to_string()));
}

#[test]
fn common_base_is_none_for_empty_or_unresolvable() {
    let e = engine();
    assert_eq!(e.find_common_base(&vec![]), None);
    assert_eq!(e.find_common_base(&vec![file("/")]), None);
    assert_eq!(e.find_common_base(&vec![dir("/a"), dir("b")]), None);
}

#[test]
fn common_base_is_a_prefix_by_component_only() {
    let e = engine();
    assert_eq!(e.find_common_base(&vec![dir("/a/bc"), dir("/a/b")]), Some("/a".to_string()));
}

#[test]
fn structure_preservation_round_trip() {
    let base = Some("/a".to_string());
    assert_eq!(resolve_output_path("/out", "/a/b/x.png", true, &base, "jxl"), "/out/b/x.jxl");
    assert_eq!(resolve_output_path("/out", "/a/c/y.png", true, &base, "jxl"), "/out/c/y.jxl");
}

#[test]
fn structure_preservation_through_the_engine() {
    let mut settings = ConversionSettings::default();
    settings.output_dir = "/out".to_string();
    settings.keep_structure = true;
    let inputs = vec![file("/a/b/x.png"), file("/a/c/y.png")];
    let files = vec!["/a/b/x.png".to_string(), "/a/c/y.png".to_string()];
    let mut r = engine().convert_batch(inputs, files, settings);
    assert_eq!(r.base, Some("/a".to_string()));
    r.start();
    let (_, first) = r.next_item(false);
    let first = first.unwrap();
    assert_eq!(first.output, "/out/b/x.jxl");
    r.finish_item(Ok("/out/b/x.jxl".to_string()));
    let (_, second) = r.next_item(false);
    assert_eq!(second.unwrap().output, "/out/c/y.jxl");
}

#[test]
fn flat_destination_without_structure() {
    let base = Some("/a".to_string());
    assert_eq!(resolve_output_path("/out", "/a/b/x.png", false, &base, "jxl"), "/out/x.jxl");
    assert_eq!(resolve_output_path("/out", "/a/b/x.png", true, &None, "jxl"), "/out/x.jxl");
    assert_eq!(resolve_output_path("/out", "/z/x.png", true, &base, "jxl"), "/out/x.jxl");
}

#[test]
fn resolving_twice_gives_the_same_destination() {
    let base = Some("/a".to_string());
    let once = resolve_output_path("/out", "/a/b/x.png", true, &base, "png");
    let twice = resolve_output_path("/out", "/a/b/x.png", true, &base, "png");
    assert_eq!(once, twice);
    assert_eq!(once, "/out/b/x.png");
}

#[test]
fn engine_reports_missing_tools() {
    let none = ConversionEngine::new(None, None);
    assert!(!none.is_available());
    assert!(!none.is_decode_available());
    assert_eq!(
        none.get_error().unwrap(),
        "cjxl executable not found. Please place it in the 'tools' folder or ensure it's in PATH."
    );
    assert_eq!(
        none.get_decode_error().unwrap(),
        "djxl executable not found. Please place it in the 'tools' folder or ensure it's in PATH."
    );
    let both = engine();
    assert!(both.is_available());
    assert!(both.is_decode_available());
    assert!(both.get_error().is_none());
    assert!(both.get_decode_error().is_none());
}

#[test]
fn encode_targets_carry_settings() {
    let mut settings = ConversionSettings::default();
    settings.output_dir = "/out".to_string();
    settings.quality = 55;
    let r = engine().convert_batch(vec![file("/p/a.png")], vec!["/p/a.png".to_string()], settings);
    match r.sources[0].target {
        Target::Jxl(o) => {
            assert_eq!(o.quality, 55);
            assert_eq!(o.effort, 7);
            assert!(!o.lossless);
            assert!(o.jpeg_lossless);
        }
        Target::Raster(_) => panic!("expected an encoding target"),
    }
}
