use jxl_converter::engine::ConversionEngine;
use jxl_converter::session::JxlConverterApp;
use jxl_converter::types::{LogEntry, OutputFormat, ProgressMessage};
use std::sync::atomic::Ordering;

fn app() -> JxlConverterApp {
    JxlConverterApp::new(ConversionEngine::new(Some("/t/cjxl".to_string()), Some("/t/djxl".to_string())))
}

fn last_log(a: &JxlConverterApp) -> (String, String) {
    match a.log_entries.last().unwrap() {
        LogEntry::Info(s) => ("info".to_string(), s.clone()),
        LogEntry::Success(s) => ("success".to_string(), s.clone()),
        LogEntry::Error(s) => ("error".to_string(), s.clone()),
        LogEntry::Warning(s) => ("warning".to_string(), s.clone()),
    }
}

#[test]
fn new_logs_tool_availability() {
    let a = app();
    assert_eq!(a.log_entries.len(), 2);
    assert!(matches!(&a.log_entries[0], LogEntry::Info(s) if s == "cjxl found and ready."));
    assert!(matches!(&a.log_entries[1], LogEntry::Info(s) if s == "djxl found and ready."));
    let b = JxlConverterApp::new(ConversionEngine::new(None, Some("/t/djxl".to_string())));
    assert!(matches!(&b.log_entries[0], LogEntry::Error(s) if s.starts_with("cjxl executable not found.")));
    assert_eq!(b.settings.quality, 90);
    assert_eq!(b.settings.effort, 7);
    assert_eq!(b.decode_settings.output_format, OutputFormat::Png);
}

#[test]
fn start_conversion_checks_in_order() {
    let mut a = JxlConverterApp::new(ConversionEngine::new(None, None));
    assert!(!a.start_conversion());
    assert_eq!(last_log(&a), ("error".to_string(), "cjxl is not available.".to_string()));
    let mut a = app();
    assert!(!a.start_conversion());
    assert_eq!(last_log(&a), ("warning".to_string(), "No input files or folders selected.".to_string()));
    a.add_input_path("/in".to_string());
    assert!(!a.start_conversion());
    assert_eq!(last_log(&a), ("warning".to_string(), "No output directory selected.".to_string()));
    a.settings.output_dir = "/out".to_string();
    a.cancel_flag.store(true, Ordering::Relaxed);
    assert!(a.start_conversion());
    assert!(a.is_converting);
    assert!(!a.cancel_flag.load(Ordering::Relaxed));
    assert_eq!(last_log(&a), ("info".to_string(), "Conversion started...".to_string()));
}

#[test]
fn start_decode_checks_in_order() {
    let mut a = JxlConverterApp::new(ConversionEngine::new(None, None));
    assert!(!a.start_decode());
    assert_eq!(last_log(&a), ("error".to_string(), "djxl is not available.".to_string()));
    let mut a = app();
    assert!(!a.start_decode());
    assert_eq!(last_log(&a), ("warning".to_string(), "No JXL files selected.".to_string()));
    a.add_decode_file("/in/a.jxl".to_string());
    assert!(!a.start_decode());
    assert_eq!(last_log(&a), ("warning".to_string(), "No output directory selected.".to_string()));
    a.decode_settings.output_dir = "/out".to_string();
    assert!(a.start_decode());
    assert_eq!(last_log(&a), ("info".to_string(), "Decoding started...".to_string()));
}

#[test]
fn cancel_sets_switch_and_logs() {
    let mut a = app();
    a.cancel_conversion();
    assert!(a.cancel_flag.load(Ordering::Relaxed));
    assert!(a.scroll_to_bottom);
    assert_eq!(last_log(&a), ("warning".to_string(), "Cancelling conversion...".to_string()));
}

#[test]
fn progress_messages_update_state_and_log() {
    let mut a = app();
    a.is_converting = true;
    a.process_progress_messages(vec![
        ProgressMessage::Started { total: 12 },
        ProgressMessage::Progress { current: 1, total: 12, file: "/in/a.png".to_string() },
    ]);
    assert_eq!(a.total_files, 12);
    assert_eq!(a.current_progress, 1);
    assert_eq!(a.current_file, "/in/a.png");
    assert_eq!(last_log(&a), ("info".to_string(), "Processing 12 file(s)...".to_string()));
    a.process_progress_messages(vec![
        ProgressMessage::Success { file: "/in/a.png -> /out/a.jxl".to_string() },
        ProgressMessage::Error { file: "/in/b.png".to_string(), error: "cjxl failed: ".to_string() },
        ProgressMessage::Skipped { file: "/in/c.png".to_string(), reason: "exists".to_string() },
    ]);
    let n = a.log_entries.len();
    assert!(matches!(&a.log_entries[n - 3], LogEntry::Success(s) if s == "\u{2713} /in/a.png -> /out/a.jxl"));
    assert!(matches!(&a.log_entries[n - 2], LogEntry::Error(s) if s == "\u{2717} /in/b.png: cjxl failed: "));
    assert!(matches!(&a.log_entries[n - 1], LogEntry::Warning(s) if s == "\u{2298} /in/c.png: exists"));
    a.process_progress_messages(vec![ProgressMessage::Completed]);
    assert!(!a.is_converting);
    assert_eq!(a.current_file, "");
    assert_eq!(last_log(&a), ("info".to_string(), "Conversion completed.".to_string()));
    a.is_converting = true;
    a.process_progress_messages(vec![ProgressMessage::Cancelled]);
    assert!(!a.is_converting);
    assert_eq!(last_log(&a), ("warning".to_string(), "Conversion cancelled.".to_string()));
}

#[test]
fn command_preview_follows_settings() {
    let mut a = app();
    assert_eq!(a.generate_command_preview(true), "cjxl --lossless_jpeg=1 -e 7 input.jpg output.jxl");
    assert_eq!(a.generate_command_preview(false), "cjxl -q 90 -e 7 input.png output.jxl");
    a.settings.lossless = true;
    a.settings.jpeg_lossless = false;
    assert_eq!(a.generate_command_preview(true), "cjxl --lossless_jpeg=1 -e 7 input.jpg output.jxl");
    assert_eq!(a.generate_command_preview(false), "cjxl -d 0 -e 7 input.png output.jxl");
    a.settings.lossless = false;
    a.settings.quality = 42;
    a.settings.effort = 9;
    assert_eq!(a.generate_command_preview(true), "cjxl -q 42 -e 9 input.jpg output.jxl");
}

#[test]
fn input_paths_are_not_repeated() {
    let mut a = app();
    a.add_input_path("/in/a.png".to_string());
    a.add_input_path("/in/b".to_string());
    a.add_input_path("/in/a.png".to_string());
    assert_eq!(a.input_paths, vec!["/in/a.png", "/in/b"]);
}

#[test]
fn jxl_files_from_a_folder() {
    let mut a = app();
    a.decode_settings.output_format = OutputFormat::Ppm;
    a.add_decode_file("/in/a.jxl".to_string());
    a.add_jxl_files(vec![
        "/in/a.jxl".to_string(),
        "/in/b.JXL".to_string(),
        "/in/c.png".to_string(),
        "/in/sub/d.jxl".to_string(),
        "/in/jxl".to_string(),
    ]);
    let paths: Vec<&str> = a.decode_items.iter().map(|d| d.path.as_str()).collect();
    assert_eq!(paths, vec!["/in/a.jxl", "/in/b.JXL", "/in/sub/d.jxl"]);
    assert!(a.decode_items.iter().all(|d| d.output_format == OutputFormat::Ppm));
}

#[test]
fn add_log_scrolls() {
    let mut a = app();
    assert!(!a.scroll_to_bottom);
    a.add_log(LogEntry::Info("hello".to_string()));
    assert!(a.scroll_to_bottom);
    assert_eq!(last_log(&a), ("info".to_string(), "hello".to_string()));
}
