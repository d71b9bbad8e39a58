//! The converter's state between frames of the user interface: the selection,
//! the settings, the progress of the running job and the activity log.
use vstd::prelude::*;
use std::sync::atomic::{AtomicBool, Ordering};
use std::sync::Arc;
use crate::engine::{encode_options, ConversionEngine};
use crate::invoke::{encode_flags, push_encode_flags};
use crate::paths::extension;
use crate::select::{eq_ignore_case, matches_ignore_case};
use crate::text::{chars_of, join_spaced, push_decimal, push_str, spaced, decimal_text};
use crate::types::{
    ConversionSettings, DecodeItem, DecodeSettings, Event, LogEntry, LogLevel, OutputFormat,
    ProgressMessage,
};

verus! {

pub struct JxlConverterApp {
    pub engine: ConversionEngine,
    pub settings: ConversionSettings,
    pub input_paths: Vec<String>,
    pub decode_settings: DecodeSettings,
    pub decode_items: Vec<DecodeItem>,
    pub is_converting: bool,
    /// Read by the running job between items; set to ask it to stop.
    pub cancel_flag: Arc<AtomicBool>,
    pub current_progress: usize,
    pub total_files: usize,
    pub current_file: String,
    pub log_entries: Vec<LogEntry>,
    pub scroll_to_bottom: bool,
}

/// The part of the state that progress reports change.
pub struct ProgressState {
    pub converting: bool,
    pub current: nat,
    pub total: nat,
    pub file: Seq<char>,
    pub log: Seq<(LogLevel, Seq<char>)>,
    pub scroll: bool,
}

/// The state after one report: counters follow `Started` and `Progress`, each
/// outcome adds a log line, and the end of the job stops the conversion.
pub open spec fn apply_event(s: ProgressState, e: Event) -> ProgressState {
    match e {
        Event::Started { total } => ProgressState {
            total,
            log: s.log.push((LogLevel::Info, "Processing "@ + decimal_text(total) + " file(s)..."@)),
            scroll: true,
            ..s
        },
        Event::Progress { current, total, file } => ProgressState { current, total, file, ..s },
        Event::Success { file } => ProgressState {
            log: s.log.push((LogLevel::Success, "\u{2713} "@ + file)),
            scroll: true,
            ..s
        },
        Event::Error { file, error } => ProgressState {
            log: s.log.push((LogLevel::Error, "\u{2717} "@ + file + ": "@ + error)),
            scroll: true,
            ..s
        },
        Event::Skipped { file, reason } => ProgressState {
            log: s.log.push((LogLevel::Warning, "\u{2298} "@ + file + ": "@ + reason)),
            scroll: true,
            ..s
        },
        Event::Completed => ProgressState {
            converting: false,
            file: Seq::empty(),
            log: s.log.push((LogLevel::Info, "Conversion completed."@)),
            scroll: true,
            ..s
        },
        Event::Cancelled => ProgressState {
            converting: false,
            file: Seq::empty(),
            log: s.log.push((LogLevel::Warning, "Conversion cancelled."@)),
            scroll: true,
            ..s
        },
    }
}

/// The state after the reports `es`, in order.
pub open spec fn apply_events(s: ProgressState, es: Seq<Event>) -> ProgressState
    decreases es.len(),
{
    if es.len() == 0 {
        s
    } else {
        apply_event(apply_events(s, es.drop_last()), es.last())
    }
}

/// The file names used in the command preview.
pub open spec fn preview_files(is_jpeg: bool) -> Seq<Seq<char>> {
    if is_jpeg {
        seq!["input.jpg"@, "output.jxl"@]
    } else {
        seq!["input.png"@, "output.jxl"@]
    }
}

/// `p` has the extension `jxl`, in any ASCII case.
pub open spec fn is_jxl_path(p: Seq<char>) -> bool {
    match crate::paths::extension_of(p) {
        Some(e) => eq_ignore_case(e, "jxl"@),
        None => false,
    }
}

/// `ps` with `p` added at the end, unless it is already there.
pub open spec fn with_path(ps: Seq<Seq<char>>, p: Seq<char>) -> Seq<Seq<char>> {
    if ps.contains(p) {
        ps
    } else {
        ps.push(p)
    }
}

/// `items` with a file `p` to decode into `fmt` added, unless the file is
/// already listed.
pub open spec fn with_decode_file(
    items: Seq<(Seq<char>, OutputFormat)>,
    p: Seq<char>,
    fmt: OutputFormat,
) -> Seq<(Seq<char>, OutputFormat)> {
    if exists|i: int| 0 <= i < items.len() && (#[trigger] items[i]).0 == p {
        items
    } else {
        items.push((p, fmt))
    }
}

/// `items` with each JPEG XL file of `files` added in turn.
pub open spec fn with_jxl_files(
    items: Seq<(Seq<char>, OutputFormat)>,
    files: Seq<Seq<char>>,
    fmt: OutputFormat,
) -> Seq<(Seq<char>, OutputFormat)>
    decreases files.len(),
{
    if files.len() == 0 {
        items
    } else {
        let before = with_jxl_files(items, files.drop_last(), fmt);
        if is_jxl_path(files.last()) {
            with_decode_file(before, files.last(), fmt)
        } else {
            before
        }
    }
}

impl JxlConverterApp {
    pub open spec fn log_view(&self) -> Seq<(LogLevel, Seq<char>)> {
        self.log_entries@.map_values(|e: LogEntry| e@)
    }

    pub open spec fn decode_view(&self) -> Seq<(Seq<char>, OutputFormat)> {
        self.decode_items@.map_values(|d: DecodeItem| (d.path@, d.output_format))
    }

    pub open spec fn progress_state(&self) -> ProgressState {
        ProgressState {
            converting: self.is_converting,
            current: self.current_progress as nat,
            total: self.total_files as nat,
            file: self.current_file@,
            log: self.log_view(),
            scroll: self.scroll_to_bottom,
        }
    }

    /// The selection and settings, which only the user changes.
    pub open spec fn same_choices(&self, other: &Self) -> bool {
        &&& self.engine == other.engine
        &&& self.settings == other.settings
        &&& self.input_paths == other.input_paths
        &&& self.decode_settings == other.decode_settings
        &&& self.decode_items == other.decode_items
    }

    /// A fresh state around `engine`, whose log says whether each tool was found.
    pub fn new(engine: ConversionEngine) -> (r: Self)
        ensures
            r.engine == engine,
            r.settings.is_initial(),
            r.decode_settings.is_initial(),
            r.input_paths@.len() == 0,
            r.decode_items@.len() == 0,
            !r.is_converting,
            r.current_progress == 0,
            r.total_files == 0,
            r.current_file@.len() == 0,
            !r.scroll_to_bottom,
            r.log_view() == seq![
                if engine.cjxl_path is None {
                    (LogLevel::Error, ConversionEngine::missing_encoder_text())
                } else {
                    (LogLevel::Info, "cjxl found and ready."@)
                },
                if engine.djxl_path is None {
                    (LogLevel::Error, ConversionEngine::missing_decoder_text())
                } else {
                    (LogLevel::Info, "djxl found and ready."@)
                },
            ],
    {
        let mut log: Vec<LogEntry> = Vec::new();
        match engine.get_error() {
            Some(e) => log.push(LogEntry::Error(e)),
            None => log.push(LogEntry::Info(String::from_str("cjxl found and ready."))),
        }
        match engine.get_decode_error() {
            Some(e) => log.push(LogEntry::Error(e)),
            None => log.push(LogEntry::Info(String::from_str("djxl found and ready."))),
        }
        let r = JxlConverterApp {
            engine,
            settings: ConversionSettings::default(),
            input_paths: Vec::new(),
            decode_settings: DecodeSettings::default(),
            decode_items: Vec::new(),
            is_converting: false,
            cancel_flag: Arc::new(AtomicBool::new(false)),
            current_progress: 0,
            total_files: 0,
            current_file: String::new(),
            log_entries: log,
            scroll_to_bottom: false,
        };
        assert(r.log_view() =~= seq![
            if r.engine.cjxl_path is None {
                (LogLevel::Error, ConversionEngine::missing_encoder_text())
            } else {
                (LogLevel::Info, "cjxl found and ready."@)
            },
            if r.engine.djxl_path is None {
                (LogLevel::Error, ConversionEngine::missing_decoder_text())
            } else {
                (LogLevel::Info, "djxl found and ready."@)
            },
        ]);
        r
    }

    /// Appends `entry` to the log and asks the view to scroll to it.
    pub fn add_log(&mut self, entry: LogEntry)
        ensures
            final(self).same_choices(old(self)),
            final(self).log_view() == old(self).log_view().push(entry@),
            final(self).scroll_to_bottom,
            final(self).is_converting == old(self).is_converting,
            final(self).current_progress == old(self).current_progress,
            final(self).total_files == old(self).total_files,
            final(self).current_file == old(self).current_file,
    {
        self.log_entries.push(entry);
        self.scroll_to_bottom = true;
        assert(self.log_view() =~= old(self).log_view().push(entry@));
    }

    /// Asks the running job to stop before its next item.
    pub fn cancel_conversion(&mut self)
        ensures
            final(self).same_choices(old(self)),
            final(self).log_view() == old(self).log_view().push(
                (LogLevel::Warning, "Cancelling conversion..."@),
            ),
            final(self).scroll_to_bottom,
            final(self).is_converting == old(self).is_converting,
    {
        self.cancel_flag.store(true, Ordering::Relaxed);
        self.add_log(LogEntry::Warning(String::from_str("Cancelling conversion...")));
    }

    /// Checks that an encoding job can start and, if so, resets the progress and
    /// clears the cancellation switch. Returns whether the job is to be launched.
    pub fn start_conversion(&mut self) -> (launch: bool)
        ensures
            final(self).same_choices(old(self)),
            launch == (old(self).engine.cjxl_path is Some && old(self).input_paths@.len() > 0
                && old(self).settings.output_dir@.len() > 0),
            old(self).engine.cjxl_path is None ==> final(self).log_view() == old(
                self,
            ).log_view().push((LogLevel::Error, "cjxl is not available."@)),
            old(self).engine.cjxl_path is Some && old(self).input_paths@.len() == 0
                ==> final(self).log_view() == old(self).log_view().push(
                (LogLevel::Warning, "No input files or folders selected."@),
            ),
            old(self).engine.cjxl_path is Some && old(self).input_paths@.len() > 0 && old(
                self,
            ).settings.output_dir@.len() == 0 ==> final(self).log_view() == old(
                self,
            ).log_view().push((LogLevel::Warning, "No output directory selected."@)),
            !launch ==> final(self).is_converting == old(self).is_converting,
            launch ==> {
                &&& final(self).is_converting
                &&& final(self).current_progress == 0
                &&& final(self).total_files == 0
                &&& final(self).current_file@.len() == 0
                &&& final(self).log_view() == old(self).log_view().push(
                    (LogLevel::Info, "Conversion started..."@),
                )
            },
    {
        if !self.engine.is_available() {
            self.add_log(LogEntry::Error(String::from_str("cjxl is not available.")));
            return false;
        }
        if self.input_paths.len() == 0 {
            self.add_log(LogEntry::Warning(String::from_str("No input files or folders selected.")));
            return false;
        }
        if self.settings.output_dir.as_str().is_empty() {
            self.add_log(LogEntry::Warning(String::from_str("No output directory selected.")));
            return false;
        }
        self.reset_progress();
        self.add_log(LogEntry::Info(String::from_str("Conversion started...")));
        true
    }

    /// Checks that a decoding job can start and, if so, resets the progress and
    /// clears the cancellation switch. Returns whether the job is to be launched.
    pub fn start_decode(&mut self) -> (launch: bool)
        ensures
            final(self).same_choices(old(self)),
            launch == (old(self).engine.djxl_path is Some && old(self).decode_items@.len() > 0
                && old(self).decode_settings.output_dir@.len() > 0),
            old(self).engine.djxl_path is None ==> final(self).log_view() == old(
                self,
            ).log_view().push((LogLevel::Error, "djxl is not available."@)),
            old(self).engine.djxl_path is Some && old(self).decode_items@.len() == 0
                ==> final(self).log_view() == old(self).log_view().push(
                (LogLevel::Warning, "No JXL files selected."@),
            ),
            old(self).engine.djxl_path is Some && old(self).decode_items@.len() > 0 && old(
                self,
            ).decode_settings.output_dir@.len() == 0 ==> final(self).log_view() == old(
                self,
            ).log_view().push((LogLevel::Warning, "No output directory selected."@)),
            !launch ==> final(self).is_converting == old(self).is_converting,
            launch ==> {
                &&& final(self).is_converting
                &&& final(self).current_progress == 0
                &&& final(self).total_files == 0
                &&& final(self).current_file@.len() == 0
                &&& final(self).log_view() == old(self).log_view().push(
                    (LogLevel::Info, "Decoding started..."@),
                )
            },
    {
        if !self.engine.is_decode_available() {
            self.add_log(LogEntry::Error(String::from_str("djxl is not available.")));
            return false;
        }
        if self.decode_items.len() == 0 {
            self.add_log(LogEntry::Warning(String::from_str("No JXL files selected.")));
            return false;
        }
        if self.decode_settings.output_dir.as_str().is_empty() {
            self.add_log(LogEntry::Warning(String::from_str("No output directory selected.")));
            return false;
        }
        self.reset_progress();
        self.add_log(LogEntry::Info(String::from_str("Decoding started...")));
        true
    }

    fn reset_progress(&mut self)
        ensures
            final(self).same_choices(old(self)),
            final(self).log_view() == old(self).log_view(),
            final(self).is_converting,
            final(self).current_progress == 0,
            final(self).total_files == 0,
            final(self).current_file@.len() == 0,
    {
        self.is_converting = true;
        self.cancel_flag.store(false, Ordering::Relaxed);
        self.current_progress = 0;
        self.total_files = 0;
        self.current_file = String::new();
    }

    /// Takes in the reports that arrived since the last frame, in order.
    pub fn process_progress_messages(&mut self, messages: Vec<ProgressMessage>)
        ensures
            final(self).same_choices(old(self)),
            final(self).progress_state() == apply_events(
                old(self).progress_state(),
                messages@.map_values(|m: ProgressMessage| m@),
            ),
    {
        let ghost start = self.progress_state();
        let ghost all = messages@.map_values(|m: ProgressMessage| m@);
        let mut i: usize = 0;
        while i < messages.len()
            invariant
                i <= messages@.len(),
                all == messages@.map_values(|m: ProgressMessage| m@),
                self.same_choices(old(self)),
                self.progress_state() == apply_events(start, all.subrange(0, i as int)),
            decreases messages@.len() - i,
        {
            self.apply_message(&messages[i]);
            proof {
                assert(all.subrange(0, i + 1).drop_last() =~= all.subrange(0, i as int));
            }
            i = i + 1;
        }
        proof {
            assert(all.subrange(0, messages@.len() as int) =~= all);
        }
    }

    fn apply_message(&mut self, msg: &ProgressMessage)
        ensures
            final(self).same_choices(old(self)),
            final(self).progress_state() == apply_event(old(self).progress_state(), msg@),
    {
        let ghost before = self.progress_state();
        match msg {
            ProgressMessage::Started { total } => {
                self.total_files = *total;
                let mut t = String::from_str("Processing ");
                push_decimal(&mut t, *total as u64);
                push_str(&mut t, " file(s)...");
                self.add_log(LogEntry::Info(t));
            },
            ProgressMessage::Progress { current, total, file } => {
                self.current_progress = *current;
                self.total_files = *total;
                self.current_file = file.clone();
            },
            ProgressMessage::Success { file } => {
                let mut t = String::from_str("\u{2713} ");
                push_str(&mut t, file.as_str());
                self.add_log(LogEntry::Success(t));
            },
            ProgressMessage::Error { file, error } => {
                let mut t = String::from_str("\u{2717} ");
                push_str(&mut t, file.as_str());
                push_str(&mut t, ": ");
                push_str(&mut t, error.as_str());
                self.add_log(LogEntry::Error(t));
            },
            ProgressMessage::Skipped { file, reason } => {
                let mut t = String::from_str("\u{2298} ");
                push_str(&mut t, file.as_str());
                push_str(&mut t, ": ");
                push_str(&mut t, reason.as_str());
                self.add_log(LogEntry::Warning(t));
            },
            ProgressMessage::Completed => {
                self.is_converting = false;
                self.current_file = String::new();
                self.add_log(LogEntry::Info(String::from_str("Conversion completed.")));
            },
            ProgressMessage::Cancelled => {
                self.is_converting = false;
                self.current_file = String::new();
                self.add_log(LogEntry::Warning(String::from_str("Conversion cancelled.")));
            },
        }
        proof {
            let want = apply_event(before, msg@);
            assert(self.progress_state().log =~= want.log);
            assert(self.progress_state().file =~= want.file);
        }
    }

    /// The encoder command line that the current settings give, shown to the
    /// user with placeholder file names.
    pub fn generate_command_preview(&self, is_jpeg: bool) -> (r: String)
        ensures
            r@ == spaced(
                seq!["cjxl"@] + encode_flags(encode_options(self.settings), is_jpeg) + preview_files(
                    is_jpeg,
                ),
            ),
    {
        let mut parts: Vec<String> = Vec::new();
        parts.push(String::from_str("cjxl"));
        assert(parts.deep_view() =~= seq!["cjxl"@]);
        let opts = crate::invoke::EncodeOptions {
            lossless: self.settings.lossless,
            jpeg_lossless: self.settings.jpeg_lossless,
            quality: self.settings.quality,
            effort: self.settings.effort,
        };
        assert(opts == encode_options(self.settings));
        push_encode_flags(&mut parts, opts, is_jpeg);
        let ghost head = parts.deep_view();
        if is_jpeg {
            parts.push(String::from_str("input.jpg"));
        } else {
            parts.push(String::from_str("input.png"));
        }
        parts.push(String::from_str("output.jxl"));
        assert(parts.deep_view() =~= head + preview_files(is_jpeg));
        join_spaced(&parts)
    }

    /// Adds a path to the encoding selection, unless it is already selected.
    pub fn add_input_path(&mut self, path: String)
        ensures
            final(self).input_paths.deep_view() == with_path(old(self).input_paths.deep_view(), path@),
            final(self).settings == old(self).settings,
            final(self).decode_items == old(self).decode_items,
    {
        let mut i: usize = 0;
        while i < self.input_paths.len()
            invariant
                i <= self.input_paths@.len(),
                self.input_paths == old(self).input_paths,
                forall|j: int| 0 <= j < i ==> self.input_paths@[j]@ != path@,
            decreases self.input_paths@.len() - i,
        {
            if self.input_paths[i] == path {
                assert(self.input_paths.deep_view()[i as int] == path@);
                return;
            }
            i = i + 1;
        }
        proof {
            let ps = self.input_paths.deep_view();
            assert forall|j: int| 0 <= j < ps.len() implies ps[j] != path@ by {
                assert(ps[j] == self.input_paths@[j]@);
            }
        }
        self.input_paths.push(path);
        assert(self.input_paths.deep_view() =~= old(self).input_paths.deep_view().push(path@));
    }

    /// Adds a file to decode into the default format, unless it is already listed.
    pub fn add_decode_file(&mut self, path: String)
        ensures
            final(self).decode_view() == with_decode_file(
                old(self).decode_view(),
                path@,
                old(self).decode_settings.output_format,
            ),
            final(self).settings == old(self).settings,
            final(self).decode_settings == old(self).decode_settings,
            final(self).input_paths == old(self).input_paths,
    {
        let ghost items = self.decode_view();
        let mut i: usize = 0;
        while i < self.decode_items.len()
            invariant
                i <= self.decode_items@.len(),
                self.decode_items == old(self).decode_items,
                items == self.decode_view(),
                forall|j: int| 0 <= j < i ==> (#[trigger] items[j]).0 != path@,
            decreases self.decode_items@.len() - i,
        {
            if self.decode_items[i].path == path {
                assert(items[i as int].0 == path@);
                return;
            }
            i = i + 1;
        }
        let fmt = self.decode_settings.output_format;
        self.decode_items.push(DecodeItem { path, output_format: fmt });
        assert(self.decode_view() =~= items.push((path@, fmt)));
    }

    /// Adds, in turn, each file of `files` whose extension is `jxl` in any ASCII
    /// case (see `add_decode_file`).
    pub fn add_jxl_files(&mut self, files: Vec<String>)
        ensures
            final(self).decode_view() == with_jxl_files(
                old(self).decode_view(),
                files.deep_view(),
                old(self).decode_settings.output_format,
            ),
            final(self).settings == old(self).settings,
            final(self).decode_settings == old(self).decode_settings,
            final(self).input_paths == old(self).input_paths,
    {
        let ghost all = files.deep_view();
        let mut i: usize = 0;
        while i < files.len()
            invariant
                i <= files@.len(),
                all == files.deep_view(),
                self.settings == old(self).settings,
                self.decode_settings == old(self).decode_settings,
                self.input_paths == old(self).input_paths,
                self.decode_view() == with_jxl_files(
                    old(self).decode_view(),
                    all.subrange(0, i as int),
                    old(self).decode_settings.output_format,
                ),
            decreases files@.len() - i,
        {
            let jxl = match extension(files[i].as_str()) {
                Some(e) => matches_ignore_case(&chars_of(e.as_str()), "jxl"),
                None => false,
            };
            if jxl {
                self.add_decode_file(files[i].clone());
            }
            proof {
                let upto = all.subrange(0, i + 1);
                assert(upto.drop_last() =~= all.subrange(0, i as int));
                assert(upto.last() == files@[i as int]@);
            }
            i = i + 1;
        }
        proof {
            assert(all.subrange(0, files@.len() as int) =~= all);
        }
    }

    /// Whether an encoding job could be started now.
    pub fn can_start_encoding(&self) -> (r: bool)
        ensures
            r == (!self.is_converting && self.engine.cjxl_path is Some && self.input_paths@.len()
                > 0 && self.settings.output_dir@.len() > 0),
    {
        !self.is_converting && self.engine.is_available() && self.input_paths.len() > 0
            && !self.settings.output_dir.as_str().is_empty()
    }

    /// Whether a decoding job could be started now.
    pub fn can_start_decoding(&self) -> (r: bool)
        ensures
            r == (!self.is_converting && self.engine.djxl_path is Some && self.decode_items@.len()
                > 0 && self.decode_settings.output_dir@.len() > 0),
    {
        !self.is_converting && self.engine.is_decode_available() && self.decode_items.len() > 0
            && !self.decode_settings.output_dir.as_str().is_empty()
    }

    /// Makes `fmt` the default format and the format of every listed file.
    pub fn set_default_format(&mut self, fmt: OutputFormat)
        ensures
            final(self).decode_settings.output_format == fmt,
            final(self).decode_settings.output_dir == old(self).decode_settings.output_dir,
            final(self).decode_settings.recursive == old(self).decode_settings.recursive,
            final(self).decode_settings.keep_structure == old(self).decode_settings.keep_structure,
            final(self).decode_items@.len() == old(self).decode_items@.len(),
            forall|i: int|
                0 <= i < final(self).decode_items@.len() ==> (#[trigger] final(self).decode_items@[i]).path
                    == old(self).decode_items@[i].path && final(self).decode_items@[i].output_format
                    == fmt,
    {
        self.decode_settings.output_format = fmt;
        let mut items: Vec<DecodeItem> = Vec::new();
        std::mem::swap(&mut items, &mut self.decode_items);
        let ghost before = items@;
        let mut updated: Vec<DecodeItem> = Vec::new();
        let mut i: usize = 0;
        while i < items.len()
            invariant
                items@ == before,
                i <= before.len(),
                updated@.len() == i,
                forall|j: int|
                    0 <= j < i ==> (#[trigger] updated@[j]).path == before[j].path
                        && updated@[j].output_format == fmt,
            decreases before.len() - i,
        {
            updated.push(DecodeItem { path: items[i].path.clone(), output_format: fmt });
            i = i + 1;
        }
        self.decode_items = updated;
    }
}

} // verus!
