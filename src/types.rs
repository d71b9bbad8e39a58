//! Settings, work descriptions and the messages a batch reports.
use vstd::prelude::*;

verus! {

/// Raster formats that a JPEG XL file can be decoded into.
#[derive(Clone, Copy, PartialEq, Eq, Debug, Structural)]
pub enum OutputFormat {
    Png,
    Jpeg,
    Ppm,
    Pgm,
    Pbm,
}

impl OutputFormat {
    /// File extension written for this format.
    pub open spec fn spec_extension(self) -> Seq<char> {
        match self {
            OutputFormat::Png => "png"@,
            OutputFormat::Jpeg => "jpg"@,
            OutputFormat::Ppm => "ppm"@,
            OutputFormat::Pgm => "pgm"@,
            OutputFormat::Pbm => "pbm"@,
        }
    }

    /// Name shown to the user for this format.
    pub open spec fn spec_name(self) -> Seq<char> {
        match self {
            OutputFormat::Png => "PNG"@,
            OutputFormat::Jpeg => "JPEG"@,
            OutputFormat::Ppm => "PPM"@,
            OutputFormat::Pgm => "PGM"@,
            OutputFormat::Pbm => "PBM"@,
        }
    }

    pub fn extension(&self) -> (r: &'static str)
        ensures
            r@ == self.spec_extension(),
    {
        match self {
            OutputFormat::Png => "png",
            OutputFormat::Jpeg => "jpg",
            OutputFormat::Ppm => "ppm",
            OutputFormat::Pgm => "pgm",
            OutputFormat::Pbm => "pbm",
        }
    }

    pub fn name(&self) -> (r: &'static str)
        ensures
            r@ == self.spec_name(),
    {
        match self {
            OutputFormat::Png => "PNG",
            OutputFormat::Jpeg => "JPEG",
            OutputFormat::Ppm => "PPM",
            OutputFormat::Pgm => "PGM",
            OutputFormat::Pbm => "PBM",
        }
    }

    /// Every format, in the order offered to the user.
    pub fn all() -> (r: &'static [OutputFormat])
        ensures
            r@ == seq![
                OutputFormat::Png,
                OutputFormat::Jpeg,
                OutputFormat::Ppm,
                OutputFormat::Pgm,
                OutputFormat::Pbm,
            ],
    {
        let r: &'static [OutputFormat] = &[
            OutputFormat::Png,
            OutputFormat::Jpeg,
            OutputFormat::Ppm,
            OutputFormat::Pgm,
            OutputFormat::Pbm,
        ];
        assert(r@ =~= seq![
            OutputFormat::Png,
            OutputFormat::Jpeg,
            OutputFormat::Ppm,
            OutputFormat::Pgm,
            OutputFormat::Pbm,
        ]);
        r
    }
}

/// Settings of one encoding job.
#[derive(Clone)]
pub struct ConversionSettings {
    pub output_dir: String,
    pub lossless: bool,
    pub jpeg_lossless: bool,
    /// Encoder quality, 1 to 100.
    pub quality: u8,
    /// Encoder effort, 1 to 9.
    pub effort: u8,
    pub recursive: bool,
    pub keep_structure: bool,
}

impl ConversionSettings {
    /// The settings a session starts with: no output directory, lossy at quality
    /// 90 with lossless recompression of JPEG input, effort 7, recursive, flat.
    pub open spec fn is_initial(&self) -> bool {
        &&& self.output_dir@ == Seq::<char>::empty()
        &&& !self.lossless
        &&& self.jpeg_lossless
        &&& self.quality == 90
        &&& self.effort == 7
        &&& self.recursive
        &&& !self.keep_structure
    }
}

impl Default for ConversionSettings {
    fn default() -> (r: Self)
        ensures
            r.is_initial(),
    {
        ConversionSettings {
            output_dir: String::new(),
            lossless: false,
            jpeg_lossless: true,
            quality: 90,
            effort: 7,
            recursive: true,
            keep_structure: false,
        }
    }
}

/// Settings of one decoding job.
#[derive(Clone)]
pub struct DecodeSettings {
    pub output_dir: String,
    /// Format given to newly added files.
    pub output_format: OutputFormat,
    pub recursive: bool,
    pub keep_structure: bool,
}

impl DecodeSettings {
    /// The settings a session starts with: no output directory, PNG, recursive, flat.
    pub open spec fn is_initial(&self) -> bool {
        &&& self.output_dir@ == Seq::<char>::empty()
        &&& self.output_format == OutputFormat::Png
        &&& self.recursive
        &&& !self.keep_structure
    }
}

impl Default for DecodeSettings {
    fn default() -> (r: Self)
        ensures
            r.is_initial(),
    {
        DecodeSettings {
            output_dir: String::new(),
            output_format: OutputFormat::Png,
            recursive: true,
            keep_structure: false,
        }
    }
}

/// A JPEG XL file to decode, with the format to decode it into.
#[derive(Clone)]
pub struct DecodeItem {
    pub path: String,
    pub output_format: OutputFormat,
}

/// What a batch reports to its caller.
#[derive(Clone, Debug)]
pub enum ProgressMessage {
    Started { total: usize },
    Progress { current: usize, total: usize, file: String },
    Success { file: String },
    Error { file: String, error: String },
    Skipped { file: String, reason: String },
    Completed,
    Cancelled,
}

/// A progress message as a mathematical value.
pub enum Event {
    Started { total: nat },
    Progress { current: nat, total: nat, file: Seq<char> },
    Success { file: Seq<char> },
    Error { file: Seq<char>, error: Seq<char> },
    Skipped { file: Seq<char>, reason: Seq<char> },
    Completed,
    Cancelled,
}

impl View for ProgressMessage {
    type V = Event;

    open spec fn view(&self) -> Event {
        match self {
            ProgressMessage::Started { total } => Event::Started { total: *total as nat },
            ProgressMessage::Progress { current, total, file } => Event::Progress {
                current: *current as nat,
                total: *total as nat,
                file: file@,
            },
            ProgressMessage::Success { file } => Event::Success { file: file@ },
            ProgressMessage::Error { file, error } => Event::Error { file: file@, error: error@ },
            ProgressMessage::Skipped { file, reason } => Event::Skipped {
                file: file@,
                reason: reason@,
            },
            ProgressMessage::Completed => Event::Completed,
            ProgressMessage::Cancelled => Event::Cancelled,
        }
    }
}

/// One line of the activity log.
#[derive(Clone, Debug)]
pub enum LogEntry {
    Info(String),
    Success(String),
    Error(String),
    Warning(String),
}

/// The severity of a log line, without its text.
#[derive(Clone, Copy, PartialEq, Eq, Debug, Structural)]
pub enum LogLevel {
    Info,
    Success,
    Error,
    Warning,
}

impl View for LogEntry {
    type V = (LogLevel, Seq<char>);

    open spec fn view(&self) -> (LogLevel, Seq<char>) {
        match self {
            LogEntry::Info(s) => (LogLevel::Info, s@),
            LogEntry::Success(s) => (LogLevel::Success, s@),
            LogEntry::Error(s) => (LogLevel::Error, s@),
            LogEntry::Warning(s) => (LogLevel::Warning, s@),
        }
    }
}

} // verus!
