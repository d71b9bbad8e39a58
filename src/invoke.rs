//! One conversion of one file: where its result goes, the tool's arguments, and
//! what the tool's exit means.
use vstd::prelude::*;
use crate::paths::{
    extension, file_name_of, join, join_path, replace_extension, strip_base, strip_prefix,
    with_extension,
};
use crate::select::{is_jpeg_path, matches_ignore_case};
use crate::text::{chars_of, decimal, decimal_text, push_str};
use crate::types::OutputFormat;

verus! {

/// Encoder settings that shape the command line.
#[derive(Clone, Copy, PartialEq, Eq, Debug, Structural)]
pub struct EncodeOptions {
    pub lossless: bool,
    pub jpeg_lossless: bool,
    pub quality: u8,
    pub effort: u8,
}

/// What a file is converted into.
#[derive(Clone, Copy, PartialEq, Eq, Debug, Structural)]
pub enum Target {
    /// Encoded into JPEG XL.
    Jxl(EncodeOptions),
    /// Decoded from JPEG XL into a raster format.
    Raster(OutputFormat),
}

impl Target {
    pub open spec fn spec_extension(self) -> Seq<char> {
        match self {
            Target::Jxl(_) => "jxl"@,
            Target::Raster(f) => f.spec_extension(),
        }
    }

    /// The name of the tool that performs the conversion.
    pub open spec fn spec_tool_name(self) -> Seq<char> {
        match self {
            Target::Jxl(_) => "cjxl"@,
            Target::Raster(_) => "djxl"@,
        }
    }

    /// Extension of the files this target produces.
    pub fn extension(&self) -> (r: &'static str)
        ensures
            r@ == self.spec_extension(),
    {
        match self {
            Target::Jxl(_) => "jxl",
            Target::Raster(f) => f.extension(),
        }
    }
}

/// Where the result for `input` goes: below `output_dir`, under the path relative
/// to `base` when the structure is kept and `input` lies below `base`, otherwise
/// under its bare name; with its extension replaced by `ext`.
pub open spec fn destination(
    output_dir: Seq<char>,
    input: Seq<char>,
    keep_structure: bool,
    base: Option<Seq<char>>,
    ext: Seq<char>,
) -> Seq<char> {
    let rel = if keep_structure && base is Some && strip_base(input, base->0) is Some {
        strip_base(input, base->0)->0
    } else {
        file_name_of(input)
    };
    replace_extension(join_path(output_dir, rel), ext)
}

/// The destination of `input` (see `destination`).
pub fn resolve_output_path(
    output_dir: &str,
    input: &str,
    keep_structure: bool,
    base: &Option<String>,
    ext: &str,
) -> (r: String)
    ensures
        r@ == destination(output_dir@, input@, keep_structure, base.deep_view(), ext@),
{
    let rel = match base {
        Some(b) => if keep_structure {
            match strip_prefix(input, b.as_str()) {
                Some(rel) => rel,
                None => crate::paths::file_name(input),
            }
        } else {
            crate::paths::file_name(input)
        },
        None => crate::paths::file_name(input),
    };
    let joined = join(output_dir, rel.as_str());
    with_extension(joined.as_str(), ext)
}

/// The flags that choose between lossless and lossy encoding. The job-wide
/// lossless switch comes first; the JPEG-only one applies to JPEG input alone.
pub open spec fn quality_flags(o: EncodeOptions, jpeg: bool) -> Seq<Seq<char>> {
    if o.lossless {
        if jpeg {
            seq!["--lossless_jpeg=1"@]
        } else {
            seq!["-d"@, "0"@]
        }
    } else if jpeg && o.jpeg_lossless {
        seq!["--lossless_jpeg=1"@]
    } else {
        seq!["-q"@, decimal_text(o.quality as nat)]
    }
}

/// The encoder's flags: quality or lossless choice, then the effort, always.
pub open spec fn encode_flags(o: EncodeOptions, jpeg: bool) -> Seq<Seq<char>> {
    quality_flags(o, jpeg) + seq!["-e"@, decimal_text(o.effort as nat)]
}

/// The tool's whole argument list for converting `input` (resolved to `abs_input`)
/// into `abs_output`.
pub open spec fn tool_arguments(
    target: Target,
    input: Seq<char>,
    abs_input: Seq<char>,
    abs_output: Seq<char>,
) -> Seq<Seq<char>> {
    match target {
        Target::Jxl(o) => seq![abs_input, abs_output] + encode_flags(o, is_jpeg_path(input)),
        Target::Raster(_) => seq![abs_input, abs_output],
    }
}

/// Whether `path` names a JPEG file, judged by its extension.
pub fn is_jpeg(path: &str) -> (r: bool)
    ensures
        r == is_jpeg_path(path@),
{
    match extension(path) {
        Some(e) => {
            let v = chars_of(e.as_str());
            matches_ignore_case(&v, "jpg") || matches_ignore_case(&v, "jpeg")
        },
        None => false,
    }
}

/// Appends the encoder's flags to `args`.
pub fn push_encode_flags(args: &mut Vec<String>, o: EncodeOptions, jpeg: bool)
    ensures
        final(args).deep_view() == old(args).deep_view() + encode_flags(o, jpeg),
{
    if o.lossless {
        if jpeg {
            args.push(String::from_str("--lossless_jpeg=1"));
        } else {
            args.push(String::from_str("-d"));
            args.push(String::from_str("0"));
        }
    } else if jpeg && o.jpeg_lossless {
        args.push(String::from_str("--lossless_jpeg=1"));
    } else {
        args.push(String::from_str("-q"));
        args.push(decimal(o.quality as u64));
    }
    args.push(String::from_str("-e"));
    args.push(decimal(o.effort as u64));
    assert(final(args).deep_view() =~= old(args).deep_view() + encode_flags(o, jpeg));
}

/// The tool's argument list for one file.
pub fn arguments(target: Target, input: &str, abs_input: &str, abs_output: &str) -> (r: Vec<
    String,
>)
    ensures
        r.deep_view() == tool_arguments(target, input@, abs_input@, abs_output@),
{
    let mut args: Vec<String> = Vec::new();
    args.push(String::from_str(abs_input));
    args.push(String::from_str(abs_output));
    assert(args.deep_view() =~= seq![abs_input@, abs_output@]);
    match target {
        Target::Jxl(o) => {
            let jpeg = is_jpeg(input);
            push_encode_flags(&mut args, o, jpeg);
        },
        Target::Raster(_) => {},
    }
    args
}

/// The step of one conversion that went wrong.
#[derive(Clone, Copy, PartialEq, Eq, Debug, Structural)]
pub enum FailureKind {
    /// The output directory could not be created.
    CreateOutputDir,
    /// The input could not be resolved to an absolute path.
    ResolveInput,
    /// The existing output could not be resolved to an absolute path.
    ResolveOutput,
    /// The output directory could not be resolved to an absolute path.
    ResolveOutputDir,
    /// The tool could not be started.
    Launch,
    /// The tool ran and exited unsuccessfully.
    Exit,
}

/// Why one file could not be converted: the step, and what the system or the
/// tool said.
#[derive(Clone, Debug)]
pub struct ItemFailure {
    pub kind: FailureKind,
    pub detail: String,
}

/// The message reported for a failure of `tool`.
pub open spec fn failure_text(kind: FailureKind, tool: Seq<char>, detail: Seq<char>) -> Seq<char> {
    match kind {
        FailureKind::CreateOutputDir => "Failed to create output directory: "@ + detail,
        FailureKind::ResolveInput => "Failed to resolve input path: "@ + detail,
        FailureKind::ResolveOutput => "Failed to resolve output path: "@ + detail,
        FailureKind::ResolveOutputDir => "Failed to resolve output directory: "@ + detail,
        FailureKind::Launch => "Failed to execute "@ + tool + ": "@ + detail,
        FailureKind::Exit => tool + " failed: "@ + detail,
    }
}

impl ItemFailure {
    /// The message reported for this failure of `tool`.
    pub fn message(&self, tool: &str) -> (r: String)
        ensures
            r@ == failure_text(self.kind, tool@, self.detail@),
    {
        let mut r = String::new();
        match self.kind {
            FailureKind::CreateOutputDir => push_str(&mut r, "Failed to create output directory: "),
            FailureKind::ResolveInput => push_str(&mut r, "Failed to resolve input path: "),
            FailureKind::ResolveOutput => push_str(&mut r, "Failed to resolve output path: "),
            FailureKind::ResolveOutputDir => push_str(&mut r, "Failed to resolve output directory: "),
            FailureKind::Launch => {
                push_str(&mut r, "Failed to execute ");
                push_str(&mut r, tool);
                push_str(&mut r, ": ");
            },
            FailureKind::Exit => {
                push_str(&mut r, tool);
                push_str(&mut r, " failed: ");
            },
        }
        push_str(&mut r, self.detail.as_str());
        assert(r@ =~= failure_text(self.kind, tool@, self.detail@));
        r
    }
}

/// What the tool's exit means for the file: success hands back the absolute
/// output path; any unsuccessful exit is a failure carrying the tool's error
/// output, whatever that output holds.
pub fn exit_outcome(abs_output: String, exit_success: bool, stderr: String) -> (r: Result<
    String,
    ItemFailure,
>)
    ensures
        exit_success ==> (r matches Ok(o) && o@ == abs_output@),
        !exit_success ==> (r matches Err(f) && f.kind == FailureKind::Exit && f.detail@
            == stderr@),
{
    if exit_success {
        Ok(abs_output)
    } else {
        Err(ItemFailure { kind: FailureKind::Exit, detail: stderr })
    }
}

} // verus!
