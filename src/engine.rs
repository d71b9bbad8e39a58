//! The conversion engine: where the external tools are, which files a job takes,
//! and the runner that carries a job out.
use vstd::prelude::*;
use crate::paths::{extension, parent, parent_of, starts_with};
use crate::select::{
    all_under, ascend, candidate_dir, common_base, is_supported_path, lemma_all_under_parent,
    lemma_ascend_none, lemma_ascend_skip, lemma_starts_with_refl, matches_ignore_case,
    supported_files, InputPath,
};
use crate::batch::{BatchRunner, BatchState, Source, Tool};
use crate::invoke::{EncodeOptions, Target};
use crate::text::chars_of;
use crate::types::{ConversionSettings, DecodeItem, DecodeSettings};

verus! {

/// Where the encoder (`cjxl`) and the decoder (`djxl`) were found, if anywhere.
pub struct ConversionEngine {
    pub cjxl_path: Option<String>,
    pub djxl_path: Option<String>,
}

/// The directory that `e` contributes to the common base.
fn candidate(e: &InputPath) -> (r: Option<String>)
    ensures
        r matches Some(c) <==> candidate_dir(*e) is Some,
        r matches Some(c) ==> candidate_dir(*e)->0 == c@,
{
    if e.is_file {
        parent(e.path.as_str())
    } else {
        Some(e.path.clone())
    }
}

/// The encoder options that a job's settings call for.
pub open spec fn encode_options(s: ConversionSettings) -> EncodeOptions {
    EncodeOptions {
        lossless: s.lossless,
        jpeg_lossless: s.jpeg_lossless,
        quality: s.quality,
        effort: s.effort,
    }
}

fn copy_path(p: &Option<String>) -> (r: Option<String>)
    ensures
        r == *p,
{
    match p {
        Some(s) => Some(s.clone()),
        None => None,
    }
}

impl ConversionEngine {
    /// An engine using the tools at the given locations.
    pub fn new(cjxl_path: Option<String>, djxl_path: Option<String>) -> (r: Self)
        ensures
            r.cjxl_path == cjxl_path,
            r.djxl_path == djxl_path,
    {
        ConversionEngine { cjxl_path, djxl_path }
    }

    pub fn is_available(&self) -> (r: bool)
        ensures
            r == self.cjxl_path is Some,
    {
        self.cjxl_path.is_some()
    }

    pub fn is_decode_available(&self) -> (r: bool)
        ensures
            r == self.djxl_path is Some,
    {
        self.djxl_path.is_some()
    }

    pub open spec fn missing_encoder_text() -> Seq<char> {
        "cjxl executable not found. Please place it in the 'tools' folder or ensure it's in PATH."@
    }

    pub open spec fn missing_decoder_text() -> Seq<char> {
        "djxl executable not found. Please place it in the 'tools' folder or ensure it's in PATH."@
    }

    /// Why encoding cannot start, if it cannot.
    pub fn get_error(&self) -> (r: Option<String>)
        ensures
            r is Some <==> self.cjxl_path is None,
            r matches Some(m) ==> m@ == Self::missing_encoder_text(),
    {
        if self.cjxl_path.is_none() {
            Some(
                String::from_str(
                    "cjxl executable not found. Please place it in the 'tools' folder or ensure it's in PATH.",
                ),
            )
        } else {
            None
        }
    }

    /// Why decoding cannot start, if it cannot.
    pub fn get_decode_error(&self) -> (r: Option<String>)
        ensures
            r is Some <==> self.djxl_path is None,
            r matches Some(m) ==> m@ == Self::missing_decoder_text(),
    {
        if self.djxl_path.is_none() {
            Some(
                String::from_str(
                    "djxl executable not found. Please place it in the 'tools' folder or ensure it's in PATH.",
                ),
            )
        } else {
            None
        }
    }

    /// Whether the encoder takes `path`, judged by its extension, ignoring ASCII case.
    pub fn is_supported_image(&self, path: &str) -> (r: bool)
        ensures
            r == is_supported_path(path@),
    {
        match extension(path) {
            Some(e) => {
                let v = chars_of(e.as_str());
                matches_ignore_case(&v, "jpg") || matches_ignore_case(&v, "jpeg")
                    || matches_ignore_case(&v, "png") || matches_ignore_case(&v, "gif")
                    || matches_ignore_case(&v, "bmp") || matches_ignore_case(&v, "tiff")
                    || matches_ignore_case(&v, "tif") || matches_ignore_case(&v, "webp")
                    || matches_ignore_case(&v, "ppm") || matches_ignore_case(&v, "pgm")
                    || matches_ignore_case(&v, "pnm")
            },
            None => false,
        }
    }

    /// The deepest directory holding every selected path (see `common_base`).
    pub fn find_common_base(&self, paths: &Vec<InputPath>) -> (r: Option<String>)
        ensures
            r matches Some(b) <==> common_base(paths@) is Some,
            r matches Some(b) ==> common_base(paths@) == Some(b@),
    {
        let ghost ps = paths@;
        if paths.len() == 0 {
            return None;
        }
        let mut base = match candidate(&paths[0]) {
            Some(b) => b,
            None => return None,
        };
        let ghost first = base@;
        proof {
            lemma_starts_with_refl(first);
            assert(all_under(ps.subrange(0, 1), first));
        }
        let mut i: usize = 1;
        while i < paths.len()
            invariant
                ps == paths@,
                1 <= i <= ps.len(),
                candidate_dir(ps[0]) == Some(first),
                forall|j: int| 0 <= j < i ==> (#[trigger] candidate_dir(ps[j])) is Some,
                ascend(first, ps.subrange(0, i as int)) == Some(base@),
                all_under(ps.subrange(0, i as int), base@),
            decreases ps.len() - i,
        {
            let check = match candidate(&paths[i]) {
                Some(c) => c,
                None => return None,
            };
            let ghost done = ps.subrange(0, i as int);
            let ghost upto = ps.subrange(0, i + 1);
            proof {
                assert(done =~= upto.subrange(0, i as int));
                lemma_ascend_skip(first, upto, i as int);
            }
            while !starts_with(check.as_str(), base.as_str())
                invariant
                    ps == paths@,
                    1 <= i < ps.len(),
                    done == ps.subrange(0, i as int),
                    upto == ps.subrange(0, i + 1),
                    done =~= upto.subrange(0, i as int),
                    candidate_dir(ps[0]) == Some(first),
                    candidate_dir(ps[i as int]) == Some(check@),
                    ascend(first, upto) == ascend(base@, upto),
                    all_under(done, base@),
                decreases base@.len(),
            {
                proof {
                    assert(upto[i as int] == ps[i as int]);
                    assert(!all_under(upto, base@));
                }
                let ghost old_base = base@;
                base = match parent(base.as_str()) {
                    Some(q) => q,
                    None => {
                        proof {
                            assert(parent_of(old_base) is None);
                            assert(ascend(old_base, upto) is None);
                            lemma_ascend_none(first, ps, i + 1);
                        }
                        return None;
                    },
                };
                proof {
                    crate::select::lemma_parent(old_base);
                    lemma_all_under_parent(done, old_base);
                }
            }
            proof {
                assert forall|j: int| 0 <= j < upto.len() implies crate::paths::starts_with_path(
                    #[trigger] candidate_dir(upto[j])->0,
                    base@,
                ) by {
                    if j < i {
                        assert(upto[j] == done[j]);
                    }
                }
            }
            i = i + 1;
        }
        proof {
            assert(ps.subrange(0, ps.len() as int) =~= ps);
        }
        Some(base)
    }

    /// The runner for an encoding job. `input_paths` is the user's selection;
    /// `files` the plain files found from it, of which those with a supported
    /// extension make up the work list, in order.
    pub fn convert_batch(
        &self,
        input_paths: Vec<InputPath>,
        files: Vec<String>,
        settings: ConversionSettings,
    ) -> (r: BatchRunner)
        ensures
            r.wf(),
            r.state == BatchState::Idle,
            r.tool == Tool::Encoder,
            r.tool_path == self.cjxl_path,
            r.files() == supported_files(files.deep_view()),
            forall|i: int|
                0 <= i < r.sources@.len() ==> #[trigger] r.sources@[i].target == Target::Jxl(
                    encode_options(settings),
                ),
            r.output_dir@ == settings.output_dir@,
            r.keep_structure == settings.keep_structure,
            r.base.deep_view() == (if settings.keep_structure {
                common_base(input_paths@)
            } else {
                None
            }),
    {
        let opts = EncodeOptions {
            lossless: settings.lossless,
            jpeg_lossless: settings.jpeg_lossless,
            quality: settings.quality,
            effort: settings.effort,
        };
        let ghost all = files.deep_view();
        let mut sources: Vec<Source> = Vec::new();
        let mut i: usize = 0;
        while i < files.len()
            invariant
                all == files.deep_view(),
                i <= files@.len(),
                sources@.map_values(|s: Source| s.path@) == supported_files(
                    all.subrange(0, i as int),
                ),
                forall|j: int|
                    0 <= j < sources@.len() ==> #[trigger] sources@[j].target == Target::Jxl(opts),
            decreases files@.len() - i,
        {
            let ghost before = sources@;
            if self.is_supported_image(files[i].as_str()) {
                sources.push(Source { path: files[i].clone(), target: Target::Jxl(opts) });
            }
            proof {
                reveal(Seq::filter);
                let upto = all.subrange(0, i + 1);
                assert(upto.drop_last() =~= all.subrange(0, i as int));
                assert(upto.last() == files@[i as int]@);
                assert(sources@.map_values(|s: Source| s.path@) =~= supported_files(upto));
            }
            i = i + 1;
        }
        proof {
            assert(all.subrange(0, files@.len() as int) =~= all);
        }
        let base = if settings.keep_structure {
            self.find_common_base(&input_paths)
        } else {
            None
        };
        BatchRunner::new(
            Tool::Encoder,
            copy_path(&self.cjxl_path),
            sources,
            settings.output_dir,
            settings.keep_structure,
            base,
        )
    }

    /// The runner for a decoding job. Every item is decoded, in order, into its
    /// own format; `selected` holds the items' paths as the filesystem reports
    /// them, from which the common base is found.
    pub fn decode_batch(
        &self,
        decode_items: Vec<DecodeItem>,
        selected: Vec<InputPath>,
        settings: DecodeSettings,
    ) -> (r: BatchRunner)
        ensures
            r.wf(),
            r.state == BatchState::Idle,
            r.tool == Tool::Decoder,
            r.tool_path == self.djxl_path,
            r.sources@.len() == decode_items@.len(),
            forall|i: int|
                0 <= i < decode_items@.len() ==> {
                    &&& (#[trigger] r.sources@[i]).path@ == decode_items@[i].path@
                    &&& r.sources@[i].target == Target::Raster(decode_items@[i].output_format)
                },
            r.output_dir@ == settings.output_dir@,
            r.keep_structure == settings.keep_structure,
            r.base.deep_view() == (if settings.keep_structure {
                common_base(selected@)
            } else {
                None
            }),
    {
        let mut sources: Vec<Source> = Vec::new();
        let mut i: usize = 0;
        while i < decode_items.len()
            invariant
                i <= decode_items@.len(),
                sources@.len() == i,
                forall|j: int|
                    0 <= j < i ==> {
                        &&& (#[trigger] sources@[j]).path@ == decode_items@[j].path@
                        &&& sources@[j].target == Target::Raster(decode_items@[j].output_format)
                    },
            decreases decode_items@.len() - i,
        {
            let item = &decode_items[i];
            sources.push(
                Source { path: item.path.clone(), target: Target::Raster(item.output_format) },
            );
            i = i + 1;
        }
        let base = if settings.keep_structure {
            self.find_common_base(&selected)
        } else {
            None
        };
        BatchRunner::new(
            Tool::Decoder,
            copy_path(&self.djxl_path),
            sources,
            settings.output_dir,
            settings.keep_structure,
            base,
        )
    }
}

} // verus!
