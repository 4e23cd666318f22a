//! The configuration resolver.
//!
//! The configuration is handed in as an already loaded, loosely typed
//! document value ([`ConfigValue`]): a mapping with a `files` list and
//! optional top-level defaults. [`parse_config`] resolves it into one
//! [`FileWatch`] per entry — source path, output path and a fully resolved
//! set of transformation jobs — where per-file fields override the top-level
//! defaults field by field.
//!
//! The whole resolution is modelled by the spec function [`resolve_doc`];
//! the executable resolver is proved to return exactly what the model says,
//! for every document.

use vstd::prelude::*;

use crate::paths::{default_output_path, derived_output, has_output_form};
use crate::text::str_eq;

verus! {

/// A loosely typed document value, as a configuration file yields it.
#[derive(Debug)]
pub enum ConfigValue {
    Null,
    Bool(bool),
    Int(i64),
    /// A fractional scalar, carried as the text it was written as; the
    /// resolver moves it around without interpreting it.
    Real(String),
    Str(String),
    List(Vec<ConfigValue>),
    Mapping(Vec<(String, ConfigValue)>),
}

/// Which axes a resize constrains; an absent axis is unconstrained.
#[derive(Debug, Clone, Copy, PartialEq, Eq, Structural)]
pub enum Size {
    Width(u32),
    Height(u32),
    WidthHeight(u32, u32),
}

/// A resize job.
#[derive(Debug, Clone, Copy, PartialEq, Eq, Structural)]
pub struct Resize {
    pub size: Size,
}

/// The closed set of resize filters the pipeline knows.
#[derive(Debug, Clone, Copy, PartialEq, Eq, Structural)]
pub enum FilterKind {
    Nearest,
    Triangle,
    CatmullRom,
    Gaussian,
    Lanczos3,
}

/// The optional transformation jobs of one file; every field defaults to
/// disabled.
#[derive(Debug, Clone, PartialEq, Eq)]
pub struct ImgEditJobs {
    pub resize: Option<Resize>,
    /// Blur sigma, carried as the text it was written as.
    pub blur: Option<String>,
    pub flipv: bool,
    pub fliph: bool,
    pub rotate90: bool,
    pub rotate180: bool,
    pub rotate270: bool,
    pub grayscale: bool,
    pub invert: bool,
}

/// Jobs together with the resize filter choice.
#[derive(Debug, Clone, PartialEq, Eq)]
pub struct SharedSettings {
    pub jobs: ImgEditJobs,
    pub resize_filter: Option<FilterKind>,
}

/// One fully resolved watched file.
#[derive(Debug, Clone, PartialEq)]
pub struct FileWatch {
    pub path: String,
    pub output: String,
    pub other: SharedSettings,
}

/// The resolved configuration: all files, plus the top-level defaults.
#[derive(Debug, Clone, PartialEq)]
pub struct Settings {
    pub files_list: Vec<FileWatch>,
    pub other: SharedSettings,
}

/// Why a configuration is rejected.
#[derive(Debug, Clone, PartialEq)]
pub enum ConfigError {
    /// The document or one of its parts has not the expected shape; the
    /// payload names the part.
    MalformedStructure(String),
    /// A required key is absent; the payload names the key.
    MissingField(String),
    /// A key holds a value of the wrong type or range; the payload names the
    /// key.
    InvalidField(String),
    /// `resize_filter` names no known filter; the payload is the offending
    /// value.
    UnknownFilter(String),
    /// A resize filter is requested but neither `width` nor `height` is set
    /// anywhere.
    MissingDimensions,
    /// No default output path can be derived; the payload is the source
    /// path.
    MalformedPath(String),
}

/// Mathematical form of [`ConfigError`].
#[verifier::ext_equal]
pub enum CfgErrModel {
    MalformedStructure(Seq<char>),
    MissingField(Seq<char>),
    InvalidField(Seq<char>),
    UnknownFilter(Seq<char>),
    MissingDimensions,
    MalformedPath(Seq<char>),
}

impl View for ConfigError {
    type V = CfgErrModel;

    open spec fn view(&self) -> CfgErrModel {
        match self {
            ConfigError::MalformedStructure(s) => CfgErrModel::MalformedStructure(s@),
            ConfigError::MissingField(s) => CfgErrModel::MissingField(s@),
            ConfigError::InvalidField(s) => CfgErrModel::InvalidField(s@),
            ConfigError::UnknownFilter(s) => CfgErrModel::UnknownFilter(s@),
            ConfigError::MissingDimensions => CfgErrModel::MissingDimensions,
            ConfigError::MalformedPath(s) => CfgErrModel::MalformedPath(s@),
        }
    }
}

/// Mathematical form of [`FileWatch`].
#[verifier::ext_equal]
pub struct FileModel {
    pub path: Seq<char>,
    pub output: Seq<char>,
    pub other: SharedSettings,
}

impl View for FileWatch {
    type V = FileModel;

    open spec fn view(&self) -> FileModel {
        FileModel { path: self.path@, output: self.output@, other: self.other }
    }
}

/// Mathematical form of [`Settings`].
#[verifier::ext_equal]
pub struct SettingsModel {
    pub files_list: Seq<FileModel>,
    pub other: SharedSettings,
}

impl View for Settings {
    type V = SettingsModel;

    open spec fn view(&self) -> SettingsModel {
        SettingsModel { files_list: files_view(self.files_list@), other: self.other }
    }
}

pub open spec fn files_view(s: Seq<FileWatch>) -> Seq<FileModel> {
    s.map_values(|f: FileWatch| f@)
}

/// An executable result agrees with its model when both sides succeed with
/// equal values or fail with the same error.
pub open spec fn result_matches<T>(r: Result<T, ConfigError>, m: Result<T, CfgErrModel>) -> bool {
    match (r, m) {
        (Ok(a), Ok(b)) => a == b,
        (Err(e), Err(me)) => e@ == me,
        _ => false,
    }
}

// ---------------------------------------------------------------------------
// The resolution model.
// ---------------------------------------------------------------------------

/// The value of `key` in a mapping: the first entry whose key matches.
pub open spec fn map_lookup(entries: Seq<(String, ConfigValue)>, key: Seq<char>) -> Option<
    ConfigValue,
>
    decreases entries.len(),
{
    if entries.len() == 0 {
        None
    } else if entries[0].0@ == key {
        Some(entries[0].1)
    } else {
        map_lookup(entries.drop_first(), key)
    }
}

/// Per-file settings take precedence; only a key entirely absent from the
/// file entry falls back to the top-level defaults.
pub open spec fn effective_value(
    file: Seq<(String, ConfigValue)>,
    glob: Seq<(String, ConfigValue)>,
    key: Seq<char>,
) -> Option<ConfigValue> {
    match map_lookup(file, key) {
        Some(v) => Some(v),
        None => map_lookup(glob, key),
    }
}

/// A boolean job flag: absent means `false`, anything but a boolean is
/// rejected.
pub open spec fn bool_field(
    file: Seq<(String, ConfigValue)>,
    glob: Seq<(String, ConfigValue)>,
    key: Seq<char>,
) -> Result<bool, CfgErrModel> {
    match effective_value(file, glob, key) {
        None => Ok(false),
        Some(ConfigValue::Bool(b)) => Ok(b),
        Some(_) => Err(CfgErrModel::InvalidField(key)),
    }
}

/// The blur sigma: absent means no blur, anything but a fractional scalar is
/// rejected.
pub open spec fn blur_field(
    file: Seq<(String, ConfigValue)>,
    glob: Seq<(String, ConfigValue)>,
) -> Result<Option<String>, CfgErrModel> {
    match effective_value(file, glob, "blur"@) {
        None => Ok(None),
        Some(ConfigValue::Real(s)) => Ok(Some(s)),
        Some(_) => Err(CfgErrModel::InvalidField("blur"@)),
    }
}

/// A resize dimension: a non-negative integer fitting 32 bits.
pub open spec fn dim_field(
    file: Seq<(String, ConfigValue)>,
    glob: Seq<(String, ConfigValue)>,
    key: Seq<char>,
) -> Result<Option<u32>, CfgErrModel> {
    match effective_value(file, glob, key) {
        None => Ok(None),
        Some(ConfigValue::Int(i)) => if 0 <= i <= u32::MAX {
            Ok(Some(i as u32))
        } else {
            Err(CfgErrModel::InvalidField(key))
        },
        Some(_) => Err(CfgErrModel::InvalidField(key)),
    }
}

/// One present dimension gives `Width` or `Height`, both give
/// `WidthHeight`, none gives no resize job.
pub open spec fn size_of_dims(w: Option<u32>, h: Option<u32>) -> Option<Resize> {
    match (w, h) {
        (Some(x), Some(y)) => Some(Resize { size: Size::WidthHeight(x, y) }),
        (Some(x), None) => Some(Resize { size: Size::Width(x) }),
        (None, Some(y)) => Some(Resize { size: Size::Height(y) }),
        (None, None) => None,
    }
}

/// The resize job written in one mapping alone, from its own `width` and
/// `height` keys.
pub open spec fn own_size_field(entries: Seq<(String, ConfigValue)>) -> Result<
    Option<Resize>,
    CfgErrModel,
> {
    match dim_field(entries, Seq::empty(), "width"@) {
        Err(e) => Err(e),
        Ok(w) => match dim_field(entries, Seq::empty(), "height"@) {
            Err(e) => Err(e),
            Ok(h) => Ok(size_of_dims(w, h)),
        },
    }
}

/// The resize job of an entry. The dimensions fall back as one field: an
/// entry that sets `width` or `height` (or both) takes its resize entirely
/// from its own keys, and only an entry that sets neither inherits the
/// top-level dimensions — per-file and top-level dimensions never mix.
pub open spec fn size_field(
    file: Seq<(String, ConfigValue)>,
    glob: Seq<(String, ConfigValue)>,
) -> Result<Option<Resize>, CfgErrModel> {
    if map_lookup(file, "width"@) is Some || map_lookup(file, "height"@) is Some {
        own_size_field(file)
    } else {
        own_size_field(glob)
    }
}

/// The filter a name denotes, if any.
pub open spec fn filter_of_name(s: Seq<char>) -> Option<FilterKind> {
    if s == "Nearest"@ {
        Some(FilterKind::Nearest)
    } else if s == "Triangle"@ {
        Some(FilterKind::Triangle)
    } else if s == "CatmullRom"@ {
        Some(FilterKind::CatmullRom)
    } else if s == "Gaussian"@ {
        Some(FilterKind::Gaussian)
    } else if s == "Lanczos3"@ {
        Some(FilterKind::Lanczos3)
    } else {
        None
    }
}

/// The effective `resize_filter`: it must be one of the five known names.
pub open spec fn filter_field(
    file: Seq<(String, ConfigValue)>,
    glob: Seq<(String, ConfigValue)>,
) -> Result<Option<FilterKind>, CfgErrModel> {
    match effective_value(file, glob, "resize_filter"@) {
        None => Ok(None),
        Some(ConfigValue::Str(s)) => match filter_of_name(s@) {
            Some(k) => Ok(Some(k)),
            None => Err(CfgErrModel::UnknownFilter(s@)),
        },
        Some(_) => Err(CfgErrModel::InvalidField("resize_filter"@)),
    }
}

/// The resolved job set of an entry; fields are validated in a fixed order
/// and the first offending one decides the error.
pub open spec fn jobs_of(
    file: Seq<(String, ConfigValue)>,
    glob: Seq<(String, ConfigValue)>,
) -> Result<ImgEditJobs, CfgErrModel> {
    match size_field(file, glob) {
        Err(e) => Err(e),
        Ok(resize) => match blur_field(file, glob) {
            Err(e) => Err(e),
            Ok(blur) => match bool_field(file, glob, "flipv"@) {
                Err(e) => Err(e),
                Ok(flipv) => match bool_field(file, glob, "fliph"@) {
                    Err(e) => Err(e),
                    Ok(fliph) => match bool_field(file, glob, "rotate90"@) {
                        Err(e) => Err(e),
                        Ok(rotate90) => match bool_field(file, glob, "rotate180"@) {
                            Err(e) => Err(e),
                            Ok(rotate180) => match bool_field(file, glob, "rotate270"@) {
                                Err(e) => Err(e),
                                Ok(rotate270) => match bool_field(file, glob, "grayscale"@) {
                                    Err(e) => Err(e),
                                    Ok(grayscale) => match bool_field(file, glob, "invert"@) {
                                        Err(e) => Err(e),
                                        Ok(invert) => Ok(
                                            ImgEditJobs {
                                                resize,
                                                blur,
                                                flipv,
                                                fliph,
                                                rotate90,
                                                rotate180,
                                                rotate270,
                                                grayscale,
                                                invert,
                                            },
                                        ),
                                    },
                                },
                            },
                        },
                    },
                },
            },
        },
    }
}

/// Jobs and filter of an entry, without the dimension check (the shape the
/// top-level defaults keep).
pub open spec fn shared_fields(
    file: Seq<(String, ConfigValue)>,
    glob: Seq<(String, ConfigValue)>,
) -> Result<SharedSettings, CfgErrModel> {
    match jobs_of(file, glob) {
        Err(e) => Err(e),
        Ok(jobs) => match filter_field(file, glob) {
            Err(e) => Err(e),
            Ok(resize_filter) => Ok(SharedSettings { jobs, resize_filter }),
        },
    }
}

/// The shared settings of a file entry: as [`shared_fields`], and a resize
/// filter without any resize dimension is rejected.
pub open spec fn shared_of(
    file: Seq<(String, ConfigValue)>,
    glob: Seq<(String, ConfigValue)>,
) -> Result<SharedSettings, CfgErrModel> {
    match shared_fields(file, glob) {
        Err(e) => Err(e),
        Ok(s) => if s.resize_filter is Some && s.jobs.resize is None {
            Err(CfgErrModel::MissingDimensions)
        } else {
            Ok(s)
        },
    }
}

/// One resolved file entry: `path` is required, `output` defaults to the
/// derived path, everything else comes through [`shared_of`].
pub open spec fn file_of(
    entry: Seq<(String, ConfigValue)>,
    glob: Seq<(String, ConfigValue)>,
) -> Result<FileModel, CfgErrModel> {
    match map_lookup(entry, "path"@) {
        None => Err(CfgErrModel::MissingField("path"@)),
        Some(ConfigValue::Str(p)) => {
            let out = match map_lookup(entry, "output"@) {
                None => if has_output_form(p@) {
                    Ok(derived_output(p@))
                } else {
                    Err(CfgErrModel::MalformedPath(p@))
                },
                Some(ConfigValue::Str(o)) => Ok(o@),
                Some(_) => Err(CfgErrModel::InvalidField("output"@)),
            };
            match out {
                Err(e) => Err(e),
                Ok(output) => match shared_of(entry, glob) {
                    Err(e) => Err(e),
                    Ok(other) => Ok(FileModel { path: p@, output, other }),
                },
            }
        },
        Some(_) => Err(CfgErrModel::InvalidField("path"@)),
    }
}

/// Every entry of the `files` list must itself be a mapping.
pub open spec fn all_mappings(list: Seq<ConfigValue>) -> bool {
    forall|i: int| 0 <= i < list.len() ==> list[i] is Mapping
}

/// The entries of a file mapping; empty for any other value.
pub open spec fn entry_fields(v: ConfigValue) -> Seq<(String, ConfigValue)> {
    match v {
        ConfigValue::Mapping(m) => m@,
        _ => Seq::empty(),
    }
}

/// All file entries resolved in order; the first failing entry decides the
/// error.
pub open spec fn files_of(
    list: Seq<ConfigValue>,
    glob: Seq<(String, ConfigValue)>,
) -> Result<Seq<FileModel>, CfgErrModel>
    decreases list.len(),
{
    if list.len() == 0 {
        Ok(Seq::empty())
    } else {
        match file_of(entry_fields(list[0]), glob) {
            Err(e) => Err(e),
            Ok(f) => match files_of(list.drop_first(), glob) {
                Err(e) => Err(e),
                Ok(rest) => Ok(seq![f] + rest),
            },
        }
    }
}

/// The whole resolution: the document must be a mapping with a `files`
/// list of mappings; every entry is checked for shape first, then resolved
/// in order, and the top-level defaults are resolved last.
pub open spec fn resolve_doc(doc: ConfigValue) -> Result<SettingsModel, CfgErrModel> {
    match doc {
        ConfigValue::Mapping(g) => match map_lookup(g@, "files"@) {
            None => Err(CfgErrModel::MissingField("files"@)),
            Some(ConfigValue::List(l)) => if !all_mappings(l@) {
                Err(CfgErrModel::MalformedStructure("file"@))
            } else {
                match files_of(l@, g@) {
                    Err(e) => Err(e),
                    Ok(files) => match shared_fields(g@, Seq::empty()) {
                        Err(e) => Err(e),
                        Ok(other) => Ok(SettingsModel { files_list: files, other }),
                    },
                }
            },
            Some(_) => Err(CfgErrModel::MalformedStructure("files"@)),
        },
        _ => Err(CfgErrModel::MalformedStructure("document"@)),
    }
}

// ---------------------------------------------------------------------------
// Laws of the resolution.
// ---------------------------------------------------------------------------

/// Law: a per-file field always wins; a field entirely absent from the file
/// entry resolves to exactly the top-level value — never a merge of both.
pub proof fn lemma_field_fallback(
    file: Seq<(String, ConfigValue)>,
    glob: Seq<(String, ConfigValue)>,
    key: Seq<char>,
)
    ensures
        map_lookup(file, key) is Some ==> effective_value(file, glob, key) == map_lookup(file, key),
        map_lookup(file, key) is None ==> effective_value(file, glob, key) == map_lookup(glob, key),
{
}

/// Law: every job field of the resolved set falls back to the top-level
/// defaults exactly when the file entry leaves its key unset, and ignores
/// the top level entirely otherwise; the two resize dimensions count as one
/// field, so an entry setting either takes its resize from its own keys
/// alone. The top-level value of a field is what it resolves to against
/// empty defaults.
pub proof fn lemma_jobset_fallback(file: Seq<(String, ConfigValue)>, glob: Seq<(String, ConfigValue)>)
    ensures
        forall|key: Seq<char>|
            map_lookup(file, key) is None ==> #[trigger] bool_field(file, glob, key) == bool_field(
                glob,
                Seq::<(String, ConfigValue)>::empty(),
                key,
            ),
        forall|key: Seq<char>|
            map_lookup(file, key) is Some ==> #[trigger] bool_field(file, glob, key) == bool_field(
                file,
                Seq::<(String, ConfigValue)>::empty(),
                key,
            ),
        map_lookup(file, "blur"@) is None ==> blur_field(file, glob) == blur_field(
            glob,
            Seq::<(String, ConfigValue)>::empty(),
        ),
        map_lookup(file, "blur"@) is Some ==> blur_field(file, glob) == blur_field(
            file,
            Seq::<(String, ConfigValue)>::empty(),
        ),
        map_lookup(file, "resize_filter"@) is None ==> filter_field(file, glob) == filter_field(
            glob,
            Seq::<(String, ConfigValue)>::empty(),
        ),
        map_lookup(file, "resize_filter"@) is Some ==> filter_field(file, glob) == filter_field(
            file,
            Seq::<(String, ConfigValue)>::empty(),
        ),
        map_lookup(file, "width"@) is None && map_lookup(file, "height"@) is None ==> size_field(
            file,
            glob,
        ) == own_size_field(glob),
        map_lookup(file, "width"@) is Some || map_lookup(file, "height"@) is Some ==> size_field(
            file,
            glob,
        ) == own_size_field(file),
{
}

/// Law: the resolved shared settings of an entry depend only on which
/// value each key resolves to, never on the order keys were declared in.
#[verifier::rlimit(100)]
pub proof fn lemma_resolution_ignores_declaration_order(
    f1: Seq<(String, ConfigValue)>,
    f2: Seq<(String, ConfigValue)>,
    glob: Seq<(String, ConfigValue)>,
)
    requires
        forall|key: Seq<char>| #[trigger] map_lookup(f1, key) == map_lookup(f2, key),
    ensures
        shared_of(f1, glob) == shared_of(f2, glob),
{
    assert(map_lookup(f1, "width"@) == map_lookup(f2, "width"@));
    assert(map_lookup(f1, "height"@) == map_lookup(f2, "height"@));
    assert(map_lookup(f1, "blur"@) == map_lookup(f2, "blur"@));
    assert(map_lookup(f1, "flipv"@) == map_lookup(f2, "flipv"@));
    assert(map_lookup(f1, "fliph"@) == map_lookup(f2, "fliph"@));
    assert(map_lookup(f1, "rotate90"@) == map_lookup(f2, "rotate90"@));
    assert(map_lookup(f1, "rotate180"@) == map_lookup(f2, "rotate180"@));
    assert(map_lookup(f1, "rotate270"@) == map_lookup(f2, "rotate270"@));
    assert(map_lookup(f1, "grayscale"@) == map_lookup(f2, "grayscale"@));
    assert(map_lookup(f1, "invert"@) == map_lookup(f2, "invert"@));
    assert(map_lookup(f1, "resize_filter"@) == map_lookup(f2, "resize_filter"@));
    assert(size_field(f1, glob) == size_field(f2, glob));
    assert(blur_field(f1, glob) == blur_field(f2, glob));
    assert(jobs_of(f1, glob) == jobs_of(f2, glob));
    assert(filter_field(f1, glob) == filter_field(f2, glob));
    assert(shared_fields(f1, glob) == shared_fields(f2, glob));
}

/// Law: no resolved dimension gives no resize job, exactly one gives
/// `Width` or `Height` respectively, both give `WidthHeight`.
pub proof fn lemma_dimension_shape(x: u32, y: u32)
    ensures
        size_of_dims(None, None) is None,
        size_of_dims(Some(x), None) == Some(Resize { size: Size::Width(x) }),
        size_of_dims(None, Some(y)) == Some(Resize { size: Size::Height(y) }),
        size_of_dims(Some(x), Some(y)) == Some(Resize { size: Size::WidthHeight(x, y) }),
{
}

/// Law: within the mapping the dimensions are taken from, the resize job
/// combines exactly the two dimensions written there.
pub proof fn lemma_size_field(entries: Seq<(String, ConfigValue)>, w: Option<u32>, h: Option<u32>)
    requires
        dim_field(entries, Seq::empty(), "width"@) == Ok::<Option<u32>, CfgErrModel>(w),
        dim_field(entries, Seq::empty(), "height"@) == Ok::<Option<u32>, CfgErrModel>(h),
    ensures
        own_size_field(entries) == Ok::<Option<Resize>, CfgErrModel>(size_of_dims(w, h)),
{
}

/// Law: an unrecognized `resize_filter` name is rejected with an error that
/// names exactly the offending value.
pub proof fn lemma_unknown_filter(
    file: Seq<(String, ConfigValue)>,
    glob: Seq<(String, ConfigValue)>,
    s: String,
)
    requires
        effective_value(file, glob, "resize_filter"@) == Some(ConfigValue::Str(s)),
        filter_of_name(s@) is None,
    ensures
        filter_field(file, glob) == Err::<Option<FilterKind>, CfgErrModel>(
            CfgErrModel::UnknownFilter(s@),
        ),
        jobs_of(file, glob) is Ok ==> shared_of(file, glob) == Err::<SharedSettings, CfgErrModel>(
            CfgErrModel::UnknownFilter(s@),
        ),
{
}

/// Law: a file entry that gives no `output` gets the derived
/// `<parent><stem>.min.<ext>` path — or is rejected when none can be
/// derived — and one that gives `output` gets exactly that value.
pub proof fn lemma_output_path_choice(
    entry: Seq<(String, ConfigValue)>,
    glob: Seq<(String, ConfigValue)>,
    p: String,
)
    requires
        map_lookup(entry, "path"@) == Some(ConfigValue::Str(p)),
        shared_of(entry, glob) is Ok,
    ensures
        map_lookup(entry, "output"@) is None && has_output_form(p@) ==> (file_of(entry, glob)
            matches Ok(f) && f.output == derived_output(p@)),
        map_lookup(entry, "output"@) is None && !has_output_form(p@) ==> file_of(entry, glob)
            == Err::<FileModel, CfgErrModel>(CfgErrModel::MalformedPath(p@)),
        forall|o: String|
            map_lookup(entry, "output"@) == Some(ConfigValue::Str(o)) ==> (#[trigger] file_of(
                entry,
                glob,
            ) matches Ok(f) && f.output == o@),
{
}

// ---------------------------------------------------------------------------
// The executable resolver.
// ---------------------------------------------------------------------------

/// Finds `key` in a mapping's entries.
pub fn lookup_value<'a>(entries: &'a Vec<(String, ConfigValue)>, key: &str) -> (r: Option<
    &'a ConfigValue,
>)
    ensures
        match r {
            Some(v) => map_lookup(entries@, key@) == Some(*v),
            None => map_lookup(entries@, key@) is None,
        },
{
    let n = entries.len();
    let mut i: usize = 0;
    proof {
        assert(entries@.skip(0) =~= entries@);
    }
    while i < n
        invariant
            i <= n,
            n == entries@.len(),
            map_lookup(entries@, key@) == map_lookup(entries@.skip(i as int), key@),
        decreases n - i,
    {
        let e = &entries[i];
        proof {
            assert(entries@.skip(i as int)[0] == entries@[i as int]);
            assert(entries@.skip(i as int).drop_first() =~= entries@.skip(i as int + 1));
        }
        if str_eq(e.0.as_str(), key) {
            return Some(&e.1);
        }
        i = i + 1;
    }
    proof {
        assert(entries@.skip(n as int) =~= Seq::<(String, ConfigValue)>::empty());
    }
    None
}

/// Looks `key` up in the file entry first, then in the top-level defaults.
pub fn effective_lookup<'a>(
    file: &'a Vec<(String, ConfigValue)>,
    glob: &'a Vec<(String, ConfigValue)>,
    key: &str,
) -> (r: Option<&'a ConfigValue>)
    ensures
        match r {
            Some(v) => effective_value(file@, glob@, key@) == Some(*v),
            None => effective_value(file@, glob@, key@) is None,
        },
{
    match lookup_value(file, key) {
        Some(v) => Some(v),
        None => lookup_value(glob, key),
    }
}

fn get_bool(file: &Vec<(String, ConfigValue)>, glob: &Vec<(String, ConfigValue)>, key: &str) -> (r:
    Result<bool, ConfigError>)
    ensures
        result_matches(r, bool_field(file@, glob@, key@)),
{
    match effective_lookup(file, glob, key) {
        None => Ok(false),
        Some(ConfigValue::Bool(b)) => Ok(*b),
        Some(_) => Err(ConfigError::InvalidField(key.to_owned())),
    }
}

fn get_blur(file: &Vec<(String, ConfigValue)>, glob: &Vec<(String, ConfigValue)>) -> (r: Result<
    Option<String>,
    ConfigError,
>)
    ensures
        result_matches(r, blur_field(file@, glob@)),
{
    match effective_lookup(file, glob, "blur") {
        None => Ok(None),
        Some(ConfigValue::Real(s)) => Ok(Some(s.clone())),
        Some(_) => Err(ConfigError::InvalidField("blur".to_owned())),
    }
}

fn get_dim(file: &Vec<(String, ConfigValue)>, glob: &Vec<(String, ConfigValue)>, key: &str) -> (r:
    Result<Option<u32>, ConfigError>)
    ensures
        result_matches(r, dim_field(file@, glob@, key@)),
{
    match effective_lookup(file, glob, key) {
        None => Ok(None),
        Some(ConfigValue::Int(i)) => {
            if 0 <= *i && *i <= u32::MAX as i64 {
                Ok(Some(*i as u32))
            } else {
                Err(ConfigError::InvalidField(key.to_owned()))
            }
        },
        Some(_) => Err(ConfigError::InvalidField(key.to_owned())),
    }
}

fn get_size(file: &Vec<(String, ConfigValue)>, glob: &Vec<(String, ConfigValue)>) -> (r: Result<
    Option<Resize>,
    ConfigError,
>)
    ensures
        result_matches(r, size_field(file@, glob@)),
{
    let empty: Vec<(String, ConfigValue)> = Vec::new();
    proof {
        assert(empty@ =~= Seq::<(String, ConfigValue)>::empty());
    }
    let has_own_width = match lookup_value(file, "width") {
        Some(_) => true,
        None => false,
    };
    let has_own_height = match lookup_value(file, "height") {
        Some(_) => true,
        None => false,
    };
    let source: &Vec<(String, ConfigValue)> = if has_own_width || has_own_height {
        file
    } else {
        glob
    };
    let w = match get_dim(source, &empty, "width") {
        Ok(w) => w,
        Err(e) => {
            return Err(e);
        },
    };
    let h = match get_dim(source, &empty, "height") {
        Ok(h) => h,
        Err(e) => {
            return Err(e);
        },
    };
    match (w, h) {
        (Some(x), Some(y)) => Ok(Some(Resize { size: Size::WidthHeight(x, y) })),
        (Some(x), None) => Ok(Some(Resize { size: Size::Width(x) })),
        (None, Some(y)) => Ok(Some(Resize { size: Size::Height(y) })),
        (None, None) => Ok(None),
    }
}

fn get_filter(file: &Vec<(String, ConfigValue)>, glob: &Vec<(String, ConfigValue)>) -> (r: Result<
    Option<FilterKind>,
    ConfigError,
>)
    ensures
        result_matches(r, filter_field(file@, glob@)),
{
    match effective_lookup(file, glob, "resize_filter") {
        None => Ok(None),
        Some(ConfigValue::Str(s)) => {
            if str_eq(s.as_str(), "Nearest") {
                Ok(Some(FilterKind::Nearest))
            } else if str_eq(s.as_str(), "Triangle") {
                Ok(Some(FilterKind::Triangle))
            } else if str_eq(s.as_str(), "CatmullRom") {
                Ok(Some(FilterKind::CatmullRom))
            } else if str_eq(s.as_str(), "Gaussian") {
                Ok(Some(FilterKind::Gaussian))
            } else if str_eq(s.as_str(), "Lanczos3") {
                Ok(Some(FilterKind::Lanczos3))
            } else {
                Err(ConfigError::UnknownFilter(s.clone()))
            }
        },
        Some(_) => Err(ConfigError::InvalidField("resize_filter".to_owned())),
    }
}

fn get_jobs(file: &Vec<(String, ConfigValue)>, glob: &Vec<(String, ConfigValue)>) -> (r: Result<
    ImgEditJobs,
    ConfigError,
>)
    ensures
        result_matches(r, jobs_of(file@, glob@)),
{
    let resize = match get_size(file, glob) {
        Ok(v) => v,
        Err(e) => {
            return Err(e);
        },
    };
    let blur = match get_blur(file, glob) {
        Ok(v) => v,
        Err(e) => {
            return Err(e);
        },
    };
    let flipv = match get_bool(file, glob, "flipv") {
        Ok(v) => v,
        Err(e) => {
            return Err(e);
        },
    };
    let fliph = match get_bool(file, glob, "fliph") {
        Ok(v) => v,
        Err(e) => {
            return Err(e);
        },
    };
    let rotate90 = match get_bool(file, glob, "rotate90") {
        Ok(v) => v,
        Err(e) => {
            return Err(e);
        },
    };
    let rotate180 = match get_bool(file, glob, "rotate180") {
        Ok(v) => v,
        Err(e) => {
            return Err(e);
        },
    };
    let rotate270 = match get_bool(file, glob, "rotate270") {
        Ok(v) => v,
        Err(e) => {
            return Err(e);
        },
    };
    let grayscale = match get_bool(file, glob, "grayscale") {
        Ok(v) => v,
        Err(e) => {
            return Err(e);
        },
    };
    let invert = match get_bool(file, glob, "invert") {
        Ok(v) => v,
        Err(e) => {
            return Err(e);
        },
    };
    Ok(ImgEditJobs { resize, blur, flipv, fliph, rotate90, rotate180, rotate270, grayscale, invert })
}

fn get_shared_fields(file: &Vec<(String, ConfigValue)>, glob: &Vec<(String, ConfigValue)>) -> (r:
    Result<SharedSettings, ConfigError>)
    ensures
        result_matches(r, shared_fields(file@, glob@)),
{
    let jobs = match get_jobs(file, glob) {
        Ok(v) => v,
        Err(e) => {
            return Err(e);
        },
    };
    let resize_filter = match get_filter(file, glob) {
        Ok(v) => v,
        Err(e) => {
            return Err(e);
        },
    };
    Ok(SharedSettings { jobs, resize_filter })
}

fn get_shared(file: &Vec<(String, ConfigValue)>, glob: &Vec<(String, ConfigValue)>) -> (r: Result<
    SharedSettings,
    ConfigError,
>)
    ensures
        result_matches(r, shared_of(file@, glob@)),
{
    let s = match get_shared_fields(file, glob) {
        Ok(v) => v,
        Err(e) => {
            return Err(e);
        },
    };
    if s.resize_filter.is_some() && s.jobs.resize.is_none() {
        Err(ConfigError::MissingDimensions)
    } else {
        Ok(s)
    }
}

/// Resolves one file entry against the top-level defaults.
fn parse_file(entry: &Vec<(String, ConfigValue)>, glob: &Vec<(String, ConfigValue)>) -> (r: Result<
    FileWatch,
    ConfigError,
>)
    ensures
        match (r, file_of(entry@, glob@)) {
            (Ok(f), Ok(m)) => f@ == m,
            (Err(e), Err(me)) => e@ == me,
            _ => false,
        },
{
    let path: String = match lookup_value(entry, "path") {
        None => {
            return Err(ConfigError::MissingField("path".to_owned()));
        },
        Some(ConfigValue::Str(p)) => p.clone(),
        Some(_) => {
            return Err(ConfigError::InvalidField("path".to_owned()));
        },
    };
    let output: String = match lookup_value(entry, "output") {
        None => match default_output_path(path.as_str()) {
            Some(o) => o,
            None => {
                return Err(ConfigError::MalformedPath(path));
            },
        },
        Some(ConfigValue::Str(o)) => o.clone(),
        Some(_) => {
            return Err(ConfigError::InvalidField("output".to_owned()));
        },
    };
    let other = match get_shared(entry, glob) {
        Ok(s) => s,
        Err(e) => {
            return Err(e);
        },
    };
    Ok(FileWatch { path, output, other })
}

/// Resolves a whole configuration document into the watched files and the
/// top-level defaults, exactly as [`resolve_doc`] describes.
pub fn parse_config(doc: &ConfigValue) -> (r: Result<Settings, ConfigError>)
    ensures
        match (r, resolve_doc(*doc)) {
            (Ok(s), Ok(m)) => s@ == m,
            (Err(e), Err(me)) => e@ == me,
            _ => false,
        },
{
    let glob: &Vec<(String, ConfigValue)> = match doc {
        ConfigValue::Mapping(m) => m,
        _ => {
            return Err(ConfigError::MalformedStructure("document".to_owned()));
        },
    };
    proof {
        assert(*doc == ConfigValue::Mapping(*glob));
    }
    let list: &Vec<ConfigValue> = match lookup_value(glob, "files") {
        None => {
            return Err(ConfigError::MissingField("files".to_owned()));
        },
        Some(ConfigValue::List(l)) => l,
        Some(_) => {
            return Err(ConfigError::MalformedStructure("files".to_owned()));
        },
    };
    proof {
        assert(map_lookup(glob@, "files"@) == Some(ConfigValue::List(*list)));
    }
    let n = list.len();
    let mut i: usize = 0;
    while i < n
        invariant
            i <= n,
            n == list@.len(),
            *doc == ConfigValue::Mapping(*glob),
            map_lookup(glob@, "files"@) == Some(ConfigValue::List(*list)),
            forall|j: int| 0 <= j < i ==> list@[j] is Mapping,
        decreases n - i,
    {
        match &list[i] {
            ConfigValue::Mapping(_) => {},
            _ => {
                proof {
                    assert(!all_mappings(list@));
                }
                return Err(ConfigError::MalformedStructure("file".to_owned()));
            },
        }
        i = i + 1;
    }
    assert(all_mappings(list@));
    let mut files: Vec<FileWatch> = Vec::new();
    let mut k: usize = 0;
    proof {
        assert(list@.skip(0) =~= list@);
        assert(files_view(files@) =~= Seq::<FileModel>::empty());
    }
    while k < n
        invariant
            k <= n,
            n == list@.len(),
            *doc == ConfigValue::Mapping(*glob),
            map_lookup(glob@, "files"@) == Some(ConfigValue::List(*list)),
            all_mappings(list@),
            match files_of(list@.skip(k as int), glob@) {
                Ok(rest) => files_of(list@, glob@) == Ok::<Seq<FileModel>, CfgErrModel>(
                    files_view(files@) + rest,
                ),
                Err(e) => files_of(list@, glob@) == Err::<Seq<FileModel>, CfgErrModel>(e),
            },
        decreases n - k,
    {
        proof {
            assert(list@.skip(k as int)[0] == list@[k as int]);
            assert(list@.skip(k as int).drop_first() =~= list@.skip(k as int + 1));
        }
        let f = match &list[k] {
            ConfigValue::Mapping(m) => {
                proof {
                    assert(list@[k as int] == ConfigValue::Mapping(*m));
                    assert(entry_fields(list@[k as int]) == m@);
                }
                match parse_file(m, glob) {
                    Ok(f) => f,
                    Err(e) => {
                        return Err(e);
                    },
                }
            },
            _ => {
                proof {
                    assert(false);
                }
                return Err(ConfigError::MalformedStructure("file".to_owned()));
            },
        };
        proof {
            assert(files_view(files@.push(f)) =~= files_view(files@).push(f@));
        }
        let ghost old_files_view = files_view(files@);
        files.push(f);
        proof {
            if let Ok(rest) = files_of(list@.skip(k as int + 1), glob@) {
                assert(old_files_view + (seq![f@] + rest) =~= files_view(files@) + rest);
            }
        }
        k = k + 1;
    }
    proof {
        assert(list@.skip(n as int) =~= Seq::<ConfigValue>::empty());
        assert(files_view(files@) + Seq::<FileModel>::empty() =~= files_view(files@));
    }
    let empty_glob: Vec<(String, ConfigValue)> = Vec::new();
    let other = match get_shared_fields(glob, &empty_glob) {
        Ok(s) => s,
        Err(e) => {
            proof {
                assert(empty_glob@ =~= Seq::<(String, ConfigValue)>::empty());
            }
            return Err(e);
        },
    };
    proof {
        assert(empty_glob@ =~= Seq::<(String, ConfigValue)>::empty());
    }
    Ok(Settings { files_list: files, other })
}

} // verus!
