//! Model dependency resolution: the options of a speech-to-text dependency
//! query, and the plan for fetching the speaker diarization models from
//! their download manifest.

use vstd::prelude::*;

use crate::cstring::{c_string_result, c_strings_result, check_c_string};
use crate::decimal::{decimal, decimal_string};
use crate::error::{is_api_error, local_error, Error, Result};
use crate::json::{
    as_array, as_string, as_u64, json_array, json_member, json_str, json_tree, json_u64, json_view, member,
    parse_json, string_option_view, JsonValue, JsonView,
};
use crate::options::{check_pairs, lemma_lookup_append, lemma_lookup_single, lookup, pair_strings, pairs_view, push_pair, OptionPairs};
use crate::transcriber::{arch_code, ModelArch};

verus! {

/// Options of a speech-to-text dependency query.
#[derive(Debug, Clone)]
pub struct SttDependenciesOptions {
    /// Resolve dependencies for this architecture.
    pub arch: Option<ModelArch>,
    /// Include the spelling model's files as an extra dependency group.
    pub include_spelling: bool,
    /// Include the attention decoder needed for word-level timestamps.
    pub word_timestamps: bool,
    /// Resolve dependencies for a specific spelling model path.
    pub spelling_model_path: Option<String>,
}

impl Default for SttDependenciesOptions {
    fn default() -> (r: Self)
        ensures
            r.arch is None,
            !r.include_spelling,
            !r.word_timestamps,
            r.spelling_model_path is None,
    {
        SttDependenciesOptions { arch: None, include_spelling: false, word_timestamps: false, spelling_model_path: None }
    }
}

impl SttDependenciesOptions {
    /// Creates a default option set: no architecture, no spelling model, no
    /// word timestamps.
    pub fn new() -> (r: Self)
        ensures
            r.arch is None,
            !r.include_spelling,
            !r.word_timestamps,
            r.spelling_model_path is None,
    {
        SttDependenciesOptions { arch: None, include_spelling: false, word_timestamps: false, spelling_model_path: None }
    }

    /// The options of a basic query: an optional architecture and whether to
    /// include the spelling model.
    pub fn basic(arch: Option<ModelArch>, include_spelling: bool) -> (r: Self)
        ensures
            r.arch == arch,
            r.include_spelling == include_spelling,
            !r.word_timestamps,
            r.spelling_model_path is None,
    {
        SttDependenciesOptions { arch, include_spelling, word_timestamps: false, spelling_model_path: None }
    }

    /// Resolves dependencies for a specific architecture.
    pub fn with_arch(self, arch: ModelArch) -> (r: Self)
        ensures
            r.arch == Some(arch),
            r.include_spelling == self.include_spelling,
            r.word_timestamps == self.word_timestamps,
            r.spelling_model_path == self.spelling_model_path,
    {
        let mut s = self;
        s.arch = Some(arch);
        s
    }

    /// Includes (or not) the spelling model's files.
    pub fn with_include_spelling(self, include_spelling: bool) -> (r: Self)
        ensures
            r.arch == self.arch,
            r.include_spelling == include_spelling,
            r.word_timestamps == self.word_timestamps,
            r.spelling_model_path == self.spelling_model_path,
    {
        let mut s = self;
        s.include_spelling = include_spelling;
        s
    }

    /// Includes (or not) the attention decoder for word timestamps.
    pub fn with_word_timestamps(self, word_timestamps: bool) -> (r: Self)
        ensures
            r.arch == self.arch,
            r.include_spelling == self.include_spelling,
            r.word_timestamps == word_timestamps,
            r.spelling_model_path == self.spelling_model_path,
    {
        let mut s = self;
        s.word_timestamps = word_timestamps;
        s
    }

    /// Resolves dependencies for the spelling model at `path`.
    pub fn with_spelling_model_path(self, path: &str) -> (r: Self)
        ensures
            r.arch == self.arch,
            r.include_spelling == self.include_spelling,
            r.word_timestamps == self.word_timestamps,
            r.spelling_model_path matches Some(p) && p@ == path@,
    {
        let mut s = self;
        s.spelling_model_path = Some(path.to_owned());
        s
    }
}

/// The option pairs a dependency query hands to the engine, in order.
pub open spec fn stt_dependency_pairs(o: SttDependenciesOptions) -> OptionPairs {
    (match o.arch {
        Some(a) => seq![("model_arch"@, decimal(arch_code(a) as nat))],
        None => Seq::empty(),
    }) + (if o.include_spelling {
        seq![("include_spelling"@, "true"@)]
    } else {
        Seq::empty()
    }) + (if o.word_timestamps {
        seq![("word_timestamps"@, "true"@)]
    } else {
        Seq::empty()
    }) + (match o.spelling_model_path {
        Some(p) => seq![("spelling_model_path"@, p@)],
        None => Seq::empty(),
    })
}

/// Each field of a dependency query contributes its own option, whatever
/// the other fields hold: `model_arch` carries the architecture's code when
/// one is given, `include_spelling` and `word_timestamps` are `"true"` when
/// asked for, `spelling_model_path` carries the path when one is given, and
/// no other option is sent.
pub proof fn lemma_dependency_options_per_field(o: SttDependenciesOptions)
    ensures
        lookup(stt_dependency_pairs(o), "model_arch"@) == match o.arch {
            Some(a) => Some(decimal(arch_code(a) as nat)),
            None => None::<Seq<char>>,
        },
        lookup(stt_dependency_pairs(o), "include_spelling"@) == if o.include_spelling {
            Some("true"@)
        } else {
            None::<Seq<char>>
        },
        lookup(stt_dependency_pairs(o), "word_timestamps"@) == if o.word_timestamps {
            Some("true"@)
        } else {
            None::<Seq<char>>
        },
        lookup(stt_dependency_pairs(o), "spelling_model_path"@) == match o.spelling_model_path {
            Some(p) => Some(p@),
            None => None::<Seq<char>>,
        },
        stt_dependency_pairs(o).len() == (if o.arch is Some { 1int } else { 0 }) + (if o.include_spelling {
            1int
        } else {
            0
        }) + (if o.word_timestamps { 1int } else { 0 }) + (if o.spelling_model_path is Some { 1int } else { 0 }),
{
    reveal_strlit("model_arch");
    reveal_strlit("include_spelling");
    reveal_strlit("word_timestamps");
    reveal_strlit("spelling_model_path");
    let p0: OptionPairs = match o.arch {
        Some(a) => seq![("model_arch"@, decimal(arch_code(a) as nat))],
        None => Seq::empty(),
    };
    let p1: OptionPairs = if o.include_spelling {
        seq![("include_spelling"@, "true"@)]
    } else {
        Seq::empty()
    };
    let p2: OptionPairs = if o.word_timestamps {
        seq![("word_timestamps"@, "true"@)]
    } else {
        Seq::empty()
    };
    let p3: OptionPairs = match o.spelling_model_path {
        Some(p) => seq![("spelling_model_path"@, p@)],
        None => Seq::empty(),
    };
    let all = stt_dependency_pairs(o);
    assert(all == p0 + p1 + p2 + p3);
    assert("model_arch"@.len() != "include_spelling"@.len());
    assert("model_arch"@[0] != "word_timestamps"@[0]);
    assert("model_arch"@.len() != "spelling_model_path"@.len());
    assert("include_spelling"@[0] != "word_timestamps"@[0]);
    assert("include_spelling"@.len() != "spelling_model_path"@.len());
    assert("word_timestamps"@[0] != "spelling_model_path"@[0]);
    lemma_dependency_lookup(p0, p1, p2, p3, "model_arch"@);
    lemma_dependency_lookup(p0, p1, p2, p3, "include_spelling"@);
    lemma_dependency_lookup(p0, p1, p2, p3, "word_timestamps"@);
    lemma_dependency_lookup(p0, p1, p2, p3, "spelling_model_path"@);
}

proof fn lemma_dependency_lookup(p0: OptionPairs, p1: OptionPairs, p2: OptionPairs, p3: OptionPairs, key: Seq<char>)
    requires
        p0.len() <= 1,
        p1.len() <= 1,
        p2.len() <= 1,
        p3.len() <= 1,
    ensures
        lookup(p0 + p1 + p2 + p3, key) == match lookup(p0, key) {
            Some(v) => Some(v),
            None => match lookup(p1, key) {
                Some(v) => Some(v),
                None => match lookup(p2, key) {
                    Some(v) => Some(v),
                    None => lookup(p3, key),
                },
            },
        },
        p0.len() == 1 ==> lookup(p0, key) == if p0[0].0 == key { Some(p0[0].1) } else { None::<Seq<char>> },
        p1.len() == 1 ==> lookup(p1, key) == if p1[0].0 == key { Some(p1[0].1) } else { None::<Seq<char>> },
        p2.len() == 1 ==> lookup(p2, key) == if p2[0].0 == key { Some(p2[0].1) } else { None::<Seq<char>> },
        p3.len() == 1 ==> lookup(p3, key) == if p3[0].0 == key { Some(p3[0].1) } else { None::<Seq<char>> },
        p0.len() == 0 ==> lookup(p0, key) is None,
        p1.len() == 0 ==> lookup(p1, key) is None,
        p2.len() == 0 ==> lookup(p2, key) is None,
        p3.len() == 0 ==> lookup(p3, key) is None,
{
    lemma_lookup_append(p0 + p1 + p2, p3, key);
    lemma_lookup_append(p0 + p1, p2, key);
    lemma_lookup_append(p0, p1, key);
    if p0.len() == 1 {
        assert(p0 =~= seq![p0[0]]);
        lemma_lookup_single(p0[0].0, p0[0].1, key);
    }
    if p1.len() == 1 {
        assert(p1 =~= seq![p1[0]]);
        lemma_lookup_single(p1[0].0, p1[0].1, key);
    }
    if p2.len() == 1 {
        assert(p2 =~= seq![p2[0]]);
        lemma_lookup_single(p2[0].0, p2[0].1, key);
    }
    if p3.len() == 1 {
        assert(p3 =~= seq![p3[0]]);
        lemma_lookup_single(p3[0].0, p3[0].1, key);
    }
}

/// The arguments of a native speech-to-text dependency query.
pub struct SttDependenciesRequest {
    pub language: String,
    pub options: Vec<(String, String)>,
}

/// Builds the arguments of a dependency query for `language`: the language
/// is checked first, then the option pairs in order.
pub fn stt_dependencies_request(language: &str, options: &SttDependenciesOptions) -> (r: Result<SttDependenciesRequest>)
    ensures
        match c_string_result(language@) {
            Err(e) => r == Err::<SttDependenciesRequest, Error>(e),
            Ok(()) => match c_strings_result(pair_strings(stt_dependency_pairs(*options))) {
                Err(e) => r == Err::<SttDependenciesRequest, Error>(e),
                Ok(()) => r matches Ok(req) && req.language@ == language@
                    && pairs_view(req.options@) == stt_dependency_pairs(*options),
            },
        },
{
    check_c_string(language)?;
    let mut pairs: Vec<(String, String)> = Vec::new();
    proof {
        assert(pairs_view(pairs@) =~= Seq::<(Seq<char>, Seq<char>)>::empty());
    }
    let ghost p0 = match options.arch {
        Some(a) => seq![("model_arch"@, decimal(arch_code(a) as nat))],
        None => Seq::<(Seq<char>, Seq<char>)>::empty(),
    };
    if let Some(a) = options.arch {
        let code = decimal_string(a.as_u32() as u64);
        push_pair(&mut pairs, "model_arch", code.as_str());
    }
    assert(pairs_view(pairs@) =~= p0);
    let ghost p1 = if options.include_spelling {
        seq![("include_spelling"@, "true"@)]
    } else {
        Seq::<(Seq<char>, Seq<char>)>::empty()
    };
    if options.include_spelling {
        push_pair(&mut pairs, "include_spelling", "true");
    }
    assert(pairs_view(pairs@) =~= p0 + p1);
    let ghost p2 = if options.word_timestamps {
        seq![("word_timestamps"@, "true"@)]
    } else {
        Seq::<(Seq<char>, Seq<char>)>::empty()
    };
    if options.word_timestamps {
        push_pair(&mut pairs, "word_timestamps", "true");
    }
    assert(pairs_view(pairs@) =~= p0 + p1 + p2);
    let ghost p3 = match &options.spelling_model_path {
        Some(p) => seq![("spelling_model_path"@, p@)],
        None => Seq::<(Seq<char>, Seq<char>)>::empty(),
    };
    if let Some(path) = &options.spelling_model_path {
        push_pair(&mut pairs, "spelling_model_path", path.as_str());
    }
    assert(pairs_view(pairs@) =~= p0 + p1 + p2 + p3);
    check_pairs(&pairs)?;
    Ok(SttDependenciesRequest { language: language.to_owned(), options: pairs })
}

// ---------------------------------------------------------------------------
// Diarization models
// ---------------------------------------------------------------------------

/// One file entry of a download manifest, as far as it could be read.
#[derive(Debug, Clone)]
pub struct ManifestFile {
    pub name: Option<String>,
    pub url: Option<String>,
    pub size: Option<u64>,
}

/// One dependency group of a download manifest: its `files` array, if it
/// has one.
#[derive(Debug, Clone)]
pub struct ManifestGroup {
    pub files: Option<Vec<ManifestFile>>,
}

/// A download manifest: its `groups` array, if it has one.
#[derive(Debug, Clone)]
pub struct DiarizationManifest {
    pub groups: Option<Vec<ManifestGroup>>,
}

/// A manifest file entry as plain values: its name, URL and size, each as
/// far as it could be read.
pub type ManifestFileView = (Option<Seq<char>>, Option<Seq<char>>, Option<u64>);

/// A manifest as plain values: its groups, if it has a `groups` array, each
/// with its files, if it has a `files` array.
pub type ManifestView = Option<Seq<Option<Seq<ManifestFileView>>>>;

pub open spec fn manifest_file_view(f: ManifestFile) -> ManifestFileView {
    (string_option_view(f.name), string_option_view(f.url), f.size)
}

pub open spec fn manifest_group_view(g: ManifestGroup) -> Option<Seq<ManifestFileView>> {
    match g.files {
        Some(fs) => Some(fs@.map_values(|f: ManifestFile| manifest_file_view(f))),
        None => None,
    }
}

pub open spec fn manifest_view(m: DiarizationManifest) -> ManifestView {
    match m.groups {
        Some(gs) => Some(gs@.map_values(|g: ManifestGroup| manifest_group_view(g))),
        None => None,
    }
}

/// How a file entry of the manifest's JSON is read: `name` and `url` when
/// they are strings, `size` when it is an unsigned integer.
pub open spec fn read_manifest_file(v: JsonView) -> ManifestFileView {
    (json_str(json_member(v, "name"@)), json_str(json_member(v, "url"@)), json_u64(json_member(v, "size"@)))
}

/// How a group of the manifest's JSON is read: its `files` when they form
/// an array, each entry read as a file.
pub open spec fn read_manifest_group(v: JsonView) -> Option<Seq<ManifestFileView>> {
    match json_array(json_member(v, "files"@)) {
        Some(fs) => Some(fs.map_values(|f: JsonView| read_manifest_file(f))),
        None => None,
    }
}

/// How the manifest's JSON is read: its `groups` when they form an array,
/// each entry read as a group.
pub open spec fn read_manifest(v: JsonView) -> ManifestView {
    match json_array(json_member(v, "groups"@)) {
        Some(gs) => Some(gs.map_values(|g: JsonView| read_manifest_group(g))),
        None => None,
    }
}

/// The text that precedes the parser's message in the error raised for a
/// manifest that is not JSON.
pub open spec fn manifest_parse_prefix() -> Seq<char> {
    "Failed to parse diarization manifest JSON: "@
}

fn read_file_entry(v: &JsonValue) -> (r: ManifestFile)
    ensures
        manifest_file_view(r) == read_manifest_file(v@),
{
    ManifestFile { name: as_string(member(v, "name")), url: as_string(member(v, "url")), size: as_u64(member(v, "size")) }
}

fn read_group_entry(v: &JsonValue) -> (r: ManifestGroup)
    ensures
        manifest_group_view(r) == read_manifest_group(v@),
{
    let a = match as_array(member(v, "files")) {
        Some(a) => a,
        None => {
            return ManifestGroup { files: None };
        },
    };
    let ghost elems = Seq::new(a@.len(), |i: int| json_view(a@[i]));
    let mut files: Vec<ManifestFile> = Vec::new();
    let n = a.len();
    let mut i: usize = 0;
    while i < n
        invariant
            n == a@.len(),
            i <= n,
            files@.len() == i,
            forall|j: int| 0 <= j < i ==> #[trigger] manifest_file_view(files@[j]) == read_manifest_file(json_view(a@[j])),
        decreases n - i,
    {
        files.push(read_file_entry(&a[i]));
        i = i + 1;
    }
    let r = ManifestGroup { files: Some(files) };
    assert(files@.map_values(|f: ManifestFile| manifest_file_view(f)) =~= elems.map_values(|f: JsonView| read_manifest_file(f)));
    r
}

fn read_manifest_value(v: &JsonValue) -> (r: DiarizationManifest)
    ensures
        manifest_view(r) == read_manifest(v@),
{
    let a = match as_array(member(v, "groups")) {
        Some(a) => a,
        None => {
            return DiarizationManifest { groups: None };
        },
    };
    let ghost elems = Seq::new(a@.len(), |i: int| json_view(a@[i]));
    let mut groups: Vec<ManifestGroup> = Vec::new();
    let n = a.len();
    let mut i: usize = 0;
    while i < n
        invariant
            n == a@.len(),
            i <= n,
            groups@.len() == i,
            forall|j: int| 0 <= j < i ==> #[trigger] manifest_group_view(groups@[j]) == read_manifest_group(json_view(a@[j])),
        decreases n - i,
    {
        groups.push(read_group_entry(&a[i]));
        i = i + 1;
    }
    let r = DiarizationManifest { groups: Some(groups) };
    assert(groups@.map_values(|g: ManifestGroup| manifest_group_view(g)) =~= elems.map_values(|g: JsonView| read_manifest_group(g)));
    r
}

/// Parses the diarization download manifest from its JSON text: text that
/// is not JSON is an error carrying the parser's message; otherwise the
/// manifest holds what [`read_manifest`] reads from the tree.
pub fn parse_diarization_manifest(text: &str) -> (r: Result<DiarizationManifest>)
    ensures
        match json_tree(text@) {
            Err(detail) => r matches Err(e) && is_api_error(e, -1i32, manifest_parse_prefix() + detail),
            Ok(tree) => r matches Ok(m) && manifest_view(m) == read_manifest(tree),
        },
{
    match parse_json(text) {
        Ok(tree) => Ok(read_manifest_value(&tree)),
        Err(detail) => {
            let mut m = "Failed to parse diarization manifest JSON: ".to_owned();
            m.append(detail.as_str());
            proof {
                reveal_strlit("Failed to parse diarization manifest JSON: ");
            }
            Err(local_error(m))
        },
    }
}

/// A file to fetch: where it goes, where it comes from, and its expected
/// size (0 when the manifest gives none).
#[derive(Debug, Clone, PartialEq, Eq)]
pub struct ModelDownload {
    pub name: String,
    pub url: String,
    pub expected_size: u64,
}

/// The files of a manifest in order, up to the first malformed entry, and
/// the error for that entry, if any.
#[derive(Debug)]
pub struct DownloadPlan {
    pub downloads: Vec<ModelDownload>,
    pub error: Option<Error>,
}

/// A planned download as plain values.
pub type DownloadView = (Seq<char>, Seq<char>, u64);

pub open spec fn download_view(d: ModelDownload) -> DownloadView {
    (d.name@, d.url@, d.expected_size)
}

pub open spec fn downloads_view(ds: Seq<ModelDownload>) -> Seq<DownloadView> {
    ds.map_values(|d: ModelDownload| download_view(d))
}

pub open spec fn missing_groups_message() -> Seq<char> {
    "Diarization manifest missing `groups` array"@
}

pub open spec fn missing_files_message() -> Seq<char> {
    "Diarization group missing `files` array"@
}

pub open spec fn missing_name_message() -> Seq<char> {
    "Diarization file entry missing `name`"@
}

pub open spec fn missing_url_message() -> Seq<char> {
    "Diarization file entry missing `url`"@
}

/// What one file entry contributes: its download, or the message of the
/// error it raises.
pub open spec fn file_entry(f: ManifestFile) -> std::result::Result<DownloadView, Seq<char>> {
    match f.name {
        None => Err(missing_name_message()),
        Some(n) => match f.url {
            None => Err(missing_url_message()),
            Some(u) => Ok((n@, u@, match f.size { Some(s) => s, None => 0 })),
        },
    }
}

/// The downloads of a list of file entries, up to the first malformed one.
pub open spec fn plan_files(fs: Seq<ManifestFile>) -> (Seq<DownloadView>, Option<Seq<char>>)
    decreases fs.len(),
{
    if fs.len() == 0 {
        (Seq::empty(), None)
    } else {
        let (d, e) = plan_files(fs.drop_last());
        if e is Some {
            (d, e)
        } else {
            match file_entry(fs.last()) {
                Ok(t) => (d.push(t), None),
                Err(m) => (d, Some(m)),
            }
        }
    }
}

/// The downloads of a list of groups, up to the first malformed group or
/// file entry.
pub open spec fn plan_groups(gs: Seq<ManifestGroup>) -> (Seq<DownloadView>, Option<Seq<char>>)
    decreases gs.len(),
{
    if gs.len() == 0 {
        (Seq::empty(), None)
    } else {
        let (d, e) = plan_groups(gs.drop_last());
        if e is Some {
            (d, e)
        } else {
            match gs.last().files {
                None => (d, Some(missing_files_message())),
                Some(fs) => {
                    let (d2, e2) = plan_files(fs@);
                    (d + d2, e2)
                },
            }
        }
    }
}

/// The downloads a manifest asks for, in order, up to its first malformed
/// part, and the message of the error that part raises.
pub open spec fn plan_manifest(m: DiarizationManifest) -> (Seq<DownloadView>, Option<Seq<char>>) {
    match m.groups {
        None => (Seq::empty(), Some(missing_groups_message())),
        Some(gs) => plan_groups(gs@),
    }
}

/// A well-formed file entry is fetched under its name from its URL, with
/// its size as expected size when it gives one and 0 when it gives none; an
/// entry without a name, or with a name but no URL, is an error.
pub proof fn lemma_file_entry_fields(f: ManifestFile)
    ensures
        f.name is None ==> file_entry(f) == Err::<DownloadView, Seq<char>>(missing_name_message()),
        f.name is Some && f.url is None ==> file_entry(f) == Err::<DownloadView, Seq<char>>(missing_url_message()),
        file_entry(f) matches Ok(t) ==> f.name matches Some(n) && f.url matches Some(u) && t.0 == n@ && t.1 == u@
            && (f.size matches Some(sz) ==> t.2 == sz) && (f.size is None ==> t.2 == 0),
        f.name is Some && f.url is Some ==> file_entry(f) is Ok,
{
}

/// The plan of a list of file entries is entry by entry: its downloads are
/// those of the leading well-formed entries, each given by that entry alone
/// (whatever its position), and it stops with the error of the first
/// malformed entry, if there is one.
pub proof fn lemma_plan_files_entrywise(fs: Seq<ManifestFile>)
    ensures
        plan_files(fs).0.len() <= fs.len(),
        forall|i: int| 0 <= i < plan_files(fs).0.len() ==> file_entry(#[trigger] fs[i]) == Ok::<DownloadView, Seq<char>>(plan_files(fs).0[i]),
        plan_files(fs).1 is None ==> plan_files(fs).0.len() == fs.len(),
        plan_files(fs).1 matches Some(m) ==> plan_files(fs).0.len() < fs.len()
            && file_entry(fs[plan_files(fs).0.len() as int]) == Err::<DownloadView, Seq<char>>(m),
    decreases fs.len(),
{
    if fs.len() > 0 {
        let prefix = fs.drop_last();
        lemma_plan_files_entrywise(prefix);
        assert forall|i: int| 0 <= i < prefix.len() implies #[trigger] prefix[i] == fs[i] by {}
        let (d, e) = plan_files(prefix);
        assert forall|i: int| 0 <= i < d.len() implies file_entry(#[trigger] fs[i]) == Ok::<DownloadView, Seq<char>>(d[i]) by {
            assert(fs[i] == prefix[i]);
        }
        if e is None {
            assert(fs.last() == fs[fs.len() - 1]);
            match file_entry(fs.last()) {
                Ok(t) => {
                    assert(plan_files(fs) == (d.push(t), None::<Seq<char>>));
                    assert forall|i: int| 0 <= i < d.push(t).len() implies file_entry(#[trigger] fs[i]) == Ok::<DownloadView, Seq<char>>(d.push(t)[i]) by {
                        if i < d.len() {
                            assert(fs[i] == prefix[i]);
                        }
                    }
                },
                Err(m) => {
                    assert(plan_files(fs) == (d, Some(m)));
                },
            }
        } else {
            assert(plan_files(fs) == (d, e));
            assert(fs[d.len() as int] == prefix[d.len() as int]);
        }
    }
}

/// Groups are planned one after another, each on its own: a single group
/// gives the plan of its files (or an error when it has no `files` array),
/// and the plan of two runs of groups is that of the first, followed, when
/// the first raised no error, by that of the second.
pub proof fn lemma_plan_groups_compose(gs: Seq<ManifestGroup>, hs: Seq<ManifestGroup>, g: ManifestGroup)
    ensures
        plan_groups(seq![g]) == match g.files {
            None => (Seq::<DownloadView>::empty(), Some(missing_files_message())),
            Some(fs) => plan_files(fs@),
        },
        plan_groups(gs + hs) == if plan_groups(gs).1 is Some {
            plan_groups(gs)
        } else {
            (plan_groups(gs).0 + plan_groups(hs).0, plan_groups(hs).1)
        },
    decreases hs.len(),
{
    let one = seq![g];
    assert(one.drop_last() =~= Seq::<ManifestGroup>::empty());
    assert(plan_groups(one.drop_last()) == (Seq::<DownloadView>::empty(), None::<Seq<char>>));
    assert(one.last() == g);
    if let Some(fs) = g.files {
        assert(Seq::<DownloadView>::empty() + plan_files(fs@).0 =~= plan_files(fs@).0);
    }
    if hs.len() == 0 {
        assert(gs + hs =~= gs);
        assert(plan_groups(gs).0 + Seq::<DownloadView>::empty() =~= plan_groups(gs).0);
    } else {
        lemma_plan_groups_compose(gs, hs.drop_last(), g);
        assert((gs + hs).drop_last() =~= gs + hs.drop_last());
        assert((gs + hs).last() == hs.last());
        if plan_groups(gs).1 is None {
            let a = plan_groups(gs).0;
            let b = plan_groups(hs.drop_last()).0;
            if plan_groups(hs.drop_last()).1 is None {
                if let Some(fs) = hs.last().files {
                    assert(a + b + plan_files(fs@).0 =~= a + (b + plan_files(fs@).0));
                }
            }
        }
    }
}

proof fn lemma_plan_files_prefix(fs: Seq<ManifestFile>, k: int)
    requires
        0 <= k <= fs.len(),
        plan_files(fs.take(k)).1 is Some,
    ensures
        plan_files(fs) == plan_files(fs.take(k)),
    decreases fs.len() - k,
{
    if k < fs.len() {
        assert(fs.take(k + 1).drop_last() =~= fs.take(k));
        lemma_plan_files_prefix(fs, k + 1);
    } else {
        assert(fs.take(k) =~= fs);
    }
}

proof fn lemma_plan_groups_prefix(gs: Seq<ManifestGroup>, k: int)
    requires
        0 <= k <= gs.len(),
        plan_groups(gs.take(k)).1 is Some,
    ensures
        plan_groups(gs) == plan_groups(gs.take(k)),
    decreases gs.len() - k,
{
    if k < gs.len() {
        assert(gs.take(k + 1).drop_last() =~= gs.take(k));
        lemma_plan_groups_prefix(gs, k + 1);
    } else {
        assert(gs.take(k) =~= gs);
    }
}

/// Reads the files of one group, appending them to `downloads`; returns the
/// message of the first malformed entry, if any.
fn plan_group_files(files: &Vec<ManifestFile>, downloads: &mut Vec<ModelDownload>) -> (r: Option<Error>)
    ensures
        downloads_view(final(downloads)@) == downloads_view(old(downloads)@) + plan_files(files@).0,
        r is Some <==> plan_files(files@).1 is Some,
        r matches Some(e) ==> is_api_error(e, -1i32, plan_files(files@).1.unwrap()),
{
    let ghost start = downloads_view(downloads@);
    let n = files.len();
    let mut j: usize = 0;
    while j < n
        invariant
            n == files@.len(),
            j <= n,
            plan_files(files@.take(j as int)).1 is None,
            start == downloads_view(old(downloads)@),
            downloads_view(downloads@) == start + plan_files(files@.take(j as int)).0,
        decreases n - j,
    {
        assert(files@.take(j as int + 1).drop_last() =~= files@.take(j as int));
        assert(files@.take(j as int + 1).last() == files@[j as int]);
        let f = &files[j];
        proof {
            let prev = plan_files(files@.take(j as int));
            assert(plan_files(files@.take(j as int + 1)) == (match file_entry(files@[j as int]) {
                Ok(t) => (prev.0.push(t), None::<Seq<char>>),
                Err(m) => (prev.0, Some(m)),
            }));
        }
        let name = match &f.name {
            Some(n) => n,
            None => {
                proof {
                    lemma_plan_files_prefix(files@, j as int + 1);
                }
                return Some(local_error("Diarization file entry missing `name`".to_owned()));
            },
        };
        let url = match &f.url {
            Some(u) => u,
            None => {
                proof {
                    lemma_plan_files_prefix(files@, j as int + 1);
                }
                return Some(local_error("Diarization file entry missing `url`".to_owned()));
            },
        };
        let expected_size = match f.size {
            Some(s) => s,
            None => 0,
        };
        let ghost before = downloads@;
        let d = ModelDownload { name: name.clone(), url: url.clone(), expected_size };
        downloads.push(d);
        proof {
            assert(downloads@ == before.push(d));
            assert(downloads_view(downloads@) =~= downloads_view(before).push(download_view(d)));
        }
        j = j + 1;
    }
    assert(files@.take(n as int) =~= files@);
    None
}

/// Plans the download of the files a diarization manifest lists: every
/// well-formed file entry in order, up to the first malformed part, whose
/// error comes after them.
pub fn plan_diarization_downloads(manifest: &DiarizationManifest) -> (r: DownloadPlan)
    ensures
        downloads_view(r.downloads@) == plan_manifest(*manifest).0,
        r.error is Some <==> plan_manifest(*manifest).1 is Some,
        r.error matches Some(e) ==> is_api_error(e, -1i32, plan_manifest(*manifest).1.unwrap()),
{
    let mut downloads: Vec<ModelDownload> = Vec::new();
    assert(downloads_view(downloads@) =~= Seq::<DownloadView>::empty());
    let groups = match &manifest.groups {
        Some(g) => g,
        None => {
            return DownloadPlan {
                downloads,
                error: Some(local_error("Diarization manifest missing `groups` array".to_owned())),
            };
        },
    };
    let n = groups.len();
    let mut i: usize = 0;
    while i < n
        invariant
            n == groups@.len(),
            i <= n,
            plan_groups(groups@.take(i as int)).1 is None,
            manifest.groups matches Some(g) && g@ == groups@,
            downloads_view(downloads@) == plan_groups(groups@.take(i as int)).0,
        decreases n - i,
    {
        assert(groups@.take(i as int + 1).drop_last() =~= groups@.take(i as int));
        assert(groups@.take(i as int + 1).last() == groups@[i as int]);
        proof {
            let prev = plan_groups(groups@.take(i as int));
            assert(plan_groups(groups@.take(i as int + 1)) == (match groups@[i as int].files {
                None => (prev.0, Some(missing_files_message())),
                Some(fs) => (prev.0 + plan_files(fs@).0, plan_files(fs@).1),
            }));
        }
        let files = match &groups[i].files {
            Some(f) => f,
            None => {
                proof {
                    lemma_plan_groups_prefix(groups@, i as int + 1);
                }
                return DownloadPlan {
                    downloads,
                    error: Some(local_error("Diarization group missing `files` array".to_owned())),
                };
            },
        };
        let err = plan_group_files(files, &mut downloads);
        if err.is_some() {
            proof {
                lemma_plan_groups_prefix(groups@, i as int + 1);
            }
            return DownloadPlan { downloads, error: err };
        }
        i = i + 1;
    }
    assert(groups@.take(n as int) =~= groups@);
    DownloadPlan { downloads, error: None }
}

/// Whether a planned file must be fetched, given the size of the file
/// already at its destination (`None` when there is none): an existing file
/// is kept when the manifest gives no size or the sizes agree.
pub fn download_needed(expected_size: u64, existing_len: Option<u64>) -> (r: bool)
    ensures
        r == match existing_len {
            None => true,
            Some(have) => !(expected_size == 0 || have == expected_size),
        },
{
    match existing_len {
        None => true,
        Some(have) => !(expected_size == 0 || have == expected_size),
    }
}

/// Whether both diarization models are already cached: each exists with a
/// non-zero size (`None` when missing or unreadable).
pub fn cached_models_present(segmentation_len: Option<u64>, embedding_len: Option<u64>) -> (r: bool)
    ensures
        r == ((match segmentation_len { Some(s) => s > 0, None => false }) && (match embedding_len { Some(e) => e > 0, None => false })),
{
    let seg = match segmentation_len {
        Some(s) => s > 0,
        None => false,
    };
    let emb = match embedding_len {
        Some(e) => e > 0,
        None => false,
    };
    seg && emb
}

/// The path components of the diarization model cache: under a custom cache
/// directory `<custom>/diarization`; else under the user cache directory
/// `<user>/moonshine-rs/diarization`; else under the temporary directory.
pub fn diarization_cache_components(custom: Option<String>, user_cache: Option<String>, temp_dir: String) -> (r: Vec<String>)
    ensures
        r@.map_values(|s: String| s@) == match custom {
            Some(c) => seq![c@, "diarization"@],
            None => match user_cache {
                Some(u) => seq![u@, "moonshine-rs"@, "diarization"@],
                None => seq![temp_dir@, "moonshine-rs"@, "diarization"@],
            },
        },
{
    let mut parts: Vec<String> = Vec::new();
    match custom {
        Some(c) => {
            parts.push(c);
        },
        None => {
            match user_cache {
                Some(u) => parts.push(u),
                None => parts.push(temp_dir),
            }
            parts.push("moonshine-rs".to_owned());
        },
    }
    parts.push("diarization".to_owned());
    proof {
        let v = parts@.map_values(|s: String| s@);
        assert(v =~= match custom {
            Some(c) => seq![c@, "diarization"@],
            None => match user_cache {
                Some(u) => seq![u@, "moonshine-rs"@, "diarization"@],
                None => seq![temp_dir@, "moonshine-rs"@, "diarization"@],
            },
        });
    }
    parts
}

} // verus!
