use vstd::prelude::*;
use vstd::string::*;

use crate::file_name::{derived_file_name, guess_file_name_from_url};

verus! {

/// The HTTP method of the upload request.
#[derive(Clone, Copy, Debug, PartialEq, Eq, Structural)]
pub enum ManagerUploadRequestType {
    POST,
    PUT,
}

/// One setting of the upload; of several of the same kind the last one wins.
#[derive(Debug)]
pub enum ManagerUploadOption {
    FieldName(String),
    FileName(String),
    ContentType(String),
    RequestType(ManagerUploadRequestType),
}

/// An upload option with its texts as character sequences.
pub enum UploadOptionView {
    FieldName(Seq<char>),
    FileName(Seq<char>),
    ContentType(Seq<char>),
    RequestType(ManagerUploadRequestType),
}

impl View for ManagerUploadOption {
    type V = UploadOptionView;

    open spec fn view(&self) -> UploadOptionView {
        match self {
            ManagerUploadOption::FieldName(s) => UploadOptionView::FieldName(s@),
            ManagerUploadOption::FileName(s) => UploadOptionView::FileName(s@),
            ManagerUploadOption::ContentType(s) => UploadOptionView::ContentType(s@),
            ManagerUploadOption::RequestType(t) => UploadOptionView::RequestType(*t),
        }
    }
}

impl ManagerUploadOption {
    /// A copy of this option.
    pub fn duplicate(&self) -> (r: ManagerUploadOption)
        ensures
            r@ == self@,
    {
        match self {
            ManagerUploadOption::FieldName(s) => ManagerUploadOption::FieldName(s.clone()),
            ManagerUploadOption::FileName(s) => ManagerUploadOption::FileName(s.clone()),
            ManagerUploadOption::ContentType(s) => ManagerUploadOption::ContentType(s.clone()),
            ManagerUploadOption::RequestType(t) => ManagerUploadOption::RequestType(*t),
        }
    }
}

pub open spec fn options_view(options: Seq<ManagerUploadOption>) -> Seq<UploadOptionView> {
    options.map_values(|o: ManagerUploadOption| o@)
}

/// Copies a list of upload options.
pub fn copy_options(options: &Vec<ManagerUploadOption>) -> (r: Vec<ManagerUploadOption>)
    ensures
        options_view(r@) == options_view(options@),
{
    let mut r: Vec<ManagerUploadOption> = Vec::new();
    let mut i: usize = 0;
    while i < options.len()
        invariant
            i <= options@.len(),
            r@.len() == i,
            forall|j: int| 0 <= j < i ==> #[trigger] r@[j]@ == options@[j]@,
        decreases options@.len() - i,
    {
        r.push(options[i].duplicate());
        i = i + 1;
    }
    assert(options_view(r@) =~= options_view(options@));
    r
}

/// The settings of the upload as the options leave them. An empty file name stands for
/// none given.
pub struct UploadSettings {
    pub field_name: Seq<char>,
    pub file_name: Seq<char>,
    pub content_type: Option<Seq<char>>,
    pub request_type: ManagerUploadRequestType,
}

/// One option applied to the settings: it replaces the setting of its kind.
pub open spec fn apply_option(s: UploadSettings, o: UploadOptionView) -> UploadSettings {
    match o {
        UploadOptionView::FieldName(v) => UploadSettings { field_name: v, ..s },
        UploadOptionView::FileName(v) => UploadSettings { file_name: v, ..s },
        UploadOptionView::ContentType(v) => UploadSettings { content_type: Some(v), ..s },
        UploadOptionView::RequestType(t) => UploadSettings { request_type: t, ..s },
    }
}

/// The options applied in list order.
pub open spec fn apply_options(s: UploadSettings, os: Seq<UploadOptionView>) -> UploadSettings
    decreases os.len(),
{
    if os.len() == 0 {
        s
    } else {
        apply_option(apply_options(s, os.drop_last()), os.last())
    }
}

/// The settings before any option: field `file`, no file name, the content type the download
/// declared, and `POST`.
pub open spec fn default_settings(header_content_type: Option<Seq<char>>) -> UploadSettings {
    UploadSettings {
        field_name: seq!['f', 'i', 'l', 'e'],
        file_name: Seq::empty(),
        content_type: header_content_type,
        request_type: ManagerUploadRequestType::POST,
    }
}

/// The settings an upload uses: the options over the defaults, with the file name derived
/// from the download URL when none was given.
pub open spec fn resolved_settings(
    options: Seq<UploadOptionView>,
    header_content_type: Option<Seq<char>>,
    download_url: Seq<char>,
) -> UploadSettings {
    let s = apply_options(default_settings(header_content_type), options);
    if s.file_name.len() == 0 {
        UploadSettings { file_name: derived_file_name(download_url), ..s }
    } else {
        s
    }
}

/// The settings of one upload, resolved from its options.
pub struct ResolvedUpload {
    pub field_name: String,
    pub file_name: String,
    pub content_type: Option<String>,
    pub request_type: ManagerUploadRequestType,
}

impl View for ResolvedUpload {
    type V = UploadSettings;

    open spec fn view(&self) -> UploadSettings {
        UploadSettings {
            field_name: self.field_name@,
            file_name: self.file_name@,
            content_type: match self.content_type {
                Some(t) => Some(t@),
                None => None,
            },
            request_type: self.request_type,
        }
    }
}

/// Resolves the upload's settings: each option replaces the earlier setting of its kind.
pub fn resolve_upload_options(
    options: &Vec<ManagerUploadOption>,
    header_content_type: Option<String>,
    download_url: &String,
) -> (r: ResolvedUpload)
    ensures
        r@ == resolved_settings(
            options_view(options@),
            match header_content_type {
                Some(t) => Some(t@),
                None => None,
            },
            download_url@,
        ),
        r.file_name@.len() > 0,
{
    let mut r = ResolvedUpload {
        field_name: String::from_str("file"),
        file_name: String::new(),
        content_type: header_content_type,
        request_type: ManagerUploadRequestType::POST,
    };
    proof {
        reveal_strlit("file");
        assert("file"@ =~= seq!['f', 'i', 'l', 'e']);
    }
    let ghost init = r@;
    assert(init =~= default_settings(init.content_type));
    let mut i: usize = 0;
    while i < options.len()
        invariant
            i <= options@.len(),
            r@ == apply_options(init, options_view(options@.subrange(0, i as int))),
        decreases options@.len() - i,
    {
        match &options[i] {
            ManagerUploadOption::FieldName(v) => r.field_name = v.clone(),
            ManagerUploadOption::FileName(v) => r.file_name = v.clone(),
            ManagerUploadOption::ContentType(v) => r.content_type = Some(v.clone()),
            ManagerUploadOption::RequestType(t) => r.request_type = *t,
        }
        proof {
            let next = options_view(options@.subrange(0, i + 1));
            assert(next.drop_last() =~= options_view(options@.subrange(0, i as int)));
            assert(r@ =~= apply_option(
                apply_options(init, options_view(options@.subrange(0, i as int))),
                next.last(),
            ));
        }
        i = i + 1;
    }
    assert(options@.subrange(0, i as int) =~= options@);
    if r.file_name.as_str().unicode_len() == 0 {
        r.file_name = guess_file_name_from_url(download_url);
    }
    r
}

} // verus!
