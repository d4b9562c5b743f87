use vstd::prelude::*;
use vstd::string::*;

use crate::download::DownloadSession;
use crate::multipart::{content_type_header, fields_view, multipart_content_type};
use crate::options::{copy_options, options_view, ManagerUploadOption, UploadOptionView};
use crate::protocol::Message;
use crate::upload::UploadSession;

verus! {

/// The boundary token that delimits the parts of the upload's body.
pub open spec fn http_boundary() -> Seq<char> {
    "---------------------------15875380808008"@
}

pub open spec fn texts_view(v: Seq<String>) -> Seq<Seq<char>> {
    v.map_values(|s: String| s@)
}

pub open spec fn strs_view(v: Seq<&str>) -> Seq<Seq<char>> {
    v.map_values(|s: &str| s@)
}

pub open spec fn str_pairs_view(v: Seq<(&str, &str)>) -> Seq<(Seq<char>, Seq<char>)> {
    v.map_values(|p: (&str, &str)| (p.0@, p.1@))
}

/// Whether some entry after index `i` has the same name as entry `i`.
pub open spec fn named_again_later(fs: Seq<(Seq<char>, Seq<char>)>, i: int) -> bool {
    exists|j: int| i < j < fs.len() && #[trigger] fs[j].0 == fs[i].0
}

/// The form fields with, for each name, only its last entry, in the order of those entries.
pub open spec fn last_per_name(fs: Seq<(Seq<char>, Seq<char>)>) -> Seq<(Seq<char>, Seq<char>)>
    decreases fs.len(),
{
    if fs.len() == 0 {
        fs
    } else if named_again_later(fs, 0) {
        last_per_name(fs.drop_first())
    } else {
        seq![fs[0]] + last_per_name(fs.drop_first())
    }
}

/// No two form fields share a name.
pub open spec fn names_unique(fs: Seq<(Seq<char>, Seq<char>)>) -> bool {
    forall|i: int, j: int| 0 <= i < j < fs.len() ==> #[trigger] fs[i].0 != #[trigger] fs[j].0
}

pub open spec fn has_name(fs: Seq<(Seq<char>, Seq<char>)>, n: Seq<char>) -> bool {
    exists|i: int| 0 <= i < fs.len() && fs[i].0 == n
}

proof fn lemma_last_per_name_names(fs: Seq<(Seq<char>, Seq<char>)>)
    ensures
        forall|k: int|
            0 <= k < last_per_name(fs).len() ==> has_name(fs, #[trigger] last_per_name(fs)[k].0),
        names_unique(last_per_name(fs)),
    decreases fs.len(),
{
    if fs.len() > 0 {
        let rest = fs.drop_first();
        lemma_last_per_name_names(rest);
        let r = last_per_name(fs);
        assert forall|k: int| 0 <= k < r.len() implies has_name(fs, #[trigger] r[k].0) by {
            if named_again_later(fs, 0) {
                let i = choose|i: int| 0 <= i < rest.len() && rest[i].0 == last_per_name(rest)[k].0;
                assert(fs[i + 1].0 == r[k].0);
            } else if k == 0 {
                assert(fs[0].0 == r[k].0);
            } else {
                assert(r[k] == last_per_name(rest)[k - 1]);
                assert(has_name(rest, last_per_name(rest)[k - 1].0));
                let i = choose|i: int|
                    0 <= i < rest.len() && rest[i].0 == last_per_name(rest)[k - 1].0;
                assert(fs[i + 1].0 == r[k].0);
            }
        }
        if !named_again_later(fs, 0) {
            assert forall|i: int, j: int| 0 <= i < j < r.len() implies #[trigger] r[i].0
                != #[trigger] r[j].0 by {
                assert(r[j] == last_per_name(rest)[j - 1]);
                assert(has_name(rest, last_per_name(rest)[j - 1].0));
                if i == 0 {
                    let m = choose|m: int|
                        0 <= m < rest.len() && rest[m].0 == last_per_name(rest)[j - 1].0;
                    assert(fs[m + 1].0 == r[j].0);
                } else {
                    assert(r[i] == last_per_name(rest)[i - 1]);
                }
            }
        }
    }
}

/// Keeps, for each name, only the last of the form fields that carry it.
fn last_entry_per_name(fields: &Vec<(String, String)>) -> (r: Vec<(String, String)>)
    ensures
        fields_view(r@) == last_per_name(fields_view(fields@)),
{
    let ghost fs = fields_view(fields@);
    let n = fields.len();
    let mut r: Vec<(String, String)> = Vec::new();
    let mut i: usize = 0;
    assert(fs.subrange(0, n as int) =~= fs);
    while i < n
        invariant
            n == fields@.len(),
            fs == fields_view(fields@),
            i <= n,
            fields_view(r@) + last_per_name(fs.subrange(i as int, n as int)) == last_per_name(fs),
        decreases n - i,
    {
        let ghost sub = fs.subrange(i as int, n as int);
        let mut later = false;
        let mut j: usize = i + 1;
        while j < n
            invariant
                n == fields@.len(),
                fs == fields_view(fields@),
                i < j <= n,
                later == exists|k: int| i < k < j && #[trigger] fs[k].0 == fs[i as int].0,
            decreases n - j,
        {
            proof {
                assert(fs[j as int].0 == fields@[j as int].0@);
                assert(fs[i as int].0 == fields@[i as int].0@);
            }
            if fields[j].0 == fields[i].0 {
                later = true;
            }
            j = j + 1;
        }
        proof {
            assert(sub.drop_first() =~= fs.subrange(i + 1, n as int));
            if later {
                let k = choose|k: int| i < k < n && #[trigger] fs[k].0 == fs[i as int].0;
                assert(sub[k - i].0 == sub[0].0);
            } else {
                assert forall|k: int| 0 < k < sub.len() implies #[trigger] sub[k].0 != sub[0].0 by {
                    assert(sub[k] == fs[k + i]);
                }
            }
        }
        if !later {
            let ghost before = fields_view(r@);
            r.push((fields[i].0.clone(), fields[i].1.clone()));
            assert(fields_view(r@) =~= before.push(sub[0]));
            assert(before.push(sub[0]) + last_per_name(sub.drop_first()) =~= before + (seq![sub[0]]
                + last_per_name(sub.drop_first())));
        }
        i = i + 1;
    }
    assert(fields_view(r@) + last_per_name(fs.subrange(n as int, n as int)) =~= fields_view(r@));
    r
}

/// The configuration of one transfer, from a download URL into an upload URL. Setters take
/// effect until the transfer starts; after that they change nothing.
pub struct Manager {
    download_url: String,
    upload_url: String,
    upload_options: Vec<ManagerUploadOption>,
    upload_headers: Vec<String>,
    download_headers: Vec<String>,
    upload_form_fields: Vec<(String, String)>,
    http_boundary: String,
    started: bool,
}

fn copy_texts(v: &Vec<String>) -> (r: Vec<String>)
    ensures
        texts_view(r@) == texts_view(v@),
{
    let mut r: Vec<String> = Vec::new();
    let mut i: usize = 0;
    while i < v.len()
        invariant
            i <= v@.len(),
            r@.len() == i,
            forall|j: int| 0 <= j < i ==> #[trigger] r@[j]@ == v@[j]@,
        decreases v@.len() - i,
    {
        r.push(v[i].clone());
        i = i + 1;
    }
    assert(texts_view(r@) =~= texts_view(v@));
    r
}

fn own_texts(v: &Vec<&str>) -> (r: Vec<String>)
    ensures
        texts_view(r@) == strs_view(v@),
{
    let mut r: Vec<String> = Vec::new();
    let mut i: usize = 0;
    while i < v.len()
        invariant
            i <= v@.len(),
            r@.len() == i,
            forall|j: int| 0 <= j < i ==> #[trigger] r@[j]@ == v@[j]@,
        decreases v@.len() - i,
    {
        r.push(String::from_str(v[i]));
        i = i + 1;
    }
    assert(texts_view(r@) =~= strs_view(v@));
    r
}

fn copy_fields(v: &Vec<(String, String)>) -> (r: Vec<(String, String)>)
    ensures
        fields_view(r@) == fields_view(v@),
{
    let mut r: Vec<(String, String)> = Vec::new();
    let mut i: usize = 0;
    while i < v.len()
        invariant
            i <= v@.len(),
            r@.len() == i,
            forall|j: int|
                0 <= j < i ==> (#[trigger] r@[j]).0@ == v@[j].0@ && r@[j].1@ == v@[j].1@,
        decreases v@.len() - i,
    {
        r.push((v[i].0.clone(), v[i].1.clone()));
        i = i + 1;
    }
    assert(fields_view(r@) =~= fields_view(v@));
    r
}

impl Manager {
    pub closed spec fn download_url_spec(&self) -> Seq<char> {
        self.download_url@
    }

    pub closed spec fn upload_url_spec(&self) -> Seq<char> {
        self.upload_url@
    }

    pub closed spec fn upload_options_spec(&self) -> Seq<UploadOptionView> {
        options_view(self.upload_options@)
    }

    pub closed spec fn upload_headers_spec(&self) -> Seq<Seq<char>> {
        texts_view(self.upload_headers@)
    }

    pub closed spec fn download_headers_spec(&self) -> Seq<Seq<char>> {
        texts_view(self.download_headers@)
    }

    pub closed spec fn form_fields_spec(&self) -> Seq<(Seq<char>, Seq<char>)> {
        fields_view(self.upload_form_fields@)
    }

    pub closed spec fn boundary_spec(&self) -> Seq<char> {
        self.http_boundary@
    }

    pub closed spec fn started(&self) -> bool {
        self.started
    }

    /// A transfer from `download_url` into `upload_url`, with no options and no extra
    /// headers where none are given.
    pub fn new(
        download_url: &str,
        upload_url: &str,
        upload_options: Option<Vec<ManagerUploadOption>>,
        upload_headers: Option<Vec<String>>,
    ) -> (r: Self)
        ensures
            r.download_url_spec() == download_url@,
            r.upload_url_spec() == upload_url@,
            r.upload_options_spec() == match upload_options {
                Some(o) => options_view(o@),
                None => Seq::empty(),
            },
            r.upload_headers_spec() == match upload_headers {
                Some(h) => texts_view(h@),
                None => Seq::empty(),
            },
            r.download_headers_spec() == Seq::<Seq<char>>::empty(),
            r.form_fields_spec() == Seq::<(Seq<char>, Seq<char>)>::empty(),
            r.boundary_spec() == http_boundary(),
            !r.started(),
    {
        let upload_options = match upload_options {
            Some(o) => o,
            None => Vec::new(),
        };
        let upload_headers = match upload_headers {
            Some(h) => h,
            None => Vec::new(),
        };
        let r = Manager {
            download_url: String::from_str(download_url),
            upload_url: String::from_str(upload_url),
            upload_options,
            upload_headers,
            download_headers: Vec::new(),
            upload_form_fields: Vec::new(),
            http_boundary: String::from_str("---------------------------15875380808008"),
            started: false,
        };
        assert(texts_view(r.download_headers@) =~= Seq::<Seq<char>>::empty());
        assert(fields_view(r.upload_form_fields@) =~= Seq::<(Seq<char>, Seq<char>)>::empty());
        assert(options_view(r.upload_options@) =~= options_view(upload_options@));
        r
    }
    /// Replaces the upload options, unless the transfer has started.
    pub fn set_upload_options(&mut self, options: &Vec<ManagerUploadOption>)
        ensures
            old(self).started() ==> *final(self) == *old(self),
            !old(self).started() ==> final(self).upload_options_spec() == options_view(options@)
                && final(self).upload_headers_spec() == old(self).upload_headers_spec()
                && final(self).download_headers_spec() == old(self).download_headers_spec()
                && final(self).form_fields_spec() == old(self).form_fields_spec(),
            final(self).download_url_spec() == old(self).download_url_spec(),
            final(self).upload_url_spec() == old(self).upload_url_spec(),
            final(self).boundary_spec() == old(self).boundary_spec(),
            final(self).started() == old(self).started(),
    {
        if !self.started {
            self.upload_options = copy_options(options);
        }
    }

    /// Replaces the extra headers of the upload request, unless the transfer has started.
    pub fn set_upload_headers(&mut self, headers: &Vec<&str>)
        ensures
            old(self).started() ==> *final(self) == *old(self),
            !old(self).started() ==> final(self).upload_headers_spec() == strs_view(headers@)
                && final(self).upload_options_spec() == old(self).upload_options_spec()
                && final(self).download_headers_spec() == old(self).download_headers_spec()
                && final(self).form_fields_spec() == old(self).form_fields_spec(),
            final(self).download_url_spec() == old(self).download_url_spec(),
            final(self).upload_url_spec() == old(self).upload_url_spec(),
            final(self).boundary_spec() == old(self).boundary_spec(),
            final(self).started() == old(self).started(),
    {
        if !self.started {
            self.upload_headers = own_texts(headers);
        }
    }

    /// Replaces the plain form fields sent before the file, unless the transfer has started.
    /// Of several fields with one name the last one stays.
    pub fn set_upload_form_fields(&mut self, fields: &Vec<(&str, &str)>)
        ensures
            old(self).started() ==> *final(self) == *old(self),
            !old(self).started() ==> final(self).form_fields_spec() == last_per_name(
                str_pairs_view(fields@),
            ) && names_unique(final(self).form_fields_spec())
                && final(self).upload_options_spec() == old(self).upload_options_spec()
                && final(self).upload_headers_spec() == old(self).upload_headers_spec()
                && final(self).download_headers_spec() == old(self).download_headers_spec(),
            final(self).download_url_spec() == old(self).download_url_spec(),
            final(self).upload_url_spec() == old(self).upload_url_spec(),
            final(self).boundary_spec() == old(self).boundary_spec(),
            final(self).started() == old(self).started(),
    {
        if !self.started {
            let mut r: Vec<(String, String)> = Vec::new();
            let mut i: usize = 0;
            while i < fields.len()
                invariant
                    i <= fields@.len(),
                    r@.len() == i,
                    forall|j: int|
                        0 <= j < i ==> (#[trigger] r@[j]).0@ == fields@[j].0@ && r@[j].1@
                            == fields@[j].1@,
                decreases fields@.len() - i,
            {
                r.push((String::from_str(fields[i].0), String::from_str(fields[i].1)));
                i = i + 1;
            }
            assert(fields_view(r@) =~= str_pairs_view(fields@));
            self.upload_form_fields = last_entry_per_name(&r);
            proof {
                lemma_last_per_name_names(str_pairs_view(fields@));
            }
        }
    }

    /// Replaces the extra headers of the download request, unless the transfer has started.
    pub fn set_download_headers(&mut self, headers: &Vec<&str>)
        ensures
            old(self).started() ==> *final(self) == *old(self),
            !old(self).started() ==> final(self).download_headers_spec() == strs_view(headers@)
                && final(self).upload_options_spec() == old(self).upload_options_spec()
                && final(self).upload_headers_spec() == old(self).upload_headers_spec()
                && final(self).form_fields_spec() == old(self).form_fields_spec(),
            final(self).download_url_spec() == old(self).download_url_spec(),
            final(self).upload_url_spec() == old(self).upload_url_spec(),
            final(self).boundary_spec() == old(self).boundary_spec(),
            final(self).started() == old(self).started(),
    {
        if !self.started {
            self.download_headers = own_texts(headers);
        }
    }

    /// Starts the transfer: hands out the two sides of the pipe, once. A second call hands
    /// out nothing, so that no second pipeline runs.
    pub fn start(&mut self) -> (r: Option<(UploadSession, DownloadSession)>)
        ensures
            final(self).started(),
            r is None <==> old(self).started(),
            final(self).download_url_spec() == old(self).download_url_spec(),
            final(self).upload_url_spec() == old(self).upload_url_spec(),
            final(self).upload_options_spec() == old(self).upload_options_spec(),
            final(self).upload_headers_spec() == old(self).upload_headers_spec(),
            final(self).download_headers_spec() == old(self).download_headers_spec(),
            final(self).form_fields_spec() == old(self).form_fields_spec(),
            final(self).boundary_spec() == old(self).boundary_spec(),
            r matches Some((u, d)) ==> u.wf() && u.download_url() == old(self).download_url_spec()
                && u.options() == old(self).upload_options_spec() && u.form_fields()
                == old(self).form_fields_spec() && u.boundary() == old(self).boundary_spec()
                && u.received() == Seq::<Message>::empty() && u.sent() == Seq::<u8>::empty()
                && d.wf() && d.sent() == Seq::<Message>::empty() && !d.headers_ended()
                && !d.finished(),
    {
        if self.started {
            return None;
        }
        self.started = true;
        let upload = UploadSession::new(
            self.download_url.clone(),
            copy_options(&self.upload_options),
            copy_fields(&self.upload_form_fields),
            self.http_boundary.clone(),
        );
        Some((upload, DownloadSession::new()))
    }

    /// The headers of the upload request: the extra ones, then the multipart content type.
    pub fn upload_request_headers(&self) -> (r: Vec<String>)
        ensures
            texts_view(r@) == self.upload_headers_spec().push(
                "Content-Type: "@ + multipart_content_type(self.boundary_spec()),
            ),
    {
        let mut r = copy_texts(&self.upload_headers);
        let mut line = String::from_str("Content-Type: ");
        line.append(content_type_header(self.http_boundary.as_str()).as_str());
        let ghost before = r@;
        r.push(line);
        assert(texts_view(r@) =~= texts_view(before).push(r@.last()@));
        r
    }

    /// The headers of the download request.
    pub fn download_request_headers(&self) -> (r: Vec<String>)
        ensures
            texts_view(r@) == self.download_headers_spec(),
    {
        copy_texts(&self.download_headers)
    }

    pub fn download_url(&self) -> (r: String)
        ensures
            r@ == self.download_url_spec(),
    {
        self.download_url.clone()
    }

    pub fn upload_url(&self) -> (r: String)
        ensures
            r@ == self.upload_url_spec(),
    {
        self.upload_url.clone()
    }
}

} // verus!
