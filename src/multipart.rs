use vstd::prelude::*;
use vstd::string::*;

verus! {

/// The text of one plain form field, delimited by the boundary.
pub open spec fn field_entry(boundary: Seq<char>, name: Seq<char>, value: Seq<char>) -> Seq<char> {
    "--"@ + boundary + "\r\nContent-Disposition: form-data; name=\""@ + name + "\"\r\n\r\n"@
        + value + "\r\n"@
}

/// The entries of all plain form fields, in order.
pub open spec fn field_entries(boundary: Seq<char>, fields: Seq<(Seq<char>, Seq<char>)>) -> Seq<
    char,
>
    decreases fields.len(),
{
    if fields.len() == 0 {
        Seq::empty()
    } else {
        field_entries(boundary, fields.drop_last()) + field_entry(
            boundary,
            fields.last().0,
            fields.last().1,
        )
    }
}

/// The optional `Content-Type` line of the file part.
pub open spec fn content_type_line(content_type: Option<Seq<char>>) -> Seq<char> {
    match content_type {
        Some(t) => "\r\nContent-Type: "@ + t,
        None => Seq::empty(),
    }
}

/// The headers of the file part, written just before the streamed file content.
pub open spec fn file_preamble(
    boundary: Seq<char>,
    field_name: Seq<char>,
    file_name: Seq<char>,
    content_type: Option<Seq<char>>,
) -> Seq<char> {
    "--"@ + boundary + "\r\nContent-Disposition: form-data; name=\""@ + field_name
        + "\"; filename=\""@ + file_name + "\""@ + content_type_line(content_type) + "\r\n\r\n"@
}

/// The closing boundary, written just after the streamed file content.
pub open spec fn epilogue(boundary: Seq<char>) -> Seq<char> {
    "\r\n--"@ + boundary + "--\r\n"@
}

/// The media type of the whole request body.
pub open spec fn multipart_content_type(boundary: Seq<char>) -> Seq<char> {
    "multipart/form-data; boundary="@ + boundary
}

/// The view of a list of form fields as pairs of texts.
pub open spec fn fields_view(fields: Seq<(String, String)>) -> Seq<(Seq<char>, Seq<char>)> {
    fields.map_values(|p: (String, String)| (p.0@, p.1@))
}

/// Builds the text of one plain form field.
pub fn build_field_entry(boundary: &str, name: &str, value: &str) -> (r: String)
    ensures
        r@ == field_entry(boundary@, name@, value@),
{
    let mut r = String::from_str("--");
    r.append(boundary);
    r.append("\r\nContent-Disposition: form-data; name=\"");
    r.append(name);
    r.append("\"\r\n\r\n");
    r.append(value);
    r.append("\r\n");
    r
}

/// Builds the entries of all plain form fields, in the order given.
pub fn build_field_entries(boundary: &str, fields: &Vec<(String, String)>) -> (r: String)
    ensures
        r@ == field_entries(boundary@, fields_view(fields@)),
{
    let mut r = String::new();
    let mut i: usize = 0;
    while i < fields.len()
        invariant
            i <= fields@.len(),
            r@ == field_entries(boundary@, fields_view(fields@.subrange(0, i as int))),
        decreases fields@.len() - i,
    {
        let entry = build_field_entry(boundary, fields[i].0.as_str(), fields[i].1.as_str());
        r.append(entry.as_str());
        proof {
            let next = fields_view(fields@.subrange(0, i + 1));
            assert(next.drop_last() =~= fields_view(fields@.subrange(0, i as int)));
        }
        i = i + 1;
    }
    assert(fields@.subrange(0, i as int) =~= fields@);
    r
}

/// Builds the headers of the file part.
pub fn build_preamble(
    boundary: &str,
    field_name: &str,
    file_name: &str,
    content_type: Option<&str>,
) -> (r: String)
    ensures
        r@ == file_preamble(
            boundary@,
            field_name@,
            file_name@,
            match content_type {
                Some(t) => Some(t@),
                None => None,
            },
        ),
{
    let mut r = String::from_str("--");
    r.append(boundary);
    r.append("\r\nContent-Disposition: form-data; name=\"");
    r.append(field_name);
    r.append("\"; filename=\"");
    r.append(file_name);
    r.append("\"");
    match content_type {
        Some(t) => {
            r.append("\r\nContent-Type: ");
            r.append(t);
        },
        None => {},
    }
    r.append("\r\n\r\n");
    r
}

/// Builds the closing boundary.
pub fn build_epilogue(boundary: &str) -> (r: String)
    ensures
        r@ == epilogue(boundary@),
{
    let mut r = String::from_str("\r\n--");
    r.append(boundary);
    r.append("--\r\n");
    r
}

/// Builds the media type of the whole request body.
pub fn content_type_header(boundary: &str) -> (r: String)
    ensures
        r@ == multipart_content_type(boundary@),
{
    let mut r = String::from_str("multipart/form-data; boundary=");
    r.append(boundary);
    r
}

} // verus!
