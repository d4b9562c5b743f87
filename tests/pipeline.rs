use url_file_direct_uploader::download::DownloadSession;
use url_file_direct_uploader::file_name::guess_file_name_from_url;
use url_file_direct_uploader::header::{content_type_of_header_line, get_header_string_value};
use url_file_direct_uploader::manager::Manager;
use url_file_direct_uploader::multipart::{
    build_epilogue, build_field_entry, build_preamble, content_type_header,
};
use url_file_direct_uploader::options::{
    resolve_upload_options, ManagerUploadOption, ManagerUploadRequestType,
};
use url_file_direct_uploader::protocol::Message;
use url_file_direct_uploader::upload::{ProtocolViolation, UploadSession};

fn drain(session: &mut UploadSession, messages: Vec<Message>, max: usize) -> Vec<u8> {
    let mut out = Vec::new();
    let mut queue = messages.into_iter();
    loop {
        while session.needs_message() {
            let m = queue.next().expect("stream ended early");
            session.accept(m).expect("message out of place");
        }
        let piece = session.take(max);
        if piece.is_empty() {
            assert!(session.is_finished());
            break;
        }
        out.extend_from_slice(&piece);
    }
    assert!(queue.next().is_none());
    out
}

fn session_with(options: Vec<ManagerUploadOption>, fields: Vec<(String, String)>) -> UploadSession {
    UploadSession::new(
        String::from("https://x.test/dir/report.csv?x=1"),
        options,
        fields,
        String::from("B"),
    )
}

#[test]
fn multipart_body_is_exact() {
    let options = vec![
        ManagerUploadOption::FieldName(String::from("f")),
        ManagerUploadOption::FileName(String::from("n")),
        ManagerUploadOption::ContentType(String::from("t")),
    ];
    let mut s = session_with(options, vec![(String::from("a"), String::from("b"))]);
    let messages = vec![
        Message::EndOfHeaders,
        Message::Bytes(b"DATA".to_vec()),
        Message::PrepareToFinish,
        Message::Stop,
    ];
    let body = drain(&mut s, messages, 4096);
    let expected = "--B\r\nContent-Disposition: form-data; name=\"a\"\r\n\r\nb\r\n--B\r\nContent-Disposition: form-data; name=\"f\"; filename=\"n\"\r\nContent-Type: t\r\n\r\nDATA\r\n--B--\r\n";
    assert_eq!(String::from_utf8(body).unwrap(), expected);
}

#[test]
fn relay_is_lossless_for_any_chunking() {
    let data: Vec<u8> = (0..200u32).map(|i| (i * 7 % 251) as u8).collect();
    for chunk_size in [1usize, 3, 17, 64, 200] {
        for max in [1usize, 5, 4096] {
            let mut messages = vec![Message::EndOfHeaders];
            for c in data.chunks(chunk_size) {
                messages.push(Message::Bytes(c.to_vec()));
            }
            messages.push(Message::PrepareToFinish);
            messages.push(Message::Stop);
            let mut s = session_with(vec![], vec![]);
            let body = drain(&mut s, messages, max);
            let pre = b"--B\r\nContent-Disposition: form-data; name=\"file\"; filename=\"report.csv\"\r\n\r\n";
            let post = b"\r\n--B--\r\n";
            let mut expected = pre.to_vec();
            expected.extend_from_slice(&data);
            expected.extend_from_slice(post);
            assert_eq!(body, expected);
        }
    }
}

#[test]
fn empty_chunks_do_not_end_the_body() {
    let messages = vec![
        Message::EndOfHeaders,
        Message::Bytes(vec![]),
        Message::Bytes(b"xy".to_vec()),
        Message::Bytes(vec![]),
        Message::PrepareToFinish,
        Message::Stop,
    ];
    let mut s = session_with(vec![], vec![]);
    let body = String::from_utf8(drain(&mut s, messages, 4096)).unwrap();
    assert!(body.ends_with("\r\n\r\nxy\r\n--B--\r\n"));
}

#[test]
fn file_name_from_url_strips_query() {
    let name = guess_file_name_from_url(&String::from("https://x.test/dir/report.csv?x=1"));
    assert_eq!(name, "report.csv");
}

#[test]
fn file_name_falls_back_when_url_ends_in_slash() {
    let name = guess_file_name_from_url(&String::from("https://x.test/"));
    assert_eq!(name, "download");
    assert!(!name.is_empty());
}

#[test]
fn file_name_falls_back_when_segment_is_only_a_query() {
    let name = guess_file_name_from_url(&String::from("https://x.test/?a=b"));
    assert_eq!(name, "download");
    assert_eq!(guess_file_name_from_url(&String::from("plain")), "plain");
}

#[test]
fn derived_file_name_is_used_without_option() {
    let r = resolve_upload_options(&vec![], None, &String::from("https://x.test/dir/report.csv?x=1"));
    assert_eq!(r.file_name, "report.csv");
    assert_eq!(r.field_name, "file");
    assert_eq!(r.content_type, None);
    assert_eq!(r.request_type, ManagerUploadRequestType::POST);
}

#[test]
fn later_options_win() {
    let options = vec![
        ManagerUploadOption::FieldName(String::from("one")),
        ManagerUploadOption::RequestType(ManagerUploadRequestType::PUT),
        ManagerUploadOption::FieldName(String::from("two")),
        ManagerUploadOption::ContentType(String::from("x/y")),
        ManagerUploadOption::FileName(String::from("a.bin")),
    ];
    let r = resolve_upload_options(&options, Some(String::from("text/csv")), &String::from("https://x.test/"));
    assert_eq!(r.field_name, "two");
    assert_eq!(r.file_name, "a.bin");
    assert_eq!(r.content_type, Some(String::from("x/y")));
    assert_eq!(r.request_type, ManagerUploadRequestType::PUT);
}

#[test]
fn empty_file_name_option_falls_back_to_url() {
    let options = vec![ManagerUploadOption::FileName(String::new())];
    let r = resolve_upload_options(&options, None, &String::from("https://x.test/a/b.txt"));
    assert_eq!(r.file_name, "b.txt");
}

#[test]
fn header_split_keeps_later_separators() {
    let r = get_header_string_value(String::from("X-Note: a: b"));
    assert_eq!(r, Some((String::from("X-Note"), String::from("a: b"))));
    assert_eq!(get_header_string_value(String::from("HTTP/1.1 200 OK\r\n")), None);
    assert_eq!(get_header_string_value(String::from("a:b")), None);
}

#[test]
fn content_type_header_is_found_in_any_case() {
    let line = String::from("CONTENT-type: text/csv\r\n");
    assert_eq!(content_type_of_header_line(&line), Some(String::from("text/csv")));
    assert_eq!(content_type_of_header_line(&String::from("Content-Length: 4\r\n")), None);
}

#[test]
fn content_type_from_download_headers_goes_into_preamble() {
    let mut s = session_with(vec![], vec![]);
    let messages = vec![
        Message::HeaderLine(String::from("HTTP/1.1 200 OK\r\n")),
        Message::HeaderLine(String::from("content-type: text/csv\r\n")),
        Message::EndOfHeaders,
        Message::Bytes(b"q".to_vec()),
        Message::PrepareToFinish,
        Message::Stop,
    ];
    let body = String::from_utf8(drain(&mut s, messages, 7)).unwrap();
    assert_eq!(
        body,
        "--B\r\nContent-Disposition: form-data; name=\"file\"; filename=\"report.csv\"\r\nContent-Type: text/csv\r\n\r\nq\r\n--B--\r\n"
    );
}

#[test]
fn framing_pieces_are_exact() {
    assert_eq!(
        build_field_entry("B", "a", "b"),
        "--B\r\nContent-Disposition: form-data; name=\"a\"\r\n\r\nb\r\n"
    );
    assert_eq!(
        build_preamble("B", "f", "n", None),
        "--B\r\nContent-Disposition: form-data; name=\"f\"; filename=\"n\"\r\n\r\n"
    );
    assert_eq!(build_epilogue("B"), "\r\n--B--\r\n");
    assert_eq!(content_type_header("B"), "multipart/form-data; boundary=B");
}

#[test]
fn end_of_headers_comes_once_and_first_without_headers() {
    let mut d = DownloadSession::new();
    let first = d.on_body_chunk(b"ab");
    assert_eq!(first.len(), 2);
    assert!(matches!(first[0], Message::EndOfHeaders));
    assert!(matches!(&first[1], Message::Bytes(b) if b == b"ab"));
    let second = d.on_body_chunk(b"c");
    assert_eq!(second.len(), 1);
    assert!(matches!(&second[0], Message::Bytes(b) if b == b"c"));
}

#[test]
fn header_lines_then_end_of_headers() {
    let mut d = DownloadSession::new();
    let a = d.on_header_line(String::from("HTTP/1.1 200 OK\r\n"));
    assert!(matches!(&a[..], [Message::HeaderLine(l)] if l == "HTTP/1.1 200 OK\r\n"));
    let b = d.on_header_line(String::from("\r\n"));
    assert!(matches!(&b[..], [Message::EndOfHeaders]));
    let c = d.on_header_line(String::from("Late: header\r\n"));
    assert!(c.is_empty());
    let f = d.finish();
    assert!(matches!(&f[..], [Message::PrepareToFinish, Message::Stop]));
}

#[test]
fn failed_download_still_stops_the_upload_cleanly() {
    let mut d = DownloadSession::new();
    let f = d.finish();
    assert!(matches!(&f[..], [Message::EndOfHeaders, Message::PrepareToFinish, Message::Stop]));
    let mut s = session_with(vec![], vec![]);
    let body = String::from_utf8(drain(&mut s, f, 4096)).unwrap();
    assert_eq!(
        body,
        "--B\r\nContent-Disposition: form-data; name=\"file\"; filename=\"report.csv\"\r\n\r\n\r\n--B--\r\n"
    );
}

#[test]
fn messages_out_of_place_are_refused() {
    let mut s = session_with(vec![], vec![]);
    assert_eq!(s.accept(Message::Bytes(vec![1])), Err(ProtocolViolation::UnexpectedMessage));
    assert_eq!(s.accept(Message::Stop), Err(ProtocolViolation::UnexpectedMessage));
    assert_eq!(s.accept(Message::EndOfHeaders), Ok(()));
    assert_eq!(s.accept(Message::EndOfHeaders), Err(ProtocolViolation::UnexpectedMessage));
    assert_eq!(
        s.accept(Message::HeaderLine(String::from("a: b"))),
        Err(ProtocolViolation::UnexpectedMessage)
    );
    assert_eq!(s.accept(Message::Stop), Err(ProtocolViolation::UnexpectedMessage));
    assert_eq!(s.accept(Message::PrepareToFinish), Ok(()));
    assert_eq!(s.accept(Message::Bytes(vec![1])), Err(ProtocolViolation::UnexpectedMessage));
    assert_eq!(s.accept(Message::Stop), Ok(()));
    assert_eq!(s.accept(Message::Stop), Err(ProtocolViolation::UnexpectedMessage));
}

#[test]
fn upload_settings_known_after_headers() {
    let mut s = session_with(vec![ManagerUploadOption::RequestType(ManagerUploadRequestType::PUT)], vec![]);
    assert!(!s.headers_done());
    assert_eq!(s.request_type(), None);
    s.accept(Message::EndOfHeaders).unwrap();
    assert!(s.headers_done());
    assert_eq!(s.request_type(), Some(ManagerUploadRequestType::PUT));
}

#[test]
fn manager_configures_then_starts_once() {
    let mut m = Manager::new("https://x.test/f.txt", "https://up.test/", None, Some(vec![String::from("X-A: 1")]));
    m.set_upload_headers(&vec!["X-B: 2"]);
    m.set_download_headers(&vec!["Accept: */*"]);
    m.set_upload_form_fields(&vec![("a", "b")]);
    m.set_upload_options(&vec![ManagerUploadOption::FieldName(String::from("upload"))]);
    assert_eq!(m.download_url(), "https://x.test/f.txt");
    assert_eq!(m.upload_url(), "https://up.test/");
    assert_eq!(m.download_request_headers(), vec![String::from("Accept: */*")]);
    assert_eq!(
        m.upload_request_headers(),
        vec![
            String::from("X-B: 2"),
            String::from("Content-Type: multipart/form-data; boundary=---------------------------15875380808008"),
        ]
    );
    let (mut up, _down) = m.start().expect("first start");
    assert!(m.start().is_none());
    m.set_upload_headers(&vec!["X-C: 3"]);
    assert_eq!(m.upload_request_headers().len(), 2);
    let messages = vec![Message::EndOfHeaders, Message::PrepareToFinish, Message::Stop];
    let body = String::from_utf8(drain(&mut up, messages, 4096)).unwrap();
    assert!(body.starts_with("-----------------------------15875380808008\r\nContent-Disposition: form-data; name=\"a\"\r\n\r\nb\r\n"));
    assert!(body.contains("name=\"upload\"; filename=\"f.txt\""));
}

#[test]
fn form_fields_keep_the_last_entry_per_name() {
    let mut m = Manager::new("https://x.test/f.txt", "https://up.test/", None, None);
    m.set_upload_form_fields(&vec![("a", "1"), ("b", "2"), ("a", "3")]);
    let (mut up, _down) = m.start().unwrap();
    let messages = vec![Message::EndOfHeaders, Message::PrepareToFinish, Message::Stop];
    let body = String::from_utf8(drain(&mut up, messages, 4096)).unwrap();
    let b = "-----------------------------15875380808008";
    let expected_fields = format!(
        "{b}\r\nContent-Disposition: form-data; name=\"b\"\r\n\r\n2\r\n{b}\r\nContent-Disposition: form-data; name=\"a\"\r\n\r\n3\r\n{b}\r\n"
    );
    assert!(body.starts_with(&expected_fields));
}

#[test]
fn file_name_ignores_slashes_in_the_query() {
    let name = guess_file_name_from_url(&String::from("https://x.test/file.txt?next=/a/b.txt"));
    assert_eq!(name, "file.txt");
    let name = guess_file_name_from_url(&String::from("https://x.test/dir/?next=/a/b.txt"));
    assert_eq!(name, "download");
}

#[test]
fn content_type_is_found_without_a_space_after_the_colon() {
    let line = String::from("Content-Type:text/csv\r\n");
    assert_eq!(content_type_of_header_line(&line), Some(String::from("text/csv")));
    let line = String::from("content-TYPE:\t  application/json; charset=utf-8\r\n");
    assert_eq!(
        content_type_of_header_line(&line),
        Some(String::from("application/json; charset=utf-8"))
    );
    assert_eq!(content_type_of_header_line(&String::from("X-Content-Type: a\r\n")), None);
    assert_eq!(content_type_of_header_line(&String::from("Content-Type\r\n")), None);
}

#[test]
fn session_needs_nothing_after_stop() {
    let mut s = session_with(vec![], vec![]);
    s.accept(Message::HeaderLine(String::from("Content-Type:text/plain\r\n"))).unwrap();
    s.accept(Message::EndOfHeaders).unwrap();
    s.accept(Message::PrepareToFinish).unwrap();
    s.accept(Message::Stop).unwrap();
    assert!(!s.needs_message());
    let body = String::from_utf8(s.take(4096)).unwrap();
    assert!(body.contains("filename=\"report.csv\"\r\nContent-Type: text/plain\r\n\r\n\r\n--B--\r\n"));
    assert!(s.is_finished());
    assert!(s.take(4096).is_empty());
}
