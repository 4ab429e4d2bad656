use content_store::error::{Error, NO_FILE_MESSAGE, SIZE_LIMIT_MESSAGE};
use content_store::http::{
    begin_upload, download_response, error_response, object_response, status_of, stored_response,
    Response, Status, Upload,
};
use content_store::media::{content_type_for, content_type_or_default, OCTET_STREAM};
use content_store::store::{finish_get, Step, StoredObject, UNKNOWN_NAME};

fn header(name: &str, value: &str) -> (String, String) {
    (name.to_string(), value.to_string())
}

#[test]
fn status_codes() {
    assert_eq!(Status::Success.code(), 200);
    assert_eq!(Status::BadRequest.code(), 400);
    assert_eq!(Status::NotFound.code(), 404);
    assert_eq!(Status::InternalServerError.code(), 500);
}

#[test]
fn status_of_each_error() {
    assert_eq!(status_of(&Error::NoFileUploaded), Status::BadRequest);
    assert_eq!(status_of(&Error::SizeLimitExceeded), Status::BadRequest);
    assert_eq!(status_of(&Error::MultipartParse("x".to_string())), Status::InternalServerError);
    assert_eq!(status_of(&Error::Storage("x".to_string())), Status::InternalServerError);
    assert_eq!(status_of(&Error::NotFound("x".to_string())), Status::NotFound);
}

#[test]
fn message_of_each_error() {
    assert_eq!(NO_FILE_MESSAGE, "No file uploaded");
    assert_eq!(SIZE_LIMIT_MESSAGE, "File size exceeds the maximum limit of 1000000 bytes");
    assert_eq!(Error::NoFileUploaded.message(), "No file uploaded");
    assert_eq!(
        Error::SizeLimitExceeded.message(),
        "File size exceeds the maximum limit of 1000000 bytes"
    );
    assert_eq!(Error::MultipartParse("bad boundary".to_string()).message(), "bad boundary");
    assert_eq!(Error::Storage("disk full".to_string()).message(), "disk full");
    assert_eq!(Error::NotFound("no such file".to_string()).message(), "no such file");
}

#[test]
fn error_response_carries_status_and_message() {
    let response = error_response(&Error::Storage("disk full".to_string()));
    assert_eq!(
        response,
        Response {
            status: Status::InternalServerError,
            headers: vec![],
            body: b"disk full".to_vec(),
        }
    );
    let response = error_response(&Error::NotFound("n\u{e3}o".to_string()));
    assert_eq!(response.status.code(), 404);
    assert_eq!(response.body, vec![b'n', 0xC3, 0xA3, b'o']);
}

#[test]
fn stored_response_is_a_json_string() {
    let id = "ba7816bf8f01cfea414140de5dae2223b00361a396177a9cb410ff61f20015ad";
    let response = stored_response(id);
    assert_eq!(
        response,
        Response {
            status: Status::Success,
            headers: vec![header("Content-Type", "application/json")],
            body: b"\"ba7816bf8f01cfea414140de5dae2223b00361a396177a9cb410ff61f20015ad\"".to_vec(),
        }
    );
}

#[test]
fn object_response_names_the_attachment() {
    let object = StoredObject { content: vec![1, 2, 3], file_name: "notes.txt".to_string() };
    let response = object_response(object, "text/plain".to_string());
    assert_eq!(
        response,
        Response {
            status: Status::Success,
            headers: vec![
                header("Content-Type", "text/plain"),
                header("Content-Disposition", "attachment; filename=\"notes.txt\""),
            ],
            body: vec![1, 2, 3],
        }
    );
}

#[test]
fn get_finds_bytes_and_name() {
    let outcome = finish_get(Ok(vec![9, 8]), Some("a.bin".to_string()));
    assert_eq!(outcome, Ok(StoredObject { content: vec![9, 8], file_name: "a.bin".to_string() }));
}

#[test]
fn get_names_an_object_unknown_without_a_name() {
    assert_eq!(UNKNOWN_NAME, "unknown");
    let outcome = finish_get(Ok(vec![9, 8]), None);
    assert_eq!(outcome, Ok(StoredObject { content: vec![9, 8], file_name: "unknown".to_string() }));
}

#[test]
fn get_without_bytes_is_not_found() {
    let outcome = finish_get(Err("no such file".to_string()), Some("a.bin".to_string()));
    assert_eq!(outcome, Err(Error::NotFound("no such file".to_string())));
    let outcome = finish_get(Err("no such file".to_string()), None);
    assert_eq!(outcome, Err(Error::NotFound("no such file".to_string())));
}

#[test]
fn download_of_a_named_object() {
    let response = download_response(Ok(b"<html></html>".to_vec()), Some("index.html".to_string()));
    assert_eq!(
        response,
        Response {
            status: Status::Success,
            headers: vec![
                header("Content-Type", "text/html"),
                header("Content-Disposition", "attachment; filename=\"index.html\""),
            ],
            body: b"<html></html>".to_vec(),
        }
    );
}

#[test]
fn download_without_a_name() {
    let response = download_response(Ok(vec![0, 1]), None);
    assert_eq!(
        response,
        Response {
            status: Status::Success,
            headers: vec![
                header("Content-Type", "application/octet-stream"),
                header("Content-Disposition", "attachment; filename=\"unknown\""),
            ],
            body: vec![0, 1],
        }
    );
}

#[test]
fn download_of_unknown_bytes() {
    let response = download_response(Err("no such file".to_string()), Some("a.png".to_string()));
    assert_eq!(
        response,
        Response { status: Status::NotFound, headers: vec![], body: b"no such file".to_vec() }
    );
}

#[test]
fn upload_begins_by_refusing_what_is_no_file() {
    assert!(matches!(begin_upload(Upload::NoField), Step::Failed(Error::NoFileUploaded)));
    assert!(matches!(
        begin_upload(Upload::Unreadable("bad boundary".to_string())),
        Step::Failed(Error::MultipartParse(cause)) if cause == "bad boundary"
    ));
    assert!(matches!(
        begin_upload(Upload::File { file_name: "a".to_string(), data: vec![0u8; 1_000_001] }),
        Step::Failed(Error::SizeLimitExceeded)
    ));
    assert!(matches!(
        begin_upload(Upload::File { file_name: "a".to_string(), data: vec![0u8; 10] }),
        Step::Perform(..)
    ));
}

#[test]
fn media_type_follows_the_extension() {
    assert_eq!(content_type_for("test_image.png"), "image/png");
    assert_eq!(content_type_for("notes.txt"), "text/plain");
    assert_eq!(content_type_for("report.pdf"), "application/pdf");
    assert_eq!(content_type_for("/some/dir/picture.gif"), "image/gif");
    assert_eq!(content_type_for("SHOUT.PNG"), "image/png");
    assert_eq!(content_type_for("archive.tar.gz"), "application/gzip");
}

#[test]
fn media_type_is_lowercase() {
    assert_eq!(content_type_for("script.psc1"), "application/powershell");
}

#[test]
fn media_type_without_a_guess_is_binary() {
    assert_eq!(OCTET_STREAM, "application/octet-stream");
    assert_eq!(content_type_for("unknown"), "application/octet-stream");
    assert_eq!(content_type_for(""), "application/octet-stream");
    assert_eq!(content_type_for("Makefile"), "application/octet-stream");
    assert_eq!(content_type_for("dir/file"), "application/octet-stream");
    assert_eq!(content_type_for("file.no-such-extension"), "application/octet-stream");
    assert_eq!(content_type_for(".png"), "application/octet-stream");
}

#[test]
fn content_type_of_a_guess() {
    assert_eq!(content_type_or_default(Some("image/png".to_string())), "image/png");
    assert_eq!(content_type_or_default(None), "application/octet-stream");
}
