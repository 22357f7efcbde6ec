use std::io::{Cursor, Write};

use pseudoide_core::archive::unpack_bundle;
use zip::write::SimpleFileOptions;
use zip::ZipWriter;

fn bundle(entries: &[(&str, Option<&[u8]>)]) -> Vec<u8> {
    let mut writer = ZipWriter::new(Cursor::new(Vec::new()));
    for (name, content) in entries {
        match content {
            Some(bytes) => {
                writer.start_file(*name, SimpleFileOptions::default()).expect("start");
                writer.write_all(bytes).expect("write");
            }
            None => {
                writer.add_directory(*name, SimpleFileOptions::default()).expect("dir");
            }
        }
    }
    writer.finish().expect("finish").into_inner()
}

#[test]
fn unpack_flattens_directories_and_finds_the_server() {
    let bytes = bundle(&[
        ("build/", None),
        ("build/bin/", None),
        ("build/bin/llama-server.exe", Some(b"MZ server")),
        ("build/bin/llama.dll", Some(b"MZ library")),
        ("LICENSE", Some(b"")),
    ]);
    let r = unpack_bundle(bytes);
    assert_eq!(r.outcome, Ok("Server downloaded and extracted".to_string()));
    let got: Vec<(String, Vec<u8>, bool)> =
        r.files.into_iter().map(|f| (f.name, f.content, f.server)).collect();
    assert_eq!(
        got,
        vec![
            ("llama-server.exe".to_string(), b"MZ server".to_vec(), true),
            ("llama.dll".to_string(), b"MZ library".to_vec(), false),
            ("LICENSE".to_string(), Vec::new(), false),
        ]
    );
}

#[test]
fn unpack_without_the_server_is_an_error_after_the_files() {
    let bytes = bundle(&[("bin/llama.dll", Some(b"lib")), ("bin/server.exe", Some(b"other"))]);
    let r = unpack_bundle(bytes);
    assert_eq!(r.outcome, Err("llama-server.exe not found in the downloaded zip".to_string()));
    assert_eq!(r.files.len(), 2);
    assert_eq!(r.files[0].name, "llama.dll");
    assert_eq!(r.files[1].name, "server.exe");
    assert_eq!(r.files[1].content, b"other".to_vec());
    assert!(!r.files[1].server);
}

#[test]
fn unpack_of_an_empty_archive_finds_nothing() {
    let r = unpack_bundle(bundle(&[]));
    assert!(r.files.is_empty());
    assert_eq!(r.outcome, Err("llama-server.exe not found in the downloaded zip".to_string()));
}

#[test]
fn unpack_refuses_what_is_no_archive() {
    let r = unpack_bundle(b"this is not a zip archive".to_vec());
    assert!(r.files.is_empty());
    match r.outcome {
        Err(e) => assert!(!e.is_empty()),
        Ok(_) => panic!("accepted"),
    }
}

#[test]
fn unpack_needs_the_exact_name_of_the_server() {
    let bytes = bundle(&[("bin/my-llama-server.exe", Some(b"a"))]);
    let r = unpack_bundle(bytes);
    assert_eq!(r.outcome, Err("llama-server.exe not found in the downloaded zip".to_string()));
    assert_eq!(r.files.len(), 1);
    assert_eq!(r.files[0].name, "my-llama-server.exe");
    assert!(!r.files[0].server);
}

#[test]
fn unpack_finds_the_server_at_any_depth() {
    let r = unpack_bundle(bundle(&[("a/b/c/llama-server.exe", Some(b"deep"))]));
    assert_eq!(r.outcome, Ok("Server downloaded and extracted".to_string()));
    assert_eq!(r.files[0].name, "llama-server.exe");
    assert!(r.files[0].server);
}

#[test]
fn unpack_keeps_a_plain_name_as_it_is() {
    let r = unpack_bundle(bundle(&[
        ("llama-server.exe", Some(b"top")),
        ("notes.txt", Some(b"n")),
    ]));
    assert_eq!(r.outcome, Ok("Server downloaded and extracted".to_string()));
    let names: Vec<String> = r.files.iter().map(|f| f.name.clone()).collect();
    assert_eq!(names, vec!["llama-server.exe".to_string(), "notes.txt".to_string()]);
    assert_eq!(r.files[0].content, b"top".to_vec());
}
