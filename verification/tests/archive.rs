use regelrecht_upload::archive::{archive_outcome, build_archive, ExportFile};
use std::io::{Cursor, Read};

fn entries(bytes: Vec<u8>) -> Vec<(String, Vec<u8>)> {
    let mut archive = zip::ZipArchive::new(Cursor::new(bytes)).unwrap();
    let mut out = Vec::new();
    for i in 0..archive.len() {
        let mut file = archive.by_index(i).unwrap();
        let mut data = Vec::new();
        file.read_to_end(&mut data).unwrap();
        out.push((file.name().to_string(), data));
    }
    out
}

#[test]
fn an_export_holds_the_description_and_then_each_file() {
    let files = vec![
        ExportFile { name: "report.pdf".to_string(), data: b"%PDF-1.4".to_vec() },
        ExportFile { name: "notes.txt".to_string(), data: Vec::new() },
    ];
    let (bytes, complete) = build_archive("{\"slug\": \"x\"}", &files);
    assert!(complete);
    assert_eq!(
        entries(bytes),
        vec![
            ("metadata.json".to_string(), b"{\"slug\": \"x\"}".to_vec()),
            ("files/report.pdf".to_string(), b"%PDF-1.4".to_vec()),
            ("files/notes.txt".to_string(), Vec::new()),
        ]
    );
}

#[test]
fn an_export_without_files_holds_the_description_only() {
    let (bytes, complete) = build_archive("", &Vec::new());
    assert!(complete);
    assert_eq!(entries(bytes), vec![("metadata.json".to_string(), Vec::new())]);
}

#[test]
fn the_same_entries_give_the_same_archive() {
    let files = vec![ExportFile { name: "a".to_string(), data: vec![1, 2, 3] }];
    assert_eq!(build_archive("m", &files).0, build_archive("m", &files).0);
}

#[test]
fn an_archive_that_could_not_be_finished_has_no_bytes() {
    assert_eq!(archive_outcome(None, true), (Vec::new(), false));
    assert_eq!(archive_outcome(None, false), (Vec::new(), false));
    assert_eq!(archive_outcome(Some(vec![1, 2]), true), (vec![1, 2], true));
    assert_eq!(archive_outcome(Some(vec![1, 2]), false), (vec![1, 2], false));
}
