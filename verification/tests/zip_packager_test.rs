use std::io::{Cursor, Read};

use cp_config::error::Error;
use cp_config::error_kind::PATH_CONVERSION_ERROR;
use cp_config::services::zip_packager::{ArchiveEntry, ZipPackager};
use zip::ZipArchive;

fn entry(name: &str, contents: &[u8]) -> ArchiveEntry {
    ArchiveEntry { name: name.to_string(), contents: contents.to_vec() }
}

fn unzip(archive: Vec<u8>) -> Vec<(String, Vec<u8>)> {
    let mut archive = ZipArchive::new(Cursor::new(archive)).unwrap();
    let mut files = Vec::new();
    for index in 0..archive.len() {
        let mut file = archive.by_index(index).unwrap();
        let mut contents = Vec::new();
        file.read_to_end(&mut contents).unwrap();
        files.push((file.name().to_string(), contents));
    }
    files
}

#[test]
fn zip_packager_package_creates_zip_containing_configuration_file() {
    let zip_packager = ZipPackager::default();
    let application_file = "application.yaml";
    let contents = b"example:\n  innerValue: 1234\nouterValue: 1\n";

    let package = zip_packager.package(Some("dummy/dummy"), &vec![entry(application_file, contents)]);

    let package = package.expect("failed to package");
    assert_ne!(contents.to_vec(), package);
    let files = unzip(package);
    assert_eq!(vec![(application_file.to_string(), contents.to_vec())], files);
}

#[test]
fn the_packager_makes_zip_files() {
    assert_eq!("zip", ZipPackager::default().extension());
}

#[test]
fn an_archive_holds_its_files_in_order() {
    let entries = vec![
        entry("b.yaml", b"b: 2\n"),
        entry("a.yaml", b"a: 1\n"),
        entry("empty.properties", b""),
        entry("binary.bin", &[0, 159, 146, 150, 255]),
    ];

    let archive = ZipPackager::default().zip_directory(&entries).unwrap();

    assert_eq!(
        vec![
            ("b.yaml".to_string(), b"b: 2\n".to_vec()),
            ("a.yaml".to_string(), b"a: 1\n".to_vec()),
            ("empty.properties".to_string(), Vec::new()),
            ("binary.bin".to_string(), vec![0, 159, 146, 150, 255]),
        ],
        unzip(archive)
    );
}

#[test]
fn an_archive_of_nothing_is_an_empty_archive() {
    let archive = ZipPackager::default().zip_directory(&Vec::new()).unwrap();

    assert_eq!(
        vec![80, 75, 5, 6, 0, 0, 0, 0, 0, 0, 0, 0, 0, 0, 0, 0, 0, 0, 0, 0, 0, 0],
        archive
    );
    assert!(unzip(archive).is_empty());
}

#[test]
fn files_are_stored_as_they_are() {
    let contents = b"the very same bytes, twice: the very same bytes";

    let archive = ZipPackager::default().zip_directory(&vec![entry("plain.txt", contents)]).unwrap();

    assert!(archive.windows(contents.len()).any(|window| window == contents));
}

#[test]
fn the_same_files_give_the_same_archive() {
    let entries = vec![entry("a.yaml", b"a: 1\n"), entry("b.yaml", b"b: 2\n")];

    let first = ZipPackager::default().zip_directory(&entries).unwrap();
    let second = ZipPackager::default().zip_directory(&entries).unwrap();

    assert_eq!(first, second);
}

#[test]
fn a_source_path_that_is_not_text_cannot_be_packaged() {
    let result = ZipPackager::default().package(None, &vec![entry("a.yaml", b"a: 1\n")]);

    assert_eq!(
        Err(Error::new(
            PATH_CONVERSION_ERROR.to_string(),
            "failed to convert 'source_path' to string".to_string(),
        )),
        result
    );
}

#[test]
fn a_directory_of_ordinary_files_is_always_archived() {
    let mut entries: Vec<ArchiveEntry> = (0..300)
        .map(|index| entry(&format!("file-{}.yaml", index), format!("value: {}\n", index).as_bytes()))
        .collect();
    entries.push(entry("large.bin", &vec![171u8; 1 << 20]));
    entries.push(entry("empty", b""));

    let archive = ZipPackager::default().package(Some("dummy/dummy"), &entries);

    let files = unzip(archive.expect("every file fits"));
    assert_eq!(302, files.len());
    for (file, given) in files.iter().zip(entries.iter()) {
        assert_eq!(given.name, file.0);
        assert_eq!(given.contents, file.1);
    }
}
