use std::io::Write;

use aipack::assets::{
    extract_base_doc_file_paths, extract_workspace_config_toml_zfile, extract_workspace_zfile,
    extract_zfile, list_file_paths_start_with, list_workspace_file_paths_start_with,
    new_asset_archive_reader,
};

/// Builds a small asset archive in memory.
fn test_archive_bytes() -> Vec<u8> {
    let cursor = std::io::Cursor::new(Vec::new());
    let mut writer = zip::ZipWriter::new(cursor);
    let options = zip::write::SimpleFileOptions::default();
    let files: Vec<(&str, &str)> = vec![
        ("workspace/config.toml", "[options]\nmodel = \"gpt-4o-mini\"\n"),
        ("workspace/pack/one.aip", "# one"),
        ("workspace/pack/sub/two.aip", "# two"),
        ("workspace/notes.md", "notes"),
        ("base/doc/guide.md", "guide"),
        ("base/pack/installed.aip", "# installed"),
        ("_setup/aip-env", "#!/bin/sh"),
    ];
    for (name, content) in files {
        writer.start_file(name, options).expect("entry should start");
        writer.write_all(content.as_bytes()).expect("entry should write");
    }
    let cursor = writer.finish().expect("archive should finish");
    cursor.into_inner()
}

#[test]
fn test_extract_zfile_contents() {
    let mut archive = new_asset_archive_reader(test_archive_bytes()).expect("archive should open");
    let zfile = extract_zfile(&mut archive, "workspace", "notes.md").expect("entry should extract");
    assert_eq!(zfile.path, "workspace/notes.md");
    assert_eq!(zfile.content, b"notes");
    // an absent entry is an error
    assert!(extract_zfile(&mut archive, "workspace", "absent.md").is_err());
}

#[test]
fn test_extract_workspace_config() {
    let mut archive = new_asset_archive_reader(test_archive_bytes()).expect("archive should open");
    let zfile = extract_workspace_config_toml_zfile(&mut archive).expect("config should extract");
    assert_eq!(zfile.path, "workspace/config.toml");
    assert_eq!(zfile.content, b"[options]\nmodel = \"gpt-4o-mini\"\n");
    let other = extract_workspace_zfile(&mut archive, "pack/one.aip").expect("pack file extracts");
    assert_eq!(other.content, b"# one");
}

#[test]
fn test_list_paths_by_prefix() {
    let archive = new_asset_archive_reader(test_archive_bytes()).expect("archive should open");
    let mut packs = list_workspace_file_paths_start_with(&archive, "pack");
    packs.sort();
    assert_eq!(packs, vec!["pack/one.aip".to_string(), "pack/sub/two.aip".to_string()]);

    let docs = extract_base_doc_file_paths(&archive);
    assert_eq!(docs, vec!["doc/guide.md".to_string()]);

    // the whole workspace section
    let mut all = list_file_paths_start_with(&archive, "workspace", "");
    all.sort();
    assert_eq!(
        all,
        vec![
            "config.toml".to_string(),
            "notes.md".to_string(),
            "pack/one.aip".to_string(),
            "pack/sub/two.aip".to_string(),
        ]
    );
}
