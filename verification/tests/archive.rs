use cargo_pros::archive::{
    entry_target, holds_sparse_header, list_archive, strip_first_segment, unpack_targets,
    unpack_template,
};
use cargo_pros::errors::CliError;

fn packed(entries: &[(&str, &[u8])]) -> Vec<u8> {
    let encoder = flate2::write::GzEncoder::new(Vec::new(), flate2::Compression::default());
    let mut builder = tar::Builder::new(encoder);
    for (path, data) in entries {
        let mut header = tar::Header::new_gnu();
        header.set_size(data.len() as u64);
        header.set_mode(0o644);
        if path.ends_with('/') {
            header.set_entry_type(tar::EntryType::Directory);
        }
        builder.append_data(&mut header, path, *data).unwrap();
    }
    builder.into_inner().unwrap().finish().unwrap()
}

fn some(path: &str) -> Option<String> {
    Some(path.to_string())
}

#[test]
fn strip_first_segment_drops_the_top_directory() {
    assert_eq!(strip_first_segment(&b"top/src/main.rs".to_vec()), b"src/main.rs".to_vec());
    assert_eq!(strip_first_segment(&b"top/Cargo.toml".to_vec()), b"Cargo.toml".to_vec());
    assert_eq!(strip_first_segment(&b"top/a/b/c/d/e".to_vec()), b"a/b/c/d/e".to_vec());
}

#[test]
fn strip_first_segment_of_a_single_segment_is_empty() {
    assert_eq!(strip_first_segment(&b"top".to_vec()), Vec::<u8>::new());
    assert_eq!(strip_first_segment(&b"top/".to_vec()), Vec::<u8>::new());
    assert_eq!(strip_first_segment(&Vec::new()), Vec::<u8>::new());
}

#[test]
fn strip_first_segment_takes_the_root_as_first_segment() {
    assert_eq!(strip_first_segment(&b"/a/b".to_vec()), b"a/b".to_vec());
    assert_eq!(strip_first_segment(&b"./a/b".to_vec()), b"a/b".to_vec());
}

#[test]
fn entry_target_lands_below_the_project_directory() {
    assert_eq!(entry_target("robot", &b"top/src/main.rs".to_vec()), some("robot/src/main.rs"));
    assert_eq!(entry_target("/home/me/robot/", &b"top/Cargo.toml".to_vec()), some("/home/me/robot/Cargo.toml"));
    assert_eq!(entry_target("robot", &b"top/a/b/c/d.txt".to_vec()), some("robot/a/b/c/d.txt"));
}

#[test]
fn entry_target_of_the_top_directory_is_the_project_directory() {
    assert_eq!(entry_target("robot", &b"top/".to_vec()), some("robot/"));
    assert_eq!(entry_target("robot", &b"pax_global_header".to_vec()), some("robot/"));
}

#[test]
fn entry_target_reduces_the_remaining_path() {
    assert_eq!(entry_target("robot", &b"top//src/./main.rs".to_vec()), some("robot/src/main.rs"));
    assert_eq!(entry_target("robot", &b"top/src/".to_vec()), some("robot/src"));
}

#[test]
fn entry_target_passes_over_paths_that_are_not_text() {
    assert_eq!(entry_target("robot", &vec![b't', b'/', 0xff, 0xfe]), None);
    assert_eq!(entry_target("robot", &vec![0xff, b'/', b'a']), some("robot/a"));
}

#[test]
fn entry_target_agrees_with_std_path_stripping() {
    let cases = ["top/src/main.rs", "top/", "top", "top//a/./b", "./a/b", "top/a/../b", "top/.cargo/config.toml"];
    for case in cases {
        let stripped: std::path::PathBuf = std::path::Path::new(case).iter().skip(1).collect();
        let expected = std::path::Path::new("dir").join(stripped);
        assert_eq!(entry_target("dir", &case.as_bytes().to_vec()), some(expected.to_str().unwrap()), "{case:?}");
    }
}

#[test]
fn unpack_targets_answers_for_each_entry_in_order() {
    let paths = vec![b"top/".to_vec(), b"top/Cargo.toml".to_vec(), vec![b't', b'/', 0xff], b"top/src/main.rs".to_vec()];
    assert_eq!(
        unpack_targets("out", &paths),
        vec![some("out/"), some("out/Cargo.toml"), None, some("out/src/main.rs")]
    );
    assert_eq!(unpack_targets("out", &Vec::new()), Vec::<Option<String>>::new());
}

#[test]
fn unpack_template_plans_every_entry_of_a_real_archive() {
    let archive = packed(&[
        ("vexide-template-main/", b""),
        ("vexide-template-main/Cargo.toml", b"[package]\nname = \"vexide-template\"\n"),
        ("vexide-template-main/src/", b""),
        ("vexide-template-main/src/main.rs", b"fn main() {}\n"),
        ("vexide-template-main/.cargo/config.toml", b"[build]\n"),
    ]);
    assert_eq!(
        unpack_template(&archive, "robot"),
        Ok(vec![
            some("robot/"),
            some("robot/Cargo.toml"),
            some("robot/src"),
            some("robot/src/main.rs"),
            some("robot/.cargo/config.toml"),
        ])
    );
}

#[test]
fn unpack_template_strips_one_segment_at_any_depth() {
    let archive = packed(&[("a/b/c/d/e/f/g.txt", b"deep"), ("a/b", b"shallow")]);
    assert_eq!(unpack_template(&archive, "out"), Ok(vec![some("out/b/c/d/e/f/g.txt"), some("out/b")]));
}

#[test]
fn unpack_template_handles_long_paths() {
    let long = format!("top/{}/file.txt", "d".repeat(180));
    let archive = packed(&[(long.as_str(), b"x")]);
    assert_eq!(unpack_template(&archive, "out"), Ok(vec![Some(format!("out/{}/file.txt", "d".repeat(180)))]));
}

#[test]
fn unpack_template_of_an_empty_archive_plans_nothing() {
    let archive = packed(&[]);
    assert_eq!(unpack_template(&archive, "out"), Ok(Vec::new()));
}

#[test]
fn unpack_template_refuses_what_is_no_archive() {
    let refused = unpack_template(&b"this is not a gzip stream".to_vec(), "out");
    assert!(matches!(refused, Err(CliError::IoError(_))));
}

#[test]
fn unpack_template_refuses_a_damaged_archive_as_a_whole() {
    let mut archive = packed(&[("top/Cargo.toml", b"[package]\n"), ("top/src/main.rs", &[7u8; 4000])]);
    archive.truncate(archive.len() / 2);
    let refused = unpack_template(&archive, "out");
    assert!(matches!(refused, Err(CliError::IoError(_))));
}

#[test]
fn unpack_template_refuses_a_tar_with_a_bad_checksum() {
    let mut raw = vec![0u8; 1024];
    raw[0] = b'x';
    let mut encoder = flate2::write::GzEncoder::new(Vec::new(), flate2::Compression::default());
    std::io::Write::write_all(&mut encoder, &raw).unwrap();
    let archive = encoder.finish().unwrap();
    match unpack_template(&archive, "out") {
        Err(CliError::IoError(reason)) => assert!(!reason.is_empty()),
        other => panic!("{other:?}"),
    }
}

fn gzipped(raw: &[u8]) -> Vec<u8> {
    let mut encoder = flate2::write::GzEncoder::new(Vec::new(), flate2::Compression::default());
    std::io::Write::write_all(&mut encoder, raw).unwrap();
    encoder.finish().unwrap()
}

fn sparse_header(size: u64, extended: bool) -> Vec<u8> {
    let mut header = tar::Header::new_gnu();
    header.set_path("top/hole").unwrap();
    header.set_entry_type(tar::EntryType::GNUSparse);
    header.set_size(size);
    header.as_gnu_mut().unwrap().isextended[0] = extended as u8;
    header.set_cksum();
    header.as_bytes().to_vec()
}

#[test]
fn list_archive_lists_raw_paths_in_order() {
    let archive = packed(&[("top/", b""), ("top/a.txt", b"a"), ("top/b/c.txt", b"c")]);
    assert_eq!(
        list_archive(&archive),
        Ok(vec![b"top/".to_vec(), b"top/a.txt".to_vec(), b"top/b/c.txt".to_vec()])
    );
}

#[test]
fn holds_sparse_header_wants_the_extension_flag() {
    assert!(!holds_sparse_header(&sparse_header(0, false)));
    assert!(!holds_sparse_header(&sparse_header(u64::MAX - 1023, false)));
    assert!(holds_sparse_header(&sparse_header(0, true)));
    let mut flagged = sparse_header(0, false);
    flagged[482] = 2;
    assert!(!holds_sparse_header(&flagged));
}

#[test]
fn holds_sparse_header_looks_at_whole_blocks() {
    let header = sparse_header(0, true);
    assert!(holds_sparse_header(&header));
    let mut behind = vec![0u8; 1024];
    behind.extend_from_slice(&header);
    assert!(holds_sparse_header(&behind));
    let mut shifted = vec![0u8; 100];
    shifted.extend_from_slice(&header);
    shifted.resize(1536, 0);
    assert!(!holds_sparse_header(&shifted));
    assert!(!holds_sparse_header(&header[..511].to_vec()));
    assert!(!holds_sparse_header(&Vec::new()));
    let mut plain = tar::Header::new_gnu();
    plain.set_path("top/S").unwrap();
    plain.set_size(0);
    plain.set_cksum();
    assert!(!holds_sparse_header(&plain.as_bytes().to_vec()));
    let mut ustar = tar::Header::new_ustar().as_bytes().to_vec();
    ustar[156] = b'S';
    ustar[482] = 1;
    assert!(!holds_sparse_header(&ustar));
}

#[test]
fn unpack_template_refuses_sparse_files_with_extended_headers() {
    let mut raw = sparse_header(0, true);
    raw.extend_from_slice(&[0u8; 1024]);
    assert_eq!(
        unpack_template(&gzipped(&raw), "out"),
        Err(CliError::IoError(
            "sparse files with extended headers are not supported in a template archive".to_string()
        ))
    );
}

#[test]
fn unpack_template_hands_other_sparse_files_to_the_reader() {
    let mut header = tar::Header::new_gnu();
    header.set_path("top/hole").unwrap();
    header.set_entry_type(tar::EntryType::GNUSparse);
    header.set_size(0);
    header.as_gnu_mut().unwrap().set_real_size(0);
    header.set_cksum();
    let mut raw = header.as_bytes().to_vec();
    raw.extend_from_slice(&[0u8; 1024]);
    assert_eq!(unpack_template(&gzipped(&raw), "out"), Ok(vec![Some("out/hole".to_string())]));
}

#[test]
fn unpack_template_unpacks_a_template_that_carries_a_tar_file() {
    let mut inner = tar::Builder::new(Vec::new());
    let mut header = tar::Header::new_gnu();
    header.set_entry_type(tar::EntryType::GNUSparse);
    header.set_size(0);
    header.as_gnu_mut().unwrap().set_real_size(0);
    inner.append_data(&mut header, "hole", &b""[..]).unwrap();
    let inner = inner.into_inner().unwrap();
    let archive = packed(&[("top/Cargo.toml", b"[package]\n"), ("top/assets/inner.tar", &inner)]);
    assert_eq!(
        unpack_template(&archive, "out"),
        Ok(vec![Some("out/Cargo.toml".to_string()), Some("out/assets/inner.tar".to_string())])
    );
}

#[test]
fn unpack_template_unpacks_a_large_archive() {
    let big = vec![0u8; 300 << 20];
    let archive = packed(&[("top/Cargo.toml", b"[package]\n"), ("top/big.bin", &big)]);
    assert_eq!(
        unpack_template(&archive, "out"),
        Ok(vec![Some("out/Cargo.toml".to_string()), Some("out/big.bin".to_string())])
    );
}

#[test]
fn unpack_template_refuses_a_sparse_file_at_the_end_of_all_positions() {
    let mut raw = sparse_header(u64::MAX - 1023, true);
    raw.extend_from_slice(&[0u8; 512]);
    assert_eq!(
        unpack_template(&gzipped(&raw), "out"),
        Err(CliError::IoError(
            "sparse files with extended headers are not supported in a template archive".to_string()
        ))
    );
}

#[test]
fn unpack_template_refuses_a_stream_with_a_damaged_end() {
    let mut archive = packed(&[("top/Cargo.toml", b"[package]\n")]);
    let last = archive.len() - 5;
    archive[last] ^= 0xff;
    assert!(matches!(unpack_template(&archive, "out"), Err(CliError::IoError(_))));
}
