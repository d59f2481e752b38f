use cargo_pros::errors::CliError;
use cargo_pros::template::{
    archive_url, baked_in_template, cache_archive_path, cache_fingerprint_path, cache_writes,
    fetch_template, get_cached_template, get_current_sha, metadata_url, sha_from_member,
    store_cached_template, user_agent, CacheRecord, CacheWrite, Template,
};

#[test]
fn baked_in_template_has_no_fingerprint() {
    let template = baked_in_template(vec![1, 2, 3]);
    assert_eq!(template, Template { data: vec![1, 2, 3], sha: None });
}

#[test]
fn get_cached_template_needs_the_archive() {
    assert_eq!(get_cached_template(CacheRecord { data: None, sha: None }), None);
    assert_eq!(get_cached_template(CacheRecord { data: None, sha: Some("abc".to_string()) }), None);
}

#[test]
fn get_cached_template_takes_the_fingerprint_where_known() {
    assert_eq!(
        get_cached_template(CacheRecord { data: Some(vec![9]), sha: Some("abc".to_string()) }),
        Some(Template { data: vec![9], sha: Some("abc".to_string()) })
    );
    assert_eq!(
        get_cached_template(CacheRecord { data: Some(vec![9]), sha: None }),
        Some(Template { data: vec![9], sha: None })
    );
}

#[test]
fn store_cached_template_overwrites_archive_and_fingerprint() {
    let before = CacheRecord { data: Some(vec![1]), sha: Some("old".to_string()) };
    let after = store_cached_template(before, Template { data: vec![2, 3], sha: Some("new".to_string()) });
    assert_eq!(after, CacheRecord { data: Some(vec![2, 3]), sha: Some("new".to_string()) });
}

#[test]
fn store_cached_template_without_fingerprint_leaves_none_behind() {
    let before = CacheRecord { data: Some(vec![1]), sha: Some("old".to_string()) };
    let after = store_cached_template(before, Template { data: vec![2, 3], sha: None });
    assert_eq!(after, CacheRecord { data: Some(vec![2, 3]), sha: None });
    assert_eq!(get_cached_template(after), Some(Template { data: vec![2, 3], sha: None }));
    let empty = CacheRecord { data: None, sha: None };
    let after = store_cached_template(empty, Template { data: vec![4], sha: None });
    assert_eq!(after, CacheRecord { data: Some(vec![4]), sha: None });
}

#[test]
fn cache_writes_write_archive_and_fingerprint() {
    let template = Template { data: vec![2, 3], sha: Some("new".to_string()) };
    assert_eq!(
        cache_writes("/cache", &template),
        vec![
            CacheWrite::Archive { path: "/cache/vexide-template.tar.gz".to_string(), data: vec![2, 3] },
            CacheWrite::Fingerprint { path: "/cache/cache-id.txt".to_string(), sha: "new".to_string() },
        ]
    );
}

#[test]
fn cache_writes_clear_the_fingerprint_of_a_template_without_one() {
    let template = Template { data: vec![2, 3], sha: None };
    assert_eq!(
        cache_writes("/cache", &template),
        vec![
            CacheWrite::Archive { path: "/cache/vexide-template.tar.gz".to_string(), data: vec![2, 3] },
            CacheWrite::ClearFingerprint { path: "/cache/cache-id.txt".to_string() },
        ]
    );
}

#[test]
fn cache_writes_bring_the_cache_to_what_was_stored() {
    for sha in [None, Some("new".to_string())] {
        let template = Template { data: vec![7, 8], sha };
        let mut record = CacheRecord { data: Some(vec![1]), sha: Some("old".to_string()) };
        for write in cache_writes("cache", &template) {
            match write {
                CacheWrite::Archive { data, .. } => record.data = Some(data),
                CacheWrite::Fingerprint { sha, .. } => record.sha = Some(sha),
                CacheWrite::ClearFingerprint { .. } => record.sha = None,
            }
        }
        let before = CacheRecord { data: Some(vec![1]), sha: Some("old".to_string()) };
        assert_eq!(record, store_cached_template(before, template.clone()));
        assert_eq!(get_cached_template(record), Some(template));
    }
}

#[test]
fn stored_template_is_read_back() {
    let template = Template { data: vec![5, 6], sha: Some("f00".to_string()) };
    let record = store_cached_template(CacheRecord { data: None, sha: None }, template.clone());
    assert_eq!(get_cached_template(record), Some(template));
}

#[test]
fn sha_from_member_wants_a_text() {
    assert_eq!(sha_from_member(Some("abc".to_string())), Ok("abc".to_string()));
    assert_eq!(sha_from_member(None), Err(CliError::MalformedResponse));
}

#[test]
fn get_current_sha_reads_the_sha_member() {
    let body = r#"{"sha": "4f2a9c", "node_id": "C_kw", "commit": {"message": "sha"}}"#.to_string();
    assert_eq!(get_current_sha(Ok(Some(body))), Ok("4f2a9c".to_string()));
}

#[test]
fn get_current_sha_unescapes_the_member() {
    let body = r#"{"sha": "a\"bA"}"#.to_string();
    assert_eq!(get_current_sha(Ok(Some(body))), Ok("a\"bA".to_string()));
}

#[test]
fn get_current_sha_refuses_other_members_and_other_shapes() {
    let bodies = [
        r#"{"message": "API rate limit exceeded"}"#,
        r#"{"sha": 12}"#,
        r#"{"sha": null}"#,
        r#"{"sha": ["4f2a9c"]}"#,
        r#"{"commit": {"sha": "4f2a9c"}}"#,
        r#"["sha"]"#,
        r#""sha""#,
        "{}",
        "",
        "not json",
        r#"{"sha": "4f2a9c""#,
    ];
    for body in bodies {
        assert_eq!(get_current_sha(Ok(Some(body.to_string()))), Err(CliError::MalformedResponse), "{body:?}");
    }
}

#[test]
fn get_current_sha_takes_an_unreadable_body_for_an_empty_object() {
    assert_eq!(get_current_sha(Ok(None)), Err(CliError::MalformedResponse));
}

#[test]
fn get_current_sha_hands_a_failed_request_on() {
    assert_eq!(
        get_current_sha(Err("connection refused".to_string())),
        Err(CliError::ReqwestError("connection refused".to_string()))
    );
}

#[test]
fn fetch_template_pairs_archive_and_fingerprint() {
    assert_eq!(
        fetch_template(vec![1, 2], Some("abc".to_string())),
        Template { data: vec![1, 2], sha: Some("abc".to_string()) }
    );
    assert_eq!(fetch_template(vec![1, 2], None), Template { data: vec![1, 2], sha: None });
}

#[test]
fn remote_source_is_the_template_repository() {
    assert_eq!(metadata_url(), "https://api.github.com/repos/vexide/vexide-template/commits/main?per-page=1");
    assert_eq!(archive_url(), "https://github.com/vexide/vexide-template/archive/refs/heads/main.tar.gz");
    assert_eq!(user_agent(), "vexide/cargo-v5");
}

#[test]
fn cache_files_lie_in_the_cache_directory() {
    assert_eq!(cache_archive_path("/home/me/.cache/cargo-v5"), "/home/me/.cache/cargo-v5/vexide-template.tar.gz");
    assert_eq!(cache_fingerprint_path("/home/me/.cache/cargo-v5"), "/home/me/.cache/cargo-v5/cache-id.txt");
}

#[test]
fn error_messages_name_the_reason() {
    assert_eq!(CliError::ReqwestError("timed out".to_string()).message(), "request failed: timed out");
    assert_eq!(CliError::MalformedResponse.message(), "malformed response from the template source");
    assert_eq!(CliError::ProjectDirFull("robot".to_string()).message(), "project directory is not empty: robot");
    assert_eq!(CliError::IoError("denied".to_string()).message(), "file system error: denied");
    assert_eq!(CliError::NoProjectName("..".to_string()).message(), "no name for the project in: ..");
}
