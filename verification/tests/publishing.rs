use symbols::config::{
    default_servers, B2Config, HttpConfig, PathConfig, RemoteStorageAccess, RemoteStorageType,
    S3Config, SymbolServerConfig,
};
use symbols::dedup::PublishEntry;
use symbols::publish::{
    backend_of, copy_to_folder, make_upload_request, Backend, EntryRun, PublishEvent, PublishStep,
};
use symbols::symstore::{FileInfo, FileType, ResourceType};

fn sample_info() -> FileInfo {
    FileInfo {
        path: "/build/libfoo.so".to_string(),
        file_type: FileType::Elf,
        file_size: 3,
        identifier: "deadbeef".to_string(),
        resource_type: ResourceType::DebugInfo,
    }
}

fn sample_entry() -> PublishEntry {
    let info = sample_info();
    let key = info.key();
    PublishEntry { key, info }
}

fn store_backend() -> Backend {
    Backend::ObjectStore { bucket: "syms".to_string(), prefix: "pre/".to_string() }
}

#[test]
fn backend_of_maps_each_transport() {
    let http = RemoteStorageType::Http(HttpConfig { url: "https://h".to_string() });
    assert!(backend_of(&http).is_none());

    let s3 = RemoteStorageType::S3(S3Config {
        bucket: "b".to_string(),
        prefix: "p/".to_string(),
        region: "r".to_string(),
        profile: None,
    });
    match backend_of(&s3).unwrap() {
        Backend::ObjectStore { bucket, prefix } => {
            assert_eq!(bucket, "b");
            assert_eq!(prefix, "p/");
        }
        _ => panic!("expected an object store"),
    }

    let b2 = RemoteStorageType::B2(B2Config {
        bucket: "bb".to_string(),
        prefix: "".to_string(),
        endpoint: "https://e".to_string(),
        account_id: None,
    });
    assert!(matches!(backend_of(&b2).unwrap(), Backend::ObjectStore { .. }));

    let sym = RemoteStorageType::SymbolServer(SymbolServerConfig {
        project: "proj".to_string(),
        url: None,
    });
    match backend_of(&sym).unwrap() {
        Backend::RemoteApi { base_url, project } => {
            assert_eq!(base_url, "https://api.symbolserver.com");
            assert_eq!(project, "proj");
        }
        _ => panic!("expected the remote api"),
    }

    let path = RemoteStorageType::Path(PathConfig { path: "/mirror".to_string() });
    match backend_of(&path).unwrap() {
        Backend::LocalPath { dest_dir } => assert_eq!(dest_dir, "/mirror"),
        _ => panic!("expected the local mirror"),
    }
}

#[test]
fn default_servers_offer_one_readable_http_server() {
    let servers = default_servers();
    assert_eq!(servers.len(), 1);
    assert_eq!(servers[0].access, RemoteStorageAccess::Read);
    assert!(servers[0].name.is_none());
    match &servers[0].storage_type {
        RemoteStorageType::Http(c) => assert_eq!(c.url, "https://debuginfod.elfutils.org/"),
        _ => panic!("expected a plain http server"),
    }
}

#[test]
fn dry_run_announces_and_writes_nothing() {
    // the same holds of every backend; the object store exercises the
    // existence-checking one
    let mut run = EntryRun::new(store_backend(), sample_entry(), None, true);
    let act = run.step(PublishEvent::Start);
    match act {
        PublishStep::Announce(m) => assert_eq!(
            m,
            "uploading '/build/libfoo.so' to bucket 'syms' with key 'pre/buildid/deadbeef/debuginfo'"
        ),
        _ => panic!("expected the announcement"),
    }
    let act = run.step(PublishEvent::Announced);
    assert!(matches!(act, PublishStep::Done));
}

#[test]
fn dry_run_on_local_mirror_logs_the_live_lines() {
    let backend = Backend::LocalPath { dest_dir: "/mirror".to_string() };
    let mut run = EntryRun::new(backend, sample_entry(), None, true);
    let act = run.step(PublishEvent::Start);
    match act {
        PublishStep::Announce(m) => assert_eq!(
            m,
            "Copying '/build/libfoo.so' to '/mirror/buildid/deadbeef/debuginfo'"
        ),
        _ => panic!("expected the announcement"),
    }
    assert!(matches!(run.step(PublishEvent::Announced), PublishStep::Done));
}

#[test]
fn existing_key_is_skipped_not_rewritten() {
    let mut run = EntryRun::new(store_backend(), sample_entry(), None, false);
    assert!(matches!(run.step(PublishEvent::Start), PublishStep::Announce(_)));
    let act = run.step(PublishEvent::Announced);
    match act {
        PublishStep::CheckExists(k) => assert_eq!(k, "pre/buildid/deadbeef/debuginfo"),
        _ => panic!("expected the existence query"),
    }
    let act = run.step(PublishEvent::ExistsResult(true));
    match act {
        PublishStep::SkipExists(m) => {
            assert_eq!(m, "skipped, already exists: 'pre/buildid/deadbeef/debuginfo'")
        }
        _ => panic!("expected the skip"),
    }
}

#[test]
fn absent_key_is_written_under_the_full_key() {
    let mut run = EntryRun::new(store_backend(), sample_entry(), None, false);
    run.step(PublishEvent::Start);
    run.step(PublishEvent::Announced);
    let act = run.step(PublishEvent::ExistsResult(false));
    match act {
        PublishStep::Write(k) => assert_eq!(k, "pre/buildid/deadbeef/debuginfo"),
        _ => panic!("expected the write"),
    }
    assert!(matches!(run.step(PublishEvent::WriteResult(true)), PublishStep::Done));
}

#[test]
fn failed_write_skips_the_entry() {
    let mut run = EntryRun::new(store_backend(), sample_entry(), None, false);
    run.step(PublishEvent::Start);
    run.step(PublishEvent::Announced);
    run.step(PublishEvent::ExistsResult(false));
    let act = run.step(PublishEvent::WriteResult(false));
    match act {
        PublishStep::Failed(m) => assert_eq!(m, "failed to publish '/build/libfoo.so'"),
        _ => panic!("expected the failure report"),
    }
}

#[test]
fn remote_api_runs_the_three_phase_protocol() {
    let backend = Backend::RemoteApi {
        base_url: "https://api.symbolserver.com".to_string(),
        project: "proj".to_string(),
    };
    let info = sample_info();
    let request = make_upload_request(&info, b"abc");
    let mut run = EntryRun::new(backend, sample_entry(), Some(request), false);
    assert!(matches!(run.step(PublishEvent::Start), PublishStep::Announce(_)));
    let act = run.step(PublishEvent::Announced);
    match act {
        PublishStep::CheckExists(k) => assert_eq!(k, "buildid/deadbeef/debuginfo"),
        _ => panic!("expected the existence query"),
    }
    let act = run.step(PublishEvent::ExistsResult(false));
    match act {
        PublishStep::ApiCreate(r) => {
            assert_eq!(r.file_name, "libfoo.so");
            assert_eq!(r.identifier, "deadbeef");
            assert_eq!(r.file_size, 3);
            assert_eq!(
                r.sha256,
                "BA7816BF8F01CFEA414140DE5DAE2223B00361A396177A9CB410FF61F20015AD"
            );
        }
        _ => panic!("expected the create request"),
    }
    let act = run.step(PublishEvent::CreateResult(Some("https://signed".to_string())));
    match act {
        PublishStep::ApiPut(url) => assert_eq!(url, "https://signed"),
        _ => panic!("expected the put"),
    }
    let act = run.step(PublishEvent::PutResult(true));
    match act {
        PublishStep::ApiFinish(r) => assert_eq!(r.identifier, "deadbeef"),
        _ => panic!("expected the finish request"),
    }
    assert!(matches!(run.step(PublishEvent::FinishResult(true)), PublishStep::Done));
}

#[test]
fn remote_api_create_failure_skips_the_entry() {
    let backend = Backend::RemoteApi {
        base_url: "https://api.symbolserver.com".to_string(),
        project: "proj".to_string(),
    };
    let info = sample_info();
    let request = make_upload_request(&info, b"abc");
    let mut run = EntryRun::new(backend, sample_entry(), Some(request), false);
    run.step(PublishEvent::Start);
    run.step(PublishEvent::Announced);
    run.step(PublishEvent::ExistsResult(false));
    let act = run.step(PublishEvent::CreateResult(None));
    assert!(matches!(act, PublishStep::Failed(_)));
}

#[test]
fn upload_request_hashes_empty_content_too() {
    let info = sample_info();
    let request = make_upload_request(&info, b"");
    assert_eq!(
        request.sha256,
        "E3B0C44298FC1C149AFBF4C8996FB92427AE41E4649B934CA495991B7852B855"
    );
}

#[test]
fn local_mirror_copies_are_withheld_on_a_dry_run() {
    let config = PathConfig { path: "/mirror".to_string() };
    let files = vec![sample_info()];
    let actions = copy_to_folder(&config, &files, true);
    assert_eq!(actions.len(), 1);
    assert!(!actions[0].perform);
    assert_eq!(actions[0].source, "/build/libfoo.so");
    assert_eq!(actions[0].dest, "/mirror/buildid/deadbeef/debuginfo");
    assert_eq!(
        actions[0].message,
        "Copying '/build/libfoo.so' to '/mirror/buildid/deadbeef/debuginfo'"
    );
}

#[test]
fn local_mirror_copies_run_live() {
    let config = PathConfig { path: "/mirror".to_string() };
    let files = vec![sample_info()];
    let actions = copy_to_folder(&config, &files, false);
    assert_eq!(actions.len(), 1);
    assert!(actions[0].perform);
}

#[test]
fn empty_run_plans_no_copies() {
    let config = PathConfig { path: "/mirror".to_string() };
    let actions = copy_to_folder(&config, &Vec::new(), false);
    assert!(actions.is_empty());
}
