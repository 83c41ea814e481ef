use evalessence::model::{App, AppConfig, AppError, AppId};
use evalessence::naming::{app_file_name, id_with_suffix, is_app_file_name, select_app_files, ID_SUFFIX_LEN};
use evalessence::store::{FileAppService, PendingWrite};

fn config(id: &str, name: &str) -> AppConfig {
    AppConfig {
        id: AppId(id.to_string()),
        name: name.to_string(),
        envs: vec![],
        datasets: vec![],
        pipelines: vec![],
    }
}

fn loaded(filename: &str, bytes: &[u8], c: AppConfig) -> App {
    FileAppService::get(filename.to_string(), Ok((bytes.to_vec(), Ok(c)))).unwrap()
}

fn is_suffix_char(c: char) -> bool {
    c.is_ascii_alphanumeric() || c == '_' || c == '-'
}

#[test]
fn create_my_app_file_name_has_slug_and_suffix() {
    let svc = FileAppService::new("/srv/store");
    let w = svc.create_record("My App".to_string());
    let f = w.filename.clone();
    assert!(f.starts_with("app-my-app-"));
    assert!(f.ends_with(".yaml"));
    assert_eq!(f.len(), "app-my-app-".len() + ID_SUFFIX_LEN + ".yaml".len());
    let suffix = &f["app-my-app-".len()..f.len() - ".yaml".len()];
    assert!(suffix.chars().all(is_suffix_char));
    assert_eq!(w.config.id.0, format!("my-app-{suffix}"));
    assert_eq!(w.config.name, "My App");
    assert!(w.config.envs.is_empty());
    assert!(w.config.datasets.is_empty());
    assert!(w.config.pipelines.is_empty());
    assert!(is_app_file_name(&f));
}

#[test]
fn generated_id_is_slug_dash_suffix() {
    let svc = FileAppService::new("/srv/store");
    let id = svc.generate_id("You & Me");
    assert!(id.0.starts_with("you-me-"));
    assert_eq!(id.0.len(), "you-me-".len() + ID_SUFFIX_LEN);
    assert!(id.0["you-me-".len()..].chars().all(is_suffix_char));
}

#[test]
fn generated_id_slug_is_lowercase_alphanumeric_and_dashes() {
    let svc = FileAppService::new("/srv/store");
    let id = svc.generate_id("Æúű--cool?");
    let slug = &id.0[..id.0.len() - ID_SUFFIX_LEN - 1];
    assert_eq!(slug, "aeuu-cool");
    assert!(slug.chars().all(|c| c.is_ascii_lowercase() || c.is_ascii_digit() || c == '-'));
    assert_eq!(&id.0[slug.len()..slug.len() + 1], "-");
}

#[test]
fn id_with_suffix_joins_slug_and_suffix() {
    assert_eq!(id_with_suffix("My App", "aB_-").0, "my-app-aB_-");
    assert_eq!(id_with_suffix("  --test_-_cool", "0000").0, "test-cool-0000");
    assert_eq!(id_with_suffix("", "wxyz").0, "-wxyz");
}

#[test]
fn new_record_starts_empty() {
    let w = FileAppService::new_record("Fresh".to_string(), AppId("fresh-1234".to_string()));
    assert_eq!(w.filename, "app-fresh-1234.yaml");
    assert_eq!(w.config.id, AppId("fresh-1234".to_string()));
    assert_eq!(w.config.name, "Fresh");
    assert!(w.config.envs.is_empty() && w.config.datasets.is_empty() && w.config.pipelines.is_empty());
}

#[test]
fn file_name_of_identifier() {
    assert_eq!(app_file_name(&AppId("x-1".to_string())), "app-x-1.yaml");
}

#[test]
fn file_name_pattern() {
    assert!(is_app_file_name("app-good.yaml"));
    assert!(is_app_file_name("app-good.YAML"));
    assert!(is_app_file_name("app-good.YaMl"));
    assert!(is_app_file_name("app-.yaml"));
    assert!(!is_app_file_name("ignore.txt"));
    assert!(!is_app_file_name("App-good.yaml"));
    assert!(!is_app_file_name("app-good.yml"));
    assert!(!is_app_file_name("app-good.yaml.bak"));
    assert!(!is_app_file_name("app.yaml"));
    assert!(!is_app_file_name(""));
}

#[test]
fn select_keeps_matching_names_in_order() {
    let names: Vec<String> = ["b.txt", "app-2.yaml", "app-1.YAML", "app-3.yml", "app-0.yaml"]
        .iter()
        .map(|s| s.to_string())
        .collect();
    assert_eq!(select_app_files(&names), vec!["app-2.yaml", "app-1.YAML", "app-0.yaml"]);
    assert!(select_app_files(&vec![]).is_empty());
}

#[test]
fn list_of_unreadable_directory_is_internal() {
    match FileAppService::list(Err("permission denied".to_string())) {
        Err(AppError::Internal { source }) => assert_eq!(source, "permission denied"),
        other => panic!("expected internal error, got {other:?}"),
    }
}

#[test]
fn get_path_joins_directory_and_file_name() {
    let svc = FileAppService::new("/srv/store");
    assert_eq!(svc.get_path("app-a.yaml"), "/srv/store/app-a.yaml");
    let svc = FileAppService::new("/srv/store/");
    assert_eq!(svc.get_path("app-a.yaml"), "/srv/store/app-a.yaml");
}

#[test]
fn etag_is_blake3_hex_of_bytes() {
    let svc = FileAppService::new("/srv/store");
    assert_eq!(
        svc.calculate_etag(b""),
        "af1349b9f5f9a1a6a0404dea36dcc9499bcb25c9adc112b7cc9a93cae41f3262"
    );
    let t = svc.calculate_etag(b"abc");
    assert_eq!(t.len(), 64);
    assert!(t.chars().all(|c| c.is_ascii_digit() || ('a'..='f').contains(&c)));
}

#[test]
fn etag_is_deterministic_and_detects_change() {
    let svc = FileAppService::new("/srv/store");
    let b1 = b"id: a\nname: A\n".to_vec();
    let b2 = b"id: a\nname: B\n".to_vec();
    assert_eq!(svc.calculate_etag(&b1), svc.calculate_etag(&b1.clone()));
    assert_ne!(svc.calculate_etag(&b1), svc.calculate_etag(&b2));
}

#[test]
fn get_round_trip_gives_same_content_and_token() {
    let bytes = b"id: rt-1\nname: Round\nenvs: []\ndatasets: []\npipelines: []\n";
    let a1 = loaded("app-rt-1.yaml", bytes, config("rt-1", "Round"));
    let a2 = loaded("app-rt-1.yaml", bytes, config("rt-1", "Round"));
    assert_eq!(a1.id, a2.id);
    assert_eq!(a1.name, a2.name);
    assert_eq!(a1.filename, a2.filename);
    assert_eq!(a1.etag, a2.etag);
}

#[test]
fn get_decode_failure_is_validation_error_with_file_name() {
    match FileAppService::get("app-bad.yaml".to_string(), Ok((b"::".to_vec(), Err("bad".to_string())))) {
        Err(AppError::ValidationError { filename, source }) => {
            assert_eq!(filename, "app-bad.yaml");
            assert_eq!(source, "bad");
        }
        other => panic!("expected validation error, got {other:?}"),
    }
}

#[test]
fn update_of_missing_file_is_file_io_error() {
    let app = loaded("app-m.yaml", b"m", config("m", "M"));
    match FileAppService::check_update(app, Err("not found".to_string())) {
        Err(AppError::FileIoError { filename, source }) => {
            assert_eq!(filename, "app-m.yaml");
            assert_eq!(source, "not found");
        }
        other => panic!("expected file io error, got {other:?}"),
    }
}

#[test]
fn update_with_current_token_strips_file_name_and_token() {
    let bytes = b"current".to_vec();
    let mut app = loaded("app-u.yaml", &bytes, config("u", "U"));
    app.name = "U2".to_string();
    let w: PendingWrite = FileAppService::check_update(app, Ok(bytes)).unwrap();
    assert_eq!(w.filename, "app-u.yaml");
    assert_eq!(w.config.id, AppId("u".to_string()));
    assert_eq!(w.config.name, "U2");
}

#[test]
fn update_after_concurrent_update_conflicts() {
    let v0 = b"version zero".to_vec();
    let v1 = b"version one".to_vec();
    let mine = loaded("app-c.yaml", &v0, config("c", "C"));
    match FileAppService::check_update(mine, Ok(v1)) {
        Err(AppError::Conflict { filename }) => assert_eq!(filename, "app-c.yaml"),
        other => panic!("expected conflict, got {other:?}"),
    }
}

#[test]
fn updated_carries_token_of_written_bytes() {
    let w = PendingWrite { filename: "app-w.yaml".to_string(), config: config("w", "W") };
    let app = FileAppService::updated(w, b"new bytes", Ok(())).unwrap();
    assert_eq!(app.etag, blake3::hash(b"new bytes").to_string());
    assert_eq!(app.filename, "app-w.yaml");
    assert_eq!(app.name, "W");
}

#[test]
fn failed_update_write_is_file_io_error() {
    let w = PendingWrite { filename: "app-w.yaml".to_string(), config: config("w", "W") };
    match FileAppService::updated(w, b"x", Err("disk full".to_string())) {
        Err(AppError::FileIoError { filename, source }) => {
            assert_eq!(filename, "app-w.yaml");
            assert_eq!(source, "disk full");
        }
        other => panic!("expected file io error, got {other:?}"),
    }
}

#[test]
fn failed_create_write_is_internal() {
    let w = FileAppService::new_record("N".to_string(), AppId("n-0000".to_string()));
    match FileAppService::created(w, Err("read-only".to_string())) {
        Err(AppError::Internal { source }) => assert_eq!(source, "read-only"),
        other => panic!("expected internal error, got {other:?}"),
    }
}

#[test]
fn encode_failure_is_internal() {
    assert_eq!(FileAppService::encoded(Ok(b"abc".to_vec())).unwrap(), b"abc".to_vec());
    match FileAppService::encoded(Err("cannot encode".to_string())) {
        Err(AppError::Internal { source }) => assert_eq!(source, "cannot encode"),
        other => panic!("expected internal error, got {other:?}"),
    }
}

#[test]
fn delete_of_absent_file_fails() {
    assert!(FileAppService::delete("app-d.yaml".to_string(), Ok(())).is_ok());
    match FileAppService::delete("app-d.yaml".to_string(), Err("not found".to_string())) {
        Err(AppError::FileIoError { filename, .. }) => assert_eq!(filename, "app-d.yaml"),
        other => panic!("expected file io error, got {other:?}"),
    }
}

#[test]
fn token_check_accepts_equal_token_only() {
    let bytes = b"now".to_vec();
    let app = loaded("app-t.yaml", &bytes, config("t", "T"));
    let current = blake3::hash(&bytes).to_string();
    let w = FileAppService::check_token(app.clone(), &current).unwrap();
    assert_eq!(w.filename, "app-t.yaml");
    assert_eq!(w.config.name, "T");
    match FileAppService::check_token(app, &blake3::hash(b"other").to_string()) {
        Err(AppError::Conflict { filename }) => assert_eq!(filename, "app-t.yaml"),
        other => panic!("expected conflict, got {other:?}"),
    }
}

#[test]
fn list_results_keep_each_file_outcome_in_order() {
    let reads = vec![
        ("app-a.yaml".to_string(), Ok((b"a".to_vec(), Ok(config("a", "A"))))),
        ("app-b.yaml".to_string(), Ok((b"::".to_vec(), Err("bad".to_string())))),
        ("app-c.yaml".to_string(), Err("gone".to_string())),
    ];
    let res = FileAppService::list_results(reads);
    assert_eq!(res.len(), 3);
    match &res[0] {
        Ok(a) => {
            assert_eq!(a.name, "A");
            assert_eq!(a.etag, blake3::hash(b"a").to_string());
        }
        other => panic!("expected a document, got {other:?}"),
    }
    match &res[1] {
        Err(AppError::ValidationError { filename, .. }) => assert_eq!(filename, "app-b.yaml"),
        other => panic!("expected validation error, got {other:?}"),
    }
    match &res[2] {
        Err(AppError::FileIoError { filename, .. }) => assert_eq!(filename, "app-c.yaml"),
        other => panic!("expected file io error, got {other:?}"),
    }
    assert!(FileAppService::list_results(vec![]).is_empty());
}
