use bearer_gateway::launch::{LaunchError, LaunchMode};
use bearer_gateway::openai::{bearer_authorization, chat_completions_uri, ChatRole, OpenAIError};
use bearer_gateway::state::{audiences_of, build_config, AuthProvider, Config};
use bearer_gateway::storage::{cache_bytes, cached_value, DbError};
use bearer_gateway::text::{ascii_words, is_space};
use bearer_gateway::types::AssetBackend;
use bearer_gateway::util::{now, random_alphanumeric_string, whole_seconds};

#[test]
fn launch_mode_by_name() {
    assert_eq!(LaunchMode::from_name("development"), LaunchMode::Development);
    assert_eq!(LaunchMode::from_name("testing"), LaunchMode::Testing);
    assert_eq!(LaunchMode::from_name("staging"), LaunchMode::Staging);
    assert_eq!(LaunchMode::from_name("production"), LaunchMode::Production);
    assert_eq!(LaunchMode::from_name("Development"), LaunchMode::Production);
    assert_eq!(LaunchMode::from_name(""), LaunchMode::Production);
}

#[test]
fn launch_mode_name_selects_the_mode_again() {
    for mode in [
        LaunchMode::Development,
        LaunchMode::Testing,
        LaunchMode::Staging,
        LaunchMode::Production,
    ] {
        assert_eq!(LaunchMode::from_name(mode.name()), mode);
    }
    assert_eq!(LaunchMode::Staging.name(), "staging");
}

#[test]
fn asset_backend_by_name_in_any_case() {
    for name in ["aws", "amazon", "s3", "AWS", "Amazon", "S3"] {
        assert_eq!(AssetBackend::from_name(name), AssetBackend::Aws);
    }
    for name in ["gcp", "google", "gcs", "GCP", "Google"] {
        assert_eq!(AssetBackend::from_name(name), AssetBackend::Gcp);
    }
    assert_eq!(AssetBackend::from_name("Azure"), AssetBackend::Azure);
    assert_eq!(AssetBackend::from_name("fs"), AssetBackend::Fs);
    assert_eq!(AssetBackend::from_name(""), AssetBackend::Fs);
    assert_eq!(AssetBackend::from_name("disk"), AssetBackend::Fs);
}

#[test]
fn asset_backend_by_lowercase_name_is_exact() {
    assert_eq!(AssetBackend::from_lowercase("aws"), AssetBackend::Aws);
    assert_eq!(AssetBackend::from_lowercase("AWS"), AssetBackend::Fs);
    assert_eq!(AssetBackend::from_lowercase("azure"), AssetBackend::Azure);
}

#[test]
fn auth_provider_by_name() {
    assert_eq!(AuthProvider::from_name("auth0"), Some(AuthProvider::Auth0));
    assert_eq!(AuthProvider::from_name("noop"), Some(AuthProvider::NoOp));
    assert_eq!(AuthProvider::from_name("okta"), None);
    assert_eq!(AuthProvider::from_name("Auth0"), None);
    assert_eq!(AuthProvider::from_name(""), None);
}

#[test]
fn audiences_are_the_words_of_the_setting() {
    assert_eq!(audiences_of("a  b\tc\n"), vec!["a".to_string(), "b".to_string(), "c".to_string()]);
    assert_eq!(audiences_of("https://gateway.example/api"), vec!["https://gateway.example/api".to_string()]);
    assert_eq!(audiences_of(""), Vec::<String>::new());
    assert_eq!(audiences_of("   "), Vec::<String>::new());
}

#[test]
fn config_holds_what_it_was_made_with() {
    let c = Config::new("gateway", vec![1, 2, 3], LaunchMode::Testing, AssetBackend::Gcp);
    assert_eq!(c.name, "gateway");
    assert_eq!(c.secret, vec![1, 2, 3]);
    assert_eq!(c.launch_mode, LaunchMode::Testing);
    assert_eq!(c.asset_backend, AssetBackend::Gcp);
}

#[test]
fn config_is_built_from_settings_as_written() {
    let c = build_config("gateway", "s3cr", "staging", "Google");
    assert_eq!(c.name, "gateway");
    assert_eq!(c.secret, vec![b's', b'3', b'c', b'r']);
    assert_eq!(c.launch_mode, LaunchMode::Staging);
    assert_eq!(c.asset_backend, AssetBackend::Gcp);
    let c = build_config("", "", "anything", "anything");
    assert_eq!(c.secret, Vec::<u8>::new());
    assert_eq!(c.launch_mode, LaunchMode::Production);
    assert_eq!(c.asset_backend, AssetBackend::Fs);
}

#[test]
fn random_string_has_the_length_and_the_alphabet() {
    for len in [0usize, 1, 7, 64, 500] {
        let s = random_alphanumeric_string(len);
        assert_eq!(s.chars().count(), len);
        assert!(s.chars().all(|c| c.is_ascii_alphanumeric()));
    }
    assert_ne!(random_alphanumeric_string(64), random_alphanumeric_string(64));
}

#[test]
fn clock_reads_a_time_after_the_epoch() {
    let t = now().unwrap();
    assert!(t > 1_600_000_000);
    assert_eq!(whole_seconds(Some(17)), Some(17));
    assert_eq!(whole_seconds(None), None);
}

#[test]
fn launch_failures_have_their_texts() {
    let s = || "why".to_string();
    assert_eq!(
        LaunchError::InvalidSecret(s()).message(),
        "invalid or missing app secret. error: why"
    );
    assert_eq!(
        LaunchError::InvalidAuthProvider("okta".to_string(), s()).message(),
        "invalid authentication provider okta. error: why"
    );
    assert_eq!(
        LaunchError::InitAuth("Auth0".to_string(), s()).message(),
        "error initializing Auth0 authentication provider. error: why"
    );
    assert_eq!(
        LaunchError::Migrate(s()).message(),
        "could not run database migrations. error: why"
    );
    assert_eq!(LaunchError::Internal(s()).message(), "unknown internal server failure. error: why");
    assert_eq!(LaunchError::InitSql(s()), LaunchError::InitSql(s()));
    assert_ne!(LaunchError::InitSql(s()), LaunchError::InitCache(s()));
}

#[test]
fn storage_failures_have_their_texts() {
    let s = || "why".to_string();
    assert_eq!(DbError::InvalidUri(s()).message(), "invalid database uri. error: why");
    assert_eq!(DbError::PoolCreate(s()).message(), "unable to create connection pool. error: why");
    assert_eq!(DbError::CreateClient(s()).message(), "unable to create client. error: why");
    assert_eq!(
        DbError::InvalidCacheValue(s()).message(),
        "invalid value for cache (not a supported type). error: why"
    );
    assert_eq!(DbError::Parse(s()).message(), "unable to parse into value. error: why");
    assert_eq!(
        DbError::ServerError(s()).message(),
        "internal server error with database client. error: why"
    );
}

#[test]
fn completion_requests_are_addressed() {
    assert_eq!(
        chat_completions_uri("https://api.openai.com/v1"),
        "https://api.openai.com/v1/chat/completions"
    );
    assert_eq!(bearer_authorization("k-1"), "Bearer k-1");
    assert_eq!(ChatRole::Assistant.name(), "assistant");
    assert_eq!(ChatRole::System.name(), "system");
    assert_eq!(
        OpenAIError::CreateChat("why".to_string()).message(),
        "unable to retrieve chat completion. error: why"
    );
    assert_eq!(
        OpenAIError::Serialize("why".to_string()).message(),
        "unable to serialize response. error: why"
    );
}

#[test]
fn cache_holds_the_bytes_of_the_json_text() {
    assert_eq!(cache_bytes(Ok("{\"a\":1}".to_string())), Ok(b"{\"a\":1}".to_vec()));
    assert_eq!(cache_bytes(Ok("\u{e9}".to_string())), Ok(vec![0xc3, 0xa9]));
    assert_eq!(
        cache_bytes(Err("key must be a string".to_string())),
        Err(DbError::InvalidCacheValue("key must be a string".to_string()))
    );
}

#[test]
fn cache_lookup_tells_nothing_from_unreadable() {
    assert_eq!(cached_value::<u32>(None), Ok(None));
    assert_eq!(cached_value(Some(Ok(7u32))), Ok(Some(7)));
    assert_eq!(
        cached_value::<u32>(Some(Err("expected value".to_string()))),
        Err(DbError::Parse("expected value".to_string()))
    );
}

#[test]
fn words_are_split_at_ascii_whitespace_only() {
    assert_eq!(ascii_words("a b"), vec!["a".to_string(), "b".to_string()]);
    assert_eq!(
        ascii_words(" \t one\ntwo\r\n\x0cthree  "),
        vec!["one".to_string(), "two".to_string(), "three".to_string()]
    );
    assert_eq!(ascii_words("a\u{b}b"), vec!["a\u{b}b".to_string()]);
    assert_eq!(ascii_words("a\u{a0}b"), vec!["a\u{a0}b".to_string()]);
    assert_eq!(ascii_words("\u{e9}t\u{e9} ici"), vec!["\u{e9}t\u{e9}".to_string(), "ici".to_string()]);
    assert_eq!(ascii_words("word"), vec!["word".to_string()]);
    assert_eq!(ascii_words(" "), Vec::<String>::new());
    for text in ["", " a", "a ", "  a  b  ", "\ta\nb\rc\x0cd e", "x\u{b}y z"] {
        let expected: Vec<String> = text.split_ascii_whitespace().map(String::from).collect();
        assert_eq!(ascii_words(text), expected);
    }
    assert!(is_space(' ') && is_space('\t') && is_space('\n') && is_space('\r') && is_space('\x0c'));
    assert!(!is_space('\u{b}') && !is_space('a') && !is_space('\u{a0}'));
}
