use gstorage_conf::conf::{
    bool_with_default, optional_string, string_with_default, u64_with_default, ConfigError,
    GStorageConfig, DCB_METADATA_TAGS, DCB_URL, GCLOUD_BUCKET_NAME, GCLOUD_FOLDER,
    GCLOUD_OAUTH_TOKEN, GCLOUD_REMOVE_ON_UPLOAD, GCLOUD_UPLOAD_INTERVAL,
};
use gstorage_conf::env::EnvVars;
use gstorage_conf::tags::parse_dcb_metadata_tags;

fn env_of(pairs: &[(&str, &str)]) -> EnvVars {
    let mut env = EnvVars::new();
    for (k, v) in pairs {
        env.set(k, v);
    }
    env
}

fn parse_error(key: &str, value: &str) -> ConfigError {
    ConfigError::ParseError { key: key.to_string(), value: value.to_string() }
}

#[test]
fn dcb_metadata_tags_parsing() {
    let sample_env = "foo,bar,key:value,test2";
    let parsed: Vec<String> = parse_dcb_metadata_tags(sample_env);

    let expected: Vec<String> = ["foo", "bar", "key:value", "test2"]
        .iter()
        .map(|s| String::from(*s))
        .collect();

    assert_eq!(parsed, expected);
}

#[test]
fn empty_tags_give_one_empty_tag() {
    assert_eq!(parse_dcb_metadata_tags(""), vec![String::new()]);
}

#[test]
fn tags_keep_spaces_and_empty_pieces() {
    assert_eq!(
        parse_dcb_metadata_tags(" a, b ,,c,"),
        vec![" a", " b ", "", "c", ""].into_iter().map(String::from).collect::<Vec<String>>()
    );
    assert_eq!(parse_dcb_metadata_tags(","), vec![String::new(), String::new()]);
    assert_eq!(parse_dcb_metadata_tags("é,ü"), vec!["é".to_string(), "ü".to_string()]);
}

#[test]
fn unset_variables_take_defaults() {
    let c = GStorageConfig::new(&EnvVars::new()).unwrap();
    assert_eq!(c.oauth_token, None);
    assert_eq!(c.bucket_name, "tick_data");
    assert_eq!(c.folder, "");
    assert_eq!(c.interval, 3600);
    assert!(c.remove);
    assert_eq!(c.dcb_url, None);
    assert_eq!(c.dcb_metadata_tags, vec![String::new()]);
}

#[test]
fn set_variables_are_taken_verbatim() {
    let env = env_of(&[
        (GCLOUD_OAUTH_TOKEN, "tok"),
        (GCLOUD_BUCKET_NAME, "my-bucket"),
        (GCLOUD_FOLDER, "daily/ticks"),
        (GCLOUD_UPLOAD_INTERVAL, "60"),
        (GCLOUD_REMOVE_ON_UPLOAD, "false"),
        (DCB_URL, "http://dcb.local"),
        (DCB_METADATA_TAGS, "foo,bar,key:value,test2"),
    ]);
    let c = GStorageConfig::new(&env).unwrap();
    assert_eq!(c.oauth_token, Some("tok".to_string()));
    assert_eq!(c.bucket_name, "my-bucket");
    assert_eq!(c.folder, "daily/ticks");
    assert_eq!(c.interval, 60);
    assert!(!c.remove);
    assert_eq!(c.dcb_url, Some("http://dcb.local".to_string()));
    assert_eq!(c.dcb_metadata_tags, vec!["foo", "bar", "key:value", "test2"]);
}

#[test]
fn empty_values_are_present() {
    let env = env_of(&[(GCLOUD_OAUTH_TOKEN, ""), (GCLOUD_BUCKET_NAME, ""), (DCB_URL, "")]);
    let c = GStorageConfig::new(&env).unwrap();
    assert_eq!(c.oauth_token, Some(String::new()));
    assert_eq!(c.bucket_name, "");
    assert_eq!(c.dcb_url, Some(String::new()));
}

#[test]
fn later_assignment_wins() {
    let env = env_of(&[(GCLOUD_BUCKET_NAME, "first"), (GCLOUD_BUCKET_NAME, "second")]);
    assert_eq!(env.get(GCLOUD_BUCKET_NAME), Some(&"second".to_string()));
    assert_eq!(env.get(GCLOUD_FOLDER), None);
}

#[test]
fn interval_numbers() {
    for (raw, n) in [("0", 0u64), ("42", 42), ("+7", 7), ("007", 7), ("18446744073709551615", u64::MAX)] {
        let env = env_of(&[(GCLOUD_UPLOAD_INTERVAL, raw)]);
        assert_eq!(GStorageConfig::new(&env).unwrap().interval, n);
        assert_eq!(u64_with_default(&env, GCLOUD_UPLOAD_INTERVAL, 3600), Ok(n));
    }
}

#[test]
fn interval_not_a_number_fails() {
    for raw in ["abc", "", "+", "-1", " 5", "5 ", "1.5", "18446744073709551616"] {
        let env = env_of(&[(GCLOUD_UPLOAD_INTERVAL, raw)]);
        assert_eq!(GStorageConfig::new(&env), Err(parse_error(GCLOUD_UPLOAD_INTERVAL, raw)));
    }
}

#[test]
fn remove_flag_values() {
    let on = env_of(&[(GCLOUD_REMOVE_ON_UPLOAD, "true")]);
    assert!(GStorageConfig::new(&on).unwrap().remove);
    let off = env_of(&[(GCLOUD_REMOVE_ON_UPLOAD, "false")]);
    assert!(!GStorageConfig::new(&off).unwrap().remove);
    assert_eq!(bool_with_default(&off, GCLOUD_REMOVE_ON_UPLOAD, true), Ok(false));
    assert_eq!(bool_with_default(&EnvVars::new(), GCLOUD_REMOVE_ON_UPLOAD, false), Ok(false));
}

#[test]
fn remove_flag_unparseable_fails() {
    for raw in ["yes", "True", "1", "", " true"] {
        let env = env_of(&[(GCLOUD_REMOVE_ON_UPLOAD, raw)]);
        assert_eq!(GStorageConfig::new(&env), Err(parse_error(GCLOUD_REMOVE_ON_UPLOAD, raw)));
    }
}

#[test]
fn interval_error_comes_first() {
    let env = env_of(&[(GCLOUD_UPLOAD_INTERVAL, "soon"), (GCLOUD_REMOVE_ON_UPLOAD, "maybe")]);
    assert_eq!(GStorageConfig::new(&env), Err(parse_error(GCLOUD_UPLOAD_INTERVAL, "soon")));
}

#[test]
fn loading_twice_gives_equal_values() {
    let env = env_of(&[(GCLOUD_FOLDER, "x"), (DCB_METADATA_TAGS, "a,b")]);
    assert_eq!(GStorageConfig::new(&env), GStorageConfig::new(&env));
    let bad = env_of(&[(GCLOUD_UPLOAD_INTERVAL, "x")]);
    assert_eq!(GStorageConfig::new(&bad), GStorageConfig::new(&bad));
}

#[test]
fn lookup_primitives() {
    let env = env_of(&[(GCLOUD_FOLDER, "f")]);
    assert_eq!(string_with_default(&env, GCLOUD_FOLDER, "d"), "f");
    assert_eq!(string_with_default(&env, GCLOUD_BUCKET_NAME, "d"), "d");
    assert_eq!(optional_string(&env, GCLOUD_FOLDER), Some("f".to_string()));
    assert_eq!(optional_string(&env, DCB_URL), None);
    assert_eq!(u64_with_default(&env, GCLOUD_UPLOAD_INTERVAL, 9), Ok(9));
}

#[test]
fn error_message_names_key_and_value() {
    let e = parse_error(GCLOUD_UPLOAD_INTERVAL, "abc");
    assert_eq!(e.message(), "cannot parse environment variable GCLOUD_UPLOAD_INTERVAL=\"abc\"");
}
