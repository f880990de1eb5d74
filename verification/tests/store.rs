use aws_key_rotator::aws::config::{AwsConfigurationManager, ConfigError};
use aws_key_rotator::aws::model::AccessKey;

const CREDENTIALS: &[u8] = b"[default]\naws_access_key_id=DEFAULT1\naws_secret_access_key=defaultsecret\n\n[p]\nregion=eu-west-1\naws_access_key_id=OLD1\naws_secret_access_key=oldsecret/+abc\n";

const CONFIG: &[u8] = b"[profile p]\nregion=eu-west-1\n\n[automation]\nprofile=p\nusername=alice\nmfa_arn=arn:mfa:1\n";

fn key(id: &str, secret: &str) -> AccessKey {
    AccessKey {
        access_key_id: id.to_string(),
        create_date: Some("2024-01-01T00:00:00Z".to_string()),
        secret_access_key: secret.to_string(),
        status: "Active".to_string(),
        user_name: "alice".to_string(),
    }
}

fn missing(section: &str, field: &str, outcome: Result<AwsConfigurationManager, ConfigError>) -> bool {
    match outcome {
        Err(ConfigError::MissingField { section: s, field: f }) => s == section && f == field,
        _ => false,
    }
}

#[test]
fn load_reads_the_parameters_and_the_profiles_key() {
    let store = AwsConfigurationManager::new(Some(CREDENTIALS), Some(CONFIG)).unwrap();
    assert_eq!(store.aws_profile(), "p");
    assert_eq!(store.aws_username(), "alice");
    assert_eq!(store.aws_mfa_arn(), "arn:mfa:1");
    let active = store.read_credentials_info();
    assert_eq!(active.access_key_id, "OLD1");
    assert_eq!(active.secret_access_key, "oldsecret/+abc");
    assert_eq!(active.create_date, None);
    assert_eq!(active.status, "");
    assert_eq!(active.user_name, "");
}

#[test]
fn load_without_a_file_is_store_not_found() {
    assert!(matches!(AwsConfigurationManager::new(None, Some(CONFIG)), Err(ConfigError::StoreNotFound)));
    assert!(matches!(AwsConfigurationManager::new(Some(CREDENTIALS), None), Err(ConfigError::StoreNotFound)));
    assert!(matches!(AwsConfigurationManager::new(None, None), Err(ConfigError::StoreNotFound)));
}

#[test]
fn load_of_a_file_that_does_not_parse_is_store_malformed() {
    let broken: &[u8] = b"[p\naws_access_key_id=OLD1\n";
    assert!(matches!(AwsConfigurationManager::new(Some(broken), Some(CONFIG)), Err(ConfigError::StoreMalformed)));
    assert!(matches!(AwsConfigurationManager::new(Some(CREDENTIALS), Some(broken)), Err(ConfigError::StoreMalformed)));
    let not_text: &[u8] = &[0x5b, 0x70, 0x5d, 0x0a, 0xff, 0xfe, 0x3d, 0x31, 0x0a];
    assert!(matches!(AwsConfigurationManager::new(Some(not_text), Some(CONFIG)), Err(ConfigError::StoreMalformed)));
}

#[test]
fn load_looks_at_the_credentials_file_first() {
    let broken: &[u8] = b"[p\n";
    assert!(matches!(AwsConfigurationManager::new(None, Some(broken)), Err(ConfigError::StoreNotFound)));
    assert!(matches!(AwsConfigurationManager::new(Some(broken), None), Err(ConfigError::StoreMalformed)));
}

#[test]
fn load_names_the_missing_parameter() {
    let no_profile: &[u8] = b"[automation]\nusername=alice\nmfa_arn=arn:mfa:1\n";
    assert!(missing("automation", "profile", AwsConfigurationManager::new(Some(CREDENTIALS), Some(no_profile))));
    let no_username: &[u8] = b"[automation]\nprofile=p\nmfa_arn=arn:mfa:1\n";
    assert!(missing("automation", "username", AwsConfigurationManager::new(Some(CREDENTIALS), Some(no_username))));
    let no_device: &[u8] = b"[automation]\nprofile=p\nusername=alice\n";
    assert!(missing("automation", "mfa_arn", AwsConfigurationManager::new(Some(CREDENTIALS), Some(no_device))));
    let no_section: &[u8] = b"[profile p]\nregion=eu-west-1\n";
    assert!(missing("automation", "profile", AwsConfigurationManager::new(Some(CREDENTIALS), Some(no_section))));
    let nothing: &[u8] = b"";
    assert!(missing("automation", "profile", AwsConfigurationManager::new(Some(CREDENTIALS), Some(nothing))));
    let two_missing: &[u8] = b"[automation]\nprofile=p\n";
    assert!(missing("automation", "username", AwsConfigurationManager::new(Some(CREDENTIALS), Some(two_missing))));
}

#[test]
fn load_names_the_missing_field_of_the_profile() {
    let other_profile: &[u8] = b"[automation]\nprofile=q\nusername=alice\nmfa_arn=arn:mfa:1\n";
    assert!(missing("q", "aws_access_key_id", AwsConfigurationManager::new(Some(CREDENTIALS), Some(other_profile))));
    let no_id: &[u8] = b"[p]\naws_secret_access_key=oldsecret\n";
    assert!(missing("p", "aws_access_key_id", AwsConfigurationManager::new(Some(no_id), Some(CONFIG))));
    let no_secret: &[u8] = b"[p]\naws_access_key_id=OLD1\n";
    assert!(missing("p", "aws_secret_access_key", AwsConfigurationManager::new(Some(no_secret), Some(CONFIG))));
}

#[test]
fn load_passes_over_a_byte_order_mark() {
    let mut marked: Vec<u8> = vec![0xef, 0xbb, 0xbf];
    marked.extend_from_slice(CREDENTIALS);
    let store = AwsConfigurationManager::new(Some(&marked), Some(CONFIG)).unwrap();
    assert_eq!(store.read_credentials_info().access_key_id, "OLD1");
    let mut marked_config: Vec<u8> = vec![0xef, 0xbb, 0xbf];
    marked_config.extend_from_slice(CONFIG);
    let store = AwsConfigurationManager::new(Some(CREDENTIALS), Some(&marked_config)).unwrap();
    assert_eq!(store.aws_username(), "alice");
    let only_mark: &[u8] = &[0xef, 0xbb, 0xbf];
    assert!(missing("automation", "profile", AwsConfigurationManager::new(Some(CREDENTIALS), Some(only_mark))));
}

#[test]
fn load_takes_the_first_of_what_occurs_twice() {
    let twice: &[u8] = b"[p]\naws_access_key_id=FIRST\naws_access_key_id=SECOND\naws_secret_access_key=one\n";
    let store = AwsConfigurationManager::new(Some(twice), Some(CONFIG)).unwrap();
    let active = store.read_credentials_info();
    assert_eq!(active.access_key_id, "FIRST");
    assert_eq!(active.secret_access_key, "one");
}

#[test]
fn written_key_is_held_by_the_store() {
    let mut store = AwsConfigurationManager::new(Some(CREDENTIALS), Some(CONFIG)).unwrap();
    let contents = store.write_credentials_info(&key("NEW1", "newsecret/+xyz")).unwrap();
    assert!(!contents.is_empty());
    let active = store.read_credentials_info();
    assert_eq!(active.access_key_id, "NEW1");
    assert_eq!(active.secret_access_key, "newsecret/+xyz");
    assert_eq!(store.aws_profile(), "p");
    assert_eq!(store.aws_username(), "alice");
    assert_eq!(store.aws_mfa_arn(), "arn:mfa:1");
}

#[test]
fn written_key_is_read_back_by_a_fresh_load() {
    let mut store = AwsConfigurationManager::new(Some(CREDENTIALS), Some(CONFIG)).unwrap();
    let contents = store.write_credentials_info(&key("NEW1", "newsecret/+xyz")).unwrap();
    let fresh = AwsConfigurationManager::new(Some(&contents), Some(CONFIG)).unwrap();
    let active = fresh.read_credentials_info();
    assert_eq!(active.access_key_id, "NEW1");
    assert_eq!(active.secret_access_key, "newsecret/+xyz");
}

#[test]
fn written_store_keeps_what_is_not_the_profiles_key() {
    let mut store = AwsConfigurationManager::new(Some(CREDENTIALS), Some(CONFIG)).unwrap();
    let contents = store.write_credentials_info(&key("NEW1", "newsecret")).unwrap();
    let text = String::from_utf8(contents.clone()).unwrap();
    assert!(text.contains("[default]"));
    assert!(text.contains("aws_access_key_id=DEFAULT1"));
    assert!(text.contains("aws_secret_access_key=defaultsecret"));
    assert!(text.contains("region=eu-west-1"));
    assert!(text.contains("aws_access_key_id=NEW1"));
    assert!(text.contains("aws_secret_access_key=newsecret"));
    assert!(!text.contains("OLD1"));
    assert!(!text.contains("oldsecret"));
    let as_default: &[u8] = b"[automation]\nprofile=default\nusername=alice\nmfa_arn=arn:mfa:1\n";
    let other = AwsConfigurationManager::new(Some(&contents), Some(as_default)).unwrap();
    assert_eq!(other.read_credentials_info().access_key_id, "DEFAULT1");
    assert_eq!(other.read_credentials_info().secret_access_key, "defaultsecret");
}

#[test]
fn written_key_takes_the_place_of_every_value_it_had() {
    let twice: &[u8] = b"[p]\naws_access_key_id=FIRST\naws_access_key_id=SECOND\naws_secret_access_key=one\n";
    let mut store = AwsConfigurationManager::new(Some(twice), Some(CONFIG)).unwrap();
    let contents = store.write_credentials_info(&key("NEW1", "two")).unwrap();
    let text = String::from_utf8(contents).unwrap();
    assert!(!text.contains("FIRST"));
    assert!(!text.contains("SECOND"));
    assert_eq!(store.read_credentials_info().access_key_id, "NEW1");
}

#[test]
fn written_twice_holds_the_last_key() {
    let mut store = AwsConfigurationManager::new(Some(CREDENTIALS), Some(CONFIG)).unwrap();
    store.write_credentials_info(&key("NEW1", "s1")).unwrap();
    let contents = store.write_credentials_info(&key("NEW2", "s2")).unwrap();
    let fresh = AwsConfigurationManager::new(Some(&contents), Some(CONFIG)).unwrap();
    assert_eq!(fresh.read_credentials_info().access_key_id, "NEW2");
    assert_eq!(fresh.read_credentials_info().secret_access_key, "s2");
}

#[test]
fn written_secret_with_outer_blanks_is_not_read_back() {
    let mut store = AwsConfigurationManager::new(Some(CREDENTIALS), Some(CONFIG)).unwrap();
    let contents = store.write_credentials_info(&key("NEW1", " padded ")).unwrap();
    assert_eq!(store.read_credentials_info().secret_access_key, " padded ");
    let fresh = AwsConfigurationManager::new(Some(&contents), Some(CONFIG)).unwrap();
    assert_eq!(fresh.read_credentials_info().access_key_id, "NEW1");
    assert_eq!(fresh.read_credentials_info().secret_access_key, "padded");
}
