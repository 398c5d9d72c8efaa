use wvdsh::config::{
    get, keyring_config, validate_version, Config, ConfigError, ConfigField, CustomSection,
    EngineKind, Environment, GodotSection, LegacyFields, ParseIssue, UnitySection,
    ValidationIssue, WavedashConfig,
};
use wvdsh::document::{Document, Item, Leaf};

const GODOT: &str = r#"
org = "acme"
game = "rocket"
environment = "sandbox"
upload_dir = "./build"
version = "1.2.3"

[godot]
version = "4.3"
"#;

fn load(text: &str) -> Result<WavedashConfig, ConfigError> {
    WavedashConfig::load(Some(text))
}

#[test]
fn loads_a_godot_project() {
    let config = load(GODOT).unwrap();
    assert_eq!(config.org, "acme");
    assert_eq!(config.game, "rocket");
    assert_eq!(config.environment, Environment::Sandbox);
    assert_eq!(config.build_version.as_deref(), Some("1.2.3"));
    assert_eq!(config.upload_dir, "./build");
    assert_eq!(config.godot, Some(GodotSection { version: "4.3".to_string() }));
    assert_eq!(config.unity, None);
    assert_eq!(config.custom, None);
    assert_eq!(config.legacy, LegacyFields { org_slug: false, game_slug: false, branch_slug: false });
    assert_eq!(config.engine_type(), Ok(EngineKind::Godot));
    assert_eq!(config.version(), Ok("4.3"));
    assert_eq!(config.entrypoint(), None);
}

#[test]
fn one_engine_section_decides_the_engine() {
    let base = "org = \"o\"\ngame = \"g\"\nenvironment = \"demo\"\nupload_dir = \"d\"\n";
    let godot = load(&format!("{base}[godot]\nversion = \"4\"\n")).unwrap();
    assert_eq!(godot.engine_type(), Ok(EngineKind::Godot));
    let unity = load(&format!("{base}[unity]\nversion = \"6000.0\"\n")).unwrap();
    assert_eq!(unity.engine_type(), Ok(EngineKind::Unity));
    assert_eq!(unity.version(), Ok("6000.0"));
    let custom =
        load(&format!("{base}[custom]\nversion = \"1.0\"\nentrypoint = \"index.html\"\n")).unwrap();
    assert_eq!(custom.engine_type(), Ok(EngineKind::Custom));
    assert_eq!(custom.entrypoint(), Some("index.html"));
    assert_eq!(custom.version(), Ok("1.0"));
    assert_eq!(custom.environment, Environment::Demo);
}

#[test]
fn no_engine_section_is_a_validation_error() {
    let text = "org = \"o\"\ngame = \"g\"\nenvironment = \"demo\"\nupload_dir = \"d\"\n";
    assert_eq!(load(text), Err(ConfigError::Validation(ValidationIssue::NoEngine)));
}

#[test]
fn several_engine_sections_are_a_validation_error() {
    let text = "org = \"o\"\ngame = \"g\"\nenvironment = \"demo\"\nupload_dir = \"d\"\n[godot]\nversion = \"4\"\n[unity]\nversion = \"6\"\n";
    assert_eq!(load(text), Err(ConfigError::Validation(ValidationIssue::SeveralEngines)));
    let all = format!("{text}[custom]\nversion = \"1\"\nentrypoint = \"i.html\"\n");
    assert_eq!(load(&all), Err(ConfigError::Validation(ValidationIssue::SeveralEngines)));
}

#[test]
fn versions_of_three_numbers_are_accepted() {
    for version in ["1.2.3", "0.0.1", "10.20.30", "007.0.0", "123456789012345678901234567890.1.2"] {
        assert!(validate_version(version), "{version}");
    }
}

#[test]
fn other_versions_are_rejected() {
    for version in [
        "1.2", "1.2.3.4", "v1.2.3", "", "1..3", ".1.2", "1.2.", "1.2.3 ", " 1.2.3", "a.b.c", "1.2.x",
        "+1.2.3", "1.2.-3", "1,2,3", "1.2.3\n", "١.٢.٣",
    ] {
        assert!(!validate_version(version), "{version:?}");
    }
}

#[test]
fn a_bad_version_fails_validation() {
    let text = GODOT.replace("1.2.3", "1.2");
    assert_eq!(load(&text), Err(ConfigError::Validation(ValidationIssue::BadVersion)));
}

#[test]
fn the_version_is_optional() {
    let text = GODOT.replace("version = \"1.2.3\"\n", "");
    let config = load(&text).unwrap();
    assert_eq!(config.build_version, None);
}

#[test]
fn legacy_names_still_load() {
    let text = "org_slug = \"acme\"\ngame_slug = \"rocket\"\nbranch_slug = \"internal-test\"\nupload_dir = \"b\"\n[unity]\nversion = \"6\"\n";
    let config = load(text).unwrap();
    assert_eq!(config.org, "acme");
    assert_eq!(config.game, "rocket");
    assert_eq!(config.environment, Environment::Sandbox);
    assert_eq!(config.legacy, LegacyFields { org_slug: true, game_slug: true, branch_slug: true });
    assert_eq!(
        config.legacy.warnings(),
        vec![
            "Warning: `org_slug` is deprecated, use `org` instead".to_string(),
            "Warning: `game_slug` is deprecated, use `game` instead".to_string(),
            "Warning: `branch_slug` is deprecated, use `environment` instead".to_string(),
        ]
    );
}

#[test]
fn branches_map_to_environments_by_prefix() {
    assert_eq!(Environment::from_branch("internal-x"), Some(Environment::Sandbox));
    assert_eq!(Environment::from_branch("production-2024"), Some(Environment::Production));
    assert_eq!(Environment::from_branch("demo-"), Some(Environment::Demo));
    assert_eq!(Environment::from_branch("demo"), None);
    assert_eq!(Environment::from_branch("staging-1"), None);
    assert_eq!(Environment::from_name("production"), Some(Environment::Production));
    assert_eq!(Environment::from_name("demo"), Some(Environment::Demo));
    assert_eq!(Environment::from_name("sandbox"), Some(Environment::Sandbox));
    assert_eq!(Environment::from_name("Sandbox"), None);
    assert_eq!(Environment::Production.as_str(), "production");
}

#[test]
fn the_current_name_wins_over_the_legacy_one() {
    let text = format!("org_slug = \"old\"\nbranch_slug = \"demo-1\"\n{GODOT}");
    let config = load(&text).unwrap();
    assert_eq!(config.org, "acme");
    assert_eq!(config.environment, Environment::Sandbox);
    assert!(!config.legacy.org_slug);
    assert!(config.legacy.warnings().is_empty());
}

#[test]
fn an_unknown_environment_fails_validation() {
    let text = GODOT.replace("sandbox", "staging");
    assert_eq!(load(&text), Err(ConfigError::Validation(ValidationIssue::UnknownEnvironment)));
    let legacy = "org = \"o\"\ngame = \"g\"\nbranch_slug = \"main\"\nupload_dir = \"d\"\n[godot]\nversion = \"4\"\n";
    assert_eq!(load(legacy), Err(ConfigError::Validation(ValidationIssue::UnknownEnvironment)));
}

#[test]
fn an_unreadable_file_is_not_found() {
    assert_eq!(WavedashConfig::load(None), Err(ConfigError::NotFound));
}

#[test]
fn broken_toml_is_a_parse_error() {
    assert_eq!(load("org = "), Err(ConfigError::Parse(ParseIssue::Syntax)));
    assert_eq!(load("[godot\nversion = 1"), Err(ConfigError::Parse(ParseIssue::Syntax)));
}

#[test]
fn missing_and_mistyped_fields_are_parse_errors() {
    let without_org = GODOT.replace("org = \"acme\"\n", "");
    assert_eq!(load(&without_org), Err(ConfigError::Parse(ParseIssue::Missing(ConfigField::Org))));
    let number_org = GODOT.replace("org = \"acme\"", "org = 5");
    assert_eq!(load(&number_org), Err(ConfigError::Parse(ParseIssue::WrongType(ConfigField::Org))));
    let without_dir = GODOT.replace("upload_dir = \"./build\"\n", "");
    assert_eq!(
        load(&without_dir),
        Err(ConfigError::Parse(ParseIssue::Missing(ConfigField::UploadDir)))
    );
    let number_version = GODOT.replace("version = \"1.2.3\"", "version = 123");
    assert_eq!(
        load(&number_version),
        Err(ConfigError::Parse(ParseIssue::WrongType(ConfigField::Version)))
    );
    let bare_section = GODOT.replace("[godot]\nversion = \"4.3\"\n", "[godot]\n");
    assert_eq!(
        load(&bare_section),
        Err(ConfigError::Parse(ParseIssue::Missing(ConfigField::GodotVersion)))
    );
    let float_version = GODOT.replace("version = \"4.3\"", "version = 4.3");
    assert_eq!(
        load(&float_version),
        Err(ConfigError::Parse(ParseIssue::WrongType(ConfigField::GodotVersion)))
    );
    let text_section = GODOT.replace("[godot]\nversion = \"4.3\"\n", "").replacen(
        "org =",
        "godot = \"4.3\"\norg =",
        1,
    );
    assert_eq!(
        load(&text_section),
        Err(ConfigError::Parse(ParseIssue::WrongType(ConfigField::Godot)))
    );
    let custom = "org = \"o\"\ngame = \"g\"\nenvironment = \"demo\"\nupload_dir = \"d\"\n[custom]\nversion = \"1\"\n";
    assert_eq!(
        load(custom),
        Err(ConfigError::Parse(ParseIssue::Missing(ConfigField::CustomEntrypoint)))
    );
}

#[test]
fn structure_is_checked_before_validation() {
    let text = "game = \"g\"\nenvironment = \"nowhere\"\nupload_dir = \"d\"\n";
    assert_eq!(load(text), Err(ConfigError::Parse(ParseIssue::Missing(ConfigField::Org))));
}

#[test]
fn a_document_built_by_hand_loads_like_a_parsed_one() {
    let doc = Document {
        entries: vec![
            ("org".to_string(), Item::Text("acme".to_string())),
            ("game".to_string(), Item::Text("rocket".to_string())),
            ("environment".to_string(), Item::Text("production".to_string())),
            ("upload_dir".to_string(), Item::Text("out".to_string())),
            ("extra".to_string(), Item::Other),
            (
                "custom".to_string(),
                Item::Table(vec![
                    ("version".to_string(), Leaf::Text("2.0".to_string())),
                    ("entrypoint".to_string(), Leaf::Text("game.html".to_string())),
                    ("debug".to_string(), Leaf::Other),
                ]),
            ),
        ],
    };
    let config = WavedashConfig::from_document(&doc).unwrap();
    assert_eq!(config.environment, Environment::Production);
    assert_eq!(
        config.custom,
        Some(CustomSection { version: "2.0".to_string(), entrypoint: "game.html".to_string() })
    );
    assert_eq!(config.engine_type(), Ok(EngineKind::Custom));
    assert_eq!(doc.get("org"), Some(&Item::Text("acme".to_string())));
    assert_eq!(doc.get("nothing"), None);
}

#[test]
fn a_config_built_by_hand_may_lack_an_engine() {
    let mut config = load(GODOT).unwrap();
    config.godot = None;
    assert_eq!(config.engine_type(), Err(ConfigError::Validation(ValidationIssue::NoEngine)));
    assert_eq!(config.version(), Err(ConfigError::Validation(ValidationIssue::NoEngine)));
    config.godot = Some(GodotSection { version: "4".to_string() });
    config.unity = Some(UnitySection { version: "6".to_string() });
    assert_eq!(config.engine_type(), Err(ConfigError::Validation(ValidationIssue::SeveralEngines)));
    assert_eq!(config.version(), Ok("4"));
}

#[test]
fn engine_names() {
    assert_eq!(EngineKind::Godot.as_config_key(), "godot");
    assert_eq!(EngineKind::Unity.as_config_key(), "unity");
    assert_eq!(EngineKind::Custom.as_config_key(), "custom");
    assert_eq!(EngineKind::Godot.as_label(), "GODOT");
    assert_eq!(EngineKind::Unity.as_label(), "UNITY");
    assert_eq!(EngineKind::Custom.as_label(), "CUSTOM");
}

#[test]
fn config_error_messages() {
    assert_eq!(ConfigError::NotFound.message(), "Failed to read config file");
    assert_eq!(
        ConfigError::Parse(ParseIssue::Syntax).message(),
        "Failed to parse config file: invalid TOML"
    );
    assert_eq!(
        ConfigError::Parse(ParseIssue::Missing(ConfigField::CustomEntrypoint)).message(),
        "Failed to parse config file: missing field custom.entrypoint"
    );
    assert_eq!(
        ConfigError::Parse(ParseIssue::WrongType(ConfigField::UploadDir)).message(),
        "Failed to parse config file: invalid type for upload_dir"
    );
    assert_eq!(
        ConfigError::Validation(ValidationIssue::NoEngine).message(),
        "Config must have exactly one of [godot], [unity], or [custom] sections"
    );
    assert_eq!(
        ConfigError::Validation(ValidationIssue::BadVersion).message(),
        "Version must be in major.minor.patch format (e.g. 1.2.3)"
    );
    assert_eq!(ConfigError::UnknownKey.message(), "Unknown config key");
}

fn settings(site: &str, api: &str, id: Option<&str>, secret: Option<&str>) -> Config {
    Config::load(site, api, "wavedash", "cli", id, secret)
}

#[test]
fn the_website_host_gets_a_scheme() {
    assert_eq!(settings("wavedash.gg", "a", None, None).open_browser_website_host, "https://wavedash.gg");
    assert_eq!(
        settings("http://localhost:3000", "a", None, None).open_browser_website_host,
        "http://localhost:3000"
    );
    assert_eq!(
        settings("https://wavedash.gg", "a", None, None).open_browser_website_host,
        "https://wavedash.gg"
    );
}

#[test]
fn settings_by_name() {
    let config = settings("wavedash.gg", "https://api.wavedash.gg", None, None);
    assert_eq!(get(&config, "api_host"), Ok("https://api.wavedash.gg".to_string()));
    assert_eq!(get(&config, "open_browser_website_host"), Ok("https://wavedash.gg".to_string()));
    assert_eq!(get(&config, "keyring_service"), Err(ConfigError::UnknownKey));
    assert_eq!(get(&config, ""), Err(ConfigError::UnknownKey));
    let keyring = keyring_config(&config);
    assert_eq!(keyring.service, "wavedash");
    assert_eq!(keyring.account, "cli");
}

#[test]
fn access_headers_go_to_staging_only() {
    let staging = settings("s", "https://api.staging.wavedash.gg", Some("id"), Some("secret"));
    assert_eq!(
        staging.default_headers(),
        vec![
            ("CF-Access-Client-Id".to_string(), "id".to_string()),
            ("CF-Access-Client-Secret".to_string(), "secret".to_string()),
        ]
    );
    let bare = settings("s", "staging.wavedash.gg", Some("id"), Some("secret"));
    assert_eq!(bare.default_headers().len(), 2);
    let production = settings("s", "https://api.wavedash.gg", Some("id"), Some("secret"));
    assert!(production.default_headers().is_empty());
    let half = settings("s", "https://staging.wavedash.gg", Some("id"), None);
    assert!(half.default_headers().is_empty());
    let path = settings("s", "https://staging.wavedash.gg/api", Some("id"), Some("secret"));
    assert!(path.default_headers().is_empty());
}
