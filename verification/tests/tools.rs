use wvdsh::config::WavedashConfig;
use wvdsh::dev::cert::{
    ensure_cert_trusted, installed_copy_lookup, keychain_lookup, linux_install_commands,
    linux_refresh_commands, macos_trust_arguments, platform_of, reinstall_notice,
    root_store_lookup, store_name, trust_marker_extension, windows_trust_arguments, Platform,
    TrustDecision, TrustState, DEV_CERT_COMMON_NAME, LINUX_CERT_INSTALL_PATH,
};
use wvdsh::dev::entrypoint::{
    entrypoint_params_endpoint, entrypoint_params_from_response, entrypoint_params_query,
    is_html_extension, locate_html_entrypoint, EntrypointError, FoundFile,
};
use wvdsh::dev::sandbox::{build_sandbox_url, sandbox_query};
use wvdsh::dev::url_params::UrlParams;
use wvdsh::dev::{
    allowed_domains, compressed_file_headers, compression, content_type_or_default, dev_plan,
    host_allowed, host_matches_domain, local_origin, missing_html_message, origin_allowed,
    CompressedFile, CORP_HEADER, DEFAULT_CONFIG,
};
use wvdsh::rclone::{
    clamp_percent, create_rclone_config, download_url, find_binary_entry, get_download_info,
    parse_rclone_progress, progress_field, sync_arguments, sync_destination, take_lines, R2Config,
    RcloneManager, RCLONE_VERSION,
};
use wvdsh::updater::{
    acknowledged, cache_after_homebrew_check, check_for_updates, homebrew_cache,
    homebrew_stable_version, is_homebrew, missing_receipt_message, notice_lines, receipt_cache,
    update_done_message, UpdateCache,
};

fn strings(parts: &[&str]) -> Vec<String> {
    parts.iter().map(|s| s.to_string()).collect()
}

#[test]
fn the_manager_prefers_the_installed_rclone() {
    let system = RcloneManager::new(true, true, Some("/cache/rclone".to_string()));
    assert_eq!(system.rclone_path(), Some("rclone"));
    let cached = RcloneManager::new(false, false, Some("/cache/rclone".to_string()));
    assert_eq!(cached.rclone_path(), Some("/cache/rclone"));
    let mut missing = RcloneManager::new(false, false, None);
    assert_eq!(missing.rclone_path(), None);
    missing.downloaded("/cache/bin/rclone".to_string());
    assert_eq!(missing.rclone_path(), Some("/cache/bin/rclone"));
}

#[test]
fn downloads_exist_for_six_platforms() {
    let info = get_download_info("linux", "x86_64").unwrap();
    assert_eq!((info.platform, info.archive_type, info.executable_name), ("linux-amd64", "zip", "rclone"));
    let info = get_download_info("linux", "aarch64").unwrap();
    assert_eq!(info.platform, "linux-arm64");
    let info = get_download_info("macos", "x86_64").unwrap();
    assert_eq!(info.platform, "osx-amd64");
    let info = get_download_info("macos", "aarch64").unwrap();
    assert_eq!((info.platform, info.executable_name), ("osx-arm64", "rclone"));
    let info = get_download_info("windows", "x86_64").unwrap();
    assert_eq!((info.platform, info.executable_name), ("windows-amd64", "rclone.exe"));
    let info = get_download_info("windows", "aarch64").unwrap();
    assert_eq!(info.platform, "windows-arm64");
    assert_eq!(get_download_info("linux", "riscv64"), None);
    assert_eq!(get_download_info("freebsd", "x86_64"), None);
    assert_eq!(RCLONE_VERSION, "1.67.0");
    assert_eq!(
        download_url(&get_download_info("linux", "x86_64").unwrap()),
        "https://github.com/rclone/rclone/releases/download/v1.67.0/rclone-v1.67.0-linux-amd64.zip"
    );
}

#[test]
fn the_program_is_found_in_the_archive() {
    let names = strings(&["rclone-v1.67.0/README.txt", "rclone-v1.67.0/rclone", "other/rclone"]);
    assert_eq!(find_binary_entry(&names, "rclone"), Some(1));
    assert_eq!(find_binary_entry(&names, "rclone.exe"), None);
    assert_eq!(find_binary_entry(&Vec::new(), "rclone"), None);
}

#[test]
fn rclone_is_configured_for_the_bucket() {
    let config = R2Config {
        access_key_id: "id".to_string(),
        secret_access_key: "secret".to_string(),
        session_token: "session".to_string(),
        endpoint: "https://r2.example".to_string(),
    };
    assert_eq!(
        create_rclone_config(&config),
        "[r2]\ntype = s3\nprovider = Cloudflare\naccess_key_id = id\nsecret_access_key = secret\nsession_token = session\nendpoint = https://r2.example\nacl = private\n"
    );
    assert_eq!(sync_destination("builds", "acme/rocket/1"), "r2:builds/acme/rocket/1");
    assert_eq!(
        sync_arguments("/abs/build", "r2:builds/p", "/tmp/conf"),
        strings(&[
            "sync", "/abs/build", "r2:builds/p", "--config", "/tmp/conf", "--progress", "--stats",
            "250ms", "--checksum",
        ])
    );
}

#[test]
fn progress_is_read_from_transfer_lines() {
    let line = "Transferred:   \t  486.181G / 926.373 GBytes, 52%, 13.589 MBytes/s, ETA 9h12m49s";
    assert_eq!(progress_field(line), Some(" 52".to_string()));
    assert_eq!(progress_field("Transferred: 100%"), Some("100".to_string()));
    assert_eq!(progress_field("Transferred:100%"), Some("Transferred:100".to_string()));
    assert_eq!(progress_field("Transferred: 1 / 2, 50%, 100%"), Some(" 50".to_string()));
    assert_eq!(progress_field("Checks: 52%"), None);
    assert_eq!(progress_field("Transferred: 5 / 10"), None);
    assert_eq!(progress_field(""), None);
    assert_eq!(progress_field("%Transferred:"), Some("".to_string()));
}

#[test]
fn escape_sequences_do_not_hide_progress() {
    let line = "\x1b[2K\x1b[1mTransferred:\x1b[0m 1 / 2, \x1b[32m50\x1b[0m%, 1 MBytes/s";
    assert_eq!(parse_rclone_progress(line), Some("50".to_string()));
    assert_eq!(
        parse_rclone_progress("Transferred:   486.181G / 926.373 GBytes,\t 52.5 %, 13.589 MBytes/s"),
        Some("52.5".to_string())
    );
    assert_eq!(parse_rclone_progress("Transferred: ,%"), Some("".to_string()));
    assert_eq!(parse_rclone_progress("\x1b[31mError\x1b[0m"), None);
}

#[test]
fn percentages_stop_at_one_hundred() {
    assert_eq!(clamp_percent(0), 0);
    assert_eq!(clamp_percent(52), 52);
    assert_eq!(clamp_percent(100), 100);
    assert_eq!(clamp_percent(101), 100);
    assert_eq!(clamp_percent(u64::MAX), 100);
}

#[test]
fn output_is_cut_into_lines() {
    let mut buffer = String::new();
    assert_eq!(take_lines(&mut buffer, "one\ntwo\nthr"), strings(&["one", "two"]));
    assert_eq!(buffer, "thr");
    assert_eq!(take_lines(&mut buffer, "ee"), Vec::<String>::new());
    assert_eq!(buffer, "three");
    assert_eq!(take_lines(&mut buffer, "\r10%\r20%"), strings(&["three", "10%"]));
    assert_eq!(buffer, "20%");
    assert_eq!(take_lines(&mut buffer, "\ra\rb\nc\rd"), strings(&["20%\ra\rb", "c"]));
    assert_eq!(buffer, "d");
    assert_eq!(take_lines(&mut buffer, "\n"), strings(&["d"]));
    assert_eq!(buffer, "");
}

fn cache(version: &str, show: bool) -> UpdateCache {
    UpdateCache {
        latest_version: version.to_string(),
        last_check: "2024-05-01T10:00:00+00:00".to_string(),
        show_notification: show,
        install_method: "shell".to_string(),
    }
}

#[test]
fn a_newer_release_is_announced() {
    assert_eq!(
        check_for_updates(Some(&cache("1.3.0", true)), "1.2.9", false),
        strings(&["\n🎉 Update available → 1.3.0", "Run: wvdsh update", ""])
    );
    assert_eq!(
        check_for_updates(Some(&cache("1.10.0", true)), "1.9.0", true),
        strings(&["\n🎉 Update available → 1.10.0", "Run: brew upgrade wvdsh/tap/cli", ""])
    );
    assert!(check_for_updates(Some(&cache("1.2.9", true)), "1.2.9", false).is_empty());
    assert!(check_for_updates(Some(&cache("1.2.0", true)), "1.10.0", false).is_empty());
    assert!(check_for_updates(Some(&cache("1.0.0-rc.1", true)), "1.0.0", false).is_empty());
    assert!(check_for_updates(Some(&cache("2.0.0", false)), "1.0.0", false).is_empty());
    assert!(check_for_updates(Some(&cache("latest", true)), "1.0.0", false).is_empty());
    assert!(check_for_updates(Some(&cache("2.0.0", true)), "dev", false).is_empty());
    assert!(check_for_updates(None, "1.0.0", false).is_empty());
    assert!(notice_lines(&cache("2.0.0", true), Some(false), false).is_empty());
    assert!(notice_lines(&cache("2.0.0", true), None, false).is_empty());
    assert_eq!(notice_lines(&cache("2.0.0", true), Some(true), false).len(), 3);
}

#[test]
fn homebrew_is_known_by_its_paths() {
    assert!(is_homebrew(Some("/usr/local/Cellar/cli/1.0/bin/wvdsh")));
    assert!(is_homebrew(Some("/opt/homebrew/bin/wvdsh")));
    assert!(!is_homebrew(Some("/usr/local/bin/wvdsh")));
    assert!(!is_homebrew(Some("/opt/homebrew")));
    assert!(!is_homebrew(None));
    assert_eq!(missing_receipt_message(true), "Installed via Homebrew. Use: brew upgrade wvdsh/tap/cli");
    assert_eq!(missing_receipt_message(false), "No updates available");
    assert_eq!(update_done_message(Some("1.4.0")), "Updated to version 1.4.0");
    assert_eq!(update_done_message(None), "Already on latest version");
}

#[test]
fn caches_record_what_a_check_found() {
    let info = r#"{"formulae":[{"name":"cli","versions":{"stable":"1.5.0","head":null}}],"casks":[]}"#;
    assert_eq!(homebrew_stable_version(info), Some("1.5.0".to_string()));
    assert_eq!(homebrew_stable_version(r#"{"formulae":[]}"#), None);
    assert_eq!(homebrew_stable_version("not json"), None);
    let newer = cache_after_homebrew_check("1.5.0".to_string(), "1.4.0", "now".to_string()).unwrap();
    assert_eq!(
        newer,
        UpdateCache {
            latest_version: "1.5.0".to_string(),
            last_check: "now".to_string(),
            show_notification: true,
            install_method: "homebrew".to_string(),
        }
    );
    let same = cache_after_homebrew_check("1.4.0".to_string(), "1.4.0", "now".to_string()).unwrap();
    assert!(!same.show_notification);
    assert_eq!(cache_after_homebrew_check("x".to_string(), "1.4.0", "now".to_string()), None);
    assert_eq!(homebrew_cache("1.0.0".to_string(), false, "t".to_string()).install_method, "homebrew");
    let receipt = receipt_cache("2.0.0".to_string(), "t".to_string());
    assert!(receipt.show_notification);
    assert_eq!(receipt.install_method, "shell");
    let seen = acknowledged(receipt);
    assert!(!seen.show_notification);
    assert_eq!(seen.latest_version, "2.0.0");
}

#[test]
fn hosts_below_a_domain_match_it() {
    assert!(host_matches_domain("wavedash.gg", "wavedash.gg"));
    assert!(host_matches_domain("play.wavedash.gg", "wavedash.gg"));
    assert!(host_matches_domain("a.b.wavedash.gg", "wavedash.gg"));
    assert!(!host_matches_domain("evilwavedash.gg", "wavedash.gg"));
    assert!(!host_matches_domain("wavedash.gg.evil.com", "wavedash.gg"));
    assert!(!host_matches_domain("gg", "wavedash.gg"));
    assert!(!host_matches_domain("", "wavedash.gg"));
    assert!(host_matches_domain(".wavedash.gg", "wavedash.gg"));
    assert!(host_matches_domain("x.", ""));
    assert!(!host_matches_domain("x", ""));
    let domains = allowed_domains();
    assert_eq!(domains, strings(&["wavedash.gg", "wavedash.lvh.me"]));
    assert!(host_allowed("dev.wavedash.lvh.me", &domains));
    assert!(!host_allowed("lvh.me", &domains));
    assert!(!host_allowed("wavedash.gg", &Vec::new()));
}

#[test]
fn origins_are_allowed_by_their_host() {
    let domains = allowed_domains();
    assert!(origin_allowed("https://wavedash.gg", &domains));
    assert!(origin_allowed("https://play.wavedash.gg:8443", &domains));
    assert!(origin_allowed("http://sandbox.wavedash.lvh.me:3000/path", &domains));
    assert!(origin_allowed("https://PLAY.WAVEDASH.GG", &domains));
    assert!(!origin_allowed("https://wavedash.gg.evil.com", &domains));
    assert!(!origin_allowed("wavedash.gg", &domains));
    assert!(!origin_allowed("null", &domains));
    assert!(!origin_allowed("", &domains));
}

#[test]
fn compressed_files_are_served_as_what_they_hold() {
    assert_eq!(compression("/game/app.wasm.gz"), Some(("gzip", "/game/app.wasm".to_string())));
    assert_eq!(compression("/game/data.br"), Some(("br", "/game/data".to_string())));
    assert_eq!(compression(".gz"), Some(("gzip", "".to_string())));
    assert_eq!(compression("/game/app.js"), None);
    assert_eq!(compression("/game/app.gz.js"), None);
    assert_eq!(
        compressed_file_headers("/game/app.wasm.gz"),
        Some(CompressedFile { content_encoding: "gzip", content_type: "application/wasm".to_string() })
    );
    assert_eq!(
        compressed_file_headers("/game/index.html.br"),
        Some(CompressedFile { content_encoding: "br", content_type: "text/html".to_string() })
    );
    assert_eq!(
        compressed_file_headers("/game/data.unknownext.br"),
        Some(CompressedFile {
            content_encoding: "br",
            content_type: "application/octet-stream".to_string(),
        })
    );
    assert_eq!(compressed_file_headers("/game/index.html"), None);
    assert_eq!(content_type_or_default(None), "application/octet-stream");
    assert_eq!(content_type_or_default(Some("text/css".to_string())), "text/css");
    assert_eq!(CORP_HEADER, ("Cross-Origin-Resource-Policy", "cross-origin"));
    assert_eq!(DEFAULT_CONFIG, "./wavedash.toml");
}

fn project(engine: &str) -> WavedashConfig {
    let text = format!(
        "org = \"acme\"\ngame = \"rocket\"\nenvironment = \"sandbox\"\nupload_dir = \"b\"\n{engine}"
    );
    WavedashConfig::load(Some(&text)).unwrap()
}

#[test]
fn serving_depends_on_the_engine() {
    let godot = dev_plan(&project("[godot]\nversion = \"4.3\"\n")).unwrap();
    assert!(godot.needs_entrypoint_params);
    assert_eq!(godot.entrypoint, None);
    let custom = dev_plan(&project("[custom]\nversion = \"1\"\nentrypoint = \"play.html\"\n")).unwrap();
    assert!(!custom.needs_entrypoint_params);
    assert_eq!(custom.entrypoint.as_deref(), Some("play.html"));
    let mut broken = project("[godot]\nversion = \"4.3\"\n");
    broken.godot = None;
    assert!(dev_plan(&broken).is_err());
    assert_eq!(local_origin(8443), "https://localhost:8443");
    assert_eq!(
        missing_html_message("GODOT"),
        "No HTML file found in upload_dir; required for GODOT builds"
    );
}

#[test]
fn the_sandbox_address_names_the_build() {
    assert_eq!(UrlParams::GAME_SUBDOMAIN, "gsdomain");
    assert_eq!(UrlParams::GAME_BRANCH_SLUG, "gbrslug");
    assert_eq!(UrlParams::GAME_CLOUD_ID, "gcid");
    assert_eq!(UrlParams::SANDBOX, "sandbox");
    assert_eq!(UrlParams::LOCAL_ORIGIN, "localorigin");
    assert_eq!(UrlParams::ENGINE, "engine");
    assert_eq!(UrlParams::ENGINE_VERSION, "engineversion");
    assert_eq!(UrlParams::ENTRYPOINT, "entrypoint");
    assert_eq!(UrlParams::ENTRYPOINT_PARAMS, "entrypointparams");
    let config = project("[godot]\nversion = \"4.3\"\n");
    let pairs = sandbox_query(&config, "GODOT", "4.3", "https://localhost:8443", None, None);
    assert_eq!(pairs.len(), 7);
    assert_eq!(pairs[0], ("gsdomain".to_string(), "rocket".to_string()));
    assert_eq!(pairs[4], ("sandbox".to_string(), "true".to_string()));
    assert_eq!(
        build_sandbox_url(&config, "https://wavedash.gg/", "GODOT", "4.3", "https://localhost:8443", None, None),
        Some(
            "https://wavedash.gg/play/rocket?gsdomain=rocket&gbrslug=sandbox&gcid=acme&localorigin=https%3A%2F%2Flocalhost%3A8443&sandbox=true&engine=GODOT&engineversion=4.3"
                .to_string()
        )
    );
    let with_entry = build_sandbox_url(
        &config,
        "https://wavedash.gg",
        "CUSTOM",
        "1.0",
        "https://localhost:1",
        Some("play me.html"),
        Some("{\"a\":1}"),
    )
    .unwrap();
    assert!(with_entry.ends_with("&entrypoint=play+me.html&entrypointparams=%7B%22a%22%3A1%7D"), "{with_entry}");
    assert_eq!(build_sandbox_url(&config, "wavedash.gg", "G", "1", "o", None, None), None);
}

#[test]
fn the_entry_page_is_index_html_or_the_first_page_found() {
    let files = vec![
        FoundFile { path: "b/readme.txt".to_string(), extension: Some("txt".to_string()) },
        FoundFile { path: "b/noext".to_string(), extension: None },
        FoundFile { path: "b/Game.HTML".to_string(), extension: Some("HTML".to_string()) },
        FoundFile { path: "b/other.html".to_string(), extension: Some("html".to_string()) },
    ];
    assert_eq!(locate_html_entrypoint(Some("b/index.html".to_string()), &files), Some("b/index.html".to_string()));
    assert_eq!(locate_html_entrypoint(None, &files), Some("b/Game.HTML".to_string()));
    assert_eq!(locate_html_entrypoint(None, &files[..2].iter().map(|f| FoundFile { path: f.path.clone(), extension: f.extension.clone() }).collect()), None);
    assert!(is_html_extension("html"));
    assert!(is_html_extension("HtMl"));
    assert!(!is_html_extension("htm"));
    assert!(!is_html_extension("xhtml"));
    assert!(!is_html_extension("htmł"));
}

#[test]
fn entry_point_parameters_come_from_the_service() {
    assert_eq!(entrypoint_params_endpoint("https://api.wavedash.gg//"), "https://api.wavedash.gg/cli/entrypoint-params");
    assert_eq!(
        entrypoint_params_query("GODOT", "<html>"),
        vec![("engine".to_string(), "GODOT".to_string()), ("htmlContent".to_string(), "<html>".to_string())]
    );
    assert_eq!(
        entrypoint_params_from_response(200, "{ \"entrypointParams\": { \"args\": [1, 2], \"canvas\": \"c\" } }"),
        Ok("{\"args\":[1,2],\"canvas\":\"c\"}".to_string())
    );
    assert_eq!(entrypoint_params_from_response(200, "{\"entrypointParams\":null}"), Ok("null".to_string()));
    assert_eq!(entrypoint_params_from_response(200, "{}"), Err(EntrypointError::Malformed));
    assert_eq!(entrypoint_params_from_response(200, "nope"), Err(EntrypointError::Malformed));
    let error = entrypoint_params_from_response(502, "Bad Gateway").unwrap_err();
    assert_eq!(error, EntrypointError::Status { status: 502, body: "Bad Gateway".to_string() });
    assert_eq!(error.message(), "CLI endpoint responded with 502: Bad Gateway");
    assert_eq!(EntrypointError::Malformed.message(), "Failed to parse CLI response");
}

#[test]
fn a_certificate_is_trusted_if_marked_and_found() {
    assert_eq!(
        ensure_cert_trusted(Platform::Linux, true, TrustState::Present),
        TrustDecision::AlreadyTrusted
    );
    assert_eq!(ensure_cert_trusted(Platform::Macos, true, TrustState::Absent), TrustDecision::Reinstall);
    assert_eq!(ensure_cert_trusted(Platform::Windows, true, TrustState::Unknown), TrustDecision::Reinstall);
    assert_eq!(ensure_cert_trusted(Platform::Linux, false, TrustState::Present), TrustDecision::Install);
    assert_eq!(ensure_cert_trusted(Platform::Macos, false, TrustState::Absent), TrustDecision::Install);
    assert_eq!(ensure_cert_trusted(Platform::Unsupported, true, TrustState::Present), TrustDecision::Explain);
    assert_eq!(ensure_cert_trusted(Platform::Unsupported, false, TrustState::Unknown), TrustDecision::Explain);
    assert_eq!(platform_of("macos"), Platform::Macos);
    assert_eq!(platform_of("linux"), Platform::Linux);
    assert_eq!(platform_of("windows"), Platform::Windows);
    assert_eq!(platform_of("freebsd"), Platform::Unsupported);
    assert_eq!(trust_marker_extension("linux"), "trusted.linux");
    assert_eq!(store_name(Platform::Macos), "macOS");
}

#[test]
fn trust_stores_are_asked_in_their_own_ways() {
    assert_eq!(keychain_lookup(true, Some(0), ""), TrustState::Present);
    assert_eq!(keychain_lookup(false, Some(44), ""), TrustState::Absent);
    assert_eq!(
        keychain_lookup(false, Some(1), "The specified item could not be found in the keychain."),
        TrustState::Absent
    );
    assert_eq!(keychain_lookup(false, Some(1), "denied"), TrustState::Unknown);
    assert_eq!(keychain_lookup(false, None, ""), TrustState::Unknown);
    assert_eq!(root_store_lookup(true, "Subject: CN=wvdsh dev server\n", DEV_CERT_COMMON_NAME), TrustState::Present);
    assert_eq!(root_store_lookup(true, "Subject: CN=other\n", DEV_CERT_COMMON_NAME), TrustState::Absent);
    assert_eq!(root_store_lookup(false, "CN=wvdsh dev server", DEV_CERT_COMMON_NAME), TrustState::Unknown);
    assert_eq!(installed_copy_lookup(false, None), TrustState::Absent);
    assert_eq!(installed_copy_lookup(true, Some(true)), TrustState::Present);
    assert_eq!(installed_copy_lookup(true, Some(false)), TrustState::Absent);
    assert_eq!(installed_copy_lookup(true, None), TrustState::Unknown);
}

#[test]
fn trust_commands() {
    assert_eq!(
        linux_install_commands("/c/cert.pem", "/usr/local/share/ca-certificates", LINUX_CERT_INSTALL_PATH),
        vec![
            strings(&["mkdir", "-p", "/usr/local/share/ca-certificates"]),
            strings(&["cp", "/c/cert.pem", "/usr/local/share/ca-certificates/wvdsh-dev.crt"]),
            strings(&["chmod", "644", "/usr/local/share/ca-certificates/wvdsh-dev.crt"]),
        ]
    );
    assert_eq!(
        linux_refresh_commands(),
        vec![
            strings(&["update-ca-certificates"]),
            strings(&["update-ca-trust"]),
            strings(&["update-ca-trust", "extract"]),
            strings(&["trust", "extract-compat"]),
        ]
    );
    assert_eq!(
        macos_trust_arguments("/c/cert.pem"),
        strings(&[
            "-S", "security", "add-trusted-cert", "-d", "-r", "trustRoot", "-k",
            "/Library/Keychains/System.keychain", "/c/cert.pem",
        ])
    );
    assert_eq!(
        windows_trust_arguments("C:\\cert.pem"),
        strings(&["-user", "-addstore", "Root", "-f", "C:\\cert.pem"])
    );
    assert_eq!(
        reinstall_notice(Platform::Linux, TrustState::Absent, ""),
        "Detected missing Linux trust entry for wvdsh dev server. Re-installing certificate..."
    );
    assert_eq!(
        reinstall_notice(Platform::Macos, TrustState::Unknown, "denied"),
        "Could not verify macOS trust state (denied). Re-installing certificate..."
    );
}
