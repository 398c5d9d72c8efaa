//! Getting the machine to trust the certificate of the local server.

use vstd::prelude::*;
use crate::text::{concat2, concat3, contains, contains_text, copy_of, texts};

verus! {

/// The directory of the local server's certificate, below the tool's
/// configuration directory.
pub const DEV_CERT_SUBDIR: &'static str = "dev-server";

/// The file that holds the certificate.
pub const DEV_CERT_NAME: &'static str = "localhost-cert.pem";

/// The file that holds the certificate's private key.
pub const DEV_KEY_NAME: &'static str = "localhost-key.pem";

/// The common name the certificate is issued for.
pub const DEV_CERT_COMMON_NAME: &'static str = "wvdsh dev server";

/// Where Linux keeps the certificate once it is trusted.
pub const LINUX_CERT_INSTALL_PATH: &'static str = "/usr/local/share/ca-certificates/wvdsh-dev.crt";

/// The systems whose trust stores the tool knows.
#[derive(Debug, Clone, Copy, PartialEq, Eq, Structural)]
pub enum Platform {
    Macos,
    Linux,
    Windows,
    Unsupported,
}

/// What a look into the trust store found.
#[derive(Debug, Clone, Copy, PartialEq, Eq, Structural)]
pub enum TrustState {
    /// The certificate is in the store.
    Present,
    /// The certificate is not in the store.
    Absent,
    /// The store could not be asked.
    Unknown,
}

/// What to do about the certificate.
#[derive(Debug, Clone, Copy, PartialEq, Eq, Structural)]
pub enum TrustDecision {
    /// Nothing: the certificate is trusted.
    AlreadyTrusted,
    /// The certificate was never installed: offer to install it.
    Install,
    /// The certificate is marked as installed, but the store does not hold
    /// it, or cannot say: remove the mark and offer to install it again.
    Reinstall,
    /// The tool cannot install certificates on this system: say so.
    Explain,
}

/// What to do about the certificate: a certificate is trusted if it is
/// marked as installed and the trust store holds it.
pub open spec fn trust_decision(platform: Platform, marked: bool, state: TrustState) -> TrustDecision {
    if platform is Unsupported {
        TrustDecision::Explain
    } else if !marked {
        TrustDecision::Install
    } else if state is Present {
        TrustDecision::AlreadyTrusted
    } else {
        TrustDecision::Reinstall
    }
}

/// What to do about the certificate, from whether it is marked as
/// installed and what the trust store says. The store is only asked about a
/// certificate that is marked.
pub fn ensure_cert_trusted(platform: Platform, marked: bool, state: TrustState) -> (decision:
    TrustDecision)
    ensures
        decision == trust_decision(platform, marked, state),
{
    match platform {
        Platform::Unsupported => TrustDecision::Explain,
        _ => {
            if !marked {
                TrustDecision::Install
            } else {
                match state {
                    TrustState::Present => TrustDecision::AlreadyTrusted,
                    _ => TrustDecision::Reinstall,
                }
            }
        },
    }
}

/// The platform the tool runs on, by the name the system gives itself.
pub fn platform_of(os: &str) -> (platform: Platform)
    ensures
        platform == if os@ == "macos"@ {
            Platform::Macos
        } else if os@ == "linux"@ {
            Platform::Linux
        } else if os@ == "windows"@ {
            Platform::Windows
        } else {
            Platform::Unsupported
        },
{
    if crate::text::same(os, "macos") {
        Platform::Macos
    } else if crate::text::same(os, "linux") {
        Platform::Linux
    } else if crate::text::same(os, "windows") {
        Platform::Windows
    } else {
        Platform::Unsupported
    }
}

/// The extension of the file that marks the certificate as installed.
pub fn trust_marker_extension(os: &str) -> (extension: String)
    ensures
        extension@ == "trusted."@ + os@,
{
    concat2("trusted.", os)
}

/// What macOS's `security find-certificate` says about the certificate:
/// success means it is there; exit code 44, or a complaint that it could
/// not be found in the keychain, means it is not.
pub open spec fn keychain_state(success: bool, code: Option<i32>, stderr: Seq<char>) -> TrustState {
    if success {
        TrustState::Present
    } else if code == Some(44i32) {
        TrustState::Absent
    } else if contains_text(stderr, "could not be found in the keychain"@) {
        TrustState::Absent
    } else {
        TrustState::Unknown
    }
}

/// What macOS's `security find-certificate` says about the certificate.
pub fn keychain_lookup(success: bool, code: Option<i32>, stderr: &str) -> (state: TrustState)
    ensures
        state == keychain_state(success, code, stderr@),
{
    if success {
        return TrustState::Present;
    }
    match code {
        Some(c) => {
            if c == 44 {
                return TrustState::Absent;
            }
        },
        None => {},
    }
    if contains(stderr, "could not be found in the keychain") {
        TrustState::Absent
    } else {
        TrustState::Unknown
    }
}

/// What the listing of the Windows root store says about the certificate:
/// it is there if the listing names its common name.
pub fn root_store_lookup(success: bool, stdout: &str, common_name: &str) -> (state: TrustState)
    ensures
        state == if !success {
            TrustState::Unknown
        } else if contains_text(stdout@, "CN="@ + common_name@) {
            TrustState::Present
        } else {
            TrustState::Absent
        },
{
    if !success {
        return TrustState::Unknown;
    }
    let needle = concat2("CN=", common_name);
    if contains(stdout, needle.as_str()) {
        TrustState::Present
    } else {
        TrustState::Absent
    }
}

/// What Linux's installed copy says about the certificate: it is trusted if
/// the copy is there and is the certificate.
pub fn installed_copy_lookup(installed: bool, same_contents: Option<bool>) -> (state: TrustState)
    ensures
        state == if !installed {
            TrustState::Absent
        } else {
            match same_contents {
                Some(true) => TrustState::Present,
                Some(false) => TrustState::Absent,
                None => TrustState::Unknown,
            }
        },
{
    if !installed {
        return TrustState::Absent;
    }
    match same_contents {
        Some(true) => TrustState::Present,
        Some(false) => TrustState::Absent,
        None => TrustState::Unknown,
    }
}

/// The commands, each run as the superuser, that put the certificate where
/// Linux looks for it: make the directory, copy the certificate, and let
/// everyone read it.
pub fn linux_install_commands(cert_path: &str, dest_dir: &str, dest: &str) -> (commands: Vec<
    Vec<String>,
>)
    ensures
        commands@.len() == 3,
        texts(commands@[0]@) == seq!["mkdir"@, "-p"@, dest_dir@],
        texts(commands@[1]@) == seq!["cp"@, cert_path@, dest@],
        texts(commands@[2]@) == seq!["chmod"@, "644"@, dest@],
{
    let mut mkdir: Vec<String> = Vec::new();
    mkdir.push(copy_of("mkdir"));
    mkdir.push(copy_of("-p"));
    mkdir.push(copy_of(dest_dir));
    assert(texts(mkdir@) =~= seq!["mkdir"@, "-p"@, dest_dir@]);
    let mut cp: Vec<String> = Vec::new();
    cp.push(copy_of("cp"));
    cp.push(copy_of(cert_path));
    cp.push(copy_of(dest));
    assert(texts(cp@) =~= seq!["cp"@, cert_path@, dest@]);
    let mut chmod: Vec<String> = Vec::new();
    chmod.push(copy_of("chmod"));
    chmod.push(copy_of("644"));
    chmod.push(copy_of(dest));
    assert(texts(chmod@) =~= seq!["chmod"@, "644"@, dest@]);
    let mut commands: Vec<Vec<String>> = Vec::new();
    commands.push(mkdir);
    commands.push(cp);
    commands.push(chmod);
    commands
}

/// The commands that refresh Linux's trust store, to be tried in this order
/// until one succeeds.
pub fn linux_refresh_commands() -> (commands: Vec<Vec<String>>)
    ensures
        commands@.len() == 4,
        texts(commands@[0]@) == seq!["update-ca-certificates"@],
        texts(commands@[1]@) == seq!["update-ca-trust"@],
        texts(commands@[2]@) == seq!["update-ca-trust"@, "extract"@],
        texts(commands@[3]@) == seq!["trust"@, "extract-compat"@],
{
    let mut first: Vec<String> = Vec::new();
    first.push(copy_of("update-ca-certificates"));
    assert(texts(first@) =~= seq!["update-ca-certificates"@]);
    let mut second: Vec<String> = Vec::new();
    second.push(copy_of("update-ca-trust"));
    assert(texts(second@) =~= seq!["update-ca-trust"@]);
    let mut third: Vec<String> = Vec::new();
    third.push(copy_of("update-ca-trust"));
    third.push(copy_of("extract"));
    assert(texts(third@) =~= seq!["update-ca-trust"@, "extract"@]);
    let mut fourth: Vec<String> = Vec::new();
    fourth.push(copy_of("trust"));
    fourth.push(copy_of("extract-compat"));
    assert(texts(fourth@) =~= seq!["trust"@, "extract-compat"@]);
    let mut commands: Vec<Vec<String>> = Vec::new();
    commands.push(first);
    commands.push(second);
    commands.push(third);
    commands.push(fourth);
    commands
}

/// The arguments of the macOS command that trusts the certificate.
pub fn macos_trust_arguments(cert_path: &str) -> (args: Vec<String>)
    ensures
        texts(args@) == seq![
            "-S"@,
            "security"@,
            "add-trusted-cert"@,
            "-d"@,
            "-r"@,
            "trustRoot"@,
            "-k"@,
            "/Library/Keychains/System.keychain"@,
            cert_path@,
        ],
{
    let mut args: Vec<String> = Vec::new();
    args.push(copy_of("-S"));
    args.push(copy_of("security"));
    args.push(copy_of("add-trusted-cert"));
    args.push(copy_of("-d"));
    args.push(copy_of("-r"));
    args.push(copy_of("trustRoot"));
    args.push(copy_of("-k"));
    args.push(copy_of("/Library/Keychains/System.keychain"));
    args.push(copy_of(cert_path));
    assert(texts(args@) =~= seq![
        "-S"@,
        "security"@,
        "add-trusted-cert"@,
        "-d"@,
        "-r"@,
        "trustRoot"@,
        "-k"@,
        "/Library/Keychains/System.keychain"@,
        cert_path@,
    ]);
    args
}

/// The arguments of the Windows command that trusts the certificate.
pub fn windows_trust_arguments(cert_path: &str) -> (args: Vec<String>)
    ensures
        texts(args@) == seq!["-user"@, "-addstore"@, "Root"@, "-f"@, cert_path@],
{
    let mut args: Vec<String> = Vec::new();
    args.push(copy_of("-user"));
    args.push(copy_of("-addstore"));
    args.push(copy_of("Root"));
    args.push(copy_of("-f"));
    args.push(copy_of(cert_path));
    assert(texts(args@) =~= seq!["-user"@, "-addstore"@, "Root"@, "-f"@, cert_path@]);
    args
}

/// What a platform's trust store is called.
pub fn store_name(platform: Platform) -> (name: &'static str)
    ensures
        name@ == match platform {
            Platform::Macos => "macOS"@,
            Platform::Linux => "Linux"@,
            Platform::Windows => "Windows"@,
            Platform::Unsupported => "this system"@,
        },
{
    match platform {
        Platform::Macos => "macOS",
        Platform::Linux => "Linux",
        Platform::Windows => "Windows",
        Platform::Unsupported => "this system",
    }
}

/// What is said before a certificate is installed again.
pub fn reinstall_notice(platform: Platform, state: TrustState, detail: &str) -> (text: String)
    ensures
        text@ == if state is Unknown {
            "Could not verify "@ + store_name_text(platform) + " trust state ("@ + detail@
                + "). Re-installing certificate..."@
        } else {
            "Detected missing "@ + store_name_text(platform) + " trust entry for wvdsh dev server. Re-installing certificate..."@
        },
{
    match state {
        TrustState::Unknown => {
            let head = concat3("Could not verify ", store_name(platform), " trust state (");
            concat3(head.as_str(), detail, "). Re-installing certificate...")
        },
        _ => concat3(
            "Detected missing ",
            store_name(platform),
            " trust entry for wvdsh dev server. Re-installing certificate...",
        ),
    }
}

/// What a platform's trust store is called.
pub open spec fn store_name_text(platform: Platform) -> Seq<char> {
    match platform {
        Platform::Macos => "macOS"@,
        Platform::Linux => "Linux"@,
        Platform::Windows => "Windows"@,
        Platform::Unsupported => "this system"@,
    }
}

} // verus!
