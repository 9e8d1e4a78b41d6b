use coduck::codex::{
    candidates, check_version, find_executable, program, ChildCommand, Codex, FileFacts,
    VersionReply, SUPPORTED_VERSION,
};
use coduck::error::Error;

fn bytes(text: &str) -> Vec<u8> {
    text.as_bytes().to_vec()
}

fn all(texts: &[&str]) -> Vec<Vec<u8>> {
    texts.iter().map(|text| bytes(text)).collect()
}

fn codex() -> Codex {
    Codex::new(bytes("/fake/codex"), bytes("/work/project"), bytes("/shared/codex"))
}

// what the changes to the environment come to for one variable, where they touch it.
fn change<'a>(command: &'a ChildCommand, key: &str) -> Option<Option<&'a Vec<u8>>> {
    command
        .environment
        .iter()
        .filter(|change| change.key == key.as_bytes())
        .next_back()
        .map(|change| change.value.as_ref())
}

#[test]
fn commands_preserve_custom_ca_certificate_override() {
    let command = codex().coding(&all(&["CODEX_CA_CERTIFICATE", "PATH"]));
    assert!(!command.environment.iter().any(|change| change.key == b"CODEX_CA_CERTIFICATE"));
}

#[test]
fn commands_keep_helper_isolated_and_coding_home_shared() {
    let codex = codex();
    let keys = all(&["PATH", "RUST_LOG"]);
    for (command, home, cwd, mode) in [
        (
            codex.helper(b"/private/helper", &keys),
            "/private/helper",
            "/private/helper",
            "keyring",
        ),
        (codex.coding(&keys), "/shared/codex", "/work/project", "ephemeral"),
        (
            codex.terminal("/private/bridge.sock", Some("session"), &keys),
            "/shared/codex",
            "/work/project",
            "ephemeral",
        ),
    ] {
        assert_eq!(command.program, b"/fake/codex");
        assert_eq!(command.cwd, bytes(cwd));
        assert_eq!(change(&command, "CODEX_HOME"), Some(Some(&bytes(home))));
        assert_eq!(
            change(&command, "CODEX_INTERNAL_APP_SERVER_REMOTE_CONTROL_DISABLED"),
            Some(Some(&bytes("1")))
        );
        assert_eq!(change(&command, "RUST_LOG"), Some(None));
        assert!(command.args.contains(&bytes(&format!("cli_auth_credentials_store=\"{mode}\""))));
    }
}

#[test]
fn commands_have_exact_arguments() {
    let codex = codex();
    let none = Vec::new();
    assert_eq!(
        codex.helper(b"/home", &none).args,
        all(&["-c", "cli_auth_credentials_store=\"keyring\"", "app-server", "--stdio"])
    );
    assert_eq!(
        codex.coding(&none).args,
        all(&["-c", "cli_auth_credentials_store=\"ephemeral\"", "app-server", "--stdio"])
    );
    let terminal = ["-c", "cli_auth_credentials_store=\"ephemeral\"", "--remote", "unix:///s.sock"];
    assert_eq!(codex.terminal("/s.sock", None, &none).args, all(&terminal));
    let mut resumed = all(&terminal);
    resumed.extend(all(&["resume", "--", "id"]));
    assert_eq!(codex.terminal("/s.sock", Some("id"), &none).args, resumed);
    assert_eq!(codex.version(&none).args, all(&["--version"]));
    assert_eq!(codex.version(&none).cwd, b"/work/project");
}

#[test]
fn what_would_configure_codex_is_kept_from_children() {
    let keys = all(&[
        "CODEX_HOME",
        "CODEX_API_KEY",
        "CODEX_CA_CERTIFICATE",
        "CODEX_CA_CERTIFICATES",
        "OPENAI_BASE_URL",
        "CODEX",
        "MY_OPENAI_KEY",
        "openai_key",
    ]);
    let command = codex().coding(&keys);
    for key in ["CODEX_API_KEY", "CODEX_CA_CERTIFICATES", "OPENAI_BASE_URL", "RUST_LOG"] {
        assert_eq!(change(&command, key), Some(None));
    }
    for key in ["CODEX_CA_CERTIFICATE", "CODEX", "MY_OPENAI_KEY", "openai_key", "PATH"] {
        assert_eq!(change(&command, key), None);
    }
    assert_eq!(change(&command, "CODEX_HOME"), Some(Some(&bytes("/shared/codex"))));
    let last = command.environment.last().unwrap();
    assert_eq!(last.key, b"CODEX_INTERNAL_APP_SERVER_REMOTE_CONTROL_DISABLED");
}

#[test]
fn the_home_of_codex_comes_from_the_environment() {
    let home = |configured: Option<&[u8]>, home: Option<&[u8]>| {
        Codex::resolve(bytes("/c"), bytes("/work"), configured, home).map(|codex| {
            change(&codex.coding(&Vec::new()), "CODEX_HOME").unwrap().unwrap().clone()
        })
    };
    assert_eq!(home(Some(b"/x"), None), Ok(bytes("/x")));
    assert_eq!(home(Some(b"x"), Some(b"/home")), Ok(bytes("/work/x")));
    assert_eq!(home(Some(b""), Some(b"/home")), Err(Error::EmptyCodexHome));
    assert_eq!(home(None, Some(b"/home")), Ok(bytes("/home/.codex")));
    assert_eq!(home(None, Some(b"")), Err(Error::HomeUnset));
    assert_eq!(home(None, None), Err(Error::HomeUnset));
}

#[test]
fn only_one_version_is_supported() {
    let reply = |success: bool, output: &str| {
        check_version(&VersionReply::Finished { success, output: bytes(output) })
    };
    assert_eq!(SUPPORTED_VERSION, "codex-cli 0.154.0");
    assert_eq!(reply(true, "codex-cli 0.154.0\n"), Ok(()));
    for output in ["codex-cli 0.154.0", "codex-cli 0.154.1\n", "codex-cli 0.154.0\n\n", ""] {
        assert_eq!(reply(true, output), Err(Error::UnsupportedVersion));
    }
    assert_eq!(reply(false, "codex-cli 0.154.0\n"), Err(Error::UnsupportedVersion));
    assert_eq!(check_version(&VersionReply::TimedOut), Err(Error::VersionTimedOut));
    assert_eq!(check_version(&VersionReply::Failed), Err(Error::CannotExecuteCodex));
    assert_eq!(
        Error::UnsupportedVersion.message(),
        "unsupported Codex version; Coduck requires codex-cli 0.154.0"
    );
}

#[test]
fn the_program_is_named_by_the_environment() {
    assert_eq!(program(None), Ok(bytes("codex")));
    assert_eq!(program(Some(b"/bin/x")), Ok(bytes("/bin/x")));
    assert_eq!(program(Some(b"")), Err(Error::EmptyCodexPath));
}

#[test]
fn bare_names_are_looked_for_and_paths_are_not() {
    for path in ["/bin/codex", "./codex", "a/b", "../codex", "./a/."] {
        assert_eq!(candidates(path.as_bytes(), b"/usr/bin"), all(&[path]));
    }
    assert_eq!(
        candidates(b"codex", b"/usr/bin:/opt/bin/:"),
        all(&["/usr/bin/codex", "/opt/bin/codex", "codex"])
    );
    for path in ["codex/", "codex/.", "codex//./"] {
        assert_eq!(candidates(path.as_bytes(), b"/bin"), all(&[&format!("/bin/{path}")]));
    }
    assert_eq!(candidates(b"codex", b""), all(&["codex"]));
    assert_eq!(candidates(b".", b"/bin"), all(&["/bin/."]));
}

#[test]
fn the_first_executable_file_is_chosen() {
    let facts = |file: bool, mode: u32| Some(FileFacts { file, mode });
    assert_eq!(
        find_executable(&vec![None, facts(false, 0o755), facts(true, 0o644), facts(true, 0o601)]),
        Ok(3)
    );
    assert_eq!(find_executable(&vec![facts(true, 0o010), facts(true, 0o755)]), Ok(0));
    assert_eq!(find_executable(&vec![None, facts(true, 0o666)]), Err(Error::CodexNotFound));
    assert_eq!(find_executable(&Vec::new()), Err(Error::CodexNotFound));
}
