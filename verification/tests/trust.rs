use linuxdo_accelerator::command::{Action, CommandLine, Plan, PlanRun, Policy, ProcessOutput};
use linuxdo_accelerator::config::AppConfig;
use linuxdo_accelerator::failure::{format_error_chain, Failure};
use linuxdo_accelerator::file_path::FilePath;
use linuxdo_accelerator::platform::linux_trust::{
    command_exists, firefox_profile_dbs, firefox_profile_roots, import_ca_to_nss_db,
    install_ca_to_firefox_profiles, install_ca_to_linux_nss, linux_trust_store_path, nss_dir,
    remove_ca_from_nss_db, uninstall_ca_from_firefox_profiles, uninstall_ca_from_linux_nss,
    which_command, ProfileEntry, ProfileRead, RootListing, TrustStore,
};
use linuxdo_accelerator::platform::loopback::{
    add_alias_command, ensure_loopback_alias, ensure_macos_loopback_aliases, judge_added_alias,
    judge_removed_alias, macos_loopback_aliases, remove_alias_command, remove_loopback_alias,
    remove_macos_loopback_aliases,
};
use linuxdo_accelerator::platform::macos_trust::{
    certificate_sha256, compare_hashes, console_user_command, fingerprint_command, judge_fingerprint,
    keychain_query, login_keychain_of, macos_ca_trusted,
    macos_install_keychain_path, macos_keychain_cert_hashes, macos_login_keychain_path,
    parse_fingerprint, parse_hash_lines, parse_security_sha256_hashes, trust_query, MacosCaState,
    StateRequest, StateRun,
};
use linuxdo_accelerator::platform::trust::{install_ca, uninstall_ca, TrustFacts};
use linuxdo_accelerator::platform::Platform;

fn output(success: bool, stdout: &[u8], stderr: &[u8]) -> ProcessOutput {
    ProcessOutput { success, stdout: stdout.to_vec(), stderr: stderr.to_vec() }
}

fn failure(message: &str) -> Failure {
    Failure::new(message.to_string())
}

fn words(line: &CommandLine) -> String {
    let mut all = vec![line.program.clone()];
    all.extend(line.args.iter().cloned());
    all.join("|")
}

fn at(path: &'static str) -> FilePath<&'static str> {
    FilePath::Given(path, path.to_string())
}

fn action_text(action: &Action<&'static str>) -> String {
    match action {
        Action::CreateDir(path, named) => format!("CreateDir({:?}, {:?})", path.text(), named.text()),
        Action::CopyFile(from, to) => format!("CopyFile({:?}, {:?})", from.text(), to.text()),
        Action::MoveFile(from, to) => format!("MoveFile({:?}, {:?})", from.text(), to.text()),
        Action::RemoveFile(path) => format!("RemoveFile({:?})", path.text()),
        Action::WriteFile(path) => format!("WriteFile({:?})", path.text()),
        Action::SyncOwnership(path) => format!("SyncOwnership({:?})", path.text()),
        other => format!("{:?}", other),
    }
}

fn shown(plan: &Plan<&'static str>) -> Vec<String> {
    plan.steps
        .iter()
        .map(|step| {
            let mark = match step.policy {
                Policy::Required => "!",
                Policy::Ignored => "?",
                Policy::Alternative => "/",
            };
            let action = match &step.action {
                Action::Run(line) => words(line),
                other => action_text(other),
            };
            format!("{}{}", mark, action)
        })
        .collect()
}

fn facts(login: Option<&str>, store: Option<TrustStore>) -> TrustFacts {
    TrustFacts {
        macos_keychain: macos_install_keychain_path(login.map(|path| path.to_string())),
        macos_login_keychain: login.map(|path| path.to_string()),
        linux_store: store,
        linux_file_exists: true,
    }
}

fn install(
    platform: Platform,
    cert: &'static str,
    facts: &TrustFacts,
    state: MacosCaState,
) -> Plan<&'static str> {
    install_ca(platform, &at(cert), "Root", facts, Ok(state)).unwrap()
}

#[test]
fn linux_installs_what_it_later_removes() {
    let found = facts(None, Some(TrustStore::Debian));
    assert_eq!(
        shown(&install(Platform::Linux, "/run/ca.pem", &found, MacosCaState::Missing)),
        vec![
            "?UninstallCa",
            "!CreateDir(\"/usr/local/share/ca-certificates\", \"/usr/local/share/ca-certificates/linuxdo-accelerator-root-ca.crt\")",
            "!CopyFile(\"/run/ca.pem\", \"/usr/local/share/ca-certificates/linuxdo-accelerator-root-ca.crt\")",
            "!update-ca-certificates",
            "!InstallToNss",
            "!InstallToFirefox",
            "!Print(\"installed root certificate: Root\")",
        ]
    );
    assert_eq!(
        shown(&uninstall_ca(Platform::Linux, "Root", &found)),
        vec![
            "!RemoveFile(\"/usr/local/share/ca-certificates/linuxdo-accelerator-root-ca.crt\")",
            "!update-ca-certificates",
            "!UninstallFromNss",
            "!UninstallFromFirefox",
        ]
    );
    let red_hat = facts(None, Some(TrustStore::RedHat));
    assert_eq!(
        shown(&uninstall_ca(Platform::Other, "Root", &red_hat)),
        vec![
            "!RemoveFile(\"/etc/pki/ca-trust/source/anchors/linuxdo-accelerator-root-ca.crt\")",
            "!update-ca-trust|extract",
        ]
    );
    let unknown = facts(None, None);
    assert_eq!(
        shown(&install(Platform::Linux, "/run/ca.pem", &unknown, MacosCaState::Missing)),
        vec!["?UninstallCa", "!Fail(\"unsupported Linux trust store layout\")"]
    );
}

#[test]
fn macos_leaves_a_matching_certificate_alone() {
    let matching = facts(None, None);
    assert_eq!(
        shown(&install(Platform::Macos, "/ca.pem", &matching, MacosCaState::Matching)),
        vec!["!Print(\"root certificate already installed: Root\")"]
    );
    let missing = facts(Some("/Users/me/login"), None);
    assert_eq!(
        shown(&install(Platform::Macos, "/ca.pem", &missing, MacosCaState::Missing)),
        vec![
            "!security|add-trusted-cert|-r|trustRoot|-k|/Users/me/login|/ca.pem",
            "!Print(\"installed root certificate: Root\")",
        ]
    );
    let mismatched = facts(None, None);
    assert_eq!(
        shown(&install(Platform::Macos, "/ca.pem", &mismatched, MacosCaState::Mismatched)),
        vec![
            "?UninstallCa",
            "!security|add-trusted-cert|-d|-r|trustRoot|-k|/Library/Keychains/System.keychain|/ca.pem",
            "!Print(\"installed root certificate: Root\")",
        ]
    );
    assert_eq!(
        install_ca(Platform::Macos, &at("/ca.pem"), "Root", &missing, Err(failure("unknown")))
            .unwrap_err()
            .message,
        "unknown"
    );
    assert!(install_ca(Platform::Linux, &at("/ca.pem"), "Root", &missing, Err(failure("e"))).is_ok());
    assert_eq!(
        shown(&uninstall_ca(Platform::Macos, "Root", &missing)),
        vec![
            "?security|delete-certificate|-c|Root|/Library/Keychains/System.keychain",
            "?security|delete-certificate|-c|Root|/Users/me/login",
        ]
    );
}

#[test]
fn windows_and_android_have_their_own_stores() {
    let found = facts(None, None);
    assert_eq!(
        shown(&install(Platform::Windows, "C:\\ca.pem", &found, MacosCaState::Missing)),
        vec![
            "?UninstallCa",
            "!powershell|-NoProfile|-Command|Import-Certificate -FilePath 'C:\\ca.pem' -CertStoreLocation Cert:\\LocalMachine\\Root",
            "!Print(\"installed root certificate: Root\")",
        ]
    );
    assert_eq!(
        shown(&uninstall_ca(Platform::Windows, "Root", &found)),
        vec![
            "?powershell|-NoProfile|-Command|Get-ChildItem Cert:\\LocalMachine\\Root\\* | Where-Object { $_.Subject -like '*Root*' } | Remove-Item -Force",
        ]
    );
    assert_eq!(
        shown(&install(Platform::Android, "/ca.pem", &found, MacosCaState::Missing)),
        vec![
            "?UninstallCa",
            "!InstallToAndroid",
            "!Print(\"installed root certificate: Root\")",
        ]
    );
    assert_eq!(shown(&uninstall_ca(Platform::Android, "Root", &found)), vec!["!UninstallFromAndroid"]);
}

#[test]
fn trust_stores_are_told_by_their_directories() {
    assert_eq!(linux_trust_store_path(true, true), Some(TrustStore::Debian));
    assert_eq!(linux_trust_store_path(false, true), Some(TrustStore::RedHat));
    assert_eq!(linux_trust_store_path(false, false), None);
    assert_eq!(TrustStore::RedHat.dir_path(), "/etc/pki/ca-trust/source/anchors");
}

#[test]
fn nss_databases_are_made_before_they_are_filled() {
    assert_eq!(
        shown(&install_ca_to_linux_nss(Some(&at("/home/me")), true, false, "/ca.pem", "Root")),
        vec![
            "!CreateDir(\"/home/me/.pki/nssdb\", \"/home/me/.pki/nssdb\")",
            "!certutil|-d|sql:/home/me/.pki/nssdb|-N|--empty-password",
            "?certutil|-d|sql:/home/me/.pki/nssdb|-D|-n|Root",
            "!certutil|-d|sql:/home/me/.pki/nssdb|-A|-t|C,,|-n|Root|-i|/ca.pem",
            "!SyncOwnership(\"/home/me/.pki/nssdb\")",
        ]
    );
    assert_eq!(
        install_ca_to_linux_nss(Some(&at("/home/me")), true, true, "/ca.pem", "Root").steps.len(),
        4
    );
    assert_eq!(
        shown(&install_ca_to_linux_nss(Some(&at("/home/me/")), false, true, "/ca.pem", "Root")),
        vec!["!CreateDir(\"/home/me/.pki/nssdb\", \"/home/me/.pki/nssdb\")"]
    );
    assert!(install_ca_to_linux_nss::<&str>(None, true, true, "/ca.pem", "Root").steps.is_empty());
    assert_eq!(
        shown(&uninstall_ca_from_linux_nss(Some(&at("/home/me")), true, true, "Root")),
        vec![
            "?certutil|-d|sql:/home/me/.pki/nssdb|-D|-n|Root",
            "!SyncOwnership(\"/home/me/.pki/nssdb\")",
        ]
    );
    assert!(uninstall_ca_from_linux_nss(Some(&at("/home/me")), false, true, "Root").steps.is_empty());
    assert!(uninstall_ca_from_linux_nss(Some(&at("/home/me")), true, false, "Root").steps.is_empty());
    assert!(uninstall_ca_from_linux_nss::<&str>(None, true, true, "Root").steps.is_empty());
    assert_eq!(nss_dir(&at("/root")).text(), "/root/.pki/nssdb");
    assert_eq!(words(&which_command("certutil")), "which|certutil");
    assert!(command_exists(&Ok(output(true, b"", b""))));
    assert!(!command_exists(&Ok(output(false, b"", b""))));
    assert!(!command_exists(&Err(failure("e"))));
}

fn profile(path: &'static str, is_dir: bool, has_db: bool) -> ProfileRead<&'static str> {
    ProfileRead::Entry(ProfileEntry { path: at(path), is_dir, has_db })
}

#[test]
fn firefox_profiles_are_served_one_by_one() {
    let texts = |paths: &Vec<FilePath<&'static str>>| -> Vec<String> {
        paths.iter().map(|path| path.text()).collect()
    };
    assert_eq!(
        texts(&firefox_profile_roots(Some(&at("/home/me")))),
        vec!["/home/me/.mozilla/firefox", "/home/me/snap/firefox/common/.mozilla/firefox"]
    );
    assert!(firefox_profile_roots::<&str>(None).is_empty());
    let dbs = firefox_profile_dbs(vec![
        RootListing::Entries(vec![
            profile("/p/a", true, true),
            profile("/p/profiles.ini", false, false),
            profile("/p/b", true, false),
        ]),
        RootListing::Missing,
        RootListing::Entries(vec![profile("/p/c", true, true)]),
    ])
    .unwrap();
    assert_eq!(texts(&dbs), vec!["/p/a", "/p/c"]);
    assert_eq!(
        shown(&install_ca_to_firefox_profiles(&dbs, true, "/ca.pem", "Root")),
        vec![
            "?certutil|-d|sql:/p/a|-D|-n|Root",
            "!certutil|-d|sql:/p/a|-A|-t|C,,|-n|Root|-i|/ca.pem",
            "!SyncOwnership(\"/p/a\")",
            "?certutil|-d|sql:/p/c|-D|-n|Root",
            "!certutil|-d|sql:/p/c|-A|-t|C,,|-n|Root|-i|/ca.pem",
            "!SyncOwnership(\"/p/c\")",
        ]
    );
    assert_eq!(uninstall_ca_from_firefox_profiles(&dbs, true, "Root").steps.len(), 4);
    assert!(install_ca_to_firefox_profiles(&dbs, false, "/ca.pem", "Root").steps.is_empty());
    assert_eq!(import_ca_to_nss_db(&at("/p/a"), true, "/ca.pem", "Root").steps.len(), 3);
    assert!(import_ca_to_nss_db(&at("/p/a"), false, "/ca.pem", "Root").steps.is_empty());
    assert_eq!(remove_ca_from_nss_db(&at("/p/a"), true, "Root").steps.len(), 2);
    assert!(remove_ca_from_nss_db(&at("/p/a"), false, "Root").steps.is_empty());
}

#[test]
fn profiles_that_cannot_be_read_are_a_failure() {
    let broken = vec![
        RootListing::Entries(vec![profile("/p/a", true, true), ProfileRead::Broken(failure("e"))]),
        RootListing::Unreadable("/q".to_string(), failure("later")),
    ];
    assert_eq!(format_error_chain(&firefox_profile_dbs(broken).unwrap_err()), "e");
    let unreadable: Vec<RootListing<&str>> = vec![RootListing::Unreadable("/q".to_string(), failure("denied"))];
    assert_eq!(
        format_error_chain(&firefox_profile_dbs(unreadable).unwrap_err()),
        "failed to read /q\ncaused by: denied"
    );
}

#[test]
fn keychains_follow_the_user_at_the_console() {
    assert_eq!(words(&console_user_command()), "stat|-f|%Su|/dev/console");
    assert_eq!(
        macos_login_keychain_path(Ok(output(true, b"me\n", b""))).unwrap(),
        "/Users/me/Library/Keychains/login.keychain-db"
    );
    assert_eq!(macos_login_keychain_path(Ok(output(true, b"root\n", b""))), None);
    assert_eq!(macos_login_keychain_path(Ok(output(false, b"me\n", b""))), None);
    assert_eq!(macos_login_keychain_path(Err(failure("e"))), None);
    assert_eq!(login_keychain_of(""), None);
    assert_eq!(macos_install_keychain_path(None), "/Library/Keychains/System.keychain");
}

#[test]
fn fingerprints_are_compared_in_one_notation() {
    let text = "Warning: x\nsha256 Fingerprint=92:62:d5:83\nother=1\n";
    assert_eq!(parse_fingerprint(text).unwrap(), "9262D583");
    assert_eq!(parse_fingerprint("no sign here"), None);
    assert_eq!(
        parse_hash_lines("SHA-256 hash: 9262d583 \r\nSHA-1 hash: 00\n SHA-256 hash: 11\nSHA-256 hash: AA"),
        vec!["9262D583", "AA"]
    );
    assert_eq!(parse_security_sha256_hashes(&b"SHA-256 hash: ab\n".to_vec()), vec!["AB"]);
    assert_eq!(
        words(&fingerprint_command("/ca.pem")),
        "openssl|x509|-in|/ca.pem|-noout|-fingerprint|-sha256"
    );
    assert_eq!(
        certificate_sha256("/ca.pem", Ok(output(true, text.as_bytes(), b""))).unwrap(),
        "9262D583"
    );
    assert_eq!(
        judge_fingerprint("/ca.pem", false, "", " bad file \n").unwrap_err().message,
        "openssl fingerprint failed for /ca.pem: bad file"
    );
    assert_eq!(
        judge_fingerprint("/ca.pem", true, "x", "").unwrap_err().message,
        "failed to parse certificate fingerprint for /ca.pem"
    );
    assert_eq!(
        format_error_chain(&certificate_sha256("/ca.pem", Err(failure("e"))).unwrap_err()),
        "failed to fingerprint /ca.pem\ncaused by: e"
    );
}

#[test]
fn keychain_queries_that_fail_find_nothing() {
    assert_eq!(
        words(&keychain_query("Root", "/k")),
        "security|find-certificate|-a|-c|Root|-Z|/k"
    );
    assert_eq!(
        macos_keychain_cert_hashes("/k", Ok(output(true, b"SHA-256 hash: 0f\n", b""))).unwrap(),
        vec!["0F"]
    );
    assert!(macos_keychain_cert_hashes("/k", Ok(output(false, b"SHA-256 hash: 0f\n", b"")))
        .unwrap()
        .is_empty());
    assert_eq!(
        macos_keychain_cert_hashes("/k", Err(failure("e"))).unwrap_err().message,
        "failed to query /k"
    );
    assert_eq!(words(&trust_query("/ca.pem")), "security|verify-cert|-c|/ca.pem|-p|basic");
    assert!(macos_ca_trusted("/ca.pem", Ok(output(true, b"", b""))).unwrap());
    assert!(!macos_ca_trusted("/ca.pem", Ok(output(false, b"", b""))).unwrap());
    assert_eq!(
        macos_ca_trusted("/ca.pem", Err(failure("e"))).unwrap_err().message,
        "failed to verify trust for /ca.pem"
    );
}

#[test]
fn the_state_of_the_keychains_is_judged() {
    let list = |items: &[&str]| -> Vec<String> { items.iter().map(|i| i.to_string()).collect() };
    assert_eq!(compare_hashes("A", &list(&["A"]), &list(&[]), true), MacosCaState::Matching);
    assert_eq!(compare_hashes("A", &list(&["A"]), &list(&["B"]), true), MacosCaState::Matching);
    assert_eq!(compare_hashes("A", &list(&["A"]), &list(&[]), false), MacosCaState::Missing);
    assert_eq!(compare_hashes("A", &list(&["A", "B"]), &list(&[]), true), MacosCaState::Mismatched);
    assert_eq!(compare_hashes("A", &list(&[]), &list(&["B"]), false), MacosCaState::Mismatched);
    assert_eq!(compare_hashes("A", &list(&[]), &list(&[]), true), MacosCaState::Missing);
}

fn asked(answer: impl Fn(&str) -> Result<ProcessOutput, Failure>) -> (Vec<String>, String) {
    let (mut run, mut request) = StateRun::macos_ca_state("/ca.pem", "Root");
    let mut asked = Vec::new();
    loop {
        match request {
            StateRequest::Run(line) => {
                let words = words(&line);
                let reply = answer(&words);
                asked.push(words);
                (run, request) = run.resume(reply);
            }
            StateRequest::Finish(Ok(state)) => return (asked, format!("{:?}", state)),
            StateRequest::Finish(Err(error)) => return (asked, error.message),
        }
    }
}

#[test]
fn the_keychains_are_asked_one_after_the_other() {
    let fingerprint = b"sha256 Fingerprint=AA:BB\n";
    let hash = b"SHA-256 hash: AABB\n";
    let all = |words: &str| {
        Ok(match words {
            "stat|-f|%Su|/dev/console" => output(true, b"me\n", b""),
            text if text.starts_with("openssl") => output(true, fingerprint, b""),
            text if text.ends_with("login.keychain-db") => output(true, hash, b""),
            text if text.ends_with("System.keychain") => output(false, b"", b""),
            _ => output(true, b"", b""),
        })
    };
    let (questions, state) = asked(all);
    assert_eq!(state, "Matching");
    assert_eq!(questions.len(), 5);
    assert_eq!(questions[4], "security|verify-cert|-c|/ca.pem|-p|basic");
    let (questions, state) = asked(|words| match words {
        "stat|-f|%Su|/dev/console" => Err(failure("no stat")),
        other => all(other),
    });
    assert_eq!(state, "Missing");
    assert_eq!(questions.len(), 4);
    let (questions, error) = asked(|words| {
        if words.ends_with("System.keychain") {
            Err(failure("e"))
        } else {
            all(words)
        }
    });
    assert_eq!(questions.len(), 2);
    assert_eq!(error, "failed to query /Library/Keychains/System.keychain");
    let (questions, error) = asked(|_| Err(failure("e")));
    assert_eq!(questions.len(), 1);
    assert_eq!(error, "failed to fingerprint /ca.pem");
}

fn config(listen_host: &str, hosts_ip: &str) -> AppConfig {
    AppConfig {
        listen_host: listen_host.to_string(),
        hosts_ip: hosts_ip.to_string(),
        http_port: 80,
        https_port: 443,
        managed_prefer_ipv6: false,
        autostart: false,
        edge_node: None,
        edge_node_override: None,
        upstream: String::new(),
        hosts_domains: vec![],
        doh_endpoints: vec![],
        certificate_domains: vec![],
    }
}

#[test]
fn only_other_loopback_addresses_get_an_alias() {
    assert_eq!(macos_loopback_aliases(&config("127.211.73.84", "127.211.73.84")), vec!["127.211.73.84"]);
    assert_eq!(macos_loopback_aliases(&config("127.0.0.2", "127.9.9.9")), vec!["127.0.0.2", "127.9.9.9"]);
    assert!(macos_loopback_aliases(&config("127.0.0.1", "10.0.0.1")).is_empty());
    assert!(macos_loopback_aliases(&config("127.0.0.02", "127.0.0.256")).is_empty());
    assert!(macos_loopback_aliases(&config("localhost", "127.0.0")).is_empty());
    let both = config("127.0.0.2", "127.9.9.9");
    assert_eq!(
        shown(&ensure_loopback_alias(Platform::Macos, &both)),
        vec!["!AddAlias(\"127.0.0.2\")", "!AddAlias(\"127.9.9.9\")"]
    );
    assert!(ensure_loopback_alias::<&str>(Platform::Linux, &both).steps.is_empty());
    assert_eq!(
        shown(&remove_loopback_alias(Platform::Macos, &config("::1", "127.0.0.2"))),
        vec!["!RemoveAlias(\"127.0.0.2\")"]
    );
    let mut run = PlanRun::new(ensure_loopback_alias::<&str>(Platform::Macos, &both));
    assert_eq!(run.record(Err(failure("e"))).unwrap_err().message, "e");
    assert!(run.current().is_none());
}

#[test]
fn aliases_that_are_there_or_gone_are_no_failure() {
    assert_eq!(words(&add_alias_command("127.0.0.2")), "ifconfig|lo0|alias|127.0.0.2|up");
    assert_eq!(words(&remove_alias_command("127.0.0.2")), "ifconfig|lo0|-alias|127.0.0.2");
    assert!(judge_added_alias("127.0.0.2", false, "ioctl: File exists", "").is_ok());
    assert_eq!(
        judge_added_alias("127.0.0.2", false, "", "").unwrap_err().message,
        "ifconfig lo0 alias 127.0.0.2 failed: unknown error"
    );
    assert!(judge_removed_alias("127.0.0.2", false, "Can't assign requested address", "").is_ok());
    assert!(judge_removed_alias("127.0.0.2", false, "interface does not exist", "").is_ok());
    assert_eq!(
        judge_removed_alias("127.0.0.2", false, "permission denied", "").unwrap_err().message,
        "ifconfig lo0 -alias 127.0.0.2 failed: permission denied"
    );
    assert_eq!(
        format_error_chain(
            &ensure_macos_loopback_aliases("127.0.0.2", Err(failure("e"))).unwrap_err()
        ),
        "failed to execute ifconfig for loopback alias 127.0.0.2\ncaused by: e"
    );
    assert_eq!(
        remove_macos_loopback_aliases("127.0.0.2", Err(failure("e"))).unwrap_err().message,
        "failed to execute ifconfig for loopback alias cleanup 127.0.0.2"
    );
}
