//! The root certificate in the keychains of macOS: whether the one that is installed is the one
//! that should be.

use vstd::prelude::*;
use vstd::string::*;

use crate::command::{
    command, message_text, run_value, written_text, CommandLine, CommandText, ProcessOutput,
    ProcessOutputValue,
};
use crate::decode::{decode_utf8, utf8_text};
use crate::failure::{text_outcome, Failure};
use crate::text::{
    ascii_upper, first_index, join_path, lemma_first_index_is, lines, opt_text, path_below,
    push_text, replace_char, replaced, same_text, split_once, starts_with, strip_prefix, text_lines,
    texts, to_ascii_upper, trim, trimmed, without_cr,
};

verus! {

/// The keychain of the system.
pub open spec fn system_keychain() -> Seq<char> {
    "/Library/Keychains/System.keychain"@
}

// ---------------------------------------------------------------------------------------------
// Keychains
// ---------------------------------------------------------------------------------------------

/// The command that names the user at the console.
pub open spec fn console_user_text() -> CommandText {
    command("stat"@).with("-f"@).with("%Su"@).with("/dev/console"@)
}

/// The command that names the user at the console.
pub fn console_user_command() -> (line: CommandLine)
    ensures
        line@ == console_user_text(),
{
    CommandLine::new("stat").arg("-f").arg("%Su").arg("/dev/console")
}

/// The login keychain of the user at the console; none where nobody but root is there.
pub open spec fn login_keychain(user: Seq<char>) -> Option<Seq<char>> {
    if user.len() == 0 || user == "root"@ {
        None
    } else {
        Some(
            path_below(
                path_below(path_below(path_below("/Users"@, user), "Library"@), "Keychains"@),
                "login.keychain-db"@,
            ),
        )
    }
}

/// The login keychain of `user`.
pub fn login_keychain_of(user: &str) -> (keychain: Option<String>)
    ensures
        opt_text(keychain) == login_keychain(user@),
{
    if user.is_empty() || same_text(user, "root") {
        return None;
    }
    let home = join_path("/Users", user);
    let library = join_path(home.as_str(), "Library");
    let keychains = join_path(library.as_str(), "Keychains");
    Some(join_path(keychains.as_str(), "login.keychain-db"))
}

/// The login keychain, where the question for the user at the console came to `run`.
pub open spec fn console_answer(run: Result<ProcessOutputValue, Seq<Seq<char>>>) -> Option<
    Seq<char>,
> {
    match run {
        Ok(output) => if output.success {
            login_keychain(message_text(output.stdout))
        } else {
            None
        },
        Err(_) => None,
    }
}

/// The login keychain, where the question for the user at the console came to `run`.
pub fn macos_login_keychain_path(run: Result<ProcessOutput, Failure>) -> (keychain: Option<String>)
    ensures
        opt_text(keychain) == console_answer(run_value(run)),
{
    match run {
        Ok(output) => if output.success {
            login_keychain_of(written_text(&output.stdout).as_str())
        } else {
            None
        },
        Err(_) => None,
    }
}

/// The keychain that the certificate is installed in: the login keychain where there is one.
pub open spec fn install_keychain(login: Option<Seq<char>>) -> Seq<char> {
    match login {
        Some(keychain) => keychain,
        None => system_keychain(),
    }
}

/// The keychain that the certificate is installed in.
pub fn macos_install_keychain_path(login: Option<String>) -> (keychain: String)
    ensures
        keychain@ == install_keychain(opt_text(login)),
{
    match login {
        Some(keychain) => keychain,
        None => "/Library/Keychains/System.keychain".to_string(),
    }
}

// ---------------------------------------------------------------------------------------------
// Fingerprints
// ---------------------------------------------------------------------------------------------

/// A fingerprint in the one notation in which fingerprints are compared: without white space
/// around it and without colons, in capitals.
pub open spec fn normal_hash(hash: Seq<char>) -> Seq<char> {
    ascii_upper(replaced(trimmed(hash), ':', ""@))
}

/// A fingerprint in the notation in which fingerprints are compared.
fn to_normal_hash(hash: &str) -> (normal: String)
    ensures
        normal@ == normal_hash(hash@),
{
    to_ascii_upper(replace_char(trim(hash).as_str(), ':', "").as_str())
}

/// The command that writes the fingerprint of the certificate in the file `path`.
pub open spec fn fingerprint_text(path: Seq<char>) -> CommandText {
    command("openssl"@).with("x509"@).with("-in"@).with(path).with("-noout"@).with(
        "-fingerprint"@,
    ).with("-sha256"@)
}

/// The command that writes the fingerprint of the certificate in the file `path`.
pub fn fingerprint_command(path: &str) -> (line: CommandLine)
    ensures
        line@ == fingerprint_text(path@),
{
    CommandLine::new("openssl").arg("x509").arg("-in").arg(path).arg("-noout").arg(
        "-fingerprint",
    ).arg("-sha256")
}

/// What follows the first equals sign of the first line that has one.
pub open spec fn first_value(list: Seq<Seq<char>>) -> Option<Seq<char>>
    decreases list.len(),
{
    if list.len() == 0 {
        None
    } else if first_index(list[0], '=') < list[0].len() {
        Some(list[0].skip(first_index(list[0], '=') as int + 1))
    } else {
        first_value(list.drop_first())
    }
}

/// The fingerprint in what the command wrote.
pub open spec fn fingerprint_in(text: Seq<char>) -> Option<Seq<char>> {
    match first_value(text_lines(text)) {
        Some(value) => Some(normal_hash(value)),
        None => None,
    }
}

/// The fingerprint in what the command wrote.
pub fn parse_fingerprint(text: &str) -> (fingerprint: Option<String>)
    ensures
        opt_text(fingerprint) == fingerprint_in(text@),
{
    let list = lines(text);
    let ghost all = texts(list@);
    assert(all.skip(0) =~= all);
    for i in 0..list.len()
        invariant
            all == texts(list@),
            all == text_lines(text@),
            first_value(all) == first_value(all.skip(i as int)),
    {
        assert(all.skip(i as int)[0] == list@[i as int]@);
        assert(all.skip(i as int).drop_first() =~= all.skip(i + 1));
        if let Some((_, value)) = split_once(list[i].as_str(), '=') {
            return Some(to_normal_hash(value.as_str()));
        }
    }
    None
}

/// The fingerprint of the certificate in the file `path`, given what the command that writes it
/// left behind.
pub open spec fn fingerprint_result(
    path: Seq<char>,
    success: bool,
    stdout: Seq<char>,
    stderr: Seq<char>,
) -> Result<Seq<char>, Seq<Seq<char>>> {
    if !success {
        Err(seq!["openssl fingerprint failed for "@ + path + ": "@ + trimmed(stderr)])
    } else {
        match fingerprint_in(stdout) {
            Some(fingerprint) => Ok(fingerprint),
            None => Err(seq!["failed to parse certificate fingerprint for "@ + path]),
        }
    }
}

/// Judges the command that writes the fingerprint by what it wrote.
pub fn judge_fingerprint(path: &str, success: bool, stdout: &str, stderr: &str) -> (fingerprint:
    Result<String, Failure>)
    ensures
        text_outcome(fingerprint) == fingerprint_result(path@, success, stdout@, stderr@),
{
    if !success {
        return Err(
            Failure::new(
                "openssl fingerprint failed for ".to_string().concat(path).concat(": ").concat(
                    trim(stderr).as_str(),
                ),
            ),
        );
    }
    match parse_fingerprint(stdout) {
        Some(fingerprint) => Ok(fingerprint),
        None => Err(
            Failure::new(
                "failed to parse certificate fingerprint for ".to_string().concat(path),
            ),
        ),
    }
}

/// The fingerprint of the certificate in the file `path`, where the command that writes it came
/// to `run`.
pub open spec fn fingerprint_answer(
    path: Seq<char>,
    run: Result<ProcessOutputValue, Seq<Seq<char>>>,
) -> Result<Seq<char>, Seq<Seq<char>>> {
    match run {
        Err(causes) => Err(seq!["failed to fingerprint "@ + path] + causes),
        Ok(output) => fingerprint_result(
            path,
            output.success,
            utf8_text(output.stdout),
            utf8_text(output.stderr),
        ),
    }
}

/// The fingerprint of the certificate in the file `path`, where the command that writes it came
/// to `run`.
pub fn certificate_sha256(path: &str, run: Result<ProcessOutput, Failure>) -> (fingerprint: Result<
    String,
    Failure,
>)
    ensures
        text_outcome(fingerprint) == fingerprint_answer(path@, run_value(run)),
{
    match run {
        Err(error) => Err(error.context("failed to fingerprint ".to_string().concat(path))),
        Ok(output) => judge_fingerprint(
            path,
            output.success,
            decode_utf8(output.stdout.as_slice()).as_str(),
            decode_utf8(output.stderr.as_slice()).as_str(),
        ),
    }
}

/// The command that writes the fingerprints of the certificates with a common name.
pub open spec fn keychain_query_text(common_name: Seq<char>, keychain: Seq<char>) -> CommandText {
    command("security"@).with("find-certificate"@).with("-a"@).with("-c"@).with(common_name).with(
        "-Z"@,
    ).with(keychain)
}

/// The command that writes the fingerprints of the certificates with a common name.
pub fn keychain_query(common_name: &str, keychain: &str) -> (line: CommandLine)
    ensures
        line@ == keychain_query_text(common_name@, keychain@),
{
    CommandLine::new("security").arg("find-certificate").arg("-a").arg("-c").arg(common_name).arg(
        "-Z",
    ).arg(keychain)
}

/// The fingerprints in the lines that give one.
pub open spec fn hash_lines(list: Seq<Seq<char>>) -> Seq<Seq<char>>
    decreases list.len(),
{
    if list.len() == 0 {
        Seq::empty()
    } else {
        let before = hash_lines(list.drop_last());
        let prefix = "SHA-256 hash: "@;
        if starts_with(list.last(), prefix) {
            before.push(normal_hash(list.last().skip(prefix.len() as int)))
        } else {
            before
        }
    }
}

/// The fingerprints in what the keychain query wrote.
pub fn parse_hash_lines(text: &str) -> (hashes: Vec<String>)
    ensures
        texts(hashes@) == hash_lines(text_lines(text@)),
{
    let list = lines(text);
    let ghost all = texts(list@);
    let mut hashes: Vec<String> = Vec::new();
    assert(texts(hashes@) =~= hash_lines(all.take(0)));
    for i in 0..list.len()
        invariant
            all == texts(list@),
            texts(hashes@) == hash_lines(all.take(i as int)),
    {
        proof {
            assert(all.take(i + 1).drop_last() =~= all.take(i as int));
            assert(all.take(i + 1).last() == list@[i as int]@);
        }
        if let Some(hash) = strip_prefix(list[i].as_str(), "SHA-256 hash: ") {
            push_text(&mut hashes, to_normal_hash(hash.as_str()));
        }
    }
    assert(all.take(all.len() as int) =~= all);
    hashes
}

/// The fingerprints in what the keychain query wrote.
pub fn parse_security_sha256_hashes(output: &Vec<u8>) -> (hashes: Vec<String>)
    ensures
        texts(hashes@) == hash_lines(text_lines(utf8_text(output@))),
{
    parse_hash_lines(decode_utf8(output.as_slice()).as_str())
}

/// Fingerprints, or why there are none.
pub open spec fn hashes_outcome(result: Result<Vec<String>, Failure>) -> Result<
    Seq<Seq<char>>,
    Seq<Seq<char>>,
> {
    match result {
        Ok(hashes) => Ok(texts(hashes@)),
        Err(failure) => Err(failure@),
    }
}

/// The fingerprints in a keychain, where the query came to `run`: a query that fails or writes
/// nothing found no certificate.
pub open spec fn keychain_answer(
    keychain: Seq<char>,
    run: Result<ProcessOutputValue, Seq<Seq<char>>>,
) -> Result<Seq<Seq<char>>, Seq<Seq<char>>> {
    match run {
        Err(causes) => Err(seq!["failed to query "@ + keychain] + causes),
        Ok(output) => if !output.success || output.stdout.len() == 0 {
            Ok(Seq::<Seq<char>>::empty())
        } else {
            Ok(hash_lines(text_lines(utf8_text(output.stdout))))
        },
    }
}

/// The fingerprints in a keychain, where the query came to `run`.
pub fn macos_keychain_cert_hashes(keychain: &str, run: Result<ProcessOutput, Failure>) -> (hashes:
    Result<Vec<String>, Failure>)
    ensures
        hashes_outcome(hashes) == keychain_answer(keychain@, run_value(run)),
{
    match run {
        Err(error) => Err(error.context("failed to query ".to_string().concat(keychain))),
        Ok(output) => {
            if !output.success || output.stdout.len() == 0 {
                let none: Vec<String> = Vec::new();
                assert(texts(none@) =~= Seq::<Seq<char>>::empty());
                return Ok(none);
            }
            Ok(parse_security_sha256_hashes(&output.stdout))
        },
    }
}

/// The command that finds out whether the certificate in the file `path` is trusted.
pub open spec fn trust_query_text(path: Seq<char>) -> CommandText {
    command("security"@).with("verify-cert"@).with("-c"@).with(path).with("-p"@).with("basic"@)
}

/// The command that finds out whether the certificate in the file `path` is trusted.
pub fn trust_query(path: &str) -> (line: CommandLine)
    ensures
        line@ == trust_query_text(path@),
{
    CommandLine::new("security").arg("verify-cert").arg("-c").arg(path).arg("-p").arg("basic")
}

/// An answer, or why there is none.
pub open spec fn answer_outcome(result: Result<bool, Failure>) -> Result<bool, Seq<Seq<char>>> {
    match result {
        Ok(answer) => Ok(answer),
        Err(failure) => Err(failure@),
    }
}

/// Whether the certificate in the file `path` is trusted, where the question came to `run`.
pub open spec fn trust_answer(
    path: Seq<char>,
    run: Result<ProcessOutputValue, Seq<Seq<char>>>,
) -> Result<bool, Seq<Seq<char>>> {
    match run {
        Err(causes) => Err(seq!["failed to verify trust for "@ + path] + causes),
        Ok(output) => Ok(output.success),
    }
}

/// Whether the certificate in the file `path` is trusted, where the question came to `run`.
pub fn macos_ca_trusted(path: &str, run: Result<ProcessOutput, Failure>) -> (trusted: Result<
    bool,
    Failure,
>)
    ensures
        answer_outcome(trusted) == trust_answer(path@, run_value(run)),
{
    match run {
        Err(error) => Err(error.context("failed to verify trust for ".to_string().concat(path))),
        Ok(output) => Ok(output.success),
    }
}

// ---------------------------------------------------------------------------------------------
// The state of the certificate
// ---------------------------------------------------------------------------------------------

/// How the certificates in the keychains relate to the one that should be there.
#[derive(Debug, Clone, Copy, PartialEq, Eq, Structural)]
pub enum MacosCaState {
    /// None is there, or it is not trusted.
    Missing,
    /// It is there and trusted, and no other stands beside it in its keychain.
    Matching,
    /// Another one is there.
    Mismatched,
}

/// There are fingerprints, and each is the expected one.
pub open spec fn all_match(hashes: Seq<Seq<char>>, expected: Seq<char>) -> bool {
    hashes.len() > 0 && forall|i: int|
        0 <= i < hashes.len() ==> #[trigger] hashes[i] == expected
}

/// Some fingerprint is not the expected one.
pub open spec fn some_differs(hashes: Seq<Seq<char>>, expected: Seq<char>) -> bool {
    exists|i: int| 0 <= i < hashes.len() && #[trigger] hashes[i] != expected
}

/// How the certificates in the keychains relate to the one that should be there.
pub open spec fn ca_state(
    expected: Seq<char>,
    system: Seq<Seq<char>>,
    login: Seq<Seq<char>>,
    trusted: bool,
) -> MacosCaState {
    if trusted && (all_match(system, expected) || all_match(login, expected)) {
        MacosCaState::Matching
    } else if some_differs(system, expected) || some_differs(login, expected) {
        MacosCaState::Mismatched
    } else {
        MacosCaState::Missing
    }
}

/// Whether some fingerprint is not the expected one.
fn differs(hashes: &Vec<String>, expected: &str) -> (found: bool)
    ensures
        found == some_differs(texts(hashes@), expected@),
{
    for i in 0..hashes.len()
        invariant
            forall|j: int| 0 <= j < i ==> #[trigger] texts(hashes@)[j] == expected@,
    {
        if !same_text(hashes[i].as_str(), expected) {
            assert(texts(hashes@)[i as int] != expected@);
            return true;
        }
    }
    false
}

/// How the certificates in the keychains relate to the one with the fingerprint `expected_hash`.
pub fn compare_hashes(
    expected_hash: &str,
    system_hashes: &Vec<String>,
    login_hashes: &Vec<String>,
    trusted: bool,
) -> (state: MacosCaState)
    ensures
        state == ca_state(expected_hash@, texts(system_hashes@), texts(login_hashes@), trusted),
{
    let system_differs = differs(system_hashes, expected_hash);
    let login_differs = differs(login_hashes, expected_hash);
    let system_matches = system_hashes.len() > 0 && !system_differs;
    let login_matches = login_hashes.len() > 0 && !login_differs;
    if trusted && (system_matches || login_matches) {
        MacosCaState::Matching
    } else if system_differs || login_differs {
        MacosCaState::Mismatched
    } else {
        MacosCaState::Missing
    }
}

// ---------------------------------------------------------------------------------------------
// Finding the state out
// ---------------------------------------------------------------------------------------------

/// How far the questions for the state of the certificate have come.
#[derive(Debug)]
pub enum StatePhase {
    /// The fingerprint of the certificate is being asked for.
    Fingerprint,
    /// The keychain of the system is being asked.
    System { expected: String },
    /// The user at the console is being asked for.
    Console { expected: String, system: Vec<String> },
    /// The login keychain is being asked.
    Login { expected: String, system: Vec<String>, keychain: String },
    /// The trust in the certificate is being asked for.
    Trust { expected: String, system: Vec<String>, login: Vec<String> },
    /// There is nothing more to ask.
    Over,
}

/// How far the questions have come, as values.
pub enum StatePhaseValue {
    Fingerprint,
    System { expected: Seq<char> },
    Console { expected: Seq<char>, system: Seq<Seq<char>> },
    Login { expected: Seq<char>, system: Seq<Seq<char>>, keychain: Seq<char> },
    Trust { expected: Seq<char>, system: Seq<Seq<char>>, login: Seq<Seq<char>> },
    Over,
}

impl View for StatePhase {
    type V = StatePhaseValue;

    open spec fn view(&self) -> StatePhaseValue {
        match self {
            StatePhase::Fingerprint => StatePhaseValue::Fingerprint,
            StatePhase::System { expected } => StatePhaseValue::System { expected: expected@ },
            StatePhase::Console { expected, system } => StatePhaseValue::Console {
                expected: expected@,
                system: texts(system@),
            },
            StatePhase::Login { expected, system, keychain } => StatePhaseValue::Login {
                expected: expected@,
                system: texts(system@),
                keychain: keychain@,
            },
            StatePhase::Trust { expected, system, login } => StatePhaseValue::Trust {
                expected: expected@,
                system: texts(system@),
                login: texts(login@),
            },
            StatePhase::Over => StatePhaseValue::Over,
        }
    }
}

/// The next thing to do to find the state out.
#[derive(Debug)]
pub enum StateRequest {
    /// Run a command to its end.
    Run(CommandLine),
    /// The state is known, or cannot be found out.
    Finish(Result<MacosCaState, Failure>),
}

/// The next thing to do to find the state out, as values.
pub enum StateRequestValue {
    Run(CommandText),
    Finish(Result<MacosCaState, Seq<Seq<char>>>),
}

/// The state of the certificate, or why it is not known.
pub open spec fn ca_state_outcome(result: Result<MacosCaState, Failure>) -> Result<
    MacosCaState,
    Seq<Seq<char>>,
> {
    match result {
        Ok(state) => Ok(state),
        Err(failure) => Err(failure@),
    }
}

impl View for StateRequest {
    type V = StateRequestValue;

    open spec fn view(&self) -> StateRequestValue {
        match self {
            StateRequest::Run(line) => StateRequestValue::Run(line@),
            StateRequest::Finish(result) => StateRequestValue::Finish(ca_state_outcome(*result)),
        }
    }
}

/// The questions are at an end, because one of them has no answer.
pub open spec fn unknown(causes: Seq<Seq<char>>) -> (StatePhaseValue, StateRequestValue) {
    (StatePhaseValue::Over, StateRequestValue::Finish(Err(causes)))
}

/// The phase that follows where a command came to `run`, and the next thing to do.
pub open spec fn next_question(
    cert_path: Seq<char>,
    common_name: Seq<char>,
    phase: StatePhaseValue,
    run: Result<ProcessOutputValue, Seq<Seq<char>>>,
) -> (StatePhaseValue, StateRequestValue) {
    match phase {
        StatePhaseValue::Fingerprint => match fingerprint_answer(cert_path, run) {
            Err(causes) => unknown(causes),
            Ok(expected) => (
                (StatePhaseValue::System { expected }),
                StateRequestValue::Run(keychain_query_text(common_name, system_keychain())),
            ),
        },
        StatePhaseValue::System { expected } => match keychain_answer(system_keychain(), run) {
            Err(causes) => unknown(causes),
            Ok(system) => (
                (StatePhaseValue::Console { expected, system }),
                StateRequestValue::Run(console_user_text()),
            ),
        },
        StatePhaseValue::Console { expected, system } => match console_answer(run) {
            Some(keychain) => (
                (StatePhaseValue::Login { expected, system, keychain }),
                StateRequestValue::Run(keychain_query_text(common_name, keychain)),
            ),
            None => (
                (StatePhaseValue::Trust { expected, system, login: Seq::empty() }),
                StateRequestValue::Run(trust_query_text(cert_path)),
            ),
        },
        StatePhaseValue::Login { expected, system, keychain } => match keychain_answer(
            keychain,
            run,
        ) {
            Err(causes) => unknown(causes),
            Ok(login) => (
                (StatePhaseValue::Trust { expected, system, login }),
                StateRequestValue::Run(trust_query_text(cert_path)),
            ),
        },
        StatePhaseValue::Trust { expected, system, login } => match trust_answer(cert_path, run) {
            Err(causes) => unknown(causes),
            Ok(trusted) => (
                StatePhaseValue::Over,
                StateRequestValue::Finish(Ok(ca_state(expected, system, login, trusted))),
            ),
        },
        StatePhaseValue::Over => (
            StatePhaseValue::Over,
            StateRequestValue::Run(fingerprint_text(cert_path)),
        ),
    }
}

/// The questions for the state of the certificate in a file.
#[derive(Debug)]
pub struct StateRun {
    pub cert_path: String,
    pub common_name: String,
    pub phase: StatePhase,
}

impl StateRun {
    /// Begins with the questions, with the first thing to do.
    pub fn macos_ca_state(cert_path: &str, common_name: &str) -> (begun: (StateRun, StateRequest))
        ensures
            begun.0.cert_path@ == cert_path@,
            begun.0.common_name@ == common_name@,
            begun.0.phase@ is Fingerprint,
            begun.1@ == StateRequestValue::Run(fingerprint_text(cert_path@)),
    {
        (
            StateRun {
                cert_path: cert_path.to_string(),
                common_name: common_name.to_string(),
                phase: StatePhase::Fingerprint,
            },
            StateRequest::Run(fingerprint_command(cert_path)),
        )
    }

    /// Goes on after a command came to `run`, with the next thing to do.
    pub fn resume(self, run: Result<ProcessOutput, Failure>) -> (next: (StateRun, StateRequest))
        requires
            !(self.phase@ is Over),
        ensures
            next.0.cert_path@ == self.cert_path@,
            next.0.common_name@ == self.common_name@,
            (next.0.phase@, next.1@) == next_question(
                self.cert_path@,
                self.common_name@,
                self.phase@,
                run_value(run),
            ),
    {
        let cert_path = self.cert_path;
        let common_name = self.common_name;
        let (phase, request) = match self.phase {
            StatePhase::Fingerprint => match certificate_sha256(cert_path.as_str(), run) {
                Err(failure) => (StatePhase::Over, StateRequest::Finish(Err(failure))),
                Ok(expected) => (
                    StatePhase::System { expected },
                    StateRequest::Run(
                        keychain_query(common_name.as_str(), "/Library/Keychains/System.keychain"),
                    ),
                ),
            },
            StatePhase::System { expected } => match macos_keychain_cert_hashes(
                "/Library/Keychains/System.keychain",
                run,
            ) {
                Err(failure) => (StatePhase::Over, StateRequest::Finish(Err(failure))),
                Ok(system) => (
                    StatePhase::Console { expected, system },
                    StateRequest::Run(console_user_command()),
                ),
            },
            StatePhase::Console { expected, system } => match macos_login_keychain_path(run) {
                Some(keychain) => {
                    let query = keychain_query(common_name.as_str(), keychain.as_str());
                    (StatePhase::Login { expected, system, keychain }, StateRequest::Run(query))
                },
                None => {
                    let login: Vec<String> = Vec::new();
                    assert(texts(login@) =~= Seq::<Seq<char>>::empty());
                    let query = trust_query(cert_path.as_str());
                    (StatePhase::Trust { expected, system, login }, StateRequest::Run(query))
                },
            },
            StatePhase::Login { expected, system, keychain } => match macos_keychain_cert_hashes(
                keychain.as_str(),
                run,
            ) {
                Err(failure) => (StatePhase::Over, StateRequest::Finish(Err(failure))),
                Ok(login) => (
                    StatePhase::Trust { expected, system, login },
                    StateRequest::Run(trust_query(cert_path.as_str())),
                ),
            },
            StatePhase::Trust { expected, system, login } => match macos_ca_trusted(
                cert_path.as_str(),
                run,
            ) {
                Err(failure) => (StatePhase::Over, StateRequest::Finish(Err(failure))),
                Ok(trusted) => {
                    let state = compare_hashes(expected.as_str(), &system, &login, trusted);
                    (StatePhase::Over, StateRequest::Finish(Ok(state)))
                },
            },
            StatePhase::Over => (
                StatePhase::Over,
                StateRequest::Run(fingerprint_command(cert_path.as_str())),
            ),
        };
        (StateRun { cert_path, common_name, phase }, request)
    }
}

/// The state of the certificate, where every command comes to what `answer` says: the answers in
/// their order, of which the first that is a failure is the result.
pub open spec fn asked_state(
    cert_path: Seq<char>,
    common_name: Seq<char>,
    answer: spec_fn(CommandText) -> Result<ProcessOutputValue, Seq<Seq<char>>>,
) -> Result<MacosCaState, Seq<Seq<char>>> {
    let expected = fingerprint_answer(cert_path, answer(fingerprint_text(cert_path)));
    let system = keychain_answer(
        system_keychain(),
        answer(keychain_query_text(common_name, system_keychain())),
    );
    let login = match console_answer(answer(console_user_text())) {
        Some(keychain) => keychain_answer(
            keychain,
            answer(keychain_query_text(common_name, keychain)),
        ),
        None => Ok(Seq::empty()),
    };
    let trusted = trust_answer(cert_path, answer(trust_query_text(cert_path)));
    match (expected, system, login, trusted) {
        (Err(causes), _, _, _) => Err(causes),
        (_, Err(causes), _, _) => Err(causes),
        (_, _, Err(causes), _) => Err(causes),
        (_, _, _, Err(causes)) => Err(causes),
        (Ok(expected), Ok(system), Ok(login), Ok(trusted)) => Ok(
            ca_state(expected, system, login, trusted),
        ),
    }
}

/// How many questions may still follow.
pub open spec fn questions_left(phase: StatePhaseValue) -> nat {
    match phase {
        StatePhaseValue::Fingerprint => 5,
        StatePhaseValue::System { .. } => 4,
        StatePhaseValue::Console { .. } => 3,
        StatePhaseValue::Login { .. } => 2,
        StatePhaseValue::Trust { .. } => 1,
        StatePhaseValue::Over => 0,
    }
}

/// What the questions come to from `phase` on, where every command comes to what `answer` says.
pub open spec fn questions_result(
    cert_path: Seq<char>,
    common_name: Seq<char>,
    phase: StatePhaseValue,
    request: StateRequestValue,
    answer: spec_fn(CommandText) -> Result<ProcessOutputValue, Seq<Seq<char>>>,
) -> Result<MacosCaState, Seq<Seq<char>>>
    decreases questions_left(phase),
{
    match request {
        StateRequestValue::Finish(result) => result,
        StateRequestValue::Run(line) => if phase is Over {
            Err(Seq::empty())
        } else {
            let next = next_question(cert_path, common_name, phase, answer(line));
            questions_result(cert_path, common_name, next.0, next.1, answer)
        },
    }
}

// ---------------------------------------------------------------------------------------------
// Laws
// ---------------------------------------------------------------------------------------------

/// A certificate that alone is installed recognises itself: where `openssl` writes its
/// fingerprint with colons and `security` writes the same digits without them, in whatever case,
/// the state is `Matching` once it is trusted, and never `Mismatched`.
pub proof fn law_certificate_recognises_itself(colons: Seq<char>, plain: Seq<char>, trusted: bool)
    requires
        normal_hash(colons) == normal_hash(plain),
        forall|i: int| 0 <= i < colons.len() ==> #[trigger] colons[i] != '\n' && colons[i] != '\r',
        forall|i: int| 0 <= i < plain.len() ==> #[trigger] plain[i] != '\n' && plain[i] != '\r',
    ensures
        fingerprint_in("sha256 Fingerprint="@ + colons + "\n"@) == Some(normal_hash(plain)),
        hash_lines(text_lines("SHA-256 hash: "@ + plain + "\n"@)) == seq![normal_hash(plain)],
        ca_state(
            normal_hash(colons),
            hash_lines(text_lines("SHA-256 hash: "@ + plain + "\n"@)),
            Seq::empty(),
            trusted,
        ) == (if trusted {
            MacosCaState::Matching
        } else {
            MacosCaState::Missing
        }),
{
    reveal_strlit("sha256 Fingerprint=");
    reveal_strlit("SHA-256 hash: ");
    reveal_strlit("\n");
    let fingerprint = "sha256 Fingerprint="@ + colons;
    lemma_one_line(fingerprint);
    lemma_first_index_is(fingerprint, '=', 18);
    assert(fingerprint.skip(19) =~= colons);
    assert(fingerprint + "\n"@ =~= fingerprint.push('\n'));
    reveal_with_fuel(first_value, 2);
    let hash = "SHA-256 hash: "@ + plain;
    lemma_one_line(hash);
    assert(hash + "\n"@ =~= hash.push('\n'));
    assert(hash.take(14) =~= "SHA-256 hash: "@);
    assert(hash.skip(14) =~= plain);
    reveal_with_fuel(hash_lines, 2);
    assert(seq![hash].drop_last() =~= Seq::<Seq<char>>::empty());
    assert(hash_lines(seq![hash]) =~= seq![normal_hash(plain)]);
}

/// A text without line ends is the only line of itself and a line feed.
proof fn lemma_one_line(s: Seq<char>)
    requires
        s.len() > 0,
        forall|i: int| 0 <= i < s.len() ==> #[trigger] s[i] != '\n' && s[i] != '\r',
    ensures
        text_lines(s.push('\n')) == seq![s],
{
    let line = s.push('\n');
    lemma_first_index_is(line, '\n', s.len() as int);
    assert(line.take(s.len() as int) =~= s);
    assert(s.last() == s[s.len() - 1]);
    assert(without_cr(s) == s);
    assert(line.skip(s.len() as int + 1) =~= Seq::<char>::empty());
    assert(text_lines(Seq::<char>::empty()) =~= Seq::<Seq<char>>::empty());
    assert(seq![s] + Seq::<Seq<char>>::empty() =~= seq![s]);
}

/// The questions, asked one after the other, come to the state that all the answers together give,
/// and the first answer that is a failure ends them with that failure.
pub proof fn law_questions_give_the_state(
    cert_path: Seq<char>,
    common_name: Seq<char>,
    answer: spec_fn(CommandText) -> Result<ProcessOutputValue, Seq<Seq<char>>>,
)
    ensures
        questions_result(
            cert_path,
            common_name,
            StatePhaseValue::Fingerprint,
            StateRequestValue::Run(fingerprint_text(cert_path)),
            answer,
        ) == asked_state(cert_path, common_name, answer),
{
    reveal_with_fuel(questions_result, 6);
}

/// With no certificate in either keychain the state is `Missing`, and a certificate that differs
/// from the expected one keeps the state from being `Missing`.
pub proof fn law_state_notices_every_certificate(
    expected: Seq<char>,
    system: Seq<Seq<char>>,
    login: Seq<Seq<char>>,
    trusted: bool,
)
    ensures
        system.len() == 0 && login.len() == 0 ==> ca_state(expected, system, login, trusted)
            == MacosCaState::Missing,
        some_differs(system, expected) || some_differs(login, expected) ==> ca_state(
            expected,
            system,
            login,
            trusted,
        ) != MacosCaState::Missing,
        !trusted ==> ca_state(expected, system, login, trusted) != MacosCaState::Matching,
{
}

/// The commands that the state of the certificate is found out by.
pub proof fn law_questions_are_asked_by_these_commands(
    path: Seq<char>,
    common_name: Seq<char>,
    keychain: Seq<char>,
)
    ensures
        system_keychain() == "/Library/Keychains/System.keychain"@,
        console_user_text().program == "stat"@,
        console_user_text().args == seq!["-f"@, "%Su"@, "/dev/console"@],
        fingerprint_text(path).program == "openssl"@,
        fingerprint_text(path).args == seq![
            "x509"@,
            "-in"@,
            path,
            "-noout"@,
            "-fingerprint"@,
            "-sha256"@,
        ],
        keychain_query_text(common_name, keychain).program == "security"@,
        keychain_query_text(common_name, keychain).args == seq![
            "find-certificate"@,
            "-a"@,
            "-c"@,
            common_name,
            "-Z"@,
            keychain,
        ],
        trust_query_text(path).program == "security"@,
        trust_query_text(path).args == seq!["verify-cert"@, "-c"@, path, "-p"@, "basic"@],
{
    assert(console_user_text().args =~= seq!["-f"@, "%Su"@, "/dev/console"@]);
    assert(fingerprint_text(path).args =~= seq![
        "x509"@,
        "-in"@,
        path,
        "-noout"@,
        "-fingerprint"@,
        "-sha256"@,
    ]);
    assert(keychain_query_text(common_name, keychain).args =~= seq![
        "find-certificate"@,
        "-a"@,
        "-c"@,
        common_name,
        "-Z"@,
        keychain,
    ]);
    assert(trust_query_text(path).args =~= seq!["verify-cert"@, "-c"@, path, "-p"@, "basic"@]);
}

/// There is a login keychain exactly where somebody but root is at the console, and it lies in their
/// library below the directory of the users.
pub proof fn law_login_keychain_is_that_of_the_user(user: Seq<char>)
    ensures
        login_keychain(user) is None <==> user.len() == 0 || user == "root"@,
        login_keychain(user) is Some ==> login_keychain(user)->0 == path_below(
            path_below("/Users"@, user),
            "Library/Keychains/login.keychain-db"@,
        ),
{
    reveal_strlit("/Users");
    reveal_strlit("Library");
    reveal_strlit("Keychains");
    reveal_strlit("login.keychain-db");
    reveal_strlit("Library/Keychains/login.keychain-db");
    let home = path_below("/Users"@, user);
    let library = path_below(home, "Library"@);
    let keychains = path_below(library, "Keychains"@);
    let tail = "Library/Keychains/login.keychain-db"@;
    assert(tail =~= "Library"@ + seq!['/'] + "Keychains"@ + seq!['/'] + "login.keychain-db"@);
    assert(library.last() == 'y');
    assert(keychains =~= library + seq!['/'] + "Keychains"@);
    assert(keychains.last() == 's');
    assert(path_below(keychains, "login.keychain-db"@) =~= path_below(home, tail));
}

/// The user at the console counts where the question for them succeeded; the certificate goes into their
/// keychain, and into that of the system where there is none.
pub proof fn law_console_decides_the_keychain(
    output: ProcessOutputValue,
    causes: Seq<Seq<char>>,
    keychain: Seq<char>,
)
    ensures
        console_answer(Err(causes)) is None,
        console_answer(Ok(output)) == (if output.success {
            login_keychain(trimmed(utf8_text(output.stdout)))
        } else {
            None
        }),
        install_keychain(Some(keychain)) == keychain,
        install_keychain(None) == "/Library/Keychains/System.keychain"@,
{
}

/// Fingerprints are compared by their digits: the white space around them, the colons in them and the case
/// of their letters do not matter, and nothing else is left out.
pub proof fn law_fingerprints_are_compared_by_digits(hash: Seq<char>)
    ensures
        normal_hash(hash) == ascii_upper(trimmed(hash).filter(|c: char| c != ':')),
{
    reveal_strlit("");
    lemma_replaced_is_filtered(trimmed(hash));
}

proof fn lemma_replaced_is_filtered(s: Seq<char>)
    ensures
        replaced(s, ':', ""@) == s.filter(|c: char| c != ':'),
    decreases s.len(),
{
    reveal_strlit("");
    reveal(Seq::filter);
    if s.len() > 0 {
        lemma_replaced_is_filtered(s.drop_last());
        let less = replaced(s.drop_last(), ':', ""@);
        if s.last() == ':' {
            assert(less + ""@ =~= less);
        } else {
            assert(less + seq![s.last()] =~= less.push(s.last()));
        }
    }
}

/// The fingerprint is what follows the first equals sign of the first line that has one.
pub proof fn law_fingerprint_follows_the_first_equals_sign(
    before: Seq<Seq<char>>,
    key: Seq<char>,
    value: Seq<char>,
    after: Seq<Seq<char>>,
)
    requires
        forall|i: int, j: int|
            0 <= i < before.len() && 0 <= j < before[i].len() ==> #[trigger] before[i][j] != '=',
        forall|j: int| 0 <= j < key.len() ==> #[trigger] key[j] != '=',
    ensures
        first_value(before) is None,
        first_value(before + seq![key + seq!['='] + value] + after) == Some(value),
    decreases before.len(),
{
    let line = key + seq!['='] + value;
    let all = before + seq![line] + after;
    if before.len() == 0 {
        lemma_first_index_is(line, '=', key.len() as int);
        assert(line.skip(key.len() as int + 1) =~= value);
    } else {
        assert forall|j: int| 0 <= j < before[0].len() implies before[0][j] != '=' by {}
        lemma_first_index_is(before[0], '=', before[0].len() as int);
        let rest = before.drop_first();
        assert forall|i: int, j: int|
            0 <= i < rest.len() && 0 <= j < rest[i].len() implies #[trigger] rest[i][j] != '=' by {
            assert(rest[i] == before[i + 1]);
            assert(before[i + 1][j] != '=');
        }
        law_fingerprint_follows_the_first_equals_sign(rest, key, value, after);
        assert(all.drop_first() =~= rest + seq![line] + after);
        assert(all[0] == before[0]);
    }
}

/// A fingerprint is known exactly where the command ran, succeeded and wrote one; each of the three has its
/// message where it fails.
pub proof fn law_fingerprint_is_known_or_explained(
    path: Seq<char>,
    output: ProcessOutputValue,
    causes: Seq<Seq<char>>,
)
    ensures
        ({
            let found = first_value(text_lines(utf8_text(output.stdout)));
            let answer = fingerprint_answer(path, Ok(output));
            &&& answer is Ok <==> output.success && found is Some
            &&& answer is Ok ==> answer->Ok_0 == normal_hash(found->0)
            &&& !output.success ==> answer->Err_0 == seq![
                "openssl fingerprint failed for "@ + path + ": "@ + trimmed(utf8_text(output.stderr)),
            ]
            &&& output.success && found is None ==> answer->Err_0 == seq![
                "failed to parse certificate fingerprint for "@ + path,
            ]
        }),
        fingerprint_answer(path, Err(causes)) == Err::<Seq<char>, Seq<Seq<char>>>(
            seq!["failed to fingerprint "@ + path] + causes,
        ),
{
}

/// The fingerprints of a keychain are those of the lines that give one, in their order; other lines do not
/// matter.
pub proof fn law_keychain_lines_are_read_in_order(
    a: Seq<Seq<char>>,
    b: Seq<Seq<char>>,
    hash: Seq<char>,
    line: Seq<char>,
)
    ensures
        hash_lines(a + b) == hash_lines(a) + hash_lines(b),
        hash_lines(seq!["SHA-256 hash: "@ + hash]) == seq![normal_hash(hash)],
        !starts_with(line, "SHA-256 hash: "@) ==> hash_lines(seq![line]).len() == 0,
    decreases b.len(),
{
    let prefix = "SHA-256 hash: "@;
    reveal_with_fuel(hash_lines, 2);
    assert(seq![prefix + hash].drop_last() =~= Seq::<Seq<char>>::empty());
    assert(seq![line].drop_last() =~= Seq::<Seq<char>>::empty());
    assert((prefix + hash).take(prefix.len() as int) =~= prefix);
    assert((prefix + hash).skip(prefix.len() as int) =~= hash);
    assert(hash_lines(seq![prefix + hash]) =~= seq![normal_hash(hash)]);
    if b.len() == 0 {
        assert(a + b =~= a);
        assert(hash_lines(a) + hash_lines(b) =~= hash_lines(a));
    } else {
        law_keychain_lines_are_read_in_order(a, b.drop_last(), hash, line);
        assert((a + b).drop_last() =~= a + b.drop_last());
        assert(hash_lines(a + b) =~= hash_lines(a) + hash_lines(b));
    }
}

/// A keychain that could not be asked is a failure; one that has nothing to say has no certificate. The
/// trust in a certificate is whether the question for it succeeded.
pub proof fn law_answers_are_taken_at_their_word(
    subject: Seq<char>,
    output: ProcessOutputValue,
    causes: Seq<Seq<char>>,
)
    ensures
        keychain_answer(subject, Err(causes)) == Err::<Seq<Seq<char>>, Seq<Seq<char>>>(
            seq!["failed to query "@ + subject] + causes,
        ),
        keychain_answer(subject, Ok(output)) is Ok,
        keychain_answer(subject, Ok(output))->Ok_0 == (if output.success && output.stdout.len() > 0 {
            hash_lines(text_lines(utf8_text(output.stdout)))
        } else {
            Seq::empty()
        }),
        trust_answer(subject, Err(causes)) == Err::<bool, Seq<Seq<char>>>(
            seq!["failed to verify trust for "@ + subject] + causes,
        ),
        trust_answer(subject, Ok(output)) == Ok::<bool, Seq<Seq<char>>>(output.success),
{
}

/// The certificate matches exactly where it is trusted and one of the keychains has it and no other; else it
/// is mismatched exactly where some keychain has another.
pub proof fn law_state_is_that_of_the_keychains(
    expected: Seq<char>,
    system: Seq<Seq<char>>,
    login: Seq<Seq<char>>,
    trusted: bool,
)
    ensures
        ({
            let state = ca_state(expected, system, login, trusted);
            let other = system.any(|hash: Seq<char>| hash != expected) || login.any(
                |hash: Seq<char>| hash != expected,
            );
            let alone = (system.len() > 0 && system.all(|hash: Seq<char>| hash == expected)) || (
            login.len() > 0 && login.all(|hash: Seq<char>| hash == expected));
            &&& state is Matching <==> trusted && alone
            &&& state is Mismatched <==> !(trusted && alone) && other
            &&& state is Missing <==> !(trusted && alone) && !other
        }),
{
    let differs = |hash: Seq<char>| hash != expected;
    let equals = |hash: Seq<char>| hash == expected;
    if some_differs(system, expected) {
        let i = choose|i: int| 0 <= i < system.len() && #[trigger] system[i] != expected;
        assert(differs(system[i]));
    }
    if some_differs(login, expected) {
        let i = choose|i: int| 0 <= i < login.len() && #[trigger] login[i] != expected;
        assert(differs(login[i]));
    }
    if system.all(equals) {
        assert forall|i: int| 0 <= i < system.len() implies #[trigger] system[i] == expected by {
            assert(equals(system[i]));
        }
    }
    if login.all(equals) {
        assert forall|i: int| 0 <= i < login.len() implies #[trigger] login[i] == expected by {
            assert(equals(login[i]));
        }
    }
}

/// The questions come in their order, each with what is known by now: first the fingerprint, then the
/// keychain of the system, the user at the console, their keychain where there is one, and the trust, after
/// which the state is known.
pub proof fn law_questions_come_in_order(
    cert_path: Seq<char>,
    common_name: Seq<char>,
    expected: Seq<char>,
    system: Seq<Seq<char>>,
    login: Seq<Seq<char>>,
    keychain: Seq<char>,
    run: Result<ProcessOutputValue, Seq<Seq<char>>>,
)
    ensures
        fingerprint_answer(cert_path, run) == Ok::<Seq<char>, Seq<Seq<char>>>(expected)
            ==> next_question(cert_path, common_name, StatePhaseValue::Fingerprint, run) == (
            (StatePhaseValue::System { expected }),
            StateRequestValue::Run(
                keychain_query_text(common_name, "/Library/Keychains/System.keychain"@),
            ),
        ),
        keychain_answer("/Library/Keychains/System.keychain"@, run) == Ok::<
            Seq<Seq<char>>,
            Seq<Seq<char>>,
        >(system) ==> next_question(
            cert_path,
            common_name,
            (StatePhaseValue::System { expected }),
            run,
        ) == (
            (StatePhaseValue::Console { expected, system }),
            StateRequestValue::Run(console_user_text()),
        ),
        console_answer(run) == Some(keychain) ==> next_question(
            cert_path,
            common_name,
            (StatePhaseValue::Console { expected, system }),
            run,
        ) == (
            (StatePhaseValue::Login { expected, system, keychain }),
            StateRequestValue::Run(keychain_query_text(common_name, keychain)),
        ),
        console_answer(run) is None ==> next_question(
            cert_path,
            common_name,
            (StatePhaseValue::Console { expected, system }),
            run,
        ) == (
            (StatePhaseValue::Trust { expected, system, login: Seq::empty() }),
            StateRequestValue::Run(trust_query_text(cert_path)),
        ),
        keychain_answer(keychain, run) == Ok::<Seq<Seq<char>>, Seq<Seq<char>>>(login)
            ==> next_question(
            cert_path,
            common_name,
            (StatePhaseValue::Login { expected, system, keychain }),
            run,
        ) == (
            (StatePhaseValue::Trust { expected, system, login }),
            StateRequestValue::Run(trust_query_text(cert_path)),
        ),
        trust_answer(cert_path, run) is Ok ==> next_question(
            cert_path,
            common_name,
            (StatePhaseValue::Trust { expected, system, login }),
            run,
        ) == (
            StatePhaseValue::Over,
            StateRequestValue::Finish(
                Ok(ca_state(expected, system, login, trust_answer(cert_path, run)->Ok_0)),
            ),
        ),
{
}

/// A question that has no answer ends the questions with its failure; only the user at the console may stay
/// unknown.
pub proof fn law_unanswered_questions_are_the_end(
    cert_path: Seq<char>,
    common_name: Seq<char>,
    phase: StatePhaseValue,
    causes: Seq<Seq<char>>,
)
    requires
        !(phase is Over) && !(phase is Console),
    ensures
        ({
            let next = next_question(cert_path, common_name, phase, Err(causes));
            &&& next.0 is Over
            &&& next.1 == StateRequestValue::Finish(
                Err(
                    seq![
                        match phase {
                            StatePhaseValue::Fingerprint => "failed to fingerprint "@ + cert_path,
                            StatePhaseValue::System { .. } => "failed to query "@
                                + "/Library/Keychains/System.keychain"@,
                            StatePhaseValue::Login { keychain, .. } => "failed to query "@ + keychain,
                            _ => "failed to verify trust for "@ + cert_path,
                        },
                    ] + causes,
                ),
            )
        }),
{
}

} // verus!
