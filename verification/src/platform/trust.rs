//! Installing the root certificate and removing it, on each platform.

use vstd::prelude::*;
use vstd::string::*;

use crate::command::{
    command, does, ignored, law_optional_plans_never_fail, no_steps, plan_result, required, runs,
    Action, ActionValue, CommandLine, CommandText, Plan, Policy, StepValue,
};
use crate::failure::Failure;
use crate::file_path::{FilePath, FilePathValue};
use crate::platform::linux_trust::TrustStore;
use crate::platform::macos_trust::{
    ca_state_outcome, install_keychain, system_keychain, MacosCaState,
};
use crate::platform::Platform;
use crate::text::{opt_text, same_text};

verus! {

/// The line that is printed once the certificate is installed.
pub open spec fn installed_line(common_name: Seq<char>) -> Seq<char> {
    "installed root certificate: "@ + common_name
}

/// The PowerShell command that installs the certificate in the file `cert_path`.
pub open spec fn powershell_import(cert_path: Seq<char>) -> CommandText {
    command("powershell"@).with("-NoProfile"@).with("-Command"@).with(
        "Import-Certificate -FilePath '"@ + cert_path
            + "' -CertStoreLocation Cert:\\LocalMachine\\Root"@,
    )
}

/// The PowerShell command that removes the certificates whose subject holds `common_name`.
pub open spec fn powershell_remove(common_name: Seq<char>) -> CommandText {
    command("powershell"@).with("-NoProfile"@).with("-Command"@).with(
        "Get-ChildItem Cert:\\LocalMachine\\Root\\* | Where-Object { $_.Subject -like '*"@
            + common_name + "*' } | Remove-Item -Force"@,
    )
}

/// The command that makes macOS trust a certificate, for all users where it goes into the
/// keychain of the system.
pub open spec fn add_trusted(keychain: Seq<char>, cert_path: Seq<char>) -> CommandText {
    let line = command("security"@).with("add-trusted-cert"@);
    let scoped = if keychain == system_keychain() {
        line.with("-d"@)
    } else {
        line
    };
    scoped.with("-r"@).with("trustRoot"@).with("-k"@).with(keychain).with(cert_path)
}

/// The command that takes the certificates with a common name out of a keychain.
pub open spec fn delete_certificate(common_name: Seq<char>, keychain: Seq<char>) -> CommandText {
    command("security"@).with("delete-certificate"@).with("-c"@).with(common_name).with(keychain)
}

/// What was found out about the system before the certificate is installed or removed.
#[derive(Debug)]
pub struct TrustFacts {
    /// The keychain of macOS that the certificate is installed in.
    pub macos_keychain: String,
    /// The login keychain of macOS.
    pub macos_login_keychain: Option<String>,
    /// The trust store of Linux.
    pub linux_store: Option<TrustStore>,
    /// The file of the certificate in that store exists.
    pub linux_file_exists: bool,
}

/// What is to be done to install the root certificate. An older one with its name is removed
/// first, except on macOS, where a certificate that matches is left alone.
pub open spec fn install_plan<P>(
    platform: Platform,
    cert_path: FilePathValue<P>,
    common_name: Seq<char>,
    facts: TrustFacts,
    macos_state: MacosCaState,
) -> Seq<StepValue<P>> {
    let cleared = no_steps().push(ignored(ActionValue::UninstallCa));
    let done = required(ActionValue::Print(installed_line(common_name)));
    match platform {
        Platform::Windows => cleared.push(
            required(ActionValue::Run(powershell_import(cert_path.shown()))),
        ).push(done),
        Platform::Macos => {
            let add = required(ActionValue::Run(add_trusted(facts.macos_keychain@, cert_path.shown())));
            match macos_state {
                MacosCaState::Matching => no_steps().push(
                    required(
                        ActionValue::Print(
                            "root certificate already installed: "@ + common_name,
                        ),
                    ),
                ),
                MacosCaState::Missing => no_steps().push(add).push(done),
                MacosCaState::Mismatched => cleared.push(add).push(done),
            }
        },
        Platform::Android => cleared.push(required(ActionValue::InstallToAndroid)).push(done),
        _ => match facts.linux_store {
            None => cleared.push(
                required(ActionValue::Fail("unsupported Linux trust store layout"@)),
            ),
            Some(store) => {
                let copied = cleared.push(
                    required(ActionValue::CreateDir(
                            FilePathValue::Fixed(store.dir()),
                            FilePathValue::Fixed(store.file()),
                        )),
                ).push(
                    required(ActionValue::CopyFile(cert_path, FilePathValue::Fixed(store.file()))),
                ).push(
                    required(ActionValue::Run(store.refresh())),
                );
                if platform is Linux {
                    copied.push(required(ActionValue::InstallToNss)).push(
                        required(ActionValue::InstallToFirefox),
                    ).push(done)
                } else {
                    copied.push(done)
                }
            },
        },
    }
}

fn done_step<P>(common_name: &str) -> (action: Action<P>)
    ensures
        action@ == ActionValue::<P>::Print(installed_line(common_name@)),
{
    Action::Print("installed root certificate: ".to_string().concat(common_name))
}

/// The command that makes macOS trust the certificate in the file `cert_path`.
fn add_trusted_command(keychain: &str, cert_path: &str) -> (line: CommandLine)
    ensures
        line@ == add_trusted(keychain@, cert_path@),
{
    let line = CommandLine::new("security").arg("add-trusted-cert");
    let scoped = if same_text(keychain, "/Library/Keychains/System.keychain") {
        line.arg("-d")
    } else {
        line
    };
    scoped.arg("-r").arg("trustRoot").arg("-k").arg(keychain).arg(cert_path)
}

/// What is to be done, or why nothing can be.
pub open spec fn plan_outcome<P>(result: Result<Plan<P>, Failure>) -> Result<
    Seq<StepValue<P>>,
    Seq<Seq<char>>,
> {
    match result {
        Ok(plan) => Ok(plan@),
        Err(failure) => Err(failure@),
    }
}

/// What is to be done to install the root certificate, where finding out how the keychains of macOS
/// stand came to `macos_state`: on macOS, where that is not known, nothing is done.
pub open spec fn install_decision<P>(
    platform: Platform,
    cert_path: FilePathValue<P>,
    common_name: Seq<char>,
    facts: TrustFacts,
    macos_state: Result<MacosCaState, Seq<Seq<char>>>,
) -> Result<Seq<StepValue<P>>, Seq<Seq<char>>> {
    match macos_state {
        Ok(state) => Ok(install_plan(platform, cert_path, common_name, facts, state)),
        Err(causes) => if platform is Macos {
            Err(causes)
        } else {
            Ok(install_plan(platform, cert_path, common_name, facts, MacosCaState::Missing))
        },
    }
}

/// What is to be done to install the root certificate in the file `cert_path`. On macOS
/// `macos_state` is what finding out how the keychains stand came to; elsewhere it does not matter.
pub fn install_ca<P: Copy>(
    platform: Platform,
    cert_path: &FilePath<P>,
    common_name: &str,
    facts: &TrustFacts,
    macos_state: Result<MacosCaState, Failure>,
) -> (plan: Result<Plan<P>, Failure>)
    ensures
        plan_outcome(plan) == install_decision(
            platform,
            cert_path@,
            common_name@,
            *facts,
            ca_state_outcome(macos_state),
        ),
{
    match macos_state {
        Ok(state) => Ok(installation(platform, cert_path, common_name, facts, state)),
        Err(failure) => if matches!(platform, Platform::Macos) {
            Err(failure)
        } else {
            Ok(installation(platform, cert_path, common_name, facts, MacosCaState::Missing))
        },
    }
}

/// What is to be done to install the root certificate, where the keychains of macOS are known to
/// stand like this.
fn installation<P: Copy>(
    platform: Platform,
    cert_path: &FilePath<P>,
    common_name: &str,
    facts: &TrustFacts,
    macos_state: MacosCaState,
) -> (plan: Plan<P>)
    ensures
        plan@ == install_plan(platform, cert_path@, common_name@, *facts, macos_state),
{
    match platform {
        Platform::Windows => {
            let script = "Import-Certificate -FilePath '".to_string().concat(
                cert_path.text().as_str(),
            ).concat(
                "' -CertStoreLocation Cert:\\LocalMachine\\Root",
            );
            Plan::new().attempt(Action::UninstallCa).require(
                Action::Run(
                    CommandLine::new("powershell").arg("-NoProfile").arg("-Command").arg(
                        script.as_str(),
                    ),
                ),
            ).require(done_step(common_name))
        },
        Platform::Macos => {
            let add = Action::Run(add_trusted_command(
                    facts.macos_keychain.as_str(),
                    cert_path.text().as_str(),
                ));
            match macos_state {
                MacosCaState::Matching => Plan::new().require(
                    Action::Print(
                        "root certificate already installed: ".to_string().concat(common_name),
                    ),
                ),
                MacosCaState::Missing => Plan::new().require(add).require(done_step(common_name)),
                MacosCaState::Mismatched => Plan::new().attempt(Action::UninstallCa).require(
                    add,
                ).require(done_step(common_name)),
            }
        },
        Platform::Android => Plan::new().attempt(Action::UninstallCa).require(
            Action::InstallToAndroid,
        ).require(done_step(common_name)),
        _ => {
            let cleared = Plan::new().attempt(Action::UninstallCa);
            match facts.linux_store {
                None => cleared.require(
                    Action::Fail("unsupported Linux trust store layout".to_string()),
                ),
                Some(store) => {
                    let copied = cleared.require(
                        Action::CreateDir(
                            FilePath::Fixed(store.dir_path()),
                            FilePath::Fixed(store.file_path()),
                        ),
                    ).require(
                        Action::CopyFile(cert_path.again(), FilePath::Fixed(store.file_path())),
                    ).require(
                        Action::Run(store.refresh_command()),
                    );
                    if matches!(platform, Platform::Linux) {
                        copied.require(Action::InstallToNss).require(
                            Action::InstallToFirefox,
                        ).require(done_step(common_name))
                    } else {
                        copied.require(done_step(common_name))
                    }
                },
            }
        },
    }
}

/// What is to be done to remove the root certificate.
pub open spec fn uninstall_plan<P>(
    platform: Platform,
    common_name: Seq<char>,
    facts: TrustFacts,
) -> Seq<StepValue<P>> {
    match platform {
        Platform::Windows => no_steps().push(
            ignored(ActionValue::Run(powershell_remove(common_name))),
        ),
        Platform::Macos => {
            let system = no_steps().push(
                ignored(ActionValue::Run(delete_certificate(common_name, system_keychain()))),
            );
            match facts.macos_login_keychain {
                Some(keychain) => system.push(
                    ignored(ActionValue::Run(delete_certificate(common_name, keychain@))),
                ),
                None => system,
            }
        },
        Platform::Android => no_steps().push(required(ActionValue::UninstallFromAndroid)),
        _ => {
            let system = match facts.linux_store {
                None => no_steps(),
                Some(store) => {
                    let removed = if facts.linux_file_exists {
                        no_steps().push(
                            required(ActionValue::RemoveFile(FilePathValue::Fixed(store.file()))),
                        )
                    } else {
                        no_steps()
                    };
                    removed.push(required(ActionValue::Run(store.refresh())))
                },
            };
            if platform is Linux {
                system.push(required(ActionValue::UninstallFromNss)).push(
                    required(ActionValue::UninstallFromFirefox),
                )
            } else {
                system
            }
        },
    }
}

fn delete_certificate_command(common_name: &str, keychain: &str) -> (line: CommandLine)
    ensures
        line@ == delete_certificate(common_name@, keychain@),
{
    CommandLine::new("security").arg("delete-certificate").arg("-c").arg(common_name).arg(keychain)
}

/// What is to be done to remove the root certificate.
pub fn uninstall_ca<P>(platform: Platform, common_name: &str, facts: &TrustFacts) -> (plan: Plan<P>)
    ensures
        plan@ == uninstall_plan::<P>(platform, common_name@, *facts),
{
    match platform {
        Platform::Windows => {
            let script =
                "Get-ChildItem Cert:\\LocalMachine\\Root\\* | Where-Object { $_.Subject -like '*".to_string().concat(
            common_name).concat("*' } | Remove-Item -Force");
            Plan::new().attempt(
                Action::Run(
                    CommandLine::new("powershell").arg("-NoProfile").arg("-Command").arg(
                        script.as_str(),
                    ),
                ),
            )
        },
        Platform::Macos => {
            let system = Plan::new().attempt(
                Action::Run(
                    delete_certificate_command(common_name, "/Library/Keychains/System.keychain"),
                ),
            );
            match &facts.macos_login_keychain {
                Some(keychain) => system.attempt(
                    Action::Run(delete_certificate_command(common_name, keychain.as_str())),
                ),
                None => system,
            }
        },
        Platform::Android => Plan::new().require(Action::UninstallFromAndroid),
        _ => {
            let system = match facts.linux_store {
                None => Plan::new(),
                Some(store) => {
                    let removed = if facts.linux_file_exists {
                        Plan::new().require(Action::RemoveFile(FilePath::Fixed(store.file_path())))
                    } else {
                        Plan::new()
                    };
                    removed.require(Action::Run(store.refresh_command()))
                },
            };
            if matches!(platform, Platform::Linux) {
                system.require(Action::UninstallFromNss).require(Action::UninstallFromFirefox)
            } else {
                system
            }
        },
    }
}

// ---------------------------------------------------------------------------------------------
// Laws
// ---------------------------------------------------------------------------------------------

/// On Linux the removal takes back what the installation did: the file that was copied is the one
/// that is removed, the same command makes the system take note of either, and the databases of
/// the user follow in both.
pub proof fn law_linux_removal_undoes_installation<P>(
    cert_path: FilePathValue<P>,
    common_name: Seq<char>,
    facts: TrustFacts,
    later: TrustFacts,
    store: TrustStore,
    macos_state: MacosCaState,
)
    requires
        facts.linux_store == Some(store),
        later.linux_store == Some(store),
        later.linux_file_exists,
    ensures
        ({
            let install = install_plan(
                Platform::Linux,
                cert_path,
                common_name,
                facts,
                macos_state,
            );
            let remove = uninstall_plan::<P>(Platform::Linux, common_name, later);
            &&& does(install, ActionValue::CopyFile(cert_path, FilePathValue::Fixed(store.file())))
            &&& does(remove, ActionValue::RemoveFile(FilePathValue::Fixed(store.file())))
            &&& does(install, ActionValue::Run(store.refresh()))
            &&& does(remove, ActionValue::Run(store.refresh()))
            &&& does(install, ActionValue::InstallToNss)
            &&& does(remove, ActionValue::UninstallFromNss)
            &&& does(install, ActionValue::InstallToFirefox)
            &&& does(remove, ActionValue::UninstallFromFirefox)
        }),
{
    let install = install_plan(
                Platform::Linux,
                cert_path,
                common_name,
                facts,
                macos_state,
            );
    let remove = uninstall_plan::<P>(Platform::Linux, common_name, later);
    assert(install[2].action == ActionValue::CopyFile(cert_path, FilePathValue::Fixed(store.file())));
    assert(install[3].action == ActionValue::<P>::Run(store.refresh()));
    assert(install[4].action == ActionValue::<P>::InstallToNss);
    assert(install[5].action == ActionValue::<P>::InstallToFirefox);
    assert(remove[0].action == ActionValue::RemoveFile(FilePathValue::<P>::Fixed(store.file())));
    assert(remove[1].action == ActionValue::<P>::Run(store.refresh()));
    assert(remove[2].action == ActionValue::<P>::UninstallFromNss);
    assert(remove[3].action == ActionValue::<P>::UninstallFromFirefox);
}

/// On Windows and macOS the removal never fails, whatever the commands come to.
pub proof fn law_removal_is_a_courtesy<P>(
    platform: Platform,
    common_name: Seq<char>,
    facts: TrustFacts,
    results: spec_fn(ActionValue<P>) -> Result<(), Seq<Seq<char>>>,
)
    requires
        platform is Windows || platform is Macos,
    ensures
        plan_result(uninstall_plan(platform, common_name, facts), results) is Ok,
{
    law_optional_plans_never_fail(uninstall_plan(platform, common_name, facts), results);
}

/// An installation never adds to an older certificate: it either finds the certificate in place,
/// or finds none on macOS, or first removes what has its name. Where macOS cannot tell, it does
/// nothing.
pub proof fn law_installation_clears_first<P>(
    platform: Platform,
    cert_path: FilePathValue<P>,
    common_name: Seq<char>,
    facts: TrustFacts,
    state: MacosCaState,
    causes: Seq<Seq<char>>,
)
    ensures
        ({
            let plan = install_plan(platform, cert_path, common_name, facts, state);
            &&& plan.len() > 0
            &&& platform is Macos && !(state is Mismatched) || plan[0] == ignored(
                ActionValue::<P>::UninstallCa,
            )
            &&& platform is Macos && state is Matching ==> plan.len() == 1 && plan[0].action
                is Print
            &&& platform is Macos && state is Missing ==> !does(plan, ActionValue::UninstallCa)
        }),
        platform is Macos ==> install_decision(platform, cert_path, common_name, facts, Err(causes))
            == Err::<Seq<StepValue<P>>, Seq<Seq<char>>>(causes),
{
}

/// On macOS the removal reaches whatever keychain the installation chose.
pub proof fn law_macos_removal_reaches_the_keychain<P>(
    cert_path: FilePathValue<P>,
    common_name: Seq<char>,
    facts: TrustFacts,
    state: MacosCaState,
)
    requires
        facts.macos_keychain@ == install_keychain(opt_text(facts.macos_login_keychain)),
        !(state is Matching),
    ensures
        does(
            install_plan(Platform::Macos, cert_path, common_name, facts, state),
            ActionValue::Run(add_trusted(facts.macos_keychain@, cert_path.shown())),
        ),
        does(
            uninstall_plan::<P>(Platform::Macos, common_name, facts),
            ActionValue::Run(delete_certificate(common_name, facts.macos_keychain@)),
        ),
{
    let install = install_plan(Platform::Macos, cert_path, common_name, facts, state);
    let remove = uninstall_plan::<P>(Platform::Macos, common_name, facts);
    let add: ActionValue<P> = ActionValue::Run(add_trusted(facts.macos_keychain@, cert_path.shown()));
    if state is Missing {
        assert(install[0].action == add);
    } else {
        assert(install[1].action == add);
    }
    let delete: ActionValue<P> = ActionValue::Run(
        delete_certificate(common_name, facts.macos_keychain@),
    );
    if facts.macos_login_keychain is Some {
        assert(remove[1].action == delete);
    } else {
        assert(remove[0].action == delete);
    }
}

/// The step has to succeed and is this action.
pub open spec fn must<P>(step: StepValue<P>, action: ActionValue<P>) -> bool {
    step.policy is Required && step.action == action
}

/// On Windows the certificate is imported into the store of the machine once older ones with its name
/// are gone, and what is removed are the certificates of that store whose subject holds the name.
pub proof fn law_windows_uses_the_machine_store<P>(
    cert_path: FilePathValue<P>,
    common_name: Seq<char>,
    facts: TrustFacts,
    state: MacosCaState,
)
    ensures
        ({
            let steps = install_plan(Platform::Windows, cert_path, common_name, facts, state);
            &&& steps.len() == 3
            &&& steps[0].policy is Ignored && steps[0].action is UninstallCa
            &&& runs(
                steps[1],
                Policy::Required,
                "powershell"@,
                seq![
                    "-NoProfile"@,
                    "-Command"@,
                    "Import-Certificate -FilePath '"@ + cert_path.shown()
                        + "' -CertStoreLocation Cert:\\LocalMachine\\Root"@,
                ],
            )
            &&& must(steps[2], ActionValue::Print("installed root certificate: "@ + common_name))
        }),
        ({
            let steps = uninstall_plan::<P>(Platform::Windows, common_name, facts);
            &&& steps.len() == 1
            &&& runs(
                steps[0],
                Policy::Ignored,
                "powershell"@,
                seq![
                    "-NoProfile"@,
                    "-Command"@,
                    "Get-ChildItem Cert:\\LocalMachine\\Root\\* | Where-Object { $_.Subject -like '*"@
                        + common_name + "*' } | Remove-Item -Force"@,
                ],
            )
        }),
{
    assert(powershell_import(cert_path.shown()).args =~= seq![
        "-NoProfile"@,
        "-Command"@,
        "Import-Certificate -FilePath '"@ + cert_path.shown()
            + "' -CertStoreLocation Cert:\\LocalMachine\\Root"@,
    ]);
    assert(powershell_remove(common_name).args =~= seq![
        "-NoProfile"@,
        "-Command"@,
        "Get-ChildItem Cert:\\LocalMachine\\Root\\* | Where-Object { $_.Subject -like '*"@
            + common_name + "*' } | Remove-Item -Force"@,
    ]);
}

/// The arguments that make macOS trust a certificate: for all users exactly where it goes into the
/// keychain of the system.
pub open spec fn trusting(keychain: Seq<char>, cert_path: Seq<char>) -> Seq<Seq<char>> {
    let rest = seq!["-r"@, "trustRoot"@, "-k"@, keychain, cert_path];
    if keychain == "/Library/Keychains/System.keychain"@ {
        seq!["add-trusted-cert"@, "-d"@] + rest
    } else {
        seq!["add-trusted-cert"@] + rest
    }
}

/// On macOS a certificate that matches is left alone, one that is missing is added, and one that differs
/// is removed before.
pub proof fn law_macos_adds_what_is_missing<P>(
    cert_path: FilePathValue<P>,
    common_name: Seq<char>,
    facts: TrustFacts,
    state: MacosCaState,
)
    ensures
        ({
            let steps = install_plan(Platform::Macos, cert_path, common_name, facts, state);
            let n = steps.len() as int;
            &&& state is Matching ==> n == 1 && must(
                steps[0],
                ActionValue::Print("root certificate already installed: "@ + common_name),
            )
            &&& state is Missing ==> n == 2
            &&& state is Mismatched ==> n == 3 && steps[0].policy is Ignored && steps[0].action
                is UninstallCa
            &&& !(state is Matching) ==> runs(
                steps[n - 2],
                Policy::Required,
                "security"@,
                trusting(facts.macos_keychain@, cert_path.shown()),
            ) && must(
                steps[n - 1],
                ActionValue::Print("installed root certificate: "@ + common_name),
            )
        }),
{
    assert(add_trusted(facts.macos_keychain@, cert_path.shown()).args =~= trusting(
        facts.macos_keychain@,
        cert_path.shown(),
    ));
}

/// On macOS the certificate is deleted from the keychain of the system, and then from the login keychain
/// where there is one.
pub proof fn law_macos_deletes_from_both_keychains<P>(common_name: Seq<char>, facts: TrustFacts)
    ensures
        ({
            let steps = uninstall_plan::<P>(Platform::Macos, common_name, facts);
            &&& steps.len() == (if facts.macos_login_keychain is Some {
                2int
            } else {
                1
            })
            &&& runs(
                steps[0],
                Policy::Ignored,
                "security"@,
                seq![
                    "delete-certificate"@,
                    "-c"@,
                    common_name,
                    "/Library/Keychains/System.keychain"@,
                ],
            )
            &&& match facts.macos_login_keychain {
                Some(keychain) => runs(
                    steps[1],
                    Policy::Ignored,
                    "security"@,
                    seq!["delete-certificate"@, "-c"@, common_name, keychain@],
                ),
                None => true,
            }
        }),
{
    assert(delete_certificate(common_name, system_keychain()).args =~= seq![
        "delete-certificate"@,
        "-c"@,
        common_name,
        "/Library/Keychains/System.keychain"@,
    ]);
    if let Some(keychain) = facts.macos_login_keychain {
        assert(delete_certificate(common_name, keychain@).args =~= seq![
            "delete-certificate"@,
            "-c"@,
            common_name,
            keychain@,
        ]);
    }
}

/// On Android the work is left to the trust stores of Android, and the installation clears before and
/// says so after.
pub proof fn law_android_has_its_own_stores<P>(
    cert_path: FilePathValue<P>,
    common_name: Seq<char>,
    facts: TrustFacts,
    state: MacosCaState,
)
    ensures
        ({
            let steps = install_plan(Platform::Android, cert_path, common_name, facts, state);
            &&& steps.len() == 3
            &&& steps[0].policy is Ignored && steps[0].action is UninstallCa
            &&& must(steps[1], ActionValue::InstallToAndroid)
            &&& must(steps[2], ActionValue::Print("installed root certificate: "@ + common_name))
        }),
        ({
            let steps = uninstall_plan::<P>(Platform::Android, common_name, facts);
            steps.len() == 1 && must(steps[0], ActionValue::UninstallFromAndroid)
        }),
{
}

/// On Linux and other systems of its kind the certificate is copied to the file of the trust store, whose
/// directory is made before and which is told after; Linux goes on with the databases of the user. Without
/// a trust store the installation fails once it has cleared.
pub proof fn law_trust_store_is_told<P>(
    platform: Platform,
    cert_path: FilePathValue<P>,
    common_name: Seq<char>,
    facts: TrustFacts,
    state: MacosCaState,
)
    requires
        !(platform is Windows) && !(platform is Macos) && !(platform is Android),
    ensures
        ({
            let steps = install_plan(platform, cert_path, common_name, facts, state);
            &&& steps[0].policy is Ignored && steps[0].action is UninstallCa
            &&& match facts.linux_store {
                None => steps.len() == 2 && must(
                    steps[1],
                    ActionValue::Fail("unsupported Linux trust store layout"@),
                ),
                Some(store) => {
                    let file = FilePathValue::Fixed(store.file());
                    &&& steps.len() == (if platform is Linux {
                        7int
                    } else {
                        5
                    })
                    &&& must(
                        steps[1],
                        ActionValue::CreateDir(FilePathValue::Fixed(store.dir()), file),
                    )
                    &&& must(steps[2], ActionValue::CopyFile(cert_path, file))
                    &&& must(steps[3], ActionValue::Run(store.refresh()))
                    &&& platform is Linux ==> must(steps[4], ActionValue::InstallToNss) && must(
                        steps[5],
                        ActionValue::InstallToFirefox,
                    )
                    &&& must(
                        steps.last(),
                        ActionValue::Print("installed root certificate: "@ + common_name),
                    )
                },
            }
        }),
{
}

/// On Linux and other systems of its kind the file is removed from the trust store where it is there, and
/// the store is told in either case; on Linux the databases of the user follow, with a trust store or
/// without.
pub proof fn law_trust_store_is_told_of_the_removal<P>(
    platform: Platform,
    common_name: Seq<char>,
    facts: TrustFacts,
)
    requires
        !(platform is Windows) && !(platform is Macos) && !(platform is Android),
    ensures
        ({
            let steps = uninstall_plan::<P>(platform, common_name, facts);
            let user = if platform is Linux {
                2int
            } else {
                0
            };
            let n = steps.len() - user;
            &&& platform is Linux ==> must(steps[n], ActionValue::UninstallFromNss) && must(
                steps[n + 1],
                ActionValue::UninstallFromFirefox,
            )
            &&& match facts.linux_store {
                None => n == 0,
                Some(store) => {
                    &&& n == (if facts.linux_file_exists {
                        2int
                    } else {
                        1
                    })
                    &&& facts.linux_file_exists ==> must(
                        steps[0],
                        ActionValue::RemoveFile(FilePathValue::Fixed(store.file())),
                    )
                    &&& must(steps[n - 1], ActionValue::Run(store.refresh()))
                },
            }
        }),
{
}

/// What is known of the keychains of macOS matters on macOS alone: elsewhere the plan is the same
/// whatever came of looking at them.
pub proof fn law_keychains_matter_on_macos_alone<P>(
    platform: Platform,
    cert_path: FilePathValue<P>,
    common_name: Seq<char>,
    facts: TrustFacts,
    a: Result<MacosCaState, Seq<Seq<char>>>,
    b: Result<MacosCaState, Seq<Seq<char>>>,
)
    ensures
        !(platform is Macos) ==> install_decision(platform, cert_path, common_name, facts, a)
            == install_decision(platform, cert_path, common_name, facts, b),
        install_decision(platform, cert_path, common_name, facts, a) is Err <==> platform is Macos
            && a is Err,
        a is Ok ==> install_decision(platform, cert_path, common_name, facts, a) == Ok::<
            Seq<StepValue<P>>,
            Seq<Seq<char>>,
        >(install_plan(platform, cert_path, common_name, facts, a->Ok_0)),
{
}

} // verus!
