//! The root certificate on Linux: the trust store of the system, the NSS database of the user,
//! and the databases of the Firefox profiles.

use vstd::prelude::*;
use vstd::string::*;

use crate::command::{
    command, does, ignored, no_steps, plan_result, required, run_value, steps_after, succeeded,
    verdict_after, Action, ActionValue, CommandLine, CommandText, Plan, ProcessOutput, StepValue,
};
use crate::failure::Failure;
use crate::file_path::{
    opt_path, path_values, paths_outcome, push_path, FilePath, FilePathValue,
};

verus! {

// ---------------------------------------------------------------------------------------------
// The trust store of the system
// ---------------------------------------------------------------------------------------------

/// The layouts of the system's trust store.
#[derive(Debug, Clone, Copy, PartialEq, Eq, Structural)]
pub enum TrustStore {
    /// `/usr/local/share/ca-certificates`.
    Debian,
    /// `/etc/pki/ca-trust/source/anchors`.
    RedHat,
}

impl TrustStore {
    /// The directory of the store.
    pub open spec fn dir(self) -> Seq<char> {
        match self {
            TrustStore::Debian => "/usr/local/share/ca-certificates"@,
            TrustStore::RedHat => "/etc/pki/ca-trust/source/anchors"@,
        }
    }

    /// The file of the root certificate.
    pub open spec fn file(self) -> Seq<char> {
        self.dir() + "/linuxdo-accelerator-root-ca.crt"@
    }

    /// The command that makes the system take note of a change.
    pub open spec fn refresh(self) -> CommandText {
        match self {
            TrustStore::Debian => command("update-ca-certificates"@),
            TrustStore::RedHat => command("update-ca-trust"@).with("extract"@),
        }
    }

    /// The directory of the store.
    pub fn dir_path(self) -> (path: String)
        ensures
            path@ == self.dir(),
    {
        match self {
            TrustStore::Debian => "/usr/local/share/ca-certificates".to_string(),
            TrustStore::RedHat => "/etc/pki/ca-trust/source/anchors".to_string(),
        }
    }

    /// The file of the root certificate.
    pub fn file_path(self) -> (path: String)
        ensures
            path@ == self.file(),
    {
        self.dir_path().concat("/linuxdo-accelerator-root-ca.crt")
    }

    /// The command that makes the system take note of a change.
    pub fn refresh_command(self) -> (line: CommandLine)
        ensures
            line@ == self.refresh(),
    {
        match self {
            TrustStore::Debian => CommandLine::new("update-ca-certificates"),
            TrustStore::RedHat => CommandLine::new("update-ca-trust").arg("extract"),
        }
    }
}

/// The trust store of the system, by the directories that exist.
pub open spec fn trust_store(debian_exists: bool, red_hat_exists: bool) -> Option<TrustStore> {
    if debian_exists {
        Some(TrustStore::Debian)
    } else if red_hat_exists {
        Some(TrustStore::RedHat)
    } else {
        None
    }
}

/// The trust store of the system, by the directories that exist; none where the layout is one
/// that the program does not know.
pub fn linux_trust_store_path(debian_exists: bool, red_hat_exists: bool) -> (store: Option<
    TrustStore,
>)
    ensures
        store == trust_store(debian_exists, red_hat_exists),
{
    if debian_exists {
        return Some(TrustStore::Debian);
    }
    if red_hat_exists {
        return Some(TrustStore::RedHat);
    }
    None
}

// ---------------------------------------------------------------------------------------------
// NSS databases
// ---------------------------------------------------------------------------------------------

/// The command that finds out whether a program is there.
pub fn which_command(program: &str) -> (line: CommandLine)
    ensures
        line@ == command("which"@).with(program@),
{
    CommandLine::new("which").arg(program)
}

/// Whether a program is there, where the question came to `run`.
pub fn command_exists(run: &Result<ProcessOutput, Failure>) -> (exists: bool)
    ensures
        exists == succeeded(run_value(*run)),
{
    match run {
        Ok(output) => output.success,
        Err(_) => false,
    }
}

/// The NSS database in the directory `dir`.
pub open spec fn nss_db(dir: Seq<char>) -> Seq<char> {
    "sql:"@ + dir
}

/// The command that takes a certificate out of an NSS database.
pub open spec fn nss_delete(dir: Seq<char>, common_name: Seq<char>) -> CommandText {
    command("certutil"@).with("-d"@).with(nss_db(dir)).with("-D"@).with("-n"@).with(common_name)
}

/// The command that puts a certificate into an NSS database, as an authority for servers.
pub open spec fn nss_add(
    dir: Seq<char>,
    cert_path: Seq<char>,
    common_name: Seq<char>,
) -> CommandText {
    command("certutil"@).with("-d"@).with(nss_db(dir)).with("-A"@).with("-t"@).with("C,,"@).with(
        "-n"@,
    ).with(common_name).with("-i"@).with(cert_path)
}

/// The command that creates an NSS database.
pub open spec fn nss_create(dir: Seq<char>) -> CommandText {
    command("certutil"@).with("-d"@).with(nss_db(dir)).with("-N"@).with("--empty-password"@)
}

fn db_of(dir: &str) -> (db: String)
    ensures
        db@ == nss_db(dir@),
{
    "sql:".to_string().concat(dir)
}

fn delete_command(dir: &str, common_name: &str) -> (line: CommandLine)
    ensures
        line@ == nss_delete(dir@, common_name@),
{
    CommandLine::new("certutil").arg("-d").arg(db_of(dir).as_str()).arg("-D").arg("-n").arg(
        common_name,
    )
}

fn add_command(dir: &str, cert_path: &str, common_name: &str) -> (line: CommandLine)
    ensures
        line@ == nss_add(dir@, cert_path@, common_name@),
{
    CommandLine::new("certutil").arg("-d").arg(db_of(dir).as_str()).arg("-A").arg("-t").arg(
        "C,,",
    ).arg("-n").arg(common_name).arg("-i").arg(cert_path)
}

/// What follows `steps` to put a certificate into the NSS database in `dir` in place of an older
/// one with its name.
pub open spec fn with_import<P>(
    steps: Seq<StepValue<P>>,
    dir: FilePathValue<P>,
    cert_path: Seq<char>,
    common_name: Seq<char>,
) -> Seq<StepValue<P>> {
    steps.push(ignored(ActionValue::Run(nss_delete(dir.shown(), common_name)))).push(
        required(ActionValue::Run(nss_add(dir.shown(), cert_path, common_name))),
    ).push(required(ActionValue::SyncOwnership(dir)))
}

/// What follows `steps` to take a certificate out of the NSS database in `dir`.
pub open spec fn with_removal<P>(
    steps: Seq<StepValue<P>>,
    dir: FilePathValue<P>,
    common_name: Seq<char>,
) -> Seq<StepValue<P>> {
    steps.push(ignored(ActionValue::Run(nss_delete(dir.shown(), common_name)))).push(
        required(ActionValue::SyncOwnership(dir)),
    )
}

fn add_import<P: Copy>(
    plan: Plan<P>,
    dir: &FilePath<P>,
    cert_path: &str,
    common_name: &str,
) -> (longer: Plan<P>)
    ensures
        longer@ == with_import(plan@, dir@, cert_path@, common_name@),
{
    plan.attempt(Action::Run(delete_command(dir.text().as_str(), common_name))).require(
        Action::Run(add_command(dir.text().as_str(), cert_path, common_name)),
    ).require(Action::SyncOwnership(dir.again()))
}

fn add_removal<P: Copy>(plan: Plan<P>, dir: &FilePath<P>, common_name: &str) -> (longer: Plan<P>)
    ensures
        longer@ == with_removal(plan@, dir@, common_name@),
{
    plan.attempt(Action::Run(delete_command(dir.text().as_str(), common_name))).require(
        Action::SyncOwnership(dir.again()),
    )
}

/// The directory of the NSS database of the user with this home directory.
pub open spec fn user_nss_dir<P>(home: FilePathValue<P>) -> FilePathValue<P> {
    home.below(".pki/nssdb"@)
}

/// The directory of the NSS database of the user with this home directory.
pub fn nss_dir<P: Copy>(home: &FilePath<P>) -> (dir: FilePath<P>)
    ensures
        dir@ == user_nss_dir(home@),
{
    home.below(".pki/nssdb")
}

/// What is to be done to put the root certificate into the NSS database of the user.
pub open spec fn nss_install_plan<P>(
    home: Option<FilePathValue<P>>,
    certutil: bool,
    db_exists: bool,
    cert_path: Seq<char>,
    common_name: Seq<char>,
) -> Seq<StepValue<P>> {
    match home {
        None => no_steps(),
        Some(home) => {
            let dir = user_nss_dir(home);
            let made = no_steps().push(required(ActionValue::CreateDir(dir, dir)));
            if !certutil {
                made
            } else if db_exists {
                with_import(made, dir, cert_path, common_name)
            } else {
                with_import(
                    made.push(required(ActionValue::Run(nss_create(dir.shown())))),
                    dir,
                    cert_path,
                    common_name,
                )
            }
        },
    }
}

/// What is to be done to put the root certificate into the NSS database of the user with this
/// home directory, where `certutil` is there or not and the database exists or not.
pub fn install_ca_to_linux_nss<P: Copy>(
    home: Option<&FilePath<P>>,
    certutil: bool,
    db_exists: bool,
    cert_path: &str,
    common_name: &str,
) -> (plan: Plan<P>)
    ensures
        plan@ == nss_install_plan(opt_path(home), certutil, db_exists, cert_path@, common_name@),
{
    let home = match home {
        Some(home) => home,
        None => {
            return Plan::new();
        },
    };
    let dir = nss_dir(home);
    let plan = Plan::new().require(Action::CreateDir(dir.again(), dir.again()));
    if !certutil {
        return plan;
    }
    if db_exists {
        return add_import(plan, &dir, cert_path, common_name);
    }
    let create = CommandLine::new("certutil").arg("-d").arg(db_of(dir.text().as_str()).as_str()).arg(
        "-N",
    ).arg("--empty-password");
    add_import(plan.require(Action::Run(create)), &dir, cert_path, common_name)
}

/// What is to be done to take the root certificate out of the NSS database of the user.
pub open spec fn nss_uninstall_plan<P>(
    home: Option<FilePathValue<P>>,
    dir_exists: bool,
    certutil: bool,
    common_name: Seq<char>,
) -> Seq<StepValue<P>> {
    match home {
        Some(home) if dir_exists && certutil => with_removal(
            no_steps(),
            user_nss_dir(home),
            common_name,
        ),
        _ => no_steps(),
    }
}

/// What is to be done to take the root certificate out of the NSS database of the user with this
/// home directory.
pub fn uninstall_ca_from_linux_nss<P: Copy>(
    home: Option<&FilePath<P>>,
    dir_exists: bool,
    certutil: bool,
    common_name: &str,
) -> (plan: Plan<P>)
    ensures
        plan@ == nss_uninstall_plan(opt_path(home), dir_exists, certutil, common_name@),
{
    match home {
        Some(home) => if dir_exists && certutil {
            add_removal(Plan::new(), &nss_dir(home), common_name)
        } else {
            Plan::new()
        },
        None => Plan::new(),
    }
}

/// What is to be done to put the root certificate into one database.
pub open spec fn import_plan<P>(
    dir: FilePathValue<P>,
    certutil: bool,
    cert_path: Seq<char>,
    common_name: Seq<char>,
) -> Seq<StepValue<P>> {
    if certutil {
        with_import(no_steps(), dir, cert_path, common_name)
    } else {
        no_steps()
    }
}

/// What is to be done to put the root certificate into the database in `db_dir`.
pub fn import_ca_to_nss_db<P: Copy>(
    db_dir: &FilePath<P>,
    certutil: bool,
    cert_path: &str,
    common_name: &str,
) -> (plan: Plan<P>)
    ensures
        plan@ == import_plan(db_dir@, certutil, cert_path@, common_name@),
{
    if !certutil {
        return Plan::new();
    }
    add_import(Plan::new(), db_dir, cert_path, common_name)
}

/// What is to be done to take the root certificate out of one database.
pub open spec fn removal_plan<P>(
    dir: FilePathValue<P>,
    certutil: bool,
    common_name: Seq<char>,
) -> Seq<StepValue<P>> {
    if certutil {
        with_removal(no_steps(), dir, common_name)
    } else {
        no_steps()
    }
}

/// What is to be done to take the root certificate out of the database in `db_dir`.
pub fn remove_ca_from_nss_db<P: Copy>(
    db_dir: &FilePath<P>,
    certutil: bool,
    common_name: &str,
) -> (plan: Plan<P>)
    ensures
        plan@ == removal_plan(db_dir@, certutil, common_name@),
{
    if !certutil {
        return Plan::new();
    }
    add_removal(Plan::new(), db_dir, common_name)
}

// ---------------------------------------------------------------------------------------------
// Firefox profiles
// ---------------------------------------------------------------------------------------------

/// The directories in which Firefox keeps its profiles.
pub open spec fn profile_roots<P>(home: Option<FilePathValue<P>>) -> Seq<FilePathValue<P>> {
    match home {
        None => Seq::empty(),
        Some(home) => seq![
            home.below(".mozilla/firefox"@),
            home.below("snap/firefox/common/.mozilla/firefox"@),
        ],
    }
}

/// The directories in which Firefox keeps its profiles, for the user with this home directory.
pub fn firefox_profile_roots<P: Copy>(home: Option<&FilePath<P>>) -> (roots: Vec<FilePath<P>>)
    ensures
        path_values(roots@) == profile_roots(opt_path(home)),
{
    let mut roots: Vec<FilePath<P>> = Vec::new();
    if let Some(home) = home {
        roots.push(home.below(".mozilla/firefox"));
        roots.push(home.below("snap/firefox/common/.mozilla/firefox"));
    }
    assert(path_values(roots@) =~= profile_roots(opt_path(home)));
    roots
}

/// An entry of a directory with Firefox profiles.
#[derive(Debug)]
pub struct ProfileEntry<P> {
    pub path: FilePath<P>,
    pub is_dir: bool,
    /// There is a file `cert9.db` in it.
    pub has_db: bool,
}

/// An entry of a directory with Firefox profiles, or why it is not known.
#[derive(Debug)]
pub enum ProfileRead<P> {
    Entry(ProfileEntry<P>),
    Broken(Failure),
}

/// What a look into a directory with Firefox profiles came to.
#[derive(Debug)]
pub enum RootListing<P> {
    /// There is no such directory.
    Missing,
    /// The directory at this path could not be read.
    Unreadable(String, Failure),
    /// The entries of the directory.
    Entries(Vec<ProfileRead<P>>),
}

/// The entry is a profile with a certificate database.
pub open spec fn is_profile<P>(entry: ProfileEntry<P>) -> bool {
    entry.is_dir && entry.has_db
}

/// The profiles with a certificate database among the entries of a directory, after `found`; the
/// first entry that could not be read is a failure.
pub open spec fn profiles_in<P>(found: Seq<FilePathValue<P>>, entries: Seq<ProfileRead<P>>) -> Result<
    Seq<FilePathValue<P>>,
    Seq<Seq<char>>,
>
    decreases entries.len(),
{
    if entries.len() == 0 {
        Ok(found)
    } else {
        match entries[0] {
            ProfileRead::Broken(error) => Err(error@),
            ProfileRead::Entry(entry) => profiles_in(
                if is_profile(entry) {
                    found.push(entry.path@)
                } else {
                    found
                },
                entries.drop_first(),
            ),
        }
    }
}

/// The profiles with a certificate database in the directories, after `found`; the first thing
/// that could not be read is a failure.
pub open spec fn all_profiles<P>(found: Seq<FilePathValue<P>>, listings: Seq<RootListing<P>>) -> Result<
    Seq<FilePathValue<P>>,
    Seq<Seq<char>>,
>
    decreases listings.len(),
{
    if listings.len() == 0 {
        Ok(found)
    } else {
        match listings[0] {
            RootListing::Missing => all_profiles(found, listings.drop_first()),
            RootListing::Unreadable(root, error) => Err(
                seq!["failed to read "@ + root@] + error@,
            ),
            RootListing::Entries(entries) => match profiles_in(found, entries@) {
                Ok(more) => all_profiles(more, listings.drop_first()),
                Err(causes) => Err(causes),
            },
        }
    }
}

/// The profiles with a certificate database among the entries of a directory, after `found`.
fn add_profiles<P>(found: Vec<FilePath<P>>, entries: Vec<ProfileRead<P>>) -> (dbs: Result<
    Vec<FilePath<P>>,
    Failure,
>)
    ensures
        paths_outcome(dbs) == profiles_in(path_values(found@), entries@),
{
    let mut dbs = found;
    let mut rest = entries;
    let ghost goal = profiles_in(path_values(found@), entries@);
    while rest.len() > 0
        invariant
            goal == profiles_in(path_values(found@), entries@),
            goal == profiles_in(path_values(dbs@), rest@),
        decreases rest@.len(),
    {
        let ghost before = rest@;
        let read = rest.remove(0);
        assert(rest@ =~= before.drop_first());
        match read {
            ProfileRead::Broken(error) => {
                return Err(error);
            },
            ProfileRead::Entry(entry) => {
                if entry.is_dir && entry.has_db {
                    push_path(&mut dbs, entry.path);
                }
            },
        }
    }
    Ok(dbs)
}

/// The profiles with a certificate database, by what a look into the directories with profiles
/// came to.
pub fn firefox_profile_dbs<P>(listings: Vec<RootListing<P>>) -> (dbs: Result<Vec<FilePath<P>>, Failure>)
    ensures
        paths_outcome(dbs) == all_profiles(Seq::empty(), listings@),
{
    let mut dbs: Vec<FilePath<P>> = Vec::new();
    assert(path_values(dbs@) =~= Seq::<FilePathValue<P>>::empty());
    let mut rest = listings;
    let ghost goal = all_profiles(Seq::empty(), listings@);
    while rest.len() > 0
        invariant
            goal == all_profiles(Seq::empty(), listings@),
            goal == all_profiles(path_values(dbs@), rest@),
        decreases rest@.len(),
    {
        let ghost before = rest@;
        let listing = rest.remove(0);
        assert(rest@ =~= before.drop_first());
        match listing {
            RootListing::Missing => {},
            RootListing::Unreadable(root, error) => {
                return Err(error.context("failed to read ".to_string().concat(root.as_str())));
            },
            RootListing::Entries(entries) => {
                match add_profiles(dbs, entries) {
                    Ok(more) => {
                        dbs = more;
                    },
                    Err(error) => {
                        return Err(error);
                    },
                }
            },
        }
    }
    Ok(dbs)
}

/// What is to be done to put the root certificate into the Firefox profiles, one after the other.
pub open spec fn firefox_install_plan<P>(
    dbs: Seq<FilePathValue<P>>,
    certutil: bool,
    cert_path: Seq<char>,
    common_name: Seq<char>,
) -> Seq<StepValue<P>>
    decreases dbs.len(),
{
    if dbs.len() == 0 || !certutil {
        no_steps()
    } else {
        with_import(
            firefox_install_plan(dbs.drop_last(), certutil, cert_path, common_name),
            dbs.last(),
            cert_path,
            common_name,
        )
    }
}

/// What is to be done to put the root certificate into the Firefox profiles with these databases.
pub fn install_ca_to_firefox_profiles<P: Copy>(
    dbs: &Vec<FilePath<P>>,
    certutil: bool,
    cert_path: &str,
    common_name: &str,
) -> (plan: Plan<P>)
    ensures
        plan@ == firefox_install_plan(path_values(dbs@), certutil, cert_path@, common_name@),
{
    let mut plan = Plan::new();
    if !certutil {
        return plan;
    }
    let ghost all = path_values(dbs@);
    for i in 0..dbs.len()
        invariant
            certutil,
            all == path_values(dbs@),
            plan@ == firefox_install_plan(all.take(i as int), certutil, cert_path@, common_name@),
    {
        proof {
            assert(all.take(i + 1).drop_last() =~= all.take(i as int));
            assert(all.take(i + 1).last() == dbs@[i as int]@);
        }
        plan = add_import(plan, &dbs[i], cert_path, common_name);
    }
    assert(all.take(all.len() as int) =~= all);
    plan
}

/// What is to be done to take the root certificate out of the Firefox profiles, one after the
/// other.
pub open spec fn firefox_uninstall_plan<P>(
    dbs: Seq<FilePathValue<P>>,
    certutil: bool,
    common_name: Seq<char>,
) -> Seq<StepValue<P>>
    decreases dbs.len(),
{
    if dbs.len() == 0 || !certutil {
        no_steps()
    } else {
        with_removal(
            firefox_uninstall_plan(dbs.drop_last(), certutil, common_name),
            dbs.last(),
            common_name,
        )
    }
}

/// What is to be done to take the root certificate out of the Firefox profiles with these
/// databases.
pub fn uninstall_ca_from_firefox_profiles<P: Copy>(
    dbs: &Vec<FilePath<P>>,
    certutil: bool,
    common_name: &str,
) -> (plan: Plan<P>)
    ensures
        plan@ == firefox_uninstall_plan(path_values(dbs@), certutil, common_name@),
{
    let mut plan = Plan::new();
    if !certutil {
        return plan;
    }
    let ghost all = path_values(dbs@);
    for i in 0..dbs.len()
        invariant
            certutil,
            all == path_values(dbs@),
            plan@ == firefox_uninstall_plan(all.take(i as int), certutil, common_name@),
    {
        proof {
            assert(all.take(i + 1).drop_last() =~= all.take(i as int));
            assert(all.take(i + 1).last() == dbs@[i as int]@);
        }
        plan = add_removal(plan, &dbs[i], common_name);
    }
    assert(all.take(all.len() as int) =~= all);
    plan
}

// ---------------------------------------------------------------------------------------------
// Laws
// ---------------------------------------------------------------------------------------------

/// The entry is the profile at `path`, with a certificate database.
pub open spec fn offers_profile<P>(read: ProfileRead<P>, path: FilePathValue<P>) -> bool {
    match read {
        ProfileRead::Entry(entry) => is_profile(entry) && entry.path@ == path,
        ProfileRead::Broken(_) => false,
    }
}

/// A look into a directory adds its profiles with a certificate database, all of them and nothing
/// else.
pub proof fn law_profiles_are_found<P>(
    found: Seq<FilePathValue<P>>,
    entries: Seq<ProfileRead<P>>,
    path: FilePathValue<P>,
)
    ensures
        match profiles_in(found, entries) {
            Ok(dbs) => dbs.contains(path) <==> found.contains(path) || exists|i: int|
                0 <= i < entries.len() && offers_profile(#[trigger] entries[i], path),
            Err(_) => exists|i: int| 0 <= i < entries.len() && #[trigger] entries[i] is Broken,
        },
    decreases entries.len(),
{
    if entries.len() > 0 {
        let rest = entries.drop_first();
        assert(forall|i: int| 0 <= i < rest.len() ==> #[trigger] rest[i] == entries[i + 1]);
        assert(forall|i: int| 0 < i < entries.len() ==> #[trigger] entries[i] == rest[i - 1]);
        match entries[0] {
            ProfileRead::Broken(_) => {
                assert(entries[0] is Broken);
            },
            ProfileRead::Entry(entry) => {
                let longer = if is_profile(entry) {
                    found.push(entry.path@)
                } else {
                    found
                };
                law_profiles_are_found(longer, rest, path);
                lemma_push_contains(found, entry.path@, path);
                if profiles_in(longer, rest) is Ok {
                    if exists|i: int| 0 <= i < rest.len() && offers_profile(#[trigger] rest[i], path) {
                        let i = choose|i: int|
                            0 <= i < rest.len() && offers_profile(#[trigger] rest[i], path);
                        assert(offers_profile(entries[i + 1], path));
                    }
                    if longer.contains(path) && !found.contains(path) {
                        assert(offers_profile(entries[0], path));
                    }
                    if exists|i: int|
                        0 <= i < entries.len() && offers_profile(#[trigger] entries[i], path) {
                        let i = choose|i: int|
                            0 <= i < entries.len() && offers_profile(#[trigger] entries[i], path);
                        if i > 0 {
                            assert(offers_profile(rest[i - 1], path));
                        }
                    }
                } else {
                    let i = choose|i: int| 0 <= i < rest.len() && #[trigger] rest[i] is Broken;
                    assert(entries[i + 1] is Broken);
                }
            },
        }
    }
}

proof fn lemma_push_contains<T>(list: Seq<T>, more: T, path: T)
    ensures
        list.push(more).contains(path) <==> list.contains(path) || more == path,
{
    if list.contains(path) {
        let i = choose|i: int| 0 <= i < list.len() && list[i] == path;
        assert(list.push(more)[i] == path);
    }
    assert(list.push(more)[list.len() as int] == more);
}

/// Every database that the installation puts the certificate into is one that the removal takes
/// it out of, under the same name; and each is handed back to the user.
pub proof fn law_firefox_removal_covers_installation<P>(
    dbs: Seq<FilePathValue<P>>,
    cert_path: Seq<char>,
    common_name: Seq<char>,
)
    ensures
        forall|k: int|
            0 <= k < dbs.len() ==> {
                &&& does(
                    firefox_install_plan(dbs, true, cert_path, common_name),
                    ActionValue::Run(nss_add((#[trigger] dbs[k]).shown(), cert_path, common_name)),
                )
                &&& does(
                    firefox_uninstall_plan(dbs, true, common_name),
                    ActionValue::Run(nss_delete(dbs[k].shown(), common_name)),
                )
                &&& does(
                    firefox_uninstall_plan(dbs, true, common_name),
                    ActionValue::SyncOwnership(dbs[k]),
                )
            },
    decreases dbs.len(),
{
    if dbs.len() > 0 {
        let shorter = dbs.drop_last();
        law_firefox_removal_covers_installation(shorter, cert_path, common_name);
        let install = firefox_install_plan(dbs, true, cert_path, common_name);
        let remove = firefox_uninstall_plan(dbs, true, common_name);
        let less = firefox_install_plan(shorter, true, cert_path, common_name);
        let fewer = firefox_uninstall_plan(shorter, true, common_name);
        assert forall|k: int| 0 <= k < dbs.len() implies {
            &&& does(
                install,
                ActionValue::Run(nss_add((#[trigger] dbs[k]).shown(), cert_path, common_name)),
            )
            &&& does(remove, ActionValue::Run(nss_delete(dbs[k].shown(), common_name)))
            &&& does(remove, ActionValue::SyncOwnership(dbs[k]))
        } by {
            if k < shorter.len() {
                assert(shorter[k] == dbs[k]);
                lemma_does_more(
                    less,
                    install,
                    ActionValue::Run(nss_add(dbs[k].shown(), cert_path, common_name)),
                );
                lemma_does_more(
                    fewer,
                    remove,
                    ActionValue::Run(nss_delete(dbs[k].shown(), common_name)),
                );
                lemma_does_more(fewer, remove, ActionValue::SyncOwnership(dbs[k]));
            } else {
                assert(install[less.len() as int + 1].action == ActionValue::<P>::Run(
                    nss_add(dbs[k].shown(), cert_path, common_name),
                ));
                assert(remove[fewer.len() as int].action == ActionValue::<P>::Run(
                    nss_delete(dbs[k].shown(), common_name),
                ));
                assert(remove[fewer.len() as int + 1].action == ActionValue::SyncOwnership(
                    dbs[k],
                ));
            }
        }
    }
}

/// A longer plan does what its beginning does.
proof fn lemma_does_more<P>(steps: Seq<StepValue<P>>, longer: Seq<StepValue<P>>, action: ActionValue<P>)
    requires
        does(steps, action),
        steps.len() <= longer.len(),
        forall|i: int| 0 <= i < steps.len() ==> #[trigger] longer[i] == steps[i],
    ensures
        does(longer, action),
{
    let i = choose|i: int| 0 <= i < steps.len() && #[trigger] steps[i].action == action;
    assert(longer[i].action == action);
}

/// Installing the root certificate for the user and removing it concern the same database, under
/// the same name.
pub proof fn law_nss_removal_undoes_installation<P>(
    home: FilePathValue<P>,
    db_exists: bool,
    cert_path: Seq<char>,
    common_name: Seq<char>,
)
    ensures
        does(
            nss_install_plan(Some(home), true, db_exists, cert_path, common_name),
            ActionValue::Run(nss_add(user_nss_dir(home).shown(), cert_path, common_name)),
        ),
        does(
            nss_uninstall_plan(Some(home), true, true, common_name),
            ActionValue::Run(nss_delete(user_nss_dir(home).shown(), common_name)),
        ),
{
    let install = nss_install_plan(Some(home), true, db_exists, cert_path, common_name);
    let remove = nss_uninstall_plan(Some(home), true, true, common_name);
    let add: ActionValue<P> = ActionValue::Run(
        nss_add(user_nss_dir(home).shown(), cert_path, common_name),
    );
    if db_exists {
        assert(install[2].action == add);
    } else {
        assert(install[3].action == add);
    }
    assert(remove[0].action == ActionValue::<P>::Run(
        nss_delete(user_nss_dir(home).shown(), common_name),
    ));
}

/// The trust store of the system is that of Debian where its directory is there, and that of Red Hat
/// where only that is; each has its directory, its file and its command.
pub proof fn law_trust_stores_have_their_places(red_hat_exists: bool)
    ensures
        trust_store(true, red_hat_exists) == Some(TrustStore::Debian),
        trust_store(false, true) == Some(TrustStore::RedHat),
        trust_store(false, false) is None,
        TrustStore::Debian.dir() == "/usr/local/share/ca-certificates"@,
        TrustStore::Debian.file() == "/usr/local/share/ca-certificates"@
            + "/linuxdo-accelerator-root-ca.crt"@,
        TrustStore::Debian.refresh().program == "update-ca-certificates"@,
        TrustStore::Debian.refresh().args.len() == 0,
        TrustStore::RedHat.dir() == "/etc/pki/ca-trust/source/anchors"@,
        TrustStore::RedHat.file() == "/etc/pki/ca-trust/source/anchors"@
            + "/linuxdo-accelerator-root-ca.crt"@,
        TrustStore::RedHat.refresh().program == "update-ca-trust"@,
        TrustStore::RedHat.refresh().args == seq!["extract"@],
{
    assert(TrustStore::RedHat.refresh().args =~= seq!["extract"@]);
}

/// The command that takes the certificate with this name out of the database in `dir`.
pub open spec fn takes_out(line: CommandText, dir: Seq<char>, name: Seq<char>) -> bool {
    line.program == "certutil"@ && line.args == seq!["-d"@, "sql:"@ + dir, "-D"@, "-n"@, name]
}

/// The command that puts the certificate in the file `cert_path` into the database in `dir` under this
/// name, trusted as an authority for servers.
pub open spec fn puts_in(
    line: CommandText,
    dir: Seq<char>,
    name: Seq<char>,
    cert_path: Seq<char>,
) -> bool {
    line.program == "certutil"@ && line.args == seq![
        "-d"@,
        "sql:"@ + dir,
        "-A"@,
        "-t"@,
        "C,,"@,
        "-n"@,
        name,
        "-i"@,
        cert_path,
    ]
}

/// The command that makes an empty database in `dir`.
pub open spec fn makes_database(line: CommandText, dir: Seq<char>) -> bool {
    line.program == "certutil"@ && line.args == seq![
        "-d"@,
        "sql:"@ + dir,
        "-N"@,
        "--empty-password"@,
    ]
}

/// The commands for a database say what they are for.
pub proof fn law_database_commands_say_what_they_do(
    dir: Seq<char>,
    cert_path: Seq<char>,
    name: Seq<char>,
)
    ensures
        nss_delete(dir, name).program == "certutil"@,
        nss_delete(dir, name).args == seq!["-d"@, "sql:"@ + dir, "-D"@, "-n"@, name],
        nss_add(dir, cert_path, name).program == "certutil"@,
        nss_add(dir, cert_path, name).args == seq![
            "-d"@,
            "sql:"@ + dir,
            "-A"@,
            "-t"@,
            "C,,"@,
            "-n"@,
            name,
            "-i"@,
            cert_path,
        ],
        nss_create(dir).program == "certutil"@,
        nss_create(dir).args == seq!["-d"@, "sql:"@ + dir, "-N"@, "--empty-password"@],
        takes_out(nss_delete(dir, name), dir, name),
        puts_in(nss_add(dir, cert_path, name), dir, name, cert_path),
        makes_database(nss_create(dir), dir),
{
    assert(nss_delete(dir, name).args =~= seq!["-d"@, "sql:"@ + dir, "-D"@, "-n"@, name]);
    assert(nss_add(dir, cert_path, name).args =~= seq![
        "-d"@,
        "sql:"@ + dir,
        "-A"@,
        "-t"@,
        "C,,"@,
        "-n"@,
        name,
        "-i"@,
        cert_path,
    ]);
    assert(nss_create(dir).args =~= seq!["-d"@, "sql:"@ + dir, "-N"@, "--empty-password"@]);
}

/// Steps `i` and the two that follow replace what the database in `dir` has under the name: what is there
/// is taken out, which may fail, then the certificate is put in, and then the directory is handed to the
/// user.
pub open spec fn replaces_at<P>(
    steps: Seq<StepValue<P>>,
    i: int,
    dir: FilePathValue<P>,
    cert_path: Seq<char>,
    name: Seq<char>,
) -> bool {
    &&& 0 <= i && i + 2 < steps.len()
    &&& steps[i].policy is Ignored
    &&& steps[i].action is Run
    &&& takes_out(steps[i].action->Run_0, dir.shown(), name)
    &&& steps[i + 1].policy is Required
    &&& steps[i + 1].action is Run
    &&& puts_in(steps[i + 1].action->Run_0, dir.shown(), name, cert_path)
    &&& steps[i + 2].policy is Required
    &&& steps[i + 2].action == ActionValue::SyncOwnership(dir)
}

/// Step `i` and the next one take what is under the name out of the database in `dir`, which may fail, and
/// hand the directory to the user.
pub open spec fn removes_at<P>(
    steps: Seq<StepValue<P>>,
    i: int,
    dir: FilePathValue<P>,
    name: Seq<char>,
) -> bool {
    &&& 0 <= i && i + 1 < steps.len()
    &&& steps[i].policy is Ignored
    &&& steps[i].action is Run
    &&& takes_out(steps[i].action->Run_0, dir.shown(), name)
    &&& steps[i + 1].policy is Required
    &&& steps[i + 1].action == ActionValue::SyncOwnership(dir)
}

/// To put the certificate into the database of the user, its directory is made first, then the database
/// where there is none, and then what it has under the name is replaced, as the last thing that is done. Without
/// `certutil` only the directory is made, and without a home directory nothing is done.
pub proof fn law_nss_installation_ends_with_the_certificate<P>(
    home: FilePathValue<P>,
    certutil: bool,
    db_exists: bool,
    cert_path: Seq<char>,
    name: Seq<char>,
)
    ensures
        nss_install_plan::<P>(None, certutil, db_exists, cert_path, name).len() == 0,
        ({
            let dir = home.below(".pki/nssdb"@);
            let steps = nss_install_plan(Some(home), certutil, db_exists, cert_path, name);
            &&& steps.len() == (if !certutil {
                1int
            } else if db_exists {
                4
            } else {
                5
            })
            &&& steps[0].policy is Required
            &&& steps[0].action == ActionValue::CreateDir(dir, dir)
            &&& certutil ==> replaces_at(steps, steps.len() - 3, dir, cert_path, name)
            &&& certutil && !db_exists ==> {
                &&& steps[1].policy is Required
                &&& steps[1].action is Run
                &&& makes_database(steps[1].action->Run_0, dir.shown())
            }
        }),
{
    let dir = home.below(".pki/nssdb"@);
    law_database_commands_say_what_they_do(dir.shown(), cert_path, name);
}

/// To take the certificate out of the database of the user, it is taken out there and the directory handed
/// back, exactly where there are a home directory, the directory and `certutil`.
pub proof fn law_nss_removal_takes_the_certificate_out<P>(
    home: FilePathValue<P>,
    dir_exists: bool,
    certutil: bool,
    name: Seq<char>,
)
    ensures
        nss_uninstall_plan::<P>(None, dir_exists, certutil, name).len() == 0,
        ({
            let steps = nss_uninstall_plan(Some(home), dir_exists, certutil, name);
            &&& dir_exists && certutil ==> steps.len() == 2 && removes_at(
                steps,
                0,
                home.below(".pki/nssdb"@),
                name,
            )
            &&& !dir_exists || !certutil ==> steps.len() == 0
        }),
{
    law_database_commands_say_what_they_do(home.below(".pki/nssdb"@).shown(), Seq::empty(), name);
}

/// With `certutil`, what each profile has under the name is replaced, one profile after the other; and it
/// is taken out of each, one after the other. Without `certutil` nothing is done.
pub proof fn law_every_profile_is_served<P>(
    dbs: Seq<FilePathValue<P>>,
    cert_path: Seq<char>,
    name: Seq<char>,
)
    ensures
        firefox_install_plan(dbs, false, cert_path, name).len() == 0,
        firefox_uninstall_plan(dbs, false, name).len() == 0,
        firefox_install_plan(dbs, true, cert_path, name).len() == 3 * dbs.len(),
        firefox_uninstall_plan(dbs, true, name).len() == 2 * dbs.len(),
        forall|k: int|
            0 <= k < dbs.len() ==> replaces_at(
                firefox_install_plan(dbs, true, cert_path, name),
                3 * k,
                #[trigger] dbs[k],
                cert_path,
                name,
            ),
        forall|k: int|
            0 <= k < dbs.len() ==> removes_at(
                firefox_uninstall_plan(dbs, true, name),
                2 * k,
                #[trigger] dbs[k],
                name,
            ),
    decreases dbs.len(),
{
    if dbs.len() > 0 {
        let fewer = dbs.drop_last();
        law_every_profile_is_served(fewer, cert_path, name);
        law_database_commands_say_what_they_do(dbs.last().shown(), cert_path, name);
        let less = firefox_install_plan(fewer, true, cert_path, name);
        let more = firefox_install_plan(dbs, true, cert_path, name);
        let shorter = firefox_uninstall_plan(fewer, true, name);
        let longer = firefox_uninstall_plan(dbs, true, name);
        assert(forall|i: int| 0 <= i < less.len() ==> more[i] == #[trigger] less[i]);
        assert(forall|i: int| 0 <= i < shorter.len() ==> longer[i] == #[trigger] shorter[i]);
        assert forall|k: int| 0 <= k < dbs.len() implies replaces_at(
            more,
            3 * k,
            #[trigger] dbs[k],
            cert_path,
            name,
        ) by {
            if k < fewer.len() {
                assert(fewer[k] == dbs[k]);
                assert(replaces_at(less, 3 * k, fewer[k], cert_path, name));
                assert(more[3 * k] == less[3 * k]);
                assert(more[3 * k + 1] == less[3 * k + 1]);
                assert(more[3 * k + 2] == less[3 * k + 2]);
            }
        }
        assert forall|k: int| 0 <= k < dbs.len() implies removes_at(
            longer,
            2 * k,
            #[trigger] dbs[k],
            name,
        ) by {
            if k < fewer.len() {
                assert(fewer[k] == dbs[k]);
                assert(removes_at(shorter, 2 * k, fewer[k], name));
                assert(longer[2 * k] == shorter[2 * k]);
                assert(longer[2 * k + 1] == shorter[2 * k + 1]);
            }
        }
    }
}

/// A single database is served as one of several is.
pub proof fn law_one_database_is_served_alike<P>(
    dir: FilePathValue<P>,
    certutil: bool,
    cert_path: Seq<char>,
    name: Seq<char>,
)
    ensures
        import_plan(dir, certutil, cert_path, name) == firefox_install_plan(
            seq![dir],
            certutil,
            cert_path,
            name,
        ),
        removal_plan(dir, certutil, name) == firefox_uninstall_plan(seq![dir], certutil, name),
{
    reveal_with_fuel(firefox_install_plan, 2);
    reveal_with_fuel(firefox_uninstall_plan, 2);
    assert(seq![dir].drop_last() =~= Seq::<FilePathValue<P>>::empty());
}

/// The step is one of which a failure does not matter, or hands a directory to the user.
pub open spec fn is_lenient<P>(step: StepValue<P>) -> bool {
    step.policy is Ignored || step.action is SyncOwnership
}

/// Where every directory can be handed to the user, a plan that requires nothing else succeeds.
proof fn lemma_lenient_plans_succeed<P>(
    steps: Seq<StepValue<P>>,
    results: spec_fn(ActionValue<P>) -> Result<(), Seq<Seq<char>>>,
)
    requires
        forall|i: int| 0 <= i < steps.len() ==> is_lenient(#[trigger] steps[i]),
        forall|dir: FilePathValue<P>| (#[trigger] results(ActionValue::SyncOwnership(dir))) is Ok,
    ensures
        plan_result(steps, results) is Ok,
    decreases steps.len(),
{
    if steps.len() > 0 {
        assert(is_lenient(steps[0]));
        if steps[0].action is SyncOwnership {
            assert(results(ActionValue::SyncOwnership(steps[0].action->SyncOwnership_0)) is Ok);
        }
        assert forall|i: int| 0 <= i < steps.drop_first().len() implies is_lenient(
            #[trigger] steps.drop_first()[i],
        ) by {
            assert(is_lenient(steps[i + 1]));
        }
        lemma_lenient_plans_succeed(steps.drop_first(), results);
    }
}

/// A removal from the databases fails only where a directory cannot be handed to the user: whatever
/// `certutil` comes to, every database is reached.
pub proof fn law_removal_never_fails_with_certutil<P>(
    dbs: Seq<FilePathValue<P>>,
    home: Option<FilePathValue<P>>,
    dir_exists: bool,
    certutil: bool,
    name: Seq<char>,
    results: spec_fn(ActionValue<P>) -> Result<(), Seq<Seq<char>>>,
)
    requires
        forall|dir: FilePathValue<P>| (#[trigger] results(ActionValue::SyncOwnership(dir))) is Ok,
    ensures
        plan_result(firefox_uninstall_plan(dbs, certutil, name), results) is Ok,
        plan_result(nss_uninstall_plan(home, dir_exists, certutil, name), results) is Ok,
{
    lemma_removals_are_lenient(dbs, certutil, name);
    lemma_lenient_plans_succeed(firefox_uninstall_plan(dbs, certutil, name), results);
    lemma_lenient_plans_succeed(nss_uninstall_plan(home, dir_exists, certutil, name), results);
}

proof fn lemma_removals_are_lenient<P>(
    dbs: Seq<FilePathValue<P>>,
    certutil: bool,
    name: Seq<char>,
)
    ensures
        forall|i: int|
            0 <= i < firefox_uninstall_plan(dbs, certutil, name).len() ==> is_lenient(
                #[trigger] firefox_uninstall_plan(dbs, certutil, name)[i],
            ),
    decreases dbs.len(),
{
    if dbs.len() > 0 && certutil {
        lemma_removals_are_lenient(dbs.drop_last(), certutil, name);
        let less = firefox_uninstall_plan(dbs.drop_last(), certutil, name);
        let more = firefox_uninstall_plan(dbs, certutil, name);
        assert forall|i: int| 0 <= i < more.len() implies is_lenient(#[trigger] more[i]) by {
            if i < less.len() {
                assert(more[i] == less[i]);
            }
        }
    }
}

/// What the database in `dir` has under the name after a command that succeeded, where it had `held`.
pub open spec fn held_after_command(
    line: CommandText,
    dir: Seq<char>,
    name: Seq<char>,
    held: Option<Seq<char>>,
) -> Option<Seq<char>> {
    if takes_out(line, dir, name) {
        None
    } else if line.args.len() == 9 && puts_in(line, dir, name, line.args[8]) {
        Some(line.args[8])
    } else {
        held
    }
}

/// What the database in `dir` has under the name after a plan was carried out, where its steps come to
/// `results` and it had `held` before.
pub open spec fn held_after<P>(
    steps: Seq<StepValue<P>>,
    results: spec_fn(ActionValue<P>) -> Result<(), Seq<Seq<char>>>,
    dir: Seq<char>,
    name: Seq<char>,
    held: Option<Seq<char>>,
) -> Option<Seq<char>>
    decreases steps.len(),
{
    if steps.len() == 0 {
        held
    } else {
        let result = results(steps[0].action);
        let now = match steps[0].action {
            ActionValue::Run(line) if result is Ok => held_after_command(line, dir, name, held),
            _ => held,
        };
        if verdict_after(steps, result) is Err || steps_after(steps, result).len() == 0 {
            now
        } else {
            held_after(steps.drop_first(), results, dir, name, now)
        }
    }
}

/// An installation that succeeds leaves the certificate in the database of the user under its name,
/// whatever the database had there before, and whether or not that could be taken out. A removal of which
/// `certutil` succeeds leaves nothing there.
pub proof fn law_database_holds_the_certificate<P>(
    home: FilePathValue<P>,
    db_exists: bool,
    cert_path: Seq<char>,
    name: Seq<char>,
    results: spec_fn(ActionValue<P>) -> Result<(), Seq<Seq<char>>>,
    held: Option<Seq<char>>,
)
    ensures
        ({
            let dir = home.below(".pki/nssdb"@).shown();
            let install = nss_install_plan(Some(home), true, db_exists, cert_path, name);
            let remove = nss_uninstall_plan(Some(home), true, true, name);
            &&& plan_result(install, results) is Ok ==> held_after(
                install,
                results,
                dir,
                name,
                held,
            ) == Some(cert_path)
            &&& results(remove[0].action) is Ok ==> held_after(
                remove,
                results,
                dir,
                name,
                held,
            ) is None
        }),
{
    let dir = home.below(".pki/nssdb"@);
    let install = nss_install_plan(Some(home), true, db_exists, cert_path, name);
    let remove = nss_uninstall_plan(Some(home), true, true, name);
    law_database_commands_say_what_they_do(dir.shown(), cert_path, name);
    law_nss_installation_ends_with_the_certificate(home, true, db_exists, cert_path, name);
    reveal_with_fuel(held_after, 6);
    reveal_with_fuel(plan_result, 6);
    let n = install.len() as int;
    let tail = install.skip(n - 3);
    assert(nss_delete(dir.shown(), name).args.len() == 5);
    assert(nss_add(dir.shown(), cert_path, name).args.len() == 9);
    assert(nss_create(dir.shown()).args.len() == 4);
    if db_exists {
        assert(install.drop_first() =~= tail);
    } else {
        assert(install.drop_first().drop_first() =~= tail);
        assert(install.drop_first()[0] == install[1]);
    }
    assert(tail[0] == install[n - 3] && tail[1] == install[n - 2] && tail[2] == install[n - 1]);
    assert(tail.drop_first()[0] == tail[1]);
    assert(tail.drop_first().drop_first()[0] == tail[2]);
    assert(tail.drop_first().drop_first().drop_first().len() == 0);
    assert(remove.drop_first()[0] == remove[1]);
}

/// The profiles of Firefox are looked for below the home directory, in two places.
pub proof fn law_profiles_lie_below_home<P>(home: FilePathValue<P>)
    ensures
        profile_roots::<P>(None).len() == 0,
        profile_roots(Some(home)).len() == 2,
        profile_roots(Some(home))[0] == home.below(".mozilla/firefox"@),
        profile_roots(Some(home))[1] == home.below("snap/firefox/common/.mozilla/firefox"@),
{
}

/// The profiles that are found come in the order of the entries: one more entry adds a profile at the
/// end where it is a directory with a database, and a failure where it could not be read and nothing failed
/// before.
pub proof fn law_entries_are_taken_in_order<P>(
    found: Seq<FilePathValue<P>>,
    entries: Seq<ProfileRead<P>>,
    last: ProfileRead<P>,
)
    ensures
        profiles_in(found, Seq::<ProfileRead<P>>::empty()) == Ok::<
            Seq<FilePathValue<P>>,
            Seq<Seq<char>>,
        >(found),
        profiles_in(found, entries.push(last)) == (match profiles_in(found, entries) {
            Err(causes) => Err(causes),
            Ok(list) => match last {
                ProfileRead::Broken(error) => Err(error@),
                ProfileRead::Entry(entry) => if entry.is_dir && entry.has_db {
                    Ok(list.push(entry.path@))
                } else {
                    Ok(list)
                },
            },
        }),
    decreases entries.len(),
{
    reveal_with_fuel(profiles_in, 2);
    if entries.len() == 0 {
        assert(entries.push(last).drop_first() =~= entries);
    } else {
        assert(entries.push(last).drop_first() =~= entries.drop_first().push(last));
        if let ProfileRead::Entry(entry) = entries[0] {
            let longer = if is_profile(entry) {
                found.push(entry.path@)
            } else {
                found
            };
            law_entries_are_taken_in_order(longer, entries.drop_first(), last);
        }
    }
}

/// The places are looked at in their order: one that is missing adds nothing, one that cannot be read is a
/// failure that names it, and one with entries adds its profiles; the first failure is the result.
pub proof fn law_places_are_taken_in_order<P>(
    found: Seq<FilePathValue<P>>,
    listings: Seq<RootListing<P>>,
    last: RootListing<P>,
)
    ensures
        all_profiles(found, Seq::<RootListing<P>>::empty()) == Ok::<
            Seq<FilePathValue<P>>,
            Seq<Seq<char>>,
        >(found),
        all_profiles(found, listings.push(last)) == (match all_profiles(found, listings) {
            Err(causes) => Err(causes),
            Ok(list) => match last {
                RootListing::Missing => Ok(list),
                RootListing::Unreadable(root, error) => Err(
                    seq!["failed to read "@ + root@] + error@,
                ),
                RootListing::Entries(entries) => profiles_in(list, entries@),
            },
        }),
    decreases listings.len(),
{
    reveal_with_fuel(all_profiles, 2);
    if listings.len() == 0 {
        assert(listings.push(last).drop_first() =~= listings);
    } else {
        let rest = listings.drop_first();
        assert(listings.push(last).drop_first() =~= rest.push(last));
        match listings[0] {
            RootListing::Missing => {
                law_places_are_taken_in_order(found, rest, last);
            },
            RootListing::Unreadable(_, _) => {},
            RootListing::Entries(entries) => {
                if let Ok(more) = profiles_in(found, entries@) {
                    law_places_are_taken_in_order(more, rest, last);
                }
            },
        }
    }
}

} // verus!
