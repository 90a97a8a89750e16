//! The root certificate in the trust stores of Android.

use vstd::prelude::*;
use vstd::string::*;

use crate::certificate::{
    android_cert_common_name, android_cert_subject_hash_old, bytes_outcome, md5_digest,
    pem_common_name, pem_subject, subject_hash,
};
use crate::failure::{outcome, text_outcome, Failure};
use crate::file_path::{FilePath, FilePathValue};
use crate::text::{join_path, opt_text, path_below, push_text, same_text, texts};

verus! {

/// The directories of the trust stores that Android may have.
pub open spec fn store_candidates() -> Seq<Seq<char>> {
    seq!["/apex/com.android.conscrypt/cacerts"@, "/system/etc/security/cacerts"@]
}

/// The directories of the trust stores that Android may have.
pub fn android_ca_store_candidates() -> (dirs: Vec<String>)
    ensures
        texts(dirs@) == store_candidates(),
{
    let mut dirs: Vec<String> = Vec::new();
    dirs.push("/apex/com.android.conscrypt/cacerts".to_string());
    dirs.push("/system/etc/security/cacerts".to_string());
    assert(texts(dirs@) =~= store_candidates());
    dirs
}

/// The directories of the trust stores that are there.
pub open spec fn present_stores(conscrypt_exists: bool, system_exists: bool) -> Seq<Seq<char>> {
    let first = if conscrypt_exists {
        Seq::empty().push(store_candidates()[0])
    } else {
        Seq::empty()
    };
    if system_exists {
        first.push(store_candidates()[1])
    } else {
        first
    }
}

/// The directories of the trust stores that are there, the one of Conscrypt first.
pub fn android_ca_store_dirs(conscrypt_exists: bool, system_exists: bool) -> (dirs: Vec<String>)
    ensures
        texts(dirs@) == present_stores(conscrypt_exists, system_exists),
{
    let mut dirs: Vec<String> = Vec::new();
    assert(texts(dirs@) =~= Seq::<Seq<char>>::empty());
    if conscrypt_exists {
        push_text(&mut dirs, "/apex/com.android.conscrypt/cacerts".to_string());
    }
    if system_exists {
        push_text(&mut dirs, "/system/etc/security/cacerts".to_string());
    }
    dirs
}

/// The file `file_name` in each of the directories.
pub open spec fn files_in(dirs: Seq<Seq<char>>, file_name: Seq<char>) -> Seq<Seq<char>> {
    Seq::new(dirs.len(), |i: int| path_below(dirs[i], file_name))
}

/// The file `file_name` in each of the directories.
pub fn android_ca_store_destinations(dirs: &Vec<String>, file_name: &str) -> (files: Vec<String>)
    ensures
        texts(files@) == files_in(texts(dirs@), file_name@),
{
    let mut files: Vec<String> = Vec::new();
    let ghost all = files_in(texts(dirs@), file_name@);
    for i in 0..dirs.len()
        invariant
            all == files_in(texts(dirs@), file_name@),
            texts(files@) =~= all.take(i as int),
    {
        push_text(&mut files, join_path(dirs[i].as_str(), file_name));
    }
    assert(all.take(all.len() as int) =~= all);
    files
}

/// The name of the file of a certificate in a trust store, or why it has none.
pub fn android_ca_file_name(cert_pem: &Vec<u8>) -> (name: Result<String, Failure>)
    ensures
        text_outcome(name) == (match pem_subject(cert_pem@) {
            Err(causes) => Err(causes),
            Ok((subject, _)) => Ok(subject_hash(md5_digest(subject)) + ".0"@),
        }),
{
    match android_cert_subject_hash_old(cert_pem) {
        Err(failure) => Err(failure),
        Ok(hash) => Ok(hash.concat(".0")),
    }
}

/// The certificate in the file `path`, in PEM, or why it is not known.
pub fn read_certificate(path: &str, read: Result<Vec<u8>, Failure>) -> (pem: Result<
    Vec<u8>,
    Failure,
>)
    ensures
        bytes_outcome(pem) == (match bytes_outcome(read) {
            Ok(bytes) => Ok(bytes),
            Err(causes) => Err(seq!["failed to read "@ + path@] + causes),
        }),
{
    match read {
        Ok(bytes) => Ok(bytes),
        Err(error) => Err(error.context("failed to read ".to_string().concat(path))),
    }
}

/// What writing a certificate into a trust store came to.
#[derive(Debug)]
pub enum StoreOutcome {
    /// The file could not be written.
    NotWritten,
    /// The file was written, and making it readable to all came to this.
    Written(Result<(), Failure>),
}

/// The attempt to write a certificate into a trust store.
#[derive(Debug)]
pub struct StoreWrite {
    pub path: String,
    pub outcome: StoreOutcome,
}

/// The attempt left a file that is readable to all.
pub open spec fn is_installed(write: StoreWrite) -> bool {
    write.outcome matches StoreOutcome::Written(result) && result is Ok
}

/// The attempt left a file that may not be readable to all.
pub open spec fn is_unreadable(write: StoreWrite) -> bool {
    write.outcome matches StoreOutcome::Written(result) && result is Err
}

/// Whether the next store is to be tried after this attempt: not after a file that could not be
/// made readable to all.
pub fn tries_next_store(write: &StoreWrite) -> (next: bool)
    ensures
        next == !is_unreadable(*write),
{
    match &write.outcome {
        StoreOutcome::Written(Err(_)) => false,
        _ => true,
    }
}

/// What the attempts come to, in order, where a certificate was `installed` before or not: the
/// first file that could not be made readable is a failure; one that could not be written is
/// passed over, as long as another could.
pub open spec fn install_result(
    writes: Seq<StoreWrite>,
    installed: bool,
    common_name: Seq<char>,
) -> Result<Seq<char>, Seq<Seq<char>>>
    decreases writes.len(),
{
    if writes.len() == 0 {
        if installed {
            Ok("installed root certificate: "@ + common_name)
        } else {
            Err(seq!["failed to install Android CA into any known trust store"@])
        }
    } else {
        match writes[0].outcome {
            StoreOutcome::NotWritten => install_result(writes.drop_first(), installed, common_name),
            StoreOutcome::Written(Ok(_)) => install_result(writes.drop_first(), true, common_name),
            StoreOutcome::Written(Err(error)) => Err(
                seq!["failed to chmod "@ + writes[0].path@] + error@,
            ),
        }
    }
}

/// The result of the installation: the line to be printed, or why it failed.
pub fn android_install_ca(writes: Vec<StoreWrite>, common_name: &str) -> (line: Result<
    String,
    Failure,
>)
    ensures
        text_outcome(line) == install_result(writes@, false, common_name@),
{
    let mut installed = false;
    let mut rest = writes;
    let ghost goal = install_result(writes@, false, common_name@);
    while rest.len() > 0
        invariant
            goal == install_result(writes@, false, common_name@),
            goal == install_result(rest@, installed, common_name@),
        decreases rest@.len(),
    {
        let ghost before = rest@;
        let write = rest.remove(0);
        assert(rest@ =~= before.drop_first());
        match write.outcome {
            StoreOutcome::NotWritten => {},
            StoreOutcome::Written(Ok(_)) => {
                installed = true;
            },
            StoreOutcome::Written(Err(error)) => {
                return Err(
                    error.context("failed to chmod ".to_string().concat(write.path.as_str())),
                );
            },
        }
    }
    if !installed {
        return Err(
            Failure::new(
                "failed to install Android CA into any known trust store".to_string(),
            ),
        );
    }
    Ok("installed root certificate: ".to_string().concat(common_name))
}

/// The file holds a certificate with the common name; a file that could not be read does not.
pub open spec fn holds_certificate(content: Option<Seq<u8>>, common_name: Seq<char>) -> bool {
    match content {
        Some(content) => pem_common_name(content) == Ok::<Seq<char>, Seq<Seq<char>>>(common_name),
        None => false,
    }
}

/// The content of a file, as values.
pub open spec fn content_value(content: Option<Vec<u8>>) -> Option<Seq<u8>> {
    match content {
        Some(content) => Some(content@),
        None => None,
    }
}

/// What is met on a walk through a trust store.
#[derive(Debug)]
pub enum StoreEntry<P> {
    /// The entries of the store could not be listed.
    Unlisted(Failure),
    /// An entry could not be read.
    Unreadable(Failure),
    /// An entry at this path, with its content where it is a file that could be read.
    Entry(FilePath<P>, Option<Vec<u8>>),
}

/// The file to be removed, if any, or why the walk fails.
pub open spec fn removal_outcome<P>(result: Result<Option<FilePath<P>>, Failure>) -> Result<
    Option<FilePathValue<P>>,
    Seq<Seq<char>>,
> {
    match result {
        Ok(Some(path)) => Ok(Some(path@)),
        Ok(None) => Ok(None),
        Err(failure) => Err(failure@),
    }
}

/// The line to be printed, if any, or why the removal failed.
pub open spec fn line_outcome(result: Result<Option<String>, Failure>) -> Result<
    Option<Seq<char>>,
    Seq<Seq<char>>,
> {
    match result {
        Ok(line) => Ok(opt_text(line)),
        Err(failure) => Err(failure@),
    }
}

/// The file to be removed where `entry` is met on a walk through the trust store `store`: one that
/// holds a certificate with the common name.
pub open spec fn wanted_removal<P>(
    store: Seq<char>,
    entry: StoreEntry<P>,
    common_name: Seq<char>,
) -> Result<
    Option<FilePathValue<P>>,
    Seq<Seq<char>>,
> {
    match entry {
        StoreEntry::Unlisted(error) => Err(seq!["failed to read directory "@ + store] + error@),
        StoreEntry::Unreadable(error) => Err(seq!["failed to walk "@ + store] + error@),
        StoreEntry::Entry(path, content) => Ok(
            if holds_certificate(content_value(content), common_name) {
                Some(path@)
            } else {
                None
            },
        ),
    }
}

/// The file to be removed where `entry` is met on a walk through the trust store `store`, if any, or
/// why the walk fails there.
pub fn file_to_remove<P>(store: &str, entry: StoreEntry<P>, common_name: &str) -> (path: Result<
    Option<FilePath<P>>,
    Failure,
>)
    ensures
        removal_outcome(path) == wanted_removal(store@, entry, common_name@),
{
    match entry {
        StoreEntry::Unlisted(error) => Err(
            error.context("failed to read directory ".to_string().concat(store)),
        ),
        StoreEntry::Unreadable(error) => Err(
            error.context("failed to walk ".to_string().concat(store)),
        ),
        StoreEntry::Entry(path, content) => {
            let found = match content {
                None => false,
                Some(content) => match android_cert_common_name(&content) {
                    Ok(name) => same_text(name.as_str(), common_name),
                    Err(_) => false,
                },
            };
            if found {
                Ok(Some(path))
            } else {
                Ok(None)
            }
        },
    }
}

/// What happened at an entry of a trust store.
#[derive(Debug)]
pub enum StoreVisit {
    /// The walk failed there.
    Failed(Failure),
    /// There was nothing to be removed.
    Passed,
    /// The file at this path was to be removed, and removing it came to this.
    Removed(String, Result<(), Failure>),
}

/// What happened at an entry of a trust store, as values.
pub enum StoreVisitValue {
    Failed(Seq<Seq<char>>),
    Passed,
    Removed(Seq<char>, Result<(), Seq<Seq<char>>>),
}

impl View for StoreVisit {
    type V = StoreVisitValue;

    open spec fn view(&self) -> StoreVisitValue {
        match self {
            StoreVisit::Failed(failure) => StoreVisitValue::Failed(failure@),
            StoreVisit::Passed => StoreVisitValue::Passed,
            StoreVisit::Removed(path, result) => StoreVisitValue::Removed(path@, outcome(*result)),
        }
    }
}

/// What happened at the entries of the trust stores, as values.
pub open spec fn visit_values(visits: Seq<StoreVisit>) -> Seq<StoreVisitValue> {
    Seq::new(visits.len(), |i: int| visits[i]@)
}

/// Whether a file was removed at an entry of a trust store, or why the walk fails there.
pub open spec fn visit_result(visit: StoreVisitValue) -> Result<bool, Seq<Seq<char>>> {
    match visit {
        StoreVisitValue::Failed(causes) => Err(causes),
        StoreVisitValue::Passed => Ok(false),
        StoreVisitValue::Removed(path, Ok(_)) => Ok(true),
        StoreVisitValue::Removed(path, Err(causes)) => Err(
            seq!["failed to remove "@ + path] + causes,
        ),
    }
}

/// Whether the walk goes on after this visit: not after one that fails.
pub fn walks_on(visit: &StoreVisit) -> (next: bool)
    ensures
        next == (visit_result(visit@) is Ok),
{
    match visit {
        StoreVisit::Failed(_) => false,
        StoreVisit::Passed => true,
        StoreVisit::Removed(_, result) => result.is_ok(),
    }
}

/// What the visits come to, in order, where a file was `removed` before or not: the first that
/// fails is the failure of the whole; and where no file was removed, a line is to be printed.
pub open spec fn uninstall_result(
    visits: Seq<StoreVisitValue>,
    removed: bool,
    common_name: Seq<char>,
) -> Result<Option<Seq<char>>, Seq<Seq<char>>>
    decreases visits.len(),
{
    if visits.len() == 0 {
        if removed {
            Ok(None)
        } else {
            Ok(Some("root certificate not found in Android trust store: "@ + common_name))
        }
    } else {
        match visit_result(visits[0]) {
            Err(causes) => Err(causes),
            Ok(one) => uninstall_result(visits.drop_first(), removed || one, common_name),
        }
    }
}

/// The result of the removal, by what happened at each entry of each trust store: the line to be
/// printed, if any, or why it failed.
pub fn android_uninstall_ca(visits: Vec<StoreVisit>, common_name: &str) -> (line: Result<
    Option<String>,
    Failure,
>)
    ensures
        line_outcome(line) == uninstall_result(visit_values(visits@), false, common_name@),
{
    let mut removed = false;
    let mut rest = visits;
    let ghost goal = uninstall_result(visit_values(visits@), false, common_name@);
    while rest.len() > 0
        invariant
            goal == uninstall_result(visit_values(visits@), false, common_name@),
            goal == uninstall_result(visit_values(rest@), removed, common_name@),
        decreases rest@.len(),
    {
        let ghost before = rest@;
        let visit = rest.remove(0);
        assert(visit_values(rest@) =~= visit_values(before).drop_first());
        assert(visit_values(before)[0] == visit@);
        match visit {
            StoreVisit::Failed(failure) => {
                return Err(failure);
            },
            StoreVisit::Passed => {},
            StoreVisit::Removed(_, Ok(_)) => {
                removed = true;
            },
            StoreVisit::Removed(path, Err(error)) => {
                return Err(
                    error.context("failed to remove ".to_string().concat(path.as_str())),
                );
            },
        }
    }
    if removed {
        return Ok(None);
    }
    Ok(
        Some(
            "root certificate not found in Android trust store: ".to_string().concat(common_name),
        ),
    )
}

// ---------------------------------------------------------------------------------------------
// Laws
// ---------------------------------------------------------------------------------------------

/// The installation succeeds if and only if some store took the certificate and every file that
/// was written could be made readable to all.
pub proof fn law_installation_needs_one_store(
    writes: Seq<StoreWrite>,
    installed: bool,
    common_name: Seq<char>,
)
    ensures
        install_result(writes, installed, common_name) is Ok <==> {
            &&& installed || exists|i: int|
                0 <= i < writes.len() && is_installed(#[trigger] writes[i])
            &&& forall|i: int| 0 <= i < writes.len() ==> !is_unreadable(#[trigger] writes[i])
        },
    decreases writes.len(),
{
    if writes.len() > 0 {
        let rest = writes.drop_first();
        let now = installed || is_installed(writes[0]);
        law_installation_needs_one_store(rest, now, common_name);
        assert(forall|i: int| 0 <= i < rest.len() ==> rest[i] == #[trigger] writes[i + 1]);
        assert forall|i: int| 0 <= i < rest.len() && is_installed(#[trigger] rest[i]) implies exists|
            k: int,
        |
            0 <= k < writes.len() && is_installed(#[trigger] writes[k]) by {
            assert(is_installed(writes[i + 1]));
        }
        assert forall|k: int| 0 < k < writes.len() implies #[trigger] writes[k] == rest[k - 1] by {}
        if forall|i: int| 0 <= i < rest.len() ==> !is_unreadable(#[trigger] rest[i]) {
            assert(forall|k: int|
                0 < k < writes.len() ==> !is_unreadable(#[trigger] writes[k])) by {
                assert forall|k: int| 0 < k < writes.len() implies !is_unreadable(
                    #[trigger] writes[k],
                ) by {
                    assert(!is_unreadable(rest[k - 1]));
                }
            }
        } else {
            let i = choose|i: int| 0 <= i < rest.len() && is_unreadable(#[trigger] rest[i]);
            assert(is_unreadable(writes[i + 1]));
        }
        if exists|k: int| 0 <= k < writes.len() && is_installed(#[trigger] writes[k]) {
            let k = choose|k: int| 0 <= k < writes.len() && is_installed(#[trigger] writes[k]);
            if k > 0 {
                assert(is_installed(rest[k - 1]));
            }
        }
    }
}

/// The visit at an entry of the trust store `store`, where removing a file comes to what `results`
/// says of its path.
pub open spec fn visit_at<P>(
    store: Seq<char>,
    entry: StoreEntry<P>,
    common_name: Seq<char>,
    results: spec_fn(FilePathValue<P>) -> Result<(), Seq<Seq<char>>>,
) -> StoreVisitValue {
    match wanted_removal(store, entry, common_name) {
        Err(causes) => StoreVisitValue::Failed(causes),
        Ok(None) => StoreVisitValue::Passed,
        Ok(Some(path)) => StoreVisitValue::Removed(path.shown(), results(path)),
    }
}

/// The visits at the entries of the trust stores, each with the store that it lies in.
pub open spec fn visits_at<P>(
    entries: Seq<(Seq<char>, StoreEntry<P>)>,
    common_name: Seq<char>,
    results: spec_fn(FilePathValue<P>) -> Result<(), Seq<Seq<char>>>,
) -> Seq<StoreVisitValue> {
    Seq::new(
        entries.len(),
        |i: int| visit_at(entries[i].0, entries[i].1, common_name, results),
    )
}

/// The entry is a file that holds a certificate with the common name.
pub open spec fn is_wanted<P>(entry: StoreEntry<P>, common_name: Seq<char>) -> bool {
    match entry {
        StoreEntry::Entry(_, content) => holds_certificate(content_value(content), common_name),
        _ => false,
    }
}

/// A removal that succeeds has been at every entry of the trust stores and has removed every file
/// with the certificate, and it says that it found none if and only if there was none.
pub proof fn law_removal_leaves_no_certificate<P>(
    entries: Seq<(Seq<char>, StoreEntry<P>)>,
    common_name: Seq<char>,
    results: spec_fn(FilePathValue<P>) -> Result<(), Seq<Seq<char>>>,
)
    ensures
        match uninstall_result(visits_at(entries, common_name, results), false, common_name) {
            Ok(line) => {
                &&& forall|i: int|
                    0 <= i < entries.len() && is_wanted((#[trigger] entries[i]).1, common_name)
                        ==> results(entries[i].1->Entry_0@) is Ok
                &&& line is None <==> exists|i: int|
                    0 <= i < entries.len() && is_wanted((#[trigger] entries[i]).1, common_name)
            },
            Err(_) => true,
        },
{
    let visits = visits_at(entries, common_name, results);
    lemma_removal(visits, false, common_name);
    if let Ok(line) = uninstall_result(visits, false, common_name) {
        assert forall|i: int|
            0 <= i < entries.len() && is_wanted(
                (#[trigger] entries[i]).1,
                common_name,
            ) implies results(entries[i].1->Entry_0@) is Ok by {
            assert(visit_result(visits[i]) is Ok);
        }
        if line is None {
            let i = choose|i: int| #[trigger] is_removal(visits, i);
            assert(is_wanted(entries[i].1, common_name));
        }
        if exists|i: int|
            0 <= i < entries.len() && is_wanted((#[trigger] entries[i]).1, common_name) {
            let i = choose|i: int|
                0 <= i < entries.len() && is_wanted((#[trigger] entries[i]).1, common_name);
            assert(visit_result(visits[i]) is Ok);
            assert(is_removal(visits, i));
        }
    }
}

/// A removal that fails does so at its first failure: whatever was to follow does not matter.
pub proof fn law_removal_ends_at_a_failure(
    before: Seq<StoreVisitValue>,
    failed: StoreVisitValue,
    after: Seq<StoreVisitValue>,
    removed: bool,
    common_name: Seq<char>,
)
    requires
        visit_result(failed) is Err,
        forall|i: int| 0 <= i < before.len() ==> visit_result(#[trigger] before[i]) is Ok,
    ensures
        uninstall_result(before.push(failed) + after, removed, common_name) == Err::<
            Option<Seq<char>>,
            Seq<Seq<char>>,
        >(visit_result(failed)->Err_0),
    decreases before.len(),
{
    let all = before.push(failed) + after;
    if before.len() > 0 {
        assert(all[0] == before[0]);
        assert(visit_result(before[0]) is Ok);
        let rest = before.drop_first();
        assert(all.drop_first() =~= rest.push(failed) + after);
        law_removal_ends_at_a_failure(
            rest,
            failed,
            after,
            removed || visit_result(before[0])->Ok_0,
            common_name,
        );
    } else {
        assert(all[0] == failed);
    }
}

/// A file was removed at visit `i`.
pub open spec fn is_removal(visits: Seq<StoreVisitValue>, i: int) -> bool {
    0 <= i < visits.len() && visit_result(visits[i]) == Ok::<bool, Seq<Seq<char>>>(true)
}

proof fn lemma_removal(visits: Seq<StoreVisitValue>, removed: bool, common_name: Seq<char>)
    ensures
        match uninstall_result(visits, removed, common_name) {
            Ok(line) => {
                &&& forall|i: int| 0 <= i < visits.len() ==> visit_result(#[trigger] visits[i]) is Ok
                &&& line is None <==> removed || exists|i: int| #[trigger] is_removal(visits, i)
            },
            Err(_) => true,
        },
    decreases visits.len(),
{
    if visits.len() > 0 {
        let rest = visits.drop_first();
        assert(forall|i: int| 0 < i < visits.len() ==> #[trigger] visits[i] == rest[i - 1]);
        if let Ok(one) = visit_result(visits[0]) {
            lemma_removal(rest, removed || one, common_name);
            if exists|i: int| #[trigger] is_removal(rest, i) {
                let i = choose|i: int| #[trigger] is_removal(rest, i);
                assert(is_removal(visits, i + 1));
            }
            if one {
                assert(is_removal(visits, 0));
            }
            if exists|i: int| #[trigger] is_removal(visits, i) {
                let i = choose|i: int| #[trigger] is_removal(visits, i);
                if i > 0 {
                    assert(is_removal(rest, i - 1));
                }
            }
        }
    } else {
        assert(forall|i: int| !#[trigger] is_removal(visits, i));
    }
}

/// Android may have two trust stores, of which those that are there are used, that of Conscrypt first.
pub proof fn law_stores_have_their_places()
    ensures
        store_candidates() == seq![
            "/apex/com.android.conscrypt/cacerts"@,
            "/system/etc/security/cacerts"@,
        ],
        present_stores(true, true) == store_candidates(),
        present_stores(true, false) == seq!["/apex/com.android.conscrypt/cacerts"@],
        present_stores(false, true) == seq!["/system/etc/security/cacerts"@],
        present_stores(false, false).len() == 0,
{
    assert(present_stores(true, true) =~= store_candidates());
    assert(present_stores(true, false) =~= seq!["/apex/com.android.conscrypt/cacerts"@]);
    assert(present_stores(false, true) =~= seq!["/system/etc/security/cacerts"@]);
}

/// The certificate goes into each store, under the same name.
pub proof fn law_each_store_gets_the_file(dirs: Seq<Seq<char>>, file_name: Seq<char>, i: int)
    requires
        0 <= i < dirs.len(),
    ensures
        files_in(dirs, file_name).len() == dirs.len(),
        files_in(dirs, file_name)[i] == path_below(dirs[i], file_name),
{
}

/// The first file that could not be made readable to all ends the installation with a message that names
/// it, whatever follows; where there is none, the installation says that it succeeded, or that no store took
/// the certificate.
pub proof fn law_installation_is_told(
    before: Seq<StoreWrite>,
    failed: StoreWrite,
    after: Seq<StoreWrite>,
    installed: bool,
    common_name: Seq<char>,
)
    requires
        forall|i: int| 0 <= i < before.len() ==> !is_unreadable(#[trigger] before[i]),
    ensures
        failed.outcome matches StoreOutcome::Written(Err(error)) ==> install_result(
            before.push(failed) + after,
            installed,
            common_name,
        ) == Err::<Seq<char>, Seq<Seq<char>>>(seq!["failed to chmod "@ + failed.path@] + error@),
        install_result(before, installed, common_name) == (if installed || exists|i: int|
            0 <= i < before.len() && is_installed(#[trigger] before[i]) {
            Ok("installed root certificate: "@ + common_name)
        } else {
            Err(seq!["failed to install Android CA into any known trust store"@])
        }),
    decreases before.len(),
{
    let all = before.push(failed) + after;
    if before.len() > 0 {
        let rest = before.drop_first();
        assert(!is_unreadable(before[0]));
        assert forall|i: int| 0 <= i < rest.len() implies !is_unreadable(#[trigger] rest[i]) by {
            assert(!is_unreadable(before[i + 1]));
        }
        assert(all[0] == before[0]);
        assert(all.drop_first() =~= rest.push(failed) + after);
        let now = installed || is_installed(before[0]);
        law_installation_is_told(rest, failed, after, now, common_name);
        if exists|i: int| 0 <= i < rest.len() && is_installed(#[trigger] rest[i]) {
            let i = choose|i: int| 0 <= i < rest.len() && is_installed(#[trigger] rest[i]);
            assert(is_installed(before[i + 1]));
        }
        if exists|i: int| 0 <= i < before.len() && is_installed(#[trigger] before[i]) {
            let i = choose|i: int| 0 <= i < before.len() && is_installed(#[trigger] before[i]);
            if i > 0 {
                assert(is_installed(rest[i - 1]));
            }
        }
    } else {
        assert(all[0] == failed);
    }
}

/// A write counts as an installation where the file was written and made readable to all, and ends the
/// installation where it was written and could not be.
pub proof fn law_writes_are_told_apart(write: StoreWrite)
    ensures
        write.outcome is NotWritten ==> !is_installed(write) && !is_unreadable(write),
        write.outcome is Written ==> is_installed(write) == (write.outcome->Written_0 is Ok)
            && is_unreadable(write) == (write.outcome->Written_0 is Err),
{
}

/// A file is removed exactly where it could be read and holds a certificate with the common name; a store
/// that cannot be listed, or an entry that cannot be read, is told with the store.
pub proof fn law_only_the_certificate_is_removed<P>(
    store: Seq<char>,
    path: FilePath<P>,
    content: Option<Vec<u8>>,
    error: Failure,
    common_name: Seq<char>,
)
    ensures
        wanted_removal(store, StoreEntry::Entry(path, content), common_name) == Ok::<
            Option<FilePathValue<P>>,
            Seq<Seq<char>>,
        >(
            if content is Some && pem_common_name(content->0@) == Ok::<Seq<char>, Seq<Seq<char>>>(
                common_name,
            ) {
                Some(path@)
            } else {
                None
            },
        ),
        wanted_removal(store, StoreEntry::<P>::Unlisted(error), common_name) == Err::<
            Option<FilePathValue<P>>,
            Seq<Seq<char>>,
        >(seq!["failed to read directory "@ + store] + error@),
        wanted_removal(store, StoreEntry::<P>::Unreadable(error), common_name) == Err::<
            Option<FilePathValue<P>>,
            Seq<Seq<char>>,
        >(seq!["failed to walk "@ + store] + error@),
{
}

/// A visit fails where the walk failed there or the file could not be removed, which is told with its path;
/// it removed something where the file was.
pub proof fn law_visits_are_told_apart(
    path: Seq<char>,
    causes: Seq<Seq<char>>,
    visits: Seq<StoreVisitValue>,
    removed: bool,
    common_name: Seq<char>,
)
    ensures
        visit_result(StoreVisitValue::Failed(causes)) == Err::<bool, Seq<Seq<char>>>(causes),
        visit_result(StoreVisitValue::Passed) == Ok::<bool, Seq<Seq<char>>>(false),
        visit_result(StoreVisitValue::Removed(path, Ok(()))) == Ok::<bool, Seq<Seq<char>>>(true),
        visit_result(StoreVisitValue::Removed(path, Err(causes))) == Err::<bool, Seq<Seq<char>>>(
            seq!["failed to remove "@ + path] + causes,
        ),
        uninstall_result(visits, removed, common_name) matches Ok(Some(line)) ==> line
            == "root certificate not found in Android trust store: "@ + common_name,
    decreases visits.len(),
{
    if visits.len() > 0 {
        if let Ok(one) = visit_result(visits[0]) {
            law_visits_are_told_apart(
                path,
                causes,
                visits.drop_first(),
                removed || one,
                common_name,
            );
        }
    }
}

/// A removal on which no visit fails succeeds: it says that there was no certificate exactly where none was
/// removed.
pub proof fn law_removal_succeeds_with_its_visits(
    visits: Seq<StoreVisitValue>,
    removed: bool,
    common_name: Seq<char>,
)
    requires
        forall|i: int| 0 <= i < visits.len() ==> visit_result(#[trigger] visits[i]) is Ok,
    ensures
        uninstall_result(visits, removed, common_name) is Ok,
        uninstall_result(visits, removed, common_name)->Ok_0 is None <==> removed || exists|i: int|
            #[trigger] is_removal(visits, i),
    decreases visits.len(),
{
    lemma_removal(visits, removed, common_name);
    if visits.len() > 0 {
        let rest = visits.drop_first();
        assert(visit_result(visits[0]) is Ok);
        assert forall|i: int| 0 <= i < rest.len() implies visit_result(#[trigger] rest[i]) is Ok by {
            assert(visit_result(visits[i + 1]) is Ok);
        }
        law_removal_succeeds_with_its_visits(
            rest,
            removed || visit_result(visits[0])->Ok_0,
            common_name,
        );
    }
}

} // verus!
