//! Whose files the program writes: run with administrator rights, it hands what it has written
//! back to the user who started it.

use vstd::prelude::*;
use vstd::string::*;

use crate::failure::{outcome, Failure};
use crate::platform::Platform;
use crate::text::{opt_str, parse_u32, parsed_u32};

verus! {

/// A user id and a group id.
pub type Owner = (u32, u32);

/// The user id that the tools for administrator rights leave in the environment: that of
/// `PKEXEC_UID`, or that of `SUDO_UID` where the former is not set.
pub open spec fn invoking_user(
    pkexec_uid: Option<Seq<char>>,
    sudo_uid: Option<Seq<char>>,
) -> Option<u32> {
    match pkexec_uid {
        Some(value) => parsed_u32(value),
        None => match sudo_uid {
            Some(value) => parsed_u32(value),
            None => None,
        },
    }
}

/// The user who asked for administrator rights, by the environment.
pub fn invoking_uid(pkexec_uid: Option<&str>, sudo_uid: Option<&str>) -> (uid: Option<u32>)
    ensures
        uid == invoking_user(opt_str(pkexec_uid), opt_str(sudo_uid)),
{
    match pkexec_uid {
        Some(value) => parse_u32(value),
        None => match sudo_uid {
            Some(value) => parse_u32(value),
            None => None,
        },
    }
}

/// The user who asked for administrator rights, where `group` is the group that the user database
/// gives for them.
pub fn original_user_ids(uid: Option<u32>, group: Option<u32>) -> (ids: Option<Owner>)
    ensures
        ids == (match (uid, group) {
            (Some(uid), Some(gid)) => Some((uid, gid)),
            _ => None,
        }),
{
    match (uid, group) {
        (Some(uid), Some(gid)) => Some((uid, gid)),
        _ => None,
    }
}

/// The home directory of the user who asked for administrator rights: the one that the user
/// database gives for them, and else the one in the environment.
pub fn original_user_home_dir<P>(
    uid: Option<u32>,
    recorded_home: Option<P>,
    home_variable: Option<P>,
) -> (home: Option<P>)
    ensures
        home == (if uid is Some && recorded_home is Some {
            recorded_home
        } else {
            home_variable
        }),
{
    match (uid, recorded_home) {
        (Some(_), Some(home)) => Some(home),
        _ => home_variable,
    }
}

/// The first owner that is known.
pub open spec fn first_known(owners: Seq<Option<Owner>>) -> Option<Owner>
    decreases owners.len(),
{
    if owners.len() == 0 {
        None
    } else if owners[0] is Some {
        owners[0]
    } else {
        first_known(owners.drop_first())
    }
}

/// The owner of a path's surroundings. `owners` are those of the path itself, of its parent, and
/// so on up to the root, as far as they are known: that of the path counts where it is a
/// directory, and otherwise that of its parent, and where one is not known the next one up.
pub open spec fn surrounding_owner(is_dir: bool, owners: Seq<Option<Owner>>) -> Option<Owner> {
    if is_dir || owners.len() == 0 {
        first_known(owners)
    } else {
        first_known(owners.drop_first())
    }
}

/// The owner of a path's surroundings.
pub fn owner_ids_from_parent(is_dir: bool, owners: &Vec<Option<Owner>>) -> (owner: Option<Owner>)
    ensures
        owner == surrounding_owner(is_dir, owners@),
{
    if owners.len() == 0 {
        return None;
    }
    let start: usize = if is_dir {
        0
    } else {
        1
    };
    let mut i: usize = start;
    assert(owners@.skip(0) =~= owners@);
    assert(owners@.skip(1) =~= owners@.drop_first());
    while i < owners.len()
        invariant
            start <= i <= owners@.len(),
            first_known(owners@.skip(start as int)) == first_known(owners@.skip(i as int)),
            surrounding_owner(is_dir, owners@) == first_known(owners@.skip(start as int)),
        decreases owners@.len() - i,
    {
        assert(owners@.skip(i as int).drop_first() =~= owners@.skip(i + 1));
        let owner: Option<Owner> = owners[i];
        if owner.is_some() {
            return owner;
        }
        i = i + 1;
    }
    None
}

/// The user to whom files are handed: on Linux the one who asked for administrator rights, and
/// otherwise the owner of the surroundings.
pub fn sync_target_user_ids(
    platform: Platform,
    original: Option<Owner>,
    surrounding: Option<Owner>,
) -> (ids: Option<Owner>)
    ensures
        ids == (if platform is Linux && original is Some {
            original
        } else {
            surrounding
        }),
{
    if matches!(platform, Platform::Linux) && original.is_some() {
        return original;
    }
    surrounding
}

// ---------------------------------------------------------------------------------------------
// The walk through a directory tree
// ---------------------------------------------------------------------------------------------

/// What giving a path to a user came to.
#[derive(Debug)]
pub enum Chown {
    /// The path is not one that the system can be asked about.
    InvalidPath(Failure),
    /// The system refused.
    Refused(Failure),
    /// The path has its new owner.
    Done,
}

/// The result of giving the path with this name to a user; a path that is gone is passed over.
pub open spec fn chown_result(name: Seq<char>, exists: bool, chown: Chown) -> Result<
    (),
    Seq<Seq<char>>,
> {
    match chown {
        Chown::InvalidPath(error) if exists => Err(seq!["invalid path "@ + name] + error@),
        Chown::Refused(error) if exists => Err(seq!["failed to chown "@ + name] + error@),
        _ => Ok(()),
    }
}

/// The result of giving the path to a user; a path that is gone is passed over.
pub fn chown_path(path: &str, exists: bool, chown: Chown) -> (result: Result<(), Failure>)
    ensures
        outcome(result) == chown_result(path@, exists, chown),
{
    if !exists {
        return Ok(());
    }
    match chown {
        Chown::InvalidPath(error) => Err(error.context("invalid path ".to_string().concat(path))),
        Chown::Refused(error) => Err(error.context("failed to chown ".to_string().concat(path))),
        Chown::Done => Ok(()),
    }
}

/// A path on a walk, and its name in messages.
#[derive(Debug)]
pub struct Stop<P> {
    pub path: P,
    pub name: String,
}

/// An entry met in a directory.
#[derive(Debug)]
pub enum WalkEntry<P> {
    Found(Stop<P>),
    /// The entry was gone before it could be looked at.
    Gone,
    /// The entry could not be read.
    Unreadable(Failure),
}

/// What lies below a path.
#[derive(Debug)]
pub enum Below<P> {
    /// The path is no directory.
    Nothing,
    /// The entries of the directory could not be listed.
    Unlisted(Failure),
    /// The entries of the directory.
    Entries(Vec<WalkEntry<P>>),
}

/// What happened at a path on a walk: whether it exists, what giving it to the user came to where it
/// does, and what lies below it.
#[derive(Debug)]
pub struct Visit<P> {
    pub exists: bool,
    pub chown: Chown,
    pub below: Below<P>,
}

/// Something that a walk has still before it.
#[derive(Debug)]
pub enum Ahead<P> {
    Stop(Stop<P>),
    /// An entry of the directory with this name that could not be read.
    Unreadable(String, Failure),
}

/// Something that a walk has still before it, as values.
pub enum AheadValue<P> {
    Stop { path: P, name: Seq<char> },
    Unreadable(Seq<char>, Seq<Seq<char>>),
}

impl<P> View for Ahead<P> {
    type V = AheadValue<P>;

    open spec fn view(&self) -> AheadValue<P> {
        match self {
            Ahead::Stop(stop) => AheadValue::Stop { path: stop.path, name: stop.name@ },
            Ahead::Unreadable(dir, error) => AheadValue::Unreadable(dir@, error@),
        }
    }
}

/// What a walk has still before it, as values.
pub open spec fn ahead_values<P>(list: Seq<Ahead<P>>) -> Seq<AheadValue<P>> {
    Seq::new(list.len(), |i: int| list[i]@)
}

/// What the entries of the directory `dir` add to a walk, in their order: those that are gone are
/// passed over.
pub open spec fn entries_ahead<P>(dir: Seq<char>, entries: Seq<WalkEntry<P>>) -> Seq<AheadValue<P>>
    decreases entries.len(),
{
    if entries.len() == 0 {
        Seq::empty()
    } else {
        let before = entries_ahead(dir, entries.drop_last());
        match entries.last() {
            WalkEntry::Found(stop) => before.push(
                (AheadValue::Stop { path: stop.path, name: stop.name@ }),
            ),
            WalkEntry::Gone => before,
            WalkEntry::Unreadable(error) => before.push(AheadValue::Unreadable(dir, error@)),
        }
    }
}

/// What lies below the path with this name, as far as the walk goes on to it, or why it cannot.
pub open spec fn found_below<P>(name: Seq<char>, visit: Visit<P>) -> Result<
    Seq<AheadValue<P>>,
    Seq<Seq<char>>,
> {
    if !visit.exists {
        Ok(Seq::empty())
    } else {
        match visit.below {
            Below::Nothing => Ok(Seq::empty()),
            Below::Unlisted(error) => Err(seq!["failed to read directory "@ + name] + error@),
            Below::Entries(entries) => Ok(entries_ahead(name, entries@)),
        }
    }
}

/// A walk that goes on with `ahead`: where that begins with an entry that could not be read, the
/// walk is over and has failed.
pub open spec fn going_on<P>(ahead: Seq<AheadValue<P>>) -> (
    Seq<AheadValue<P>>,
    Result<(), Seq<Seq<char>>>,
) {
    if ahead.len() == 0 {
        (ahead, Ok(()))
    } else {
        match ahead[0] {
            AheadValue::Stop { .. } => (ahead, Ok(())),
            AheadValue::Unreadable(dir, causes) => (
                Seq::empty(),
                Err(seq!["failed to walk directory "@ + dir] + causes),
            ),
        }
    }
}

/// The name of the first stop of a walk.
pub open spec fn first_name<P>(ahead: Seq<AheadValue<P>>) -> Seq<char> {
    ahead[0]->name
}

/// The walk after the visit at its first stop, and what the visit means for the whole: what lies
/// below the stop comes next, before everything else, and a failure ends the walk.
pub open spec fn walk_step<P>(ahead: Seq<AheadValue<P>>, visit: Visit<P>) -> (
    Seq<AheadValue<P>>,
    Result<(), Seq<Seq<char>>>,
) {
    match chown_result(first_name(ahead), visit.exists, visit.chown) {
        Err(causes) => (Seq::empty(), Err(causes)),
        Ok(_) => match found_below(first_name(ahead), visit) {
            Err(causes) => (Seq::empty(), Err(causes)),
            Ok(below) => going_on(below + ahead.drop_first()),
        },
    }
}

/// A walk through a directory tree that gives all of it to a user.
#[derive(Debug)]
pub struct OwnershipWalk<P> {
    pub owner: Owner,
    pub ahead: Vec<Ahead<P>>,
}

/// A walk, as values.
pub struct OwnershipWalkValue<P> {
    pub owner: Owner,
    pub ahead: Seq<AheadValue<P>>,
}

impl<P> View for OwnershipWalk<P> {
    type V = OwnershipWalkValue<P>;

    open spec fn view(&self) -> OwnershipWalkValue<P> {
        OwnershipWalkValue { owner: self.owner, ahead: ahead_values(self.ahead@) }
    }
}

/// The walk has a stop before it, or it is over.
pub open spec fn at_stop<P>(ahead: Seq<AheadValue<P>>) -> bool {
    ahead.len() == 0 || ahead[0] is Stop
}

/// What the entries of the directory `dir` add to a walk.
fn list_ahead<P>(dir: &str, entries: Vec<WalkEntry<P>>) -> (ahead: Vec<Ahead<P>>)
    ensures
        ahead_values(ahead@) == entries_ahead(dir@, entries@),
{
    let mut ahead: Vec<Ahead<P>> = Vec::new();
    let mut rest = entries;
    let ghost mut done: int = 0;
    assert(ahead_values(ahead@) =~= entries_ahead(dir@, entries@.take(0)));
    while rest.len() > 0
        invariant
            0 <= done <= entries@.len(),
            rest@ == entries@.skip(done),
            ahead_values(ahead@) == entries_ahead(dir@, entries@.take(done)),
        decreases rest@.len(),
    {
        let ghost before = ahead@;
        let entry = rest.remove(0);
        assert(rest@ =~= entries@.skip(done + 1));
        assert(entries@.take(done + 1).drop_last() =~= entries@.take(done));
        assert(entries@.take(done + 1).last() == entry);
        match entry {
            WalkEntry::Found(stop) => {
                ahead.push(Ahead::Stop(stop));
                assert(ahead_values(ahead@) =~= ahead_values(before).push(ahead@.last()@));
            },
            WalkEntry::Gone => {},
            WalkEntry::Unreadable(error) => {
                ahead.push(Ahead::Unreadable(dir.to_string(), error));
                assert(ahead_values(ahead@) =~= ahead_values(before).push(ahead@.last()@));
            },
        }
        proof {
            done = done + 1;
        }
    }
    assert(entries@.take(done) =~= entries@);
    ahead
}

/// The walk that hands a path to a user, with all that lies below it: there is one only in a program
/// with administrator rights, where a user is known and the path exists, and never on Windows.
pub fn sync_user_ownership<P>(
    platform: Platform,
    elevated: bool,
    target: Option<Owner>,
    exists: bool,
    stop: Stop<P>,
) -> (walk: Option<OwnershipWalk<P>>)
    ensures
        match walk {
            Some(walk) => {
                &&& !(platform is Windows) && elevated && exists
                &&& target == Some(walk.owner)
                &&& walk@.ahead == whole_walk(stop.path, stop.name@)
            },
            None => platform is Windows || !elevated || target is None || !exists,
        },
{
    if matches!(platform, Platform::Windows) || !elevated || !exists {
        return None;
    }
    match target {
        None => None,
        Some(owner) => {
            let mut ahead: Vec<Ahead<P>> = Vec::new();
            ahead.push(Ahead::Stop(stop));
            assert(ahead_values(ahead@) =~= whole_walk(stop.path, stop.name@));
            Some(OwnershipWalk { owner, ahead })
        },
    }
}

/// The walk through the tree at `path`, of which nothing is done yet.
pub open spec fn whole_walk<P>(path: P, name: Seq<char>) -> Seq<AheadValue<P>> {
    seq![AheadValue::Stop { path, name }]
}

impl<P> OwnershipWalk<P> {
    /// The path to be visited now; none where the walk is over.
    pub fn current(&self) -> (path: Option<&P>)
        requires
            at_stop(self@.ahead),
        ensures
            match path {
                Some(path) => self@.ahead.len() > 0 && self@.ahead[0] == (AheadValue::Stop {
                    path: *path,
                    name: first_name(self@.ahead),
                }),
                None => self@.ahead.len() == 0,
            },
    {
        if self.ahead.len() == 0 {
            return None;
        }
        assert(self@.ahead[0] == self.ahead@[0]@);
        match &self.ahead[0] {
            Ahead::Stop(stop) => Some(&stop.path),
            Ahead::Unreadable(_, _) => None,
        }
    }

    /// Goes on after the visit at the current path.
    pub fn chown_recursive(&mut self, visit: Visit<P>) -> (result: Result<(), Failure>)
        requires
            old(self)@.ahead.len() > 0,
            at_stop(old(self)@.ahead),
        ensures
            final(self)@.owner == old(self)@.owner,
            (final(self)@.ahead, outcome(result)) == walk_step(old(self)@.ahead, visit),
            at_stop(final(self)@.ahead),
    {
        let ghost before = self@.ahead;
        assert(before[0] == self.ahead@[0]@);
        let mut tail: Vec<Ahead<P>> = Vec::new();
        std::mem::swap(&mut tail, &mut self.ahead);
        assert(ahead_values(self.ahead@) =~= Seq::<AheadValue<P>>::empty());
        let first = tail.remove(0);
        assert(ahead_values(tail@) =~= before.drop_first());
        let name = match first {
            Ahead::Stop(stop) => stop.name,
            Ahead::Unreadable(dir, _) => dir,
        };
        match chown_path(name.as_str(), visit.exists, visit.chown) {
            Err(failure) => {
                return Err(failure);
            },
            Ok(_) => {},
        }
        let mut ahead: Vec<Ahead<P>> = Vec::new();
        assert(ahead_values(ahead@) =~= Seq::<AheadValue<P>>::empty());
        if visit.exists {
            match visit.below {
                Below::Nothing => {},
                Below::Unlisted(error) => {
                    return Err(
                        error.context(
                            "failed to read directory ".to_string().concat(name.as_str()),
                        ),
                    );
                },
                Below::Entries(entries) => {
                    ahead = list_ahead(name.as_str(), entries);
                },
            }
        }
        let ghost below = ahead_values(ahead@);
        ahead.append(&mut tail);
        assert(ahead_values(ahead@) =~= below + before.drop_first());
        if ahead.len() > 0 {
            assert(ahead_values(ahead@)[0] == ahead@[0]@);
            if matches!(ahead[0], Ahead::Unreadable(_, _)) {
                return Err(unreadable(ahead.remove(0)));
            }
        }
        self.ahead = ahead;
        Ok(())
    }
}

/// The failure that an entry that could not be read is.
fn unreadable<P>(entry: Ahead<P>) -> (failure: Failure)
    requires
        entry is Unreadable,
    ensures
        failure@ == seq!["failed to walk directory "@ + entry->Unreadable_0@]
            + entry->Unreadable_1@,
{
    match entry {
        Ahead::Unreadable(dir, error) => error.context(
            "failed to walk directory ".to_string().concat(dir.as_str()),
        ),
        Ahead::Stop(stop) => Failure::new(stop.name),
    }
}

// ---------------------------------------------------------------------------------------------
// Laws
// ---------------------------------------------------------------------------------------------

/// The owner of the surroundings is that of the nearest directory whose owner is known.
pub proof fn law_nearest_owner_counts(owners: Seq<Option<Owner>>)
    ensures
        match first_known(owners) {
            Some(owner) => exists|i: int|
                0 <= i < owners.len() && #[trigger] owners[i] == Some(owner) && forall|j: int|
                    0 <= j < i ==> (#[trigger] owners[j]) is None,
            None => forall|i: int| 0 <= i < owners.len() ==> (#[trigger] owners[i]) is None,
        },
    decreases owners.len(),
{
    if owners.len() > 0 {
        let rest = owners.drop_first();
        law_nearest_owner_counts(rest);
        if owners[0] is Some {
            assert(owners[0] == Some(owners[0]->0));
        } else if first_known(rest) is Some {
            let owner = first_known(rest)->0;
            let i = choose|i: int|
                0 <= i < rest.len() && #[trigger] rest[i] == Some(owner) && forall|j: int|
                    0 <= j < i ==> (#[trigger] rest[j]) is None;
            assert(owners[i + 1] == Some(owner));
            assert forall|j: int| 0 <= j < i + 1 implies (#[trigger] owners[j]) is None by {
                if j > 0 {
                    assert(rest[j - 1] == owners[j]);
                }
            }
        } else {
            assert forall|i: int| 0 <= i < owners.len() implies (#[trigger] owners[i]) is None by {
                if i > 0 {
                    assert(rest[i - 1] == owners[i]);
                }
            }
        }
    }
}

/// The walk after the visits, one after the other.
pub open spec fn walk_after<P>(ahead: Seq<AheadValue<P>>, visits: Seq<Visit<P>>) -> Seq<
    AheadValue<P>,
>
    decreases visits.len(),
{
    if visits.len() == 0 || ahead.len() == 0 {
        ahead
    } else {
        walk_after(walk_step(ahead, visits[0]).0, visits.drop_first())
    }
}

/// The paths of the visits, one after the other.
pub open spec fn visited<P>(ahead: Seq<AheadValue<P>>, visits: Seq<Visit<P>>) -> Seq<P>
    decreases visits.len(),
{
    if visits.len() == 0 || ahead.len() == 0 {
        Seq::empty()
    } else {
        seq![ahead[0]->path] + visited(walk_step(ahead, visits[0]).0, visits.drop_first())
    }
}

/// The first failure on the walk, if any.
pub open spec fn walk_result<P>(ahead: Seq<AheadValue<P>>, visits: Seq<Visit<P>>) -> Result<
    (),
    Seq<Seq<char>>,
>
    decreases visits.len(),
{
    if visits.len() == 0 || ahead.len() == 0 {
        Ok(())
    } else {
        match walk_step(ahead, visits[0]).1 {
            Err(causes) => Err(causes),
            Ok(_) => walk_result(walk_step(ahead, visits[0]).0, visits.drop_first()),
        }
    }
}

/// The walk has the path before it.
pub open spec fn leads_to<P>(ahead: Seq<AheadValue<P>>, path: P) -> bool {
    exists|i: int| #[trigger] is_stop_at(ahead, i, path)
}

/// Position `i` of the walk is a stop at the path.
pub open spec fn is_stop_at<P>(ahead: Seq<AheadValue<P>>, i: int, path: P) -> bool {
    0 <= i < ahead.len() && ahead[i] is Stop && ahead[i]->path == path
}

/// A walk that comes to its end without a failure has been at every path that was before it.
pub proof fn law_walk_leaves_nothing_out<P>(
    ahead: Seq<AheadValue<P>>,
    visits: Seq<Visit<P>>,
    path: P,
)
    requires
        walk_after(ahead, visits).len() == 0,
        walk_result(ahead, visits) is Ok,
        leads_to(ahead, path),
    ensures
        visited(ahead, visits).contains(path),
    decreases visits.len(),
{
    let i = choose|i: int| #[trigger] is_stop_at(ahead, i, path);
    let all = visited(ahead, visits);
    assert(all[0] == ahead[0]->path);
    if i > 0 {
        let next = walk_step(ahead, visits[0]).0;
        let below = found_below(first_name(ahead), visits[0])->Ok_0;
        let joined = below + ahead.drop_first();
        assert(next == joined);
        assert(joined[below.len() + i - 1] == ahead[i]);
        assert(is_stop_at(next, below.len() + i - 1, path));
        law_walk_leaves_nothing_out(next, visits.drop_first(), path);
        let rest = visited(next, visits.drop_first());
        let k = choose|k: int| 0 <= k < rest.len() && rest[k] == path;
        assert(all[k + 1] == path);
    }
}

/// A walk that comes to its end without a failure has been at every path that it found in a
/// directory, however deep.
pub proof fn law_walk_reaches_every_entry<P>(
    ahead: Seq<AheadValue<P>>,
    visits: Seq<Visit<P>>,
    n: int,
    path: P,
)
    requires
        walk_after(ahead, visits).len() == 0,
        walk_result(ahead, visits) is Ok,
        0 <= n < visited(ahead, visits).len(),
        n < visits.len(),
        visits[n].exists,
        lists(visits[n].below, path),
    ensures
        visited(ahead, visits).contains(path),
    decreases visits.len(),
{
    let next = walk_step(ahead, visits[0]).0;
    let rest = visited(next, visits.drop_first());
    let all = visited(ahead, visits);
    if n == 0 {
        let name = first_name(ahead);
        let entries = visits[0].below->Entries_0@;
        let below = entries_ahead(name, entries);
        let j = choose|j: int| #[trigger] is_entry_at(entries, j, path);
        lemma_entry_is_ahead(name, entries, j, path);
        let i = choose|i: int| #[trigger] is_stop_at(below, i, path);
        assert(next == below + ahead.drop_first());
        assert(is_stop_at(next, i, path));
        law_walk_leaves_nothing_out(next, visits.drop_first(), path);
    } else {
        assert(visits.drop_first()[n - 1] == visits[n]);
        law_walk_reaches_every_entry(next, visits.drop_first(), n - 1, path);
    }
    let k = choose|k: int| 0 <= k < rest.len() && rest[k] == path;
    assert(all[k + 1] == path);
}

/// Entry `j` of a directory is the path.
pub open spec fn is_entry_at<P>(entries: Seq<WalkEntry<P>>, j: int, path: P) -> bool {
    0 <= j < entries.len() && entries[j] is Found && entries[j]->Found_0.path == path
}

/// The path lies in a directory that was listed.
pub open spec fn lists<P>(below: Below<P>, path: P) -> bool {
    match below {
        Below::Entries(entries) => exists|j: int| #[trigger] is_entry_at(entries@, j, path),
        _ => false,
    }
}

proof fn lemma_entry_is_ahead<P>(dir: Seq<char>, entries: Seq<WalkEntry<P>>, j: int, path: P)
    requires
        is_entry_at(entries, j, path),
    ensures
        leads_to(entries_ahead(dir, entries), path),
    decreases entries.len(),
{
    let ahead = entries_ahead(dir, entries);
    let shorter = entries.drop_last();
    if j == entries.len() - 1 {
        assert(is_stop_at(ahead, ahead.len() - 1, path));
    } else {
        assert(is_entry_at(shorter, j, path));
        lemma_entry_is_ahead(dir, shorter, j, path);
        let i = choose|i: int| #[trigger] is_stop_at(entries_ahead(dir, shorter), i, path);
        assert(is_stop_at(ahead, i, path));
    }
}

/// On a walk without a failure every path that exists is given to the user.
pub proof fn law_walk_gives_every_path<P>(
    ahead: Seq<AheadValue<P>>,
    visits: Seq<Visit<P>>,
    n: int,
)
    requires
        walk_result(ahead, visits) is Ok,
        0 <= n < visited(ahead, visits).len(),
    ensures
        n < visits.len(),
        visits[n].exists ==> visits[n].chown is Done,
    decreases visits.len(),
{
    if n > 0 {
        let next = walk_step(ahead, visits[0]).0;
        law_walk_gives_every_path(next, visits.drop_first(), n - 1);
        assert(visits.drop_first()[n - 1] == visits[n]);
    }
}

/// Nothing is done after a failure: the walk is over with the first one.
pub proof fn law_walk_stops_at_a_failure<P>(ahead: Seq<AheadValue<P>>, visit: Visit<P>)
    ensures
        walk_step(ahead, visit).1 is Err ==> walk_step(ahead, visit).0.len() == 0,
{
}

/// The user who asked for administrator rights is the one that `pkexec` left, even where that is no number,
/// and the one that `sudo` left where `pkexec` left none.
pub proof fn law_pkexec_goes_before_sudo(value: Seq<char>, sudo_uid: Option<Seq<char>>)
    ensures
        invoking_user(Some(value), sudo_uid) == parsed_u32(value),
        invoking_user(None, Some(value)) == parsed_u32(value),
        invoking_user(None, None) is None,
{
}

/// The surroundings of a directory begin with itself, and those of a file with the directory that it lies
/// in; an owner that is not known is passed over.
pub proof fn law_surroundings_begin_with_a_directory(
    owner: Owner,
    first: Option<Owner>,
    rest: Seq<Option<Owner>>,
)
    ensures
        surrounding_owner(false, seq![first] + rest) == surrounding_owner(true, rest),
        surrounding_owner(true, seq![Some(owner)] + rest) == Some(owner),
        surrounding_owner(true, seq![None::<Owner>] + rest) == surrounding_owner(true, rest),
        surrounding_owner(true, Seq::empty()) is None,
        surrounding_owner(false, Seq::empty()) is None,
{
    assert((seq![first] + rest).drop_first() =~= rest);
    assert((seq![None::<Owner>] + rest).drop_first() =~= rest);
}

/// A path that is gone is passed over; of one that exists, a failure says what failed and names the path.
pub proof fn law_failed_chown_names_the_path(name: Seq<char>, there: bool, chown: Chown)
    ensures
        chown_result(name, there, chown) is Ok <==> !there || chown is Done,
        there ==> match chown {
            Chown::InvalidPath(error) => chown_result(name, there, chown)->Err_0 == seq![
                "invalid path "@ + name,
            ] + error@,
            Chown::Refused(error) => chown_result(name, there, chown)->Err_0 == seq![
                "failed to chown "@ + name,
            ] + error@,
            Chown::Done => true,
        },
{
}

/// The entries of a directory are walked in their order: each that was found is a stop, one that could not
/// be read is kept for its turn, and one that is gone is passed over.
pub proof fn law_entries_are_walked_in_order<P>(
    dir: Seq<char>,
    a: Seq<WalkEntry<P>>,
    b: Seq<WalkEntry<P>>,
    entry: WalkEntry<P>,
)
    ensures
        entries_ahead(dir, a + b) == entries_ahead(dir, a) + entries_ahead(dir, b),
        match entry {
            WalkEntry::Found(stop) => entries_ahead(dir, seq![entry]) == seq![
                AheadValue::Stop { path: stop.path, name: stop.name@ },
            ],
            WalkEntry::Gone => entries_ahead(dir, seq![entry]).len() == 0,
            WalkEntry::Unreadable(error) => entries_ahead(dir, seq![entry]) == seq![
                AheadValue::<P>::Unreadable(dir, error@),
            ],
        },
    decreases b.len(),
{
    reveal_with_fuel(entries_ahead, 2);
    assert(seq![entry].drop_last() =~= Seq::<WalkEntry<P>>::empty());
    match entry {
        WalkEntry::Found(stop) => {
            assert(entries_ahead(dir, seq![entry]) =~= seq![
                AheadValue::Stop { path: stop.path, name: stop.name@ },
            ]);
        },
        WalkEntry::Gone => {},
        WalkEntry::Unreadable(error) => {
            assert(entries_ahead(dir, seq![entry]) =~= seq![
                AheadValue::<P>::Unreadable(dir, error@),
            ]);
        },
    }
    if b.len() == 0 {
        assert(a + b =~= a);
        assert(entries_ahead(dir, a) + entries_ahead(dir, b) =~= entries_ahead(dir, a));
    } else {
        law_entries_are_walked_in_order(dir, a, b.drop_last(), entry);
        assert((a + b).drop_last() =~= a + b.drop_last());
        assert(entries_ahead(dir, a + b) =~= entries_ahead(dir, a) + entries_ahead(dir, b));
    }
}

/// The walk goes into a directory before it goes on: after a stop come the entries below it, and then what
/// was ahead. A path that is gone, or is no directory, has nothing below it.
pub proof fn law_walk_goes_deep_first<P>(
    stop: AheadValue<P>,
    rest: Seq<AheadValue<P>>,
    visit: Visit<P>,
)
    requires
        stop is Stop,
        visit.chown is Done || !visit.exists,
        visit.exists ==> !(visit.below is Unlisted),
    ensures
        ({
            let below = match visit.below {
                Below::Entries(entries) if visit.exists => entries_ahead(stop->name, entries@),
                _ => Seq::empty(),
            };
            let next = walk_step(seq![stop] + rest, visit);
            &&& (below + rest).len() > 0 && (below + rest)[0] is Unreadable ==> {
                &&& next.0.len() == 0
                &&& next.1 == Err::<(), Seq<Seq<char>>>(
                    seq!["failed to walk directory "@ + (below + rest)[0]->Unreadable_0]
                        + (below + rest)[0]->Unreadable_1,
                )
            }
            &&& !((below + rest).len() > 0 && (below + rest)[0] is Unreadable) ==> next.0 == below
                + rest && next.1 is Ok
        }),
{
    assert((seq![stop] + rest).drop_first() =~= rest);
}

/// A path that cannot be given to the user, or a directory that cannot be listed, ends the walk with a
/// failure that names it.
pub proof fn law_walk_tells_where_it_failed<P>(
    stop: AheadValue<P>,
    rest: Seq<AheadValue<P>>,
    visit: Visit<P>,
)
    requires
        stop is Stop,
        visit.exists,
    ensures
        ({
            let next = walk_step(seq![stop] + rest, visit);
            &&& visit.chown matches Chown::InvalidPath(error) ==> next.0.len() == 0 && next.1 == Err::<
                (),
                Seq<Seq<char>>,
            >(seq!["invalid path "@ + stop->name] + error@)
            &&& visit.chown matches Chown::Refused(error) ==> next.0.len() == 0 && next.1 == Err::<
                (),
                Seq<Seq<char>>,
            >(seq!["failed to chown "@ + stop->name] + error@)
            &&& visit.chown is Done ==> (visit.below matches Below::Unlisted(error) ==> next.0.len()
                == 0 && next.1 == Err::<(), Seq<Seq<char>>>(
                seq!["failed to read directory "@ + stop->name] + error@,
            ))
        }),
{
}

/// A walk begins at the path itself and at nothing else.
pub proof fn law_walk_begins_at_the_path<P>(path: P, name: Seq<char>)
    ensures
        whole_walk(path, name).len() == 1,
        whole_walk(path, name)[0] == (AheadValue::Stop { path, name }),
        at_stop(whole_walk(path, name)),
        at_stop(Seq::<AheadValue<P>>::empty()),
        leads_to(whole_walk(path, name), path),
{
    assert(is_stop_at(whole_walk(path, name), 0, path));
}

} // verus!
