//! The ref-sync job: on each tick it finds the active repositories that the
//! store holds no branch of, has each cloned where no clone exists, and hands
//! the branches of the clone to the store, one repository after another.
//!
//! The job itself touches neither the store nor a remote. It is told what
//! happened, as a [`SyncEvent`], and answers with what to do next, as a
//! [`SyncAction`]; whoever runs it performs the action and reports back.

use crate::config::ConfigError;
use crate::db::{Branch, Repository, Settings, StoreError};
use crate::git::GitClient;
use crate::text::{parse_u64, unsigned_value};
use vstd::prelude::*;
use vstd::string::*;

verus! {

/// Where the job stands within a tick.
#[derive(Debug, Clone, Copy, PartialEq, Eq, Structural)]
pub enum SyncPhase {
    /// Between two ticks, waiting for the timer.
    Idle,
    /// Waiting for the store's repositories and branches.
    Loading,
    /// Waiting to hear whether the repository in work has a local clone.
    Probing,
    /// Waiting for the clone of the repository in work.
    Cloning,
    /// Waiting for the branches of the clone.
    Listing,
    /// Waiting for the store to take one branch.
    Storing,
}

/// The state of the ref-sync job.
#[derive(Debug, Clone)]
pub struct RefSync {
    pub phase: SyncPhase,
    /// The repositories as the store listed them at the start of the tick.
    pub repositories: Vec<Repository>,
    /// The branches as the store listed them at the start of the tick.
    pub branches: Vec<Branch>,
    /// The position of the repository in work among `repositories`.
    pub cursor: usize,
    /// The branches found in the clone of the repository in work, each with
    /// the commit at its tip.
    pub found: Vec<(String, String)>,
    /// How many of `found` the store has been handed.
    pub stored: usize,
}

/// The state of the ref-sync job, its lists as sequences.
pub struct RefSyncView {
    pub phase: SyncPhase,
    pub repositories: Seq<Repository>,
    pub branches: Seq<Branch>,
    pub cursor: nat,
    pub found: Seq<(String, String)>,
    pub stored: nat,
}

impl View for RefSync {
    type V = RefSyncView;

    open spec fn view(&self) -> RefSyncView {
        RefSyncView {
            phase: self.phase,
            repositories: self.repositories@,
            branches: self.branches@,
            cursor: self.cursor as nat,
            found: self.found@,
            stored: self.stored as nat,
        }
    }
}

/// What happened since the job's last action.
#[derive(Debug)]
pub enum SyncEvent {
    /// The interval has passed.
    TimerFired,
    /// The store answered the two reads of a tick.
    Loaded {
        repositories: Result<Vec<Repository>, StoreError>,
        branches: Result<Vec<Branch>, StoreError>,
    },
    /// The local path was looked at.
    Probed { exists: bool },
    /// The clone ended.
    Cloned { ok: bool },
    /// The clone's branches were enumerated, or could not be.
    Listed { branches: Option<Vec<(String, String)>> },
    /// The store took the branch, or refused it.
    Stored { ok: bool },
}

/// What the job asks for next.
#[derive(Debug, Clone)]
pub enum SyncAction {
    /// Sleep until the timer fires.
    Wait,
    /// Read all repositories and all branches from the store.
    LoadStore,
    /// Look whether a local clone exists at `path`.
    ProbePath { path: String },
    /// Clone the remote at `url` to `path`.
    Clone { url: String, path: String },
    /// Enumerate the remote-tracking branches of the clone at `path`.
    ListBranches { path: String },
    /// Insert the branch, or move its tip where the store has it already.
    UpsertBranch { repository_id: i32, name: String, head_sha: String },
}

/// An action with its texts as sequences of characters.
pub enum SyncActionView {
    Wait,
    LoadStore,
    ProbePath { path: Seq<char> },
    Clone { url: Seq<char>, path: Seq<char> },
    ListBranches { path: Seq<char> },
    UpsertBranch { repository_id: i32, name: Seq<char>, head_sha: Seq<char> },
}

impl View for SyncAction {
    type V = SyncActionView;

    open spec fn view(&self) -> SyncActionView {
        match *self {
            SyncAction::Wait => SyncActionView::Wait,
            SyncAction::LoadStore => SyncActionView::LoadStore,
            SyncAction::ProbePath { path } => SyncActionView::ProbePath { path: path@ },
            SyncAction::Clone { url, path } => SyncActionView::Clone { url: url@, path: path@ },
            SyncAction::ListBranches { path } => SyncActionView::ListBranches { path: path@ },
            SyncAction::UpsertBranch { repository_id, name, head_sha } => {
                SyncActionView::UpsertBranch { repository_id, name: name@, head_sha: head_sha@ }
            },
        }
    }
}

/// Whether the store holds a branch of repository `id`.
pub open spec fn has_branch_of(branches: Seq<Branch>, id: i32) -> bool {
    exists|i: int| 0 <= i < branches.len() && (#[trigger] branches[i]).repository_id == id
}

/// Whether a tick works on `repository`: it is active and the store holds no
/// branch of it.
pub open spec fn needs_sync(repository: Repository, branches: Seq<Branch>) -> bool {
    repository.is_active && !has_branch_of(branches, repository.id)
}

/// The position of the first repository from `from` on that a tick works on,
/// or the number of repositories where there is none.
pub open spec fn next_target(
    repositories: Seq<Repository>,
    branches: Seq<Branch>,
    from: nat,
) -> nat
    decreases repositories.len() - from,
{
    if from >= repositories.len() {
        repositories.len()
    } else if needs_sync(repositories[from as int], branches) {
        from
    } else {
        next_target(repositories, branches, from + 1)
    }
}

/// Where the clone of a repository lies.
pub open spec fn clone_path(repository: Repository) -> Seq<char> {
    "repositories/"@ + repository.owner@ + "/"@ + repository.name@
}

/// Where a repository is cloned from.
pub open spec fn clone_url(repository: Repository) -> Seq<char> {
    "https://github.com/"@ + repository.owner@ + "/"@ + repository.name@ + ".git"@
}

/// The job between two ticks.
pub open spec fn idle() -> RefSyncView {
    RefSyncView {
        phase: SyncPhase::Idle,
        repositories: Seq::empty(),
        branches: Seq::empty(),
        cursor: 0,
        found: Seq::empty(),
        stored: 0,
    }
}

/// The job turns to the repository at `target`, or ends the tick where
/// `target` is past the last repository.
pub open spec fn turn_to(job: RefSyncView, target: nat) -> (RefSyncView, SyncActionView) {
    if target < job.repositories.len() {
        (
            RefSyncView {
                phase: SyncPhase::Probing,
                repositories: job.repositories,
                branches: job.branches,
                cursor: target,
                found: Seq::empty(),
                stored: 0,
            },
            SyncActionView::ProbePath { path: clone_path(job.repositories[target as int]) },
        )
    } else {
        (idle(), SyncActionView::Wait)
    }
}

/// The job leaves the repository in work and turns to the next one that
/// needs it.
pub open spec fn move_on(job: RefSyncView) -> (RefSyncView, SyncActionView) {
    turn_to(job, next_target(job.repositories, job.branches, job.cursor + 1))
}

/// The job hands the store the next branch that was found, or moves on where
/// none is left.
pub open spec fn store_next(job: RefSyncView) -> (RefSyncView, SyncActionView) {
    if job.stored < job.found.len() {
        (
            RefSyncView {
                phase: SyncPhase::Storing,
                repositories: job.repositories,
                branches: job.branches,
                cursor: job.cursor,
                found: job.found,
                stored: job.stored,
            },
            SyncActionView::UpsertBranch {
                repository_id: job.repositories[job.cursor as int].id,
                name: job.found[job.stored as int].0@,
                head_sha: job.found[job.stored as int].1@,
            },
        )
    } else {
        move_on(job)
    }
}

/// The job asks for the branches of the clone of the repository in work.
pub open spec fn list_clone(job: RefSyncView) -> (RefSyncView, SyncActionView) {
    (
        RefSyncView {
            phase: SyncPhase::Listing,
            repositories: job.repositories,
            branches: job.branches,
            cursor: job.cursor,
            found: Seq::empty(),
            stored: 0,
        },
        SyncActionView::ListBranches { path: clone_path(job.repositories[job.cursor as int]) },
    )
}

/// Whether `event` answers what the job in state `job` asked for.
pub open spec fn is_expected(job: RefSyncView, event: SyncEvent) -> bool {
    match event {
        SyncEvent::TimerFired => job.phase == SyncPhase::Idle,
        SyncEvent::Loaded { .. } => job.phase == SyncPhase::Loading,
        SyncEvent::Probed { .. } => job.phase == SyncPhase::Probing && job.cursor
            < job.repositories.len(),
        SyncEvent::Cloned { .. } => job.phase == SyncPhase::Cloning && job.cursor
            < job.repositories.len(),
        SyncEvent::Listed { .. } => job.phase == SyncPhase::Listing && job.cursor
            < job.repositories.len(),
        SyncEvent::Stored { .. } => job.phase == SyncPhase::Storing && job.cursor
            < job.repositories.len(),
    }
}

/// One step of the job: the state after `event` and the action to perform.
///
/// A tick starts when the timer fires and reads the store. Where either read
/// fails the tick is given up. Else the job takes the repositories that need
/// it in the store's order: it asks whether a clone exists, has one made
/// where none does, asks for the clone's branches and hands them to the
/// store one by one. A clone or an enumeration that fails costs that
/// repository its turn and nothing else; a branch that the store refuses
/// costs nothing but that branch. An event that answers nothing the job
/// asked for ends the tick.
pub open spec fn sync_step(job: RefSyncView, event: SyncEvent) -> (RefSyncView, SyncActionView) {
    if !is_expected(job, event) {
        (idle(), SyncActionView::Wait)
    } else {
        match event {
            SyncEvent::TimerFired => (
                RefSyncView {
                    phase: SyncPhase::Loading,
                    repositories: Seq::empty(),
                    branches: Seq::empty(),
                    cursor: 0,
                    found: Seq::empty(),
                    stored: 0,
                },
                SyncActionView::LoadStore,
            ),
            SyncEvent::Loaded { repositories: Ok(repositories), branches: Ok(branches) } => turn_to(
                RefSyncView {
                    phase: SyncPhase::Loading,
                    repositories: repositories@,
                    branches: branches@,
                    cursor: 0,
                    found: Seq::empty(),
                    stored: 0,
                },
                next_target(repositories@, branches@, 0),
            ),
            SyncEvent::Loaded { .. } => (idle(), SyncActionView::Wait),
            SyncEvent::Probed { exists: true } => list_clone(job),
            SyncEvent::Probed { exists: false } => (
                RefSyncView {
                    phase: SyncPhase::Cloning,
                    repositories: job.repositories,
                    branches: job.branches,
                    cursor: job.cursor,
                    found: Seq::empty(),
                    stored: 0,
                },
                SyncActionView::Clone {
                    url: clone_url(job.repositories[job.cursor as int]),
                    path: clone_path(job.repositories[job.cursor as int]),
                },
            ),
            SyncEvent::Cloned { ok: true } => list_clone(job),
            SyncEvent::Cloned { ok: false } => move_on(job),
            SyncEvent::Listed { branches: Some(found) } => store_next(
                RefSyncView {
                    phase: SyncPhase::Listing,
                    repositories: job.repositories,
                    branches: job.branches,
                    cursor: job.cursor,
                    found: found@,
                    stored: 0,
                },
            ),
            SyncEvent::Listed { branches: None } => move_on(job),
            SyncEvent::Stored { .. } => store_next(
                RefSyncView {
                    phase: SyncPhase::Storing,
                    repositories: job.repositories,
                    branches: job.branches,
                    cursor: job.cursor,
                    found: job.found,
                    stored: job.stored + 1,
                },
            ),
        }
    }
}

/// Whether the store holds a branch of repository `id`.
pub fn store_has_branch_of(branches: &Vec<Branch>, id: i32) -> (r: bool)
    ensures
        r == has_branch_of(branches@, id),
{
    let mut i: usize = 0;
    while i < branches.len()
        invariant
            i <= branches.len(),
            forall|j: int| 0 <= j < i ==> (#[trigger] branches@[j]).repository_id != id,
        decreases branches.len() - i,
    {
        if branches[i].repository_id == id {
            return true;
        }
        i = i + 1;
    }
    false
}

/// The position of the first repository from `from` on that a tick works on,
/// or the number of repositories where there is none.
pub fn find_target(repositories: &Vec<Repository>, branches: &Vec<Branch>, from: usize) -> (r:
    usize)
    ensures
        r == next_target(repositories@, branches@, from as nat),
        from <= repositories.len() ==> from <= r <= repositories.len(),
{
    let mut i: usize = from;
    while i < repositories.len()
        invariant
            from <= i,
            from <= repositories.len() ==> i <= repositories.len(),
            next_target(repositories@, branches@, from as nat) == next_target(
                repositories@,
                branches@,
                i as nat,
            ),
        decreases repositories.len() - i,
    {
        let repository = &repositories[i];
        if repository.is_active && !store_has_branch_of(branches, repository.id) {
            return i;
        }
        i = i + 1;
    }
    repositories.len()
}

/// Where the clone of `repository` lies.
pub fn local_path(repository: &Repository) -> (r: String)
    ensures
        r@ == clone_path(*repository),
{
    let mut path = String::from_str("repositories/");
    path.append(repository.owner.as_str());
    path.append("/");
    path.append(repository.name.as_str());
    path
}

/// Where `repository` is cloned from.
pub fn remote_url(repository: &Repository) -> (r: String)
    ensures
        r@ == clone_url(*repository),
{
    let mut url = String::from_str("https://github.com/");
    url.append(repository.owner.as_str());
    url.append("/");
    url.append(repository.name.as_str());
    url.append(".git");
    url
}

/// The key of the setting that holds the interval of pull-request polling,
/// in seconds.
pub open spec fn pr_interval_key() -> Seq<char> {
    "github_api_poll_interval"@
}

/// The key of the setting that holds the interval of ref sync, in seconds.
pub open spec fn refs_interval_key() -> Seq<char> {
    "sync_refs_interval"@
}

/// The interval that the settings give under `key`: the fallback where the
/// key is not set, the value read as a number of seconds where it is, and
/// nothing where the value is no such number.
pub open spec fn interval_setting(
    settings: Map<Seq<char>, Seq<char>>,
    key: Seq<char>,
    fallback: nat,
) -> Option<nat> {
    if settings.contains_key(key) {
        unsigned_value(settings[key])
    } else {
        Some(fallback)
    }
}

/// The interval that the settings give under `key`.
fn read_interval(settings: &Settings, key: &str, fallback: u64) -> (r: Option<u64>)
    ensures
        match interval_setting(settings@, key@, fallback as nat) {
            Some(seconds) => r == Some(seconds as u64) && seconds <= u64::MAX,
            None => r is None,
        },
{
    match settings.get(key) {
        Some(value) => parse_u64(value.as_str()),
        None => Some(fallback),
    }
}

/// The periodic jobs' settings: how often each one runs, in seconds, and the
/// git engine they work with.
#[derive(Debug, Clone)]
pub struct Scheduler {
    pub pr_poll_interval: u64,
    pub refs_sync_interval: u64,
    pub git_client: GitClient,
}

impl Scheduler {
    /// A scheduler with the two intervals in seconds.
    pub fn new(pr_interval: u64, refs_interval: u64, git_client: GitClient) -> (r: Self)
        ensures
            r.pr_poll_interval == pr_interval,
            r.refs_sync_interval == refs_interval,
            r.git_client == git_client,
    {
        Self { pr_poll_interval: pr_interval, refs_sync_interval: refs_interval, git_client }
    }

    /// The two intervals as the system settings give them, pull-request
    /// polling first: 300 and 180 seconds where a key is not set. A key
    /// whose value is no number of seconds is an error.
    pub fn intervals(settings: &Settings) -> (r: Result<(u64, u64), ConfigError>)
        ensures
            match (
                interval_setting(settings@, pr_interval_key(), 300),
                interval_setting(settings@, refs_interval_key(), 180),
            ) {
                (Some(pr), Some(refs)) => r == Ok::<(u64, u64), ConfigError>(
                    (pr as u64, refs as u64),
                ),
                _ => r == Err::<(u64, u64), ConfigError>(ConfigError::InvalidSetting),
            },
    {
        let pr = read_interval(settings, "github_api_poll_interval", 300);
        let refs = read_interval(settings, "sync_refs_interval", 180);
        match (pr, refs) {
            (Some(pr), Some(refs)) => Ok((pr, refs)),
            _ => Err(ConfigError::InvalidSetting),
        }
    }

    /// Starts the ref-sync job. Its first tick begins at once: the job comes
    /// back waiting for the store, with the action that reads it.
    pub fn start(&self) -> (r: (RefSync, SyncAction))
        ensures
            (r.0@, r.1@) == sync_step(idle(), SyncEvent::TimerFired),
    {
        let mut job = RefSync::new();
        let action = job.step(SyncEvent::TimerFired);
        (job, action)
    }
}

impl RefSync {
    /// The job between two ticks.
    pub fn new() -> (r: Self)
        ensures
            r@ == idle(),
    {
        RefSync {
            phase: SyncPhase::Idle,
            repositories: Vec::new(),
            branches: Vec::new(),
            cursor: 0,
            found: Vec::new(),
            stored: 0,
        }
    }

    fn rest(&mut self) -> (r: SyncAction)
        ensures
            final(self)@ == idle(),
            r@ == SyncActionView::Wait,
    {
        self.phase = SyncPhase::Idle;
        self.repositories = Vec::new();
        self.branches = Vec::new();
        self.cursor = 0;
        self.found = Vec::new();
        self.stored = 0;
        SyncAction::Wait
    }

    fn turn_to(&mut self, target: usize) -> (r: SyncAction)
        ensures
            (final(self)@, r@) == turn_to(old(self)@, target as nat),
    {
        if target < self.repositories.len() {
            self.phase = SyncPhase::Probing;
            self.cursor = target;
            self.found = Vec::new();
            self.stored = 0;
            SyncAction::ProbePath { path: local_path(&self.repositories[target]) }
        } else {
            self.rest()
        }
    }

    fn move_on(&mut self) -> (r: SyncAction)
        requires
            old(self).cursor < old(self).repositories.len(),
        ensures
            (final(self)@, r@) == move_on(old(self)@),
    {
        let target = find_target(&self.repositories, &self.branches, self.cursor + 1);
        self.turn_to(target)
    }

    fn store_next(&mut self) -> (r: SyncAction)
        requires
            old(self).cursor < old(self).repositories.len(),
        ensures
            (final(self)@, r@) == store_next(old(self)@),
    {
        if self.stored < self.found.len() {
            self.phase = SyncPhase::Storing;
            let branch = &self.found[self.stored];
            SyncAction::UpsertBranch {
                repository_id: self.repositories[self.cursor].id,
                name: branch.0.clone(),
                head_sha: branch.1.clone(),
            }
        } else {
            self.move_on()
        }
    }

    fn list_clone(&mut self) -> (r: SyncAction)
        requires
            old(self).cursor < old(self).repositories.len(),
        ensures
            (final(self)@, r@) == list_clone(old(self)@),
    {
        self.phase = SyncPhase::Listing;
        self.found = Vec::new();
        self.stored = 0;
        SyncAction::ListBranches { path: local_path(&self.repositories[self.cursor]) }
    }

    /// Whether `event` answers what the job asked for.
    pub fn expects(&self, event: &SyncEvent) -> (r: bool)
        ensures
            r == is_expected(self@, *event),
    {
        let in_work = self.cursor < self.repositories.len();
        match event {
            SyncEvent::TimerFired => self.phase == SyncPhase::Idle,
            SyncEvent::Loaded { .. } => self.phase == SyncPhase::Loading,
            SyncEvent::Probed { .. } => self.phase == SyncPhase::Probing && in_work,
            SyncEvent::Cloned { .. } => self.phase == SyncPhase::Cloning && in_work,
            SyncEvent::Listed { .. } => self.phase == SyncPhase::Listing && in_work,
            SyncEvent::Stored { .. } => self.phase == SyncPhase::Storing && in_work,
        }
    }

    /// Takes in what happened and says what to do next.
    pub fn step(&mut self, event: SyncEvent) -> (r: SyncAction)
        ensures
            (final(self)@, r@) == sync_step(old(self)@, event),
    {
        if !self.expects(&event) {
            return self.rest();
        }
        match event {
            SyncEvent::TimerFired => {
                self.phase = SyncPhase::Loading;
                self.repositories = Vec::new();
                self.branches = Vec::new();
                self.cursor = 0;
                self.found = Vec::new();
                self.stored = 0;
                SyncAction::LoadStore
            },
            SyncEvent::Loaded { repositories, branches } => match (repositories, branches) {
                (Ok(repositories), Ok(branches)) => {
                    let target = find_target(&repositories, &branches, 0);
                    self.repositories = repositories;
                    self.branches = branches;
                    self.cursor = 0;
                    self.found = Vec::new();
                    self.stored = 0;
                    self.turn_to(target)
                },
                _ => self.rest(),
            },
            SyncEvent::Probed { exists } => {
                if exists {
                    self.list_clone()
                } else {
                    self.phase = SyncPhase::Cloning;
                    self.found = Vec::new();
                    self.stored = 0;
                    let repository = &self.repositories[self.cursor];
                    SyncAction::Clone {
                        url: remote_url(repository),
                        path: local_path(repository),
                    }
                }
            },
            SyncEvent::Cloned { ok } => {
                if ok {
                    self.list_clone()
                } else {
                    self.move_on()
                }
            },
            SyncEvent::Listed { branches } => match branches {
                Some(found) => {
                    self.found = found;
                    self.stored = 0;
                    self.store_next()
                },
                None => self.move_on(),
            },
            SyncEvent::Stored { ok: _ } => {
                if self.stored < self.found.len() {
                    self.stored = self.stored + 1;
                    self.store_next()
                } else {
                    self.move_on()
                }
            },
        }
    }
}

} // verus!
