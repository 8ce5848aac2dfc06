//! What holds of the ref-sync job over whole ticks: the store's branches
//! after a tick, and that a second tick against the same remotes changes
//! nothing.

use crate::db::{Branch, Repository};
use crate::scheduler::scheduler::{
    clone_path, clone_url, has_branch_of, idle, list_clone, move_on, needs_sync, next_target,
    store_next, sync_step, turn_to, RefSyncView, SyncActionView, SyncEvent, SyncPhase,
};
use vstd::prelude::*;

verus! {

/// The store's branches as a table: under each pair of repository and branch
/// name, the commit at the tip. A pair occurs once, whatever the rows.
pub open spec fn branch_table(branches: Seq<Branch>) -> Map<(i32, Seq<char>), Seq<char>>
    decreases branches.len(),
{
    if branches.len() == 0 {
        Map::empty()
    } else {
        branch_table(branches.drop_last()).insert(
            (branches.last().repository_id, branches.last().name@),
            branches.last().head_sha@,
        )
    }
}

/// Whether the table holds a branch of repository `id`.
pub open spec fn table_has_branch_of(table: Map<(i32, Seq<char>), Seq<char>>, id: i32) -> bool {
    exists|name: Seq<char>| table.contains_key((id, name))
}

/// The table after the store took each of `found` as a branch of repository
/// `id`, in order: a name that is new is inserted, one that is there has its
/// tip moved.
pub open spec fn upsert_all(
    table: Map<(i32, Seq<char>), Seq<char>>,
    id: i32,
    found: Seq<(String, String)>,
) -> Map<(i32, Seq<char>), Seq<char>>
    decreases found.len(),
{
    if found.len() == 0 {
        table
    } else {
        upsert_all(table, id, found.drop_last()).insert((id, found.last().0@), found.last().1@)
    }
}

/// The table after a tick has dealt with the first `upto` repositories. The
/// tick started from `branches`; `remote` says which branches the clone of
/// each repository shows (none where the clone or its enumeration fails). A
/// repository is dealt with as [`sync_step`] does: where it needs the sync,
/// judged by the branches at the start of the tick, each of its branches goes
/// to the store; else nothing does.
pub open spec fn synced_table(
    repositories: Seq<Repository>,
    branches: Seq<Branch>,
    remote: spec_fn(Repository) -> Seq<(String, String)>,
    upto: nat,
) -> Map<(i32, Seq<char>), Seq<char>>
    decreases upto,
{
    if upto == 0 {
        branch_table(branches)
    } else {
        let before = synced_table(repositories, branches, remote, (upto - 1) as nat);
        let repository = repositories[upto - 1];
        if upto <= repositories.len() && needs_sync(repository, branches) {
            upsert_all(before, repository.id, remote(repository))
        } else {
            before
        }
    }
}

/// The table after a whole tick.
pub open spec fn tick_table(
    repositories: Seq<Repository>,
    branches: Seq<Branch>,
    remote: spec_fn(Repository) -> Seq<(String, String)>,
) -> Map<(i32, Seq<char>), Seq<char>> {
    synced_table(repositories, branches, remote, repositories.len())
}

/// The rows hold a branch of a repository exactly when their table does.
pub proof fn lemma_table_has_branch_of(branches: Seq<Branch>, id: i32)
    ensures
        has_branch_of(branches, id) <==> table_has_branch_of(branch_table(branches), id),
    decreases branches.len(),
{
    if branches.len() > 0 {
        let init = branches.drop_last();
        let last = branches.last();
        lemma_table_has_branch_of(init, id);
        if has_branch_of(branches, id) {
            let i = choose|i: int|
                0 <= i < branches.len() && (#[trigger] branches[i]).repository_id == id;
            if i < init.len() {
                assert(init[i] == branches[i]);
                let name = choose|name: Seq<char>| branch_table(init).contains_key((id, name));
                assert(branch_table(branches).contains_key((id, name)));
            } else {
                assert(branch_table(branches).contains_key((id, last.name@)));
            }
        }
        if table_has_branch_of(branch_table(branches), id) {
            let name = choose|name: Seq<char>| branch_table(branches).contains_key((id, name));
            if (id, name) == (last.repository_id, last.name@) {
                assert(branches[branches.len() - 1].repository_id == id);
            } else {
                assert(branch_table(init).contains_key((id, name)));
                let i = choose|i: int|
                    0 <= i < init.len() && (#[trigger] init[i]).repository_id == id;
                assert(branches[i] == init[i]);
            }
        }
    }
}

/// Handing branches to the store removes none, and the last one handed over
/// is in the table afterwards.
pub proof fn lemma_upsert_all_keeps(
    table: Map<(i32, Seq<char>), Seq<char>>,
    id: i32,
    found: Seq<(String, String)>,
)
    ensures
        forall|key: (i32, Seq<char>)| #[trigger]
            table.contains_key(key) ==> upsert_all(table, id, found).contains_key(key),
        found.len() > 0 ==> upsert_all(table, id, found).contains_key((id, found.last().0@)),
    decreases found.len(),
{
    if found.len() > 0 {
        lemma_upsert_all_keeps(table, id, found.drop_last());
    }
}

/// A tick removes no branch: what the table holds after `from` repositories
/// it still holds after `upto`.
pub proof fn lemma_synced_table_grows(
    repositories: Seq<Repository>,
    branches: Seq<Branch>,
    remote: spec_fn(Repository) -> Seq<(String, String)>,
    from: nat,
    upto: nat,
)
    requires
        from <= upto,
    ensures
        forall|key: (i32, Seq<char>)| #[trigger]
            synced_table(repositories, branches, remote, from).contains_key(key) ==> synced_table(
                repositories,
                branches,
                remote,
                upto,
            ).contains_key(key),
    decreases upto - from,
{
    if from < upto {
        lemma_synced_table_grows(repositories, branches, remote, from, (upto - 1) as nat);
        let before = synced_table(repositories, branches, remote, (upto - 1) as nat);
        let repository = repositories[upto - 1];
        lemma_upsert_all_keeps(before, repository.id, remote(repository));
    }
}

/// Ref sync is idempotent: a second tick against the same remotes leaves the
/// store's branches as the first tick left them. `after` stands for the rows
/// that the store lists once the first tick is done.
pub proof fn lemma_ref_sync_is_idempotent(
    repositories: Seq<Repository>,
    branches: Seq<Branch>,
    after: Seq<Branch>,
    remote: spec_fn(Repository) -> Seq<(String, String)>,
)
    requires
        branch_table(after) == tick_table(repositories, branches, remote),
    ensures
        tick_table(repositories, after, remote) == branch_table(after),
{
    lemma_second_tick_changes_nothing(repositories, branches, after, remote, repositories.len());
}

/// However far the second tick has come, the table is the one that the first
/// tick left.
proof fn lemma_second_tick_changes_nothing(
    repositories: Seq<Repository>,
    branches: Seq<Branch>,
    after: Seq<Branch>,
    remote: spec_fn(Repository) -> Seq<(String, String)>,
    upto: nat,
)
    requires
        branch_table(after) == tick_table(repositories, branches, remote),
        upto <= repositories.len(),
    ensures
        synced_table(repositories, after, remote, upto) == branch_table(after),
    decreases upto,
{
    if upto > 0 {
        lemma_second_tick_changes_nothing(
            repositories,
            branches,
            after,
            remote,
            (upto - 1) as nat,
        );
        let repository = repositories[upto - 1];
        let found = remote(repository);
        if needs_sync(repository, after) && found.len() > 0 {
            let first = tick_table(repositories, branches, remote);
            lemma_table_has_branch_of(after, repository.id);
            assert(!table_has_branch_of(first, repository.id));
            lemma_table_has_branch_of(branches, repository.id);
            lemma_synced_table_grows(repositories, branches, remote, 0, repositories.len());
            if has_branch_of(branches, repository.id) {
                let name = choose|name: Seq<char>|
                    branch_table(branches).contains_key((repository.id, name));
                assert(synced_table(repositories, branches, remote, 0).contains_key(
                    (repository.id, name),
                ));
                assert(first.contains_key((repository.id, name)));
            }
            assert(needs_sync(repository, branches));
            let before = synced_table(repositories, branches, remote, (upto - 1) as nat);
            lemma_upsert_all_keeps(before, repository.id, found);
            let key = (repository.id, found.last().0@);
            assert(synced_table(repositories, branches, remote, upto).contains_key(key));
            lemma_synced_table_grows(repositories, branches, remote, upto, repositories.len());
            assert(first.contains_key(key));
            assert(false);
        }
    }
}

/// What a tick meets outside the job: whether a clone lies at a path,
/// whether cloning a URL to a path succeeds, and what the enumeration of the
/// clone at a path gives. The store is taken to accept every branch.
pub struct Surroundings {
    pub has_clone: spec_fn(Seq<char>) -> bool,
    pub clone_succeeds: spec_fn(Seq<char>, Seq<char>) -> bool,
    pub listing: spec_fn(Seq<char>) -> Option<Vec<(String, String)>>,
}

/// Whether the job is at work on a repository.
pub open spec fn in_work(job: RefSyncView) -> bool {
    job.cursor < job.repositories.len() && (job.phase == SyncPhase::Probing || job.phase
        == SyncPhase::Cloning || job.phase == SyncPhase::Listing || job.phase
        == SyncPhase::Storing)
}

/// How far a phase is from the end of a repository's turn.
pub open spec fn phase_rank(phase: SyncPhase) -> nat {
    match phase {
        SyncPhase::Probing => 3,
        SyncPhase::Cloning => 2,
        SyncPhase::Listing => 1,
        _ => 0,
    }
}

/// Whether an action asks something of the surroundings or the store within
/// a tick's work.
pub open spec fn is_request(action: SyncActionView) -> bool {
    action is ProbePath || action is Clone || action is ListBranches || action is UpsertBranch
}

/// What the surroundings answer to an action.
pub open spec fn answer(action: SyncActionView, around: Surroundings) -> SyncEvent {
    match action {
        SyncActionView::ProbePath { path } => SyncEvent::Probed {
            exists: (around.has_clone)(path),
        },
        SyncActionView::Clone { url, path } => SyncEvent::Cloned {
            ok: (around.clone_succeeds)(url, path),
        },
        SyncActionView::ListBranches { path } => SyncEvent::Listed {
            branches: (around.listing)(path),
        },
        _ => SyncEvent::Stored { ok: true },
    }
}

/// The table once an action is performed: the store takes the branch of an
/// upsert, and no other action touches the store's branches.
pub open spec fn performed(
    action: SyncActionView,
    table: Map<(i32, Seq<char>), Seq<char>>,
) -> Map<(i32, Seq<char>), Seq<char>> {
    match action {
        SyncActionView::UpsertBranch { repository_id, name, head_sha } => table.insert(
            (repository_id, name),
            head_sha,
        ),
        _ => table,
    }
}

/// The table at the end of a tick's work. The job is in state `job` and has
/// asked for `action`; the action is performed and answered, the job steps,
/// and so on until the job asks nothing more of its surroundings.
pub open spec fn tick_run(
    job: RefSyncView,
    action: SyncActionView,
    table: Map<(i32, Seq<char>), Seq<char>>,
    around: Surroundings,
) -> Map<(i32, Seq<char>), Seq<char>>
    decreases
            job.repositories.len() - job.cursor,
            phase_rank(job.phase),
            job.found.len() - job.stored,
    via tick_run_terminates
{
    if in_work(job) && is_request(action) {
        let next = sync_step(job, answer(action, around));
        tick_run(next.0, next.1, performed(action, table), around)
    } else {
        table
    }
}

#[via_fn]
proof fn tick_run_terminates(
    job: RefSyncView,
    action: SyncActionView,
    table: Map<(i32, Seq<char>), Seq<char>>,
    around: Surroundings,
) {
    if in_work(job) {
        lemma_next_target(job.repositories, job.branches, job.cursor + 1);
    }
}

/// The branches that the clone of a repository shows to a tick: those that
/// the enumeration gives, where there is a clone or one can be made.
pub open spec fn shown(around: Surroundings) -> spec_fn(Repository) -> Seq<(String, String)> {
    |repository: Repository|
        {
            let path = clone_path(repository);
            if (around.has_clone)(path) || (around.clone_succeeds)(clone_url(repository), path) {
                match (around.listing)(path) {
                    Some(found) => found@,
                    None => Seq::empty(),
                }
            } else {
                Seq::empty()
            }
        }
}

/// The next target lies at or after the position the search starts from; no
/// repository between the two needs the sync, and the target does.
pub proof fn lemma_next_target(repositories: Seq<Repository>, branches: Seq<Branch>, from: nat)
    requires
        from <= repositories.len(),
    ensures
        from <= next_target(repositories, branches, from) <= repositories.len(),
        forall|j: int|
            from <= j < next_target(repositories, branches, from) ==> !needs_sync(
                #[trigger] repositories[j],
                branches,
            ),
        next_target(repositories, branches, from) < repositories.len() ==> needs_sync(
            repositories[next_target(repositories, branches, from) as int],
            branches,
        ),
    decreases repositories.len() - from,
{
    if from < repositories.len() && !needs_sync(repositories[from as int], branches) {
        lemma_next_target(repositories, branches, from + 1);
    }
}

/// The table after a tick has dealt with the repositories from `from` on,
/// starting from `table`.
pub open spec fn sync_from(
    repositories: Seq<Repository>,
    branches: Seq<Branch>,
    remote: spec_fn(Repository) -> Seq<(String, String)>,
    from: nat,
    table: Map<(i32, Seq<char>), Seq<char>>,
) -> Map<(i32, Seq<char>), Seq<char>>
    decreases repositories.len() - from,
{
    if from >= repositories.len() {
        table
    } else {
        let repository = repositories[from as int];
        sync_from(
            repositories,
            branches,
            remote,
            from + 1,
            if needs_sync(repository, branches) {
                upsert_all(table, repository.id, remote(repository))
            } else {
                table
            },
        )
    }
}

/// Dealing with the repositories one after another from the first comes to
/// the same as dealing with the first `from` and then with the rest.
proof fn lemma_sync_from_completes(
    repositories: Seq<Repository>,
    branches: Seq<Branch>,
    remote: spec_fn(Repository) -> Seq<(String, String)>,
    from: nat,
)
    requires
        from <= repositories.len(),
    ensures
        sync_from(
            repositories,
            branches,
            remote,
            from,
            synced_table(repositories, branches, remote, from),
        ) == tick_table(repositories, branches, remote),
    decreases repositories.len() - from,
{
    if from < repositories.len() {
        lemma_sync_from_completes(repositories, branches, remote, from + 1);
    }
}

/// The repositories before the next target change nothing.
proof fn lemma_sync_from_skips(
    repositories: Seq<Repository>,
    branches: Seq<Branch>,
    remote: spec_fn(Repository) -> Seq<(String, String)>,
    from: nat,
    table: Map<(i32, Seq<char>), Seq<char>>,
)
    requires
        from <= repositories.len(),
    ensures
        sync_from(repositories, branches, remote, from, table) == sync_from(
            repositories,
            branches,
            remote,
            next_target(repositories, branches, from),
            table,
        ),
    decreases repositories.len() - from,
{
    if from < repositories.len() && !needs_sync(repositories[from as int], branches) {
        lemma_sync_from_skips(repositories, branches, remote, from + 1, table);
    }
}

/// The job with the lists of a tick, before it turns to a repository.
pub open spec fn loaded_job(repositories: Seq<Repository>, branches: Seq<Branch>) -> RefSyncView {
    RefSyncView {
        phase: SyncPhase::Loading,
        repositories,
        branches,
        cursor: 0,
        found: Seq::empty(),
        stored: 0,
    }
}

/// The job at work on the repository at `at`, with `stored` of `found` handed
/// to the store.
spec fn storing_job(
    repositories: Seq<Repository>,
    branches: Seq<Branch>,
    at: nat,
    found: Seq<(String, String)>,
    stored: nat,
) -> RefSyncView {
    RefSyncView { phase: SyncPhase::Storing, repositories, branches, cursor: at, found, stored }
}

/// The job as it turns to the first repository from `from` on that needs the
/// sync, with the action it then asks for.
spec fn turned(repositories: Seq<Repository>, branches: Seq<Branch>, from: nat) -> (
    RefSyncView,
    SyncActionView,
) {
    turn_to(loaded_job(repositories, branches), next_target(repositories, branches, from))
}

/// Whether the run from the job's turn to the repositories from `from` on
/// ends, whatever the table it starts with, where [`sync_from`] says.
spec fn run_matches(
    repositories: Seq<Repository>,
    branches: Seq<Branch>,
    around: Surroundings,
    from: nat,
) -> bool {
    forall|table: Map<(i32, Seq<char>), Seq<char>>| #[trigger]
        tick_run(
            turned(repositories, branches, from).0,
            turned(repositories, branches, from).1,
            table,
            around,
        ) == sync_from(repositories, branches, shown(around), from, table)
}

/// The run from the point where `stored` of the found branches are with the
/// store: the rest of them follow, then the repositories after this one.
proof fn lemma_storing_run(
    repositories: Seq<Repository>,
    branches: Seq<Branch>,
    around: Surroundings,
    at: nat,
    found: Seq<(String, String)>,
    stored: nat,
    table: Map<(i32, Seq<char>), Seq<char>>,
)
    requires
        at < repositories.len(),
        stored <= found.len(),
        run_matches(repositories, branches, around, at + 1),
    ensures
        tick_run(
            store_next(storing_job(repositories, branches, at, found, stored)).0,
            store_next(storing_job(repositories, branches, at, found, stored)).1,
            upsert_all(table, repositories[at as int].id, found.subrange(0, stored as int)),
            around,
        ) == sync_from(
            repositories,
            branches,
            shown(around),
            at + 1,
            upsert_all(table, repositories[at as int].id, found),
        ),
    decreases found.len() - stored,
{
    let id = repositories[at as int].id;
    let job = storing_job(repositories, branches, at, found, stored);
    let so_far = upsert_all(table, id, found.subrange(0, stored as int));
    if stored < found.len() {
        let waiting = store_next(job).0;
        let upsert = store_next(job).1;
        assert(waiting == job);
        assert(in_work(waiting) && is_request(upsert));
        let next = found.subrange(0, stored as int + 1);
        assert(next.drop_last() =~= found.subrange(0, stored as int));
        assert(next.last() == found[stored as int]);
        assert(performed(upsert, so_far) == upsert_all(table, id, next));
        assert(sync_step(waiting, answer(upsert, around)) == store_next(
            storing_job(repositories, branches, at, found, stored + 1),
        ));
        lemma_storing_run(repositories, branches, around, at, found, stored + 1, table);
    } else {
        assert(found.subrange(0, stored as int) =~= found);
        assert(store_next(job) == turned(repositories, branches, at + 1));
    }
}

/// The run from the job's turn to the repositories from `from` on.
proof fn lemma_run_matches(
    repositories: Seq<Repository>,
    branches: Seq<Branch>,
    around: Surroundings,
    from: nat,
)
    requires
        from <= repositories.len(),
    ensures
        run_matches(repositories, branches, around, from),
    decreases repositories.len() - from,
{
    let remote = shown(around);
    let base = loaded_job(repositories, branches);
    let at = next_target(repositories, branches, from);
    lemma_next_target(repositories, branches, from);
    if at < repositories.len() {
        lemma_run_matches(repositories, branches, around, at + 1);
    }
    assert forall|table: Map<(i32, Seq<char>), Seq<char>>| #[trigger]
        tick_run(
            turned(repositories, branches, from).0,
            turned(repositories, branches, from).1,
            table,
            around,
        ) == sync_from(repositories, branches, remote, from, table) by {
        lemma_sync_from_skips(repositories, branches, remote, from, table);
        if at < repositories.len() {
            let repository = repositories[at as int];
            let id = repository.id;
            let path = clone_path(repository);
            let url = clone_url(repository);
            let probing = turn_to(base, at).0;
            let probe = turn_to(base, at).1;
            let beyond = turned(repositories, branches, at + 1);
            let listed = list_clone(probing).0;
            let list = list_clone(probing).1;
            let cloning = RefSyncView {
                phase: SyncPhase::Cloning,
                repositories,
                branches,
                cursor: at,
                found: Seq::empty(),
                stored: 0,
            };
            let clone = SyncActionView::Clone { url, path };
            assert(probe == SyncActionView::ProbePath { path });
            assert(list == SyncActionView::ListBranches { path });
            assert(move_on(probing) == beyond);
            assert(move_on(cloning) == beyond);
            assert(move_on(listed) == beyond);
            assert(list_clone(cloning) == (listed, list));
            assert(tick_run(beyond.0, beyond.1, table, around) == sync_from(
                repositories,
                branches,
                remote,
                at + 1,
                table,
            ));
            assert(upsert_all(table, id, Seq::empty()) == table);
            let from_listing = tick_run(listed, list, table, around);
            let listed_branches: Seq<(String, String)> = match (around.listing)(path) {
                Some(found) => found@,
                None => Seq::empty(),
            };
            assert(from_listing == sync_from(
                repositories,
                branches,
                remote,
                at + 1,
                upsert_all(table, id, listed_branches),
            )) by {
                assert(in_work(listed) && is_request(list));
                assert(performed(list, table) == table);
                match (around.listing)(path) {
                    Some(found) => {
                        assert(sync_step(listed, answer(list, around)) == store_next(
                            storing_job(repositories, branches, at, found@, 0),
                        ));
                        assert(found@.subrange(0, 0) =~= Seq::empty());
                        lemma_storing_run(repositories, branches, around, at, found@, 0, table);
                    },
                    None => {
                        assert(sync_step(listed, answer(list, around)) == beyond);
                    },
                }
            }
            assert(in_work(probing) && is_request(probe));
            assert(performed(probe, table) == table);
            assert(needs_sync(repository, branches));
            assert(sync_from(repositories, branches, remote, at, table) == sync_from(
                repositories,
                branches,
                remote,
                at + 1,
                upsert_all(table, id, remote(repository)),
            ));
            if (around.has_clone)(path) {
                assert(remote(repository) == listed_branches);
                assert(sync_step(probing, answer(probe, around)) == (listed, list));
                assert(tick_run(probing, probe, table, around) == from_listing);
            } else {
                assert(sync_step(probing, answer(probe, around)) == (cloning, clone));
                assert(tick_run(probing, probe, table, around) == tick_run(
                    cloning,
                    clone,
                    table,
                    around,
                ));
                assert(in_work(cloning) && is_request(clone));
                assert(performed(clone, table) == table);
                if (around.clone_succeeds)(url, path) {
                    assert(remote(repository) == listed_branches);
                    assert(sync_step(cloning, answer(clone, around)) == (listed, list));
                    assert(tick_run(cloning, clone, table, around) == from_listing);
                } else {
                    assert(remote(repository) == Seq::<(String, String)>::empty());
                    assert(sync_step(cloning, answer(clone, around)) == beyond);
                    assert(tick_run(cloning, clone, table, around) == tick_run(
                        beyond.0,
                        beyond.1,
                        table,
                        around,
                    ));
                }
            }
        } else {
            assert(turn_to(base, at) == (idle(), SyncActionView::Wait));
            assert(!in_work(idle()));
            assert(tick_run(idle(), SyncActionView::Wait, table, around) == table);
            assert(sync_from(repositories, branches, remote, at, table) == table);
        }
    }
}

/// The job at the start of a tick's work, with the action it asks for: the
/// timer has fired and the store has listed `repositories` and `branches`.
pub open spec fn started(repositories: Vec<Repository>, branches: Vec<Branch>) -> (
    RefSyncView,
    SyncActionView,
) {
    sync_step(
        sync_step(idle(), SyncEvent::TimerFired).0,
        SyncEvent::Loaded { repositories: Ok(repositories), branches: Ok(branches) },
    )
}

/// A tick that the job runs leaves the store's branches as [`tick_table`]
/// says. The tick starts with the timer, reads `repositories` and `branches`
/// from the store, and has every action performed and answered until the job
/// asks nothing more.
pub proof fn lemma_tick_run_is_tick_table(
    repositories: Vec<Repository>,
    branches: Vec<Branch>,
    around: Surroundings,
)
    ensures
        tick_run(
            started(repositories, branches).0,
            started(repositories, branches).1,
            branch_table(branches@),
            around,
        ) == tick_table(repositories@, branches@, shown(around)),
{
    lemma_run_matches(repositories@, branches@, around, 0);
    lemma_sync_from_completes(repositories@, branches@, shown(around), 0);
    assert(started(repositories, branches) == turned(repositories@, branches@, 0));
}

/// The table after a tick depends on the remotes only through the branches
/// that they show.
pub proof fn lemma_synced_table_by_what_is_shown(
    repositories: Seq<Repository>,
    branches: Seq<Branch>,
    remote: spec_fn(Repository) -> Seq<(String, String)>,
    again: spec_fn(Repository) -> Seq<(String, String)>,
    upto: nat,
)
    requires
        forall|repository: Repository| #[trigger] again(repository) == remote(repository),
    ensures
        synced_table(repositories, branches, again, upto) == synced_table(
            repositories,
            branches,
            remote,
            upto,
        ),
    decreases upto,
{
    if upto > 0 {
        lemma_synced_table_by_what_is_shown(
            repositories,
            branches,
            remote,
            again,
            (upto - 1) as nat,
        );
    }
}

/// Running ref sync twice is running it once. Let a tick run from the rows
/// `branches` and let the store list the rows `after` once it is done. Then a
/// second tick over the same repositories, in surroundings that show the
/// same branches as before, ends with the store's branches as `after` has
/// them: no branch is added, none is moved, and none occurs twice.
pub proof fn lemma_second_tick_run_changes_nothing(
    repositories: Vec<Repository>,
    branches: Vec<Branch>,
    after: Vec<Branch>,
    around: Surroundings,
    around_again: Surroundings,
)
    requires
        branch_table(after@) == tick_run(
            started(repositories, branches).0,
            started(repositories, branches).1,
            branch_table(branches@),
            around,
        ),
        forall|repository: Repository| #[trigger]
            shown(around_again)(repository) == shown(around)(repository),
    ensures
        tick_run(
            started(repositories, after).0,
            started(repositories, after).1,
            branch_table(after@),
            around_again,
        ) == branch_table(after@),
{
    lemma_tick_run_is_tick_table(repositories, branches, around);
    lemma_tick_run_is_tick_table(repositories, after, around_again);
    lemma_ref_sync_is_idempotent(repositories@, branches@, after@, shown(around));
    lemma_synced_table_by_what_is_shown(
        repositories@,
        after@,
        shown(around),
        shown(around_again),
        repositories@.len(),
    );
}

} // verus!
