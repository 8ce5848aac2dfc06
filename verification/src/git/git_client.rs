//! Credentials for a transfer and the selection of branches after it.

use crate::config::{is_supplied, supplied, Config};
use vstd::prelude::*;
use vstd::string::*;

verus! {

/// Authentication material for one git transfer.
#[derive(Debug, Clone)]
pub enum Credential {
    /// A private key on disk, with its passphrase if it has one.
    SshKey { username: String, key_path: String, passphrase: Option<String> },
    /// Whatever key the SSH agent offers.
    SshAgent { username: String },
    /// A user name and a password or token in plain text.
    UserPass { username: String, password: String },
    /// What the transport finds by itself.
    Default,
}

/// A credential with its texts as sequences of characters.
pub enum CredentialView {
    SshKey { username: Seq<char>, key_path: Seq<char>, passphrase: Option<Seq<char>> },
    SshAgent { username: Seq<char> },
    UserPass { username: Seq<char>, password: Seq<char> },
    Default,
}

impl View for Credential {
    type V = CredentialView;

    open spec fn view(&self) -> CredentialView {
        match *self {
            Credential::SshKey { username, key_path, passphrase } => CredentialView::SshKey {
                username: username@,
                key_path: key_path@,
                passphrase: match passphrase {
                    Some(p) => Some(p@),
                    None => None,
                },
            },
            Credential::SshAgent { username } => CredentialView::SshAgent { username: username@ },
            Credential::UserPass { username, password } => CredentialView::UserPass {
                username: username@,
                password: password@,
            },
            Credential::Default => CredentialView::Default,
        }
    }
}

/// One remote-tracking branch as a local clone shows it.
#[derive(Debug, Clone)]
pub struct RemoteBranch {
    /// The branch's name, such as `origin/main`.
    pub name: String,
    /// Whether the working checkout's HEAD points at this branch.
    pub is_head: bool,
    /// The commit at the tip, where the tip resolves to a commit.
    pub head_sha: Option<String>,
}

impl RemoteBranch {
    /// Whether the branch is recorded: it is not the checkout's HEAD, has a
    /// name, is not the symbolic `origin/HEAD`, and its tip is a commit.
    pub open spec fn is_recorded(&self) -> bool {
        &&& !self.is_head
        &&& self.name@.len() > 0
        &&& self.name@ != "origin/HEAD"@
        &&& self.head_sha is Some
    }

    /// Whether the branch is recorded.
    pub fn recorded(&self) -> (r: bool)
        ensures
            r == self.is_recorded(),
    {
        if self.is_head {
            return false;
        }
        if self.name.as_str().is_empty() {
            return false;
        }
        let alias = String::from_str("origin/HEAD");
        if self.name == alias {
            return false;
        }
        self.head_sha.is_some()
    }
}

/// The recorded branches among `found`, in order, each as its name and the
/// commit at its tip.
pub open spec fn recorded_branches(found: Seq<RemoteBranch>) -> Seq<(String, String)>
    decreases found.len(),
{
    if found.len() == 0 {
        Seq::empty()
    } else if found.last().is_recorded() {
        recorded_branches(found.drop_last()).push((found.last().name, found.last().head_sha->0))
    } else {
        recorded_branches(found.drop_last())
    }
}

/// A branch that is not recorded changes nothing for the others: the
/// selection is the one that the clone would give without that branch.
pub proof fn lemma_skipped_branch_leaves_the_rest(found: Seq<RemoteBranch>, k: int)
    requires
        0 <= k < found.len(),
        !found[k].is_recorded(),
    ensures
        recorded_branches(found) == recorded_branches(found.remove(k)),
    decreases found.len(),
{
    if k == found.len() - 1 {
        assert(found.remove(k) =~= found.drop_last());
    } else {
        let rest = found.remove(k);
        assert(rest.last() == found.last());
        assert(rest.drop_last() =~= found.drop_last().remove(k));
        lemma_skipped_branch_leaves_the_rest(found.drop_last(), k);
    }
}

/// A branch whose tip does not resolve to a commit is left out and takes no
/// other branch with it.
pub proof fn lemma_unresolved_tip_is_skipped_alone(found: Seq<RemoteBranch>, k: int)
    requires
        0 <= k < found.len(),
        found[k].head_sha is None,
    ensures
        recorded_branches(found) == recorded_branches(found.remove(k)),
{
    lemma_skipped_branch_leaves_the_rest(found, k);
}

/// Whether `pair` is the name and tip of a recorded branch of `found`.
pub open spec fn is_recorded_in(found: Seq<RemoteBranch>, pair: (String, String)) -> bool {
    exists|i: int|
        0 <= i < found.len() && (#[trigger] found[i]).is_recorded() && pair == (
            found[i].name,
            found[i].head_sha->0,
        )
}

/// Every recorded branch of the clone is in the selection, and the selection
/// holds nothing else.
pub proof fn lemma_recorded_branches_complete(found: Seq<RemoteBranch>)
    ensures
        recorded_branches(found).len() <= found.len(),
        forall|i: int|
            0 <= i < found.len() && (#[trigger] found[i]).is_recorded()
                ==> recorded_branches(found).contains((found[i].name, found[i].head_sha->0)),
        forall|j: int|
            0 <= j < recorded_branches(found).len() ==> is_recorded_in(
                found,
                #[trigger] recorded_branches(found)[j],
            ),
    decreases found.len(),
{
    if found.len() > 0 {
        let init = found.drop_last();
        let last = found.last();
        lemma_recorded_branches_complete(init);
        let sel = recorded_branches(found);
        let sel_init = recorded_branches(init);
        assert forall|i: int| 0 <= i < found.len() && (#[trigger] found[i]).is_recorded() implies sel.contains(
            (found[i].name, found[i].head_sha->0),
        ) by {
            if i < init.len() {
                assert(init[i] == found[i]);
                let pair = (found[i].name, found[i].head_sha->0);
                assert(sel_init.contains(pair));
                let j = choose|j: int| 0 <= j < sel_init.len() && sel_init[j] == pair;
                assert(sel[j] == pair);
            } else {
                assert(sel[sel.len() - 1] == (last.name, last.head_sha->0));
            }
        }
        assert forall|j: int| 0 <= j < sel.len() implies is_recorded_in(found, #[trigger] sel[j]) by {
            if j < sel_init.len() {
                assert(sel[j] == sel_init[j]);
                assert(is_recorded_in(init, sel_init[j]));
                let i = choose|i: int|
                    0 <= i < init.len() && (#[trigger] init[i]).is_recorded() && sel_init[j] == (
                        init[i].name,
                        init[i].head_sha->0,
                    );
                assert(found[i] == init[i]);
            } else {
                assert(found[found.len() - 1] == last);
            }
        }
    }
}

/// The user name a transfer runs under: the one in the URL, else `git`.
pub open spec fn transfer_user(username_from_url: Option<&str>) -> Seq<char> {
    match username_from_url {
        Some(name) => name@,
        None => "git"@,
    }
}

/// The credential that `config` gives a transfer. SSH mode takes the key on
/// disk where a path is configured and the agent where none is; token mode
/// takes the token under the user `git`, and the transport's default where
/// there is no token.
pub open spec fn resolved_credential(
    config: Config,
    username_from_url: Option<&str>,
) -> CredentialView {
    if config.git_use_ssh_agent {
        if supplied(config.git_ssh_key_path) {
            CredentialView::SshKey {
                username: transfer_user(username_from_url),
                key_path: config.git_ssh_key_path->0@,
                passphrase: match config.git_ssh_key_passphrase {
                    Some(p) => Some(p@),
                    None => None,
                },
            }
        } else {
            CredentialView::SshAgent { username: transfer_user(username_from_url) }
        }
    } else {
        if supplied(config.github_token) {
            CredentialView::UserPass { username: "git"@, password: config.github_token->0@ }
        } else {
            CredentialView::Default
        }
    }
}

/// The git engine's settings.
#[derive(Debug, Clone)]
pub struct GitClient {
    pub config: Config,
}

impl GitClient {
    /// An engine that works under `config`.
    pub fn new(config: Config) -> (r: Self)
        ensures
            r.config == config,
    {
        Self { config }
    }

    /// The credential for one transfer, given the user name that the URL
    /// carries, if it carries one.
    pub fn credentials(&self, username_from_url: Option<&str>) -> (r: Credential)
        ensures
            r@ == resolved_credential(self.config, username_from_url),
    {
        if self.config.git_use_ssh_agent {
            let username = match username_from_url {
                Some(name) => String::from_str(name),
                None => String::from_str("git"),
            };
            if is_supplied(&self.config.git_ssh_key_path) {
                match &self.config.git_ssh_key_path {
                    Some(path) => Credential::SshKey {
                        username,
                        key_path: path.clone(),
                        passphrase: match &self.config.git_ssh_key_passphrase {
                            Some(p) => Some(p.clone()),
                            None => None,
                        },
                    },
                    None => Credential::SshAgent { username },
                }
            } else {
                Credential::SshAgent { username }
            }
        } else {
            if is_supplied(&self.config.github_token) {
                match &self.config.github_token {
                    Some(token) => Credential::UserPass {
                        username: String::from_str("git"),
                        password: token.clone(),
                    },
                    None => Credential::Default,
                }
            } else {
                Credential::Default
            }
        }
    }

    /// The branches to record among those that a clone shows. A branch that
    /// is left out takes no other branch with it.
    pub fn get_branches(&self, found: &Vec<RemoteBranch>) -> (r: Vec<(String, String)>)
        ensures
            r@ == recorded_branches(found@),
    {
        let mut branches: Vec<(String, String)> = Vec::new();
        let mut i: usize = 0;
        while i < found.len()
            invariant
                i <= found.len(),
                branches@ == recorded_branches(found@.subrange(0, i as int)),
            decreases found.len() - i,
        {
            let branch = &found[i];
            proof {
                let upto = found@.subrange(0, i + 1);
                assert(upto.drop_last() =~= found@.subrange(0, i as int));
                assert(upto.last() == *branch);
            }
            if branch.recorded() {
                match &branch.head_sha {
                    Some(sha) => {
                        branches.push((branch.name.clone(), sha.clone()));
                    },
                    None => {},
                }
            }
            i = i + 1;
        }
        assert(found@.subrange(0, found.len() as int) =~= found@);
        branches
    }
}

} // verus!
