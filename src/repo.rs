use vstd::prelude::*;

verus! {

/// A failure of a git invocation, with its description.
#[derive(Debug)]
pub enum GitError {
    Generic(String),
}

/// One invocation of git: the directory it runs in (`None`: the current
/// one) and its arguments.
pub struct GitCommand {
    pub dir: Option<String>,
    pub args: Vec<String>,
}

/// The plain value of a `GitCommand`.
pub open spec fn command_view(c: GitCommand) -> (Option<Seq<char>>, Seq<Seq<char>>) {
    (crate::review::opt_view(c.dir), c.args@.map_values(|a: String| a@))
}

/// A working copy of a remote repository, checked out at `path`.
pub struct Repo {
    remote: String,
    path: String,
    branch: String,
}

impl View for Repo {
    type V = (Seq<char>, Seq<char>, Seq<char>);

    /// Remote, path and branch.
    closed spec fn view(&self) -> (Seq<char>, Seq<char>, Seq<char>) {
        (self.remote@, self.path@, self.branch@)
    }
}

/// A list of arguments built from string slices.
fn args_of(parts: &[&str]) -> (r: Vec<String>)
    ensures
        r@.map_values(|a: String| a@) == parts@.map_values(|p: &str| p@),
{
    let mut r: Vec<String> = Vec::new();
    let mut i: usize = 0;
    while i < parts.len()
        invariant
            i <= parts@.len(),
            r@.map_values(|a: String| a@) == parts@.subrange(0, i as int).map_values(|p: &str| p@),
        decreases parts@.len() - i,
    {
        let ghost prev = r@;
        let s = String::from_str(parts[i]);
        r.push(s);
        proof {
            assert(r@.map_values(|a: String| a@) =~= prev.map_values(|a: String| a@).push(parts@[i as int]@));
            assert(parts@.subrange(0, i + 1).map_values(|p: &str| p@) =~= parts@.subrange(0, i as int).map_values(
                |p: &str| p@,
            ).push(parts@[i as int]@));
            assert(r@.map_values(|a: String| a@) =~= parts@.subrange(0, i + 1).map_values(|p: &str| p@));
        }
        i = i + 1;
    }
    proof {
        assert(parts@.subrange(0, i as int) =~= parts@);
    }
    r
}

impl Repo {
    /// A working copy of `remote` at `path`, following `branch`.
    pub fn new(remote: String, path: String, branch: String) -> (r: Repo)
        ensures
            r@ == (remote@, path@, branch@),
    {
        Repo { remote, path, branch }
    }

    /// The directory of the working copy.
    pub fn path(&self) -> (r: &str)
        ensures
            r@ == self@.1,
    {
        self.path.as_str()
    }

    /// A git invocation inside the working copy.
    fn cmd(&self, parts: &[&str]) -> (r: GitCommand)
        ensures
            command_view(r) == (Some(self@.1), parts@.map_values(|p: &str| p@)),
    {
        GitCommand { dir: Some(self.path.clone()), args: args_of(parts) }
    }

    /// What brings the working copy into being: a clone of the remote into
    /// `path`, from the current directory, when `path` does not exist yet;
    /// nothing otherwise.
    pub fn setup(&self, path_exists: bool) -> (r: Option<GitCommand>)
        ensures
            path_exists ==> r is None,
            !path_exists ==> r is Some && command_view(r->Some_0) == (
                None::<Seq<char>>,
                seq!["clone"@, self@.0, self@.1],
            ),
    {
        if path_exists {
            None
        } else {
            let args = vec![String::from_str("clone"), self.remote.clone(), self.path.clone()];
            proof {
                assert(args@.map_values(|a: String| a@) =~= seq!["clone"@, self@.0, self@.1]);
            }
            Some(GitCommand { dir: None, args })
        }
    }

    /// `git reset` in the working copy.
    pub fn reset(&self) -> (r: GitCommand)
        ensures
            command_view(r) == (Some(self@.1), seq!["reset"@]),
    {
        let r = self.cmd(&["reset"]);
        proof {
            assert(seq!["reset"].map_values(|p: &str| p@) =~= seq!["reset"@]);
        }
        r
    }

    /// `git clean -fdx` in the working copy.
    pub fn clean_all(&self) -> (r: GitCommand)
        ensures
            command_view(r) == (Some(self@.1), seq!["clean"@, "-fdx"@]),
    {
        let r = self.cmd(&["clean", "-fdx"]);
        proof {
            assert(seq!["clean", "-fdx"].map_values(|p: &str| p@) =~= seq!["clean"@, "-fdx"@]);
        }
        r
    }

    /// `git stash` in the working copy.
    pub fn stash(&self) -> (r: GitCommand)
        ensures
            command_view(r) == (Some(self@.1), seq!["stash"@]),
    {
        let r = self.cmd(&["stash"]);
        proof {
            assert(seq!["stash"].map_values(|p: &str| p@) =~= seq!["stash"@]);
        }
        r
    }

    /// `git stash pop` in the working copy.
    pub fn stash_pop(&self) -> (r: GitCommand)
        ensures
            command_view(r) == (Some(self@.1), seq!["stash"@, "pop"@]),
    {
        let r = self.cmd(&["stash", "pop"]);
        proof {
            assert(seq!["stash", "pop"].map_values(|p: &str| p@) =~= seq!["stash"@, "pop"@]);
        }
        r
    }

    /// `git checkout <branch>` in the working copy.
    pub fn checkout(&self, branch: &str) -> (r: GitCommand)
        ensures
            command_view(r) == (Some(self@.1), seq!["checkout"@, branch@]),
    {
        let r = self.cmd(&["checkout", branch]);
        proof {
            assert(seq!["checkout", branch].map_values(|p: &str| p@) =~= seq!["checkout"@, branch@]);
        }
        r
    }
}

pub const DECK_REMOTE: &'static str = "https://github.com/openalcoholics/drinking-game-cards";

pub const DECK_PATH: &'static str = "dgc";

pub const DECK_BRANCH: &'static str = "v2";

pub const I18N_BRANCH: &'static str = "feature/i18n";

/// The deck's working copy.
pub fn deck_repo() -> (r: Repo)
    ensures
        r@ == (DECK_REMOTE@, DECK_PATH@, DECK_BRANCH@),
{
    Repo::new(String::from_str(DECK_REMOTE), String::from_str(DECK_PATH), String::from_str(DECK_BRANCH))
}

/// The git invocations, in order, that bring the deck's working copy to its
/// internationalisation branch: a clone when `path_exists` is false, then a
/// reset and a checkout. They are run one after the other, and the first
/// that fails ends the run with its `GitError`.
pub fn test_repo(path_exists: bool) -> (r: Vec<GitCommand>)
    ensures
        r@.map_values(|c: GitCommand| command_view(c)) == (if path_exists {
            Seq::empty()
        } else {
            seq![(None::<Seq<char>>, seq!["clone"@, DECK_REMOTE@, DECK_PATH@])]
        }) + seq![
            (Some(DECK_PATH@), seq!["reset"@]),
            (Some(DECK_PATH@), seq!["checkout"@, I18N_BRANCH@]),
        ],
{
    let repo = deck_repo();
    let mut r: Vec<GitCommand> = Vec::new();
    match repo.setup(path_exists) {
        Some(c) => r.push(c),
        None => {},
    }
    r.push(repo.reset());
    r.push(repo.checkout(I18N_BRANCH));
    proof {
        assert(r@.map_values(|c: GitCommand| command_view(c)) =~= (if path_exists {
            Seq::empty()
        } else {
            seq![(None::<Seq<char>>, seq!["clone"@, DECK_REMOTE@, DECK_PATH@])]
        }) + seq![
            (Some(DECK_PATH@), seq!["reset"@]),
            (Some(DECK_PATH@), seq!["checkout"@, I18N_BRANCH@]),
        ]);
    }
    r
}

} // verus!
