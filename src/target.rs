use vstd::prelude::*;

verus! {

/// One tracked branch: the owner, the repository and the branch name.
#[derive(Debug)]
pub struct Target {
    pub owner: String,
    pub repo: String,
    pub branch: String,
}

/// The identity of a target as text: (owner, repository, branch).
pub type TargetKey = (Seq<char>, Seq<char>, Seq<char>);

impl View for Target {
    type V = TargetKey;

    open spec fn view(&self) -> TargetKey {
        (self.owner@, self.repo@, self.branch@)
    }
}

impl Target {
    pub fn new(owner: String, repo: String, branch: String) -> (r: Target)
        ensures
            r.owner == owner,
            r.repo == repo,
            r.branch == branch,
    {
        Target { owner, repo, branch }
    }

    /// A copy of this target.
    pub fn duplicate(&self) -> (r: Target)
        ensures
            r == *self,
    {
        Target { owner: self.owner.clone(), repo: self.repo.clone(), branch: self.branch.clone() }
    }

    /// Whether two targets name the same branch of the same repository.
    pub fn same_as(&self, other: &Target) -> (r: bool)
        ensures
            r == (self@ == other@),
    {
        self.owner == other.owner && self.repo == other.repo && self.branch == other.branch
    }
}

/// One repository of the configuration with the branches tracked in it.
#[derive(Debug)]
pub struct RepoConfig {
    pub owner: String,
    pub repo: String,
    pub branch: Vec<String>,
}

/// The targets of one configured repository, one per branch, in order.
pub open spec fn repo_targets(c: RepoConfig) -> Seq<TargetKey> {
    c.branch@.map_values(|b: String| (c.owner@, c.repo@, b@))
}

/// The targets of a configuration: each repository's branches in turn.
pub open spec fn config_targets(cs: Seq<RepoConfig>) -> Seq<TargetKey>
    decreases cs.len(),
{
    if cs.len() == 0 {
        Seq::empty()
    } else {
        config_targets(cs.drop_last()) + repo_targets(cs.last())
    }
}

/// Expands the configured repositories into the list of tracked targets:
/// one per (repository, branch) pair, in configuration order. Duplicates are
/// kept.
pub fn expand_targets(repos: &Vec<RepoConfig>) -> (r: Vec<Target>)
    ensures
        r@.map_values(|t: Target| t@) == config_targets(repos@),
{
    let mut out: Vec<Target> = Vec::new();
    let mut i: usize = 0;
    while i < repos.len()
        invariant
            i <= repos.len(),
            out@.map_values(|t: Target| t@) == config_targets(repos@.subrange(0, i as int)),
        decreases repos.len() - i,
    {
        let c = &repos[i];
        let ghost before = out@.map_values(|t: Target| t@);
        let mut j: usize = 0;
        while j < c.branch.len()
            invariant
                i < repos.len(),
                c == repos@[i as int],
                j <= c.branch.len(),
                out@.map_values(|t: Target| t@) == before + repo_targets(*c).subrange(0, j as int),
            decreases c.branch.len() - j,
        {
            let t = Target::new(c.owner.clone(), c.repo.clone(), c.branch[j].clone());
            assert(t@ == repo_targets(*c)[j as int]);
            let ghost prev = out@;
            out.push(t);
            assert(out@.map_values(|t: Target| t@) =~= prev.map_values(|t: Target| t@).push(t@));
            assert(out@.map_values(|t: Target| t@) =~= before + repo_targets(*c).subrange(0, j + 1));
            j += 1;
        }
        assert(repos@.subrange(0, i + 1).drop_last() =~= repos@.subrange(0, i as int));
        assert(repo_targets(*c).subrange(0, j as int) =~= repo_targets(*c));
        i += 1;
    }
    assert(repos@.subrange(0, i as int) =~= repos@);
    out
}

/// Upstream location of the branch metadata of a target.
pub open spec fn spec_branch_url(t: TargetKey) -> Seq<char> {
    "https://api.github.com/repos/"@ + t.0 + "/"@ + t.1 + "/branches/"@ + t.2
}

/// The address of the upstream branch-metadata endpoint for `t`.
pub fn branch_url(t: &Target) -> (r: String)
    ensures
        r@ == spec_branch_url(t@),
{
    let mut s = String::from_str("https://api.github.com/repos/");
    s.append(t.owner.as_str());
    s.append("/");
    s.append(t.repo.as_str());
    s.append("/branches/");
    s.append(t.branch.as_str());
    s
}

} // verus!
