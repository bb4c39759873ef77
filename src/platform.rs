use vstd::prelude::*;
use crate::repo::Repo;

pub mod zsxq;

verus! {

/// A publishing platform: it knows how to lay out a post about a repository
/// around an already written description.
pub trait Platform {
    /// The post that `content_by_repo` composes.
    spec fn content_spec(&self, repo: &Repo, description: Seq<char>) -> Seq<char>;

    /// How many grapheme clusters of description the post has room for.
    spec fn budget_spec(&self, repo: &Repo) -> nat;

    fn content_budget(&self, repo: &Repo) -> (r: usize)
        ensures
            r as nat == self.budget_spec(repo),
    ;

    fn content_by_repo(&self, repo: &Repo, description: &str) -> (r: String)
        ensures
            r@ == self.content_spec(repo, description@),
    ;
}

} // verus!
