//! Finding out where HEAD stands.
//!
//! The repository is asked one question at a time, and each answer decides
//! what is asked next, or that enough is known. The questions are put by the
//! caller, who has the repository; what to ask and what to make of the
//! answers is decided here.

use vstd::prelude::*;
use crate::segments::git::{RepoError, RepoState, Upstream};

verus! {

/// What is known of one local branch.
pub struct BranchFacts {
    /// The name of the branch, where it can be read.
    pub name: Option<String>,
    /// Whether the branch points at a commit.
    pub has_target: bool,
    /// Whether the branch tracks another one that points at a commit.
    pub tracks: bool,
}

/// A question to the repository.
pub enum Query {
    /// Is HEAD detached?
    HeadDetached,
    /// What is the abbreviated id of the commit at HEAD?
    HeadShortId,
    /// Which local branches are there, in the repository's order, and which
    /// of them is checked out?
    LocalBranches,
    /// What is known of the local branch at this place in that order?
    Branch(usize),
    /// How far are that branch and the one it tracks apart?
    Divergence,
}

/// An answer of the repository.
pub enum Answer {
    /// The repository could not tell.
    Failed,
    HeadDetached(bool),
    HeadShortId(String),
    /// One entry for each local branch: whether it is checked out, or `None`
    /// where the entry could not be read.
    LocalBranches(Vec<Option<bool>>),
    Branch(BranchFacts),
    Divergence { ahead: usize, behind: usize },
}

/// The first branch that is checked out, by its place in the list. Entries
/// are read from the front and no further than that branch: an entry before
/// it that cannot be read is an error, one after it is never looked at.
pub open spec fn head_branch(branches: Seq<Option<bool>>) -> Result<Option<int>, RepoError>
    decreases branches.len(),
{
    if branches.len() == 0 {
        Ok(None)
    } else {
        match branches[0] {
            None => Err(RepoError::QueryFailed),
            Some(is_head) => if is_head {
                Ok(Some(0int))
            } else {
                match head_branch(branches.drop_first()) {
                    Ok(Some(place)) => Ok(Some(place + 1)),
                    other => other,
                }
            },
        }
    }
}

/// The same search, started behind `skipped` entries of branches that are not
/// checked out.
proof fn head_branch_behind(branches: Seq<Option<bool>>, skipped: int)
    requires
        0 <= skipped <= branches.len(),
        forall|j: int| 0 <= j < skipped ==> branches[j] == Some(false),
    ensures
        head_branch(branches) == match head_branch(branches.skip(skipped)) {
            Ok(Some(place)) => Ok(Some(place + skipped)),
            other => other,
        },
    decreases skipped,
{
    if skipped == 0 {
        assert(branches.skip(0) =~= branches);
    } else {
        let rest = branches.drop_first();
        assert(rest.skip(skipped - 1) =~= branches.skip(skipped));
        assert forall|j: int| 0 <= j < skipped - 1 implies rest[j] == Some(false) by {
            assert(rest[j] == branches[j + 1]);
        }
        head_branch_behind(rest, skipped - 1);
    }
}

/// What [`head_branch`] finds, said at once: the place of a branch that is
/// checked out, with none but branches that are not before it; nothing,
/// where no branch is checked out; an error, where an entry that cannot be
/// read comes before any branch that is checked out.
pub proof fn head_branch_is_the_first(branches: Seq<Option<bool>>)
    ensures
        match head_branch(branches) {
            Ok(Some(place)) => {
                &&& 0 <= place < branches.len()
                &&& branches[place] == Some(true)
                &&& forall|j: int| 0 <= j < place ==> branches[j] == Some(false)
            },
            Ok(None) => forall|j: int| 0 <= j < branches.len() ==> branches[j] == Some(false),
            Err(error) => {
                &&& error == RepoError::QueryFailed
                &&& exists|i: int|
                    {
                        &&& 0 <= i < branches.len()
                        &&& branches[i] is None
                        &&& forall|j: int| 0 <= j < i ==> branches[j] == Some(false)
                    }
            },
        },
    decreases branches.len(),
{
    if branches.len() > 0 {
        let rest = branches.drop_first();
        head_branch_is_the_first(rest);
        assert(forall|j: int| 0 <= j < rest.len() ==> rest[j] == branches[j + 1]);
        match branches[0] {
            None => {
                assert(branches[0] is None);
            },
            Some(is_head) => {
                if !is_head {
                    match head_branch(rest) {
                        Ok(Some(place)) => {
                            assert forall|j: int| 0 <= j < place + 1 implies branches[j] == Some(
                                false,
                            ) by {
                                if j > 0 {
                                    assert(rest[j - 1] == branches[j]);
                                }
                            }
                        },
                        Ok(None) => {
                            assert forall|j: int| 0 <= j < branches.len() implies branches[j]
                                == Some(false) by {
                                if j > 0 {
                                    assert(rest[j - 1] == branches[j]);
                                }
                            }
                        },
                        Err(_) => {
                            let i = choose|i: int|
                                {
                                    &&& 0 <= i < rest.len()
                                    &&& rest[i] is None
                                    &&& forall|j: int| 0 <= j < i ==> rest[j] == Some(false)
                                };
                            assert(branches[i + 1] is None);
                            assert forall|j: int| 0 <= j < i + 1 implies branches[j] == Some(
                                false,
                            ) by {
                                if j > 0 {
                                    assert(rest[j - 1] == branches[j]);
                                }
                            }
                        },
                    }
                }
            },
        }
    }
}

/// Finds the branch that is checked out.
pub fn get_head_branch(branches: &Vec<Option<bool>>) -> (r: Result<Option<usize>, RepoError>)
    ensures
        head_branch(branches@) == match r {
            Ok(Some(place)) => Ok(Some(place as int)),
            Ok(None) => Ok(None),
            Err(error) => Err(error),
        },
        r matches Ok(Some(place)) ==> place < branches@.len(),
{
    let mut i: usize = 0;
    while i < branches.len()
        invariant
            i <= branches.len(),
            forall|j: int| 0 <= j < i ==> branches@[j] == Some(false),
        decreases branches.len() - i,
    {
        proof {
            head_branch_behind(branches@, i as int);
            assert(branches@.skip(i as int)[0] == branches@[i as int]);
        }
        match branches[i] {
            None => {
                return Err(RepoError::QueryFailed);
            },
            Some(is_head) => {
                if is_head {
                    return Ok(Some(i));
                }
            },
        }
        i += 1;
    }
    proof {
        head_branch_behind(branches@, i as int);
    }
    Ok(None)
}

/// How far the search for the state of HEAD has come.
pub enum Resolver {
    /// Nothing is known yet.
    AskDetached,
    /// HEAD is detached.
    AskShortId,
    /// HEAD is not detached.
    AskBranches,
    /// The branch at this place is checked out.
    AskBranch(usize),
    /// The branch that is checked out tracks another; its name, where it
    /// could be read.
    AskDivergence { name: Option<String> },
    /// The search is over.
    Done(Result<RepoState, RepoError>),
}

/// The end of the search on a branch: the branch needs a name.
pub open spec fn on_branch(name: Option<String>, upstream: Option<Upstream>) -> Resolver {
    match name {
        Some(name) => Resolver::Done(Ok(RepoState::OnBranch { name, upstream })),
        None => Resolver::Done(Err(RepoError::QueryFailed)),
    }
}

impl Resolver {
    /// What is asked next; nothing, when the search is over.
    pub open spec fn asks(&self) -> Option<Query> {
        match self {
            Resolver::AskDetached => Some(Query::HeadDetached),
            Resolver::AskShortId => Some(Query::HeadShortId),
            Resolver::AskBranches => Some(Query::LocalBranches),
            Resolver::AskBranch(place) => Some(Query::Branch(*place)),
            Resolver::AskDivergence { .. } => Some(Query::Divergence),
            Resolver::Done(_) => None,
        }
    }

    /// Where an answer leads.
    ///
    /// A search that is over stays where it is. An answer that the
    /// repository could not give ends the search in an error, and so does an
    /// answer to another question than the one that was asked. Otherwise:
    /// a detached HEAD is known by the id of its commit; without a branch
    /// that is checked out the repository is empty; a branch that is checked
    /// out must point at a commit and have a name, and how far it is from
    /// the branch that it tracks is asked only where it tracks one.
    pub open spec fn next(self, answer: Answer) -> Resolver {
        match (self, answer) {
            (Resolver::Done(outcome), _) => Resolver::Done(outcome),
            (_, Answer::Failed) => Resolver::Done(Err(RepoError::QueryFailed)),
            (Resolver::AskDetached, Answer::HeadDetached(detached)) => if detached {
                Resolver::AskShortId
            } else {
                Resolver::AskBranches
            },
            (Resolver::AskShortId, Answer::HeadShortId(short_id)) => Resolver::Done(
                Ok(RepoState::Detached(short_id)),
            ),
            (Resolver::AskBranches, Answer::LocalBranches(branches)) => match head_branch(
                branches@,
            ) {
                Ok(Some(place)) => Resolver::AskBranch(place as usize),
                Ok(None) => Resolver::Done(Ok(RepoState::Empty)),
                Err(error) => Resolver::Done(Err(error)),
            },
            (Resolver::AskBranch(_), Answer::Branch(facts)) => if !facts.has_target {
                Resolver::Done(Err(RepoError::TargetNotFound))
            } else if facts.tracks {
                Resolver::AskDivergence { name: facts.name }
            } else {
                on_branch(facts.name, None)
            },
            (Resolver::AskDivergence { name }, Answer::Divergence { ahead, behind }) => on_branch(
                name,
                Some(Upstream::capped_at_ceiling(ahead as nat, behind as nat)),
            ),
            _ => Resolver::Done(Err(RepoError::UnexpectedAnswer)),
        }
    }

    /// A search that has not asked anything yet.
    pub fn new() -> (resolver: Self)
        ensures
            resolver == Resolver::AskDetached,
    {
        Resolver::AskDetached
    }

    /// What to ask the repository next; nothing, when the search is over.
    pub fn query(&self) -> (query: Option<Query>)
        ensures
            query == self.asks(),
    {
        match self {
            Resolver::AskDetached => Some(Query::HeadDetached),
            Resolver::AskShortId => Some(Query::HeadShortId),
            Resolver::AskBranches => Some(Query::LocalBranches),
            Resolver::AskBranch(place) => Some(Query::Branch(*place)),
            Resolver::AskDivergence { .. } => Some(Query::Divergence),
            Resolver::Done(_) => None,
        }
    }

    /// Takes the answer to the question that was asked.
    pub fn advance(self, answer: Answer) -> (resolver: Self)
        ensures
            resolver == self.next(answer),
    {
        match self {
            Resolver::Done(outcome) => Resolver::Done(outcome),
            Resolver::AskDetached => match answer {
                Answer::Failed => Resolver::Done(Err(RepoError::QueryFailed)),
                Answer::HeadDetached(detached) => if detached {
                    Resolver::AskShortId
                } else {
                    Resolver::AskBranches
                },
                _ => Resolver::Done(Err(RepoError::UnexpectedAnswer)),
            },
            Resolver::AskShortId => match answer {
                Answer::Failed => Resolver::Done(Err(RepoError::QueryFailed)),
                Answer::HeadShortId(short_id) => Resolver::Done(Ok(RepoState::Detached(short_id))),
                _ => Resolver::Done(Err(RepoError::UnexpectedAnswer)),
            },
            Resolver::AskBranches => match answer {
                Answer::Failed => Resolver::Done(Err(RepoError::QueryFailed)),
                Answer::LocalBranches(branches) => match get_head_branch(&branches) {
                    Ok(Some(place)) => Resolver::AskBranch(place),
                    Ok(None) => Resolver::Done(Ok(RepoState::Empty)),
                    Err(error) => Resolver::Done(Err(error)),
                },
                _ => Resolver::Done(Err(RepoError::UnexpectedAnswer)),
            },
            Resolver::AskBranch(_) => match answer {
                Answer::Failed => Resolver::Done(Err(RepoError::QueryFailed)),
                Answer::Branch(facts) => {
                    if !facts.has_target {
                        Resolver::Done(Err(RepoError::TargetNotFound))
                    } else if facts.tracks {
                        Resolver::AskDivergence { name: facts.name }
                    } else {
                        Self::finish_on_branch(facts.name, None)
                    }
                },
                _ => Resolver::Done(Err(RepoError::UnexpectedAnswer)),
            },
            Resolver::AskDivergence { name } => match answer {
                Answer::Failed => Resolver::Done(Err(RepoError::QueryFailed)),
                Answer::Divergence { ahead, behind } => Self::finish_on_branch(
                    name,
                    Some(Upstream::new(ahead, behind)),
                ),
                _ => Resolver::Done(Err(RepoError::UnexpectedAnswer)),
            },
        }
    }

    fn finish_on_branch(name: Option<String>, upstream: Option<Upstream>) -> (resolver: Self)
        ensures
            resolver == on_branch(name, upstream),
    {
        match name {
            Some(name) => Resolver::Done(Ok(RepoState::OnBranch { name, upstream })),
            None => Resolver::Done(Err(RepoError::QueryFailed)),
        }
    }

    /// What the search has found, once it is over.
    pub fn outcome(self) -> (outcome: Option<Result<RepoState, RepoError>>)
        ensures
            outcome == match self {
                Resolver::Done(found) => Some(found),
                _ => None,
            },
    {
        match self {
            Resolver::Done(found) => Some(found),
            _ => None,
        }
    }
}

/// The search, run against a repository that gives an answer to every
/// question, for at most `steps` questions.
pub open spec fn run(resolver: Resolver, repository: spec_fn(Query) -> Answer, steps: nat) -> Resolver
    decreases steps,
{
    if steps == 0 {
        resolver
    } else {
        match resolver.asks() {
            None => resolver,
            Some(query) => run(resolver.next(repository(query)), repository, (steps - 1) as nat),
        }
    }
}

/// How far the branch that is checked out is from the one it tracks, where it
/// tracks one.
pub open spec fn distance(repository: spec_fn(Query) -> Answer, facts: BranchFacts) -> Result<
    Option<Upstream>,
    RepoError,
> {
    if facts.tracks {
        match repository(Query::Divergence) {
            Answer::Failed => Err(RepoError::QueryFailed),
            Answer::Divergence { ahead, behind } => Ok(
                Some(Upstream::capped_at_ceiling(ahead as nat, behind as nat)),
            ),
            _ => Err(RepoError::UnexpectedAnswer),
        }
    } else {
        Ok(None)
    }
}

/// The state of a branch that is checked out.
pub open spec fn state_on_branch(repository: spec_fn(Query) -> Answer, facts: BranchFacts) -> Result<
    RepoState,
    RepoError,
> {
    if !facts.has_target {
        Err(RepoError::TargetNotFound)
    } else {
        match distance(repository, facts) {
            Err(error) => Err(error),
            Ok(upstream) => match facts.name {
                Some(name) => Ok(RepoState::OnBranch { name, upstream }),
                None => Err(RepoError::QueryFailed),
            },
        }
    }
}

/// The state of a repository whose HEAD is not detached.
pub open spec fn state_attached(repository: spec_fn(Query) -> Answer) -> Result<
    RepoState,
    RepoError,
> {
    match repository(Query::LocalBranches) {
        Answer::Failed => Err(RepoError::QueryFailed),
        Answer::LocalBranches(branches) => match head_branch(branches@) {
            Err(error) => Err(error),
            Ok(None) => Ok(RepoState::Empty),
            Ok(Some(place)) => match repository(Query::Branch(place as usize)) {
                Answer::Failed => Err(RepoError::QueryFailed),
                Answer::Branch(facts) => state_on_branch(repository, facts),
                _ => Err(RepoError::UnexpectedAnswer),
            },
        },
        _ => Err(RepoError::UnexpectedAnswer),
    }
}

/// Where HEAD stands in a repository, said at once.
pub open spec fn classification(repository: spec_fn(Query) -> Answer) -> Result<
    RepoState,
    RepoError,
> {
    match repository(Query::HeadDetached) {
        Answer::Failed => Err(RepoError::QueryFailed),
        Answer::HeadDetached(detached) => if detached {
            match repository(Query::HeadShortId) {
                Answer::Failed => Err(RepoError::QueryFailed),
                Answer::HeadShortId(short_id) => Ok(RepoState::Detached(short_id)),
                _ => Err(RepoError::UnexpectedAnswer),
            }
        } else {
            state_attached(repository)
        },
        _ => Err(RepoError::UnexpectedAnswer),
    }
}

/// Whether exactly one of four holds.
pub open spec fn exactly_one(a: bool, b: bool, c: bool, d: bool) -> bool {
    (if a { 1int } else { 0int }) + (if b { 1int } else { 0int }) + (if c { 1int } else { 0int })
        + (if d { 1int } else { 0int }) == 1
}

/// Every repository is classified, and in one way only: the search is over
/// after four questions at most, it ends in the state that the repository is
/// in, and that is exactly one of detached, on a branch, empty, or an error.
pub proof fn every_repository_is_in_one_state(repository: spec_fn(Query) -> Answer)
    ensures
        run(Resolver::AskDetached, repository, 4) == Resolver::Done(classification(repository)),
        exactly_one(
            classification(repository) matches Ok(RepoState::Detached(_)),
            classification(repository) matches Ok(RepoState::OnBranch { .. }),
            classification(repository) matches Ok(RepoState::Empty),
            classification(repository) is Err,
        ),
{
    reveal_with_fuel(run, 5);
}

/// On a branch, the distance to another branch is there if and only if the
/// branch tracks one. It is zero both ways where the two are level, and
/// never above the ceiling.
pub proof fn upstream_follows_what_is_tracked(
    repository: spec_fn(Query) -> Answer,
    branches: Vec<Option<bool>>,
    place: usize,
    facts: BranchFacts,
    name: String,
)
    requires
        repository(Query::HeadDetached) == Answer::HeadDetached(false),
        repository(Query::LocalBranches) == Answer::LocalBranches(branches),
        head_branch(branches@) == Ok::<Option<int>, RepoError>(Some(place as int)),
        repository(Query::Branch(place)) == Answer::Branch(facts),
        facts.has_target,
        facts.name == Some(name),
    ensures
        !facts.tracks ==> classification(repository) == Ok::<RepoState, RepoError>(
            RepoState::OnBranch { name, upstream: None },
        ),
        forall|ahead: usize, behind: usize|
            facts.tracks && repository(Query::Divergence) == (Answer::Divergence { ahead, behind })
                ==> {
                &&& classification(repository) matches Ok(
                    RepoState::OnBranch { name: shown, upstream: Some(upstream) },
                )
                &&& shown == name
                &&& upstream.ahead() == crate::segments::git::capped(ahead as nat)
                &&& upstream.behind() == crate::segments::git::capped(behind as nat)
                &&& ahead == 0 && behind == 0 ==> upstream.ahead() == 0 && upstream.behind() == 0
            },
{
    assert forall|ahead: usize, behind: usize|
        facts.tracks && repository(Query::Divergence) == (Answer::Divergence { ahead, behind })
        implies {
        &&& classification(repository) matches Ok(
            RepoState::OnBranch { name: shown, upstream: Some(upstream) },
        )
        &&& shown == name
        &&& upstream.ahead() == crate::segments::git::capped(ahead as nat)
        &&& upstream.behind() == crate::segments::git::capped(behind as nat)
        &&& ahead == 0 && behind == 0 ==> upstream.ahead() == 0 && upstream.behind() == 0
    } by {
        Upstream::capped_counts(ahead as nat, behind as nat);
    }
}

} // verus!
