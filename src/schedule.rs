use vstd::prelude::*;
use crate::config::DenylistConfig;
use crate::repo::Repo;

verus! {

/// Where a fetch cycle stands. Indices point into the candidates of the
/// current cycle; a publisher index counts the enabled publishers in their
/// configured order.
#[derive(Clone, Copy, PartialEq, Eq, Structural, Debug)]
pub enum Phase {
    Fetching,
    Checking(usize),
    Publishing(usize, usize),
    Marking(usize),
    PausingPost(usize),
    PausingFetch,
}

/// What the runner is asked to do next.
#[derive(Clone, Copy, PartialEq, Eq, Structural, Debug)]
pub enum Action {
    /// Fetch the trending candidates.
    Fetch,
    /// Ask the record store whether candidate `i` is marked posted.
    CheckPosted(usize),
    /// Compose and publish candidate `i` on publisher `p`.
    Publish(usize, usize),
    /// Mark candidate `i` posted, with the configured time to live.
    MarkPosted(usize),
    /// Sleep for the pause between two posts.
    PausePost,
    /// Sleep for the pause between two fetch cycles.
    PauseFetch,
}

/// What came of the last action.
pub enum Event {
    Fetched(Vec<Repo>),
    FetchFailed,
    Checked(bool),
    StoreFailed,
    Published,
    PublishFailed,
    Marked,
    Paused,
}

/// The action that a phase waits on.
pub open spec fn action_of(p: Phase) -> Action {
    match p {
        Phase::Fetching => Action::Fetch,
        Phase::Checking(i) => Action::CheckPosted(i),
        Phase::Publishing(i, k) => Action::Publish(i, k),
        Phase::Marking(i) => Action::MarkPosted(i),
        Phase::PausingPost(_) => Action::PausePost,
        Phase::PausingFetch => Action::PauseFetch,
    }
}

/// The first candidate at or after `i` that the denylist lets through, or
/// the number of candidates when there is none.
pub open spec fn first_allowed(d: DenylistConfig, repos: Seq<Repo>, i: int) -> int
    decreases repos.len() - i,
{
    if i >= repos.len() {
        repos.len() as int
    } else if d.excludes(&repos[i]) {
        first_allowed(d, repos, i + 1)
    } else {
        i
    }
}

/// Move on to the candidates from `i`: check the next allowed one, or end
/// the cycle.
pub open spec fn visit(d: DenylistConfig, repos: Seq<Repo>, i: int) -> Phase {
    let j = first_allowed(d, repos, i);
    if j >= repos.len() {
        Phase::PausingFetch
    } else {
        Phase::Checking(j as usize)
    }
}

/// Candidate `i` is new: publish on each publisher in turn, or mark it at
/// once when no publisher is enabled.
pub open spec fn start_publishing(n: nat, i: usize) -> Phase {
    if n == 0 {
        Phase::Marking(i)
    } else {
        Phase::Publishing(i, 0)
    }
}

/// The publisher after `k` for candidate `i`, or the marking step; the
/// outcome of publisher `k` plays no part.
pub open spec fn after_publisher(n: nat, i: usize, k: usize) -> Phase {
    if k + 1 < n {
        Phase::Publishing(i, (k + 1) as usize)
    } else {
        Phase::Marking(i)
    }
}

/// One transition: the candidates and the phase after event `e`. An event
/// that the phase does not wait on changes nothing.
pub open spec fn next(d: DenylistConfig, n: nat, repos: Seq<Repo>, p: Phase, e: Event) -> (Seq<Repo>, Phase) {
    match (p, e) {
        (Phase::Fetching, Event::Fetched(v)) => (v@, visit(d, v@, 0)),
        (Phase::Fetching, Event::FetchFailed) => (repos, Phase::PausingFetch),
        (Phase::Checking(i), Event::Checked(posted)) => if posted {
            (repos, visit(d, repos, i + 1))
        } else {
            (repos, start_publishing(n, i))
        },
        (Phase::Checking(i), Event::StoreFailed) => (repos, visit(d, repos, i + 1)),
        (Phase::Publishing(i, k), Event::Published) => (repos, after_publisher(n, i, k)),
        (Phase::Publishing(i, k), Event::PublishFailed) => (repos, after_publisher(n, i, k)),
        (Phase::Marking(i), Event::Marked) => (repos, Phase::PausingPost(i)),
        (Phase::Marking(i), Event::StoreFailed) => (repos, Phase::PausingPost(i)),
        (Phase::PausingPost(i), Event::Paused) => (repos, visit(d, repos, i + 1)),
        (Phase::PausingFetch, Event::Paused) => (Seq::empty(), Phase::Fetching),
        _ => (repos, p),
    }
}

/// The indices of a phase stay among the candidates and the publishers, and
/// a candidate that the store or a publisher hears of is never denylisted.
pub open spec fn phase_ok(d: DenylistConfig, n: nat, repos: Seq<Repo>, p: Phase) -> bool {
    match p {
        Phase::Checking(i) => i < repos.len() && !d.excludes(&repos[i as int]),
        Phase::Publishing(i, k) => i < repos.len() && k < n && !d.excludes(&repos[i as int]),
        Phase::Marking(i) => i < repos.len() && !d.excludes(&repos[i as int]),
        Phase::PausingPost(i) => i < repos.len(),
        _ => true,
    }
}

/// The outcome of a publisher never changes what comes next: whether
/// publisher `k` succeeded or failed, the next publisher is called, and after
/// the last one the candidate is marked posted.
pub proof fn lemma_publish_outcome_ignored(
    d: DenylistConfig,
    n: nat,
    repos: Seq<Repo>,
    i: usize,
    k: usize,
    e: Event,
)
    requires
        k < n,
        e is Published || e is PublishFailed,
    ensures
        next(d, n, repos, Phase::Publishing(i, k), e) == next(
            d,
            n,
            repos,
            Phase::Publishing(i, k),
            Event::Published,
        ),
        next(d, n, repos, Phase::Publishing(i, k), e).1 == (if k + 1 < n {
            Phase::Publishing(i, (k + 1) as usize)
        } else {
            Phase::Marking(i)
        }),
{
}

/// With three publishers, whatever each of them answers (the second failing
/// included), a new candidate goes to the first, the second and the third
/// publisher in turn and is then marked posted.
pub proof fn lemma_three_publishers_all_tried(
    d: DenylistConfig,
    repos: Seq<Repo>,
    i: usize,
    e1: Event,
    e2: Event,
    e3: Event,
)
    requires
        e1 is Published || e1 is PublishFailed,
        e2 is Published || e2 is PublishFailed,
        e3 is Published || e3 is PublishFailed,
    ensures
        ({
            let s0 = next(d, 3, repos, Phase::Checking(i), Event::Checked(false));
            let s1 = next(d, 3, s0.0, s0.1, e1);
            let s2 = next(d, 3, s1.0, s1.1, e2);
            let s3 = next(d, 3, s2.0, s2.1, e3);
            &&& action_of(s0.1) == Action::Publish(i, 0)
            &&& action_of(s1.1) == Action::Publish(i, 1)
            &&& action_of(s2.1) == Action::Publish(i, 2)
            &&& action_of(s3.1) == Action::MarkPosted(i)
            &&& s3.0 == repos
        }),
{
}

/// Every transition keeps a well-formed phase well formed.
pub proof fn lemma_next_ok(d: DenylistConfig, n: nat, repos: Seq<Repo>, p: Phase, e: Event)
    requires
        phase_ok(d, n, repos, p),
        repos.len() <= usize::MAX,
        e matches Event::Fetched(v) ==> v@.len() <= usize::MAX,
    ensures
        phase_ok(d, n, next(d, n, repos, p, e).0, next(d, n, repos, p, e).1),
{
    match e {
        Event::Fetched(v) => {
            lemma_visit_ok(d, n, v@, 0);
        },
        _ => {},
    }
    match p {
        Phase::Checking(i) => {
            lemma_visit_ok(d, n, repos, i + 1);
        },
        Phase::PausingPost(i) => {
            lemma_visit_ok(d, n, repos, i + 1);
        },
        _ => {},
    }
}

/// A denylisted candidate is skipped entirely: from a well-formed phase, no
/// transition asks the record store about it, publishes it or marks it.
pub proof fn lemma_denied_never_touched(d: DenylistConfig, n: nat, repos: Seq<Repo>, p: Phase, e: Event)
    requires
        phase_ok(d, n, repos, p),
        repos.len() <= usize::MAX,
        e matches Event::Fetched(v) ==> v@.len() <= usize::MAX,
    ensures
        ({
            let (rs, q) = next(d, n, repos, p, e);
            match action_of(q) {
                Action::CheckPosted(j) => !d.excludes(&rs[j as int]),
                Action::Publish(j, _) => !d.excludes(&rs[j as int]),
                Action::MarkPosted(j) => !d.excludes(&rs[j as int]),
                _ => true,
            }
        }),
{
    lemma_next_ok(d, n, repos, p, e);
}

/// The decisions of the posting loop: which candidate to look at, when to
/// ask the record store, which publisher to call and when to pause.
pub struct Scheduler {
    denylist: DenylistConfig,
    publishers: usize,
    repos: Vec<Repo>,
    phase: Phase,
}

proof fn lemma_first_allowed_bounds(d: DenylistConfig, repos: Seq<Repo>, i: int)
    requires
        0 <= i <= repos.len(),
    ensures
        i <= first_allowed(d, repos, i) <= repos.len(),
        first_allowed(d, repos, i) < repos.len() ==> !d.excludes(
            &repos[first_allowed(d, repos, i)],
        ),
    decreases repos.len() - i,
{
    if i < repos.len() && d.excludes(&repos[i]) {
        lemma_first_allowed_bounds(d, repos, i + 1);
    }
}

proof fn lemma_visit_ok(d: DenylistConfig, n: nat, repos: Seq<Repo>, i: int)
    requires
        0 <= i <= repos.len(),
        repos.len() <= usize::MAX,
    ensures
        phase_ok(d, n, repos, visit(d, repos, i)),
{
    lemma_first_allowed_bounds(d, repos, i);
}

impl Scheduler {
    pub closed spec fn denylist_spec(&self) -> DenylistConfig {
        self.denylist
    }

    pub closed spec fn publishers_spec(&self) -> nat {
        self.publishers as nat
    }

    pub closed spec fn repos_spec(&self) -> Seq<Repo> {
        self.repos@
    }

    pub closed spec fn phase_spec(&self) -> Phase {
        self.phase
    }

    pub open spec fn wf(&self) -> bool {
        phase_ok(self.denylist_spec(), self.publishers_spec(), self.repos_spec(), self.phase_spec())
    }

    /// A scheduler for `publishers` enabled publishers; it starts by fetching.
    pub fn new(denylist: DenylistConfig, publishers: usize) -> (r: Scheduler)
        ensures
            r.wf(),
            r.denylist_spec() == denylist,
            r.publishers_spec() == publishers,
            r.repos_spec() == Seq::<Repo>::empty(),
            r.phase_spec() == Phase::Fetching,
    {
        Scheduler { denylist, publishers, repos: Vec::new(), phase: Phase::Fetching }
    }

    /// The action the scheduler waits on.
    pub fn pending(&self) -> (r: Action)
        ensures
            r == action_of(self.phase_spec()),
    {
        match self.phase {
            Phase::Fetching => Action::Fetch,
            Phase::Checking(i) => Action::CheckPosted(i),
            Phase::Publishing(i, k) => Action::Publish(i, k),
            Phase::Marking(i) => Action::MarkPosted(i),
            Phase::PausingPost(_) => Action::PausePost,
            Phase::PausingFetch => Action::PauseFetch,
        }
    }

    /// Candidate `i` of the current cycle.
    pub fn candidate(&self, i: usize) -> (r: &Repo)
        requires
            i < self.repos_spec().len(),
        ensures
            *r == self.repos_spec()[i as int],
    {
        &self.repos[i]
    }

    /// How many candidates the current cycle holds.
    pub fn candidates(&self) -> (r: usize)
        ensures
            r == self.repos_spec().len(),
    {
        self.repos.len()
    }

    fn visit_from(&self, i: usize) -> (r: Phase)
        requires
            i <= self.repos@.len(),
        ensures
            r == visit(self.denylist, self.repos@, i as int),
            phase_ok(self.denylist, self.publishers as nat, self.repos@, r),
    {

        let mut j = i;
        while j < self.repos.len() && self.denylist.contains(&self.repos[j])
            invariant
                i <= j <= self.repos@.len(),
                first_allowed(self.denylist, self.repos@, i as int) == first_allowed(
                    self.denylist,
                    self.repos@,
                    j as int,
                ),
            decreases self.repos@.len() - j,
        {
            j = j + 1;
        }
        proof {
            lemma_visit_ok(self.denylist, self.publishers as nat, self.repos@, i as int);
        }
        if j >= self.repos.len() {
            Phase::PausingFetch
        } else {
            Phase::Checking(j)
        }
    }

    /// Takes the outcome of the pending action and says what to do next.
    pub fn step(&mut self, e: Event) -> (r: Action)
        requires
            old(self).wf(),
        ensures
            final(self).wf(),
            final(self).denylist_spec() == old(self).denylist_spec(),
            final(self).publishers_spec() == old(self).publishers_spec(),
            (final(self).repos_spec(), final(self).phase_spec()) == next(
                old(self).denylist_spec(),
                old(self).publishers_spec(),
                old(self).repos_spec(),
                old(self).phase_spec(),
                e,
            ),
            r == action_of(final(self).phase_spec()),
    {
        match self.phase {
            Phase::Fetching => match e {
                Event::Fetched(v) => {
                    self.repos = v;
                    self.phase = self.visit_from(0);
                },
                Event::FetchFailed => {
                    self.phase = Phase::PausingFetch;
                },
                _ => {},
            },
            Phase::Checking(i) => match e {
                Event::Checked(posted) => {
                    if posted {
                        self.phase = self.visit_after(i);
                    } else if self.publishers == 0 {
                        self.phase = Phase::Marking(i);
                    } else {
                        self.phase = Phase::Publishing(i, 0);
                    }
                },
                Event::StoreFailed => {
                    self.phase = self.visit_after(i);
                },
                _ => {},
            },
            Phase::Publishing(i, k) => match e {
                Event::Published | Event::PublishFailed => {
                    self.phase = self.after_publisher(i, k);
                },
                _ => {},
            },
            Phase::Marking(i) => match e {
                Event::Marked | Event::StoreFailed => {
                    self.phase = Phase::PausingPost(i);
                },
                _ => {},
            },
            Phase::PausingPost(i) => match e {
                Event::Paused => {
                    self.phase = self.visit_after(i);
                },
                _ => {},
            },
            Phase::PausingFetch => match e {
                Event::Paused => {
                    self.repos = Vec::new();
                    self.phase = Phase::Fetching;
                },
                _ => {},
            },
        }
        self.pending()
    }

    fn visit_after(&self, i: usize) -> (r: Phase)
        requires
            i < self.repos@.len(),
        ensures
            r == visit(self.denylist, self.repos@, i + 1),
            phase_ok(self.denylist, self.publishers as nat, self.repos@, r),
    {
        let len = self.repos.len();
        assert(i + 1 <= len);
        self.visit_from(i + 1)
    }

    fn after_publisher(&self, i: usize, k: usize) -> (r: Phase)
        requires
            k < self.publishers,
        ensures
            r == after_publisher(self.publishers as nat, i, k),
    {
        if k + 1 < self.publishers {
            Phase::Publishing(i, k + 1)
        } else {
            Phase::Marking(i)
        }
    }
}

} // verus!
