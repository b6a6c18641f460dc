//! The path resolver: candidate executables under an ordered list of search
//! roots, probed one at a time in priority order until one exists.
use vstd::prelude::*;
use crate::paths::{join, join_spec, layout_dir, layout_path, Platform, LAYOUT_COUNT};

verus! {

/// One place where the server may be installed: its directory, the runtime
/// binary in it and the entry script in it.
#[derive(Clone, Debug)]
pub struct Candidate {
    pub working_dir: String,
    pub runtime: String,
    pub script: String,
}

/// The working directory of candidate `k`: root `k / 3` under layout `k % 3`.
pub open spec fn candidate_dir(roots: Seq<String>, k: int, p: Platform) -> Seq<char> {
    layout_dir(roots[k / LAYOUT_COUNT as int]@, k % LAYOUT_COUNT as int, p)
}

/// Whether `c` is candidate `k` for the given roots, binary and script names.
pub open spec fn is_candidate(
    c: Candidate,
    roots: Seq<String>,
    binary: Seq<char>,
    script: Seq<char>,
    k: int,
    p: Platform,
) -> bool {
    &&& c.working_dir@ == candidate_dir(roots, k, p)
    &&& c.runtime@ == join_spec(c.working_dir@, binary, p)
    &&& c.script@ == join_spec(c.working_dir@, script, p)
}

/// Whether `cs` lists every candidate, roots in order and, within a root,
/// layouts in priority order.
pub open spec fn all_candidates(
    cs: Seq<Candidate>,
    roots: Seq<String>,
    binary: Seq<char>,
    script: Seq<char>,
    p: Platform,
) -> bool {
    &&& cs.len() == roots.len() * LAYOUT_COUNT
    &&& forall|k: int| 0 <= k < cs.len() ==> is_candidate(#[trigger] cs[k], roots, binary, script, k, p)
}

/// Builds candidate `k` from its root and layout.
fn make_candidate(root: &str, i: usize, binary: &str, script: &str, p: Platform) -> (c: Candidate)
    requires
        i < LAYOUT_COUNT,
    ensures
        c.working_dir@ == layout_dir(root@, i as int, p),
        c.runtime@ == join_spec(c.working_dir@, binary@, p),
        c.script@ == join_spec(c.working_dir@, script@, p),
{
    let dir = layout_path(root, i, p);
    let runtime = join(dir.as_str(), binary, p);
    let entry = join(dir.as_str(), script, p);
    Candidate { working_dir: dir, runtime, script: entry }
}

/// Every candidate for the given search roots, in probing order.
pub fn candidates(roots: &Vec<String>, binary: &str, script: &str, p: Platform) -> (r: Vec<
    Candidate,
>)
    requires
        roots@.len() * LAYOUT_COUNT <= usize::MAX,
    ensures
        all_candidates(r@, roots@, binary@, script@, p),
{
    let mut r: Vec<Candidate> = Vec::new();
    let mut i: usize = 0;
    while i < roots.len()
        invariant
            i <= roots@.len(),
            roots@.len() * LAYOUT_COUNT <= usize::MAX,
            r@.len() == i * LAYOUT_COUNT,
            forall|k: int| 0 <= k < r@.len() ==> is_candidate(#[trigger] r@[k], roots@, binary@, script@, k, p),
        decreases roots@.len() - i,
    {
        let mut j: usize = 0;
        while j < LAYOUT_COUNT
            invariant
                i < roots@.len(),
                j <= LAYOUT_COUNT,
                roots@.len() * LAYOUT_COUNT <= usize::MAX,
                r@.len() == i * LAYOUT_COUNT + j,
                forall|k: int| 0 <= k < r@.len() ==> is_candidate(#[trigger] r@[k], roots@, binary@, script@, k, p),
            decreases LAYOUT_COUNT - j,
        {
            let c = make_candidate(roots[i].as_str(), j, binary, script, p);
            let ghost k = (i * LAYOUT_COUNT + j) as int;
            assert(k / LAYOUT_COUNT as int == i as int && k % LAYOUT_COUNT as int == j as int);
            r.push(c);
            j = j + 1;
        }
        i = i + 1;
    }
    r
}

/// What the resolver asks for next.
#[derive(Clone, Copy, Debug, PartialEq, Eq, Structural)]
pub enum Probe {
    /// Report whether the runtime of this candidate exists.
    Check(usize),
    /// This candidate exists and every earlier one is missing.
    Found(usize),
    /// No candidate exists.
    Exhausted,
}

/// No answer before index `i` reports an existing candidate.
pub open spec fn misses_before(answers: Seq<bool>, i: int) -> bool {
    forall|j: int| 0 <= j < i ==> !answers[j]
}

/// Whether `r` is the right next step for `count` candidates, given the
/// existence answers for the first `answers.len()` of them: the first
/// reported hit wins; otherwise the next unprobed candidate is checked;
/// otherwise nothing exists.
pub open spec fn probe_outcome(count: int, answers: Seq<bool>, r: Probe) -> bool {
    match r {
        Probe::Found(i) => i < answers.len() && answers[i as int] && misses_before(answers, i as int),
        Probe::Check(i) => i == answers.len() && i < count && misses_before(answers, i as int),
        Probe::Exhausted => answers.len() >= count && misses_before(answers, answers.len() as int),
    }
}

/// Decides the next probing step from the answers so far.
pub fn next_probe(count: usize, answers: &Vec<bool>) -> (r: Probe)
    ensures
        probe_outcome(count as int, answers@, r),
{
    let mut i: usize = 0;
    while i < answers.len()
        invariant
            i <= answers@.len(),
            misses_before(answers@, i as int),
        decreases answers@.len() - i,
    {
        if answers[i] {
            return Probe::Found(i);
        }
        i = i + 1;
    }
    if answers.len() < count {
        Probe::Check(answers.len())
    } else {
        Probe::Exhausted
    }
}

/// When no layout exists under any root, probing every candidate ends with
/// nothing found.
pub proof fn lemma_no_layout_resolves_to_nothing(count: int, answers: Seq<bool>, r: Probe)
    requires
        answers.len() == count,
        forall|j: int| 0 <= j < count ==> !answers[j],
        probe_outcome(count, answers, r),
    ensures
        r == Probe::Exhausted,
{
}

/// Probing honours priority: when candidate `n` is the first that exists,
/// the candidates before it are checked in order, candidate `n` is found
/// right after its own check, and no later candidate is ever consulted.
pub proof fn lemma_first_existing_wins(
    count: int,
    exists: Seq<bool>,
    n: int,
    m: int,
    r: Probe,
)
    requires
        0 <= n < count,
        exists.len() == count,
        exists[n],
        misses_before(exists, n),
        0 <= m <= n + 1,
        probe_outcome(count, exists.take(m), r),
    ensures
        m <= n ==> r == Probe::Check(m as usize),
        m == n + 1 ==> r == Probe::Found(n as usize),
{
    let a = exists.take(m);
    match r {
        Probe::Found(i) => {
            assert(a[i as int] == exists[i as int]);
            if (i as int) < n {
                assert(!exists[i as int]);
            }
        },
        Probe::Check(i) => {
            if m == n + 1 {
                assert(a[n] == exists[n]);
            }
        },
        Probe::Exhausted => {
            if m == n + 1 {
                assert(a[n] == exists[n]);
            }
        },
    }
}

/// The resolver's state: the candidates in probing order and the existence
/// answers reported so far.
pub struct Resolver {
    candidates: Vec<Candidate>,
    answers: Vec<bool>,
}

impl Resolver {
    /// The candidates, in probing order.
    pub closed spec fn candidates_view(&self) -> Seq<Candidate> {
        self.candidates@
    }

    /// The existence answers reported so far, one per probed candidate.
    pub closed spec fn answers_view(&self) -> Seq<bool> {
        self.answers@
    }

    /// The resolver's invariant: at most one answer per candidate.
    pub open spec fn wf(&self) -> bool {
        self.answers_view().len() <= self.candidates_view().len()
    }

    /// A resolver over every candidate under `roots`, with nothing probed yet.
    pub fn new(roots: &Vec<String>, binary: &str, script: &str, p: Platform) -> (r: Resolver)
        requires
            roots@.len() * LAYOUT_COUNT <= usize::MAX,
        ensures
            r.wf(),
            all_candidates(r.candidates_view(), roots@, binary@, script@, p),
            r.answers_view().len() == 0,
    {
        Resolver { candidates: candidates(roots, binary, script, p), answers: Vec::new() }
    }

    /// The next probing step.
    pub fn step(&self) -> (r: Probe)
        requires
            self.wf(),
        ensures
            probe_outcome(self.candidates_view().len() as int, self.answers_view(), r),
    {
        next_probe(self.candidates.len(), &self.answers)
    }

    /// The number of candidates.
    pub fn count(&self) -> (n: usize)
        ensures
            n == self.candidates_view().len(),
    {
        self.candidates.len()
    }

    /// The number of answers reported so far.
    pub fn probed(&self) -> (n: usize)
        ensures
            n == self.answers_view().len(),
    {
        self.answers.len()
    }

    /// Candidate `i`.
    pub fn candidate(&self, i: usize) -> (c: &Candidate)
        requires
            i < self.candidates_view().len(),
        ensures
            *c == self.candidates_view()[i as int],
    {
        &self.candidates[i]
    }

    /// Records whether the candidate that `step` asked about exists.
    pub fn report(&mut self, exists: bool)
        requires
            old(self).answers_view().len() < old(self).candidates_view().len(),
        ensures
            final(self).wf(),
            final(self).candidates_view() == old(self).candidates_view(),
            final(self).answers_view() == old(self).answers_view().push(exists),
    {
        self.answers.push(exists);
    }
}

} // verus!
