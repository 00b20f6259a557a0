//! Choosing the client executable among candidate locations.
use vstd::prelude::*;

verus! {

/// A client to launch. An ordinary install is started from its executable;
/// a Microsoft Store install, whose executable lies in a directory that
/// only the package model may start from, is activated as a package by
/// its user model id (the executable is kept for display).
#[derive(Clone, Debug, PartialEq, Eq)]
pub enum ClientTarget {
    DesktopExecutable(String),
    StorePackage { executable: String, package_full_name: String, app_user_model_id: String },
}

/// `probe` may answer `answer` for a path with the text `path`.
pub open spec fn may_answer<F: Fn(&str) -> bool>(probe: F, path: Seq<char>, answer: bool) -> bool {
    exists|p: &str| p@ == path && call_ensures(probe, (p,), answer)
}

/// The next step of a search through `count` candidates, asked in order.
#[derive(Clone, Copy, Debug, PartialEq, Eq)]
pub enum ProbeStep {
    /// Ask whether the candidate at this position exists.
    Probe(usize),
    /// The candidate at this position exists; stop.
    Found(usize),
    /// No candidate exists; stop.
    Exhausted,
}

/// The first step: ask about the first candidate, if there is one.
pub open spec fn probe_begin(count: usize) -> ProbeStep {
    if count > 0 {
        ProbeStep::Probe(0)
    } else {
        ProbeStep::Exhausted
    }
}

/// After asking about the candidate at `index`: stop at it when it
/// exists, else ask about the next one, or stop when it was the last.
pub open spec fn probe_transition(count: usize, index: usize, answer: bool) -> ProbeStep {
    if answer {
        ProbeStep::Found(index)
    } else if index + 1 < count {
        ProbeStep::Probe((index + 1) as usize)
    } else {
        ProbeStep::Exhausted
    }
}

pub fn first_probe(count: usize) -> (r: ProbeStep)
    ensures
        r == probe_begin(count),
{
    if count > 0 {
        ProbeStep::Probe(0)
    } else {
        ProbeStep::Exhausted
    }
}

pub fn next_probe(count: usize, index: usize, answer: bool) -> (r: ProbeStep)
    requires
        index < count,
    ensures
        r == probe_transition(count, index, answer),
{
    if answer {
        ProbeStep::Found(index)
    } else if index + 1 < count {
        ProbeStep::Probe(index + 1)
    } else {
        ProbeStep::Exhausted
    }
}

/// How many more candidates a search may still ask about.
pub open spec fn probes_left(count: usize, step: ProbeStep) -> int {
    match step {
        ProbeStep::Probe(i) => count - i,
        _ => 0,
    }
}

/// The first candidate for which `exists_at` answers `true`, asked in
/// order as `first_probe` and `next_probe` decide; `None` when it answers
/// `false` for all of them. The `requires` lets `exists_at` be asked about
/// a candidate only once every earlier one was answered `false`.
pub fn select_first_existing<F: Fn(&str) -> bool>(candidates: &[String], exists_at: F) -> (r: Option<
    String,
>)
    requires
        forall|p: &str, i: int|
            #![trigger call_requires(exists_at, (p,)), candidates@[i]]
            0 <= i < candidates@.len() && p@ == candidates@[i]@ && (forall|j: int|
                0 <= j < i ==> may_answer(exists_at, #[trigger] candidates@[j]@, false))
                ==> call_requires(exists_at, (p,)),
    ensures
        r matches Some(found) ==> exists|i: int|
            0 <= i < candidates@.len() && found@ == candidates@[i]@ && may_answer(
                exists_at,
                candidates@[i]@,
                true,
            ) && forall|j: int|
                0 <= j < i ==> may_answer(exists_at, #[trigger] candidates@[j]@, false),
        r is None ==> forall|j: int|
            0 <= j < candidates@.len() ==> may_answer(exists_at, #[trigger] candidates@[j]@, false),
{
    let count = candidates.len();
    let mut step = first_probe(count);
    loop
        invariant
            count == candidates@.len(),
            forall|p: &str, i: int|
                #![trigger call_requires(exists_at, (p,)), candidates@[i]]
                0 <= i < candidates@.len() && p@ == candidates@[i]@ && (forall|j: int|
                    0 <= j < i ==> may_answer(exists_at, #[trigger] candidates@[j]@, false))
                    ==> call_requires(exists_at, (p,)),
            step matches ProbeStep::Probe(i) ==> i < count && forall|j: int|
                0 <= j < i ==> may_answer(exists_at, #[trigger] candidates@[j]@, false),
            step matches ProbeStep::Found(i) ==> i < count && may_answer(
                exists_at,
                candidates@[i as int]@,
                true,
            ) && forall|j: int| 0 <= j < i ==> may_answer(exists_at, #[trigger] candidates@[j]@, false),
            step is Exhausted ==> forall|j: int|
                0 <= j < count ==> may_answer(exists_at, #[trigger] candidates@[j]@, false),
        decreases probes_left(count, step),
    {
        match step {
            ProbeStep::Probe(i) => {
                let candidate: &str = candidates[i].as_str();
                let answer = exists_at(candidate);
                assert(may_answer(exists_at, candidates@[i as int]@, answer));
                step = next_probe(count, i, answer);
            },
            ProbeStep::Found(i) => {
                return Some(candidates[i].clone());
            },
            ProbeStep::Exhausted => {
                return None;
            },
        }
    }
}

} // verus!

verus! {

/// The positions asked about by a search through `count` candidates from
/// `step` on, when the questions are answered `answers` in turn, and the
/// step it stops at (or is at when the answers run out).
pub open spec fn probe_run(count: usize, step: ProbeStep, answers: Seq<bool>) -> (Seq<nat>, ProbeStep)
    decreases answers.len(),
{
    match step {
        ProbeStep::Probe(i) => if answers.len() == 0 || i >= count {
            (Seq::empty(), step)
        } else {
            let (rest, last) = probe_run(
                count,
                probe_transition(count, i, answers[0]),
                answers.drop_first(),
            );
            (seq![i as nat] + rest, last)
        },
        _ => (Seq::empty(), step),
    }
}

proof fn lemma_probe_run_from(count: usize, i: usize, answers: Seq<bool>)
    requires
        i < count,
        answers.len() >= count - i,
    ensures
        ({
            let (asked, last) = probe_run(count, ProbeStep::Probe(i), answers);
            &&& forall|k: int| 0 <= k < asked.len() ==> #[trigger] asked[k] == i + k
            &&& last !is Probe
            &&& last matches ProbeStep::Found(m) ==> {
                &&& i <= m < count
                &&& asked.len() == m - i + 1
                &&& answers[m - i]
                &&& forall|j: int| 0 <= j < m - i ==> !#[trigger] answers[j]
            }
            &&& last is Exhausted ==> asked.len() == count - i && forall|j: int|
                0 <= j < count - i ==> !#[trigger] answers[j]
        }),
    decreases count - i,
{
    let next = probe_transition(count, i, answers[0]);
    let tail = answers.drop_first();
    let (asked, last) = probe_run(count, ProbeStep::Probe(i), answers);
    let (rest, rest_last) = probe_run(count, next, tail);
    assert(asked == seq![i as nat] + rest && last == rest_last);
    if let ProbeStep::Probe(n) = next {
        lemma_probe_run_from(count, n, tail);
        assert forall|k: int| 0 <= k < asked.len() implies #[trigger] asked[k] == i + k by {
            if k > 0 {
                assert(asked[k] == rest[k - 1]);
            }
        }
        assert forall|j: int| 0 <= j < count - i && !(last matches ProbeStep::Found(m) && j >= m - i)
            implies !#[trigger] answers[j] by {
            if j > 0 {
                assert(answers[j] == tail[j - 1]);
            }
        }
    } else {
        assert(rest =~= Seq::<nat>::empty());
        assert(asked =~= seq![i as nat]);
    }
}

/// A search through `count` candidates asks about them in order, from the
/// first, each at most once, and stops at the first that exists; it asks
/// about every candidate only when none exists. (`answers` are the
/// answers to its questions, in the order asked; `count` of them always
/// suffice.)
pub proof fn lemma_probes_in_order(count: usize, answers: Seq<bool>)
    requires
        answers.len() >= count,
    ensures
        ({
            let (asked, last) = probe_run(count, probe_begin(count), answers);
            &&& forall|k: int| 0 <= k < asked.len() ==> #[trigger] asked[k] == k
            &&& last !is Probe
            &&& last matches ProbeStep::Found(m) ==> {
                &&& m < count
                &&& asked.len() == m + 1
                &&& answers[m as int]
                &&& forall|j: int| 0 <= j < m ==> !#[trigger] answers[j]
            }
            &&& last is Exhausted ==> asked.len() == count && forall|j: int|
                0 <= j < count ==> !#[trigger] answers[j]
        }),
{
    if count > 0 {
        lemma_probe_run_from(count, 0, answers);
    }
}

} // verus!
