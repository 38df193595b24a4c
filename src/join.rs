use vstd::prelude::*;

use crate::poll::{Async, Construction, ConstructionError, Poll};

verus! {

/// Where a join of two constructions stands.
pub enum JoinState<L, R> {
    /// Neither branch has produced its value.
    BothPending,
    /// The left branch's value is kept; the right branch is outstanding.
    LeftReady(L),
    /// The right branch's value is kept; the left branch is outstanding.
    RightReady(R),
    /// A branch failed; the join is over.
    Failed,
    /// Both values were handed out; the join is over.
    Done,
}

impl<L, R> JoinState<L, R> {
    /// The left branch is still to be advanced.
    pub open spec fn wants_left(self) -> bool {
        self is BothPending || self is RightReady
    }

    /// The right branch is still to be advanced.
    pub open spec fn wants_right(self) -> bool {
        self is BothPending || self is LeftReady
    }

    /// The join has ended, by failure or by success.
    pub open spec fn is_over(self) -> bool {
        self is Failed || self is Done
    }

    /// Whether the left branch is to be advanced in the next step.
    pub fn needs_left(&self) -> (r: bool)
        ensures
            r == self.wants_left(),
    {
        match self {
            JoinState::BothPending | JoinState::RightReady(_) => true,
            _ => false,
        }
    }

    /// Whether the right branch is to be advanced in the next step.
    pub fn needs_right(&self) -> (r: bool)
        ensures
            r == self.wants_right(),
    {
        match self {
            JoinState::BothPending | JoinState::LeftReady(_) => true,
            _ => false,
        }
    }

    /// One advancement of the join, given what the branches reported: the
    /// next state and what the join reports.
    pub fn advance(self, left: Poll<L>, right: Poll<R>) -> (r: (JoinState<L, R>, Poll<(L, R)>))
        ensures
            r == join_step(self, left, right),
    {
        let mut left_item: Option<L> = None;
        let mut right_item: Option<R> = None;
        match self {
            JoinState::LeftReady(a) => {
                left_item = Some(a);
            },
            JoinState::RightReady(b) => {
                right_item = Some(b);
            },
            JoinState::BothPending => {},
            JoinState::Failed => {
                return (JoinState::Failed, Err(ConstructionError::Finished));
            },
            JoinState::Done => {
                return (JoinState::Done, Err(ConstructionError::Finished));
            },
        }
        if left_item.is_none() {
            match left {
                Ok(Async::Ready(a)) => {
                    left_item = Some(a);
                },
                Ok(Async::NotReady) => {},
                Err(e) => {
                    return (JoinState::Failed, Err(e));
                },
            }
        }
        if right_item.is_none() {
            match right {
                Ok(Async::Ready(b)) => {
                    right_item = Some(b);
                },
                Ok(Async::NotReady) => {},
                Err(e) => {
                    return (JoinState::Failed, Err(e));
                },
            }
        }
        match (left_item, right_item) {
            (Some(a), Some(b)) => (JoinState::Done, Ok(Async::Ready((a, b)))),
            (Some(a), None) => (JoinState::LeftReady(a), Ok(Async::NotReady)),
            (None, Some(b)) => (JoinState::RightReady(b), Ok(Async::NotReady)),
            (None, None) => (JoinState::BothPending, Ok(Async::NotReady)),
        }
    }
}

/// The value of the left branch, if this step has it: kept from before, or
/// produced now.
pub open spec fn left_value<L, R>(state: JoinState<L, R>, left: Poll<L>) -> Option<L> {
    match state {
        JoinState::LeftReady(a) => Some(a),
        _ => match left {
            Ok(Async::Ready(a)) => Some(a),
            _ => None,
        },
    }
}

/// The value of the right branch, if this step has it: kept from before, or
/// produced now.
pub open spec fn right_value<L, R>(state: JoinState<L, R>, right: Poll<R>) -> Option<R> {
    match state {
        JoinState::RightReady(b) => Some(b),
        _ => match right {
            Ok(Async::Ready(b)) => Some(b),
            _ => None,
        },
    }
}

/// One advancement of a join, given what each branch reported when it was
/// advanced. A branch that the state does not want is not advanced, and what
/// is given for it is ignored; so is the right branch's report when the left
/// branch failed in the same step. The left branch's failure wins.
pub open spec fn join_step<L, R>(state: JoinState<L, R>, left: Poll<L>, right: Poll<R>) -> (
    JoinState<L, R>,
    Poll<(L, R)>,
) {
    if state.is_over() {
        (state, Err(ConstructionError::Finished))
    } else if state.wants_left() && left is Err {
        (JoinState::Failed, Err(left->Err_0))
    } else if state.wants_right() && right is Err {
        (JoinState::Failed, Err(right->Err_0))
    } else {
        match (left_value(state, left), right_value(state, right)) {
            (Some(a), Some(b)) => (JoinState::Done, Ok(Async::Ready((a, b)))),
            (Some(a), None) => (JoinState::LeftReady(a), Ok(Async::NotReady)),
            (None, Some(b)) => (JoinState::RightReady(b), Ok(Async::NotReady)),
            (None, None) => (JoinState::BothPending, Ok(Async::NotReady)),
        }
    }
}

/// A report with its value, if any, passed through `f`.
pub open spec fn map_ready<T, U>(out: Poll<T>, f: spec_fn(T) -> U) -> Poll<U> {
    match out {
        Ok(Async::Ready(v)) => Ok(Async::Ready(f(v))),
        Ok(Async::NotReady) => Ok(Async::NotReady),
        Err(e) => Err(e),
    }
}

/// Two constructions driven together: each advancement advances every branch
/// still outstanding, keeps a value as soon as it arrives, and yields both
/// values once both have arrived.
pub struct Join<LF: Construction, RF: Construction> {
    pub left: LF,
    pub right: RF,
    pub state: JoinState<LF::Item, RF::Item>,
}

impl<LF: Construction, RF: Construction> Join<LF, RF> {
    /// Start a join of `left` and `right`.
    pub fn new(left: LF, right: RF) -> (r: Self)
        ensures
            r.left == left,
            r.right == right,
            r.state is BothPending,
    {
        Join { left, right, state: JoinState::BothPending }
    }
}

impl<LF: Construction, RF: Construction> Construction for Join<LF, RF> {
    type Item = (LF::Item, RF::Item);

    /// Advance every branch that the state wants, in order, the right one
    /// only if the left one did not fail, and step the state.
    fn poll(&mut self) -> (r: Poll<(LF::Item, RF::Item)>)
        ensures
            exists|lp: Poll<LF::Item>, rp: Poll<RF::Item>|
                join_step(old(self).state, lp, rp) == (final(self).state, r),
            !old(self).state.wants_left() ==> final(self).left == old(self).left,
            !old(self).state.wants_right() ==> final(self).right == old(self).right,
    {
        let mut state = JoinState::Failed;
        std::mem::swap(&mut state, &mut self.state);
        let left = if state.needs_left() {
            self.left.poll()
        } else {
            Ok(Async::NotReady)
        };
        let right = if state.needs_right() && left.is_ok() {
            self.right.poll()
        } else {
            Ok(Async::NotReady)
        };
        let (next, r) = state.advance(left, right);
        self.state = next;
        r
    }
}

/// When both branches are advanced in one step and the left one fails, the
/// join fails with the left branch's error, whatever the right one reported.
pub proof fn lemma_left_failure_wins<L, R>(
    state: JoinState<L, R>,
    left_error: ConstructionError,
    right: Poll<R>,
)
    requires
        state.wants_left(),
    ensures
        join_step(state, Err(left_error), right) == (
            JoinState::<L, R>::Failed,
            Err::<Async<(L, R)>, ConstructionError>(left_error),
        ),
{
}

/// What a branch that produces `v` at its `n`-th advancement reports at its
/// `k`-th advancement.
pub open spec fn scripted<T>(v: T, n: nat, k: nat) -> Poll<T> {
    if k == n {
        Ok(Async::Ready(v))
    } else {
        Ok(Async::NotReady)
    }
}

/// A join of a left branch that produces `a` at its `n`-th advancement and a
/// right branch that produces `b` at its `m`-th, after `k` advancements: its
/// state, its last report, and how often each branch has been advanced.
pub open spec fn run_join<L, R>(a: L, n: nat, b: R, m: nat, k: nat) -> (
    JoinState<L, R>,
    Poll<(L, R)>,
    nat,
    nat,
)
    decreases k,
{
    if k == 0 {
        (JoinState::BothPending, Ok(Async::NotReady), 0, 0)
    } else {
        let (s, _, lc, rc) = run_join(a, n, b, m, (k - 1) as nat);
        let lc2: nat = if s.wants_left() { lc + 1 } else { lc };
        let rc2: nat = if s.wants_right() { rc + 1 } else { rc };
        let (s2, out) = join_step(s, scripted(a, n, lc2), scripted(b, m, rc2));
        (s2, out, lc2, rc2)
    }
}

/// The smaller of two naturals.
pub open spec fn min_nat(x: nat, y: nat) -> nat {
    if x <= y { x } else { y }
}

/// The larger of two naturals.
pub open spec fn max_nat(x: nat, y: nat) -> nat {
    if x >= y { x } else { y }
}

proof fn lemma_run_join_at<L, R>(a: L, n: nat, b: R, m: nat, k: nat)
    requires
        n >= 1,
        m >= 1,
        k <= max_nat(n, m),
    ensures
        run_join(a, n, b, m, k).0 == (if k >= n && k >= m {
            JoinState::Done
        } else if k >= n {
            JoinState::LeftReady(a)
        } else if k >= m {
            JoinState::RightReady(b)
        } else {
            JoinState::<L, R>::BothPending
        }),
        k >= 1 ==> run_join(a, n, b, m, k).1 == (if k >= n && k >= m {
            Ok(Async::Ready((a, b)))
        } else {
            Ok::<Async<(L, R)>, ConstructionError>(Async::NotReady)
        }),
        run_join(a, n, b, m, k).2 == min_nat(k, n),
        run_join(a, n, b, m, k).3 == min_nat(k, m),
    decreases k,
{
    if k > 0 {
        lemma_run_join_at(a, n, b, m, (k - 1) as nat);
    }
}

/// A join of a branch that needs `n` advancements and a branch that needs
/// `m` reports nothing before its `max(n, m)`-th advancement, reports both
/// values at that one, and by then has advanced the left branch exactly `n`
/// times and the right one exactly `m` times: no branch is advanced again
/// once it has produced its value.
pub proof fn lemma_join_completion<L, R>(a: L, n: nat, b: R, m: nat)
    requires
        n >= 1,
        m >= 1,
    ensures
        forall|k: nat|
            1 <= k < max_nat(n, m) ==> #[trigger] run_join(a, n, b, m, k).1 == Ok::<
                Async<(L, R)>,
                ConstructionError,
            >(Async::NotReady),
        run_join(a, n, b, m, max_nat(n, m)).0 is Done,
        run_join(a, n, b, m, max_nat(n, m)).1 == Ok::<Async<(L, R)>, ConstructionError>(
            Async::Ready((a, b)),
        ),
        forall|k: nat|
            k <= max_nat(n, m) ==> (#[trigger] run_join(a, n, b, m, k)).2 == min_nat(k, n)
                && run_join(a, n, b, m, k).3 == min_nat(k, m),
{
    assert forall|k: nat| 1 <= k < max_nat(n, m) implies #[trigger] run_join(
        a,
        n,
        b,
        m,
        k,
    ).1 == Ok::<Async<(L, R)>, ConstructionError>(Async::NotReady) by {
        lemma_run_join_at(a, n, b, m, k);
    }
    assert forall|k: nat| k <= max_nat(n, m) implies (#[trigger] run_join(
        a,
        n,
        b,
        m,
        k,
    )).2 == min_nat(k, n) && run_join(a, n, b, m, k).3 == min_nat(k, m) by {
        lemma_run_join_at(a, n, b, m, k);
    }
    lemma_run_join_at(a, n, b, m, max_nat(n, m));
}

} // verus!
