//! The four quantifiers as folds over comparison outcomes, evaluated from
//! left to right and stopped as soon as the result is known.

use vstd::prelude::*;
use crate::operator::ComparisonOperator;

verus! {

/// How the outcomes of the single comparisons are combined.
#[derive(Clone, Copy, Debug, PartialEq, Eq, Structural)]
pub enum Quantifier {
    /// True when at least one comparison holds.
    AnyOf,
    /// True when every comparison holds.
    AllOf,
    /// True when no comparison holds.
    NoneOf,
    /// True when the number of comparisons that hold is the given one.
    ExactlyOf(i64),
}

/// The outcome of `operand op rhs` for each operand, in order.
pub open spec fn outcomes<T: PartialOrd>(operands: Seq<T>, op: ComparisonOperator, rhs: T) -> Seq<
    bool,
> {
    Seq::new(operands.len(), |i: int| op.holds(operands[i], rhs))
}

/// How many of the outcomes are true.
pub open spec fn satisfied(outcomes: Seq<bool>) -> nat
    decreases outcomes.len(),
{
    if outcomes.len() == 0 {
        0
    } else {
        satisfied(outcomes.drop_last()) + if outcomes.last() {
            1nat
        } else {
            0nat
        }
    }
}

impl Quantifier {
    /// The value of the quantifier on a list of outcomes.
    pub open spec fn verdict(self, outcomes: Seq<bool>) -> bool {
        match self {
            Quantifier::AnyOf => exists|i: int| 0 <= i < outcomes.len() && outcomes[i],
            Quantifier::AllOf => forall|i: int| 0 <= i < outcomes.len() ==> outcomes[i],
            Quantifier::NoneOf => forall|i: int| 0 <= i < outcomes.len() ==> !outcomes[i],
            Quantifier::ExactlyOf(n) => satisfied(outcomes) == n,
        }
    }

    /// Whether these outcomes already fix the verdict, whatever follows.
    /// Counting never does: the last operand can still change the count.
    pub open spec fn decided(self, outcomes: Seq<bool>) -> bool {
        match self {
            Quantifier::AnyOf | Quantifier::NoneOf => exists|i: int|
                0 <= i < outcomes.len() && outcomes[i],
            Quantifier::AllOf => exists|i: int| 0 <= i < outcomes.len() && !outcomes[i],
            Quantifier::ExactlyOf(_) => false,
        }
    }

    /// `seen` is what an evaluation of `count` comparisons looks at when it
    /// goes from left to right and stops at the first outcome that decides:
    /// nothing before the last outcome decided, and it ends early only on an
    /// outcome that did.
    pub open spec fn stops_at(self, count: nat, seen: Seq<bool>) -> bool {
        &&& seen.len() <= count
        &&& seen.len() < count ==> self.decided(seen)
        &&& seen.len() > 0 ==> !self.decided(seen.drop_last())
    }
}

/// `seen[i]` is an outcome that the `i`-th comparison may give, for each
/// comparison looked at.
pub open spec fn observed<F: Fn(usize) -> bool>(outcome: F, seen: Seq<bool>) -> bool {
    forall|i: int| 0 <= i < seen.len() ==> call_ensures(outcome, (i as usize,), #[trigger] seen[i])
}

/// What `evaluate` asks of the comparisons: that the next one can be
/// performed where those before it have not decided. It asks nothing of a
/// comparison behind one that decides, and so cannot perform it.
pub open spec fn may_evaluate<F: Fn(usize) -> bool>(
    quantifier: Quantifier,
    count: nat,
    outcome: F,
) -> bool {
    forall|seen: Seq<bool>|
        #[trigger] observed(outcome, seen) && seen.len() < count && !quantifier.decided(seen)
            ==> call_requires(outcome, (seen.len() as usize,))
}

/// What `evaluate` promises of its result.
pub open spec fn evaluated<F: Fn(usize) -> bool>(
    quantifier: Quantifier,
    count: nat,
    outcome: F,
    result: bool,
) -> bool {
    exists|seen: Seq<bool>|
        {
            &&& #[trigger] observed(outcome, seen)
            &&& quantifier.stops_at(count, seen)
            &&& result == quantifier.verdict(seen)
        }
}

/// Outcomes decide exactly when those before the last one did, or the last
/// one does.
pub proof fn decided_by_the_last(quantifier: Quantifier, seen: Seq<bool>)
    requires
        seen.len() > 0,
    ensures
        quantifier.decided(seen) == (quantifier.decided(seen.drop_last()) || match quantifier {
            Quantifier::AnyOf | Quantifier::NoneOf => seen.last(),
            Quantifier::AllOf => !seen.last(),
            Quantifier::ExactlyOf(_) => false,
        }),
{
    let front = seen.drop_last();
    if quantifier.decided(front) {
        match quantifier {
            Quantifier::AllOf => {
                let k = choose|k: int| 0 <= k < front.len() && !front[k];
                assert(!seen[k]);
            },
            _ => {
                let k = choose|k: int| 0 <= k < front.len() && front[k];
                assert(seen[k]);
            },
        }
    }
    if quantifier.decided(seen) {
        match quantifier {
            Quantifier::AllOf => {
                let k = choose|k: int| 0 <= k < seen.len() && !seen[k];
                assert(k < front.len() ==> !front[k]);
            },
            _ => {
                let k = choose|k: int| 0 <= k < seen.len() && seen[k];
                assert(k < front.len() ==> front[k]);
            },
        }
    }
    assert(seen.last() == seen[seen.len() - 1]);
}

/// Evaluates the quantifier over `count` comparisons, of which `outcome(i)`
/// performs the `i`-th. The comparisons are performed from left to right, and
/// none after the one that decides the verdict.
pub fn evaluate<F: Fn(usize) -> bool>(quantifier: Quantifier, count: usize, outcome: F) -> (result:
    bool)
    requires
        may_evaluate(quantifier, count as nat, outcome),
    ensures
        evaluated(quantifier, count as nat, outcome, result),
{
    let mut index: usize = 0;
    let mut hits: usize = 0;
    let ghost mut seen: Seq<bool> = Seq::empty();
    while index < count
        invariant
            index <= count,
            hits <= index,
            seen.len() == index,
            hits == satisfied(seen),
            observed(outcome, seen),
            !quantifier.decided(seen),
            index > 0 ==> !quantifier.decided(seen.drop_last()),
            may_evaluate(quantifier, count as nat, outcome),
        decreases count - index,
    {
        let holds = outcome(index);
        proof {
            let before = seen;
            seen = before.push(holds);
            assert(seen.drop_last() =~= before);
            decided_by_the_last(quantifier, seen);
        }
        if holds {
            hits = hits + 1;
        }
        let stop = match quantifier {
            Quantifier::AnyOf | Quantifier::NoneOf => holds,
            Quantifier::AllOf => !holds,
            Quantifier::ExactlyOf(_) => false,
        };
        if stop {
            let early = match quantifier {
                Quantifier::AnyOf => true,
                _ => false,
            };
            proof {
                assert(seen[index as int] == holds);
                assert(observed(outcome, seen));
            }
            return early;
        }
        index = index + 1;
    }
    match quantifier {
        Quantifier::AnyOf => false,
        Quantifier::AllOf | Quantifier::NoneOf => true,
        Quantifier::ExactlyOf(n) => n >= 0 && n as u64 == hits as u64,
    }
}

/// Stopping at the first outcome that decides changes nothing: the verdict on
/// what a short-circuiting evaluation has seen is the verdict on all the
/// outcomes.
pub proof fn short_circuit_is_sound(quantifier: Quantifier, seen: Seq<bool>, all: Seq<bool>)
    requires
        quantifier.stops_at(all.len(), seen),
        forall|i: int| 0 <= i < seen.len() ==> seen[i] == all[i],
    ensures
        quantifier.verdict(seen) == quantifier.verdict(all),
{
    if seen.len() == all.len() {
        assert(seen =~= all);
    } else {
        match quantifier {
            Quantifier::AnyOf | Quantifier::NoneOf => {
                let k = choose|k: int| 0 <= k < seen.len() && seen[k];
                assert(all[k]);
            },
            Quantifier::AllOf => {
                let k = choose|k: int| 0 <= k < seen.len() && !seen[k];
                assert(!all[k]);
            },
            Quantifier::ExactlyOf(_) => {},
        }
    }
}

/// Evaluates the quantifier over `operand op rhs` for each operand of the
/// list, from left to right.
pub fn quantify<T: PartialOrd>(
    quantifier: Quantifier,
    operands: &[T],
    op: ComparisonOperator,
    rhs: &T,
) -> (result: bool)
    ensures
        op.specified::<T>() ==> result == quantifier.verdict(outcomes(operands@, op, *rhs)),
{
    let outcome = |i: usize| -> (holds: bool)
        requires
            i < operands@.len(),
        ensures
            op.specified::<T>() ==> holds == op.holds(operands@[i as int], *rhs),
        { op.compare(&operands[i], rhs) };
    let result = evaluate(quantifier, operands.len(), outcome);
    proof {
        if op.specified::<T>() {
            let all = outcomes(operands@, op, *rhs);
            let seen = choose|seen: Seq<bool>|
                {
                    &&& #[trigger] observed(outcome, seen)
                    &&& quantifier.stops_at(operands@.len(), seen)
                    &&& result == quantifier.verdict(seen)
                };
            assert(forall|i: int| 0 <= i < seen.len() ==> seen[i] == all[i]);
            short_circuit_is_sound(quantifier, seen, all);
        }
    }
    result
}

/// Whether `operand op rhs` holds for at least one operand of the list.
pub fn any_of<T: PartialOrd>(operands: &[T], op: ComparisonOperator, rhs: &T) -> (result: bool)
    ensures
        op.specified::<T>() ==> result == exists|i: int|
            0 <= i < operands@.len() && op.holds(#[trigger] operands@[i], *rhs),
{
    let result = quantify(Quantifier::AnyOf, operands, op, rhs);
    proof {
        let all = outcomes(operands@, op, *rhs);
        if exists|i: int| 0 <= i < operands@.len() && op.holds(#[trigger] operands@[i], *rhs) {
            let k = choose|i: int|
                0 <= i < operands@.len() && op.holds(#[trigger] operands@[i], *rhs);
            assert(all[k]);
        }
    }
    result
}

/// Whether `operand op rhs` holds for every operand of the list.
pub fn all_of<T: PartialOrd>(operands: &[T], op: ComparisonOperator, rhs: &T) -> (result: bool)
    ensures
        op.specified::<T>() ==> result == forall|i: int|
            0 <= i < operands@.len() ==> op.holds(#[trigger] operands@[i], *rhs),
{
    let result = quantify(Quantifier::AllOf, operands, op, rhs);
    proof {
        let all = outcomes(operands@, op, *rhs);
        if !(forall|i: int| 0 <= i < operands@.len() ==> op.holds(#[trigger] operands@[i], *rhs)) {
            let k = choose|i: int|
                0 <= i < operands@.len() && !op.holds(#[trigger] operands@[i], *rhs);
            assert(!all[k]);
        }
    }
    result
}

/// Whether `operand op rhs` holds for no operand of the list.
pub fn none_of<T: PartialOrd>(operands: &[T], op: ComparisonOperator, rhs: &T) -> (result: bool)
    ensures
        op.specified::<T>() ==> result == forall|i: int|
            0 <= i < operands@.len() ==> !op.holds(#[trigger] operands@[i], *rhs),
{
    let result = quantify(Quantifier::NoneOf, operands, op, rhs);
    proof {
        let all = outcomes(operands@, op, *rhs);
        if !(forall|i: int| 0 <= i < operands@.len() ==> !op.holds(#[trigger] operands@[i], *rhs)) {
            let k = choose|i: int|
                0 <= i < operands@.len() && op.holds(#[trigger] operands@[i], *rhs);
            assert(all[k]);
        }
    }
    result
}

/// Whether `operand op rhs` holds for exactly `n` operands of the list. Every
/// operand is compared: the count is known only after the last one.
pub fn exactly_of<T: PartialOrd>(
    n: i64,
    operands: &[T],
    op: ComparisonOperator,
    rhs: &T,
) -> (result: bool)
    ensures
        op.specified::<T>() ==> result == (satisfied(outcomes(operands@, op, *rhs)) == n),
{
    quantify(Quantifier::ExactlyOf(n), operands, op, rhs)
}

/// `images[i]` is a value that the transformation may give for the `i`-th
/// operand, for each operand that it was applied to.
pub open spec fn images_of<S, T, M: Fn(S) -> T>(
    transform: M,
    operands: Seq<S>,
    images: Seq<T>,
) -> bool {
    &&& images.len() <= operands.len()
    &&& forall|i: int|
        0 <= i < images.len() ==> call_ensures(transform, (operands[i],), #[trigger] images[i])
}

/// What `quantify_map` promises of its result: it is the verdict on the
/// outcomes of `image op rhs`, over the images of the operands up to the first
/// that decides.
pub open spec fn quantified_map<S, T: PartialOrd, M: Fn(S) -> T>(
    quantifier: Quantifier,
    operands: Seq<S>,
    transform: M,
    op: ComparisonOperator,
    rhs: T,
    result: bool,
) -> bool {
    exists|images: Seq<T>|
        {
            &&& #[trigger] images_of(transform, operands, images)
            &&& quantifier.stops_at(operands.len(), outcomes(images, op, rhs))
            &&& result == quantifier.verdict(outcomes(images, op, rhs))
        }
}

/// What `quantify_map` asks of the transformation: that it can be applied to
/// the next operand where the comparisons of the images before it have not
/// decided. It asks nothing for an operand behind one that decides, and so
/// cannot apply the transformation to it. Where the type does not say what
/// the operator computes, nothing is known to decide.
pub open spec fn may_map<S, T: PartialOrd, M: Fn(S) -> T>(
    quantifier: Quantifier,
    operands: Seq<S>,
    transform: M,
    op: ComparisonOperator,
    rhs: T,
) -> bool {
    forall|images: Seq<T>|
        #[trigger] images_of(transform, operands, images) && images.len() < operands.len() && (
        op.specified::<T>() ==> !quantifier.decided(outcomes(images, op, rhs)))
            ==> call_requires(transform, (operands[images.len() as int],))
}

/// `outcome` is what the comparison of an image of the operand may give.
/// Where the type does not say what the operator computes, any outcome is.
pub open spec fn image_gives<S, T: PartialOrd, M: Fn(S) -> T>(
    transform: M,
    operand: S,
    op: ComparisonOperator,
    rhs: T,
    outcome: bool,
) -> bool {
    exists|image: T|
        #[trigger] call_ensures(transform, (operand,), image) && (op.specified::<T>() ==> outcome
            == op.holds(image, rhs))
}

/// Behind outcomes that the comparisons of images have given stand the
/// images.
proof fn images_behind<S, T: PartialOrd, M: Fn(S) -> T>(
    transform: M,
    operands: Seq<S>,
    op: ComparisonOperator,
    rhs: T,
    seen: Seq<bool>,
) -> (images: Seq<T>)
    requires
        seen.len() <= operands.len(),
        forall|i: int|
            0 <= i < seen.len() ==> #[trigger] image_gives(transform, operands[i], op, rhs, seen[i]),
    ensures
        images_of(transform, operands, images),
        images.len() == seen.len(),
        op.specified::<T>() ==> outcomes(images, op, rhs) == seen,
{
    let images = Seq::new(
        seen.len(),
        |i: int|
            choose|image: T|
                #[trigger] call_ensures(transform, (operands[i],), image) && (op.specified::<T>()
                    ==> seen[i] == op.holds(image, rhs)),
    );
    assert forall|i: int| 0 <= i < images.len() implies call_ensures(
        transform,
        (operands[i],),
        #[trigger] images[i],
    ) && (op.specified::<T>() ==> seen[i] == op.holds(images[i], rhs)) by {
        assert(image_gives(transform, operands[i], op, rhs, seen[i]));
    }
    assert(op.specified::<T>() ==> outcomes(images, op, rhs) =~= seen);
    images
}

/// Evaluates the quantifier over `transform(operand) op rhs` for each operand
/// of the list, from left to right. The transformation is applied to no
/// operand after the one whose comparison decides.
pub fn quantify_map<S: Copy, T: PartialOrd, M: Fn(S) -> T>(
    quantifier: Quantifier,
    operands: &[S],
    transform: M,
    op: ComparisonOperator,
    rhs: &T,
) -> (result: bool)
    requires
        may_map(quantifier, operands@, transform, op, *rhs),
    ensures
        op.specified::<T>() ==> quantified_map(
            quantifier,
            operands@,
            transform,
            op,
            *rhs,
            result,
        ),
{
    let apply = &transform;
    let outcome = |i: usize| -> (holds: bool)
        requires
            i < operands@.len(),
            call_requires(apply, (operands@[i as int],)),
        ensures
            image_gives(*apply, operands@[i as int], op, *rhs, holds),
        {
            let image = apply(operands[i]);
            op.compare(&image, rhs)
        };
    let count = operands.len();
    proof {
        assert forall|seen: Seq<bool>|
            #[trigger] observed(outcome, seen) && seen.len() < count && !quantifier.decided(
                seen,
            ) implies call_requires(outcome, (seen.len() as usize,)) by {
            assert forall|i: int| 0 <= i < seen.len() implies #[trigger] image_gives(
                transform,
                operands@[i],
                op,
                *rhs,
                seen[i],
            ) by {
                assert(call_ensures(outcome, (i as usize,), seen[i]));
            }
            let images = images_behind(transform, operands@, op, *rhs, seen);
            assert(images_of(transform, operands@, images));
        }
    }
    let result = evaluate(quantifier, count, outcome);
    proof {
        if op.specified::<T>() {
            let seen = choose|seen: Seq<bool>|
                {
                    &&& #[trigger] observed(outcome, seen)
                    &&& quantifier.stops_at(count as nat, seen)
                    &&& result == quantifier.verdict(seen)
                };
            assert forall|i: int| 0 <= i < seen.len() implies #[trigger] image_gives(
                transform,
                operands@[i],
                op,
                *rhs,
                seen[i],
            ) by {
                assert(call_ensures(outcome, (i as usize,), seen[i]));
            }
            let images = images_behind(transform, operands@, op, *rhs, seen);
            assert(images_of(transform, operands@, images));
        }
    }
    result
}

/// Evaluates the quantifier over `predicate(operand)` for each operand of the
/// list: the same as `quantify_map` with the predicate as transformation, `==`
/// as operator and `true` as right-hand side.
pub fn quantify_satisfy<S: Copy, P: Fn(S) -> bool>(
    quantifier: Quantifier,
    operands: &[S],
    predicate: P,
) -> (result: bool)
    requires
        may_map(quantifier, operands@, predicate, ComparisonOperator::Equal, true),
    ensures
        quantified_map(
            quantifier,
            operands@,
            predicate,
            ComparisonOperator::Equal,
            true,
            result,
        ),
{
    quantify_map(quantifier, operands, predicate, ComparisonOperator::Equal, &true)
}

/// `pairs[i]` holds a value that the `i`-th operand may give and one that the
/// right-hand side may give, for each comparison performed.
pub open spec fn produced<T, L: Fn(usize) -> T, R: Fn() -> T>(
    operand: L,
    rhs: R,
    pairs: Seq<(T, T)>,
) -> bool {
    forall|i: int|
        0 <= i < pairs.len() ==> {
            &&& call_ensures(operand, (i as usize,), (#[trigger] pairs[i]).0)
            &&& call_ensures(rhs, (), pairs[i].1)
        }
}

/// The outcome of `left op right` for each pair, in order.
pub open spec fn pair_outcomes<T: PartialOrd>(pairs: Seq<(T, T)>, op: ComparisonOperator) -> Seq<
    bool,
> {
    Seq::new(pairs.len(), |i: int| op.holds(pairs[i].0, pairs[i].1))
}

/// What `quantify_lazy` promises of its result.
pub open spec fn quantified_lazy<T: PartialOrd, L: Fn(usize) -> T, R: Fn() -> T>(
    quantifier: Quantifier,
    count: nat,
    operand: L,
    op: ComparisonOperator,
    rhs: R,
    result: bool,
) -> bool {
    exists|pairs: Seq<(T, T)>|
        {
            &&& #[trigger] produced(operand, rhs, pairs)
            &&& quantifier.stops_at(count, pair_outcomes(pairs, op))
            &&& result == quantifier.verdict(pair_outcomes(pairs, op))
        }
}

/// What `quantify_lazy` asks of operand and right-hand side: that the next
/// operand and the right-hand side can be evaluated where the comparisons
/// before have not decided. It asks nothing for an operand behind one that
/// decides, and so cannot evaluate it. Where the type does not say what the
/// operator computes, nothing is known to decide.
pub open spec fn may_produce<T: PartialOrd, L: Fn(usize) -> T, R: Fn() -> T>(
    quantifier: Quantifier,
    count: nat,
    operand: L,
    op: ComparisonOperator,
    rhs: R,
) -> bool {
    forall|pairs: Seq<(T, T)>|
        #[trigger] produced(operand, rhs, pairs) && pairs.len() < count && (op.specified::<T>()
            ==> !quantifier.decided(pair_outcomes(pairs, op))) ==> call_requires(
            operand,
            (pairs.len() as usize,),
        ) && call_requires(rhs, ())
}

/// `outcome` is what the comparison of operand `index` with the right-hand
/// side may give. Where the type does not say what the operator computes, any
/// outcome is.
pub open spec fn pair_gives<T: PartialOrd, L: Fn(usize) -> T, R: Fn() -> T>(
    operand: L,
    index: usize,
    op: ComparisonOperator,
    rhs: R,
    outcome: bool,
) -> bool {
    exists|left: T, right: T|
        {
            &&& #[trigger] call_ensures(operand, (index,), left)
            &&& #[trigger] call_ensures(rhs, (), right)
            &&& op.specified::<T>() ==> outcome == op.holds(left, right)
        }
}

/// Behind outcomes that the comparisons of operands with the right-hand side
/// have given stand the values of both.
proof fn pairs_behind<T: PartialOrd, L: Fn(usize) -> T, R: Fn() -> T>(
    operand: L,
    op: ComparisonOperator,
    rhs: R,
    seen: Seq<bool>,
) -> (pairs: Seq<(T, T)>)
    requires
        seen.len() <= usize::MAX,
        forall|i: int|
            0 <= i < seen.len() ==> #[trigger] pair_gives(operand, i as usize, op, rhs, seen[i]),
    ensures
        produced(operand, rhs, pairs),
        pairs.len() == seen.len(),
        op.specified::<T>() ==> pair_outcomes(pairs, op) == seen,
{
    let pairs = Seq::new(
        seen.len(),
        |i: int|
            choose|left: T, right: T|
                {
                    &&& #[trigger] call_ensures(operand, (i as usize,), left)
                    &&& #[trigger] call_ensures(rhs, (), right)
                    &&& op.specified::<T>() ==> seen[i] == op.holds(left, right)
                },
    );
    assert forall|i: int| 0 <= i < pairs.len() implies {
        &&& call_ensures(operand, (i as usize,), (#[trigger] pairs[i]).0)
        &&& call_ensures(rhs, (), pairs[i].1)
        &&& op.specified::<T>() ==> seen[i] == op.holds(pairs[i].0, pairs[i].1)
    } by {
        assert(pair_gives(operand, i as usize, op, rhs, seen[i]));
    }
    assert(op.specified::<T>() ==> pair_outcomes(pairs, op) =~= seen);
    pairs
}

/// Evaluates the quantifier over `operand(i) op rhs()` for `i` from 0 up to
/// `count`. Operand and right-hand side are evaluated anew for each
/// comparison, the operand first, and neither for a comparison after the one
/// that decides.
pub fn quantify_lazy<T: PartialOrd, L: Fn(usize) -> T, R: Fn() -> T>(
    quantifier: Quantifier,
    count: usize,
    operand: L,
    op: ComparisonOperator,
    rhs: R,
) -> (result: bool)
    requires
        may_produce(quantifier, count as nat, operand, op, rhs),
    ensures
        op.specified::<T>() ==> quantified_lazy(quantifier, count as nat, operand, op, rhs, result),
{
    let left = &operand;
    let right = &rhs;
    let outcome = |i: usize| -> (holds: bool)
        requires
            i < count,
            call_requires(left, (i,)),
            call_requires(right, ()),
        ensures
            pair_gives(*left, i, op, *right, holds),
        {
            let lhs = left(i);
            let rhs = right();
            op.compare(&lhs, &rhs)
        };
    proof {
        assert forall|seen: Seq<bool>|
            #[trigger] observed(outcome, seen) && seen.len() < count && !quantifier.decided(
                seen,
            ) implies call_requires(outcome, (seen.len() as usize,)) by {
            assert forall|i: int| 0 <= i < seen.len() implies #[trigger] pair_gives(
                operand,
                i as usize,
                op,
                rhs,
                seen[i],
            ) by {
                assert(call_ensures(outcome, (i as usize,), seen[i]));
            }
            let pairs = pairs_behind(operand, op, rhs, seen);
            assert(produced(operand, rhs, pairs));
        }
    }
    let result = evaluate(quantifier, count, outcome);
    proof {
        if op.specified::<T>() {
            let seen = choose|seen: Seq<bool>|
                {
                    &&& #[trigger] observed(outcome, seen)
                    &&& quantifier.stops_at(count as nat, seen)
                    &&& result == quantifier.verdict(seen)
                };
            assert forall|i: int| 0 <= i < seen.len() implies #[trigger] pair_gives(
                operand,
                i as usize,
                op,
                rhs,
                seen[i],
            ) by {
                assert(call_ensures(outcome, (i as usize,), seen[i]));
            }
            let pairs = pairs_behind(operand, op, rhs, seen);
            assert(produced(operand, rhs, pairs));
        }
    }
    result
}

} // verus!
