use vstd::prelude::*;
use std::collections::VecDeque;
use std::ops::Mul;
use vstd::std_specs::ops::MulSpec;

verus! {

/// The transforms to apply to an object, in the order they were added.
///
/// Transforms are added at the back and taken from the front, so the first
/// one added is the [MatrixStack::current] one and the first one
/// [MatrixStack::pop] hands out.
#[derive(Clone, Debug)]
pub struct MatrixStack<M> {
    pub matrices: VecDeque<M>,
}

impl<M> MatrixStack<M> {
    /// The transforms held, from the front (the current one) to the back (the
    /// last one added).
    pub open spec fn spec_matrices(&self) -> Seq<M> {
        self.matrices@
    }

    /// A stack that holds no transform.
    pub fn new() -> (s: Self)
        ensures
            s.spec_matrices() == Seq::<M>::empty(),
    {
        MatrixStack { matrices: VecDeque::new() }
    }

    /// Add a transform after all the ones held, and hand back the stack so
    /// that further calls can be chained.
    pub fn push(&mut self, matrix: M) -> (r: &mut Self)
        ensures
            r.spec_matrices() == old(self).spec_matrices().push(matrix),
            *final(self) == *final(r),
    {
        self.matrices.push_back(matrix);
        self
    }

    /// Take the transform at the front, the first one added of those held, or
    /// `None` when the stack is empty.
    pub fn pop(&mut self) -> (r: Option<M>)
        ensures
            old(self).spec_matrices().len() == 0 ==> r is None && final(self).spec_matrices()
                == old(self).spec_matrices(),
            old(self).spec_matrices().len() > 0 ==> r == Some(old(self).spec_matrices()[0])
                && final(self).spec_matrices() == old(self).spec_matrices().drop_first(),
    {
        self.matrices.pop_front()
    }

    /// The transform at the front, the first one added of those held, or
    /// `None` when the stack is empty.
    pub fn current(&self) -> (r: Option<&M>)
        ensures
            self.spec_matrices().len() == 0 ==> r is None,
            self.spec_matrices().len() > 0 ==> r == Some(&self.spec_matrices()[0]),
    {
        if self.matrices.len() > 0 {
            Some(&self.matrices[0])
        } else {
            None
        }
    }
}

impl<M: Mul<Output = M> + Copy> MatrixStack<M> {
    /// `start` multiplied on the right by each transform of `ms` in turn, as
    /// the transform type's `*` specifies it.
    pub open spec fn product_from(start: M, ms: Seq<M>) -> M
        decreases ms.len(),
    {
        if ms.len() == 0 {
            start
        } else {
            Self::product_from(start, ms.drop_last()).mul_spec(ms.last())
        }
    }

    /// `steps` are the partial products of multiplying `start` on the right
    /// by each transform of `ms` in turn, by the answers of the transform
    /// type's own `*`: `steps[0]` is `start`, and each next step is what `*`
    /// gives on the step before it and the next transform.
    pub open spec fn product_steps(start: M, ms: Seq<M>, steps: Seq<M>) -> bool {
        &&& steps.len() == ms.len() + 1
        &&& steps[0] == start
        &&& forall|k: int|
            0 <= k < ms.len() ==> #[trigger] call_ensures(M::mul, (steps[k], ms[k]), steps[k + 1])
    }

    /// Whether each multiplication that [MatrixStack::product] makes from
    /// `identity` is allowed: on the partial products as `*` specifies them
    /// where it follows its specification, and on any two transforms where
    /// it does not.
    pub open spec fn product_allowed(&self, identity: M) -> bool {
        &&& M::obeys_mul_spec() ==> forall|i: int|
            0 <= i < self.spec_matrices().len() ==> #[trigger] Self::product_from(
                identity,
                self.spec_matrices().take(i),
            ).mul_req(self.spec_matrices()[i])
        &&& !M::obeys_mul_spec() ==> forall|a: M, b: M| a.mul_req(b)
    }

    /// The product of all the transforms held, from the front to the back,
    /// starting from `identity`, the transform that changes nothing: the last
    /// of the partial products that the transform type's `*` gives.
    pub fn product(&self, identity: M) -> (r: M)
        requires
            self.product_allowed(identity),
        ensures
            exists|steps: Seq<M>|
                #[trigger] Self::product_steps(identity, self.spec_matrices(), steps)
                    && steps.last() == r,
            M::obeys_mul_spec() ==> r == Self::product_from(identity, self.spec_matrices()),
    {
        let mut result = identity;
        let ghost mut steps: Seq<M> = seq![identity];
        let n = self.matrices.len();
        let mut i: usize = 0;
        while i < n
            invariant
                n == self.spec_matrices().len(),
                i <= n,
                self.product_allowed(identity),
                Self::product_steps(identity, self.spec_matrices().take(i as int), steps),
                steps.last() == result,
                M::obeys_mul_spec() ==> result == Self::product_from(
                    identity,
                    self.spec_matrices().take(i as int),
                ),
            decreases n - i,
        {
            proof {
                let ms = self.spec_matrices();
                assert(ms.take(i as int + 1).drop_last() == ms.take(i as int));
            }
            let m = self.matrices[i];
            result = result * m;
            proof {
                let ms = self.spec_matrices();
                steps = steps.push(result);
                assert forall|k: int| 0 <= k < i + 1 implies #[trigger] call_ensures(
                    M::mul,
                    (steps[k], ms.take(i as int + 1)[k]),
                    steps[k + 1],
                ) by {
                    if k < i {
                        assert(ms.take(i as int + 1)[k] == ms.take(i as int)[k]);
                    }
                }
            }
            i = i + 1;
        }
        proof {
            assert(self.spec_matrices().take(n as int) == self.spec_matrices());
            assert(Self::product_steps(identity, self.spec_matrices(), steps));
        }
        result
    }
}

/// Pushing a transform onto a stack that holds some leaves its current one,
/// the front, as it was.
pub proof fn lemma_push_keeps_current<M>(before: Seq<M>, m: M)
    requires
        before.len() > 0,
    ensures
        before.push(m)[0] == before[0],
{
}

/// Transforms come out of the stack in the order they went in: after
/// pushing `ms` onto an empty stack, the `k`-th pop hands out `ms[k]`, and
/// what is left is the rest of `ms`.
pub proof fn lemma_pops_follow_pushes<M>(ms: Seq<M>, k: int)
    requires
        0 <= k < ms.len(),
    ensures
        ms.skip(k)[0] == ms[k],
        ms.skip(k).drop_first() == ms.skip(k + 1),
{
}

/// Pushing a transform multiplies the product of the stack by it on the
/// right.
pub proof fn lemma_push_then_product<M: Mul<Output = M> + Copy>(before: Seq<M>, m: M, identity: M)
    ensures
        MatrixStack::<M>::product_from(identity, before.push(m)) == MatrixStack::<
            M,
        >::product_from(identity, before).mul_spec(m),
{
    assert(before.push(m).drop_last() =~= before);
}

impl<M> Default for MatrixStack<M> {
    /// A stack that holds no transform.
    fn default() -> (s: Self)
        ensures
            s.spec_matrices() == Seq::<M>::empty(),
    {
        MatrixStack::new()
    }
}

} // verus!
