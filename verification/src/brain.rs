//! The fixed-topology feedforward network that steers an agent.
//!
//! The library holds every network scalar as the 32-bit pattern of an IEEE-754
//! single: the genetic operators (crossover, mutation, elite copying) move
//! scalars around without ever interpreting them numerically, so they are
//! verified exactly, while the embedding program decodes the patterns to run
//! the numeric forward pass and to sample mutation noise.

use vstd::prelude::*;
use crate::error::SimError;
use rand::rngs::StdRng;
use crate::rng::rng_below;

verus! {

/// Width of the perception vector: 8 rays with 3 channels each.
pub const INPUT_COUNT: usize = 24;

/// Neurons in the hidden layer.
pub const HIDDEN_COUNT: usize = 16;

/// Neurons in the output layer, one per heading.
pub const OUTPUT_COUNT: usize = 4;

/// Scalars in the input weight matrix (16 x 24).
pub const INPUT_WEIGHT_LEN: usize = 384;

/// Scalars in the hidden weight matrix (4 x 16).
pub const HIDDEN_WEIGHT_LEN: usize = 64;

/// Scalars in all four tensors together.
pub const SCALAR_COUNT: usize = 468;

/// The network parameters: four tensors of IEEE-754 bit patterns, with the
/// shapes fixed at construction and never resized.
#[derive(Debug)]
pub struct Brain {
    /// 16 x 24 input weight matrix, row-major.
    pub input_weights: Vec<u32>,
    /// 4 x 16 hidden weight matrix, row-major.
    pub hidden_weights: Vec<u32>,
    /// 16 x 1 input bias vector.
    pub input_biases: Vec<u32>,
    /// 4 x 1 hidden bias vector.
    pub hidden_biases: Vec<u32>,
}

/// The four output activations of one forward pass, as bit patterns of
/// nonnegative IEEE-754 singles; on nonnegative singles the unsigned order of
/// the patterns agrees with the numeric order, so the decision step compares
/// them directly.
#[derive(Debug, Clone, Copy, PartialEq, Eq, Structural)]
pub struct BrainOutput {
    pub up: u32,
    pub down: u32,
    pub left: u32,
    pub right: u32,
}

/// Equality of two brains, tensor by tensor.
pub open spec fn beq(a: Brain, b: Brain) -> bool {
    &&& a.input_weights@ == b.input_weights@
    &&& a.hidden_weights@ == b.hidden_weights@
    &&& a.input_biases@ == b.input_biases@
    &&& a.hidden_biases@ == b.hidden_biases@
}

/// Each tensor of `child` is, as a whole block, one parent's tensor: the
/// crossover never blends scalars element-wise.
pub open spec fn blockwise_of(child: Brain, a: Brain, b: Brain) -> bool {
    &&& child.input_weights@ == a.input_weights@ || child.input_weights@ == b.input_weights@
    &&& child.hidden_weights@ == a.hidden_weights@ || child.hidden_weights@ == b.hidden_weights@
    &&& child.input_biases@ == a.input_biases@ || child.input_biases@ == b.input_biases@
    &&& child.hidden_biases@ == a.hidden_biases@ || child.hidden_biases@ == b.hidden_biases@
}

/// How a mutated brain relates to its original: scalar `i` (in the
/// concatenated order input weights, hidden weights, input biases, hidden
/// biases) is replaced by `vals[i]` exactly where `mask[i]` is set, and kept
/// everywhere else.
pub open spec fn mutate_rel(pre: Brain, post: Brain, mask: Seq<bool>, vals: Seq<u32>) -> bool {
    &&& post.input_weights@.len() == pre.input_weights@.len()
    &&& post.hidden_weights@.len() == pre.hidden_weights@.len()
    &&& post.input_biases@.len() == pre.input_biases@.len()
    &&& post.hidden_biases@.len() == pre.hidden_biases@.len()
    &&& forall|i: int|
        0 <= i < pre.input_weights@.len() ==> post.input_weights@[i] == (if mask[i] {
            vals[i]
        } else {
            pre.input_weights@[i]
        })
    &&& forall|i: int|
        0 <= i < pre.hidden_weights@.len() ==> post.hidden_weights@[i] == (if mask[384 + i] {
            vals[384 + i]
        } else {
            pre.hidden_weights@[i]
        })
    &&& forall|i: int|
        0 <= i < pre.input_biases@.len() ==> post.input_biases@[i] == (if mask[448 + i] {
            vals[448 + i]
        } else {
            pre.input_biases@[i]
        })
    &&& forall|i: int|
        0 <= i < pre.hidden_biases@.len() ==> post.hidden_biases@[i] == (if mask[464 + i] {
            vals[464 + i]
        } else {
            pre.hidden_biases@[i]
        })
}

/// An exact copy of a tensor, built scalar by scalar.
fn copy_scalars(v: &Vec<u32>) -> (r: Vec<u32>)
    ensures
        r@ == v@,
{
    let mut r: Vec<u32> = Vec::new();
    let mut i: usize = 0;
    while i < v.len()
        invariant
            i <= v.len(),
            r@ == v@.subrange(0, i as int),
        decreases v.len() - i,
    {
        r.push(v[i]);
        i += 1;
    }
    assert(r@ =~= v@);
    r
}

/// One tensor after mutation: scalar `i` becomes `vals[offset + i]` where
/// `mask[offset + i]` is set, and stays `src[i]` otherwise.
fn apply_mask_segment(src: &Vec<u32>, mask: &Vec<bool>, vals: &Vec<u32>, offset: usize) -> (r: Vec<
    u32,
>)
    requires
        offset + src@.len() <= mask@.len(),
        mask@.len() == vals@.len(),
    ensures
        r@.len() == src@.len(),
        forall|i: int|
            0 <= i < src@.len() ==> r@[i] == (if mask@[offset + i] {
                vals@[offset + i]
            } else {
                src@[i]
            }),
{
    let mut r: Vec<u32> = Vec::new();
    let mut i: usize = 0;
    let bound = mask.len();
    while i < src.len()
        invariant
            i <= src@.len(),
            bound == mask@.len(),
            offset + src@.len() <= bound,
            mask@.len() == vals@.len(),
            r@.len() == i,
            forall|j: int|
                0 <= j < i ==> r@[j] == (if mask@[offset + j] {
                    vals@[offset + j]
                } else {
                    src@[j]
                }),
        decreases src.len() - i,
    {
        if mask[offset + i] {
            r.push(vals[offset + i]);
        } else {
            r.push(src[i]);
        }
        i += 1;
    }
    r
}

impl Brain {
    /// Whether the four tensors have their fixed shapes.
    pub open spec fn wf(self) -> bool {
        &&& self.input_weights@.len() == INPUT_WEIGHT_LEN as int
        &&& self.hidden_weights@.len() == HIDDEN_WEIGHT_LEN as int
        &&& self.input_biases@.len() == HIDDEN_COUNT as int
        &&& self.hidden_biases@.len() == OUTPUT_COUNT as int
    }

    /// Builds a brain from the four tensors, checking the fixed shapes at the
    /// network boundary; this is the only place a shape can be rejected.
    pub fn new(input_weights: Vec<u32>, hidden_weights: Vec<u32>, input_biases: Vec<u32>, hidden_biases: Vec<u32>) -> (r: Result<
        Brain,
        SimError,
    >)
        ensures
            r is Ok <==> (input_weights@.len() == INPUT_WEIGHT_LEN as int
                && hidden_weights@.len() == HIDDEN_WEIGHT_LEN as int && input_biases@.len()
                == HIDDEN_COUNT as int && hidden_biases@.len() == OUTPUT_COUNT as int),
            r is Err ==> r == Result::<Brain, SimError>::Err(SimError::VisionVectorSize),
            r matches Ok(b) ==> b.wf() && b.input_weights@ == input_weights@ && b.hidden_weights@
                == hidden_weights@ && b.input_biases@ == input_biases@ && b.hidden_biases@
                == hidden_biases@,
    {
        if input_weights.len() != INPUT_WEIGHT_LEN || hidden_weights.len() != HIDDEN_WEIGHT_LEN
            || input_biases.len() != HIDDEN_COUNT || hidden_biases.len() != OUTPUT_COUNT {
            return Err(SimError::VisionVectorSize);
        }
        Ok(Brain { input_weights, hidden_weights, input_biases, hidden_biases })
    }

    /// For each of the four tensors independently, takes the whole tensor
    /// from `self` or from `other` with equal probability.
    pub fn crossover(&self, other: &Brain, rng: &mut StdRng) -> (child: Brain)
        requires
            self.wf(),
            other.wf(),
        ensures
            child.wf(),
            blockwise_of(child, *self, *other),
    {
        let input_weights = if rng_below(rng, 2) == 0 {
            copy_scalars(&self.input_weights)
        } else {
            copy_scalars(&other.input_weights)
        };
        let hidden_weights = if rng_below(rng, 2) == 0 {
            copy_scalars(&self.hidden_weights)
        } else {
            copy_scalars(&other.hidden_weights)
        };
        let input_biases = if rng_below(rng, 2) == 0 {
            copy_scalars(&self.input_biases)
        } else {
            copy_scalars(&other.input_biases)
        };
        let hidden_biases = if rng_below(rng, 2) == 0 {
            copy_scalars(&self.hidden_biases)
        } else {
            copy_scalars(&other.hidden_biases)
        };
        Brain { input_weights, hidden_weights, input_biases, hidden_biases }
    }

    /// Draws one mutation decision per scalar: scalar `i` is marked with
    /// probability `permille / 1000`, so rate 0 marks nothing and rate 1000
    /// marks every scalar.
    pub fn mutation_mask(rng: &mut StdRng, permille: u32) -> (m: Vec<bool>)
        ensures
            m@.len() == SCALAR_COUNT as int,
            permille == 0 ==> forall|i: int| 0 <= i < m@.len() ==> !m@[i],
            permille >= 1000 ==> forall|i: int| 0 <= i < m@.len() ==> m@[i],
    {
        let mut m: Vec<bool> = Vec::new();
        let mut i: usize = 0;
        while i < SCALAR_COUNT
            invariant
                i <= SCALAR_COUNT,
                m@.len() == i,
                forall|j: int| 0 <= j < i ==> m@[j] == true || m@[j] == false,
                permille == 0 ==> forall|j: int| 0 <= j < i ==> !m@[j],
                permille >= 1000 ==> forall|j: int| 0 <= j < i ==> m@[j],
            decreases SCALAR_COUNT - i,
    {
            let d = rng_below(rng, 1000);
            m.push(d < permille);
            i += 1;
        }
        m
    }

    /// Replaces exactly the masked scalars by the given values; the embedding
    /// program computes each replacement as the old scalar plus a sample of a
    /// normal distribution with mean 0 and standard deviation 0.5.
    pub fn mutate(&mut self, mask: &Vec<bool>, vals: &Vec<u32>)
        requires
            old(self).wf(),
            mask@.len() == SCALAR_COUNT as int,
            vals@.len() == SCALAR_COUNT as int,
        ensures
            final(self).wf(),
            mutate_rel(*old(self), *final(self), mask@, vals@),
    {
        self.input_weights = apply_mask_segment(&self.input_weights, mask, vals, 0);
        self.hidden_weights = apply_mask_segment(&self.hidden_weights, mask, vals, 384);
        self.input_biases = apply_mask_segment(&self.input_biases, mask, vals, 448);
        self.hidden_biases = apply_mask_segment(&self.hidden_biases, mask, vals, 464);
    }
}

impl Clone for Brain {
    /// An independent copy with equal tensors.
    fn clone(&self) -> (r: Brain)
        ensures
            beq(r, *self),
    {
        Brain {
            input_weights: copy_scalars(&self.input_weights),
            hidden_weights: copy_scalars(&self.hidden_weights),
            input_biases: copy_scalars(&self.input_biases),
            hidden_biases: copy_scalars(&self.hidden_biases),
        }
    }
}

/// A mutation whose mask marks no scalar leaves every tensor unchanged.
pub proof fn lemma_mutate_zero(pre: Brain, post: Brain, mask: Seq<bool>, vals: Seq<u32>)
    requires
        pre.wf(),
        mask.len() == SCALAR_COUNT as int,
        mutate_rel(pre, post, mask, vals),
        forall|i: int| 0 <= i < mask.len() ==> !mask[i],
    ensures
        beq(post, pre),
{
    assert(post.input_weights@ =~= pre.input_weights@);
    assert(post.hidden_weights@ =~= pre.hidden_weights@);
    assert(post.input_biases@ =~= pre.input_biases@);
    assert(post.hidden_biases@ =~= pre.hidden_biases@);
}

/// A mutation whose mask marks every scalar replaces every scalar by its
/// fresh value.
pub proof fn lemma_mutate_full(pre: Brain, post: Brain, mask: Seq<bool>, vals: Seq<u32>)
    requires
        pre.wf(),
        mask.len() == SCALAR_COUNT as int,
        vals.len() == SCALAR_COUNT as int,
        mutate_rel(pre, post, mask, vals),
        forall|i: int| 0 <= i < mask.len() ==> mask[i],
    ensures
        post.input_weights@ =~= vals.subrange(0, 384),
        post.hidden_weights@ =~= vals.subrange(384, 448),
        post.input_biases@ =~= vals.subrange(448, 464),
        post.hidden_biases@ =~= vals.subrange(464, 468),
{
}

} // verus!
