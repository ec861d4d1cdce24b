//! Genomes: the evolvable parameter vectors of the neural controllers,
//! and the genetic operators (crossover, mutation) that produce
//! offspring genomes.

use vstd::prelude::*;

use crate::errors::CoreError;
use crate::fixed::{clamp_spec, weight_ok, clamp_i64, WEIGHT_LIMIT};
use crate::rng::{rng_iter, Rng};

verus! {

/// Largest width a single layer may have.
pub const MAX_LAYER_SIZE: usize = 256;

/// Largest number of hidden layers.
pub const MAX_HIDDEN_LAYERS: usize = 8;

/// Upper bound on a well-formed topology's parameter count:
/// (MAX_HIDDEN_LAYERS + 1) transitions, each of at most
/// MAX_LAYER_SIZE * (MAX_LAYER_SIZE + 1) parameters.
pub const PARAM_COUNT_LIMIT: usize = 592128;

/// The fixed layer-size structure of the feedforward network. It is
/// identical for every agent in a run: only weights evolve, so
/// index-wise crossover between any two genomes is always
/// shape-compatible.
pub struct Topology {
    pub input_size: usize,
    pub hidden_layers: Vec<usize>,
    pub output_size: usize,
}

impl Topology {
    /// All layer widths in order: input, hidden layers, output.
    pub open spec fn sizes(&self) -> Seq<int> {
        Seq::new(
            self.hidden_layers@.len() + 2,
            |i: int|
                if i == 0 {
                    self.input_size as int
                } else if i <= self.hidden_layers@.len() {
                    self.hidden_layers@[i - 1] as int
                } else {
                    self.output_size as int
                },
        )
    }

    pub open spec fn wf(&self) -> bool {
        &&& 1 <= self.input_size <= MAX_LAYER_SIZE
        &&& 1 <= self.output_size <= MAX_LAYER_SIZE
        &&& self.hidden_layers@.len() <= MAX_HIDDEN_LAYERS
        &&& forall|i: int|
            0 <= i < self.hidden_layers@.len() ==> 1 <= #[trigger] self.hidden_layers@[i]
                <= MAX_LAYER_SIZE
    }

    /// Number of parameters demanded by the topology: each layer
    /// transition from width m to width n contributes n * (m + 1)
    /// parameters (a dense weight matrix plus one bias per neuron).
    pub open spec fn weight_count(&self) -> int {
        layer_offset(self.sizes(), self.sizes().len() as int)
    }

    /// Two topologies with the same field contents describe the same
    /// network shape: equal size sequences, equal parameter counts,
    /// and the same well-formedness.
    pub proof fn lemma_eq_shape(&self, other: &Topology)
        requires
            topo_eq(*self, *other),
        ensures
            self.sizes() == other.sizes(),
            self.weight_count() == other.weight_count(),
            self.wf() == other.wf(),
    {
        assert(self.sizes() =~= other.sizes());
    }

    pub proof fn lemma_sizes_ok(&self)
        requires
            self.wf(),
        ensures
            sizes_ok(self.sizes()),
            2 <= self.sizes().len() <= MAX_HIDDEN_LAYERS + 2,
    {
    }

    /// A well-formed topology's parameter count is small enough for a
    /// `usize` length.
    pub proof fn lemma_weight_count_bound(&self)
        requires
            self.wf(),
        ensures
            0 <= self.weight_count() <= PARAM_COUNT_LIMIT,
    {
        self.lemma_sizes_ok();
        lemma_layer_offset_bound(self.sizes(), self.sizes().len() as int);
    }

    /// An exact copy (the topology is shared by every genome of a run).
    pub fn clone_t(&self) -> (r: Topology)
        ensures
            topo_eq(r, *self),
    {
        Topology {
            input_size: self.input_size,
            hidden_layers: copy_vec_usize(&self.hidden_layers),
            output_size: self.output_size,
        }
    }

    /// Computes the parameter count the topology demands.
    pub fn compute_weight_count(&self) -> (r: usize)
        requires
            self.wf(),
        ensures
            r as int == self.weight_count(),
            r <= PARAM_COUNT_LIMIT,
    {
        proof {
            self.lemma_weight_count_bound();
        }
        let ghost sizes = self.sizes();
        let mut count: usize = 0;
        let mut prev: usize = self.input_size;
        let mut i: usize = 0;
        while i < self.hidden_layers.len()
            invariant
                self.wf(),
                sizes == self.sizes(),
                0 <= i <= self.hidden_layers@.len(),
                prev as int == sizes[i as int],
                count as int == layer_offset(sizes, i + 1),
                count <= i * 65792,
            decreases self.hidden_layers@.len() - i,
        {
            let h = self.hidden_layers[i];
            proof {
                self.lemma_sizes_ok();
                lemma_layer_offset_bound(sizes, i + 1);
                assert(1 <= h * (prev + 1) <= 65792) by (nonlinear_arith)
                    requires
                        1 <= h <= 256,
                        1 <= prev + 1 <= 257,
                ;
            }
            count = count + h * (prev + 1);
            prev = h;
            i = i + 1;
        }
        proof {
            self.lemma_sizes_ok();
            lemma_layer_offset_bound(sizes, i + 1);
            assert(1 <= self.output_size * (prev + 1) <= 65792) by (nonlinear_arith)
                requires
                    1 <= self.output_size <= 256,
                    1 <= prev + 1 <= 257,
            ;
            assert(sizes.len() == self.hidden_layers@.len() + 2);
        }
        count = count + self.output_size * (prev + 1);
        count
    }

    /// Checks well-formedness of the layer widths.
    pub fn check_wf(&self) -> (r: bool)
        ensures
            r == self.wf(),
    {
        if !(1 <= self.input_size && self.input_size <= MAX_LAYER_SIZE) {
            return false;
        }
        if !(1 <= self.output_size && self.output_size <= MAX_LAYER_SIZE) {
            return false;
        }
        if self.hidden_layers.len() > MAX_HIDDEN_LAYERS {
            return false;
        }
        let mut i: usize = 0;
        while i < self.hidden_layers.len()
            invariant
                0 <= i <= self.hidden_layers@.len(),
                forall|j: int|
                    0 <= j < i ==> 1 <= #[trigger] self.hidden_layers@[j] <= MAX_LAYER_SIZE,
            decreases self.hidden_layers@.len() - i,
        {
            let h = self.hidden_layers[i];
            if !(1 <= h && h <= MAX_LAYER_SIZE) {
                return false;
            }
            i = i + 1;
        }
        true
    }
}

/// Whether two topologies have the same contents (the two values may
/// still be distinct heap objects).
pub open spec fn topo_eq(a: Topology, b: Topology) -> bool {
    &&& a.input_size == b.input_size
    &&& a.hidden_layers@ == b.hidden_layers@
    &&& a.output_size == b.output_size
}

/// Every layer width is in [1, MAX_LAYER_SIZE].
pub open spec fn sizes_ok(sizes: Seq<int>) -> bool {
    forall|t: int| 0 <= t < sizes.len() ==> 1 <= #[trigger] sizes[t] <= MAX_LAYER_SIZE
}

/// Parameters consumed by the first k - 1 layer transitions: the
/// offset of transition k's block in the flat weight vector.
pub open spec fn layer_offset(sizes: Seq<int>, k: int) -> int
    decreases k,
{
    if k <= 1 {
        0
    } else {
        layer_offset(sizes, k - 1) + sizes[k - 1] * (sizes[k - 2] + 1)
    }
}

pub proof fn lemma_layer_offset_bound(sizes: Seq<int>, k: int)
    requires
        sizes_ok(sizes),
        0 <= k <= sizes.len(),
    ensures
        0 <= layer_offset(sizes, k),
        layer_offset(sizes, k) <= if k <= 1 {
            0int
        } else {
            (k - 1) * 65792
        },
    decreases k,
{
    if k <= 1 {
    } else {
        lemma_layer_offset_bound(sizes, k - 1);
        assert(1 <= sizes[k - 1] * (sizes[k - 2] + 1) <= 65792) by (nonlinear_arith)
            requires
                1 <= sizes[k - 1] <= 256,
                1 <= sizes[k - 2] <= 256,
        ;
    }
}

/// Exact copy of a vector of layer widths.
fn copy_vec_usize(v: &Vec<usize>) -> (r: Vec<usize>)
    ensures
        r@ == v@,
{
    let mut out: Vec<usize> = Vec::new();
    let mut i: usize = 0;
    while i < v.len()
        invariant
            0 <= i <= v@.len(),
            out@ == v@.subrange(0, i as int),
        decreases v@.len() - i,
    {
        out.push(v[i]);
        assert(out@ == v@.subrange(0, i + 1));
        i = i + 1;
    }
    assert(v@.subrange(0, v@.len() as int) =~= v@);
    out
}

/// Exact copy of a weight vector.
pub fn copy_vec_i64(v: &Vec<i64>) -> (r: Vec<i64>)
    ensures
        r@ == v@,
{
    let mut out: Vec<i64> = Vec::new();
    let mut i: usize = 0;
    while i < v.len()
        invariant
            0 <= i <= v@.len(),
            out@ == v@.subrange(0, i as int),
        decreases v@.len() - i,
    {
        out.push(v[i]);
        assert(out@ == v@.subrange(0, i + 1));
        i = i + 1;
    }
    assert(v@.subrange(0, v@.len() as int) =~= v@);
    out
}

/// An agent's genome: a flat parameter vector whose length is fixed by
/// the topology. Immutable once assigned to a living agent.
pub struct Genome {
    pub weights: Vec<i64>,
    pub topology: Topology,
}

impl Genome {
    /// The genome invariant: well-formed topology, weight vector of
    /// exactly the demanded length, every parameter in range.
    pub open spec fn wf(&self) -> bool {
        &&& self.topology.wf()
        &&& self.weights@.len() == self.topology.weight_count()
        &&& forall|i: int| 0 <= i < self.weights@.len() ==> weight_ok((#[trigger] self.weights@[i]) as int)
    }

    /// Construction from raw parts, rejecting any weight vector that
    /// does not match the topology. Succeeds exactly when the genome
    /// invariant holds of the parts.
    pub fn new(weights: Vec<i64>, topology: Topology) -> (r: Result<Genome, CoreError>)
        ensures
            r is Ok <==> (topology.wf() && weights@.len() == topology.weight_count() && forall|
                i: int,
            |
                0 <= i < weights@.len() ==> weight_ok((#[trigger] weights@[i]) as int)),
            r is Ok ==> r->Ok_0.weights == weights && r->Ok_0.topology == topology
                && r->Ok_0.wf(),
            r is Err ==> r->Err_0 == CoreError::MalformedGenome,
    {
        if !topology.check_wf() {
            return Err(CoreError::MalformedGenome);
        }
        let expected = topology.compute_weight_count();
        if weights.len() != expected {
            return Err(CoreError::MalformedGenome);
        }
        let mut i: usize = 0;
        while i < weights.len()
            invariant
                0 <= i <= weights@.len(),
                forall|j: int| 0 <= j < i ==> weight_ok((#[trigger] weights@[j]) as int),
            decreases weights@.len() - i,
        {
            let w = weights[i];
            if w < -WEIGHT_LIMIT || w > WEIGHT_LIMIT {
                return Err(CoreError::MalformedGenome);
            }
            i = i + 1;
        }
        Ok(Genome { weights, topology })
    }

    /// An exact copy.
    pub fn clone_g(&self) -> (r: Genome)
        ensures
            r.weights@ == self.weights@,
            topo_eq(r.topology, self.topology),
            self.wf() ==> r.wf(),
    {
        let r = Genome { weights: copy_vec_i64(&self.weights), topology: self.topology.clone_t() };
        proof {
            r.topology.lemma_eq_shape(&self.topology);
        }
        r
    }
}

/// A genesis parameter drawn from one random value: uniform over the
/// whole parameter range.
pub open spec fn genesis_weight(v: u64) -> int {
    (v as int) % (2 * WEIGHT_LIMIT + 1) - WEIGHT_LIMIT
}

/// The weight vector of a genesis genome with n parameters, drawn from
/// seed state s.
pub open spec fn genesis_weights(n: nat, s: u64) -> Seq<i64> {
    Seq::new(n, |i: int| genesis_weight(rng_iter(s, (i + 1) as nat)) as i64)
}

/// Uniform crossover: each parameter comes from parent a or parent b
/// by an independent coin flip from the random stream.
pub open spec fn crossover_weights(aw: Seq<i64>, bw: Seq<i64>, s: u64) -> Seq<i64> {
    Seq::new(aw.len(), |i: int|
        if rng_iter(s, (i + 1) as nat) & 1u64 == 1u64 {
            aw[i]
        } else {
            bw[i]
        })
}

/// The perturbation a single random value yields, uniform in
/// [-magnitude, magnitude].
pub open spec fn delta_of(v: u64, magnitude: i64) -> int {
    ((v >> 10u64) as int) % (2 * magnitude + 1) - magnitude
}

/// One parameter after mutation: perturbed (and clamped back into the
/// parameter range) when the draw falls under the mutation
/// probability, unchanged otherwise.
pub open spec fn mutate_weight(w: i64, v: u64, prob_millis: u64, magnitude: i64) -> i64 {
    if (v % 1000u64) < prob_millis {
        clamp_spec(w + delta_of(v, magnitude), -WEIGHT_LIMIT as int, WEIGHT_LIMIT as int) as i64
    } else {
        w
    }
}

/// The whole weight vector after mutation with seed state s.
pub open spec fn mutate_weights(w: Seq<i64>, s: u64, prob_millis: u64, magnitude: i64) -> Seq<
    i64,
> {
    Seq::new(w.len(), |i: int| mutate_weight(w[i], rng_iter(s, (i + 1) as nat), prob_millis, magnitude))
}

/// A genome with uniformly random parameters for the given topology
/// (world genesis).
pub fn random_genome(topology: &Topology, rng: &mut Rng) -> (r: Genome)
    requires
        topology.wf(),
    ensures
        r.wf(),
        topo_eq(r.topology, *topology),
        r.weights@ == genesis_weights(topology.weight_count() as nat, old(rng).state),
        final(rng).state == rng_iter(old(rng).state, topology.weight_count() as nat),
{
    let ghost s0 = rng.state;
    let count = topology.compute_weight_count();
    let mut weights: Vec<i64> = Vec::new();
    let mut i: usize = 0;
    while i < count
        invariant
            0 <= i <= count,
            count as int == topology.weight_count(),
            rng.state == rng_iter(s0, i as nat),
            weights@.len() == i,
            forall|j: int|
                0 <= j < i ==> #[trigger] weights@[j] == genesis_weights(count as nat, s0)[j],
            forall|j: int| 0 <= j < i ==> weight_ok((#[trigger] weights@[j]) as int),
        decreases count - i,
    {
        proof {
            crate::rng::lemma_rng_iter_unfold(s0, i as nat);
        }
        let v = rng.next_u64();
        let span: u64 = (2 * WEIGHT_LIMIT + 1) as u64;
        let m = v % span;
        let w: i64 = (m as i64) - WEIGHT_LIMIT;
        assert(w as int == genesis_weight(v));
        weights.push(w);
        i = i + 1;
    }
    assert(weights@ =~= genesis_weights(count as nat, s0));
    let t = topology.clone_t();
    proof {
        t.lemma_eq_shape(topology);
    }
    Genome { weights, topology: t }
}

/// Uniform crossover of two genomes of identical topology. The child
/// has the parents' topology and, at every index, one of the parents'
/// parameters, selected by the random stream.
pub fn crossover(a: &Genome, b: &Genome, rng: &mut Rng) -> (child: Genome)
    requires
        a.wf(),
        b.wf(),
        topo_eq(a.topology, b.topology),
    ensures
        child.wf(),
        topo_eq(child.topology, a.topology),
        child.weights@ == crossover_weights(a.weights@, b.weights@, old(rng).state),
        final(rng).state == rng_iter(old(rng).state, a.weights@.len() as nat),
{
    proof {
        a.topology.lemma_eq_shape(&b.topology);
    }
    let ghost s0 = rng.state;
    let ghost target = crossover_weights(a.weights@, b.weights@, s0);
    let mut weights: Vec<i64> = Vec::new();
    let mut i: usize = 0;
    let n = a.weights.len();
    while i < n
        invariant
            a.wf(),
            b.wf(),
            0 <= i <= n,
            n == a.weights@.len(),
            n == b.weights@.len(),
            target == crossover_weights(a.weights@, b.weights@, s0),
            rng.state == rng_iter(s0, i as nat),
            weights@.len() == i,
            forall|j: int| 0 <= j < i ==> #[trigger] weights@[j] == target[j],
            forall|j: int| 0 <= j < i ==> weight_ok((#[trigger] weights@[j]) as int),
        decreases n - i,
    {
        proof {
            crate::rng::lemma_rng_iter_unfold(s0, i as nat);
        }
        let v = rng.next_u64();
        let w: i64 = if v & 1u64 == 1u64 {
            a.weights[i]
        } else {
            b.weights[i]
        };
        weights.push(w);
        i = i + 1;
    }
    assert(weights@ =~= target);
    let t = a.topology.clone_t();
    proof {
        t.lemma_eq_shape(&a.topology);
    }
    Genome { weights, topology: t }
}

/// Mutation: each parameter of the genome is independently perturbed
/// with the configured probability (in thousandths) by a bounded
/// perturbation of the configured magnitude, then clamped back into
/// the parameter range.
pub fn mutate(g: &Genome, rng: &mut Rng, prob_millis: u64, magnitude: i64) -> (child: Genome)
    requires
        g.wf(),
        prob_millis <= 1000,
        0 <= magnitude <= WEIGHT_LIMIT,
    ensures
        child.wf(),
        topo_eq(child.topology, g.topology),
        child.weights@ == mutate_weights(g.weights@, old(rng).state, prob_millis, magnitude),
        final(rng).state == rng_iter(old(rng).state, g.weights@.len() as nat),
{
    let ghost s0 = rng.state;
    let ghost target = mutate_weights(g.weights@, s0, prob_millis, magnitude);
    let mut weights: Vec<i64> = Vec::new();
    let mut i: usize = 0;
    let n = g.weights.len();
    while i < n
        invariant
            0 <= i <= n,
            n == g.weights@.len(),
            g.wf(),
            0 <= magnitude <= WEIGHT_LIMIT,
            target == mutate_weights(g.weights@, s0, prob_millis, magnitude),
            rng.state == rng_iter(s0, i as nat),
            weights@.len() == i,
            forall|j: int| 0 <= j < i ==> #[trigger] weights@[j] == target[j],
            forall|j: int| 0 <= j < i ==> weight_ok((#[trigger] weights@[j]) as int),
        decreases n - i,
    {
        proof {
            crate::rng::lemma_rng_iter_unfold(s0, i as nat);
        }
        let v = rng.next_u64();
        let w0 = g.weights[i];
        let w: i64 = if v % 1000u64 < prob_millis {
            let span: u64 = (2 * magnitude + 1) as u64;
            let m = (v >> 10u64) % span;
            let delta: i64 = (m as i64) - magnitude;
            assert(delta as int == delta_of(v, magnitude));
            clamp_i64(w0 + delta, -WEIGHT_LIMIT, WEIGHT_LIMIT)
        } else {
            w0
        };
        assert(w as int == mutate_weight(w0, v, prob_millis, magnitude) as int);
        weights.push(w);
        i = i + 1;
    }
    assert(weights@ =~= target);
    let t = g.topology.clone_t();
    proof {
        t.lemma_eq_shape(&g.topology);
    }
    Genome { weights, topology: t }
}

/// Law: for all parent genome pairs of identical topology, crossover
/// followed by mutation yields a child weight vector of the same
/// length whose every entry is in the parameter range — the child
/// satisfies the same topology invariant as its parents.
pub proof fn lemma_offspring_topology_invariant(
    a: Genome,
    b: Genome,
    s1: u64,
    s2: u64,
    prob_millis: u64,
    magnitude: i64,
)
    requires
        a.wf(),
        b.wf(),
        topo_eq(a.topology, b.topology),
        0 <= magnitude <= WEIGHT_LIMIT,
    ensures
        ({
            let child = mutate_weights(
                crossover_weights(a.weights@, b.weights@, s1),
                s2,
                prob_millis,
                magnitude,
            );
            &&& child.len() == a.topology.weight_count()
            &&& forall|i: int| 0 <= i < child.len() ==> weight_ok((#[trigger] child[i]) as int)
        }),
{
    a.topology.lemma_eq_shape(&b.topology);
    let cw = crossover_weights(a.weights@, b.weights@, s1);
    let child = mutate_weights(cw, s2, prob_millis, magnitude);
    assert forall|i: int| 0 <= i < child.len() implies weight_ok((#[trigger] child[i]) as int) by {
        assert(weight_ok(cw[i] as int));
    }
}

} // verus!
