//! The neural controller: evaluation of the dense feedforward network
//! that a genome encodes, as a pure function of genome and input
//! vector.
//!
//! Each layer transition computes `activation(W . x + b)` where the
//! weight rows and biases are consecutive slices of the flat genome,
//! and the activation is the bounded nonlinearity that clamps into
//! [-1.0, 1.0] (fixed point: [-SCALE, SCALE]), which downstream action
//! interpretation relies on.

use vstd::prelude::*;

use crate::fixed::{
    clamp_i64, clamp_spec, div_scale, div_trunc, lemma_mul_bound, sig_ok, weight_ok, SCALE,
    WEIGHT_LIMIT,
};
use crate::genes::{layer_offset, sizes_ok, Genome, MAX_LAYER_SIZE};

verus! {

/// Sum of the first `i` products of a weight row starting at `off`
/// with the activation vector `x`.
pub open spec fn dot_prefix(w: Seq<i64>, x: Seq<i64>, off: int, i: int) -> int
    decreases i,
{
    if i <= 0 {
        0
    } else {
        dot_prefix(w, x, off, i - 1) + w[off + i - 1] * x[i - 1]
    }
}

/// One neuron: weight row at `off`, bias right after it, activation
/// clamped into the signal range.
pub open spec fn neuron_out(w: Seq<i64>, off: int, x: Seq<i64>) -> int {
    let pre = dot_prefix(w, x, off, x.len() as int) + w[off + x.len()] * SCALE;
    clamp_spec(div_trunc(pre, SCALE as int), -SCALE as int, SCALE as int)
}

/// One layer of `n` neurons whose blocks start at `off`, applied to
/// activations `x`.
pub open spec fn layer_out(w: Seq<i64>, off: int, x: Seq<i64>, n: int) -> Seq<i64> {
    Seq::new(n as nat, |j: int| neuron_out(w, off + j * (x.len() + 1), x) as i64)
}

/// The network's activations after applying layer transitions
/// k, k + 1, ... to `x`; transition k maps width sizes[k - 1] to width
/// sizes[k] and its parameter block starts at layer_offset(sizes, k).
pub open spec fn eval_from(w: Seq<i64>, sizes: Seq<int>, k: int, x: Seq<i64>) -> Seq<i64>
    decreases sizes.len() - k,
{
    if k >= sizes.len() {
        x
    } else {
        eval_from(w, sizes, k + 1, layer_out(w, layer_offset(sizes, k), x, sizes[k]))
    }
}

/// The full network: what evaluating a genome on an input vector
/// yields.
pub open spec fn eval_genome(g: Genome, x: Seq<i64>) -> Seq<i64> {
    eval_from(g.weights@, g.topology.sizes(), 1, x)
}

/// Law: for every genome and every input vector, the network's output
/// has exactly the topology's output width and every entry lies in the
/// signal range [-SCALE, SCALE] — no input can drive an activation out
/// of bounds, because every neuron ends in the clamping nonlinearity.
pub proof fn lemma_eval_from_bounded(w: Seq<i64>, sizes: Seq<int>, k: int, x: Seq<i64>)
    requires
        sizes_ok(sizes),
        1 <= k <= sizes.len(),
        x.len() == sizes[k - 1],
        forall|i: int| 0 <= i < x.len() ==> sig_ok((#[trigger] x[i]) as int),
    ensures
        eval_from(w, sizes, k, x).len() == sizes[sizes.len() - 1],
        forall|i: int|
            0 <= i < eval_from(w, sizes, k, x).len() ==> sig_ok(
                (#[trigger] eval_from(w, sizes, k, x)[i]) as int,
            ),
    decreases sizes.len() - k,
{
    if k >= sizes.len() {
    } else {
        let y = layer_out(w, layer_offset(sizes, k), x, sizes[k]);
        assert forall|i: int| 0 <= i < y.len() implies sig_ok((#[trigger] y[i]) as int) by {
            assert(y[i] == neuron_out(w, layer_offset(sizes, k) + i * (x.len() + 1), x) as i64);
        }
        lemma_eval_from_bounded(w, sizes, k + 1, y);
    }
}

/// Law (output bounds): a well-formed genome evaluated on a full
/// in-range input vector yields exactly `output_size` entries, each in
/// [-SCALE, SCALE].
pub proof fn lemma_eval_genome_bounded(g: Genome, x: Seq<i64>)
    requires
        g.wf(),
        x.len() == g.topology.input_size,
        forall|i: int| 0 <= i < x.len() ==> sig_ok((#[trigger] x[i]) as int),
    ensures
        eval_genome(g, x).len() == g.topology.output_size,
        forall|i: int|
            0 <= i < eval_genome(g, x).len() ==> sig_ok((#[trigger] eval_genome(g, x)[i]) as int),
{
    g.topology.lemma_sizes_ok();
    lemma_eval_from_bounded(g.weights@, g.topology.sizes(), 1, x);
}

/// Law (purity / idempotence): the output a controller may return is
/// pinned down as a function of the genome and the input vector alone,
/// so evaluating the same genome on the same inputs twice yields
/// bit-identical outputs. Any two outputs admitted by `evaluate`'s
/// contract for equal arguments are equal.
pub proof fn lemma_evaluate_pure(g: Genome, x: Seq<i64>, out1: Seq<i64>, out2: Seq<i64>)
    requires
        out1 == eval_genome(g, x),
        out2 == eval_genome(g, x),
    ensures
        out1 == out2,
{
}

/// Parameter blocks of later transitions start no earlier.
pub proof fn lemma_layer_offset_mono(sizes: Seq<int>, k: int, l: int)
    requires
        sizes_ok(sizes),
        0 <= k <= l <= sizes.len(),
    ensures
        layer_offset(sizes, k) <= layer_offset(sizes, l),
    decreases l - k,
{
    if k < l {
        lemma_layer_offset_mono(sizes, k, l - 1);
        if l > 1 {
            assert(sizes[l - 1] * (sizes[l - 2] + 1) >= 0) by (nonlinear_arith)
                requires
                    1 <= sizes[l - 1],
                    1 <= sizes[l - 2],
            ;
        }
    }
}

/// The stateless neural controller.
pub struct NeuralController;

impl NeuralController {
    /// Evaluates the network the genome encodes on the given input
    /// vector. Pure and deterministic: the result is exactly
    /// `eval_genome(genome, inputs)`, of the topology's output width,
    /// every entry in the signal range.
    pub fn evaluate(genome: &Genome, inputs: &Vec<i64>) -> (out: Vec<i64>)
        requires
            genome.wf(),
            inputs@.len() == genome.topology.input_size,
            forall|i: int| 0 <= i < inputs@.len() ==> sig_ok((#[trigger] inputs@[i]) as int),
        ensures
            out@ == eval_genome(*genome, inputs@),
            out@.len() == genome.topology.output_size,
            forall|i: int| 0 <= i < out@.len() ==> sig_ok((#[trigger] out@[i]) as int),
    {
        proof {
            lemma_eval_genome_bounded(*genome, inputs@);
            genome.topology.lemma_sizes_ok();
        }
        let ghost w = genome.weights@;
        let ghost sizes = genome.topology.sizes();

        // Materialize the layer widths in order.
        let mut widths: Vec<usize> = Vec::new();
        widths.push(genome.topology.input_size);
        let mut hi: usize = 0;
        while hi < genome.topology.hidden_layers.len()
            invariant
                0 <= hi <= genome.topology.hidden_layers@.len(),
                widths@.len() == hi + 1,
                widths@[0] == genome.topology.input_size,
                forall|j: int|
                    1 <= j <= hi ==> #[trigger] widths@[j] == genome.topology.hidden_layers@[j
                        - 1],
            decreases genome.topology.hidden_layers@.len() - hi,
        {
            widths.push(genome.topology.hidden_layers[hi]);
            hi = hi + 1;
        }
        widths.push(genome.topology.output_size);
        proof {
            assert(widths@.len() == sizes.len());
            assert(forall|j: int|
                0 <= j < sizes.len() ==> (#[trigger] widths@[j]) as int == sizes[j]);
        }

        let mut x: Vec<i64> = crate::genes::copy_vec_i64(inputs);
        let mut off: usize = 0;
        let mut k: usize = 1;
        while k < widths.len()
            invariant
                genome.wf(),
                w == genome.weights@,
                sizes == genome.topology.sizes(),
                sizes_ok(sizes),
                widths@.len() == sizes.len(),
                2 <= sizes.len(),
                forall|j: int| 0 <= j < sizes.len() ==> (#[trigger] widths@[j]) as int == sizes[j],
                1 <= k <= widths@.len(),
                off as int == layer_offset(sizes, k as int),
                x@.len() == sizes[k - 1],
                forall|i: int| 0 <= i < x@.len() ==> sig_ok((#[trigger] x@[i]) as int),
                eval_from(w, sizes, 1, inputs@) == eval_from(w, sizes, k as int, x@),
            decreases widths@.len() - k,
        {
            let m = widths[k - 1];
            let n = widths[k];
            proof {
                genome.topology.lemma_weight_count_bound();
                lemma_layer_offset_mono(sizes, k as int, k + 1);
                lemma_layer_offset_mono(sizes, k + 1, sizes.len() as int);
                assert(layer_offset(sizes, k + 1) == layer_offset(sizes, k as int) + sizes[k
                    as int] * (sizes[k - 1] + 1));
                assert(1 <= n * (m + 1) <= 65792) by (nonlinear_arith)
                    requires
                        1 <= n <= 256,
                        1 <= m <= 256,
                ;
            }
            let mut y: Vec<i64> = Vec::new();
            let mut j: usize = 0;
            while j < n
                invariant
                    genome.wf(),
                    w == genome.weights@,
                    sizes_ok(sizes),
                    1 <= k < sizes.len(),
                    m as int == sizes[k - 1],
                    n as int == sizes[k as int],
                    m <= MAX_LAYER_SIZE,
                    n <= MAX_LAYER_SIZE,
                    off as int == layer_offset(sizes, k as int),
                    off + n * (m + 1) <= w.len(),
                    off + n * (m + 1) <= crate::genes::PARAM_COUNT_LIMIT,
                    x@.len() == m,
                    forall|i: int| 0 <= i < x@.len() ==> sig_ok((#[trigger] x@[i]) as int),
                    0 <= j <= n,
                    y@.len() == j,
                    forall|jj: int|
                        0 <= jj < j ==> #[trigger] y@[jj] == neuron_out(
                            w,
                            off + jj * (m + 1),
                            x@,
                        ) as i64,
                decreases n - j,
            {
                proof {
                    assert(j * (m + 1) + (m + 1) <= n * (m + 1)) by (nonlinear_arith)
                        requires
                            0 <= j < n,
                            0 <= m,
                    ;
                }
                let noff: usize = off + j * (m + 1);
                let ghost noffi = noff as int;
                let mut acc: i64 = 0;
                let mut i: usize = 0;
                while i < m
                    invariant
                        genome.wf(),
                        w == genome.weights@,
                        0 <= i <= m,
                        x@.len() == m,
                        m <= MAX_LAYER_SIZE,
                        forall|t: int| 0 <= t < x@.len() ==> sig_ok((#[trigger] x@[t]) as int),
                        noffi == noff as int,
                        noff + m < w.len(),
                        noff + m < crate::genes::PARAM_COUNT_LIMIT,
                        acc as int == dot_prefix(w, x@, noffi, i as int),
                        -(i as int) * 8388608 <= acc as int <= (i as int) * 8388608,
                    decreases m - i,
                {
                    let wv = genome.weights[noff + i];
                    let xv = x[i];
                    proof {
                        assert(weight_ok(wv as int));
                        lemma_mul_bound(wv as int, xv as int, WEIGHT_LIMIT as int, SCALE as int);
                    }
                    acc = acc + wv * xv;
                    i = i + 1;
                }
                let bias = genome.weights[noff + m];
                proof {
                    assert(weight_ok(bias as int));
                    lemma_mul_bound(bias as int, SCALE as int, WEIGHT_LIMIT as int, SCALE as int);
                    assert((m as int) * 8388608 <= 256 * 8388608) by (nonlinear_arith)
                        requires
                            m <= 256,
                    ;
                }
                let pre: i64 = acc + bias * SCALE;
                let q = div_scale(pre);
                let v = clamp_i64(q, -SCALE, SCALE);
                proof {
                    assert(v as int == neuron_out(w, noffi, x@));
                }
                y.push(v);
                j = j + 1;
            }
            proof {
                let ghost lo = layer_out(w, off as int, x@, n as int);
                assert forall|jj: int| 0 <= jj < n implies y@[jj] == lo[jj] by {
                    assert(y@[jj] == neuron_out(w, off + jj * (m + 1), x@) as i64);
                }
                assert(y@ =~= lo);
                assert(eval_from(w, sizes, k as int, x@) == eval_from(w, sizes, k + 1, lo));
                assert forall|i: int| 0 <= i < y@.len() implies sig_ok(
                    (#[trigger] y@[i]) as int,
                ) by {
                    assert(y@[i] == neuron_out(w, off + i * (m + 1), x@) as i64);
                }
            }
            x = y;
            off = off + n * (m + 1);
            k = k + 1;
        }
        proof {
            assert(k as int == sizes.len());
            assert(eval_from(w, sizes, k as int, x@) == x@);
        }
        x
    }
}

} // verus!
