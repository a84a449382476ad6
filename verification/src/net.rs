//! The fixed-topology feed-forward network ("brain") of one agent.
//!
//! Topology is fixed at construction: an input layer of `input_width`
//! channels plus one implicit bias channel held at 1.0, one hidden layer of
//! `hidden_width` nodes, and an output layer of `output_width` nodes. Only
//! the weight values ever change, through [`VaiNet::mutate`].
//!
//! Arithmetic is fixed point at [`SCALE`]: a neuron computes the dot product
//! of its weight row with the incoming activations (the bias channel
//! appended), rescales by `SCALE`, and clamps the result to
//! `[-A_BOUND, A_BOUND]`.

use vstd::prelude::*;

use crate::{A_BOUND, INIT_STRENGTH, MAX_WIDTH, SCALE, W_BOUND};
use crate::rng::random_in;

verus! {

pub open spec fn weight_ok(w: i64) -> bool {
    -W_BOUND <= w <= W_BOUND
}

pub open spec fn act_ok(x: i64) -> bool {
    -A_BOUND <= x <= A_BOUND
}

pub open spec fn row_wf(row: Seq<i64>, cols: int) -> bool {
    &&& row.len() == cols
    &&& forall|c: int| 0 <= c < row.len() ==> weight_ok(#[trigger] row[c])
}

pub open spec fn matrix_wf(m: Seq<Vec<i64>>, rows: int, cols: int) -> bool {
    &&& m.len() == rows
    &&& forall|r: int| 0 <= r < m.len() ==> row_wf((#[trigger] m[r])@, cols)
}

/// Saturation of a neuron value to the activation range.
pub open spec fn clamp_act_spec(x: int) -> int {
    if x < -(A_BOUND as int) {
        -(A_BOUND as int)
    } else if x > A_BOUND as int {
        A_BOUND as int
    } else {
        x
    }
}

/// Rescaling by the fixed-point unit, rounding toward zero.
pub open spec fn div_scale_spec(x: int) -> int {
    if x >= 0 {
        x / (SCALE as int)
    } else {
        -((-x) / (SCALE as int))
    }
}

/// Dot product of the first `n` entries of `row` and `acts`.
pub open spec fn dot_prefix(row: Seq<i64>, acts: Seq<i64>, n: int) -> int
    decreases n,
{
    if n <= 0 {
        0
    } else {
        dot_prefix(row, acts, n - 1) + row[n - 1] * acts[n - 1]
    }
}

/// The value one neuron produces from its weight row and the incoming
/// activations.
pub open spec fn neuron_val(row: Seq<i64>, acts: Seq<i64>) -> i64 {
    clamp_act_spec(div_scale_spec(dot_prefix(row, acts, row.len() as int))) as i64
}

/// The activation vector one layer produces.
pub open spec fn layer_vals(m: Seq<Vec<i64>>, acts: Seq<i64>) -> Seq<i64> {
    Seq::new(m.len(), |r: int| neuron_val(m[r]@, acts))
}

/// The raw input vector, saturated channel by channel to the activation
/// range, so that the forward pass is total for every input.
pub open spec fn clamped_inputs(inputs: Seq<i64>) -> Seq<i64> {
    Seq::new(inputs.len(), |i: int| clamp_act_spec(inputs[i] as int) as i64)
}

/// An activation vector with the constant bias channel (1.0) appended.
pub open spec fn with_bias(acts: Seq<i64>) -> Seq<i64> {
    acts.push(SCALE)
}

/// Every weight of `net` lies within `[-bound, bound]`.
pub open spec fn params_within(net: VaiNet, bound: i64) -> bool {
    forall|t: int, r: int, c: int|
        0 <= t < net.weights@.len() && 0 <= r < net.weights@[t]@.len() && 0 <= c
            < net.weights@[t]@[r]@.len() ==> -bound <= #[trigger] net.weights@[t]@[r]@[c] <= bound
}

/// One mutation step moved a weight from `w` to `v` by a nonzero amount
/// of magnitude at most `s` — either directly, or wrapped around the end
/// of the weight range (the apparent jump is then at least the range
/// size minus `s`).
pub open spec fn small_step(w: i64, v: i64, s: i64) -> bool {
    let m = 2 * (W_BOUND as int) + 1;
    let diff = v as int - w as int;
    &&& diff != 0
    &&& (-(s as int) <= diff <= s as int || diff >= m - (s as int) || diff <= -(m - (s as int)))
}

fn clamp_act(x: i64) -> (r: i64)
    ensures
        r as int == clamp_act_spec(x as int),
        act_ok(r),
{
    if x < -A_BOUND {
        -A_BOUND
    } else if x > A_BOUND {
        A_BOUND
    } else {
        x
    }
}

fn div_scale(x: i64) -> (r: i64)
    requires
        i64::MIN < x,
    ensures
        r as int == div_scale_spec(x as int),
{
    if x >= 0 {
        x / SCALE
    } else {
        -((-x) / SCALE)
    }
}

proof fn lemma_dot_prefix_bound(row: Seq<i64>, acts: Seq<i64>, n: int)
    requires
        0 <= n <= row.len(),
        n <= acts.len(),
        forall|c: int| 0 <= c < row.len() ==> weight_ok(#[trigger] row[c]),
        forall|c: int| 0 <= c < acts.len() ==> act_ok(#[trigger] acts[c]),
    ensures
        -(n * (W_BOUND as int) * (A_BOUND as int)) <= dot_prefix(row, acts, n) <= n * (
        W_BOUND as int) * (A_BOUND as int),
    decreases n,
{
    if n > 0 {
        lemma_dot_prefix_bound(row, acts, n - 1);
        let w = row[n - 1] as int;
        let a = acts[n - 1] as int;
        assert(-((W_BOUND as int) * (A_BOUND as int)) <= w * a <= (W_BOUND as int) * (
        A_BOUND as int)) by (nonlinear_arith)
            requires
                -(W_BOUND as int) <= w <= W_BOUND as int,
                -(A_BOUND as int) <= a <= A_BOUND as int,
        ;
        assert((n - 1) * (W_BOUND as int) * (A_BOUND as int) + (W_BOUND as int) * (A_BOUND as int)
            == n * (W_BOUND as int) * (A_BOUND as int)) by (nonlinear_arith);
    }
}

fn dot(row: &Vec<i64>, acts: &Vec<i64>) -> (r: i64)
    requires
        row@.len() == acts@.len(),
        row@.len() <= MAX_WIDTH + 1,
        forall|c: int| 0 <= c < row@.len() ==> weight_ok(#[trigger] row@[c]),
        forall|c: int| 0 <= c < acts@.len() ==> act_ok(#[trigger] acts@[c]),
    ensures
        r as int == dot_prefix(row@, acts@, row@.len() as int),
        -((MAX_WIDTH + 1) as int * (W_BOUND as int) * (A_BOUND as int)) <= r as int <= (MAX_WIDTH
            + 1) as int * (W_BOUND as int) * (A_BOUND as int),
{
    let n = row.len();
    let mut acc: i64 = 0;
    let mut j: usize = 0;
    while j < n
        invariant
            0 <= j <= n,
            n == row@.len(),
            n == acts@.len(),
            n <= MAX_WIDTH + 1,
            forall|c: int| 0 <= c < row@.len() ==> weight_ok(#[trigger] row@[c]),
            forall|c: int| 0 <= c < acts@.len() ==> act_ok(#[trigger] acts@[c]),
            acc as int == dot_prefix(row@, acts@, j as int),
            -((j as int) * (W_BOUND as int) * (A_BOUND as int)) <= acc as int <= (j as int) * (
            W_BOUND as int) * (A_BOUND as int),
        decreases n - j,
    {
        let w = row[j];
        let a = acts[j];
        proof {
            assert(-((W_BOUND as int) * (A_BOUND as int)) <= (w as int) * (a as int) <= (
            W_BOUND as int) * (A_BOUND as int)) by (nonlinear_arith)
                requires
                    -(W_BOUND as int) <= w as int <= W_BOUND as int,
                    -(A_BOUND as int) <= a as int <= A_BOUND as int,
            ;
            assert((j as int) * (W_BOUND as int) * (A_BOUND as int) + (W_BOUND as int) * (
            A_BOUND as int) == (j + 1) as int * (W_BOUND as int) * (A_BOUND as int))
                by (nonlinear_arith);
            assert((j + 1) as int * (W_BOUND as int) * (A_BOUND as int) <= (MAX_WIDTH + 1) as int
                * (W_BOUND as int) * (A_BOUND as int)) by (nonlinear_arith)
                requires
                    j + 1 <= (MAX_WIDTH + 1) as int,
            ;
        }
        acc = acc + w * a;
        j = j + 1;
    }
    proof {
        assert((n as int) * (W_BOUND as int) * (A_BOUND as int) <= (MAX_WIDTH + 1) as int * (
        W_BOUND as int) * (A_BOUND as int)) by (nonlinear_arith)
            requires
                n as int <= (MAX_WIDTH + 1) as int,
        ;
    }
    acc
}

fn layer_forward(m: &Vec<Vec<i64>>, acts: &Vec<i64>) -> (r: Vec<i64>)
    requires
        matrix_wf(m@, m@.len() as int, acts@.len() as int),
        acts@.len() <= MAX_WIDTH + 1,
        forall|c: int| 0 <= c < acts@.len() ==> act_ok(#[trigger] acts@[c]),
    ensures
        r@ == layer_vals(m@, acts@),
        r@.len() == m@.len(),
        forall|k: int| 0 <= k < r@.len() ==> act_ok(#[trigger] r@[k]),
{
    let rows = m.len();
    let mut out: Vec<i64> = Vec::new();
    let mut i: usize = 0;
    while i < rows
        invariant
            0 <= i <= rows,
            rows == m@.len(),
            matrix_wf(m@, m@.len() as int, acts@.len() as int),
            acts@.len() <= MAX_WIDTH + 1,
            forall|c: int| 0 <= c < acts@.len() ==> act_ok(#[trigger] acts@[c]),
            out@.len() == i,
            forall|k: int| 0 <= k < i ==> out@[k] == layer_vals(m@, acts@)[k],
            forall|k: int| 0 <= k < i ==> act_ok(#[trigger] out@[k]),
        decreases rows - i,
    {
        let row: &Vec<i64> = &m[i];
        let s = dot(row, acts);
        let v = clamp_act(div_scale(s));
        proof {
            assert(v == neuron_val(row@, acts@));
        }
        out.push(v);
        i = i + 1;
    }
    proof {
        assert(out@ =~= layer_vals(m@, acts@));
    }
    out
}

/// One agent's brain: a feed-forward network with a fixed shape.
///
/// `weights` holds one matrix per layer transition; the implicit bias
/// channel is folded in as the last column of each matrix, so the first
/// matrix is `hidden_width x (input_width + 1)` and the second is
/// `output_width x (hidden_width + 1)`.
pub struct VaiNet {
    pub input_width: usize,
    pub hidden_width: usize,
    pub output_width: usize,
    pub weights: Vec<Vec<Vec<i64>>>,
}

impl VaiNet {
    /// Shape invariant: established at construction, preserved by every
    /// operation; only weight values ever change.
    pub open spec fn wf(self) -> bool {
        &&& 1 <= self.input_width <= MAX_WIDTH
        &&& 1 <= self.hidden_width <= MAX_WIDTH
        &&& 1 <= self.output_width <= MAX_WIDTH
        &&& self.weights@.len() == 2
        &&& matrix_wf(self.weights@[0]@, self.hidden_width as int, self.input_width as int + 1)
        &&& matrix_wf(self.weights@[1]@, self.output_width as int, self.hidden_width as int + 1)
    }

    /// The hidden-layer activation the forward pass produces.
    pub open spec fn spec_hidden(self, inputs: Seq<i64>) -> Seq<i64> {
        layer_vals(self.weights@[0]@, with_bias(clamped_inputs(inputs)))
    }

    /// The output-layer activation the forward pass produces.
    pub open spec fn spec_output(self, inputs: Seq<i64>) -> Seq<i64> {
        layer_vals(self.weights@[1]@, with_bias(self.spec_hidden(inputs)))
    }

    /// Everything the forward pass returns: the activation of every layer,
    /// in order; the last entry is the action vector.
    pub open spec fn spec_predict(self, inputs: Seq<i64>) -> Seq<Seq<i64>> {
        seq![self.spec_hidden(inputs), self.spec_output(inputs)]
    }

    /// Two networks with the same shape and the same weight values.
    pub open spec fn same_params(self, other: VaiNet) -> bool {
        &&& self.input_width == other.input_width
        &&& self.hidden_width == other.hidden_width
        &&& self.output_width == other.output_width
        &&& self.weights@.len() == other.weights@.len()
        &&& forall|t: int|
            0 <= t < self.weights@.len() ==> (#[trigger] self.weights@[t])@.len()
                == other.weights@[t]@.len()
        &&& forall|t: int, r: int|
            0 <= t < self.weights@.len() && 0 <= r < self.weights@[t]@.len() ==> (
            #[trigger] self.weights@[t]@[r])@ == other.weights@[t]@[r]@
    }

    /// Two networks with the same shape (weight values may differ).
    pub open spec fn same_shape(self, other: VaiNet) -> bool {
        &&& self.input_width == other.input_width
        &&& self.hidden_width == other.hidden_width
        &&& self.output_width == other.output_width
        &&& self.weights@.len() == other.weights@.len()
        &&& forall|t: int|
            0 <= t < self.weights@.len() ==> (#[trigger] self.weights@[t])@.len()
                == other.weights@[t]@.len()
        &&& forall|t: int, r: int|
            0 <= t < self.weights@.len() && 0 <= r < self.weights@[t]@.len() ==> (
            #[trigger] self.weights@[t]@[r])@.len() == other.weights@[t]@[r]@.len()
    }

    /// Every single weight of `self` differs from the one at the same
    /// position in `other`.
    pub open spec fn all_params_differ(self, other: VaiNet) -> bool {
        forall|t: int, r: int, c: int|
            0 <= t < self.weights@.len() && 0 <= r < self.weights@[t]@.len() && 0 <= c
                < self.weights@[t]@[r]@.len() ==> #[trigger] self.weights@[t]@[r]@[c]
                != other.weights@[t]@[r]@[c]
    }

    /// Runs the forward pass: saturates the raw inputs, appends the
    /// constant bias channel, propagates through both layer transitions,
    /// and returns the activation of every layer, the output layer last.
    pub fn predict(&self, inputs: &Vec<i64>) -> (r: Vec<Vec<i64>>)
        requires
            self.wf(),
            inputs@.len() == self.input_width,
        ensures
            r@.len() == 2,
            r@[0]@ == self.spec_hidden(inputs@),
            r@[1]@ == self.spec_output(inputs@),
            r@[0]@.len() == self.hidden_width,
            r@[1]@.len() == self.output_width,
            forall|k: int| 0 <= k < r@[1]@.len() ==> act_ok(#[trigger] r@[1]@[k]),
    {
        let mut a0: Vec<i64> = Vec::new();
        let n = inputs.len();
        let mut i: usize = 0;
        while i < n
            invariant
                0 <= i <= n,
                n == inputs@.len(),
                a0@.len() == i,
                forall|k: int| 0 <= k < i ==> a0@[k] == clamped_inputs(inputs@)[k],
                forall|k: int| 0 <= k < i ==> act_ok(#[trigger] a0@[k]),
            decreases n - i,
        {
            let v = clamp_act(inputs[i]);
            a0.push(v);
            i = i + 1;
        }
        proof {
            assert(a0@ =~= clamped_inputs(inputs@));
        }
        a0.push(SCALE);
        proof {
            assert(a0@ =~= with_bias(clamped_inputs(inputs@)));
        }
        let w0: &Vec<Vec<i64>> = &self.weights[0];
        let h = layer_forward(w0, &a0);
        let mut h_ext: Vec<i64> = Vec::new();
        let hn = h.len();
        let mut j: usize = 0;
        while j < hn
            invariant
                0 <= j <= hn,
                hn == h@.len(),
                h_ext@.len() == j,
                forall|k: int| 0 <= k < j ==> h_ext@[k] == h@[k],
                forall|k: int| 0 <= k < h@.len() ==> act_ok(#[trigger] h@[k]),
            decreases hn - j,
        {
            let v = h[j];
            h_ext.push(v);
            j = j + 1;
        }
        h_ext.push(SCALE);
        proof {
            assert(h_ext@ =~= with_bias(h@));
        }
        let w1: &Vec<Vec<i64>> = &self.weights[1];
        let o = layer_forward(w1, &h_ext);
        let mut r: Vec<Vec<i64>> = Vec::new();
        r.push(h);
        r.push(o);
        r
    }

    /// Builds a network of the given shape with every weight drawn
    /// uniformly from the wide initial spread, so fresh brains start out
    /// very different from one another. Always succeeds.
    pub fn new(input_width: usize, hidden_width: usize, output_width: usize) -> (r: VaiNet)
        requires
            1 <= input_width <= MAX_WIDTH,
            1 <= hidden_width <= MAX_WIDTH,
            1 <= output_width <= MAX_WIDTH,
        ensures
            r.wf(),
            r.input_width == input_width,
            r.hidden_width == hidden_width,
            r.output_width == output_width,
            params_within(r, INIT_STRENGTH),
    {
        let w0 = random_matrix(hidden_width, input_width + 1);
        let w1 = random_matrix(output_width, hidden_width + 1);
        let mut weights: Vec<Vec<Vec<i64>>> = Vec::new();
        weights.push(w0);
        weights.push(w1);
        VaiNet { input_width, hidden_width, output_width, weights }
    }

    /// Perturbs every weight in place by an independent nonzero draw of
    /// magnitude at most `strength`, wrapping at the weight range so the
    /// new value always differs from the old one. The shape never changes.
    pub fn mutate(&mut self, strength: i64)
        requires
            old(self).wf(),
            1 <= strength <= W_BOUND,
        ensures
            final(self).wf(),
            final(self).same_shape(*old(self)),
            final(self).all_params_differ(*old(self)),
            forall|t: int, r: int, c: int|
                0 <= t < final(self).weights@.len() && 0 <= r < final(self).weights@[t]@.len() && 0
                    <= c < final(self).weights@[t]@[r]@.len() ==> small_step(
                    old(self).weights@[t]@[r]@[c],
                    #[trigger] final(self).weights@[t]@[r]@[c],
                    strength,
                ),
    {
        let m0 = mutate_matrix(&self.weights[0], strength);
        let m1 = mutate_matrix(&self.weights[1], strength);
        let mut weights: Vec<Vec<Vec<i64>>> = Vec::new();
        weights.push(m0);
        weights.push(m1);
        self.weights = weights;
    }

    /// Deep copy: an independent parameter set with the same shape and the
    /// same weight values, so a child can start from its parent's exact
    /// weights before mutation is applied.
    pub fn duplicate(&self) -> (r: VaiNet)
        ensures
            r.same_params(*self),
            self.wf() ==> r.wf(),
    {
        let n = self.weights.len();
        let mut weights: Vec<Vec<Vec<i64>>> = Vec::new();
        let mut t: usize = 0;
        while t < n
            invariant
                0 <= t <= n,
                n == self.weights@.len(),
                weights@.len() == t,
                forall|k: int|
                    0 <= k < t ==> (#[trigger] weights@[k])@.len() == self.weights@[k]@.len(),
                forall|k: int, r2: int|
                    0 <= k < t && 0 <= r2 < weights@[k]@.len() ==> (
                    #[trigger] weights@[k]@[r2])@ == self.weights@[k]@[r2]@,
            decreases n - t,
        {
            let m = copy_matrix(&self.weights[t]);
            weights.push(m);
            t = t + 1;
        }
        let r = VaiNet {
            input_width: self.input_width,
            hidden_width: self.hidden_width,
            output_width: self.output_width,
            weights,
        };
        proof {
            if self.wf() {
                assert(r.weights@[0]@ =~= r.weights@[0]@);
                assert(matrix_wf(r.weights@[0]@, r.hidden_width as int, r.input_width as int + 1))
                    by {
                    assert forall|rr: int| 0 <= rr < r.weights@[0]@.len() implies row_wf(
                        (#[trigger] r.weights@[0]@[rr])@,
                        r.input_width as int + 1,
                    ) by {
                        assert(r.weights@[0]@[rr]@ == self.weights@[0]@[rr]@);
                    }
                }
                assert(matrix_wf(r.weights@[1]@, r.output_width as int, r.hidden_width as int + 1))
                    by {
                    assert forall|rr: int| 0 <= rr < r.weights@[1]@.len() implies row_wf(
                        (#[trigger] r.weights@[1]@[rr])@,
                        r.hidden_width as int + 1,
                    ) by {
                        assert(r.weights@[1]@[rr]@ == self.weights@[1]@[rr]@);
                    }
                }
            }
        }
        r
    }
}

/// Networks with the same shape and the same weight values predict alike:
/// a clone taken before any mutation returns exactly its parent's
/// prediction on every input.
pub proof fn lemma_same_params_predict(a: VaiNet, b: VaiNet, inputs: Seq<i64>)
    requires
        a.wf(),
        a.same_params(b),
    ensures
        a.spec_predict(inputs) == b.spec_predict(inputs),
{
    assert(a.spec_hidden(inputs) =~= b.spec_hidden(inputs)) by {
        let acts = with_bias(clamped_inputs(inputs));
        assert forall|r: int| 0 <= r < a.weights@[0]@.len() implies layer_vals(a.weights@[0]@, acts)[
            r
        ] == layer_vals(b.weights@[0]@, acts)[r] by {
            assert(a.weights@[0]@[r]@ == b.weights@[0]@[r]@);
        }
    }
    assert(a.spec_output(inputs) =~= b.spec_output(inputs)) by {
        let acts = with_bias(a.spec_hidden(inputs));
        assert forall|r: int| 0 <= r < a.weights@[1]@.len() implies layer_vals(a.weights@[1]@, acts)[
            r
        ] == layer_vals(b.weights@[1]@, acts)[r] by {
            assert(a.weights@[1]@[r]@ == b.weights@[1]@[r]@);
        }
    }
    assert(a.spec_predict(inputs) =~= b.spec_predict(inputs));
}

fn random_row(cols: usize) -> (r: Vec<i64>)
    ensures
        row_wf(r@, cols as int),
        forall|c: int| 0 <= c < r@.len() ==> -INIT_STRENGTH <= #[trigger] r@[c] <= INIT_STRENGTH,
{
    let mut row: Vec<i64> = Vec::new();
    let mut c: usize = 0;
    while c < cols
        invariant
            0 <= c <= cols,
            row@.len() == c,
            forall|k: int| 0 <= k < c ==> weight_ok(#[trigger] row@[k]),
            forall|k: int| 0 <= k < c ==> -INIT_STRENGTH <= #[trigger] row@[k] <= INIT_STRENGTH,
        decreases cols - c,
    {
        let v = random_in(-INIT_STRENGTH, INIT_STRENGTH + 1);
        row.push(v);
        c = c + 1;
    }
    row
}

fn random_matrix(rows: usize, cols: usize) -> (m: Vec<Vec<i64>>)
    ensures
        matrix_wf(m@, rows as int, cols as int),
        forall|r: int, c: int|
            0 <= r < m@.len() && 0 <= c < m@[r]@.len() ==> -INIT_STRENGTH <= #[trigger] m@[r]@[c]
                <= INIT_STRENGTH,
{
    let mut m: Vec<Vec<i64>> = Vec::new();
    let mut r: usize = 0;
    while r < rows
        invariant
            0 <= r <= rows,
            m@.len() == r,
            forall|k: int| 0 <= k < r ==> row_wf((#[trigger] m@[k])@, cols as int),
            forall|k: int, c: int|
                0 <= k < r && 0 <= c < m@[k]@.len() ==> -INIT_STRENGTH <= #[trigger] m@[k]@[c]
                    <= INIT_STRENGTH,
        decreases rows - r,
    {
        let row = random_row(cols);
        m.push(row);
        r = r + 1;
    }
    m
}

/// Adds `d` to `w`, wrapping at the ends of the weight range; a nonzero
/// `d` therefore always lands on a different value.
fn wrap_weight(w: i64, d: i64) -> (r: i64)
    requires
        weight_ok(w),
        1 <= d <= W_BOUND || -W_BOUND <= d <= -1,
    ensures
        weight_ok(r),
        r != w,
        r as int - w as int == d as int || r as int - w as int == d as int + 2 * (W_BOUND as int)
            + 1 || r as int - w as int == d as int - 2 * (W_BOUND as int) - 1,
{
    let t = w + d;
    if t < -W_BOUND {
        t + (2 * W_BOUND + 1)
    } else if t > W_BOUND {
        t - (2 * W_BOUND + 1)
    } else {
        t
    }
}

fn mutate_row(row: &Vec<i64>, strength: i64) -> (r: Vec<i64>)
    requires
        forall|c: int| 0 <= c < row@.len() ==> weight_ok(#[trigger] row@[c]),
        1 <= strength <= W_BOUND,
    ensures
        r@.len() == row@.len(),
        forall|c: int| 0 <= c < r@.len() ==> weight_ok(#[trigger] r@[c]),
        forall|c: int| 0 <= c < r@.len() ==> #[trigger] r@[c] != row@[c],
        forall|c: int| 0 <= c < r@.len() ==> small_step(row@[c], #[trigger] r@[c], strength),
{
    let n = row.len();
    let mut out: Vec<i64> = Vec::new();
    let mut c: usize = 0;
    while c < n
        invariant
            0 <= c <= n,
            n == row@.len(),
            1 <= strength <= W_BOUND,
            forall|k: int| 0 <= k < row@.len() ==> weight_ok(#[trigger] row@[k]),
            out@.len() == c,
            forall|k: int| 0 <= k < c ==> weight_ok(#[trigger] out@[k]),
            forall|k: int| 0 <= k < c ==> #[trigger] out@[k] != row@[k],
            forall|k: int| 0 <= k < c ==> small_step(row@[k], #[trigger] out@[k], strength),
        decreases n - c,
    {
        let mag = random_in(1, strength + 1);
        let sgn = random_in(0, 2);
        let d = if sgn == 0 {
            -mag
        } else {
            mag
        };
        let v = wrap_weight(row[c], d);
        out.push(v);
        c = c + 1;
    }
    out
}

fn mutate_matrix(m: &Vec<Vec<i64>>, strength: i64) -> (r: Vec<Vec<i64>>)
    requires
        forall|k: int| 0 <= k < m@.len() ==> forall|c: int|
            0 <= c < (#[trigger] m@[k])@.len() ==> weight_ok(#[trigger] m@[k]@[c]),
        1 <= strength <= W_BOUND,
    ensures
        r@.len() == m@.len(),
        forall|k: int| 0 <= k < r@.len() ==> (#[trigger] r@[k])@.len() == m@[k]@.len(),
        forall|k: int| 0 <= k < r@.len() ==> forall|c: int|
            0 <= c < (#[trigger] r@[k])@.len() ==> weight_ok(#[trigger] r@[k]@[c]),
        forall|k: int, c: int|
            0 <= k < r@.len() && 0 <= c < r@[k]@.len() ==> #[trigger] r@[k]@[c] != m@[k]@[c],
        forall|k: int, c: int|
            0 <= k < r@.len() && 0 <= c < r@[k]@.len() ==> small_step(
                m@[k]@[c],
                #[trigger] r@[k]@[c],
                strength,
            ),
    {
    let n = m.len();
    let mut out: Vec<Vec<i64>> = Vec::new();
    let mut k: usize = 0;
    while k < n
        invariant
            0 <= k <= n,
            n == m@.len(),
            1 <= strength <= W_BOUND,
            forall|j: int| 0 <= j < m@.len() ==> forall|c: int|
                0 <= c < (#[trigger] m@[j])@.len() ==> weight_ok(#[trigger] m@[j]@[c]),
            out@.len() == k,
            forall|j: int| 0 <= j < k ==> (#[trigger] out@[j])@.len() == m@[j]@.len(),
            forall|j: int| 0 <= j < k ==> forall|c: int|
                0 <= c < (#[trigger] out@[j])@.len() ==> weight_ok(#[trigger] out@[j]@[c]),
            forall|j: int, c: int|
                0 <= j < k && 0 <= c < out@[j]@.len() ==> #[trigger] out@[j]@[c] != m@[j]@[c],
            forall|j: int, c: int|
                0 <= j < k && 0 <= c < out@[j]@.len() ==> small_step(
                    m@[j]@[c],
                    #[trigger] out@[j]@[c],
                    strength,
                ),
        decreases n - k,
    {
        let row = mutate_row(&m[k], strength);
        out.push(row);
        k = k + 1;
    }
    out
}

fn copy_row(row: &Vec<i64>) -> (r: Vec<i64>)
    ensures
        r@ == row@,
{
    let n = row.len();
    let mut out: Vec<i64> = Vec::new();
    let mut c: usize = 0;
    while c < n
        invariant
            0 <= c <= n,
            n == row@.len(),
            out@.len() == c,
            forall|k: int| 0 <= k < c ==> out@[k] == row@[k],
        decreases n - c,
    {
        let v = row[c];
        out.push(v);
        c = c + 1;
    }
    proof {
        assert(out@ =~= row@);
    }
    out
}

fn copy_matrix(m: &Vec<Vec<i64>>) -> (r: Vec<Vec<i64>>)
    ensures
        r@.len() == m@.len(),
        forall|k: int| 0 <= k < r@.len() ==> (#[trigger] r@[k])@ == m@[k]@,
{
    let n = m.len();
    let mut out: Vec<Vec<i64>> = Vec::new();
    let mut k: usize = 0;
    while k < n
        invariant
            0 <= k <= n,
            n == m@.len(),
            out@.len() == k,
            forall|j: int| 0 <= j < k ==> (#[trigger] out@[j])@ == m@[j]@,
        decreases n - k,
    {
        let row = copy_row(&m[k]);
        out.push(row);
        k = k + 1;
    }
    out
}

} // verus!
