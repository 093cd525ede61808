use vstd::prelude::*;

verus! {

/// Valid layer sizes: at least an input and an output layer, every layer
/// holding at least one unit.
pub open spec fn valid_layer_sizes(sizes: Seq<usize>) -> bool {
    sizes.len() >= 2 && forall|i: int| 0 <= i < sizes.len() ==> #[trigger] sizes[i] > 0
}

/// A malformed `layer_sizes` argument, rejected before any parameter is drawn.
#[derive(Clone, Copy, Debug, PartialEq, Eq)]
pub enum ShapeError {
    /// Fewer than two layers: no transition exists.
    TooFewLayers,
    /// Some layer has zero units.
    EmptyLayer,
}

/// The architecture of a fully-connected network: the ordered layer sizes.
/// `sizes[0]` is the input dimensionality, the last entry the output
/// dimensionality; transition `i` maps layer `i` to layer `i + 1`.
#[derive(Debug)]
pub struct NetworkShape {
    sizes: Vec<usize>,
}

impl View for NetworkShape {
    type V = Seq<usize>;

    closed spec fn view(&self) -> Seq<usize> {
        self.sizes@
    }
}

/// A matrix shape: (rows, columns).  A column vector of length n is (n, 1).
/// The executable operators below carry the conformability rules of matrix
/// arithmetic in their contracts, so every verified caller shows that its
/// operands line up.
pub fn dot_dims(a: (usize, usize), b: (usize, usize)) -> (r: (usize, usize))
    requires
        a.1 == b.0,
    ensures
        r == (a.0, b.1),
{
    (a.0, b.1)
}

/// Shape of a transposed matrix.
pub fn transpose_dims(a: (usize, usize)) -> (r: (usize, usize))
    ensures
        r == (a.1, a.0),
{
    (a.1, a.0)
}

/// Shape of an element-wise function application, such as the sigmoid
/// nonlinearity or its derivative: the shape is unchanged.
pub fn map_dims(a: (usize, usize)) -> (r: (usize, usize))
    ensures
        r == a,
{
    a
}

/// Shape of an element-wise combination (sum, difference or Hadamard
/// product), defined only on operands of one shape.
pub fn elemwise_dims(a: (usize, usize), b: (usize, usize)) -> (r: (usize, usize))
    requires
        a == b,
    ensures
        r == a,
{
    a
}

impl NetworkShape {
    /// The shape invariant of the whole parameter set.
    pub open spec fn wf(&self) -> bool {
        valid_layer_sizes(self@)
    }

    /// Number of layer transitions; the network owns one weight matrix and
    /// one bias vector per transition.
    pub open spec fn spec_num_transitions(&self) -> int {
        self@.len() - 1
    }

    /// Validates the layer sizes: accepted exactly when there are at least
    /// two layers, all nonempty.  Too few layers is reported first.
    pub fn new(sizes: Vec<usize>) -> (r: Result<NetworkShape, ShapeError>)
        ensures
            r is Ok <==> valid_layer_sizes(sizes@),
            r matches Ok(s) ==> s@ == sizes@ && s.wf(),
            r == Err::<NetworkShape, ShapeError>(ShapeError::TooFewLayers) <==> sizes@.len() < 2,
            r == Err::<NetworkShape, ShapeError>(ShapeError::EmptyLayer)
                <==> sizes@.len() >= 2 && !valid_layer_sizes(sizes@),
    {
        if sizes.len() < 2 {
            return Err(ShapeError::TooFewLayers);
        }
        let mut i: usize = 0;
        while i < sizes.len()
            invariant
                sizes@.len() >= 2,
                i <= sizes@.len(),
                forall|k: int| 0 <= k < i ==> #[trigger] sizes@[k] > 0,
            decreases sizes@.len() - i,
        {
            if sizes[i] == 0 {
                return Err(ShapeError::EmptyLayer);
            }
            i += 1;
        }
        Ok(NetworkShape { sizes })
    }

    /// Input dimensionality of the network.
    pub fn input_size(&self) -> (n: usize)
        requires
            self.wf(),
        ensures
            n == self@[0],
    {
        self.sizes[0]
    }

    /// Output dimensionality of the network.
    pub fn output_size(&self) -> (n: usize)
        requires
            self.wf(),
        ensures
            n == self@[self@.len() - 1],
    {
        self.sizes[self.sizes.len() - 1]
    }

    /// Number of layers.
    pub fn num_layers(&self) -> (n: usize)
        ensures
            n == self@.len(),
    {
        self.sizes.len()
    }

    /// Size of layer `i`.
    pub fn layer_size(&self, i: usize) -> (n: usize)
        requires
            i < self@.len(),
        ensures
            n == self@[i as int],
    {
        self.sizes[i]
    }

    /// Shapes of the weight matrices that initialization must draw: the
    /// matrix of transition `i` has one row per unit of layer `i + 1` and one
    /// column per unit of layer `i`.
    pub fn weight_dims(&self) -> (r: Vec<(usize, usize)>)
        requires
            self.wf(),
        ensures
            r@.len() == self.spec_num_transitions(),
            forall|i: int| 0 <= i < r@.len() ==> #[trigger] r@[i] == (self@[i + 1], self@[i]),
    {
        let mut r: Vec<(usize, usize)> = Vec::new();
        let mut i: usize = 0;
        while i < self.sizes.len() - 1
            invariant
                self.wf(),
                i <= self@.len() - 1,
                r@.len() == i,
                forall|k: int| 0 <= k < i ==> #[trigger] r@[k] == (self@[k + 1], self@[k]),
            decreases self@.len() - i,
        {
            r.push((self.sizes[i + 1], self.sizes[i]));
            i += 1;
        }
        r
    }

    /// Shapes of the bias vectors that initialization must draw: the bias of
    /// transition `i` is a column vector with one row per unit of layer
    /// `i + 1`.
    pub fn bias_dims(&self) -> (r: Vec<(usize, usize)>)
        requires
            self.wf(),
        ensures
            r@.len() == self.spec_num_transitions(),
            forall|i: int| 0 <= i < r@.len() ==> #[trigger] r@[i] == (self@[i + 1], 1usize),
    {
        let mut r: Vec<(usize, usize)> = Vec::new();
        let mut i: usize = 0;
        while i < self.sizes.len() - 1
            invariant
                self.wf(),
                i <= self@.len() - 1,
                r@.len() == i,
                forall|k: int| 0 <= k < i ==> #[trigger] r@[k] == (self@[k + 1], 1usize),
            decreases self@.len() - i,
        {
            r.push((self.sizes[i + 1], 1));
            i += 1;
        }
        r
    }

    /// Shape-level run of one forward pass: an input column vector of the
    /// network's input dimensionality goes through one matrix product, bias
    /// addition and nonlinearity per transition, and comes out with the
    /// output dimensionality.
    #[verifier::loop_isolation(false)]
    pub fn feedforward_dims(&self, input: (usize, usize)) -> (r: (usize, usize))
        requires
            self.wf(),
            input == (self@[0], 1usize),
        ensures
            r == (self@[self@.len() - 1], 1usize),
    {
        let ws = self.weight_dims();
        let bs = self.bias_dims();
        let mut activation = input;
        let mut t: usize = 0;
        while t < ws.len()
            invariant
                t <= ws@.len(),
                activation == (self@[t as int], 1usize),
            decreases ws@.len() - t,
        {
            activation = map_dims(elemwise_dims(dot_dims(ws[t], activation), bs[t]));
            t += 1;
        }
        activation
    }

    /// Shape-level run of one backpropagation call, written as the algorithm
    /// runs it: a traced forward pass, the output-layer error, then an
    /// explicit reverse walk over the transitions whose per-step results are
    /// collected and turned back into forward order.  Every matrix product
    /// and element-wise combination goes through the shape operators above,
    /// so verifying this function shows that the layer indexing is
    /// conformable at each step; the contract shows that the gradient comes
    /// out with exactly the shapes of the weights and biases.
    #[verifier::loop_isolation(false)]
    pub fn backprop_dims(&self) -> (r: (Vec<(usize, usize)>, Vec<(usize, usize)>))
        requires
            self.wf(),
        ensures
            r.0@.len() == self.spec_num_transitions(),
            r.1@.len() == self.spec_num_transitions(),
            forall|i: int| 0 <= i < r.0@.len() ==> #[trigger] r.0@[i] == (self@[i + 1], 1usize),
            forall|i: int| 0 <= i < r.1@.len() ==> #[trigger] r.1@[i] == (self@[i + 1], self@[i]),
    {
        let ws = self.weight_dims();
        let bs = self.bias_dims();
        let lm1 = self.sizes.len() - 1;

        // Traced forward pass: activations[k] is the layer-k activation
        // shape, zs[k] the pre-activation shape of transition k.
        let mut activation: (usize, usize) = (self.sizes[0], 1);
        let mut activations: Vec<(usize, usize)> = Vec::new();
        activations.push(activation);
        let mut zs: Vec<(usize, usize)> = Vec::new();
        let mut t: usize = 0;
        while t < lm1
            invariant
                t <= lm1,
                activation == (self@[t as int], 1usize),
                activations@.len() == t + 1,
                forall|k: int| 0 <= k <= t ==> #[trigger] activations@[k] == (self@[k], 1usize),
                zs@.len() == t,
                forall|k: int| 0 <= k < t ==> #[trigger] zs@[k] == (self@[k + 1], 1usize),
            decreases lm1 - t,
        {
            let z = elemwise_dims(dot_dims(ws[t], activation), bs[t]);
            zs.push(z);
            activation = map_dims(z);
            activations.push(activation);
            t += 1;
        }

        // Output-layer error: delta = (a_last - target) ⊙ sigmoid'(z_last).
        let target: (usize, usize) = (self.sizes[lm1], 1);
        let mut delta = elemwise_dims(elemwise_dims(activations[lm1], target), map_dims(zs[lm1 - 1]));
        let mut nb_rev: Vec<(usize, usize)> = Vec::new();
        let mut nw_rev: Vec<(usize, usize)> = Vec::new();
        nb_rev.push(delta);
        nw_rev.push(dot_dims(delta, transpose_dims(activations[lm1 - 1])));

        // Reverse walk from the second-to-last transition down to the first:
        // delta = (weights[t + 1]^T · delta) ⊙ sigmoid'(zs[t]).
        let mut t: usize = lm1 - 1;
        while t > 0
            invariant
                t <= lm1 - 1,
                delta == (self@[t + 1], 1usize),
                nb_rev@.len() == lm1 - t,
                nw_rev@.len() == lm1 - t,
                forall|k: int| 0 <= k < nb_rev@.len()
                    ==> #[trigger] nb_rev@[k] == (self@[lm1 - k], 1usize),
                forall|k: int| 0 <= k < nw_rev@.len()
                    ==> #[trigger] nw_rev@[k] == (self@[lm1 - k], self@[lm1 - 1 - k]),
            decreases t,
        {
            t -= 1;
            delta = elemwise_dims(dot_dims(transpose_dims(ws[t + 1]), delta), map_dims(zs[t]));
            nb_rev.push(delta);
            nw_rev.push(dot_dims(delta, transpose_dims(activations[t])));
        }

        // The per-transition results were collected from the output backward;
        // hand them out as plain forward lists.
        let mut nabla_b: Vec<(usize, usize)> = Vec::new();
        let mut nabla_w: Vec<(usize, usize)> = Vec::new();
        let mut k: usize = 0;
        while k < lm1
            invariant
                k <= lm1,
                nabla_b@.len() == k,
                nabla_w@.len() == k,
                forall|j: int| 0 <= j < k ==> #[trigger] nabla_b@[j] == (self@[j + 1], 1usize),
                forall|j: int| 0 <= j < k ==> #[trigger] nabla_w@[j] == (self@[j + 1], self@[j]),
            decreases lm1 - k,
        {
            nabla_b.push(nb_rev[lm1 - 1 - k]);
            nabla_w.push(nw_rev[lm1 - 1 - k]);
            k += 1;
        }
        (nabla_b, nabla_w)
    }
}

} // verus!
