use vstd::prelude::*;

use crate::com::{spec_msb, spec_zero, Com};

verus! {

/// A rectifier layer: componentwise, negative values are zeroed and
/// non-negative ones pass through.
#[derive(Clone, Copy, Debug)]
pub struct ReLULayer {}

/// A "share" of a rectifier layer: it holds no material, as the layer's
/// interactive evaluation rests on DReLU and BitXA keys dealt per
/// invocation.
#[derive(Clone, Copy, Debug)]
pub struct ReLULayerShare {}

/// The rectifier on one scalar: zero when the sign bit is set, the value
/// itself otherwise (zero maps to itself either way).
pub open spec fn spec_relu(c: Com) -> Com {
    if spec_msb(c) {
        spec_zero()
    } else {
        c
    }
}

/// The rectifier on a tensor.
pub open spec fn spec_relu_eval(x: Seq<Com>) -> Seq<Com> {
    Seq::new(x.len(), |i: int| spec_relu(x[i]))
}

impl ReLULayer {
    /// Evaluates the rectifier in plaintext.
    pub fn infer_locally(&self, input: &Vec<Com>) -> (r: Vec<Com>)
        ensures
            r@ == spec_relu_eval(input@),
            r@.len() == input@.len(),
    {
        let n = input.len();
        let mut out: Vec<Com> = Vec::new();
        let mut i: usize = 0;
        while i < n
            invariant
                n == input@.len(),
                0 <= i <= n,
                out@.len() == i,
                forall|k: int| 0 <= k < i ==> out@[k] == spec_relu(input@[k]),
            decreases n - i,
        {
            let v = if crate::com::get_msb(input[i]) {
                Com { raw: 0 }
            } else {
                input[i]
            };
            out.push(v);
            i += 1;
        }
        assert(out@ =~= spec_relu_eval(input@));
        out
    }

    /// Splits the layer: there is no material to share.
    pub fn split(&self) -> (r: (ReLULayerShare, ReLULayerShare)) {
        (ReLULayerShare {}, ReLULayerShare {})
    }
}

} // verus!
