//! The kernel dispatcher's plan: the descriptor a composite request is
//! sized by, the fixed positional order its five kernel arguments are
//! bound in, and the 2D global work size of its one dispatch.

use vstd::prelude::*;

verus! {

/// The scalar parameters of one composite request: the shared width and
/// height of every layer and the number of layers. The same triple sizes
/// the flattened input buffer, sizes the output buffer, and is passed as
/// the kernel's three scalar arguments, so the dimensions used to build the
/// buffers and the ones the kernel sees cannot drift apart.
#[derive(Clone, Copy, Debug, PartialEq, Eq, Structural)]
pub struct DispatchDescriptor {
    pub width: u32,
    pub height: u32,
    pub layer_count: u32,
}

/// One argument slot of the compositing kernel.
#[derive(Clone, Copy, Debug, PartialEq, Eq, Structural)]
pub enum KernelArg {
    /// The read-only flattened input buffer.
    InputBuffer,
    /// The writable output buffer.
    OutputBuffer,
    /// One scalar dimension value.
    Scalar(u32),
}

/// The fixed positional argument order of the compositing kernel: input
/// buffer, output buffer, width, height, layer count.
pub open spec fn spec_arg_bindings(desc: DispatchDescriptor) -> Seq<KernelArg> {
    seq![
        KernelArg::InputBuffer,
        KernelArg::OutputBuffer,
        KernelArg::Scalar(desc.width),
        KernelArg::Scalar(desc.height),
        KernelArg::Scalar(desc.layer_count),
    ]
}

impl DispatchDescriptor {
    /// All three dimensions are positive, and both the flattened input
    /// buffer and the decoded four-bytes-per-pixel image they call for fit
    /// in host memory.
    pub open spec fn wf(self) -> bool {
        &&& self.width >= 1
        &&& self.height >= 1
        &&& self.layer_count >= 1
        &&& (self.width * self.height) * self.layer_count <= usize::MAX
        &&& 4 * (self.width * self.height) <= usize::MAX
    }

    /// Element count of the flattened input buffer: one packed value per
    /// pixel per layer.
    pub open spec fn input_len(self) -> int {
        (self.width * self.height) * self.layer_count
    }

    /// Element count of the output buffer: one packed value per spatial
    /// location.
    pub open spec fn output_len(self) -> int {
        self.width * self.height
    }

    /// A well-formed descriptor's output buffer also fits in host memory.
    pub proof fn lemma_output_fits(self)
        requires
            self.wf(),
        ensures
            0 < self.output_len() <= self.input_len() <= usize::MAX,
    {
        assert(0 < self.width * self.height <= (self.width * self.height) * self.layer_count)
            by (nonlinear_arith)
            requires
                self.width >= 1 && self.height >= 1 && self.layer_count >= 1,
        ;
    }

    /// The number of output pixels, width times height.
    pub fn output_count(&self) -> (n: usize)
        requires
            self.wf(),
        ensures
            n == self.output_len(),
    {
        proof {
            self.lemma_output_fits();
        }
        (self.width as usize) * (self.height as usize)
    }

    /// The argument bindings of one dispatch, in the fixed positional
    /// order input buffer, output buffer, width, height, layer count —
    /// however the request's configuration ordered the values.
    pub fn arg_bindings(&self) -> (v: Vec<KernelArg>)
        ensures
            v@ == spec_arg_bindings(*self),
    {
        let mut v: Vec<KernelArg> = Vec::new();
        v.push(KernelArg::InputBuffer);
        v.push(KernelArg::OutputBuffer);
        v.push(KernelArg::Scalar(self.width));
        v.push(KernelArg::Scalar(self.height));
        v.push(KernelArg::Scalar(self.layer_count));
        assert(v@ =~= spec_arg_bindings(*self));
        v
    }

    /// The 2D global work size of one dispatch: exactly one work item per
    /// spatial location, (width, height).
    pub fn global_work_size(&self) -> (d: (u32, u32))
        ensures
            d == (self.width, self.height),
    {
        (self.width, self.height)
    }
}

} // verus!
