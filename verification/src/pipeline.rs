//! One composite request's linear state machine, from staged layers to
//! the decoded image, with every transition's outcome judged here.

use vstd::prelude::*;

use crate::codec::spec_unpacked_bytes;
use crate::codec::unpack_pixels;
use crate::dispatch::DispatchDescriptor;
use crate::dispatch::spec_arg_bindings;
use crate::error::CompositeError;
use crate::stage::Layer;
use crate::stage::flatten_layers;
use crate::stage::layer_views;
use crate::stage::layers_match;

verus! {

// One composite request runs through the strictly linear state machine
// Built -> Uploaded -> Dispatched -> ReadBack -> Decoded. The device work
// between two states — allocating and populating buffers, binding the
// kernel arguments, the one synchronous launch, the blocking readback —
// is performed by the embedding program against the device runtime; each
// of its outcomes is reported back here, and the transition functions
// below decide, for every outcome, whether the request advances or
// terminates with the failure kind of that stage. No failure is retried
// and no partial result survives.

/// One composite request after staging (the `Built` state): the flattened
/// input buffer, holding the layers' pixels concatenated in layer order,
/// and the descriptor it was built against.
pub struct StagedComposite {
    buffer: Vec<u32>,
    desc: DispatchDescriptor,
}

impl StagedComposite {
    /// The request's dispatch descriptor.
    pub closed spec fn spec_desc(self) -> DispatchDescriptor {
        self.desc
    }

    /// The flattened input buffer.
    pub closed spec fn spec_buffer(self) -> Seq<u32> {
        self.buffer@
    }

    /// Well-formed: the descriptor is, and the buffer holds exactly
    /// width-times-height packed values per layer.
    pub open spec fn wf(self) -> bool {
        &&& self.spec_desc().wf()
        &&& self.spec_buffer().len() == self.spec_desc().input_len()
    }

    /// The request's dispatch descriptor.
    pub fn descriptor(&self) -> (d: DispatchDescriptor)
        ensures
            d == self.spec_desc(),
    {
        self.desc
    }

    /// Borrow the flattened input buffer, for the upload.
    pub fn buffer(&self) -> (b: &Vec<u32>)
        ensures
            b@ == self.spec_buffer(),
    {
        &self.buffer
    }

    /// Step the request past upload. The embedding program reports whether
    /// the device accepted the read-only input allocation, populated with
    /// the staged buffer, and the one-value-per-location output allocation.
    /// Either refusal surfaces as `AllocationFailure`, terminal for the
    /// request; the staged buffer is discarded either way, as the device
    /// now holds the pixels.
    pub fn after_upload(self, input_ok: bool, output_ok: bool) -> (r: Result<
        UploadedComposite,
        CompositeError,
    >)
        requires
            self.wf(),
        ensures
            r matches Ok(u) ==> input_ok && output_ok && u.wf() && u.spec_desc()
                == self.spec_desc(),
            r matches Err(e) ==> e == CompositeError::AllocationFailure && !(input_ok
                && output_ok),
    {
        if input_ok && output_ok {
            Ok(UploadedComposite { desc: self.desc })
        } else {
            Err(CompositeError::AllocationFailure)
        }
    }
}

/// Stage one composite request: check that every layer holds exactly
/// width-times-height packed pixels and concatenate them, in the given
/// order, into the flattened input buffer. Rejects the request with
/// `ShapeMismatch`, staging nothing, exactly when some layer's pixel count
/// differs from width-times-height.
pub fn stage(layers: &Vec<Layer>, width: u32, height: u32) -> (r: Result<
    StagedComposite,
    CompositeError,
>)
    requires
        width >= 1,
        height >= 1,
        1 <= layers@.len() <= u32::MAX,
        (width * height) * layers@.len() <= usize::MAX,
        4 * (width * height) <= usize::MAX,
    ensures
        r matches Ok(s) ==> {
            &&& s.wf()
            &&& s.spec_desc() == (DispatchDescriptor {
                width,
                height,
                layer_count: layers@.len() as u32,
            })
            &&& s.spec_buffer() == layer_views(layers@).flatten()
            &&& layers_match(layer_views(layers@), width, height)
        },
        r matches Err(e) ==> e == CompositeError::ShapeMismatch && !layers_match(
            layer_views(layers@),
            width,
            height,
        ),
{
    proof {
        assert((width * height) <= (width * height) * layers@.len()) by (nonlinear_arith)
            requires
                layers@.len() >= 1,
        ;
    }
    let buffer = match flatten_layers(layers, width, height) {
        Ok(b) => b,
        Err(e) => {
            return Err(e);
        },
    };
    let desc = DispatchDescriptor { width, height, layer_count: layers.len() as u32 };
    Ok(StagedComposite { buffer, desc })
}

/// One composite request whose buffers are resident on the device (the
/// `Uploaded` state): only the descriptor remains host-side.
pub struct UploadedComposite {
    desc: DispatchDescriptor,
}

impl UploadedComposite {
    /// The request's dispatch descriptor.
    pub closed spec fn spec_desc(self) -> DispatchDescriptor {
        self.desc
    }

    /// Well-formed: the descriptor is.
    pub open spec fn wf(self) -> bool {
        self.spec_desc().wf()
    }

    /// The request's dispatch descriptor, for binding the kernel's
    /// arguments from its plan and sizing the dispatch.
    pub fn descriptor(&self) -> (d: DispatchDescriptor)
        ensures
            d == self.spec_desc(),
    {
        self.desc
    }

    /// The host-side check owed before dispatch: the device input buffer
    /// must hold exactly one value per pixel per layer and the output
    /// buffer one value per spatial location, since a dispatch over
    /// wrongly sized buffers is undefined at the device level.
    pub fn ready_to_dispatch(&self, input_len: usize, output_len: usize) -> (ok: bool)
        requires
            self.wf(),
        ensures
            ok <==> input_len == self.spec_desc().input_len() && output_len
                == self.spec_desc().output_len(),
    {
        proof {
            self.desc.lemma_output_fits();
        }
        let out = self.desc.output_count();
        let expected_input = out * (self.desc.layer_count as usize);
        input_len == expected_input && output_len == out
    }

    /// Step the request past its dispatch. The embedding program reports
    /// whether the five arguments were bound and whether the one
    /// synchronous launch was accepted. Either rejection surfaces as
    /// `DispatchFailure`, terminal for the request: no partial result is
    /// usable.
    pub fn after_dispatch(self, bound: bool, launched: bool) -> (r: Result<
        DispatchedComposite,
        CompositeError,
    >)
        requires
            self.wf(),
        ensures
            r matches Ok(d) ==> bound && launched && d.wf() && d.spec_desc() == self.spec_desc(),
            r matches Err(e) ==> e == CompositeError::DispatchFailure && !(bound && launched),
    {
        if bound && launched {
            Ok(DispatchedComposite { desc: self.desc })
        } else {
            Err(CompositeError::DispatchFailure)
        }
    }
}

/// One composite request whose kernel invocation completed (the
/// `Dispatched` state): the composited pixels await readback.
pub struct DispatchedComposite {
    desc: DispatchDescriptor,
}

impl DispatchedComposite {
    /// The request's dispatch descriptor.
    pub closed spec fn spec_desc(self) -> DispatchDescriptor {
        self.desc
    }

    /// Well-formed: the descriptor is.
    pub open spec fn wf(self) -> bool {
        self.spec_desc().wf()
    }

    /// The request's dispatch descriptor, for sizing the readback.
    pub fn descriptor(&self) -> (d: DispatchDescriptor)
        ensures
            d == self.spec_desc(),
    {
        self.desc
    }

    /// Accept the blocking device-to-host transfer of the output buffer.
    /// The transfer must have completed and delivered exactly
    /// width-times-height packed values; anything else surfaces as
    /// `ReadbackFailure`, terminal for the request.
    pub fn accept_readback(self, transferred: bool, pixels: Vec<u32>) -> (r: Result<
        ReadBackComposite,
        CompositeError,
    >)
        requires
            self.wf(),
        ensures
            r matches Ok(rb) ==> {
                &&& transferred
                &&& pixels@.len() == self.spec_desc().output_len()
                &&& rb.wf()
                &&& rb.spec_desc() == self.spec_desc()
                &&& rb.spec_pixels() == pixels@
            },
            r matches Err(e) ==> e == CompositeError::ReadbackFailure && !(transferred
                && pixels@.len() == self.spec_desc().output_len()),
    {
        proof {
            self.desc.lemma_output_fits();
        }
        let expected = self.desc.output_count();
        if transferred && pixels.len() == expected {
            Ok(ReadBackComposite { pixels, desc: self.desc })
        } else {
            Err(CompositeError::ReadbackFailure)
        }
    }
}

/// One composite request after readback (the `ReadBack` state): the
/// composited output buffer, one packed value per spatial location, back
/// in host memory.
pub struct ReadBackComposite {
    pixels: Vec<u32>,
    desc: DispatchDescriptor,
}

impl ReadBackComposite {
    /// The request's dispatch descriptor.
    pub closed spec fn spec_desc(self) -> DispatchDescriptor {
        self.desc
    }

    /// The composited packed pixels, as the device wrote them.
    pub closed spec fn spec_pixels(self) -> Seq<u32> {
        self.pixels@
    }

    /// Well-formed: the descriptor is, and the output buffer holds exactly
    /// one packed value per spatial location.
    pub open spec fn wf(self) -> bool {
        &&& self.spec_desc().wf()
        &&& self.spec_pixels().len() == self.spec_desc().output_len()
    }

    /// The request's dispatch descriptor.
    pub fn descriptor(&self) -> (d: DispatchDescriptor)
        ensures
            d == self.spec_desc(),
    {
        self.desc
    }

    /// Borrow the composited packed pixels.
    pub fn pixels(&self) -> (p: &Vec<u32>)
        ensures
            p@ == self.spec_pixels(),
    {
        &self.pixels
    }

    /// Decode the output buffer into the final image's raw
    /// channel-interleaved byte sequence (the `Decoded` state): four bytes
    /// per spatial location, in R, G, B, A order.
    pub fn decode(&self) -> (bytes: Vec<u8>)
        requires
            self.wf(),
        ensures
            bytes@ == spec_unpacked_bytes(self.spec_pixels()),
            bytes@.len() == 4 * self.spec_desc().output_len(),
    {
        unpack_pixels(&self.pixels)
    }
}

/// Buffer sizing invariant: any staged request's flattened input buffer
/// holds exactly width-times-height-times-layer-count packed values, and
/// any read-back output buffer exactly width-times-height.
pub proof fn lemma_buffer_sizing(s: StagedComposite, rb: ReadBackComposite)
    requires
        s.wf(),
        rb.wf(),
    ensures
        s.spec_buffer().len() == (s.spec_desc().width * s.spec_desc().height)
            * s.spec_desc().layer_count,
        rb.spec_pixels().len() == rb.spec_desc().width * rb.spec_desc().height,
{
}

/// Determinism of the host orchestration: staging is a function of the
/// layers alone, argument binding a function of the descriptor alone, and
/// decoding a function of the readback contents alone, so repeated
/// composite requests from identical inputs and a fixed kernel differ
/// only where the device itself does.
pub proof fn lemma_host_orchestration_deterministic(
    layers_a: Seq<Seq<u32>>,
    layers_b: Seq<Seq<u32>>,
    desc_a: DispatchDescriptor,
    desc_b: DispatchDescriptor,
    readback_a: Seq<u32>,
    readback_b: Seq<u32>,
)
    requires
        layers_a == layers_b,
        desc_a == desc_b,
        readback_a == readback_b,
    ensures
        layers_a.flatten() == layers_b.flatten(),
        spec_arg_bindings(desc_a) == spec_arg_bindings(desc_b),
        spec_unpacked_bytes(readback_a) == spec_unpacked_bytes(readback_b),
{
}

} // verus!
