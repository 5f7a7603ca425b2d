//! The layer stage builder: turns N logical layers, each width-by-height
//! packed pixels, into one flattened device-ready input buffer with the
//! layers' data concatenated in layer order.

use vstd::prelude::*;

use crate::error::CompositeError;

verus! {

/// One logical image plane of packed pixels to be composited. A layer is
/// immutable once constructed; whether its pixel count fits a request's
/// width and height is checked when the request is staged.
pub struct Layer {
    pixels: Vec<u32>,
}

impl View for Layer {
    type V = Seq<u32>;

    closed spec fn view(&self) -> Seq<u32> {
        self.pixels@
    }
}

impl Layer {
    /// Wrap a buffer of packed pixels as one layer.
    pub fn new(pixels: Vec<u32>) -> (l: Layer)
        ensures
            l@ == pixels@,
    {
        Layer { pixels }
    }

    /// A width-by-height layer filled uniformly with one packed value.
    pub fn filled(width: u32, height: u32, value: u32) -> (l: Layer)
        requires
            width * height <= usize::MAX,
        ensures
            l@.len() == width * height,
            forall|i: int| 0 <= i < l@.len() ==> l@[i] == value,
    {
        let target: usize = (width as usize) * (height as usize);
        let mut pixels: Vec<u32> = Vec::new();
        let mut i: usize = 0;
        while i < target
            invariant
                i <= target,
                pixels@.len() == i,
                forall|j: int| 0 <= j < i ==> pixels@[j] == value,
            decreases target - i,
        {
            pixels.push(value);
            i = i + 1;
        }
        Layer { pixels }
    }

    /// How many packed pixels the layer holds.
    pub fn pixel_count(&self) -> (n: usize)
        ensures
            n == self@.len(),
    {
        self.pixels.len()
    }

    /// The packed pixel at index `i`.
    pub fn pixel(&self, i: usize) -> (p: u32)
        requires
            i < self@.len(),
        ensures
            p == self@[i as int],
    {
        self.pixels[i]
    }
}

/// The pixel sequences of a sequence of layers, in layer order.
pub open spec fn layer_views(layers: Seq<Layer>) -> Seq<Seq<u32>> {
    layers.map_values(|l: Layer| l@)
}

/// Every layer holds exactly width-times-height pixels.
pub open spec fn layers_match(views: Seq<Seq<u32>>, width: u32, height: u32) -> bool {
    forall|i: int| 0 <= i < views.len() ==> (#[trigger] views[i]).len() == width * height
}

/// Appending one more sequence extends a back-to-front flattening by
/// exactly that sequence.
proof fn lemma_flatten_alt_take_step(views: Seq<Seq<u32>>, i: int)
    requires
        0 <= i < views.len(),
    ensures
        views.take(i + 1).flatten_alt() == views.take(i).flatten_alt() + views[i],
{
    let shorter = views.take(i + 1);
    assert(shorter.len() == i + 1);
    assert(shorter.drop_last() =~= views.take(i));
    assert(shorter.last() == views[i]);
    assert(shorter.flatten_alt() == shorter.drop_last().flatten_alt() + shorter.last());
}

/// Concatenate the given layers, in order, into one flattened input buffer
/// of exactly width-times-height pixels per layer. Rejects the request with
/// `ShapeMismatch`, and builds nothing, exactly when some layer's pixel
/// count differs from width-times-height.
pub fn flatten_layers(layers: &Vec<Layer>, width: u32, height: u32) -> (r: Result<
    Vec<u32>,
    CompositeError,
>)
    requires
        width * height <= usize::MAX,
        (width * height) * layers@.len() <= usize::MAX,
    ensures
        r matches Ok(buf) ==> {
            &&& layers_match(layer_views(layers@), width, height)
            &&& buf@ == layer_views(layers@).flatten()
            &&& buf@.len() == (width * height) * layers@.len()
        },
        r matches Err(e) ==> e == CompositeError::ShapeMismatch && !layers_match(
            layer_views(layers@),
            width,
            height,
        ),
{
    let ghost views = layer_views(layers@);
    let target: usize = (width as usize) * (height as usize);
    let mut buf: Vec<u32> = Vec::new();
    let mut i: usize = 0;
    while i < layers.len()
        invariant
            i <= layers@.len(),
            target == width * height,
            (width * height) * layers@.len() <= usize::MAX,
            views == layer_views(layers@),
            forall|k: int| 0 <= k < i ==> (#[trigger] views[k]).len() == width * height,
            buf@ == views.take(i as int).flatten_alt(),
            buf@.len() == (width * height) * i,
        decreases layers@.len() - i,
    {
        let layer = &layers[i];
        if layer.pixel_count() != target {
            assert(views[i as int].len() != width * height);
            return Err(CompositeError::ShapeMismatch);
        }
        let ghost buf_before = buf@;
        let mut j: usize = 0;
        while j < target
            invariant
                j <= target,
                i < layers@.len(),
                views == layer_views(layers@),
                layer@ == views[i as int],
                views[i as int].len() == target,
                buf@ == buf_before + views[i as int].take(j as int),
            decreases target - j,
        {
            buf.push(layer.pixel(j));
            assert(buf@ =~= buf_before + views[i as int].take(j + 1));
            j = j + 1;
        }
        assert(views[i as int].take(target as int) =~= views[i as int]);
        proof {
            lemma_flatten_alt_take_step(views, i as int);
        }
        assert(buf@.len() == (width * height) * i + (width * height)) by {
            assert(views[i as int].len() == width * height);
        }
        assert((width * height) * i + (width * height) == (width * height) * (i + 1))
            by (nonlinear_arith);
        i = i + 1;
    }
    proof {
        assert(views.take(layers@.len() as int) =~= views);
        views.lemma_flatten_and_flatten_alt_are_equivalent();
    }
    Ok(buf)
}

} // verus!
