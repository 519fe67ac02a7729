//! Synthetic images: layers of random bytes of a requested shape.

use vstd::prelude::*;

verus! {

/// A manifest as the registry client describes it. None is built here; the
/// type only names what an image may carry.
#[verifier::external_type_specification]
#[verifier::external_body]
pub struct ExOciImageManifest(oci_distribution::manifest::OciImageManifest);

/// The number of bytes in a megabyte.
pub const MEGABYTE: usize = 1024 * 1024;

/// The size of each layer of a load-test image.
pub const LAYER_SIZE: usize = 10 * MEGABYTE;

/// The number of layers of a load-test image.
pub const LAYER_COUNT: usize = 1;

/// The config blob of every synthetic image: an empty JSON object.
pub open spec fn config_blob() -> Seq<u8> {
    seq![0x7bu8, 0x7du8]
}

/// An image made up for a push.
pub struct SyntheticImage {
    /// The content blobs, in the order in which the manifest lists them.
    pub layers: Vec<Vec<u8>>,
    /// The config blob.
    pub config: Vec<u8>,
    /// The manifest, where the image brings its own. Without one the
    /// registry client derives it from the layers and the config.
    pub manifest: Option<oci_distribution::manifest::OciImageManifest>,
}

/// Whether `layers` are `layer_count` blobs of `layer_size` bytes each.
pub open spec fn layers_have_shape(layers: Seq<Vec<u8>>, layer_size: nat, layer_count: nat) -> bool {
    &&& layers.len() == layer_count
    &&& forall|i: int| 0 <= i < layers.len() ==> (#[trigger] layers[i])@.len() == layer_size
}

impl SyntheticImage {
    /// Whether the image is one that `generate_image` makes for this size
    /// and count: layers of that shape, the fixed config, no manifest of its
    /// own.
    pub open spec fn has_shape(self, layer_size: nat, layer_count: nat) -> bool {
        &&& layers_have_shape(self.layers@, layer_size, layer_count)
        &&& self.config@ == config_blob()
        &&& self.manifest is None
    }
}

/// Overwrites `bytes` with random bytes from `rand::thread_rng()`, through
/// `rand::RngCore::fill_bytes`. Which bytes come out is left open; the
/// buffer keeps its length.
#[verifier::external_body]
fn fill_random(bytes: &mut Vec<u8>)
    ensures
        final(bytes)@.len() == old(bytes)@.len(),
{
    rand::RngCore::fill_bytes(&mut rand::thread_rng(), bytes.as_mut_slice());
}

/// Makes `layer_count` layers of `layer_size` random bytes each.
pub fn gen_rand_layers(layer_size: usize, layer_count: usize) -> (layers: Vec<Vec<u8>>)
    requires
        layer_size <= isize::MAX,
    ensures
        layers_have_shape(layers@, layer_size as nat, layer_count as nat),
{
    let mut layers: Vec<Vec<u8>> = Vec::new();
    let mut made: usize = 0;
    while made < layer_count
        invariant
            made <= layer_count,
            layers_have_shape(layers@, layer_size as nat, made as nat),
        decreases layer_count - made,
    {
        let mut layer: Vec<u8> = vec![0u8; layer_size];
        fill_random(&mut layer);
        layers.push(layer);
        made = made + 1;
    }
    layers
}

/// Makes an image of `layer_count` layers of `layer_size` random bytes
/// each, with the fixed config and no manifest of its own.
pub fn generate_image(layer_size: usize, layer_count: usize) -> (image: SyntheticImage)
    requires
        layer_size <= isize::MAX,
    ensures
        image.has_shape(layer_size as nat, layer_count as nat),
{
    let layers = gen_rand_layers(layer_size, layer_count);
    let mut config: Vec<u8> = Vec::new();
    config.push(0x7bu8);
    config.push(0x7du8);
    assert(config@ =~= config_blob());
    SyntheticImage { layers, config, manifest: None }
}

} // verus!
