use vstd::prelude::*;

verus! {

/// Descriptor of one texture asset: the name entities refer to it by and
/// the path the loader reads it from.
#[derive(Clone, Debug, PartialEq)]
pub struct Asset {
    pub name: String,
    pub path: String,
}

/// The list of texture assets a scene wants loaded.
#[derive(Clone, Debug, PartialEq)]
pub struct Assets {
    pub textures: Vec<Asset>,
}

} // verus!
