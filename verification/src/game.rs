use vstd::prelude::*;
use crate::components::Renderable;

verus! {

/// The render layers a scene draws in. Each layer owns one bit of the
/// process-wide layer mask.
#[derive(Clone, Copy, Debug, PartialEq, Eq, Structural)]
pub enum RenderLayers {
    Game,
    Menu,
}

impl RenderLayers {
    /// The single mask bit of this layer.
    pub open spec fn spec_mask(&self) -> u32 {
        match self {
            RenderLayers::Game => 1u32,
            RenderLayers::Menu => 2u32,
        }
    }

    pub fn mask(&self) -> (m: u32)
        ensures
            m == self.spec_mask(),
    {
        match self {
            RenderLayers::Game => 1,
            RenderLayers::Menu => 2,
        }
    }
}

/// Process-wide frame state: the bitmask of layers currently eligible for
/// drawing. It is mutated only by the explicit show/hide operations below,
/// never by the interaction passes.
pub struct Game {
    pub active_layers: u32,
}

/// Layer-gated render filter: an entity is eligible for draw only if its
/// render gate is visible and its layer shares a bit with the active mask.
pub open spec fn spec_draw_eligible(r: Renderable, active_layers: u32) -> bool {
    r.visible && (active_layers & r.layer) != 0
}

/// The predicate every draw routine applies before painting an entity.
pub fn draw_eligible(r: &Renderable, active_layers: u32) -> (b: bool)
    ensures
        b == spec_draw_eligible(*r, active_layers),
{
    r.visible && (active_layers & r.layer) != 0
}

/// Law of the layer filter: with an empty mask nothing is eligible whatever
/// its visibility; an invisible entity is never eligible; and when the mask
/// covers the entity's layer, eligibility is exactly its visibility.
pub proof fn lemma_layer_filter(r: Renderable, active_layers: u32)
    ensures
        active_layers == 0 ==> !spec_draw_eligible(r, active_layers),
        !r.visible ==> !spec_draw_eligible(r, active_layers),
        active_layers & r.layer != 0 ==> spec_draw_eligible(r, active_layers) == r.visible,
{
    let l = r.layer;
    assert(0u32 & l == 0u32) by (bit_vector);
}

impl Game {
    /// A fresh frame state draws every layer.
    pub fn new() -> (g: Game)
        ensures
            g.active_layers == 0xffff_ffffu32,
    {
        Game { active_layers: 0xffff_ffff }
    }

    /// Makes a layer eligible for drawing.
    pub fn show_layer(&mut self, layer: RenderLayers)
        ensures
            final(self).active_layers == old(self).active_layers | layer.spec_mask(),
    {
        self.active_layers = self.active_layers | layer.mask();
    }

    /// Withdraws a layer from drawing.
    pub fn hide_layer(&mut self, layer: RenderLayers)
        ensures
            final(self).active_layers == old(self).active_layers & !layer.spec_mask(),
    {
        self.active_layers = self.active_layers & !layer.mask();
    }
}

} // verus!
