use vstd::prelude::*;
use crate::components::{
    AnimationData, Colored, Position, Rectangle, Renderable, SettingsValue, SettingsValueDisplay,
    Sprite, Text,
};
use crate::ui::{Button, DropdownMenuButton, DropdownMenuParent};

verus! {

/// A generation-checked handle to an entity. A handle is valid only while
/// the slot it names is alive and still carries the same generation, so a
/// stale handle is detected instead of dereferenced into unrelated data.
#[derive(Clone, Copy, Debug, PartialEq, Eq, Structural)]
pub struct Entity {
    pub idx: usize,
    pub gen: u64,
}

/// The entity-component store. Each component kind is a column indexed by
/// the entity slot; `None` means the component is not attached. The passes
/// of this crate iterate the columns in slot order, which makes every
/// otherwise order-sensitive result (such as hit-test tie-breaks)
/// deterministic: lowest slot index first.
pub struct World {
    pub alive: Vec<bool>,
    pub generations: Vec<u64>,
    pub positions: Vec<Option<Position>>,
    pub rectangles: Vec<Option<Rectangle>>,
    pub renderables: Vec<Option<Renderable>>,
    pub colors: Vec<Option<Colored>>,
    pub sprites: Vec<Option<Sprite>>,
    pub texts: Vec<Option<Text>>,
    pub buttons: Vec<Option<Button>>,
    pub dropdown_parents: Vec<Option<DropdownMenuParent>>,
    pub dropdown_buttons: Vec<Option<DropdownMenuButton>>,
    pub settings_values: Vec<Option<SettingsValue>>,
    pub settings_displays: Vec<Option<SettingsValueDisplay>>,
    pub animations: Vec<Option<AnimationData>>,
    pub menu_buttons: Vec<bool>,
    pub menu_related: Vec<bool>,
    pub response_texts: Vec<bool>,
}

impl World {
    /// Number of entity slots (live or dead).
    pub open spec fn n(&self) -> nat {
        self.alive@.len()
    }

    /// Well-formedness: every component column covers every entity slot.
    pub open spec fn wf(&self) -> bool {
        &&& self.generations@.len() == self.n()
        &&& self.positions@.len() == self.n()
        &&& self.rectangles@.len() == self.n()
        &&& self.renderables@.len() == self.n()
        &&& self.colors@.len() == self.n()
        &&& self.sprites@.len() == self.n()
        &&& self.texts@.len() == self.n()
        &&& self.buttons@.len() == self.n()
        &&& self.dropdown_parents@.len() == self.n()
        &&& self.dropdown_buttons@.len() == self.n()
        &&& self.settings_values@.len() == self.n()
        &&& self.settings_displays@.len() == self.n()
        &&& self.animations@.len() == self.n()
        &&& self.menu_buttons@.len() == self.n()
        &&& self.menu_related@.len() == self.n()
        &&& self.response_texts@.len() == self.n()
    }

    /// A handle resolves while its slot is alive and the generations agree.
    pub open spec fn live(&self, e: Entity) -> bool {
        &&& e.idx < self.n()
        &&& self.alive@[e.idx as int]
        &&& self.generations@[e.idx as int] == e.gen
    }

    /// Every slot of `self` is still present and unchanged in `other`:
    /// `other` only appends entities.
    pub open spec fn preserved_in(&self, other: World) -> bool {
        &&& other.n() >= self.n()
        &&& forall|j: int| 0 <= j < self.n() ==> other.alive@[j] == self.alive@[j]
        &&& forall|j: int| 0 <= j < self.n() ==> other.generations@[j] == self.generations@[j]
        &&& forall|j: int| 0 <= j < self.n() ==> other.positions@[j] == self.positions@[j]
        &&& forall|j: int| 0 <= j < self.n() ==> other.rectangles@[j] == self.rectangles@[j]
        &&& forall|j: int| 0 <= j < self.n() ==> other.renderables@[j] == self.renderables@[j]
        &&& forall|j: int| 0 <= j < self.n() ==> other.colors@[j] == self.colors@[j]
        &&& forall|j: int| 0 <= j < self.n() ==> other.sprites@[j] == self.sprites@[j]
        &&& forall|j: int| 0 <= j < self.n() ==> other.texts@[j] == self.texts@[j]
        &&& forall|j: int| 0 <= j < self.n() ==> other.buttons@[j] == self.buttons@[j]
        &&& forall|j: int|
            0 <= j < self.n() ==> other.dropdown_parents@[j] == self.dropdown_parents@[j]
        &&& forall|j: int|
            0 <= j < self.n() ==> other.dropdown_buttons@[j] == self.dropdown_buttons@[j]
        &&& forall|j: int|
            0 <= j < self.n() ==> other.settings_values@[j] == self.settings_values@[j]
        &&& forall|j: int|
            0 <= j < self.n() ==> other.settings_displays@[j] == self.settings_displays@[j]
        &&& forall|j: int| 0 <= j < self.n() ==> other.animations@[j] == self.animations@[j]
        &&& forall|j: int| 0 <= j < self.n() ==> other.menu_buttons@[j] == self.menu_buttons@[j]
        &&& forall|j: int| 0 <= j < self.n() ==> other.menu_related@[j] == self.menu_related@[j]
        &&& forall|j: int| 0 <= j < self.n() ==> other.response_texts@[j] == self.response_texts@[j]
    }

    /// An empty store.
    pub fn new() -> (w: World)
        ensures
            w.wf(),
            w.n() == 0,
    {
        World {
            alive: Vec::new(),
            generations: Vec::new(),
            positions: Vec::new(),
            rectangles: Vec::new(),
            renderables: Vec::new(),
            colors: Vec::new(),
            sprites: Vec::new(),
            texts: Vec::new(),
            buttons: Vec::new(),
            dropdown_parents: Vec::new(),
            dropdown_buttons: Vec::new(),
            settings_values: Vec::new(),
            settings_displays: Vec::new(),
            animations: Vec::new(),
            menu_buttons: Vec::new(),
            menu_related: Vec::new(),
            response_texts: Vec::new(),
        }
    }

    /// Runtime check of well-formedness, for callers that assembled a store
    /// by hand.
    pub fn wf_check(&self) -> (r: bool)
        ensures
            r == self.wf(),
    {
        let n = self.alive.len();
        self.generations.len() == n && self.positions.len() == n && self.rectangles.len() == n
            && self.renderables.len() == n && self.colors.len() == n && self.sprites.len() == n
            && self.texts.len() == n && self.buttons.len() == n && self.dropdown_parents.len() == n
            && self.dropdown_buttons.len() == n && self.settings_values.len() == n
            && self.settings_displays.len() == n && self.animations.len() == n
            && self.menu_buttons.len() == n && self.menu_related.len() == n
            && self.response_texts.len() == n
    }

    /// Number of entity slots.
    pub fn len(&self) -> (n: usize)
        ensures
            n == self.n(),
    {
        self.alive.len()
    }

    /// Whether a handle currently resolves to a live entity.
    pub fn is_live(&self, e: Entity) -> (r: bool)
        requires
            self.wf(),
        ensures
            r == self.live(e),
    {
        e.idx < self.alive.len() && self.alive[e.idx] && self.generations[e.idx] == e.gen
    }

    /// Creates a fresh entity with no components attached and returns its
    /// handle. Existing slots are untouched.
    pub fn create_entity(&mut self) -> (e: Entity)
        requires
            old(self).wf(),
        ensures
            final(self).wf(),
            final(self).n() == old(self).n() + 1,
            e.idx == old(self).n(),
            e.gen == 0u64,
            final(self).live(e),
            final(self).alive@ == old(self).alive@.push(true),
            final(self).generations@ == old(self).generations@.push(0u64),
            final(self).positions@ == old(self).positions@.push(None::<Position>),
            final(self).rectangles@ == old(self).rectangles@.push(None::<Rectangle>),
            final(self).renderables@ == old(self).renderables@.push(None::<Renderable>),
            final(self).colors@ == old(self).colors@.push(None::<Colored>),
            final(self).sprites@ == old(self).sprites@.push(None::<Sprite>),
            final(self).texts@ == old(self).texts@.push(None::<Text>),
            final(self).buttons@ == old(self).buttons@.push(None::<Button>),
            final(self).dropdown_parents@ == old(self).dropdown_parents@.push(
                None::<DropdownMenuParent>,
            ),
            final(self).dropdown_buttons@ == old(self).dropdown_buttons@.push(
                None::<DropdownMenuButton>,
            ),
            final(self).settings_values@ == old(self).settings_values@.push(None::<SettingsValue>),
            final(self).settings_displays@ == old(self).settings_displays@.push(
                None::<SettingsValueDisplay>,
            ),
            final(self).animations@ == old(self).animations@.push(None::<AnimationData>),
            final(self).menu_buttons@ == old(self).menu_buttons@.push(false),
            final(self).menu_related@ == old(self).menu_related@.push(false),
            final(self).response_texts@ == old(self).response_texts@.push(false),
    {
        let idx = self.alive.len();
        self.alive.push(true);
        self.generations.push(0);
        self.positions.push(None);
        self.rectangles.push(None);
        self.renderables.push(None);
        self.colors.push(None);
        self.sprites.push(None);
        self.texts.push(None);
        self.buttons.push(None);
        self.dropdown_parents.push(None);
        self.dropdown_buttons.push(None);
        self.settings_values.push(None);
        self.settings_displays.push(None);
        self.animations.push(None);
        self.menu_buttons.push(false);
        self.menu_related.push(false);
        self.response_texts.push(false);
        Entity { idx, gen: 0 }
    }

    /// Destroys the entity a handle names, detaching all its components and
    /// bumping the slot's generation so the handle (and any copy of it) goes
    /// stale. A handle that does not resolve is ignored.
    pub fn destroy_entity(&mut self, e: Entity)
        requires
            old(self).wf(),
        ensures
            final(self).wf(),
            final(self).n() == old(self).n(),
            !final(self).live(e),
            old(self).live(e) ==> {
                &&& final(self).alive@ == old(self).alive@.update(e.idx as int, false)
                &&& final(self).generations@ == old(self).generations@.update(
                    e.idx as int,
                    if e.gen < u64::MAX { (e.gen + 1) as u64 } else { e.gen },
                )
                &&& final(self).positions@ == old(self).positions@.update(
                    e.idx as int,
                    None::<Position>,
                )
                &&& final(self).rectangles@ == old(self).rectangles@.update(
                    e.idx as int,
                    None::<Rectangle>,
                )
                &&& final(self).renderables@ == old(self).renderables@.update(
                    e.idx as int,
                    None::<Renderable>,
                )
                &&& final(self).colors@ == old(self).colors@.update(e.idx as int, None::<Colored>)
                &&& final(self).sprites@ == old(self).sprites@.update(e.idx as int, None::<Sprite>)
                &&& final(self).texts@ == old(self).texts@.update(e.idx as int, None::<Text>)
                &&& final(self).buttons@ == old(self).buttons@.update(e.idx as int, None::<Button>)
                &&& final(self).dropdown_parents@ == old(self).dropdown_parents@.update(
                    e.idx as int,
                    None::<DropdownMenuParent>,
                )
                &&& final(self).dropdown_buttons@ == old(self).dropdown_buttons@.update(
                    e.idx as int,
                    None::<DropdownMenuButton>,
                )
                &&& final(self).settings_values@ == old(self).settings_values@.update(
                    e.idx as int,
                    None::<SettingsValue>,
                )
                &&& final(self).settings_displays@ == old(self).settings_displays@.update(
                    e.idx as int,
                    None::<SettingsValueDisplay>,
                )
                &&& final(self).animations@ == old(self).animations@.update(
                    e.idx as int,
                    None::<AnimationData>,
                )
                &&& final(self).menu_buttons@ == old(self).menu_buttons@.update(e.idx as int, false)
                &&& final(self).menu_related@ == old(self).menu_related@.update(e.idx as int, false)
                &&& final(self).response_texts@ == old(self).response_texts@.update(
                    e.idx as int,
                    false,
                )
            },
            !old(self).live(e) ==> *final(self) == *old(self),
    {
        if self.is_live(e) {
            self.alive[e.idx] = false;
            let g = self.generations[e.idx];
            if g < u64::MAX {
                self.generations[e.idx] = g + 1;
            }
            self.positions[e.idx] = None;
            self.rectangles[e.idx] = None;
            self.renderables[e.idx] = None;
            self.colors[e.idx] = None;
            self.sprites[e.idx] = None;
            self.texts[e.idx] = None;
            self.buttons[e.idx] = None;
            self.dropdown_parents[e.idx] = None;
            self.dropdown_buttons[e.idx] = None;
            self.settings_values[e.idx] = None;
            self.settings_displays[e.idx] = None;
            self.animations[e.idx] = None;
            self.menu_buttons[e.idx] = false;
            self.menu_related[e.idx] = false;
            self.response_texts[e.idx] = false;
        }
    }
}

} // verus!
