use vstd::prelude::*;
use crate::components::Renderable;
use crate::error::UiError;
use crate::store::World;
use crate::ui::{pointer_inside_at, spec_in_rect, DropdownMenuParent, MouseData};

verus! {

/// The entity at slot `i` carries the components the toggle pass joins on:
/// DropdownMenuParent, Button, Position and Rectangle.
pub open spec fn toggle_bundle_at(w: World, i: int) -> bool {
    &&& w.dropdown_parents@[i] is Some
    &&& w.buttons@[i] is Some
    &&& w.positions@[i] is Some
    &&& w.rectangles@[i] is Some
}

/// The dropdown-parent column entry of slot `i` after one toggle pass on a
/// press frame: a click inside the parent's own rectangle flips `unwrapped`
/// exactly once; a click anywhere else forces it closed.
pub open spec fn toggled_parent_at(w: World, mx: int, my: int, i: int) -> Option<
    DropdownMenuParent,
> {
    if toggle_bundle_at(w, i) {
        let p = w.dropdown_parents@[i]->0;
        if pointer_inside_at(w, mx, my, i) {
            Some(DropdownMenuParent { unwrapped: !p.unwrapped })
        } else {
            Some(DropdownMenuParent { unwrapped: false })
        }
    } else {
        w.dropdown_parents@[i]
    }
}

/// The dropdown toggle pass: it reacts to presses on the parent buttons of
/// dropdown menus.
pub struct DropDownUpdate;

impl DropDownUpdate {
    /// On a press frame, flips each dropdown parent's `unwrapped` when the
    /// pointer is inside the parent's own rectangle and forces it to false
    /// otherwise. On a frame without a press nothing changes.
    pub fn run(w: &mut World, mouse: &MouseData)
        requires
            old(w).wf(),
        ensures
            final(w).wf(),
            final(w).n() == old(w).n(),
            !mouse.pressed ==> *final(w) == *old(w),
            mouse.pressed ==> forall|j: int|
                0 <= j < old(w).n() ==> final(w).dropdown_parents@[j] == toggled_parent_at(
                    *old(w),
                    mouse.x as int,
                    mouse.y as int,
                    j,
                ),
            final(w).alive@ == old(w).alive@,
            final(w).generations@ == old(w).generations@,
            final(w).positions@ == old(w).positions@,
            final(w).rectangles@ == old(w).rectangles@,
            final(w).renderables@ == old(w).renderables@,
            final(w).colors@ == old(w).colors@,
            final(w).sprites@ == old(w).sprites@,
            final(w).texts@ == old(w).texts@,
            final(w).buttons@ == old(w).buttons@,
            final(w).dropdown_buttons@ == old(w).dropdown_buttons@,
            final(w).settings_values@ == old(w).settings_values@,
            final(w).settings_displays@ == old(w).settings_displays@,
            final(w).animations@ == old(w).animations@,
            final(w).menu_buttons@ == old(w).menu_buttons@,
            final(w).menu_related@ == old(w).menu_related@,
            final(w).response_texts@ == old(w).response_texts@,
    {
        if !mouse.pressed {
            return ;
        }
        let ghost w0 = *w;
        let ghost mx = mouse.x as int;
        let ghost my = mouse.y as int;
        let n = w.alive.len();
        for i in 0..n
            invariant
                w.wf(),
                n == w.n(),
                w0.wf(),
                n == w0.n(),
                mx == mouse.x as int,
                my == mouse.y as int,
                forall|j: int| 0 <= j < i ==> w.dropdown_parents@[j] == toggled_parent_at(w0, mx, my, j),
                forall|j: int| i <= j < n ==> w.dropdown_parents@[j] == w0.dropdown_parents@[j],
                w.alive@ == w0.alive@,
                w.generations@ == w0.generations@,
                w.positions@ == w0.positions@,
                w.rectangles@ == w0.rectangles@,
                w.renderables@ == w0.renderables@,
                w.colors@ == w0.colors@,
                w.sprites@ == w0.sprites@,
                w.texts@ == w0.texts@,
                w.buttons@ == w0.buttons@,
                w.dropdown_buttons@ == w0.dropdown_buttons@,
                w.settings_values@ == w0.settings_values@,
                w.settings_displays@ == w0.settings_displays@,
                w.animations@ == w0.animations@,
                w.menu_buttons@ == w0.menu_buttons@,
                w.menu_related@ == w0.menu_related@,
                w.response_texts@ == w0.response_texts@,
        {
            if w.dropdown_parents[i].is_some() && w.buttons[i].is_some()
                && w.positions[i].is_some() && w.rectangles[i].is_some() {
                let p = w.positions[i].unwrap();
                let r = w.rectangles[i].unwrap();
                let unwrapped = w.dropdown_parents[i].unwrap().unwrapped;
                if crate::ui::point_in_rect(mouse.x, mouse.y, &p, &r) {
                    w.dropdown_parents[i] = Some(DropdownMenuParent { unwrapped: !unwrapped });
                } else {
                    w.dropdown_parents[i] = Some(DropdownMenuParent { unwrapped: false });
                }
            }
            assert(w.dropdown_parents@[i as int] == toggled_parent_at(w0, mx, my, i as int));
        }
    }
}

/// The entity at slot `i` is a dropdown child with a render gate attached.
pub open spec fn cascade_child_at(w: World, i: int) -> bool {
    &&& w.dropdown_buttons@[i] is Some
    &&& w.renderables@[i] is Some
}

/// The parent reference of the dropdown child at slot `i` resolves: it names
/// a live entity that carries a DropdownMenuParent.
pub open spec fn parent_resolved_at(w: World, i: int) -> bool {
    let e = w.dropdown_buttons@[i]->0.parent;
    &&& w.live(e)
    &&& w.dropdown_parents@[e.idx as int] is Some
}

/// The renderable column entry of slot `i` after one cascade pass: a child
/// whose parent resolves becomes exactly as visible as its parent is
/// unwrapped; a child whose parent does not resolve keeps its visibility.
pub open spec fn cascaded_renderable_at(w: World, i: int) -> Option<Renderable> {
    if cascade_child_at(w, i) && parent_resolved_at(w, i) {
        let e = w.dropdown_buttons@[i]->0.parent;
        let r = w.renderables@[i]->0;
        Some(
            Renderable {
                visible: w.dropdown_parents@[e.idx as int]->0.unwrapped,
                layer: r.layer,
            },
        )
    } else {
        w.renderables@[i]
    }
}

/// The diagnostics one cascade pass reports over the first `n` slots, in
/// slot order: one unresolved-parent error per dropdown child whose parent
/// reference does not resolve.
pub open spec fn cascade_errors_upto(w: World, n: int) -> Seq<UiError>
    decreases n,
{
    if n <= 0 {
        Seq::empty()
    } else {
        let pre = cascade_errors_upto(w, n - 1);
        if cascade_child_at(w, n - 1) && !parent_resolved_at(w, n - 1) {
            pre.push(UiError::UnresolvedParentReference { child_slot: (n - 1) as usize })
        } else {
            pre
        }
    }
}

/// The dropdown visibility cascade pass: children mirror their parent's
/// expanded state within the same frame.
pub struct DropDownItemUpdate;

impl DropDownItemUpdate {
    /// For every dropdown child with a render gate, sets its visibility to
    /// its parent's `unwrapped`. A child whose parent reference does not
    /// resolve keeps its visibility and is reported.
    pub fn run(w: &mut World) -> (errs: Vec<UiError>)
        requires
            old(w).wf(),
        ensures
            final(w).wf(),
            final(w).n() == old(w).n(),
            forall|j: int|
                0 <= j < old(w).n() ==> final(w).renderables@[j] == cascaded_renderable_at(
                    *old(w),
                    j,
                ),
            errs@ == cascade_errors_upto(*old(w), old(w).n() as int),
            final(w).alive@ == old(w).alive@,
            final(w).generations@ == old(w).generations@,
            final(w).positions@ == old(w).positions@,
            final(w).rectangles@ == old(w).rectangles@,
            final(w).colors@ == old(w).colors@,
            final(w).sprites@ == old(w).sprites@,
            final(w).texts@ == old(w).texts@,
            final(w).buttons@ == old(w).buttons@,
            final(w).dropdown_parents@ == old(w).dropdown_parents@,
            final(w).dropdown_buttons@ == old(w).dropdown_buttons@,
            final(w).settings_values@ == old(w).settings_values@,
            final(w).settings_displays@ == old(w).settings_displays@,
            final(w).animations@ == old(w).animations@,
            final(w).menu_buttons@ == old(w).menu_buttons@,
            final(w).menu_related@ == old(w).menu_related@,
            final(w).response_texts@ == old(w).response_texts@,
    {
        let ghost w0 = *w;
        let mut errs: Vec<UiError> = Vec::new();
        let n = w.alive.len();
        for i in 0..n
            invariant
                w.wf(),
                n == w.n(),
                w0.wf(),
                n == w0.n(),
                forall|j: int| 0 <= j < i ==> w.renderables@[j] == cascaded_renderable_at(w0, j),
                forall|j: int| i <= j < n ==> w.renderables@[j] == w0.renderables@[j],
                errs@ == cascade_errors_upto(w0, i as int),
                w.alive@ == w0.alive@,
                w.generations@ == w0.generations@,
                w.positions@ == w0.positions@,
                w.rectangles@ == w0.rectangles@,
                w.colors@ == w0.colors@,
                w.sprites@ == w0.sprites@,
                w.texts@ == w0.texts@,
                w.buttons@ == w0.buttons@,
                w.dropdown_parents@ == w0.dropdown_parents@,
                w.dropdown_buttons@ == w0.dropdown_buttons@,
                w.settings_values@ == w0.settings_values@,
                w.settings_displays@ == w0.settings_displays@,
                w.animations@ == w0.animations@,
                w.menu_buttons@ == w0.menu_buttons@,
                w.menu_related@ == w0.menu_related@,
                w.response_texts@ == w0.response_texts@,
        {
            if w.dropdown_buttons[i].is_some() && w.renderables[i].is_some() {
                let e = w.dropdown_buttons[i].unwrap().parent;
                if w.is_live(e) && w.dropdown_parents[e.idx].is_some() {
                    let unwrapped = w.dropdown_parents[e.idx].unwrap().unwrapped;
                    let layer = w.renderables[i].unwrap().layer;
                    w.renderables[i] = Some(Renderable { visible: unwrapped, layer });
                } else {
                    errs.push(UiError::UnresolvedParentReference { child_slot: i });
                }
            }
            assert(w.renderables@[i as int] == cascaded_renderable_at(w0, i as int));
            assert(errs@ == cascade_errors_upto(w0, i + 1));
        }
        errs
    }
}

/// A visible dropdown child at slot `i` was clicked: it carries the close
/// pass's bundle, is visible, and the pointer is inside its rectangle.
pub open spec fn close_click_at(w: World, mx: int, my: int, i: int) -> bool {
    &&& w.dropdown_buttons@[i] is Some
    &&& w.positions@[i] is Some
    &&& w.rectangles@[i] is Some
    &&& w.renderables@[i] is Some
    &&& w.renderables@[i]->0.visible
    &&& spec_in_rect(mx, my, w.positions@[i]->0, w.rectangles@[i]->0)
}

/// The click on the dropdown child at slot `i` closes the parent at slot
/// `j`: the child was clicked and its parent reference resolves to slot `j`.
pub open spec fn closes_parent(w: World, mx: int, my: int, i: int, j: int) -> bool {
    &&& close_click_at(w, mx, my, i)
    &&& w.dropdown_buttons@[i]->0.parent.idx == j
    &&& w.live(w.dropdown_buttons@[i]->0.parent)
    &&& w.dropdown_parents@[j] is Some
}

/// The diagnostics one close pass reports over the first `n` slots, in slot
/// order: one unresolved-parent error per clicked visible child whose parent
/// reference does not resolve.
pub open spec fn close_errors_upto(w: World, mx: int, my: int, n: int) -> Seq<UiError>
    decreases n,
{
    if n <= 0 {
        Seq::empty()
    } else {
        let pre = close_errors_upto(w, mx, my, n - 1);
        if close_click_at(w, mx, my, n - 1) && !parent_resolved_at(w, n - 1) {
            pre.push(UiError::UnresolvedParentReference { child_slot: (n - 1) as usize })
        } else {
            pre
        }
    }
}

/// The close-on-child-click pass: clicking a visible dropdown item folds the
/// menu it belongs to.
pub struct DropDownButtonCheck;

impl DropDownButtonCheck {
    /// On a press frame, for every visible dropdown child whose rectangle
    /// contains the pointer, resolves the parent and forces its `unwrapped`
    /// to false — even though the click point lies outside the parent's own
    /// rectangle. A clicked child whose parent does not resolve is reported.
    /// On a frame without a press nothing changes.
    pub fn run(w: &mut World, mouse: &MouseData) -> (errs: Vec<UiError>)
        requires
            old(w).wf(),
        ensures
            final(w).wf(),
            final(w).n() == old(w).n(),
            !mouse.pressed ==> *final(w) == *old(w) && errs@ == Seq::<UiError>::empty(),
            mouse.pressed ==> forall|j: int|
                0 <= j < old(w).n() ==> final(w).dropdown_parents@[j] == (
                if exists|i: int|
                    0 <= i < old(w).n() && closes_parent(
                        *old(w),
                        mouse.x as int,
                        mouse.y as int,
                        i,
                        j,
                    ) {
                    Some(DropdownMenuParent { unwrapped: false })
                } else {
                    old(w).dropdown_parents@[j]
                }),
            mouse.pressed ==> errs@ == close_errors_upto(
                *old(w),
                mouse.x as int,
                mouse.y as int,
                old(w).n() as int,
            ),
            final(w).alive@ == old(w).alive@,
            final(w).generations@ == old(w).generations@,
            final(w).positions@ == old(w).positions@,
            final(w).rectangles@ == old(w).rectangles@,
            final(w).renderables@ == old(w).renderables@,
            final(w).colors@ == old(w).colors@,
            final(w).sprites@ == old(w).sprites@,
            final(w).texts@ == old(w).texts@,
            final(w).buttons@ == old(w).buttons@,
            final(w).dropdown_buttons@ == old(w).dropdown_buttons@,
            final(w).settings_values@ == old(w).settings_values@,
            final(w).settings_displays@ == old(w).settings_displays@,
            final(w).animations@ == old(w).animations@,
            final(w).menu_buttons@ == old(w).menu_buttons@,
            final(w).menu_related@ == old(w).menu_related@,
            final(w).response_texts@ == old(w).response_texts@,
    {
        let mut errs: Vec<UiError> = Vec::new();
        if !mouse.pressed {
            return errs;
        }
        let ghost w0 = *w;
        let ghost mx = mouse.x as int;
        let ghost my = mouse.y as int;
        let n = w.alive.len();
        for k in 0..n
            invariant
                w.wf(),
                n == w.n(),
                w0.wf(),
                n == w0.n(),
                mx == mouse.x as int,
                my == mouse.y as int,
                forall|j: int|
                    0 <= j < n ==> w.dropdown_parents@[j] == (
                    if exists|i: int| 0 <= i < k && closes_parent(w0, mx, my, i, j) {
                        Some(DropdownMenuParent { unwrapped: false })
                    } else {
                        w0.dropdown_parents@[j]
                    }),
                errs@ == close_errors_upto(w0, mx, my, k as int),
                w.alive@ == w0.alive@,
                w.generations@ == w0.generations@,
                w.positions@ == w0.positions@,
                w.rectangles@ == w0.rectangles@,
                w.renderables@ == w0.renderables@,
                w.colors@ == w0.colors@,
                w.sprites@ == w0.sprites@,
                w.texts@ == w0.texts@,
                w.buttons@ == w0.buttons@,
                w.dropdown_buttons@ == w0.dropdown_buttons@,
                w.settings_values@ == w0.settings_values@,
                w.settings_displays@ == w0.settings_displays@,
                w.animations@ == w0.animations@,
                w.menu_buttons@ == w0.menu_buttons@,
                w.menu_related@ == w0.menu_related@,
                w.response_texts@ == w0.response_texts@,
        {
            if w.dropdown_buttons[k].is_some() && w.positions[k].is_some()
                && w.rectangles[k].is_some() && w.renderables[k].is_some() {
                let p = w.positions[k].unwrap();
                let r = w.rectangles[k].unwrap();
                if w.renderables[k].unwrap().visible && crate::ui::point_in_rect(
                    mouse.x,
                    mouse.y,
                    &p,
                    &r,
                ) {
                    let e = w.dropdown_buttons[k].unwrap().parent;
                    if w.is_live(e) && w.dropdown_parents[e.idx].is_some() {
                        w.dropdown_parents[e.idx] = Some(
                            DropdownMenuParent { unwrapped: false },
                        );
                        assert(closes_parent(w0, mx, my, k as int, e.idx as int));
                    } else {
                        errs.push(UiError::UnresolvedParentReference { child_slot: k });
                    }
                }
            }
            assert(errs@ == close_errors_upto(w0, mx, my, k + 1));
        }
        errs
    }
}

/// Law of the cascade: after one cascade pass, every dropdown child whose
/// parent reference resolves is exactly as visible as its parent is
/// unwrapped.
pub proof fn lemma_cascade_mirrors_parent(w0: World, w1: World, i: int)
    requires
        w0.wf(),
        0 <= i < w0.n(),
        w1.dropdown_parents@ == w0.dropdown_parents@,
        w1.dropdown_buttons@ == w0.dropdown_buttons@,
        forall|j: int| 0 <= j < w0.n() ==> w1.renderables@[j] == cascaded_renderable_at(w0, j),
        cascade_child_at(w0, i),
        parent_resolved_at(w0, i),
    ensures
        w1.renderables@[i] is Some,
        w1.renderables@[i]->0.visible == w1.dropdown_parents@[w1.dropdown_buttons@[i]->0.parent.idx as int]->0.unwrapped,
{
    let e = w0.dropdown_buttons@[i]->0.parent;
    assert(w0.live(e));
    assert(w1.renderables@[i] == cascaded_renderable_at(w0, i));
    assert(w1.renderables@[i] == Some(
        Renderable {
            visible: w0.dropdown_parents@[e.idx as int]->0.unwrapped,
            layer: w0.renderables@[i]->0.layer,
        },
    ));
}

/// Law of same-frame collapse: when the toggle pass folds a parent — the
/// press fell outside the parent's own rectangle — and the cascade pass then
/// runs in the same frame, every resolved child of that parent is invisible.
pub proof fn lemma_fresh_collapse_hides_children(
    wa: World,
    wb: World,
    wc: World,
    mx: int,
    my: int,
    p: int,
    i: int,
)
    requires
        wa.wf(),
        wb.wf(),
        wb.n() == wa.n(),
        // wb is wa after the toggle pass on a press frame
        forall|j: int| 0 <= j < wa.n() ==> wb.dropdown_parents@[j] == toggled_parent_at(wa, mx, my, j),
        wb.dropdown_buttons@ == wa.dropdown_buttons@,
        wb.alive@ == wa.alive@,
        wb.generations@ == wa.generations@,
        // wc is wb after the cascade pass
        wc.dropdown_parents@ == wb.dropdown_parents@,
        wc.dropdown_buttons@ == wb.dropdown_buttons@,
        forall|j: int| 0 <= j < wb.n() ==> wc.renderables@[j] == cascaded_renderable_at(wb, j),
        // i is a resolved dropdown child of the parent at slot p
        0 <= i < wa.n(),
        cascade_child_at(wb, i),
        parent_resolved_at(wb, i),
        wb.dropdown_buttons@[i]->0.parent.idx == p,
        // the parent carries the toggle bundle and the press missed it
        toggle_bundle_at(wa, p),
        !pointer_inside_at(wa, mx, my, p),
    ensures
        wc.renderables@[i] is Some,
        !wc.renderables@[i]->0.visible,
{
    let e = wb.dropdown_buttons@[i]->0.parent;
    assert(wb.live(e));
    assert(0 <= p < wa.n());
    assert(wb.dropdown_parents@[p] == toggled_parent_at(wa, mx, my, p));
    assert(wb.dropdown_parents@[p] == Some(DropdownMenuParent { unwrapped: false }));
    assert(wc.renderables@[i] == cascaded_renderable_at(wb, i));
}

/// Law of close-on-child-click: after one close pass on a press frame, a
/// parent one of whose visible children was clicked is folded — whether or
/// not the click point lies inside the parent's own rectangle.
pub proof fn lemma_child_click_folds_parent(
    w0: World,
    w1: World,
    mx: int,
    my: int,
    i: int,
    j: int,
)
    requires
        w0.wf(),
        0 <= i < w0.n(),
        forall|jj: int|
            0 <= jj < w0.n() ==> w1.dropdown_parents@[jj] == (
            if exists|ii: int| 0 <= ii < w0.n() && closes_parent(w0, mx, my, ii, jj) {
                Some(DropdownMenuParent { unwrapped: false })
            } else {
                w0.dropdown_parents@[jj]
            }),
        closes_parent(w0, mx, my, i, j),
    ensures
        w1.dropdown_parents@[j] == Some(DropdownMenuParent { unwrapped: false }),
{
    let e = w0.dropdown_buttons@[i]->0.parent;
    assert(w0.live(e));
    assert(0 <= j < w0.n());
    assert(exists|ii: int| 0 <= ii < w0.n() && closes_parent(w0, mx, my, ii, j));
}

} // verus!
