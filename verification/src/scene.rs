//! An explicit arena of scene entities.
//!
//! The engine does not own a scene graph; it models one.  An entity is a
//! slot holding an optional record of components, entity ids are slot
//! indices, and ids are never reused, so a despawned entity stays dead and a
//! fresh spawn always yields a fresh id.

use vstd::prelude::*;

use crate::geom::{Affine, RectI, Rot, Vec2I};
use crate::text2d::{LinkedRubyText2d, RubyText2d};
use crate::ui::{LinkedRubyText, RubyText};
use crate::Ruby;
use crate::FontInfo;

verus! {

/// The bounding rectangle of one run's glyphs within its block, keyed by
/// the entity owning the run.
#[derive(Clone, Copy, Debug, PartialEq, Eq, Structural)]
pub struct SectionRect {
    /// The entity whose glyphs the rectangle bounds.
    pub id: usize,
    /// The rectangle, in the block's top-left-origin space.
    pub rect: RectI,
}

/// The shaping output for a text entity, produced by the external text
/// layout pass and read, never written, by the engine.
#[derive(Clone, Debug)]
pub struct TextLayoutData {
    /// Total content size of the shaped text.
    pub size: Vec2I,
    /// Scale factor between the rectangle coordinates and logical units.
    pub scale_factor: i64,
    /// Per-run bounding rectangles.
    pub rects: Vec<SectionRect>,
}

impl TextLayoutData {
    /// An empty shaping output: zero size, unit scale, no runs.
    pub fn empty() -> (r: Self)
        ensures
            r.size == (Vec2I { x: 0, y: 0 }),
            r.scale_factor == 1,
            r.rects@ == Seq::<SectionRect>::empty(),
    {
        TextLayoutData { size: Vec2I { x: 0, y: 0 }, scale_factor: 1, rects: Vec::new() }
    }
}

/// The flow-layout solver's output for a node, read by the engine; the
/// solver itself is external.
#[derive(Clone, Copy, Debug, PartialEq, Eq, Structural)]
pub struct ComputedNodeData {
    /// The node's laid-out size.
    pub size: Vec2I,
    /// Left border inset.
    pub border_left: i64,
    /// Top border inset.
    pub border_top: i64,
    /// Scale factor of the render target the node is drawn to.
    pub target_scale_factor: i64,
}

impl ComputedNodeData {
    /// The state of a node the solver has not touched yet: zero size, no
    /// borders, unit scale.
    pub fn empty() -> (r: Self)
        ensures
            r == (ComputedNodeData {
                size: Vec2I { x: 0, y: 0 },
                border_left: 0,
                border_top: 0,
                target_scale_factor: 1,
            }),
    {
        ComputedNodeData {
            size: Vec2I { x: 0, y: 0 },
            border_left: 0,
            border_top: 0,
            target_scale_factor: 1,
        }
    }
}

/// The flow-layout style fields of a node that the engine writes: the
/// absolute offsets, and whether the node is still hidden awaiting its
/// first placement.
#[derive(Clone, Copy, Debug, PartialEq, Eq, Structural)]
pub struct UiNodeData {
    /// Absolute top offset, in logical units; `None` leaves it automatic.
    pub top: Option<i64>,
    /// Absolute left offset, in logical units; `None` leaves it automatic.
    pub left: Option<i64>,
    /// A freshly spawned annotation node is hidden until its first
    /// successful placement, to avoid one frame of flash at a wrong
    /// position.
    pub hidden: bool,
}

/// The local (parent-relative) transform of a flow-layout node.  The engine
/// only mirrors the block's scale and rotation onto the annotation node, so
/// no translation is carried here.
#[derive(Clone, Copy, Debug, PartialEq, Eq, Structural)]
pub struct UiTransformData {
    /// Per-axis scale.
    pub scale: Vec2I,
    /// Quarter-turn rotation.
    pub rot: Rot,
}

impl UiTransformData {
    /// The identity local transform.
    pub fn identity() -> (r: Self)
        ensures
            r == (UiTransformData { scale: Vec2I { x: 1, y: 1 }, rot: Rot::R0 }),
    {
        UiTransformData { scale: Vec2I { x: 1, y: 1 }, rot: Rot::R0 }
    }
}

/// The world-regime transform of an entity: a position with depth, and a
/// quarter-turn rotation.
#[derive(Clone, Copy, Debug, PartialEq, Eq, Structural)]
pub struct TransformData {
    /// Horizontal position.
    pub x: i64,
    /// Vertical position (y up).
    pub y: i64,
    /// Depth; the annotation node keeps the depth it was given at creation.
    pub z: i64,
    /// Quarter-turn rotation.
    pub rot: Rot,
}

/// The components of one scene entity.  Every field is optional (or a
/// marker flag): an entity carries whatever the scene gave it.
#[derive(Clone, Debug)]
pub struct Rec {
    /// The entity's parent in the scene graph, if any.
    pub parent: Option<usize>,
    /// The annotation spec attached to this entity, if any.
    pub ruby: Option<Ruby>,
    /// Flow-regime text content: this entity is a flow-layout text block.
    pub ui_text: Option<String>,
    /// World-regime text content: this entity is a free-transform text
    /// block.
    pub text2d: Option<String>,
    /// This entity is a fragment (sub-run) of a multi-run block rather than
    /// a block of its own.
    pub is_text_span: bool,
    /// The entity's font.
    pub font: Option<FontInfo>,
    /// The entity's text color, packed RGBA.
    pub color: Option<u32>,
    /// Flow-regime stacking order.
    pub z_index: Option<i64>,
    /// Marks a flow-regime annotation node and names its spec entity.
    pub ruby_text: Option<RubyText>,
    /// On a spec entity, names its bound flow-regime annotation node.
    pub linked_ruby_text: Option<LinkedRubyText>,
    /// Marks a world-regime annotation node and names its spec entity.
    pub ruby_text_2d: Option<RubyText2d>,
    /// On a spec entity, names its bound world-regime annotation node.
    pub linked_ruby_text_2d: Option<LinkedRubyText2d>,
    /// Shaping output for this entity's text, written by the external
    /// shaping pass.
    pub layout: Option<TextLayoutData>,
    /// Flow-layout solver output for this entity, written by the external
    /// layout pass.
    pub computed: Option<ComputedNodeData>,
    /// Flow-regime style offsets, written by the engine on annotation
    /// nodes.
    pub node: Option<UiNodeData>,
    /// Flow-regime local transform.
    pub ui_transform: Option<UiTransformData>,
    /// Flow-regime global transform, normally written by the external
    /// transform propagation pass; written directly by the engine when
    /// one-frame-delay elimination is on.
    pub ui_global: Option<Affine>,
    /// World-regime local transform; an annotation node has no parent, so
    /// this is also its world placement.
    pub transform: Option<TransformData>,
    /// World-regime global transform, written by the external transform
    /// propagation pass.
    pub global_transform: Option<Affine>,
}

impl Rec {
    /// A record with no components at all.
    pub fn empty() -> (r: Self)
        ensures
            r == Self::spec_empty(),
    {
        Rec {
            parent: None,
            ruby: None,
            ui_text: None,
            text2d: None,
            is_text_span: false,
            font: None,
            color: None,
            z_index: None,
            ruby_text: None,
            linked_ruby_text: None,
            ruby_text_2d: None,
            linked_ruby_text_2d: None,
            layout: None,
            computed: None,
            node: None,
            ui_transform: None,
            ui_global: None,
            transform: None,
            global_transform: None,
        }
    }

    /// The record with no components at all.
    pub open spec fn spec_empty() -> Self {
        Rec {
            parent: None,
            ruby: None,
            ui_text: None,
            text2d: None,
            is_text_span: false,
            font: None,
            color: None,
            z_index: None,
            ruby_text: None,
            linked_ruby_text: None,
            ruby_text_2d: None,
            linked_ruby_text_2d: None,
            layout: None,
            computed: None,
            node: None,
            ui_transform: None,
            ui_global: None,
            transform: None,
            global_transform: None,
        }
    }
}

/// The arena of scene entities.  Ids are slot indices and are never reused.
pub struct Scene {
    entities: Vec<Option<Rec>>,
}

impl View for Scene {
    type V = Seq<Option<Rec>>;

    closed spec fn view(&self) -> Seq<Option<Rec>> {
        self.entities@
    }
}

/// The entity exists: its id names a live slot.
pub open spec fn spec_alive(s: Seq<Option<Rec>>, e: usize) -> bool {
    e < s.len() && s[e as int] is Some
}

/// What despawning an entity leaves behind: the entity's slot is cleared;
/// an annotation node bound to it is cleared with it (the binding owns the
/// node); and if the entity was itself an annotation node, the stale
/// forward link on its spec entity is removed.
pub open spec fn spec_despawn(s: Seq<Option<Rec>>, e: usize) -> Seq<Option<Rec>> {
    if !spec_alive(s, e) {
        s
    } else {
        let r = s[e as int]->Some_0;
        let s1 = s.update(e as int, None);
        let s2 = match r.linked_ruby_text {
            Some(l) => if spec_alive(s1, l.spec_entity()) {
                s1.update(l.spec_entity() as int, None)
            } else {
                s1
            },
            None => s1,
        };
        let s3 = match r.linked_ruby_text_2d {
            Some(l) => if spec_alive(s2, l.spec_entity()) {
                s2.update(l.spec_entity() as int, None)
            } else {
                s2
            },
            None => s2,
        };
        let s4 = match r.ruby_text {
            Some(b) => if spec_alive(s3, b.0) {
                s3.update(b.0 as int, Some(Rec { linked_ruby_text: None, ..s3[b.0 as int]->Some_0 }))
            } else {
                s3
            },
            None => s3,
        };
        match r.ruby_text_2d {
            Some(b) => if spec_alive(s4, b.0) {
                s4.update(
                    b.0 as int,
                    Some(Rec { linked_ruby_text_2d: None, ..s4[b.0 as int]->Some_0 }),
                )
            } else {
                s4
            },
            None => s4,
        }
    }
}

impl Scene {
    /// An empty scene.
    pub fn new() -> (s: Self)
        ensures
            s@ == Seq::<Option<Rec>>::empty(),
    {
        Scene { entities: Vec::new() }
    }

    /// The number of ids ever issued (live or despawned).
    pub fn len(&self) -> (n: usize)
        ensures
            n == self@.len(),
    {
        self.entities.len()
    }

    /// The record of the given entity, if the entity is alive.
    pub fn rec_at(&self, e: usize) -> (r: Option<&Rec>)
        ensures
            match r {
                Some(rec) => spec_alive(self@, e) && self@[e as int] == Some(*rec),
                None => !spec_alive(self@, e),
            },
    {
        if e < self.entities.len() {
            match &self.entities[e] {
                Some(rec) => Some(rec),
                None => None,
            }
        } else {
            None
        }
    }

    /// Spawns a new entity with the given components and returns its id,
    /// which is fresh: no earlier entity ever had it.
    pub fn spawn(&mut self, rec: Rec) -> (e: usize)
        ensures
            final(self)@ == old(self)@.push(Some(rec)),
            e == old(self)@.len(),
    {
        let e = self.entities.len();
        self.entities.push(Some(rec));
        e
    }

    /// Overwrites the components of a live entity.  The binding links are
    /// engine-owned, so the new record must carry the old record's links
    /// unchanged.
    pub fn set(&mut self, e: usize, rec: Rec)
        requires
            spec_alive(old(self)@, e),
            rec.ruby_text == old(self)@[e as int]->Some_0.ruby_text,
            rec.linked_ruby_text == old(self)@[e as int]->Some_0.linked_ruby_text,
            rec.ruby_text_2d == old(self)@[e as int]->Some_0.ruby_text_2d,
            rec.linked_ruby_text_2d == old(self)@[e as int]->Some_0.linked_ruby_text_2d,
        ensures
            final(self)@ == old(self)@.update(e as int, Some(rec)),
    {
        self.entities[e] = Some(rec);
    }

    /// Removes and returns the record of an entity, leaving the slot dead
    /// until something is put back.  Engine-internal.
    pub(crate) fn take_rec(&mut self, e: usize) -> (r: Option<Rec>)
        requires
            e < old(self)@.len(),
        ensures
            final(self)@ == old(self)@.update(e as int, None),
            r == old(self)@[e as int],
    {
        self.entities[e].take()
    }

    /// Writes the record of an entity outright.  Engine-internal: the
    /// engine alone may rewrite binding links.
    pub(crate) fn put_rec(&mut self, e: usize, rec: Rec)
        requires
            e < old(self)@.len(),
        ensures
            final(self)@ == old(self)@.update(e as int, Some(rec)),
    {
        self.entities[e] = Some(rec);
    }

    /// Despawns an entity.  Destroying a spec entity cascades to its bound
    /// annotation nodes; destroying an annotation node clears the stale
    /// forward link on its spec entity.  Despawning a dead id is a no-op.
    pub fn despawn(&mut self, e: usize)
        ensures
            final(self)@ == spec_despawn(old(self)@, e),
    {
        if e >= self.entities.len() {
            return ;
        }
        let (linked, linked_2d, back, back_2d) = match &self.entities[e] {
            Some(r) => (r.linked_ruby_text, r.linked_ruby_text_2d, r.ruby_text, r.ruby_text_2d),
            None => {
                return ;
            },
        };
        self.entities[e] = None;
        if let Some(l) = linked {
            let n = l.entity();
            if n < self.entities.len() && self.entities[n].is_some() {
                self.entities[n] = None;
            }
        }
        if let Some(l) = linked_2d {
            let n = l.entity();
            if n < self.entities.len() && self.entities[n].is_some() {
                self.entities[n] = None;
            }
        }
        if let Some(b) = back {
            let sp = b.0;
            if sp < self.entities.len() {
                let taken = self.entities[sp].take();
                if let Some(mut r) = taken {
                    r.linked_ruby_text = None;
                    self.entities[sp] = Some(r);
                }
            }
        }
        if let Some(b) = back_2d {
            let sp = b.0;
            if sp < self.entities.len() {
                let taken = self.entities[sp].take();
                if let Some(mut r) = taken {
                    r.linked_ruby_text_2d = None;
                    self.entities[sp] = Some(r);
                }
            }
        }
    }
}

/// The record is an annotation node: it carries an annotation marker and,
/// being generated, no annotation spec of its own.
pub open spec fn spec_is_annotation(r: Rec) -> bool {
    (r.ruby_text is Some || r.ruby_text_2d is Some) && r.ruby is None
}

/// No annotation node is the parent of any entity.  Annotation nodes are
/// generated overlay leaves; base-text entities and annotation entities
/// stay disjoint, so a placement pass never reads one of its own targets
/// as an ancestor source.
pub open spec fn annotations_not_parents(s: Seq<Option<Rec>>) -> bool {
    forall|i: int, j: usize|
        0 <= i < s.len() && (#[trigger] s[i]) is Some && s[i]->Some_0.parent == Some(j)
            && spec_alive(s, j) ==> !spec_is_annotation((#[trigger] s[j as int])->Some_0)
}

/// The geometric inputs carried by one record are within the exact-
/// arithmetic coordinate bound: shaped sizes and rectangles, layout
/// outputs, and scale factors.
pub open spec fn rec_geometry_bounded(r: Rec) -> bool {
    &&& match r.layout {
        Some(l) => l.size.size_bounded() && 1 <= l.scale_factor <= crate::geom::COORD_BOUND
            && forall|j: int| 0 <= j < l.rects@.len() ==> (#[trigger] l.rects@[j].rect).bounded(),
        None => true,
    }
    &&& match r.computed {
        Some(c) => c.size.size_bounded() && -crate::geom::COORD_BOUND <= c.border_left
            <= crate::geom::COORD_BOUND && -crate::geom::COORD_BOUND <= c.border_top
            <= crate::geom::COORD_BOUND && 1 <= c.target_scale_factor <= crate::geom::COORD_BOUND,
        None => true,
    }
}

/// The transforms carried by one record are well formed, and its world
/// position is within the coordinate bound.  Demanded of base-text
/// entities, whose transforms the placement pass reads; the transforms the
/// pass writes onto annotation nodes may leave the raw bound.
pub open spec fn rec_transforms_wf(r: Rec) -> bool {
    &&& match r.ui_global {
        Some(t) => t.wf(),
        None => true,
    }
    &&& match r.global_transform {
        Some(t) => t.wf(),
        None => true,
    }
    &&& match r.transform {
        Some(t) => -crate::geom::COORD_BOUND <= t.x <= crate::geom::COORD_BOUND
            && -crate::geom::COORD_BOUND <= t.y <= crate::geom::COORD_BOUND
            && -crate::geom::COORD_BOUND <= t.z <= crate::geom::COORD_BOUND,
        None => true,
    }
}

/// Every record's geometric inputs are bounded, and every record that is
/// not an annotation node carries well-formed transforms.  The placement
/// passes demand this of the scene; it is what makes their arithmetic
/// exact.
pub open spec fn scene_geometry_bounded(s: Seq<Option<Rec>>) -> bool {
    forall|i: int|
        0 <= i < s.len() && s[i] is Some ==> rec_geometry_bounded(#[trigger] s[i]->Some_0) && (
        !spec_is_annotation(s[i]->Some_0) ==> rec_transforms_wf(s[i]->Some_0))
}

/// The first rectangle recorded for the given run entity, scanning the
/// shaping output in order from the given position.
pub open spec fn spec_find_rect_from(rects: Seq<SectionRect>, key: usize, i: int) -> Option<RectI>
    decreases rects.len() - i,
{
    if i < 0 || i >= rects.len() {
        None
    } else if rects[i].id == key {
        Some(rects[i].rect)
    } else {
        spec_find_rect_from(rects, key, i + 1)
    }
}

/// The first rectangle recorded for the given run entity, if the shaping
/// output mentions it.
pub open spec fn spec_find_rect(rects: Seq<SectionRect>, key: usize) -> Option<RectI> {
    spec_find_rect_from(rects, key, 0)
}

/// Scans the shaping output for the rectangle of the given run entity.
pub fn find_rect(rects: &Vec<SectionRect>, key: usize) -> (r: Option<RectI>)
    ensures
        r == spec_find_rect(rects@, key),
{
    let n = rects.len();
    for idx in 0..n
        invariant
            n == rects@.len(),
            spec_find_rect(rects@, key) == spec_find_rect_from(rects@, key, idx as int),
    {
        if rects[idx].id == key {
            return Some(rects[idx].rect);
        }
    }
    None
}

/// A rectangle found in a shaping output whose rectangles are all bounded
/// is bounded.
pub proof fn lemma_find_rect_from_bounded(rects: Seq<SectionRect>, key: usize, i: int)
    requires
        forall|j: int| 0 <= j < rects.len() ==> (#[trigger] rects[j].rect).bounded(),
    ensures
        (spec_find_rect_from(rects, key, i) matches Some(r) ==> r.bounded()),
    decreases rects.len() - i,
{
    if 0 <= i && i < rects.len() && rects[i].id != key {
        lemma_find_rect_from_bounded(rects, key, i + 1);
    }
}

/// The run rectangle used by placement: the recorded rectangle, or the
/// zero rectangle when the shaping output does not mention the run this
/// frame.
pub open spec fn spec_rect_or_zero(rects: Seq<SectionRect>, key: usize) -> RectI {
    match spec_find_rect(rects, key) {
        Some(r) => r,
        None => RectI { min: Vec2I { x: 0, y: 0 }, max: Vec2I { x: 0, y: 0 } },
    }
}

/// The lifecycle cascade: despawning a spec entity leaves neither the spec
/// entity nor any annotation node bound to it alive, and it does not
/// shorten the arena, so every id a later spawn issues is fresh — a spec
/// re-added later gets a new, independent node, never a stale binding.
pub proof fn lemma_lifecycle_cascade(s: Seq<Option<Rec>>, e: usize)
    requires
        spec_alive(s, e),
        s[e as int]->Some_0.ruby_text is None,
        s[e as int]->Some_0.ruby_text_2d is None,
    ensures
        spec_despawn(s, e).len() == s.len(),
        !spec_alive(spec_despawn(s, e), e),
        (s[e as int]->Some_0.linked_ruby_text matches Some(l) ==> !spec_alive(
            spec_despawn(s, e),
            l.spec_entity(),
        )),
        (s[e as int]->Some_0.linked_ruby_text_2d matches Some(l) ==> !spec_alive(
            spec_despawn(s, e),
            l.spec_entity(),
        )),
{
}

/// The text block that hosts an entity's runs: a fragment's runs are shaped
/// by its parent block, a block's by itself.
pub open spec fn spec_text_root(s: Seq<Option<Rec>>, e: usize) -> Option<usize> {
    if !spec_alive(s, e) {
        None
    } else if s[e as int]->Some_0.is_text_span {
        s[e as int]->Some_0.parent
    } else {
        Some(e)
    }
}

/// Resolves the text block that hosts an entity's runs.
pub fn text_root_of(scene: &Scene, e: usize) -> (r: Option<usize>)
    ensures
        r == spec_text_root(scene@, e),
{
    match scene.rec_at(e) {
        Some(rec) => {
            if rec.is_text_span {
                rec.parent
            } else {
                Some(e)
            }
        },
        None => None,
    }
}

} // verus!
