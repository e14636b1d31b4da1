//! The flow-layout (UI box) regime: attachment, content sync and placement
//! of annotation nodes that live inside a box-model layout with
//! parent-relative absolute offsets.

use vstd::prelude::*;

use crate::geom::{transform_point, Affine, Vec2I};
use crate::placement::{
    anchor_point, center_anchor, flow_offset, spec_anchor_x, spec_anchor_y, spec_center_anchor,
    spec_elimination_affine, spec_flow_global_point, spec_flow_offset,
};
use crate::scene::{
    annotations_not_parents, find_rect, scene_geometry_bounded, spec_alive, spec_is_annotation,
    spec_rect_or_zero, spec_text_root, ComputedNodeData, Rec, Scene, UiNodeData, UiTransformData,
};
use crate::{ruby_text_font, spec_scaled_font_size, FontInfo};

verus! {

/// Marks a flow-regime annotation node and names the spec entity it
/// annotates.
#[derive(Clone, Copy, Debug, PartialEq, Eq, Structural)]
pub struct RubyText(pub usize);

/// On a spec entity, names the flow-regime annotation node bound to it.
#[derive(Clone, Copy, Debug, PartialEq, Eq, Structural)]
pub struct LinkedRubyText(pub usize);

impl LinkedRubyText {
    /// The id of the bound annotation node.
    pub open spec fn spec_entity(self) -> usize {
        self.0
    }

    /// The id of the bound annotation node.
    pub fn entity(&self) -> (e: usize)
        ensures
            e == self.spec_entity(),
    {
        self.0
    }
}

/// A stacking order one step above the given one, saturating at the top.
pub open spec fn spec_z_above(z: i64) -> i64 {
    if z == i64::MAX {
        z
    } else {
        (z + 1) as i64
    }
}

/// The base font with its size scaled by the spec's ratio.
pub open spec fn spec_ruby_font(f: FontInfo, scale: u32) -> FontInfo {
    FontInfo { font: f.font, font_size: spec_scaled_font_size(f.font_size, scale) }
}

/// The record of a freshly spawned flow-regime annotation node: the
/// annotation text in the scaled font and resolved color, an absolutely
/// positioned node that is hidden with automatic offsets until its first
/// placement, stacked just above its base text, attached to the resolved
/// render host, with the default companions of a flow node (zero computed
/// size, identity transforms).
pub open spec fn spec_ruby_node_rec(
    e: usize,
    parent: Option<usize>,
    rt: String,
    scale: u32,
    f: FontInfo,
    color: Option<u32>,
    z: i64,
) -> Rec {
    Rec {
        parent,
        ui_text: Some(rt),
        font: Some(spec_ruby_font(f, scale)),
        color,
        z_index: Some(spec_z_above(z)),
        ruby_text: Some(RubyText(e)),
        node: Some(UiNodeData { top: None, left: None, hidden: true }),
        computed: Some(
            ComputedNodeData {
                size: crate::geom::Vec2I { x: 0, y: 0 },
                border_left: 0,
                border_top: 0,
                target_scale_factor: 1,
            },
        ),
        ui_transform: Some(
            UiTransformData { scale: crate::geom::Vec2I { x: 1, y: 1 }, rot: crate::geom::Rot::R0 },
        ),
        ui_global: Some(Affine::spec_identity()),
        ..Rec::spec_empty()
    }
}

/// What spawning and binding a flow-regime annotation node leaves behind:
/// the node record appended under a fresh id, and the spec entity linked to
/// it.
pub open spec fn spec_create_ruby_text(
    s: Seq<Option<Rec>>,
    e: usize,
    parent: Option<usize>,
    rt: String,
    scale: u32,
    f: FontInfo,
    color: Option<u32>,
    z: i64,
) -> Seq<Option<Rec>> {
    let node_id = s.len() as usize;
    let s1 = s.push(Some(spec_ruby_node_rec(e, parent, rt, scale, f, color, z)));
    s1.update(
        e as int,
        Some(Rec { linked_ruby_text: Some(LinkedRubyText(node_id)), ..s[e as int]->Some_0 }),
    )
}

/// What handling "an annotation spec appeared on a flow-regime text block"
/// leaves behind.  The entity must be a live text block carrying a spec, a
/// font and a stacking order, and must not be bound yet; anything else is
/// silently inert.  The node's color is the spec's override or, failing
/// that, the block's own color.  The render host is the block's parent, so
/// the node overlays the block instead of participating in its layout.
pub open spec fn spec_add_ruby(s: Seq<Option<Rec>>, e: usize) -> Seq<Option<Rec>> {
    if !spec_alive(s, e) {
        s
    } else {
        let r = s[e as int]->Some_0;
        match (r.ruby, r.font, r.z_index) {
            (Some(rb), Some(f), Some(z)) => if r.ui_text is Some && r.linked_ruby_text is None
                && !r.is_text_span {
                let color = match rb.color {
                    Some(c) => Some(c),
                    None => r.color,
                };
                spec_create_ruby_text(s, e, r.parent, rb.rt, rb.font_size_scale, f, color, z)
            } else {
                s
            },
            _ => s,
        }
    }
}

/// Handles "an annotation spec appeared on this entity" for a flow-regime
/// text block: resolves the host, spawns the annotation node and binds it.
pub fn add_ruby(scene: &mut Scene, entity: usize)
    ensures
        final(scene)@ == spec_add_ruby(old(scene)@, entity),
{
    let (rt_clone, font, scale, color, z, parent) = match scene.rec_at(entity) {
        Some(r) => {
            if r.linked_ruby_text.is_some() || r.ui_text.is_none() || r.is_text_span {
                return ;
            }
            match (&r.ruby, &r.font, &r.z_index) {
                (Some(rb), Some(f), Some(z)) => {
                    let color = match &rb.color {
                        Some(c) => Some(*c),
                        None => r.color,
                    };
                    (rb.rt.clone(), *f, rb.font_size_scale, color, *z, r.parent)
                },
                _ => {
                    return ;
                },
            }
        },
        None => {
            return ;
        },
    };
    create_ruby_text(scene, entity, parent, rt_clone, font, scale, color, z);
    proof {
        assert(final(scene)@ =~= spec_add_ruby(old(scene)@, entity));
    }
}

/// Attaching a spec to an eligible flow-regime block always binds: the
/// spec entity is linked to a fresh annotation node, the node names the
/// spec entity back, and the node starts hidden at placeholder offsets,
/// hosted by the block's parent.
pub proof fn lemma_add_ruby_binds(s: Seq<Option<Rec>>, e: usize)
    requires
        spec_alive(s, e),
        s[e as int]->Some_0.ruby is Some,
        s[e as int]->Some_0.ui_text is Some,
        s[e as int]->Some_0.font is Some,
        s[e as int]->Some_0.z_index is Some,
        s[e as int]->Some_0.linked_ruby_text is None,
        !s[e as int]->Some_0.is_text_span,
    ensures
        ({
            let s1 = spec_add_ruby(s, e);
            let n = s.len() as int;
            &&& s1.len() == s.len() + 1
            &&& s1[e as int]->Some_0.linked_ruby_text == Some(LinkedRubyText(n as usize))
            &&& s1[n]->Some_0.ruby_text == Some(RubyText(e))
            &&& s1[n]->Some_0.node->Some_0.hidden
            &&& s1[n]->Some_0.node->Some_0.top is None
            &&& s1[n]->Some_0.node->Some_0.left is None
            &&& s1[n]->Some_0.parent == s[e as int]->Some_0.parent
        }),
{
}

/// What handling "an annotation spec appeared on a flow-regime fragment"
/// leaves behind.  The fragment's parent must be a live flow-regime text
/// block; the font — and the color, when the spec gives no override —
/// comes from the fragment itself or, failing that, is inherited from the
/// block; the render host is the block's parent (the fragment's
/// grandparent), so the node overlays the whole block.
pub open spec fn spec_add_ruby_text_span(s: Seq<Option<Rec>>, e: usize) -> Seq<Option<Rec>> {
    if !spec_alive(s, e) {
        s
    } else {
        let r = s[e as int]->Some_0;
        match r.ruby {
            Some(rb) => if r.is_text_span && r.linked_ruby_text is None && r.parent is Some
                && spec_alive(s, r.parent->Some_0) {
                let p = s[r.parent->Some_0 as int]->Some_0;
                match (p.ui_text, p.z_index) {
                    (Some(_pt), Some(z)) => {
                        let font = if r.font is Some {
                            r.font
                        } else {
                            p.font
                        };
                        let color = match rb.color {
                            Some(c) => Some(c),
                            None => if r.color is Some {
                                r.color
                            } else {
                                p.color
                            },
                        };
                        match font {
                            Some(f) => spec_create_ruby_text(
                                s,
                                e,
                                p.parent,
                                rb.rt,
                                rb.font_size_scale,
                                f,
                                color,
                                z,
                            ),
                            None => s,
                        }
                    },
                    _ => s,
                }
            } else {
                s
            },
            None => s,
        }
    }
}

/// Handles "an annotation spec appeared on this entity" for a fragment of
/// a flow-regime block: resolves the host two levels up, spawns the
/// annotation node and binds it.
pub fn add_ruby_text_span(scene: &mut Scene, entity: usize)
    ensures
        final(scene)@ == spec_add_ruby_text_span(old(scene)@, entity),
{
    let (rt_clone, scale, rb_color, own_font, own_color, parent) = match scene.rec_at(entity) {
        Some(r) => {
            if !r.is_text_span || r.linked_ruby_text.is_some() {
                return ;
            }
            match (&r.ruby, &r.parent) {
                (Some(rb), Some(p)) => (
                    rb.rt.clone(),
                    rb.font_size_scale,
                    rb.color,
                    r.font,
                    r.color,
                    *p,
                ),
                _ => {
                    return ;
                },
            }
        },
        None => {
            return ;
        },
    };
    let (z, parent_font, parent_color, grandparent) = match scene.rec_at(parent) {
        Some(p) => {
            if p.ui_text.is_none() {
                return ;
            }
            match &p.z_index {
                Some(z) => (*z, p.font, p.color, p.parent),
                None => {
                    return ;
                },
            }
        },
        None => {
            return ;
        },
    };
    let font = match own_font {
        Some(f) => f,
        None => match parent_font {
            Some(f) => f,
            None => {
                return ;
            },
        },
    };
    let color = match rb_color {
        Some(c) => Some(c),
        None => match own_color {
            Some(c) => Some(c),
            None => parent_color,
        },
    };
    create_ruby_text(scene, entity, grandparent, rt_clone, font, scale, color, z);
    proof {
        assert(final(scene)@ =~= spec_add_ruby_text_span(old(scene)@, entity));
    }
}

/// What the content/style sync leaves of the entity at index `i`: for a
/// bound flow-regime annotation node whose spec is live, the node's text
/// mirrors the spec's annotation text and the node's font mirrors the base
/// run's font scaled by the spec's ratio, both gated on an actual change of
/// value; the node's color mirrors the spec's override or, failing that,
/// the base run's live color, rewritten every pass so the inherited color
/// tracks live updates (a base run without a color leaves the node's color
/// alone).  Every other entity is untouched.
pub open spec fn spec_sync_ui_at(s: Seq<Option<Rec>>, i: int) -> Option<Rec> {
    if s[i] is None {
        None
    } else {
        let r = s[i]->Some_0;
        match r.ruby_text {
            Some(bk) => if r.ruby is None && r.ui_text is Some && r.font is Some && spec_alive(
                s,
                bk.0,
            ) {
                let sp = s[bk.0 as int]->Some_0;
                match (sp.ruby, sp.font) {
                    (Some(rb), Some(bf)) => {
                        let new_text = if r.ui_text->Some_0@ == rb.rt@ {
                            r.ui_text
                        } else {
                            Some(rb.rt)
                        };
                        let target = spec_ruby_font(bf, rb.font_size_scale);
                        let new_font = if r.font->Some_0 == target {
                            r.font
                        } else {
                            Some(target)
                        };
                        let new_color = match rb.color {
                            Some(c) => Some(c),
                            None => match sp.color {
                                Some(c) => Some(c),
                                None => r.color,
                            },
                        };
                        Some(Rec { ui_text: new_text, font: new_font, color: new_color, ..r })
                    },
                    _ => Some(r),
                }
            } else {
                Some(r)
            },
            None => Some(r),
        }
    }
}

/// What one whole content/style sync pass leaves of the scene.
pub open spec fn spec_sync_ui(s: Seq<Option<Rec>>) -> Seq<Option<Rec>> {
    Seq::new(s.len(), |i: int| spec_sync_ui_at(s, i))
}

/// Syncing one entity reads only that entity and its spec entity, and the
/// sync never touches an entity that carries a spec; so the outcome at one
/// index is the same whether the rest of the scene has already been synced
/// or not.
proof fn lemma_sync_ui_at_stable(s0: Seq<Option<Rec>>, s1: Seq<Option<Rec>>, i: int)
    requires
        s0.len() == s1.len(),
        0 <= i < s0.len(),
        s1[i] == s0[i],
        forall|j: int|
            0 <= j < s0.len() ==> #[trigger] s1[j] == s0[j] || s1[j] == spec_sync_ui_at(s0, j),
    ensures
        spec_sync_ui_at(s1, i) == spec_sync_ui_at(s0, i),
{
    if s0[i] is Some {
        let r = s0[i]->Some_0;
        match r.ruby_text {
            Some(bk) => {
                if 0 <= bk.0 < s0.len() {
                    assert(s1[bk.0 as int] == s0[bk.0 as int] || s1[bk.0 as int]
                        == spec_sync_ui_at(s0, bk.0 as int));
                }
            },
            None => {},
        }
    }
}

/// Running the flow-regime sync a second time with no source change in
/// between produces a bit-identical scene: after one pass every node
/// already mirrors its spec, so the change-gated writes find nothing to
/// do.
pub proof fn lemma_update_ruby_text_idempotent(s: Seq<Option<Rec>>)
    ensures
        spec_sync_ui(spec_sync_ui(s)) == spec_sync_ui(s),
{
    let s1 = spec_sync_ui(s);
    assert(s1.len() == s.len());
    assert forall|i: int| 0 <= i < s.len() implies #[trigger] spec_sync_ui_at(s1, i) == s1[i] by {
        assert(forall|j: int| 0 <= j < s.len() ==> #[trigger] s1[j] == spec_sync_ui_at(s, j));
        if s1[i] == s[i] {
            lemma_sync_ui_at_stable(s, s1, i);
        } else {
            let r = s[i]->Some_0;
            let e = r.ruby_text->Some_0.0;
            assert(spec_sync_ui_at(s, e as int) == s[e as int]);
            assert(s1[e as int] == s[e as int]);
            assert(spec_sync_ui_at(s1, i) == s1[i]);
        }
    }
    assert(spec_sync_ui(s1) =~= s1);
}

/// Syncs the entity at index `i`.
fn sync_ui_step(scene: &mut Scene, i: usize)
    requires
        i < old(scene)@.len(),
    ensures
        final(scene)@ == old(scene)@.update(i as int, spec_sync_ui_at(old(scene)@, i as int)),
{
    let (text_write, font_write, color_write): (Option<String>, Option<FontInfo>, Option<u32>) =
        match scene.rec_at(i) {
        Some(r) => {
            if r.ruby.is_some() {
                proof {
                    assert(final(scene)@ =~= old(scene)@.update(
                        i as int,
                        spec_sync_ui_at(old(scene)@, i as int),
                    ));
                }
                return ;
            }
            let bk: usize = match &r.ruby_text {
                Some(b) => b.0,
                None => {
                    proof {
                        assert(final(scene)@ =~= old(scene)@.update(
                            i as int,
                            spec_sync_ui_at(old(scene)@, i as int),
                        ));
                    }
                    return ;
                },
            };
            match (&r.ui_text, &r.font) {
                (Some(t_cur), Some(f_cur)) => {
                    match scene.rec_at(bk) {
                        Some(sp) => {
                            match (&sp.ruby, &sp.font) {
                                (Some(rb), Some(bf)) => {
                                    let tw = if *t_cur == rb.rt {
                                        None
                                    } else {
                                        Some(rb.rt.clone())
                                    };
                                    let target = ruby_text_font(bf, rb.font_size_scale);
                                    let fw = if *f_cur == target {
                                        None
                                    } else {
                                        Some(target)
                                    };
                                    let cw = match &rb.color {
                                        Some(c) => Some(*c),
                                        None => sp.color,
                                    };
                                    (tw, fw, cw)
                                },
                                _ => {
                                    proof {
                                        assert(final(scene)@ =~= old(scene)@.update(
                                            i as int,
                                            spec_sync_ui_at(old(scene)@, i as int),
                                        ));
                                    }
                                    return ;
                                },
                            }
                        },
                        None => {
                            proof {
                                assert(final(scene)@ =~= old(scene)@.update(
                                    i as int,
                                    spec_sync_ui_at(old(scene)@, i as int),
                                ));
                            }
                            return ;
                        },
                    }
                },
                _ => {
                    proof {
                        assert(final(scene)@ =~= old(scene)@.update(
                            i as int,
                            spec_sync_ui_at(old(scene)@, i as int),
                        ));
                    }
                    return ;
                },
            }
        },
        None => {
            proof {
                assert(final(scene)@ =~= old(scene)@.update(
                    i as int,
                    spec_sync_ui_at(old(scene)@, i as int),
                ));
            }
            return ;
        },
    };
    let mut r = match scene.take_rec(i) {
        Some(r) => r,
        None => {
            proof {
                assert(false);
            }
            return ;
        },
    };
    if let Some(t) = text_write {
        r.ui_text = Some(t);
    }
    if let Some(f) = font_write {
        r.font = Some(f);
    }
    if let Some(c) = color_write {
        r.color = Some(c);
    }
    scene.put_rec(i, r);
    proof {
        assert(final(scene)@ =~= old(scene)@.update(
            i as int,
            spec_sync_ui_at(old(scene)@, i as int),
        ));
    }
}

/// The frame of the render host that an annotation node's offsets are
/// expressed in: the host's render-target scale factor, global transform
/// and layout output.  A block without a usable host (no parent, or a
/// parent the layout passes have not touched) falls back to an untransformed
/// host at unit scale.
pub open spec fn spec_parent_frame(s: Seq<Option<Rec>>, parent: Option<usize>) -> (
    i64,
    Affine,
    ComputedNodeData,
) {
    match parent {
        Some(p) => if spec_alive(s, p) && s[p as int]->Some_0.computed is Some
            && s[p as int]->Some_0.ui_global is Some && s[p as int]->Some_0.ui_transform is Some {
            let pr = s[p as int]->Some_0;
            (pr.computed->Some_0.target_scale_factor, pr.ui_global->Some_0, pr.computed->Some_0)
        } else {
            (
                1,
                Affine::spec_identity(),
                ComputedNodeData {
                    size: Vec2I { x: 0, y: 0 },
                    border_left: 0,
                    border_top: 0,
                    target_scale_factor: 1,
                },
            )
        },
        None => (
            1,
            Affine::spec_identity(),
            ComputedNodeData {
                size: Vec2I { x: 0, y: 0 },
                border_left: 0,
                border_top: 0,
                target_scale_factor: 1,
            },
        ),
    }
}

/// What the flow-regime placement leaves of the entity at index `i` under
/// the given one-frame-delay-elimination setting: a bound annotation node
/// whose spec, block and layout data are all present takes the block's
/// local scale and rotation, gets its `(left, top)` offsets within the
/// render host, leaves its pending-hidden state, and — when elimination is
/// on — has its global transform written outright so it renders correctly
/// this very frame.  The anchor is re-centered by half the block's
/// laid-out size, which is this regime's content size: the run rectangles
/// are placed within the block's laid-out box, and the block's global
/// transform maps from that box's center.  An entity missing any input,
/// and every other entity, is untouched.
pub open spec fn spec_place_ui_at(s: Seq<Option<Rec>>, eliminate: bool, i: int) -> Option<Rec> {
    if s[i] is None {
        None
    } else {
        let r = s[i]->Some_0;
        match r.ruby_text {
            Some(bk) => if r.ruby is None && spec_alive(s, bk.0) {
                let e = bk.0;
                let sp = s[e as int]->Some_0;
                match sp.ruby {
                    Some(rb) => if sp.linked_ruby_text == Some(LinkedRubyText(i as usize)) {
                        match spec_text_root(s, e) {
                            Some(b) => if spec_alive(s, b) {
                                let br = s[b as int]->Some_0;
                                match (br.layout, br.computed, br.ui_global, br.ui_transform) {
                                    (Some(bl), Some(bc), Some(bg), Some(bt)) => {
                                        match (r.computed, r.ui_global, r.ui_transform, r.node) {
                                            (Some(nc), Some(_ng), Some(_nt), Some(_nn)) => {
                                                let pf = spec_parent_frame(s, br.parent);
                                                let rect = spec_rect_or_zero(bl.rects@, e);
                                                let anchor = Vec2I {
                                                    x: spec_anchor_x(
                                                        rect,
                                                        rb.align,
                                                        nc.size.x as int,
                                                    ) as i64,
                                                    y: spec_anchor_y(rect, rb.position) as i64,
                                                };
                                                let local = spec_center_anchor(anchor, bc.size);
                                                let global = spec_flow_global_point(bg, local);
                                                let off = spec_flow_offset(
                                                    pf.1,
                                                    pf.2.size,
                                                    Vec2I { x: pf.2.border_left, y: pf.2.border_top },
                                                    nc.size,
                                                    pf.0 as int,
                                                    global,
                                                );
                                                Some(
                                                    Rec {
                                                        ui_transform: Some(bt),
                                                        ui_global: if eliminate {
                                                            Some(spec_elimination_affine(bg, global))
                                                        } else {
                                                            r.ui_global
                                                        },
                                                        node: Some(
                                                            UiNodeData {
                                                                top: Some(off.1 as i64),
                                                                left: Some(off.0 as i64),
                                                                hidden: false,
                                                            },
                                                        ),
                                                        ..r
                                                    },
                                                )
                                            },
                                            _ => Some(r),
                                        }
                                    },
                                    _ => Some(r),
                                }
                            } else {
                                Some(r)
                            },
                            None => Some(r),
                        }
                    } else {
                        Some(r)
                    },
                    None => Some(r),
                }
            } else {
                Some(r)
            },
            None => Some(r),
        }
    }
}

/// What one whole flow-regime placement pass leaves of the scene.
pub open spec fn spec_place_ui(s: Seq<Option<Rec>>, eliminate: bool) -> Seq<Option<Rec>> {
    Seq::new(s.len(), |i: int| spec_place_ui_at(s, eliminate, i))
}

/// Placing one node reads only its own record, its spec entity, its block
/// and the block's parent, none of which the pass writes (annotation nodes
/// are never ancestors); so the outcome at one index is the same whether
/// the rest of the scene has already been placed or not.
proof fn lemma_place_ui_at_stable(
    s0: Seq<Option<Rec>>,
    s1: Seq<Option<Rec>>,
    eliminate: bool,
    i: int,
)
    requires
        s0.len() == s1.len(),
        0 <= i < s0.len(),
        s1[i] == s0[i],
        forall|j: int|
            0 <= j < s0.len() ==> #[trigger] s1[j] == s0[j] || s1[j] == spec_place_ui_at(
                s0,
                eliminate,
                j,
            ),
        annotations_not_parents(s0),
    ensures
        spec_place_ui_at(s1, eliminate, i) == spec_place_ui_at(s0, eliminate, i),
{
    if s0[i] is Some {
        let r = s0[i]->Some_0;
        match r.ruby_text {
            Some(bk) => {
                let e = bk.0;
                if 0 <= e < s0.len() {
                    assert(s1[e as int] == s0[e as int] || s1[e as int] == spec_place_ui_at(
                        s0,
                        eliminate,
                        e as int,
                    ));
                    if s0[e as int] is Some && s0[e as int]->Some_0.ruby is Some {
                        assert(spec_place_ui_at(s0, eliminate, e as int) == s0[e as int]);
                        match spec_text_root(s0, e) {
                            Some(b) => {
                                if spec_alive(s0, b) {
                                    assert(s1[b as int] == s0[b as int] || s1[b as int]
                                        == spec_place_ui_at(s0, eliminate, b as int));
                                    if b != e {
                                        assert(s0[e as int]->Some_0.parent == Some(b));
                                        assert(!spec_is_annotation(s0[b as int]->Some_0));
                                        assert(spec_place_ui_at(s0, eliminate, b as int)
                                            == s0[b as int]);
                                    }
                                    assert(s1[b as int] == s0[b as int]);
                                    match s0[b as int]->Some_0.parent {
                                        Some(p) => {
                                            if 0 <= p < s0.len() {
                                                assert(s1[p as int] == s0[p as int] || s1[p as int]
                                                    == spec_place_ui_at(s0, eliminate, p as int));
                                                if spec_alive(s0, p) {
                                                    assert(!spec_is_annotation(
                                                        s0[p as int]->Some_0,
                                                    ));
                                                    assert(spec_place_ui_at(
                                                        s0,
                                                        eliminate,
                                                        p as int,
                                                    ) == s0[p as int]);
                                                }
                                            }
                                        },
                                        None => {},
                                    }
                                }
                            },
                            None => {},
                        }
                    }
                }
            },
            None => {},
        }
    }
}

/// The placement pass only moves annotation nodes: it never changes which
/// entities are alive, which are annotations, who is whose parent, any
/// shaping or layout output, or any base entity at all; so the scene
/// predicates the pass relies on survive it.
proof fn lemma_place_ui_preserves_predicates(
    s0: Seq<Option<Rec>>,
    s1: Seq<Option<Rec>>,
    eliminate: bool,
)
    requires
        s0.len() == s1.len(),
        forall|j: int|
            0 <= j < s0.len() ==> #[trigger] s1[j] == s0[j] || s1[j] == spec_place_ui_at(
                s0,
                eliminate,
                j,
            ),
        scene_geometry_bounded(s0),
        annotations_not_parents(s0),
    ensures
        scene_geometry_bounded(s1),
        annotations_not_parents(s1),
{
    assert forall|j: int| 0 <= j < s1.len() && s1[j] is Some implies
        crate::scene::rec_geometry_bounded(#[trigger] s1[j]->Some_0) && (!spec_is_annotation(
        s1[j]->Some_0,
    ) ==> crate::scene::rec_transforms_wf(s1[j]->Some_0)) by {
        assert(s1[j] == s0[j] || s1[j] == spec_place_ui_at(s0, eliminate, j));
    }
    assert forall|i: int, j: usize|
        0 <= i < s1.len() && (#[trigger] s1[i]) is Some && s1[i]->Some_0.parent == Some(j)
            && spec_alive(s1, j) implies !spec_is_annotation((#[trigger] s1[j as int])->Some_0) by {
        assert(s1[i] == s0[i] || s1[i] == spec_place_ui_at(s0, eliminate, i));
        assert(s1[j as int] == s0[j as int] || s1[j as int] == spec_place_ui_at(
            s0,
            eliminate,
            j as int,
        ));
        assert(s0[i] is Some && s0[i]->Some_0.parent == Some(j));
        assert(spec_alive(s0, j));
    }
}

/// Every input that the flow-regime placement needs for the bound pair
/// whose annotation node sits at index `i` is present this frame.
pub open spec fn spec_ui_pair_ready(s: Seq<Option<Rec>>, i: int) -> bool {
    0 <= i < s.len() && s[i] is Some && {
        let r = s[i]->Some_0;
        r.ruby_text is Some && r.ruby is None && spec_alive(s, r.ruby_text->Some_0.0) && {
            let e = r.ruby_text->Some_0.0;
            let sp = s[e as int]->Some_0;
            sp.ruby is Some && sp.linked_ruby_text == Some(LinkedRubyText(i as usize))
                && spec_text_root(s, e) is Some && spec_alive(s, spec_text_root(s, e)->Some_0) && {
                let br = s[spec_text_root(s, e)->Some_0 as int]->Some_0;
                br.layout is Some && br.computed is Some && br.ui_global is Some
                    && br.ui_transform is Some
            } && r.computed is Some && r.ui_global is Some && r.ui_transform is Some
                && r.node is Some
        }
    }
}

/// The global point the flow-regime placement computes for the bound pair
/// whose annotation node sits at index `i`: the anchor within the block's
/// run rectangle, re-centered by half the block's laid-out size and carried
/// by the block's global transform.  The laid-out size is the content size
/// of this regime: the shaping pass places its run rectangles within the
/// block's laid-out box, and the block's global transform maps from that
/// box's center.
pub open spec fn spec_ui_global_point(s: Seq<Option<Rec>>, i: int) -> (int, int)
    recommends
        spec_ui_pair_ready(s, i),
{
    let r = s[i]->Some_0;
    let e = r.ruby_text->Some_0.0;
    let sp = s[e as int]->Some_0;
    let br = s[spec_text_root(s, e)->Some_0 as int]->Some_0;
    let rect = spec_rect_or_zero(br.layout->Some_0.rects@, e);
    let anchor = Vec2I {
        x: spec_anchor_x(rect, sp.ruby->Some_0.align, r.computed->Some_0.size.x as int) as i64,
        y: spec_anchor_y(rect, sp.ruby->Some_0.position) as i64,
    };
    spec_flow_global_point(br.ui_global->Some_0, spec_center_anchor(anchor, br.computed->Some_0.size))
}

/// One-frame-delay elimination: when the setting is on, a single placement
/// pass already leaves the node's global transform at the computed
/// placement — the block's scale and rotation over the computed global
/// point — without waiting for the external transform propagation that
/// would otherwise only catch up a frame later; and the node leaves its
/// pending-hidden state.
pub proof fn lemma_one_frame_elimination(s: Seq<Option<Rec>>, i: int)
    requires
        spec_ui_pair_ready(s, i),
    ensures
        ({
            let placed = spec_place_ui(s, true)[i]->Some_0;
            let e = s[i]->Some_0.ruby_text->Some_0.0;
            let bg = s[spec_text_root(s, e)->Some_0 as int]->Some_0.ui_global->Some_0;
            placed.ui_global == Some(spec_elimination_affine(bg, spec_ui_global_point(s, i)))
                && placed.node->Some_0.hidden == false
        }),
{
    assert(spec_place_ui(s, true)[i] == spec_place_ui_at(s, true, i));
}

/// Running the flow-regime placement a second time with no source change
/// in between produces a bit-identical scene: every computed placement is a
/// function of inputs the pass never writes, so the second pass finds every
/// node already in place and changes nothing.
pub proof fn lemma_update_ruby_idempotent(s: Seq<Option<Rec>>, eliminate: bool)
    requires
        scene_geometry_bounded(s),
        annotations_not_parents(s),
    ensures
        spec_place_ui(spec_place_ui(s, eliminate), eliminate) == spec_place_ui(s, eliminate),
{
    let s1 = spec_place_ui(s, eliminate);
    assert(s1.len() == s.len());
    assert forall|i: int| 0 <= i < s.len() implies #[trigger] spec_place_ui_at(s1, eliminate, i)
        == s1[i] by {
        lemma_place_ui_at_idem(s, eliminate, i);
    }
    assert(spec_place_ui(s1, eliminate) =~= s1);
}

/// Placing an already placed scene changes nothing at any one index.
proof fn lemma_place_ui_at_idem(s: Seq<Option<Rec>>, eliminate: bool, i: int)
    requires
        0 <= i < s.len(),
        scene_geometry_bounded(s),
        annotations_not_parents(s),
    ensures
        spec_place_ui_at(spec_place_ui(s, eliminate), eliminate, i) == spec_place_ui(s, eliminate)[i],
{
    let s1 = spec_place_ui(s, eliminate);
    assert(s1.len() == s.len());
    assert(forall|j: int| 0 <= j < s.len() ==> #[trigger] s1[j] == spec_place_ui_at(s, eliminate, j));
    if s1[i] == s[i] {
        lemma_place_ui_at_stable(s, s1, eliminate, i);
    } else {
        // The pair was placed: every input it was computed from is a
        // field the pass leaves alone, so the recomputation agrees and
        // nothing changes a second time.
        let r = s[i]->Some_0;
        let e = r.ruby_text->Some_0.0;
        assert(spec_alive(s, e));
        let sp = s[e as int]->Some_0;
        assert(sp.ruby is Some);
        assert(spec_place_ui_at(s, eliminate, e as int) == s[e as int]);
        assert(s1[e as int] == s[e as int]);
        let b = spec_text_root(s, e)->Some_0;
        assert(spec_alive(s, b));
        if b != e {
            assert(s[e as int]->Some_0.parent == Some(b));
            assert(!spec_is_annotation(s[b as int]->Some_0));
        }
        assert(!spec_is_annotation(s[b as int]->Some_0));
        assert(spec_place_ui_at(s, eliminate, b as int) == s[b as int]);
        assert(s1[b as int] == s[b as int]);
        match s[b as int]->Some_0.parent {
            Some(p) => {
                if spec_alive(s, p) {
                    assert(!spec_is_annotation(s[p as int]->Some_0));
                    assert(spec_place_ui_at(s, eliminate, p as int) == s[p as int]);
                    assert(s1[p as int] == s[p as int]);
                }
            },
            None => {},
        }
        assert(spec_text_root(s1, e) == spec_text_root(s, e));
        assert(spec_parent_frame(s1, s[b as int]->Some_0.parent) == spec_parent_frame(
            s,
            s[b as int]->Some_0.parent,
        ));
        assert(spec_place_ui_at(s1, eliminate, i) == s1[i]);
    }
}

/// Places the annotation node at index `i`.
#[verifier::rlimit(100)]
fn place_ui_step(scene: &mut Scene, eliminate: bool, i: usize)
    requires
        i < old(scene)@.len(),
        scene_geometry_bounded(old(scene)@),
        annotations_not_parents(old(scene)@),
    ensures
        final(scene)@ == old(scene)@.update(
            i as int,
            spec_place_ui_at(old(scene)@, eliminate, i as int),
        ),
{
    // Gather the node's own data.
    let (e, node_computed, prior_global, prior_transform, prior_node) = match scene.rec_at(i) {
        Some(r) => {
            if r.ruby.is_some() {
                proof {
                    assert(final(scene)@ =~= old(scene)@.update(
                        i as int,
                        spec_place_ui_at(old(scene)@, eliminate, i as int),
                    ));
                }
                return ;
            }
            let e: usize = match &r.ruby_text {
                Some(b) => b.0,
                None => {
                    proof {
                        assert(final(scene)@ =~= old(scene)@.update(
                            i as int,
                            spec_place_ui_at(old(scene)@, eliminate, i as int),
                        ));
                    }
                    return ;
                },
            };
            match (&r.computed, &r.ui_global, &r.ui_transform, &r.node) {
                (Some(nc), Some(ng), Some(nt), Some(nn)) => (e, *nc, *ng, *nt, *nn),
                _ => {
                    // The node's companions are incomplete; this indicates a
                    // broken node, so the pair is skipped.
                    proof {
                        assert(final(scene)@ =~= old(scene)@.update(
                            i as int,
                            spec_place_ui_at(old(scene)@, eliminate, i as int),
                        ));
                    }
                    return ;
                },
            }
        },
        None => {
            proof {
                assert(final(scene)@ =~= old(scene)@.update(
                    i as int,
                    spec_place_ui_at(old(scene)@, eliminate, i as int),
                ));
            }
            return ;
        },
    };
    // Gather the spec entity's data.
    let (rb_align, rb_position, root) = match scene.rec_at(e) {
        Some(sp) => {
            let bound = match &sp.linked_ruby_text {
                Some(l) => l.0 == i,
                None => false,
            };
            let rb = match (&sp.ruby, bound) {
                (Some(rb), true) => rb,
                _ => {
                    proof {
                        assert(final(scene)@ =~= old(scene)@.update(
                            i as int,
                            spec_place_ui_at(old(scene)@, eliminate, i as int),
                        ));
                    }
                    return ;
                },
            };
            let root: usize = if sp.is_text_span {
                match &sp.parent {
                    Some(p) => *p,
                    None => {
                        proof {
                            assert(final(scene)@ =~= old(scene)@.update(
                                i as int,
                                spec_place_ui_at(old(scene)@, eliminate, i as int),
                            ));
                        }
                        return ;
                    },
                }
            } else {
                e
            };
            (rb.align, rb.position, root)
        },
        None => {
            proof {
                assert(final(scene)@ =~= old(scene)@.update(
                    i as int,
                    spec_place_ui_at(old(scene)@, eliminate, i as int),
                ));
            }
            return ;
        },
    };
    // Gather the block's shaping output, layout output and transforms.
    let (rect_found, block_computed, block_global, block_transform, block_parent) = match scene
        .rec_at(root) {
        Some(br) => {
            match (&br.layout, &br.computed, &br.ui_global, &br.ui_transform) {
                (Some(bl), Some(bc), Some(bg), Some(bt)) => (
                    find_rect(&bl.rects, e),
                    *bc,
                    *bg,
                    *bt,
                    br.parent,
                ),
                _ => {
                    proof {
                        assert(final(scene)@ =~= old(scene)@.update(
                            i as int,
                            spec_place_ui_at(old(scene)@, eliminate, i as int),
                        ));
                    }
                    return ;
                },
            }
        },
        None => {
            proof {
                assert(final(scene)@ =~= old(scene)@.update(
                    i as int,
                    spec_place_ui_at(old(scene)@, eliminate, i as int),
                ));
            }
            return ;
        },
    };
    // Gather the render host's frame, falling back to an untransformed host
    // at unit scale when the block has no usable parent.
    let (host_scale_factor, host_global, host_computed) = match block_parent {
        Some(p) => {
            match scene.rec_at(p) {
                Some(pr) => {
                    match (&pr.computed, &pr.ui_global, &pr.ui_transform) {
                        (Some(pc), Some(pg), Some(_pt)) => (pc.target_scale_factor, *pg, *pc),
                        _ => (1, Affine::identity(), ComputedNodeData::empty()),
                    }
                },
                None => (1, Affine::identity(), ComputedNodeData::empty()),
            }
        },
        None => (1, Affine::identity(), ComputedNodeData::empty()),
    };
    // The block is a base entity (it is the spec entity itself or its
    // parent), and so is the host; their geometry is bounded and their
    // transforms well formed.
    proof {
        assert(spec_alive(old(scene)@, root));
        if root != e {
            assert(old(scene)@[e as int]->Some_0.parent == Some(root));
            assert(!spec_is_annotation(old(scene)@[root as int]->Some_0));
        } else {
            assert(!spec_is_annotation(old(scene)@[root as int]->Some_0));
        }
        assert(crate::scene::rec_transforms_wf(old(scene)@[root as int]->Some_0));
        assert(crate::scene::rec_geometry_bounded(old(scene)@[root as int]->Some_0));
        assert(crate::scene::rec_geometry_bounded(old(scene)@[i as int]->Some_0));
        match block_parent {
            Some(p) => {
                if spec_alive(old(scene)@, p) {
                    assert(!spec_is_annotation(old(scene)@[p as int]->Some_0));
                    assert(crate::scene::rec_transforms_wf(old(scene)@[p as int]->Some_0));
                    assert(crate::scene::rec_geometry_bounded(old(scene)@[p as int]->Some_0));
                }
            },
            None => {},
        }
        let bl = old(scene)@[root as int]->Some_0.layout->Some_0;
        crate::scene::lemma_find_rect_from_bounded(bl.rects@, e, 0);
    }
    let rect = match rect_found {
        Some(r) => r,
        None => crate::geom::RectI::zero(),
    };
    let anchor = anchor_point(&rect, rb_align, rb_position, node_computed.size);
    let local = center_anchor(anchor, block_computed.size);
    let global = transform_point(&block_global, local);
    let off = flow_offset(
        &host_global,
        host_computed.size,
        Vec2I { x: host_computed.border_left, y: host_computed.border_top },
        node_computed.size,
        host_scale_factor,
        global,
    );
    let new_transform = block_transform;
    let new_global: Affine = if eliminate {
        Affine { scale: block_global.scale, rot: block_global.rot, trans: global }
    } else {
        prior_global
    };
    let new_node = UiNodeData { top: Some(off.y), left: Some(off.x), hidden: false };
    // Write only on an actual change, so an unchanged placement never
    // dirties the downstream layout.
    if prior_transform == new_transform && prior_global == new_global && prior_node == new_node {
        proof {
            assert(final(scene)@ =~= old(scene)@.update(
                i as int,
                spec_place_ui_at(old(scene)@, eliminate, i as int),
            ));
        }
        return ;
    }
    let mut r = match scene.take_rec(i) {
        Some(r) => r,
        None => {
            proof {
                assert(false);
            }
            return ;
        },
    };
    r.ui_transform = Some(new_transform);
    r.ui_global = Some(new_global);
    r.node = Some(new_node);
    scene.put_rec(i, r);
    proof {
        assert(final(scene)@ =~= old(scene)@.update(
            i as int,
            spec_place_ui_at(old(scene)@, eliminate, i as int),
        ));
    }
}

/// The flow-regime placement pass: moves every bound annotation node to
/// the offsets computed from its spec's policies, the block's current run
/// rectangle and the ancestor transforms, and — when
/// `settings.update_ui_global_transform` is on — writes the node's global
/// transform outright so the placement shows this very frame instead of
/// one external layout round later.
pub fn update_ruby(scene: &mut Scene, settings: &crate::FuriganaSettings)
    requires
        scene_geometry_bounded(old(scene)@),
        annotations_not_parents(old(scene)@),
    ensures
        final(scene)@ == spec_place_ui(old(scene)@, settings.update_ui_global_transform),
{
    let eliminate = settings.update_ui_global_transform;
    let n = scene.len();
    for i in 0..n
        invariant
            n == scene@.len(),
            n == old(scene)@.len(),
            eliminate == settings.update_ui_global_transform,
            scene_geometry_bounded(old(scene)@),
            annotations_not_parents(old(scene)@),
            forall|j: int| 0 <= j < i ==> scene@[j] == spec_place_ui_at(old(scene)@, eliminate, j),
            forall|j: int| i <= j < n ==> scene@[j] == old(scene)@[j],
    {
        proof {
            lemma_place_ui_at_stable(old(scene)@, scene@, eliminate, i as int);
            lemma_place_ui_preserves_predicates(old(scene)@, scene@, eliminate);
        }
        place_ui_step(scene, eliminate, i);
    }
    proof {
        assert(final(scene)@ =~= spec_place_ui(old(scene)@, settings.update_ui_global_transform));
    }
}

/// The content/style sync pass for the flow regime: for every bound pair,
/// mirrors the spec's annotation text and the base run's scaled font onto
/// the annotation node, writing only on an actual change of value so an
/// unchanged source never dirties the downstream layout, and rewrites the
/// node's color every pass from the spec's override or the base run's live
/// color.
pub fn update_ruby_text(scene: &mut Scene)
    ensures
        final(scene)@ == spec_sync_ui(old(scene)@),
{
    let n = scene.len();
    for i in 0..n
        invariant
            n == scene@.len(),
            n == old(scene)@.len(),
            forall|j: int| 0 <= j < i ==> scene@[j] == spec_sync_ui_at(old(scene)@, j),
            forall|j: int| i <= j < n ==> scene@[j] == old(scene)@[j],
    {
        proof {
            lemma_sync_ui_at_stable(old(scene)@, scene@, i as int);
        }
        sync_ui_step(scene, i);
    }
    proof {
        assert(final(scene)@ =~= spec_sync_ui(old(scene)@));
    }
}

/// Spawns the annotation node for a spec entity and records the binding on
/// the spec entity.  `rt` is the annotation text, already copied out of the
/// spec.
fn create_ruby_text(
    scene: &mut Scene,
    entity: usize,
    parent: Option<usize>,
    rt: String,
    font: FontInfo,
    scale: u32,
    color: Option<u32>,
    z: i64,
)
    requires
        spec_alive(old(scene)@, entity),
    ensures
        final(scene)@ == spec_create_ruby_text(
            old(scene)@,
            entity,
            parent,
            rt,
            scale,
            font,
            color,
            z,
        ),
{
    let node_font = ruby_text_font(&font, scale);
    let z_above: i64 = if z == i64::MAX {
        z
    } else {
        z + 1
    };
    let mut node = Rec::empty();
    node.parent = parent;
    node.ui_text = Some(rt);
    node.font = Some(node_font);
    node.color = color;
    node.z_index = Some(z_above);
    node.ruby_text = Some(RubyText(entity));
    node.node = Some(UiNodeData { top: None, left: None, hidden: true });
    node.computed = Some(ComputedNodeData::empty());
    node.ui_transform = Some(UiTransformData::identity());
    node.ui_global = Some(Affine::identity());
    let node_id = scene.spawn(node);
    let mut spec_rec = match scene.take_rec(entity) {
        Some(r) => r,
        None => {
            proof {
                assert(false);
            }
            return ;
        },
    };
    spec_rec.linked_ruby_text = Some(LinkedRubyText(node_id));
    scene.put_rec(entity, spec_rec);
    proof {
        assert(final(scene)@ =~= spec_create_ruby_text(
            old(scene)@,
            entity,
            parent,
            rt,
            scale,
            font,
            color,
            z,
        ));
    }
}

} // verus!
