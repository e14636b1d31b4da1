//! The world (free-transform) regime: attachment, content sync and
//! placement of annotation nodes that carry their own world transform.

use vstd::prelude::*;

use crate::geom::{div_euclid_pos, RectI, Rot, Vec2I};
use crate::placement::{anchor_point, center_anchor, spec_anchor_x, spec_anchor_y,
    spec_center_anchor, spec_world_point, world_point};
use crate::scene::{annotations_not_parents, find_rect, scene_geometry_bounded, spec_alive,
    spec_is_annotation, spec_rect_or_zero, spec_text_root, Rec, Scene, TransformData};
use crate::ui::{spec_ruby_font, spec_z_above};
use crate::{ruby_text_font, FontInfo};

verus! {

/// Marks a world-regime annotation node and names the spec entity it
/// annotates.
#[derive(Clone, Copy, Debug, PartialEq, Eq, Structural)]
pub struct RubyText2d(pub usize);

/// On a spec entity, names the world-regime annotation node bound to it.
#[derive(Clone, Copy, Debug, PartialEq, Eq, Structural)]
pub struct LinkedRubyText2d(pub usize);

impl LinkedRubyText2d {
    /// The id of the bound annotation node.
    pub open spec fn spec_entity(self) -> usize {
        self.0
    }

    /// The id of the bound annotation node.
    pub fn entity(&self) -> (e: usize)
        ensures
            e == self.spec_entity(),
    {
        self.0
    }
}

/// The record of a freshly spawned world-regime annotation node: the
/// annotation text in the scaled font and resolved color, carrying its own
/// transform at the origin but one depth step in front of its base text.
/// Its shaping output arrives with the next external shaping pass; until
/// then placement skips it and it self-heals a frame later.
pub open spec fn spec_ruby_node_rec_2d(
    e: usize,
    rt: String,
    scale: u32,
    f: FontInfo,
    color: u32,
    z: i64,
) -> Rec {
    Rec {
        text2d: Some(rt),
        font: Some(spec_ruby_font(f, scale)),
        color: Some(color),
        ruby_text_2d: Some(RubyText2d(e)),
        transform: Some(TransformData { x: 0, y: 0, z: spec_z_above(z), rot: Rot::R0 }),
        ..Rec::spec_empty()
    }
}

/// What spawning and binding a world-regime annotation node leaves behind:
/// the node record appended under a fresh id, and the spec entity linked to
/// it.
pub open spec fn spec_create_ruby_text_2d(
    s: Seq<Option<Rec>>,
    e: usize,
    rt: String,
    scale: u32,
    f: FontInfo,
    color: u32,
    z: i64,
) -> Seq<Option<Rec>> {
    let node_id = s.len() as usize;
    let s1 = s.push(Some(spec_ruby_node_rec_2d(e, rt, scale, f, color, z)));
    s1.update(
        e as int,
        Some(Rec { linked_ruby_text_2d: Some(LinkedRubyText2d(node_id)), ..s[e as int]->Some_0 }),
    )
}

/// What handling "an annotation spec appeared on a world-regime text
/// block" leaves behind.  The entity must be a live world-regime block
/// carrying a spec, a font, a color and a transform, and must not be bound
/// yet; anything else is silently inert.
pub open spec fn spec_add_ruby_2d(s: Seq<Option<Rec>>, e: usize) -> Seq<Option<Rec>> {
    if !spec_alive(s, e) {
        s
    } else {
        let r = s[e as int]->Some_0;
        match (r.ruby, r.font, r.color, r.transform) {
            (Some(rb), Some(f), Some(c), Some(t)) => if r.text2d is Some
                && r.linked_ruby_text_2d is None {
                let color = match rb.color {
                    Some(cc) => cc,
                    None => c,
                };
                spec_create_ruby_text_2d(s, e, rb.rt, rb.font_size_scale, f, color, t.z)
            } else {
                s
            },
            _ => s,
        }
    }
}

/// Handles "an annotation spec appeared on this entity" for a world-regime
/// text block: spawns the annotation node one depth step in front of the
/// block and binds it.
pub fn add_ruby_2d(scene: &mut Scene, entity: usize)
    ensures
        final(scene)@ == spec_add_ruby_2d(old(scene)@, entity),
{
    let (rt_clone, scale, font, color, z) = match scene.rec_at(entity) {
        Some(r) => {
            if r.linked_ruby_text_2d.is_some() || r.text2d.is_none() {
                return ;
            }
            match (&r.ruby, &r.font, &r.color, &r.transform) {
                (Some(rb), Some(f), Some(c), Some(t)) => {
                    let color = match &rb.color {
                        Some(cc) => *cc,
                        None => *c,
                    };
                    (rb.rt.clone(), rb.font_size_scale, *f, color, t.z)
                },
                _ => {
                    return ;
                },
            }
        },
        None => {
            return ;
        },
    };
    create_ruby_text_2d(scene, entity, rt_clone, scale, font, color, z);
    proof {
        assert(final(scene)@ =~= spec_add_ruby_2d(old(scene)@, entity));
    }
}

/// Attaching a spec to an eligible world-regime block always binds: the
/// spec entity is linked to a fresh annotation node, the node names the
/// spec entity back, and the node sits one depth step in front of the
/// block.
pub proof fn lemma_add_ruby_2d_binds(s: Seq<Option<Rec>>, e: usize)
    requires
        spec_alive(s, e),
        s[e as int]->Some_0.ruby is Some,
        s[e as int]->Some_0.text2d is Some,
        s[e as int]->Some_0.font is Some,
        s[e as int]->Some_0.color is Some,
        s[e as int]->Some_0.transform is Some,
        s[e as int]->Some_0.linked_ruby_text_2d is None,
    ensures
        ({
            let s1 = spec_add_ruby_2d(s, e);
            let n = s.len() as int;
            &&& s1.len() == s.len() + 1
            &&& s1[e as int]->Some_0.linked_ruby_text_2d == Some(LinkedRubyText2d(n as usize))
            &&& s1[n]->Some_0.ruby_text_2d == Some(RubyText2d(e))
            &&& s1[n]->Some_0.transform->Some_0.z == spec_z_above(
                s[e as int]->Some_0.transform->Some_0.z,
            )
        }),
{
}

/// What handling "an annotation spec appeared on a world-regime fragment"
/// leaves behind.  The fragment's parent must be a live world-regime text
/// block with a transform; the font — and the color, when the spec gives
/// no override — comes from the fragment itself or, failing that, is
/// inherited from the block.
pub open spec fn spec_add_ruby_text_span_2d(s: Seq<Option<Rec>>, e: usize) -> Seq<Option<Rec>> {
    if !spec_alive(s, e) {
        s
    } else {
        let r = s[e as int]->Some_0;
        match r.ruby {
            Some(rb) => if r.is_text_span && r.linked_ruby_text_2d is None && r.parent is Some
                && spec_alive(s, r.parent->Some_0) {
                let p = s[r.parent->Some_0 as int]->Some_0;
                match p.transform {
                    Some(t) => if p.text2d is Some {
                        let font = if r.font is Some {
                            r.font
                        } else {
                            p.font
                        };
                        let color_src = if r.color is Some {
                            r.color
                        } else {
                            p.color
                        };
                        match (font, color_src) {
                            (Some(f), Some(c)) => {
                                let color = match rb.color {
                                    Some(cc) => cc,
                                    None => c,
                                };
                                spec_create_ruby_text_2d(
                                    s,
                                    e,
                                    rb.rt,
                                    rb.font_size_scale,
                                    f,
                                    color,
                                    t.z,
                                )
                            },
                            _ => s,
                        }
                    } else {
                        s
                    },
                    None => s,
                }
            } else {
                s
            },
            None => s,
        }
    }
}

/// Handles "an annotation spec appeared on this entity" for a fragment of
/// a world-regime block: takes the font and color from the fragment or,
/// where the fragment carries none, from the block, takes the depth from
/// the block, spawns the annotation node and binds it.
pub fn add_ruby_text_span_2d(scene: &mut Scene, entity: usize)
    ensures
        final(scene)@ == spec_add_ruby_text_span_2d(old(scene)@, entity),
{
    let (rt_clone, scale, rb_color, own_font, own_color, parent) = match scene.rec_at(entity) {
        Some(r) => {
            if !r.is_text_span || r.linked_ruby_text_2d.is_some() {
                return ;
            }
            match (&r.ruby, &r.parent) {
                (Some(rb), Some(p)) => (
                    rb.rt.clone(),
                    rb.font_size_scale,
                    rb.color,
                    r.font,
                    r.color,
                    *p,
                ),
                _ => {
                    return ;
                },
            }
        },
        None => {
            return ;
        },
    };
    let (z, parent_font, parent_color) = match scene.rec_at(parent) {
        Some(p) => {
            if p.text2d.is_none() {
                return ;
            }
            match &p.transform {
                Some(t) => (t.z, p.font, p.color),
                None => {
                    return ;
                },
            }
        },
        None => {
            return ;
        },
    };
    let font = match own_font {
        Some(f) => f,
        None => match parent_font {
            Some(f) => f,
            None => {
                return ;
            },
        },
    };
    let color_src = match own_color {
        Some(c) => c,
        None => match parent_color {
            Some(c) => c,
            None => {
                return ;
            },
        },
    };
    let color = match rb_color {
        Some(cc) => cc,
        None => color_src,
    };
    create_ruby_text_2d(scene, entity, rt_clone, scale, font, color, z);
    proof {
        assert(final(scene)@ =~= spec_add_ruby_text_span_2d(old(scene)@, entity));
    }
}

/// What the content/style sync leaves of the entity at index `i`: for a
/// bound world-regime annotation node whose spec is live, the node's text
/// mirrors the spec's annotation text and the node's font mirrors the base
/// run's font scaled by the spec's ratio, both gated on an actual change of
/// value; the node's color mirrors the spec's override or, failing that,
/// the base run's live color, rewritten every pass so the inherited color
/// tracks live updates.  Every other entity is untouched.
pub open spec fn spec_sync_2d_at(s: Seq<Option<Rec>>, i: int) -> Option<Rec> {
    if s[i] is None {
        None
    } else {
        let r = s[i]->Some_0;
        match r.ruby_text_2d {
            Some(bk) => if r.ruby is None && r.text2d is Some && r.font is Some && r.color is Some
                && spec_alive(s, bk.0) {
                let sp = s[bk.0 as int]->Some_0;
                match (sp.ruby, sp.font, sp.color) {
                    (Some(rb), Some(bf), Some(bc)) => {
                        let new_text = if r.text2d->Some_0@ == rb.rt@ {
                            r.text2d
                        } else {
                            Some(rb.rt)
                        };
                        let target = spec_ruby_font(bf, rb.font_size_scale);
                        let new_font = if r.font->Some_0 == target {
                            r.font
                        } else {
                            Some(target)
                        };
                        let new_color = match rb.color {
                            Some(cc) => cc,
                            None => bc,
                        };
                        Some(Rec { text2d: new_text, font: new_font, color: Some(new_color), ..r })
                    },
                    _ => Some(r),
                }
            } else {
                Some(r)
            },
            None => Some(r),
        }
    }
}

/// What one whole content/style sync pass leaves of the scene.
pub open spec fn spec_sync_2d(s: Seq<Option<Rec>>) -> Seq<Option<Rec>> {
    Seq::new(s.len(), |i: int| spec_sync_2d_at(s, i))
}

/// Syncing one entity reads only that entity and its spec entity, and the
/// sync never touches an entity that carries a spec; so the outcome at one
/// index is the same whether the rest of the scene has already been synced
/// or not.
proof fn lemma_sync_2d_at_stable(s0: Seq<Option<Rec>>, s1: Seq<Option<Rec>>, i: int)
    requires
        s0.len() == s1.len(),
        0 <= i < s0.len(),
        s1[i] == s0[i],
        forall|j: int|
            0 <= j < s0.len() ==> #[trigger] s1[j] == s0[j] || s1[j] == spec_sync_2d_at(s0, j),
    ensures
        spec_sync_2d_at(s1, i) == spec_sync_2d_at(s0, i),
{
    if s0[i] is Some {
        let r = s0[i]->Some_0;
        match r.ruby_text_2d {
            Some(bk) => {
                if 0 <= bk.0 < s0.len() {
                    assert(s1[bk.0 as int] == s0[bk.0 as int] || s1[bk.0 as int]
                        == spec_sync_2d_at(s0, bk.0 as int));
                }
            },
            None => {},
        }
    }
}

/// Running the world-regime sync a second time with no source change in
/// between produces a bit-identical scene: after one pass every node
/// already mirrors its spec, so the change-gated writes find nothing to do
/// and the unconditional color write repeats the same value.
pub proof fn lemma_update_ruby_text_2d_idempotent(s: Seq<Option<Rec>>)
    ensures
        spec_sync_2d(spec_sync_2d(s)) == spec_sync_2d(s),
{
    let s1 = spec_sync_2d(s);
    assert(s1.len() == s.len());
    assert forall|i: int| 0 <= i < s.len() implies #[trigger] spec_sync_2d_at(s1, i) == s1[i] by {
        assert(forall|j: int| 0 <= j < s.len() ==> #[trigger] s1[j] == spec_sync_2d_at(s, j));
        if s1[i] == s[i] {
            lemma_sync_2d_at_stable(s, s1, i);
        } else {
            let r = s[i]->Some_0;
            let e = r.ruby_text_2d->Some_0.0;
            assert(spec_sync_2d_at(s, e as int) == s[e as int]);
            assert(s1[e as int] == s[e as int]);
            assert(spec_sync_2d_at(s1, i) == s1[i]);
        }
    }
    assert(spec_sync_2d(s1) =~= s1);
}

/// Syncs the entity at index `i`.
fn sync_2d_step(scene: &mut Scene, i: usize)
    requires
        i < old(scene)@.len(),
    ensures
        final(scene)@ == old(scene)@.update(i as int, spec_sync_2d_at(old(scene)@, i as int)),
{
    let (text_write, font_write, color_write): (Option<String>, Option<FontInfo>, Option<u32>) =
        match scene.rec_at(i) {
        Some(r) => {
            if r.ruby.is_some() {
                proof {
                    assert(final(scene)@ =~= old(scene)@.update(
                        i as int,
                        spec_sync_2d_at(old(scene)@, i as int),
                    ));
                }
                return ;
            }
            let bk: usize = match &r.ruby_text_2d {
                Some(b) => b.0,
                None => {
                    proof {
                        assert(final(scene)@ =~= old(scene)@.update(
                            i as int,
                            spec_sync_2d_at(old(scene)@, i as int),
                        ));
                    }
                    return ;
                },
            };
            match (&r.text2d, &r.font, &r.color) {
                (Some(t_cur), Some(f_cur), Some(_c_cur)) => {
                    match scene.rec_at(bk) {
                        Some(sp) => {
                            match (&sp.ruby, &sp.font, &sp.color) {
                                (Some(rb), Some(bf), Some(bc)) => {
                                    let tw = if *t_cur == rb.rt {
                                        None
                                    } else {
                                        Some(rb.rt.clone())
                                    };
                                    let target = ruby_text_font(bf, rb.font_size_scale);
                                    let fw = if *f_cur == target {
                                        None
                                    } else {
                                        Some(target)
                                    };
                                    let cw = match &rb.color {
                                        Some(cc) => Some(*cc),
                                        None => Some(*bc),
                                    };
                                    (tw, fw, cw)
                                },
                                _ => {
                                    proof {
                                        assert(final(scene)@ =~= old(scene)@.update(
                                            i as int,
                                            spec_sync_2d_at(old(scene)@, i as int),
                                        ));
                                    }
                                    return ;
                                },
                            }
                        },
                        None => {
                            proof {
                                assert(final(scene)@ =~= old(scene)@.update(
                                    i as int,
                                    spec_sync_2d_at(old(scene)@, i as int),
                                ));
                            }
                            return ;
                        },
                    }
                },
                _ => {
                    proof {
                        assert(final(scene)@ =~= old(scene)@.update(
                            i as int,
                            spec_sync_2d_at(old(scene)@, i as int),
                        ));
                    }
                    return ;
                },
            }
        },
        None => {
            proof {
                assert(final(scene)@ =~= old(scene)@.update(
                    i as int,
                    spec_sync_2d_at(old(scene)@, i as int),
                ));
            }
            return ;
        },
    };
    let mut r = match scene.take_rec(i) {
        Some(r) => r,
        None => {
            proof {
                assert(false);
            }
            return ;
        },
    };
    if let Some(t) = text_write {
        r.text2d = Some(t);
    }
    if let Some(f) = font_write {
        r.font = Some(f);
    }
    if let Some(c) = color_write {
        r.color = Some(c);
    }
    scene.put_rec(i, r);
    proof {
        assert(final(scene)@ =~= old(scene)@.update(
            i as int,
            spec_sync_2d_at(old(scene)@, i as int),
        ));
    }
}

/// The content/style sync pass for the world regime: for every bound pair,
/// mirrors the spec's annotation text and the base run's scaled font onto
/// the annotation node, writing only on an actual change of value, and
/// rewrites the node's color every pass from the spec's override or the
/// base run's live color.
pub fn update_ruby_text_2d(scene: &mut Scene)
    ensures
        final(scene)@ == spec_sync_2d(old(scene)@),
{
    let n = scene.len();
    for i in 0..n
        invariant
            n == scene@.len(),
            n == old(scene)@.len(),
            forall|j: int| 0 <= j < i ==> scene@[j] == spec_sync_2d_at(old(scene)@, j),
            forall|j: int| i <= j < n ==> scene@[j] == old(scene)@[j],
    {
        proof {
            lemma_sync_2d_at_stable(old(scene)@, scene@, i as int);
        }
        sync_2d_step(scene, i);
    }
    proof {
        assert(final(scene)@ =~= spec_sync_2d(old(scene)@));
    }
}

/// The run rectangle of entity `e` within the block's shaping output,
/// brought from physical to logical units by the output's scale factor.
pub open spec fn spec_scaled_rect(rects: Seq<crate::scene::SectionRect>, e: usize, sf: int) -> RectI {
    let r0 = spec_rect_or_zero(rects, e);
    RectI {
        min: Vec2I { x: (r0.min.x as int / sf) as i64, y: (r0.min.y as int / sf) as i64 },
        max: Vec2I { x: (r0.max.x as int / sf) as i64, y: (r0.max.y as int / sf) as i64 },
    }
}

/// The world-regime transform written to a bound annotation node: its
/// position is the anchor within the block's run rectangle, re-centered by
/// half the block's content size, flipped into the y-up world space and
/// carried by the block's global transform; its rotation is the block's
/// global rotation; its depth is its own prior depth, untouched.
pub open spec fn spec_placed_transform_2d(
    rb_align: crate::RubyAlign,
    rb_position: crate::RubyPosition,
    rect: RectI,
    node_width: i64,
    content_size: Vec2I,
    block_global: crate::geom::Affine,
    prior_z: i64,
) -> TransformData {
    let anchor = Vec2I {
        x: spec_anchor_x(rect, rb_align, node_width as int) as i64,
        y: spec_anchor_y(rect, rb_position) as i64,
    };
    let local = spec_center_anchor(anchor, content_size);
    let world = spec_world_point(block_global, local);
    TransformData { x: world.0 as i64, y: world.1 as i64, z: prior_z, rot: block_global.rot }
}

/// What the world-regime placement leaves of the entity at index `i`: a
/// bound annotation node whose spec, block, shaping output and transforms
/// are all present is moved to its computed placement; an entity missing
/// any of them — transient, it self-heals once the external passes have
/// run — and every other entity are untouched.
pub open spec fn spec_place_2d_at(s: Seq<Option<Rec>>, i: int) -> Option<Rec> {
    if s[i] is None {
        None
    } else {
        let r = s[i]->Some_0;
        match r.ruby_text_2d {
            Some(bk) => if r.ruby is None && spec_alive(s, bk.0) {
                let e = bk.0;
                let sp = s[e as int]->Some_0;
                match sp.ruby {
                    Some(rb) => if sp.linked_ruby_text_2d == Some(LinkedRubyText2d(i as usize)) {
                        match spec_text_root(s, e) {
                            Some(b) => if spec_alive(s, b) {
                                let br = s[b as int]->Some_0;
                                match (br.layout, br.global_transform, r.layout, r.transform) {
                                    (Some(bl), Some(bg), Some(nl), Some(nt)) => {
                                        let rect = spec_scaled_rect(
                                            bl.rects@,
                                            e,
                                            bl.scale_factor as int,
                                        );
                                        let new_t = spec_placed_transform_2d(
                                            rb.align,
                                            rb.position,
                                            rect,
                                            nl.size.x,
                                            bl.size,
                                            bg,
                                            nt.z,
                                        );
                                        Some(Rec { transform: Some(new_t), ..r })
                                    },
                                    _ => Some(r),
                                }
                            } else {
                                Some(r)
                            },
                            None => Some(r),
                        }
                    } else {
                        Some(r)
                    },
                    None => Some(r),
                }
            } else {
                Some(r)
            },
            None => Some(r),
        }
    }
}

/// What one whole world-regime placement pass leaves of the scene.
pub open spec fn spec_place_2d(s: Seq<Option<Rec>>) -> Seq<Option<Rec>> {
    Seq::new(s.len(), |i: int| spec_place_2d_at(s, i))
}

/// Placing one node reads only its own record, its spec entity and its
/// block, none of which the pass writes (annotation nodes are never
/// ancestors); so the outcome at one index is the same whether the rest of
/// the scene has already been placed or not.
proof fn lemma_place_2d_at_stable(s0: Seq<Option<Rec>>, s1: Seq<Option<Rec>>, i: int)
    requires
        s0.len() == s1.len(),
        0 <= i < s0.len(),
        s1[i] == s0[i],
        forall|j: int|
            0 <= j < s0.len() ==> #[trigger] s1[j] == s0[j] || s1[j] == spec_place_2d_at(s0, j),
        annotations_not_parents(s0),
    ensures
        spec_place_2d_at(s1, i) == spec_place_2d_at(s0, i),
{
    if s0[i] is Some {
        let r = s0[i]->Some_0;
        match r.ruby_text_2d {
            Some(bk) => {
                let e = bk.0;
                if 0 <= e < s0.len() {
                    assert(s1[e as int] == s0[e as int] || s1[e as int] == spec_place_2d_at(
                        s0,
                        e as int,
                    ));
                    if s0[e as int] is Some && s0[e as int]->Some_0.ruby is Some {
                        assert(spec_place_2d_at(s0, e as int) == s0[e as int]);
                        match spec_text_root(s0, e) {
                            Some(b) => {
                                if spec_alive(s0, b) {
                                    assert(s1[b as int] == s0[b as int] || s1[b as int]
                                        == spec_place_2d_at(s0, b as int));
                                    if b != e {
                                        assert(s0[e as int]->Some_0.parent == Some(b));
                                        assert(!spec_is_annotation(s0[b as int]->Some_0));
                                        assert(spec_place_2d_at(s0, b as int) == s0[b as int]);
                                    }
                                }
                            },
                            None => {},
                        }
                    }
                }
            },
            None => {},
        }
    }
}

/// The placement pass only moves annotation nodes: it never changes which
/// entities are alive, which are annotations, who is whose parent, any
/// shaping or layout output, or any base entity at all; so the scene
/// predicates the pass relies on survive it.
proof fn lemma_place_2d_preserves_predicates(s0: Seq<Option<Rec>>, s1: Seq<Option<Rec>>)
    requires
        s0.len() == s1.len(),
        forall|j: int|
            0 <= j < s0.len() ==> #[trigger] s1[j] == s0[j] || s1[j] == spec_place_2d_at(s0, j),
        scene_geometry_bounded(s0),
        annotations_not_parents(s0),
    ensures
        scene_geometry_bounded(s1),
        annotations_not_parents(s1),
{
    assert forall|j: int| 0 <= j < s1.len() && s1[j] is Some implies
        crate::scene::rec_geometry_bounded(#[trigger] s1[j]->Some_0) && (!spec_is_annotation(
        s1[j]->Some_0,
    ) ==> crate::scene::rec_transforms_wf(s1[j]->Some_0)) by {
        assert(s1[j] == s0[j] || s1[j] == spec_place_2d_at(s0, j));
    }
    assert forall|i: int, j: usize|
        0 <= i < s1.len() && (#[trigger] s1[i]) is Some && s1[i]->Some_0.parent == Some(j)
            && spec_alive(s1, j) implies !spec_is_annotation((#[trigger] s1[j as int])->Some_0) by {
        assert(s1[i] == s0[i] || s1[i] == spec_place_2d_at(s0, i));
        assert(s1[j as int] == s0[j as int] || s1[j as int] == spec_place_2d_at(s0, j as int));
        assert(s0[i] is Some && s0[i]->Some_0.parent == Some(j));
        assert(spec_alive(s0, j));
    }
}

/// Running the world-regime placement a second time with no source change
/// in between produces a bit-identical scene: every computed placement is a
/// function of inputs the pass never writes (the node's depth is carried
/// over unchanged), so the second pass finds every node already in place
/// and changes nothing.
pub proof fn lemma_update_ruby_2d_idempotent(s: Seq<Option<Rec>>)
    requires
        scene_geometry_bounded(s),
        annotations_not_parents(s),
    ensures
        spec_place_2d(spec_place_2d(s)) == spec_place_2d(s),
{
    let s1 = spec_place_2d(s);
    assert(s1.len() == s.len());
    assert forall|i: int| 0 <= i < s.len() implies #[trigger] spec_place_2d_at(s1, i) == s1[i] by {
        lemma_place_2d_at_idem(s, i);
    }
    assert(spec_place_2d(s1) =~= s1);
}

/// Placing an already placed scene changes nothing at any one index.
proof fn lemma_place_2d_at_idem(s: Seq<Option<Rec>>, i: int)
    requires
        0 <= i < s.len(),
        scene_geometry_bounded(s),
        annotations_not_parents(s),
    ensures
        spec_place_2d_at(spec_place_2d(s), i) == spec_place_2d(s)[i],
{
    let s1 = spec_place_2d(s);
    assert(s1.len() == s.len());
    assert(forall|j: int| 0 <= j < s.len() ==> #[trigger] s1[j] == spec_place_2d_at(s, j));
    if s1[i] == s[i] {
        lemma_place_2d_at_stable(s, s1, i);
    } else {
        // The pair was placed: every input it was computed from is a
        // field the pass leaves alone, so the recomputation agrees and
        // nothing changes a second time.
        let r = s[i]->Some_0;
        let e = r.ruby_text_2d->Some_0.0;
        assert(spec_alive(s, e));
        let sp = s[e as int]->Some_0;
        assert(sp.ruby is Some);
        assert(spec_place_2d_at(s, e as int) == s[e as int]);
        assert(s1[e as int] == s[e as int]);
        let b = spec_text_root(s, e)->Some_0;
        assert(spec_alive(s, b));
        if b != e {
            assert(s[e as int]->Some_0.parent == Some(b));
            assert(!spec_is_annotation(s[b as int]->Some_0));
        }
        assert(!spec_is_annotation(s[b as int]->Some_0));
        assert(spec_place_2d_at(s, b as int) == s[b as int]);
        assert(s1[b as int] == s[b as int]);
        assert(spec_text_root(s1, e) == spec_text_root(s, e));
        assert(spec_place_2d_at(s1, i) == s1[i]);
    }
}

/// Places the annotation node at index `i`.
fn place_2d_step(scene: &mut Scene, i: usize)
    requires
        i < old(scene)@.len(),
        scene_geometry_bounded(old(scene)@),
        annotations_not_parents(old(scene)@),
    ensures
        final(scene)@ == old(scene)@.update(i as int, spec_place_2d_at(old(scene)@, i as int)),
{
    // Gather the node's own data.
    let (e, node_width, prior_transform) = match scene.rec_at(i) {
        Some(r) => {
            if r.ruby.is_some() {
                proof {
                    assert(final(scene)@ =~= old(scene)@.update(
                        i as int,
                        spec_place_2d_at(old(scene)@, i as int),
                    ));
                }
                return ;
            }
            let e: usize = match &r.ruby_text_2d {
                Some(b) => b.0,
                None => {
                    proof {
                        assert(final(scene)@ =~= old(scene)@.update(
                            i as int,
                            spec_place_2d_at(old(scene)@, i as int),
                        ));
                    }
                    return ;
                },
            };
            match (&r.layout, &r.transform) {
                (Some(nl), Some(nt)) => (e, nl.size.x, *nt),
                _ => {
                    // The node's own data is incomplete; this is transient
                    // and heals once the external shaping pass has run.
                    proof {
                        assert(final(scene)@ =~= old(scene)@.update(
                            i as int,
                            spec_place_2d_at(old(scene)@, i as int),
                        ));
                    }
                    return ;
                },
            }
        },
        None => {
            proof {
                assert(final(scene)@ =~= old(scene)@.update(
                    i as int,
                    spec_place_2d_at(old(scene)@, i as int),
                ));
            }
            return ;
        },
    };
    // Gather the spec entity's data.
    let (rb_align, rb_position, root) = match scene.rec_at(e) {
        Some(sp) => {
            let bound = match &sp.linked_ruby_text_2d {
                Some(l) => l.0 == i,
                None => false,
            };
            let rb = match (&sp.ruby, bound) {
                (Some(rb), true) => rb,
                _ => {
                    proof {
                        assert(final(scene)@ =~= old(scene)@.update(
                            i as int,
                            spec_place_2d_at(old(scene)@, i as int),
                        ));
                    }
                    return ;
                },
            };
            let root: usize = if sp.is_text_span {
                match &sp.parent {
                    Some(p) => *p,
                    None => {
                        proof {
                            assert(final(scene)@ =~= old(scene)@.update(
                                i as int,
                                spec_place_2d_at(old(scene)@, i as int),
                            ));
                        }
                        return ;
                    },
                }
            } else {
                e
            };
            (rb.align, rb.position, root)
        },
        None => {
            proof {
                assert(final(scene)@ =~= old(scene)@.update(
                    i as int,
                    spec_place_2d_at(old(scene)@, i as int),
                ));
            }
            return ;
        },
    };
    // Gather the block's shaping output and global transform.
    let (content_size, scale_factor, rect_found, block_global) = match scene.rec_at(root) {
        Some(br) => {
            match (&br.layout, &br.global_transform) {
                (Some(bl), Some(bg)) => (bl.size, bl.scale_factor, find_rect(&bl.rects, e), *bg),
                _ => {
                    proof {
                        assert(final(scene)@ =~= old(scene)@.update(
                            i as int,
                            spec_place_2d_at(old(scene)@, i as int),
                        ));
                    }
                    return ;
                },
            }
        },
        None => {
            proof {
                assert(final(scene)@ =~= old(scene)@.update(
                    i as int,
                    spec_place_2d_at(old(scene)@, i as int),
                ));
            }
            return ;
        },
    };
    // The block is either the spec entity itself (which carries the spec)
    // or its parent; either way it is a base entity with bounded, well-
    // formed geometry.
    proof {
        assert(spec_alive(old(scene)@, root));
        if root != e {
            assert(old(scene)@[e as int]->Some_0.parent == Some(root));
            assert(!spec_is_annotation(old(scene)@[root as int]->Some_0));
        } else {
            assert(!spec_is_annotation(old(scene)@[root as int]->Some_0));
        }
        assert(crate::scene::rec_transforms_wf(old(scene)@[root as int]->Some_0));
        assert(crate::scene::rec_geometry_bounded(old(scene)@[root as int]->Some_0));
        assert(crate::scene::rec_geometry_bounded(old(scene)@[i as int]->Some_0));
        let bl = old(scene)@[root as int]->Some_0.layout->Some_0;
        crate::scene::lemma_find_rect_from_bounded(bl.rects@, e, 0);
    }
    let rect_raw = match rect_found {
        Some(r) => r,
        None => RectI::zero(),
    };
    let rect = RectI {
        min: Vec2I {
            x: div_euclid_pos(rect_raw.min.x, scale_factor),
            y: div_euclid_pos(rect_raw.min.y, scale_factor),
        },
        max: Vec2I {
            x: div_euclid_pos(rect_raw.max.x, scale_factor),
            y: div_euclid_pos(rect_raw.max.y, scale_factor),
        },
    };
    proof {
        crate::geom::lemma_div_pos_in_range(rect_raw.min.x as int, scale_factor as int);
        crate::geom::lemma_div_pos_in_range(rect_raw.min.y as int, scale_factor as int);
        crate::geom::lemma_div_pos_in_range(rect_raw.max.x as int, scale_factor as int);
        crate::geom::lemma_div_pos_in_range(rect_raw.max.y as int, scale_factor as int);
    }
    let anchor = anchor_point(&rect, rb_align, rb_position, Vec2I { x: node_width, y: 0 });
    let local = center_anchor(anchor, content_size);
    let world = world_point(&block_global, local);
    let new_t = TransformData {
        x: world.x,
        y: world.y,
        z: prior_transform.z,
        rot: block_global.rot,
    };
    // Write only on an actual change of position or rotation.
    if prior_transform.x == new_t.x && prior_transform.y == new_t.y && prior_transform.rot
        == new_t.rot {
        proof {
            assert(final(scene)@ =~= old(scene)@.update(
                i as int,
                spec_place_2d_at(old(scene)@, i as int),
            ));
        }
        return ;
    }
    let mut r = match scene.take_rec(i) {
        Some(r) => r,
        None => {
            proof {
                assert(false);
            }
            return ;
        },
    };
    r.transform = Some(new_t);
    scene.put_rec(i, r);
    proof {
        assert(final(scene)@ =~= old(scene)@.update(
            i as int,
            spec_place_2d_at(old(scene)@, i as int),
        ));
    }
}

/// The world-regime placement pass: moves every bound annotation node to
/// the placement computed from its spec's policies, the block's current
/// run rectangle and the block's global transform, skipping pairs whose
/// external data has not arrived yet.
pub fn update_ruby_2d(scene: &mut Scene)
    requires
        scene_geometry_bounded(old(scene)@),
        annotations_not_parents(old(scene)@),
    ensures
        final(scene)@ == spec_place_2d(old(scene)@),
{
    let n = scene.len();
    for i in 0..n
        invariant
            n == scene@.len(),
            n == old(scene)@.len(),
            scene_geometry_bounded(old(scene)@),
            annotations_not_parents(old(scene)@),
            forall|j: int| 0 <= j < i ==> scene@[j] == spec_place_2d_at(old(scene)@, j),
            forall|j: int| i <= j < n ==> scene@[j] == old(scene)@[j],
    {
        proof {
            lemma_place_2d_at_stable(old(scene)@, scene@, i as int);
            lemma_place_2d_preserves_predicates(old(scene)@, scene@);
        }
        place_2d_step(scene, i);
    }
    proof {
        assert(final(scene)@ =~= spec_place_2d(old(scene)@));
    }
}

/// Spawns the annotation node for a spec entity and records the binding on
/// the spec entity.  `rt` is the annotation text, already copied out of the
/// spec; `color` is the resolved annotation color.
fn create_ruby_text_2d(
    scene: &mut Scene,
    entity: usize,
    rt: String,
    scale: u32,
    font: FontInfo,
    color: u32,
    z: i64,
)
    requires
        spec_alive(old(scene)@, entity),
    ensures
        final(scene)@ == spec_create_ruby_text_2d(old(scene)@, entity, rt, scale, font, color, z),
{
    let node_font = ruby_text_font(&font, scale);
    let z_above: i64 = if z == i64::MAX {
        z
    } else {
        z + 1
    };
    let mut node = Rec::empty();
    node.text2d = Some(rt);
    node.font = Some(node_font);
    node.color = Some(color);
    node.ruby_text_2d = Some(RubyText2d(entity));
    node.transform = Some(TransformData { x: 0, y: 0, z: z_above, rot: Rot::R0 });
    let node_id = scene.spawn(node);
    let mut spec_rec = match scene.take_rec(entity) {
        Some(r) => r,
        None => {
            proof {
                assert(false);
            }
            return ;
        },
    };
    spec_rec.linked_ruby_text_2d = Some(LinkedRubyText2d(node_id));
    scene.put_rec(entity, spec_rec);
    proof {
        assert(final(scene)@ =~= spec_create_ruby_text_2d(
            old(scene)@,
            entity,
            rt,
            scale,
            font,
            color,
            z,
        ));
    }
}

} // verus!
