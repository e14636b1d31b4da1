//! The placement calculator: the anchor formula, the identity round trip,
//! the world y-flip, idempotence of the passes, one-frame-delay
//! elimination, and the transient-data fallbacks.

use furigana::geom::{Affine, RectI, Rot, Vec2I};
use furigana::placement::{anchor_point, center_anchor, world_point};
use furigana::scene::{ComputedNodeData, Rec, Scene, SectionRect, TextLayoutData, TransformData,
    UiTransformData};
use furigana::text2d::update_ruby_2d;
use furigana::ui::update_ruby;
use furigana::{ruby_added, FontInfo, FuriganaSettings, Ruby, RubyAlign, RubyPosition};

fn rect(min_x: i64, min_y: i64, max_x: i64, max_y: i64) -> RectI {
    RectI { min: Vec2I { x: min_x, y: min_y }, max: Vec2I { x: max_x, y: max_y } }
}

fn vec2(x: i64, y: i64) -> Vec2I {
    Vec2I { x, y }
}

fn translation(x: i64, y: i64) -> Affine {
    Affine { scale: vec2(1, 1), rot: Rot::R0, trans: vec2(x, y) }
}

/// The anchor is a pure function of the rectangle, the two policies and
/// the node width alone; the table cases pin its exact values.
#[test]
fn anchor_table_cases() {
    let r = rect(10, 0, 50, 20);
    let center_over = anchor_point(&r, RubyAlign::Center, RubyPosition::Over, vec2(20, 0));
    assert_eq!((center_over.x, center_over.y), (30, 0));
    let start_under = anchor_point(&r, RubyAlign::Start, RubyPosition::Under, vec2(16, 0));
    assert_eq!((start_under.x, start_under.y), (18, 20));
    let end_over = anchor_point(&r, RubyAlign::End, RubyPosition::Over, vec2(16, 0));
    assert_eq!((end_over.x, end_over.y), (42, 0));
}

#[test]
fn anchor_ignores_transforms_and_node_height() {
    let r = rect(10, 0, 50, 20);
    let a = anchor_point(&r, RubyAlign::Center, RubyPosition::Over, vec2(20, 0));
    let b = anchor_point(&r, RubyAlign::Center, RubyPosition::Over, vec2(20, 999));
    assert_eq!((a.x, a.y), (b.x, b.y));
}

/// World y-flip: the local point `(30, 0)`, centered by half a content
/// size of `(100, 20)`, becomes `(-20, -10)`; the flip into the y-up world
/// space makes it `(-20, 10)`; a world translation of `(5, 5)` lands it at
/// `(-15, 15)`.
#[test]
fn world_y_flip_numbers() {
    let local = center_anchor(vec2(30, 0), vec2(100, 20));
    assert_eq!((local.x, local.y), (-20, -10));
    let world = world_point(&translation(5, 5), local);
    assert_eq!((world.x, world.y), (-15, 15));
}

fn scene_2d() -> (Scene, usize, usize) {
    let mut scene = Scene::new();
    let mut block = Rec::empty();
    block.ruby = Some(Ruby::new("rt".to_string()));
    block.text2d = Some("base".to_string());
    block.font = Some(FontInfo { font: 1, font_size: 40 });
    block.color = Some(3);
    block.transform = Some(TransformData { x: 0, y: 0, z: 5, rot: Rot::R0 });
    let b = scene.spawn(block);
    ruby_added(&mut scene, b);
    let n = scene.rec_at(b).unwrap().linked_ruby_text_2d.unwrap().entity();

    // The external shaping pass publishes the block's layout and the
    // block's world transform, and gives the fresh node its (empty) layout.
    let mut br = scene.rec_at(b).unwrap().clone();
    br.layout = Some(TextLayoutData {
        size: vec2(100, 20),
        scale_factor: 1,
        rects: vec![SectionRect { id: b, rect: rect(10, 0, 50, 20) }],
    });
    br.global_transform = Some(translation(5, 5));
    scene.set(b, br);
    let mut nr = scene.rec_at(n).unwrap().clone();
    nr.layout = Some(TextLayoutData::empty());
    scene.set(n, nr);
    (scene, b, n)
}

/// The full world-regime pipeline reproduces the y-flip numbers and
/// preserves the node's depth.
#[test]
fn world_placement_full_pipeline() {
    let (mut scene, _b, n) = scene_2d();
    update_ruby_2d(&mut scene);
    let t = scene.rec_at(n).unwrap().transform.unwrap();
    assert_eq!((t.x, t.y), (-15, 15));
    assert_eq!(t.z, 6);
    assert_eq!(t.rot, Rot::R0);
}

/// A rotated block carries its rotation onto the annotation node.
#[test]
fn world_placement_copies_block_rotation() {
    let (mut scene, b, n) = scene_2d();
    let mut br = scene.rec_at(b).unwrap().clone();
    br.global_transform = Some(Affine { scale: vec2(1, 1), rot: Rot::R90, trans: vec2(0, 0) });
    scene.set(b, br);
    update_ruby_2d(&mut scene);
    let t = scene.rec_at(n).unwrap().transform.unwrap();
    // local (-20, -10), flipped to (-20, 10), rotated a quarter turn
    // counterclockwise to (-10, -20)
    assert_eq!((t.x, t.y), (-10, -20));
    assert_eq!(t.rot, Rot::R90);
}

/// Placement twice with no source change in between is bit-identical.
#[test]
fn world_placement_is_idempotent() {
    let (mut scene, _b, n) = scene_2d();
    update_ruby_2d(&mut scene);
    let first = scene.rec_at(n).unwrap().transform;
    update_ruby_2d(&mut scene);
    let second = scene.rec_at(n).unwrap().transform;
    assert_eq!(first, second);
}

/// A run the shaping output does not mention falls back to the zero
/// rectangle at the origin instead of failing the frame.
#[test]
fn missing_run_rect_falls_back_to_zero_rect() {
    let (mut scene, b, n) = scene_2d();
    let mut br = scene.rec_at(b).unwrap().clone();
    br.layout = Some(TextLayoutData { size: vec2(100, 20), scale_factor: 1, rects: vec![] });
    scene.set(b, br);
    update_ruby_2d(&mut scene);
    let t = scene.rec_at(n).unwrap().transform.unwrap();
    // anchor (0, 0), centered to (-50, -10), flipped to (-50, 10),
    // translated by (5, 5)
    assert_eq!((t.x, t.y), (-45, 15));
}

/// The shaping output's rectangles are physical; the scale factor brings
/// them back to logical units before anchoring.
#[test]
fn world_rect_is_descaled_by_scale_factor() {
    let (mut scene, b, n) = scene_2d();
    let mut br = scene.rec_at(b).unwrap().clone();
    br.layout = Some(TextLayoutData {
        size: vec2(100, 20),
        scale_factor: 2,
        rects: vec![SectionRect { id: b, rect: rect(20, 0, 100, 40) }],
    });
    scene.set(b, br);
    update_ruby_2d(&mut scene);
    let t = scene.rec_at(n).unwrap().transform.unwrap();
    assert_eq!((t.x, t.y), (-15, 15));
}

/// A block whose world transform has not been published yet is skipped;
/// the pair self-heals next frame.
#[test]
fn missing_block_transform_skips_pair() {
    let (mut scene, b, n) = scene_2d();
    let mut br = scene.rec_at(b).unwrap().clone();
    br.global_transform = None;
    scene.set(b, br);
    update_ruby_2d(&mut scene);
    let t = scene.rec_at(n).unwrap().transform.unwrap();
    assert_eq!((t.x, t.y, t.z), (0, 0, 6));
}

fn scene_ui() -> (Scene, usize, usize, usize) {
    let mut scene = Scene::new();
    let mut host = Rec::empty();
    host.computed = Some(ComputedNodeData {
        size: vec2(200, 100),
        border_left: 5,
        border_top: 3,
        target_scale_factor: 2,
    });
    host.ui_global = Some(translation(10, 20));
    host.ui_transform = Some(UiTransformData::identity());
    let h = scene.spawn(host);

    let mut block = Rec::empty();
    block.parent = Some(h);
    block.ruby = Some(Ruby::new("rt".to_string()));
    block.ui_text = Some("base".to_string());
    block.font = Some(FontInfo { font: 1, font_size: 40 });
    block.z_index = Some(7);
    let b = scene.spawn(block);
    ruby_added(&mut scene, b);
    let n = scene.rec_at(b).unwrap().linked_ruby_text.unwrap().entity();

    // The external layout pass publishes the block's shaping output,
    // computed size and global transform.
    let mut br = scene.rec_at(b).unwrap().clone();
    br.layout = Some(TextLayoutData {
        size: vec2(120, 30),
        scale_factor: 1,
        rects: vec![SectionRect { id: b, rect: rect(10, 0, 50, 20) }],
    });
    br.computed = Some(ComputedNodeData {
        size: vec2(120, 30),
        border_left: 0,
        border_top: 0,
        target_scale_factor: 1,
    });
    br.ui_global = Some(translation(30, 40));
    br.ui_transform = Some(UiTransformData::identity());
    scene.set(b, br);
    (scene, h, b, n)
}

/// The full flow-regime pipeline: anchor, centering, the block transform,
/// the pull-back into the host, border insets, and the render-target scale
/// factor.
#[test]
fn flow_placement_full_pipeline() {
    let (mut scene, _h, _b, n) = scene_ui();
    update_ruby(&mut scene, &FuriganaSettings::default());
    let node = scene.rec_at(n).unwrap().node.unwrap();
    // anchor (30, 0); centered by (60, 15) to (-30, -15); block transform
    // puts it at (0, 25); host-local (-10, 5); plus (100, 50), minus
    // borders (5, 3), halved by the scale factor
    assert_eq!(node.left, Some(42));
    assert_eq!(node.top, Some(26));
    assert!(!node.hidden);
    let nt = scene.rec_at(n).unwrap().ui_transform.unwrap();
    assert_eq!(nt, UiTransformData::identity());
}

/// With elimination on, the node's global transform reflects the computed
/// placement in the same frame, before any external transform propagation.
#[test]
fn one_frame_delay_elimination_writes_global() {
    let (mut scene, _h, _b, n) = scene_ui();
    assert_eq!(scene.rec_at(n).unwrap().ui_global, Some(Affine::identity()));
    update_ruby(&mut scene, &FuriganaSettings { update_ui_global_transform: true });
    let g = scene.rec_at(n).unwrap().ui_global.unwrap();
    assert_eq!(g, translation(0, 25));
}

/// With elimination off, the node's global transform is left to the
/// external transform propagation.
#[test]
fn elimination_off_leaves_global_untouched() {
    let (mut scene, _h, _b, n) = scene_ui();
    update_ruby(&mut scene, &FuriganaSettings { update_ui_global_transform: false });
    let g = scene.rec_at(n).unwrap().ui_global.unwrap();
    assert_eq!(g, Affine::identity());
    // the offsets are still written
    assert_eq!(scene.rec_at(n).unwrap().node.unwrap().left, Some(42));
}

/// Placement twice with no source change in between is bit-identical.
#[test]
fn flow_placement_is_idempotent() {
    let (mut scene, _h, _b, n) = scene_ui();
    let settings = FuriganaSettings::default();
    update_ruby(&mut scene, &settings);
    let first = scene.rec_at(n).unwrap().clone();
    update_ruby(&mut scene, &settings);
    let second = scene.rec_at(n).unwrap().clone();
    assert_eq!(first.node, second.node);
    assert_eq!(first.ui_transform, second.ui_transform);
    assert_eq!(first.ui_global, second.ui_global);
    assert_eq!(first.z_index, second.z_index);
}

/// With every transform in the chain the identity, the computed global
/// point is the local anchor point unchanged, and it comes back unchanged
/// from the host pull-back.
#[test]
fn identity_chain_round_trips_anchor() {
    let mut scene = Scene::new();
    let mut block = Rec::empty();
    block.ruby = Some(Ruby::new("rt".to_string()));
    block.ui_text = Some("base".to_string());
    block.font = Some(FontInfo { font: 1, font_size: 40 });
    block.z_index = Some(0);
    let b = scene.spawn(block);
    ruby_added(&mut scene, b);
    let n = scene.rec_at(b).unwrap().linked_ruby_text.unwrap().entity();
    let mut br = scene.rec_at(b).unwrap().clone();
    br.layout = Some(TextLayoutData {
        size: vec2(0, 0),
        scale_factor: 1,
        rects: vec![SectionRect { id: b, rect: rect(10, 0, 50, 20) }],
    });
    br.computed = Some(ComputedNodeData::empty());
    br.ui_global = Some(Affine::identity());
    br.ui_transform = Some(UiTransformData::identity());
    scene.set(b, br);
    update_ruby(&mut scene, &FuriganaSettings::default());
    let node = scene.rec_at(n).unwrap().node.unwrap();
    assert_eq!(node.left, Some(30));
    assert_eq!(node.top, Some(0));
    let g = scene.rec_at(n).unwrap().ui_global.unwrap();
    assert_eq!(g, translation(30, 0));
}

/// A block the layout passes have not touched yet is skipped, and the node
/// stays hidden at its placeholder offsets until data arrives.
#[test]
fn flow_placement_skips_unlaid_out_block() {
    let mut scene = Scene::new();
    let mut block = Rec::empty();
    block.ruby = Some(Ruby::new("rt".to_string()));
    block.ui_text = Some("base".to_string());
    block.font = Some(FontInfo { font: 1, font_size: 40 });
    block.z_index = Some(0);
    let b = scene.spawn(block);
    ruby_added(&mut scene, b);
    let n = scene.rec_at(b).unwrap().linked_ruby_text.unwrap().entity();
    update_ruby(&mut scene, &FuriganaSettings::default());
    let node = scene.rec_at(n).unwrap().node.unwrap();
    assert_eq!(node.top, None);
    assert_eq!(node.left, None);
    assert!(node.hidden);
}

/// Alignment start and end center the node's own width on the run's
/// edges, through the whole flow pipeline.
#[test]
fn flow_placement_respects_alignment_and_node_size() {
    let (mut scene, _h, b, n) = scene_ui();
    let mut br = scene.rec_at(b).unwrap().clone();
    let mut ruby = br.ruby.clone().unwrap();
    ruby.align = RubyAlign::End;
    ruby.position = RubyPosition::Under;
    br.ruby = Some(ruby);
    scene.set(b, br);
    let mut nr = scene.rec_at(n).unwrap().clone();
    nr.computed = Some(ComputedNodeData {
        size: vec2(16, 8),
        border_left: 0,
        border_top: 0,
        target_scale_factor: 1,
    });
    scene.set(n, nr);
    update_ruby(&mut scene, &FuriganaSettings::default());
    let node = scene.rec_at(n).unwrap().node.unwrap();
    // anchor (42, 20); centered to (-18, 5); block transform puts it at
    // (12, 45); host-local (2, 25); plus (100, 50) minus borders (5, 3)
    // minus half the node size (8, 4); halved by the scale factor
    assert_eq!(node.left, Some(44));
    assert_eq!(node.top, Some(34));
}
