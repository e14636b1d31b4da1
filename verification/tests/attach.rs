//! Attachment lifecycle: spawning, binding, host resolution and the
//! despawn cascade.

use furigana::scene::{text_root_of, Rec, Scene};
use furigana::{Ruby, RubyAlign, RubyPosition};
use furigana::geom::{Affine, Rot, Vec2I};
use furigana::scene::{ComputedNodeData, TextLayoutData, TransformData, UiTransformData};
use furigana::{ruby_added, FontInfo, FuriganaSettings};

fn font(size: u32) -> FontInfo {
    FontInfo { font: 1, font_size: size }
}

fn text2d_block(rt: &str, text: &str) -> Rec {
    let mut r = Rec::empty();
    r.ruby = Some(Ruby::new(rt.to_string()));
    r.text2d = Some(text.to_string());
    r.font = Some(font(40));
    r.color = Some(0xff00ff00);
    r.transform = Some(TransformData { x: 0, y: 0, z: 5, rot: Rot::R0 });
    r
}

fn ui_block(rt: &str, text: &str) -> Rec {
    let mut r = Rec::empty();
    r.ruby = Some(Ruby::new(rt.to_string()));
    r.ui_text = Some(text.to_string());
    r.font = Some(font(40));
    r.z_index = Some(7);
    r
}

#[test]
fn test_add_ruby_creates_ruby_text_2d() {
    let mut scene = Scene::new();
    let text_entity = scene.spawn(text2d_block("ruby", "text"));
    ruby_added(&mut scene, text_entity);

    let linked = scene
        .rec_at(text_entity)
        .unwrap()
        .linked_ruby_text_2d
        .unwrap();
    let ruby_text = scene
        .rec_at(linked.entity())
        .unwrap()
        .text2d
        .clone()
        .unwrap();
    assert_eq!(ruby_text, "ruby");

    // UI counterpart must not be created
    assert!(scene.rec_at(text_entity).unwrap().linked_ruby_text.is_none());
}

#[test]
fn test_add_ruby_creates_ruby_text() {
    let mut scene = Scene::new();
    let text_entity = scene.spawn(ui_block("ruby", "text"));
    ruby_added(&mut scene, text_entity);

    let linked = scene
        .rec_at(text_entity)
        .unwrap()
        .linked_ruby_text
        .unwrap();
    let ruby_text = scene
        .rec_at(linked.entity())
        .unwrap()
        .ui_text
        .clone()
        .unwrap();
    assert_eq!(ruby_text, "ruby");

    // 2D counterpart must not be created
    assert!(
        scene
            .rec_at(text_entity)
            .unwrap()
            .linked_ruby_text_2d
            .is_none()
    );
}

#[test]
fn ui_node_starts_hidden_with_auto_offsets() {
    let mut scene = Scene::new();
    let e = scene.spawn(ui_block("rt", "base"));
    ruby_added(&mut scene, e);
    let n = scene.rec_at(e).unwrap().linked_ruby_text.unwrap().entity();
    let node = scene.rec_at(n).unwrap().node.unwrap();
    assert!(node.hidden);
    assert_eq!(node.top, None);
    assert_eq!(node.left, None);
    let z = scene.rec_at(n).unwrap().z_index.unwrap();
    assert_eq!(z, 8);
}

#[test]
fn ui_node_is_hosted_by_block_parent() {
    let mut scene = Scene::new();
    let host = scene.spawn(Rec::empty());
    let mut block = ui_block("rt", "base");
    block.parent = Some(host);
    let e = scene.spawn(block);
    ruby_added(&mut scene, e);
    let n = scene.rec_at(e).unwrap().linked_ruby_text.unwrap().entity();
    assert_eq!(scene.rec_at(n).unwrap().parent, Some(host));
}

#[test]
fn span_ruby_is_hosted_by_grandparent_and_inherits_block_font() {
    let mut scene = Scene::new();
    let grandparent = scene.spawn(Rec::empty());
    let mut block = Rec::empty();
    block.ui_text = Some("base".to_string());
    block.z_index = Some(3);
    block.font = Some(font(60));
    block.parent = Some(grandparent);
    let b = scene.spawn(block);
    let mut span = Rec::empty();
    span.is_text_span = true;
    span.parent = Some(b);
    span.ruby = Some(Ruby::new("rt".to_string()));
    let s = scene.spawn(span);
    ruby_added(&mut scene, s);

    assert_eq!(text_root_of(&scene, s), Some(b));
    let n = scene.rec_at(s).unwrap().linked_ruby_text.unwrap().entity();
    let node = scene.rec_at(n).unwrap().clone();
    assert_eq!(node.parent, Some(grandparent));
    assert_eq!(node.z_index, Some(4));
    // font fell back to the block's font, scaled by the default ratio
    assert_eq!(node.font, Some(FontInfo { font: 1, font_size: 30 }));
}

#[test]
fn span_ruby_2d_takes_depth_from_block() {
    let mut scene = Scene::new();
    let mut block = Rec::empty();
    block.text2d = Some("base".to_string());
    block.transform = Some(TransformData { x: 1, y: 2, z: 9, rot: Rot::R0 });
    let b = scene.spawn(block);
    let mut span = Rec::empty();
    span.is_text_span = true;
    span.parent = Some(b);
    span.ruby = Some(Ruby::new("rt".to_string()));
    span.font = Some(font(40));
    span.color = Some(1);
    let s = scene.spawn(span);
    ruby_added(&mut scene, s);
    let n = scene
        .rec_at(s)
        .unwrap()
        .linked_ruby_text_2d
        .unwrap()
        .entity();
    let t = scene.rec_at(n).unwrap().transform.unwrap();
    assert_eq!(t.z, 10);
    assert_eq!((t.x, t.y), (0, 0));
}

#[test]
fn span_ruby_2d_inherits_block_font_and_color() {
    let mut scene = Scene::new();
    let mut block = Rec::empty();
    block.text2d = Some("base".to_string());
    block.font = Some(font(60));
    block.color = Some(0xcc);
    block.transform = Some(TransformData { x: 0, y: 0, z: 2, rot: Rot::R0 });
    let b = scene.spawn(block);
    let mut span = Rec::empty();
    span.is_text_span = true;
    span.parent = Some(b);
    span.ruby = Some(Ruby::new("rt".to_string()));
    let s = scene.spawn(span);
    ruby_added(&mut scene, s);
    let n = scene
        .rec_at(s)
        .unwrap()
        .linked_ruby_text_2d
        .unwrap()
        .entity();
    let node = scene.rec_at(n).unwrap().clone();
    assert_eq!(node.font, Some(FontInfo { font: 1, font_size: 30 }));
    assert_eq!(node.color, Some(0xcc));
    assert_eq!(node.transform.unwrap().z, 3);
}

#[test]
fn span_ruby_inherits_block_color() {
    let mut scene = Scene::new();
    let grandparent = scene.spawn(Rec::empty());
    let mut block = Rec::empty();
    block.ui_text = Some("base".to_string());
    block.z_index = Some(0);
    block.font = Some(font(40));
    block.color = Some(0xdd);
    block.parent = Some(grandparent);
    let b = scene.spawn(block);
    let mut span = Rec::empty();
    span.is_text_span = true;
    span.parent = Some(b);
    span.ruby = Some(Ruby::new("rt".to_string()));
    let s = scene.spawn(span);
    ruby_added(&mut scene, s);
    let n = scene.rec_at(s).unwrap().linked_ruby_text.unwrap().entity();
    assert_eq!(scene.rec_at(n).unwrap().color, Some(0xdd));
}

#[test]
fn spec_without_renderable_text_stays_unbound() {
    let mut scene = Scene::new();
    let mut r = Rec::empty();
    r.ruby = Some(Ruby::new("rt".to_string()));
    let e = scene.spawn(r);
    let before = scene.len();
    ruby_added(&mut scene, e);
    assert_eq!(scene.len(), before);
    assert!(scene.rec_at(e).unwrap().linked_ruby_text.is_none());
    assert!(scene.rec_at(e).unwrap().linked_ruby_text_2d.is_none());
}

#[test]
fn second_attach_notification_is_inert() {
    let mut scene = Scene::new();
    let e = scene.spawn(ui_block("rt", "base"));
    ruby_added(&mut scene, e);
    let n = scene.rec_at(e).unwrap().linked_ruby_text.unwrap().entity();
    let before = scene.len();
    ruby_added(&mut scene, e);
    assert_eq!(scene.len(), before);
    assert_eq!(
        scene.rec_at(e).unwrap().linked_ruby_text.unwrap().entity(),
        n
    );
}

#[test]
fn despawning_spec_destroys_bound_node() {
    let mut scene = Scene::new();
    let e = scene.spawn(text2d_block("rt", "base"));
    ruby_added(&mut scene, e);
    let n = scene
        .rec_at(e)
        .unwrap()
        .linked_ruby_text_2d
        .unwrap()
        .entity();
    assert!(scene.rec_at(n).is_some());
    scene.despawn(e);
    assert!(scene.rec_at(e).is_none());
    assert!(scene.rec_at(n).is_none());
}

#[test]
fn respawned_spec_gets_a_fresh_independent_node() {
    let mut scene = Scene::new();
    let e = scene.spawn(text2d_block("rt", "base"));
    ruby_added(&mut scene, e);
    let n_old = scene
        .rec_at(e)
        .unwrap()
        .linked_ruby_text_2d
        .unwrap()
        .entity();
    scene.despawn(e);

    let e2 = scene.spawn(text2d_block("rt", "base"));
    ruby_added(&mut scene, e2);
    let n_new = scene
        .rec_at(e2)
        .unwrap()
        .linked_ruby_text_2d
        .unwrap()
        .entity();
    assert_ne!(n_new, n_old);
    assert_ne!(e2, e);
    assert!(scene.rec_at(n_old).is_none());
    assert!(scene.rec_at(n_new).is_some());
}

#[test]
fn despawning_node_clears_stale_link_on_spec() {
    let mut scene = Scene::new();
    let e = scene.spawn(ui_block("rt", "base"));
    ruby_added(&mut scene, e);
    let n = scene.rec_at(e).unwrap().linked_ruby_text.unwrap().entity();
    scene.despawn(n);
    assert!(scene.rec_at(e).is_some());
    assert!(scene.rec_at(e).unwrap().linked_ruby_text.is_none());
}

#[test]
fn despawning_dead_id_is_a_no_op() {
    let mut scene = Scene::new();
    let e = scene.spawn(ui_block("rt", "base"));
    scene.despawn(e);
    scene.despawn(e);
    scene.despawn(1234);
    assert_eq!(scene.len(), 1);
}

#[test]
fn spec_defaults_match_documented_values() {
    let ruby = Ruby::new("rt".to_string());
    assert_eq!(ruby.rt, "rt");
    assert_eq!(ruby.position, RubyPosition::Over);
    assert_eq!(ruby.align, RubyAlign::Center);
    assert_eq!(ruby.font_size_scale, 500);
    assert!(ruby.color.is_none());
    let ruby_default = Ruby::default();
    assert_eq!(ruby_default.rt, "");
    assert_eq!(RubyPosition::default(), RubyPosition::Over);
    assert_eq!(RubyAlign::default(), RubyAlign::Center);
    assert!(FuriganaSettings::default().update_ui_global_transform);

    let id = Affine::identity();
    assert_eq!((id.scale.x, id.scale.y), (1, 1));
    assert_eq!(id.rot, Rot::R0);
    assert_eq!((id.trans.x, id.trans.y), (0, 0));
    assert_eq!((Vec2I::zero().x, Vec2I::zero().y), (0, 0));
    let c = ComputedNodeData::empty();
    assert_eq!((c.size.x, c.size.y, c.border_left, c.border_top, c.target_scale_factor), (0, 0, 0, 0, 1));
    let l = TextLayoutData::empty();
    assert_eq!((l.size.x, l.size.y, l.scale_factor, l.rects.len()), (0, 0, 1, 0));
    let u = UiTransformData::identity();
    assert_eq!((u.scale.x, u.scale.y, u.rot), (1, 1, Rot::R0));
}
