//! Content/style sync: text and font mirroring, change gating, and the
//! live color inheritance of the world regime.

use furigana::geom::Rot;
use furigana::scene::{Rec, Scene, TransformData};
use furigana::text2d::update_ruby_text_2d;
use furigana::ui::update_ruby_text;
use furigana::{ruby_added, ruby_text_font, FontInfo, Ruby};

fn ui_pair(rt: &str) -> (Scene, usize, usize) {
    let mut scene = Scene::new();
    let mut block = Rec::empty();
    block.ruby = Some(Ruby::new(rt.to_string()));
    block.ui_text = Some("base".to_string());
    block.font = Some(FontInfo { font: 1, font_size: 40 });
    block.z_index = Some(0);
    let b = scene.spawn(block);
    ruby_added(&mut scene, b);
    let n = scene.rec_at(b).unwrap().linked_ruby_text.unwrap().entity();
    (scene, b, n)
}

fn pair_2d(rt: &str, color: Option<u32>) -> (Scene, usize, usize) {
    let mut scene = Scene::new();
    let mut block = Rec::empty();
    let mut ruby = Ruby::new(rt.to_string());
    ruby.color = color;
    block.ruby = Some(ruby);
    block.text2d = Some("base".to_string());
    block.font = Some(FontInfo { font: 1, font_size: 40 });
    block.color = Some(0xaa);
    block.transform = Some(TransformData { x: 0, y: 0, z: 0, rot: Rot::R0 });
    let b = scene.spawn(block);
    ruby_added(&mut scene, b);
    let n = scene
        .rec_at(b)
        .unwrap()
        .linked_ruby_text_2d
        .unwrap()
        .entity();
    (scene, b, n)
}

#[test]
fn scaled_font_keeps_attributes_and_halves_size() {
    let scaled = ruby_text_font(&FontInfo { font: 7, font_size: 32 }, 500);
    assert_eq!(scaled.font, 7);
    assert_eq!(scaled.font_size, 16);
}

#[test]
fn scaled_font_saturates() {
    let scaled = ruby_text_font(&FontInfo { font: 7, font_size: u32::MAX }, 2_000_000);
    assert_eq!(scaled.font_size, u32::MAX);
    let floor = ruby_text_font(&FontInfo { font: 7, font_size: 1 }, 999);
    assert_eq!(floor.font_size, 0);
}

#[test]
fn changed_annotation_text_propagates() {
    let (mut scene, b, n) = ui_pair("before");
    let mut br = scene.rec_at(b).unwrap().clone();
    let mut ruby = br.ruby.clone().unwrap();
    ruby.rt = "after".to_string();
    br.ruby = Some(ruby);
    scene.set(b, br);
    update_ruby_text(&mut scene);
    assert_eq!(scene.rec_at(n).unwrap().ui_text.clone().unwrap(), "after");
}

#[test]
fn changed_base_font_rescales_node_font() {
    let (mut scene, b, n) = ui_pair("rt");
    assert_eq!(scene.rec_at(n).unwrap().font, Some(FontInfo { font: 1, font_size: 20 }));
    let mut br = scene.rec_at(b).unwrap().clone();
    br.font = Some(FontInfo { font: 2, font_size: 60 });
    scene.set(b, br);
    update_ruby_text(&mut scene);
    assert_eq!(scene.rec_at(n).unwrap().font, Some(FontInfo { font: 2, font_size: 30 }));
}

#[test]
fn changed_font_size_ratio_propagates() {
    let (mut scene, b, n) = ui_pair("rt");
    let mut br = scene.rec_at(b).unwrap().clone();
    let mut ruby = br.ruby.clone().unwrap();
    ruby.font_size_scale = 250;
    br.ruby = Some(ruby);
    scene.set(b, br);
    update_ruby_text(&mut scene);
    assert_eq!(scene.rec_at(n).unwrap().font, Some(FontInfo { font: 1, font_size: 10 }));
}

#[test]
fn sync_is_idempotent() {
    let (mut scene, b, n) = ui_pair("rt");
    let mut br = scene.rec_at(b).unwrap().clone();
    let mut ruby = br.ruby.clone().unwrap();
    ruby.rt = "after".to_string();
    br.ruby = Some(ruby);
    scene.set(b, br);
    update_ruby_text(&mut scene);
    let first = scene.rec_at(n).unwrap().clone();
    update_ruby_text(&mut scene);
    let second = scene.rec_at(n).unwrap().clone();
    assert_eq!(first.ui_text, second.ui_text);
    assert_eq!(first.font, second.font);
}

#[test]
fn inherited_color_tracks_live_base_color() {
    let (mut scene, b, n) = pair_2d("rt", None);
    assert_eq!(scene.rec_at(n).unwrap().color, Some(0xaa));
    let mut br = scene.rec_at(b).unwrap().clone();
    br.color = Some(0xbb);
    scene.set(b, br);
    update_ruby_text_2d(&mut scene);
    assert_eq!(scene.rec_at(n).unwrap().color, Some(0xbb));
}

#[test]
fn override_color_wins_over_base_color() {
    let (mut scene, b, n) = pair_2d("rt", Some(0x11));
    assert_eq!(scene.rec_at(n).unwrap().color, Some(0x11));
    let mut br = scene.rec_at(b).unwrap().clone();
    br.color = Some(0xbb);
    scene.set(b, br);
    update_ruby_text_2d(&mut scene);
    assert_eq!(scene.rec_at(n).unwrap().color, Some(0x11));
}

#[test]
fn sync_2d_mirrors_text_and_font() {
    let (mut scene, b, n) = pair_2d("before", None);
    let mut br = scene.rec_at(b).unwrap().clone();
    let mut ruby = br.ruby.clone().unwrap();
    ruby.rt = "after".to_string();
    br.ruby = Some(ruby);
    br.font = Some(FontInfo { font: 9, font_size: 80 });
    scene.set(b, br);
    update_ruby_text_2d(&mut scene);
    let node = scene.rec_at(n).unwrap().clone();
    assert_eq!(node.text2d.clone().unwrap(), "after");
    assert_eq!(node.font, Some(FontInfo { font: 9, font_size: 40 }));
}

fn ui_pair_colored(rt: &str, override_color: Option<u32>) -> (Scene, usize, usize) {
    let mut scene = Scene::new();
    let mut block = Rec::empty();
    let mut ruby = Ruby::new(rt.to_string());
    ruby.color = override_color;
    block.ruby = Some(ruby);
    block.ui_text = Some("base".to_string());
    block.font = Some(FontInfo { font: 1, font_size: 40 });
    block.z_index = Some(0);
    block.color = Some(0xaa);
    let b = scene.spawn(block);
    ruby_added(&mut scene, b);
    let n = scene.rec_at(b).unwrap().linked_ruby_text.unwrap().entity();
    (scene, b, n)
}

#[test]
fn ui_inherited_color_tracks_live_base_color() {
    let (mut scene, b, n) = ui_pair_colored("rt", None);
    assert_eq!(scene.rec_at(n).unwrap().color, Some(0xaa));
    let mut br = scene.rec_at(b).unwrap().clone();
    br.color = Some(0xbb);
    scene.set(b, br);
    update_ruby_text(&mut scene);
    assert_eq!(scene.rec_at(n).unwrap().color, Some(0xbb));
}

#[test]
fn ui_override_color_wins_over_base_color() {
    let (mut scene, b, n) = ui_pair_colored("rt", Some(0x11));
    assert_eq!(scene.rec_at(n).unwrap().color, Some(0x11));
    let mut br = scene.rec_at(b).unwrap().clone();
    br.color = Some(0xbb);
    scene.set(b, br);
    update_ruby_text(&mut scene);
    assert_eq!(scene.rec_at(n).unwrap().color, Some(0x11));
}

#[test]
fn ui_colorless_base_leaves_node_color_alone() {
    let (mut scene, _b, n) = ui_pair("rt");
    assert_eq!(scene.rec_at(n).unwrap().color, None);
    update_ruby_text(&mut scene);
    assert_eq!(scene.rec_at(n).unwrap().color, None);
}

#[test]
fn sync_skips_pair_whose_spec_is_gone() {
    let (mut scene, b, n) = ui_pair("rt");
    // Forge a stale situation: despawn the node's spec through a plain
    // slot write is impossible, so despawn the spec; the cascade removes
    // the node, and syncing the rest is a no-op.
    scene.despawn(b);
    update_ruby_text(&mut scene);
    assert!(scene.rec_at(n).is_none());
}
