//! Ruby (furigana) annotation placement engine.
//!
//! The engine anchors a small annotation text run to a base text run in two
//! coordinate regimes: a flow-layout (UI box) regime with parent-relative
//! offsets, and a free world-transform regime.  The scene graph is modeled as
//! an explicit arena of entities, and every transform is an exact integer
//! affine map (non-uniform positive scale, quarter-turn rotation,
//! translation), so the whole placement algorithm is verified arithmetic.

use vstd::prelude::*;

pub mod geom;
pub mod placement;
pub mod scene;
pub mod text2d;
pub mod ui;

pub use geom::{Affine, RectI, Rot, Vec2I, COORD_BOUND};
pub use scene::{Rec, Scene};
pub use text2d::{LinkedRubyText2d, RubyText2d};
pub use ui::{LinkedRubyText, RubyText};

verus! {

/// Denominator of the font-size ratio carried by [`Ruby::font_size_scale`]:
/// the ratio is stored in parts per thousand.
pub const FONT_SCALE_DENOM: u32 = 1000;

/// Vertical placement policy of the annotation relative to its base run.
#[derive(Clone, Copy, Debug, PartialEq, Eq, Structural)]
pub enum RubyPosition {
    /// The annotation is rendered above the base run.
    Over,
    /// The annotation is rendered below the base run.
    Under,
}

impl Default for RubyPosition {
    /// The default position is over the base run.
    fn default() -> (r: Self)
        ensures
            r == RubyPosition::Over,
    {
        RubyPosition::Over
    }
}

/// Horizontal alignment policy of the annotation within the base run's rect.
#[derive(Clone, Copy, Debug, PartialEq, Eq, Structural)]
pub enum RubyAlign {
    /// Align the annotation's left edge with the run's left edge.
    Start,
    /// Center the annotation on the run.
    Center,
    /// Align the annotation's right edge with the run's right edge.
    End,
}

impl Default for RubyAlign {
    /// The default alignment is centered.
    fn default() -> (r: Self)
        ensures
            r == RubyAlign::Center,
    {
        RubyAlign::Center
    }
}

/// The font of a text run: an opaque font asset id plus a font size.
///
/// Scaling an annotation font keeps every attribute of the base font except
/// the size, so the attributes other than the size are carried by the id.
#[derive(Clone, Copy, Debug, PartialEq, Eq, Structural)]
pub struct FontInfo {
    /// Opaque identity of the font asset and its remaining attributes.
    pub font: u64,
    /// Font size, in fixed layout units.
    pub font_size: u32,
}

/// Process-wide configuration of the placement engine.
pub struct FuriganaSettings {
    /// Write the computed global transform of a flow-regime annotation node
    /// directly, so the node renders correctly in the very frame it was
    /// placed instead of one frame late.
    pub update_ui_global_transform: bool,
}

impl Default for FuriganaSettings {
    /// One-frame-delay elimination is on by default.
    fn default() -> (r: Self)
        ensures
            r.update_ui_global_transform,
    {
        FuriganaSettings { update_ui_global_transform: true }
    }
}

/// The user-authored annotation spec, attached to a base text run or to a
/// fragment (sub-run) of a multi-run block.
#[derive(Clone, Debug)]
pub struct Ruby {
    /// The annotation text.
    pub rt: String,
    /// Vertical placement policy.
    pub position: RubyPosition,
    /// Horizontal alignment policy.
    pub align: RubyAlign,
    /// Font size relative to the base run's font size, in parts per thousand
    /// (e.g. 500 for half size).
    pub font_size_scale: u32,
    /// Color for the annotation text, packed RGBA.  `None` inherits the
    /// live color of the base run.
    pub color: Option<u32>,
}

impl Ruby {
    /// A spec with the given annotation text and every policy at its
    /// default: over the run, centered, half the base font size, inheriting
    /// the base color.
    pub fn new(rt: String) -> (r: Self)
        ensures
            r.rt == rt,
            r.position == RubyPosition::Over,
            r.align == RubyAlign::Center,
            r.font_size_scale == 500,
            r.color is None,
    {
        Ruby {
            rt,
            position: RubyPosition::Over,
            align: RubyAlign::Center,
            font_size_scale: 500,
            color: None,
        }
    }
}

impl Default for Ruby {
    /// The default spec has empty annotation text and default policies.
    fn default() -> (r: Self)
        ensures
            r.rt@ == Seq::<char>::empty(),
            r.position == RubyPosition::Over,
            r.align == RubyAlign::Center,
            r.font_size_scale == 500,
            r.color is None,
    {
        Ruby::new(String::new())
    }
}

/// The font size of an annotation node: the base size scaled by the spec's
/// ratio (parts per thousand), saturating at `u32::MAX`.
pub open spec fn spec_scaled_font_size(base: u32, scale: u32) -> u32 {
    if base * scale / (FONT_SCALE_DENOM as int) > u32::MAX {
        u32::MAX
    } else {
        (base * scale / (FONT_SCALE_DENOM as int)) as u32
    }
}

/// The annotation node's font: every attribute of the base font, with the
/// size scaled by the spec's ratio.
pub fn ruby_text_font(text_font: &FontInfo, font_size_scale: u32) -> (r: FontInfo)
    ensures
        r.font == text_font.font,
        r.font_size == spec_scaled_font_size(text_font.font_size, font_size_scale),
{
    proof {
        assert(text_font.font_size * font_size_scale <= u32::MAX * u32::MAX) by (nonlinear_arith)
            requires
                text_font.font_size <= u32::MAX && font_size_scale <= u32::MAX,
        ;
    }
    let scaled: u64 = text_font.font_size as u64 * font_size_scale as u64 / FONT_SCALE_DENOM as u64;
    let size: u32 = if scaled > u32::MAX as u64 {
        u32::MAX
    } else {
        scaled as u32
    };
    FontInfo { font: text_font.font, font_size: size }
}

/// What handling a freshly attached annotation spec leaves of the scene:
/// each regime's attachment handlers run in turn, each deciding for itself
/// whether the entity is a block or a fragment of its regime.  At most one
/// of them actually attaches.
pub open spec fn spec_ruby_added(s: Seq<Option<scene::Rec>>, e: usize) -> Seq<Option<scene::Rec>> {
    text2d::spec_add_ruby_text_span_2d(
        text2d::spec_add_ruby_2d(ui::spec_add_ruby_text_span(ui::spec_add_ruby(s, e), e), e),
        e,
    )
}

/// Delivers the "an annotation spec was attached to this entity" event to
/// every attachment handler, as the engine's wiring does once per spec
/// creation.
pub fn ruby_added(scene: &mut Scene, entity: usize)
    ensures
        final(scene)@ == spec_ruby_added(old(scene)@, entity),
{
    ui::add_ruby(scene, entity);
    ui::add_ruby_text_span(scene, entity);
    text2d::add_ruby_2d(scene, entity);
    text2d::add_ruby_text_span_2d(scene, entity);
}

} // verus!
