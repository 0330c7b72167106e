//! The software rasterizer: draw state plus pixel, line, circle, rectangle,
//! triangle, sprite and bitmap-text drawing onto a [`Sprite`] target.

use vstd::prelude::*;
use vstd::string::StringExecFns;
use crate::pixel::{AlphaMode, Pixel, spec_blend};
use crate::sprite::{Sprite, spec_idx, lemma_grid_index};

verus! {

/// The color a write with color `p` produces on top of `cur` under `mode`,
/// or `None` when the mode discards the write.
pub open spec fn spec_write_value(mode: AlphaMode, factor: u8, p: Pixel, cur: Pixel) -> Option<
    Pixel,
> {
    match mode {
        AlphaMode::Normal => Some(p),
        AlphaMode::Mask => if p.a == 255 {
            Some(p)
        } else {
            None
        },
        AlphaMode::Blend => Some(spec_blend(p, cur, factor)),
    }
}

/// `b` has the same dimensions as `a`.
pub open spec fn same_dims(a: &Sprite, b: &Sprite) -> bool {
    a.width == b.width && a.height == b.height
}

/// Every pixel of `a` other than `(x, y)` keeps its value in `b`.
pub open spec fn unchanged_except(a: &Sprite, b: &Sprite, x: int, y: int) -> bool {
    forall|qx: int, qy: int|
        a.spec_in_bounds(qx, qy) && (qx != x || qy != y)
            ==> #[trigger] b.spec_pixel(qx, qy) == a.spec_pixel(qx, qy)
}

/// Every pixel of `a` outside the closed box `[x0, x1] x [y0, y1]` keeps
/// its value in `b`.
pub open spec fn unchanged_outside_box(
    a: &Sprite,
    b: &Sprite,
    x0: int,
    y0: int,
    x1: int,
    y1: int,
) -> bool {
    forall|qx: int, qy: int|
        a.spec_in_bounds(qx, qy) && !(x0 <= qx <= x1 && y0 <= qy <= y1)
            ==> #[trigger] b.spec_pixel(qx, qy) == a.spec_pixel(qx, qy)
}

/// Every pixel of `a` outside both the column band `[x0, x1]` and the row
/// band `[y0, y1]` keeps its value in `b`.
pub open spec fn unchanged_outside_bands(
    a: &Sprite,
    b: &Sprite,
    x0: int,
    y0: int,
    x1: int,
    y1: int,
) -> bool {
    forall|qx: int, qy: int|
        a.spec_in_bounds(qx, qy) && !(x0 <= qx <= x1) && !(y0 <= qy <= y1)
            ==> #[trigger] b.spec_pixel(qx, qy) == a.spec_pixel(qx, qy)
}

/// Every pixel of `a` outside the row band `[y0, y1]` keeps its value in
/// `b`.
pub open spec fn unchanged_outside_rows(a: &Sprite, b: &Sprite, y0: int, y1: int) -> bool {
    forall|qx: int, qy: int|
        a.spec_in_bounds(qx, qy) && !(y0 <= qy <= y1)
            ==> #[trigger] b.spec_pixel(qx, qy) == a.spec_pixel(qx, qy)
}

/// A box frame survives one more single-pixel write inside the box.
pub proof fn lemma_chain_box(
    a: &Sprite,
    b: &Sprite,
    c: &Sprite,
    x0: int,
    y0: int,
    x1: int,
    y1: int,
    x: int,
    y: int,
)
    requires
        same_dims(a, b),
        same_dims(b, c),
        unchanged_outside_box(a, b, x0, y0, x1, y1),
        unchanged_except(b, c, x, y),
        x0 <= x <= x1 && y0 <= y <= y1,
    ensures
        unchanged_outside_box(a, c, x0, y0, x1, y1),
{
    assert forall|qx: int, qy: int|
        a.spec_in_bounds(qx, qy) && !(x0 <= qx <= x1 && y0 <= qy <= y1)
            implies #[trigger] c.spec_pixel(qx, qy) == a.spec_pixel(qx, qy) by {
        assert(b.spec_pixel(qx, qy) == a.spec_pixel(qx, qy));
        assert(c.spec_pixel(qx, qy) == b.spec_pixel(qx, qy));
    }
}

/// A band frame survives one more single-pixel write that lies in one of
/// the two bands.
pub proof fn lemma_chain_bands(
    a: &Sprite,
    b: &Sprite,
    c: &Sprite,
    x0: int,
    y0: int,
    x1: int,
    y1: int,
    x: int,
    y: int,
)
    requires
        same_dims(a, b),
        same_dims(b, c),
        unchanged_outside_bands(a, b, x0, y0, x1, y1),
        unchanged_except(b, c, x, y),
        x0 <= x <= x1 || y0 <= y <= y1,
    ensures
        unchanged_outside_bands(a, c, x0, y0, x1, y1),
{
    assert forall|qx: int, qy: int|
        a.spec_in_bounds(qx, qy) && !(x0 <= qx <= x1) && !(y0 <= qy <= y1)
            implies #[trigger] c.spec_pixel(qx, qy) == a.spec_pixel(qx, qy) by {
        assert(b.spec_pixel(qx, qy) == a.spec_pixel(qx, qy));
        assert(c.spec_pixel(qx, qy) == b.spec_pixel(qx, qy));
    }
}

/// A row frame survives one more single-pixel write inside the row band.
pub proof fn lemma_chain_rows(
    a: &Sprite,
    b: &Sprite,
    c: &Sprite,
    y0: int,
    y1: int,
    x: int,
    y: int,
)
    requires
        same_dims(a, b),
        same_dims(b, c),
        unchanged_outside_rows(a, b, y0, y1),
        unchanged_except(b, c, x, y),
        y0 <= y <= y1,
    ensures
        unchanged_outside_rows(a, c, y0, y1),
{
    assert forall|qx: int, qy: int|
        a.spec_in_bounds(qx, qy) && !(y0 <= qy <= y1)
            implies #[trigger] c.spec_pixel(qx, qy) == a.spec_pixel(qx, qy) by {
        assert(b.spec_pixel(qx, qy) == a.spec_pixel(qx, qy));
        assert(c.spec_pixel(qx, qy) == b.spec_pixel(qx, qy));
    }
}

/// Band frames compose across two drawing phases.
pub proof fn lemma_bands_trans(
    a: &Sprite,
    b: &Sprite,
    c: &Sprite,
    x0: int,
    y0: int,
    x1: int,
    y1: int,
)
    requires
        same_dims(a, b),
        unchanged_outside_bands(a, b, x0, y0, x1, y1),
        unchanged_outside_bands(b, c, x0, y0, x1, y1),
    ensures
        unchanged_outside_bands(a, c, x0, y0, x1, y1),
{
    assert forall|qx: int, qy: int|
        a.spec_in_bounds(qx, qy) && !(x0 <= qx <= x1) && !(y0 <= qy <= y1)
            implies #[trigger] c.spec_pixel(qx, qy) == a.spec_pixel(qx, qy) by {
        assert(b.spec_pixel(qx, qy) == a.spec_pixel(qx, qy));
        assert(c.spec_pixel(qx, qy) == b.spec_pixel(qx, qy));
    }
}

/// A band frame widens to any enclosing pair of bands.
pub proof fn lemma_bands_widen(
    a: &Sprite,
    b: &Sprite,
    x0: int,
    y0: int,
    x1: int,
    y1: int,
    wx0: int,
    wy0: int,
    wx1: int,
    wy1: int,
)
    requires
        unchanged_outside_bands(a, b, x0, y0, x1, y1),
        wx0 <= x0,
        x1 <= wx1,
        wy0 <= y0,
        y1 <= wy1,
    ensures
        unchanged_outside_bands(a, b, wx0, wy0, wx1, wy1),
{
    assert forall|qx: int, qy: int|
        a.spec_in_bounds(qx, qy) && !(wx0 <= qx <= wx1) && !(wy0 <= qy <= wy1)
            implies #[trigger] b.spec_pixel(qx, qy) == a.spec_pixel(qx, qy) by {
        assert(b.spec_pixel(qx, qy) == a.spec_pixel(qx, qy));
    }
}

/// A row frame survives a whole boxed write whose rows lie inside the band.
pub proof fn lemma_chain_rows_box(
    a: &Sprite,
    b: &Sprite,
    c: &Sprite,
    y0: int,
    y1: int,
    bx0: int,
    by0: int,
    bx1: int,
    by1: int,
)
    requires
        same_dims(a, b),
        unchanged_outside_rows(a, b, y0, y1),
        unchanged_outside_box(b, c, bx0, by0, bx1, by1),
        y0 <= by0,
        by1 <= y1,
    ensures
        unchanged_outside_rows(a, c, y0, y1),
{
    assert forall|qx: int, qy: int|
        a.spec_in_bounds(qx, qy) && !(y0 <= qy <= y1)
            implies #[trigger] c.spec_pixel(qx, qy) == a.spec_pixel(qx, qy) by {
        assert(b.spec_pixel(qx, qy) == a.spec_pixel(qx, qy));
        assert(c.spec_pixel(qx, qy) == b.spec_pixel(qx, qy));
    }
}

/// The coordinate wrapped once around `extent`, as the rasterizer does when
/// screen-space wrapping is enabled.
pub open spec fn spec_wrap(v: int, extent: int) -> int {
    if v < 0 {
        v + extent
    } else if v >= extent {
        v - extent
    } else {
        v
    }
}

/// The value of one font-atlas digit: the byte less the offset that the
/// encoding adds to keep every digit printable.
fn digit_of(b: u8) -> (d: u32)
    ensures
        d < 64,
{
    if b >= 48 {
        (b - 48) as u32 % 64
    } else {
        0
    }
}

/// The draw color the rasterizer starts with and resets to: opaque white.
pub open spec fn spec_default_draw_color() -> Pixel {
    Pixel { r: 255, g: 255, b: 255, a: 255 }
}

/// All draw state: the screen dimensions, the current and default draw
/// targets, the composition settings and the built-in bitmap font.
#[derive(Debug)]
pub struct StateData {
    /// Logical screen width; coordinate wrapping wraps around it.
    pub screen_width: i32,
    /// Logical screen height; coordinate wrapping wraps around it.
    pub screen_height: i32,
    /// The screen target drawn to when no other target is set.
    pub default_draw_target: Sprite,
    /// A temporary target that, when present, receives all draws.
    pub draw_target: Option<Sprite>,
    /// How written colors combine with the target.
    pub alpha_mode: AlphaMode,
    /// Extra blend weight applied in [`AlphaMode::Blend`], out of 255.
    pub blend_factor: u8,
    /// Whether draw coordinates wrap around the screen dimensions.
    pub coord_wrapping: bool,
    /// The current draw color.
    pub color: Pixel,
    /// Integer magnification applied by sprite draws.
    pub draw_scale: i32,
    /// Integer magnification applied by text draws.
    pub font_scale: i32,
    /// The built-in 16 x 6 glyph atlas of 8 x 8 pixel characters.
    pub font: Sprite,
    /// A title suffix the application may set; the frame driver reads it.
    pub title: String,
}

impl StateData {
    /// The sprite that draw calls currently write to.
    pub open spec fn spec_target(&self) -> Sprite {
        match self.draw_target {
            Some(t) => t,
            None => self.default_draw_target,
        }
    }

    /// The draw state's structural invariant: both targets and the font are
    /// well-formed sprites and the scales stay in a range that keeps the
    /// drawing arithmetic in bounds.
    pub open spec fn wf(&self) -> bool {
        &&& 0 <= self.screen_width <= 0xffff
        &&& 0 <= self.screen_height <= 0xffff
        &&& self.default_draw_target.wf()
        &&& match self.draw_target {
            Some(t) => t.wf(),
            None => true,
        }
        &&& self.font.wf()
        &&& 1 <= self.draw_scale <= 1024
        &&& 1 <= self.font_scale <= 1024
    }

    /// `b` is `a` with at most the pixel contents of the active draw target
    /// changed: every setting, the choice of target and the target
    /// dimensions all stay the same.
    pub open spec fn same_but_pixels(a: &StateData, b: &StateData) -> bool {
        &&& b.screen_width == a.screen_width
        &&& b.screen_height == a.screen_height
        &&& b.alpha_mode == a.alpha_mode
        &&& b.blend_factor == a.blend_factor
        &&& b.coord_wrapping == a.coord_wrapping
        &&& b.color == a.color
        &&& b.draw_scale == a.draw_scale
        &&& b.font_scale == a.font_scale
        &&& b.font == a.font
        &&& b.title == a.title
        &&& (b.draw_target is Some <==> a.draw_target is Some)
        &&& (a.draw_target is Some ==> b.default_draw_target == a.default_draw_target)
        &&& same_dims(&a.spec_target(), &b.spec_target())
    }

    /// Constructs fresh draw state for a screen of the given dimensions,
    /// with the default target as the active one, normal alpha composition
    /// and the built-in font loaded.
    pub fn new(screen_width: u32, screen_height: u32) -> (s: StateData)
        requires
            screen_width <= 0xffff,
            screen_height <= 0xffff,
        ensures
            s.wf(),
            s.screen_width == screen_width,
            s.screen_height == screen_height,
            s.default_draw_target.width == screen_width,
            s.default_draw_target.height == screen_height,
            s.draw_target is None,
            s.alpha_mode == AlphaMode::Normal,
            s.blend_factor == 255,
            !s.coord_wrapping,
            s.color == spec_default_draw_color(),
            s.draw_scale == 1,
            s.font_scale == 1,
            s.font.width == 128,
            s.font.height == 48,
            s.title@ == Seq::<char>::empty(),
    {
        StateData {
            screen_width: screen_width as i32,
            screen_height: screen_height as i32,
            default_draw_target: Sprite::with_size(screen_width, screen_height),
            draw_target: None,
            alpha_mode: AlphaMode::Normal,
            blend_factor: 255,
            coord_wrapping: false,
            color: Pixel::rgb(255, 255, 255),
            draw_scale: 1,
            font_scale: 1,
            font: StateData::construct_font(),
            title: String::new(),
        }
    }

    /// Decodes the built-in bitmap font into a 128 x 48 glyph atlas: 96
    /// glyphs of 8 x 8 pixels, packed 24 bits per four base-64-like digits.
    pub fn construct_font() -> (font: Sprite)
        ensures
            font.wf(),
            font.width == 128,
            font.height == 48,
    {
        let mut data = String::new();
        data.append("?Q`0001oOch0o01o@F40o0<AGD4090LAGD<090@A7ch0?00O7Q`0600>00000000");
        data.append("O000000nOT0063Qo4d8>?7a14Gno94AA4gno94AaOT0>o3`oO400o7QN00000400");
        data.append("Of80001oOg<7O7moBGT7O7lABET024@aBEd714AiOdl717a_=TH013Q>00000000");
        data.append("720D000V?V5oB3Q_HdUoE7a9@DdDE4A9@DmoE4A;Hg]oM4Aj8S4D84@`00000000");
        data.append("OaPT1000Oa`^13P1@AI[?g`1@A=[OdAoHgljA4Ao?WlBA7l1710007l100000000");
        data.append("ObM6000oOfMV?3QoBDD`O7a0BDDH@5A0BDD<@5A0BGeVO5ao@CQR?5Po00000000");
        data.append("Oc``000?Ogij70PO2D]??0Ph2DUM@7i`2DTg@7lh2GUj?0TO0C1870T?00000000");
        data.append("70<4001o?P<7?1QoHg43O;`h@GT0@:@LB@d0>:@hN@L0@?aoN@<0O7ao0000?000");
        data.append("OcH0001SOglLA7mg24TnK7ln24US>0PL24U140PnOgl0>7QgOcH0K71S0000A000");
        data.append("00H00000@Dm1S007@DUSg00?OdTnH7YhOfTL<7Yh@Cl0700?@Ah0300700000000");
        data.append("<008001QL00ZA41a@6HnI<1i@FHLM81M@@0LG81?O`0nC?Y7?`0ZA7Y300080000");
        data.append("O`082000Oh0827mo6>Hn?Wmo?6HnMb11MP08@C11H`08@FP0@@0004@000000000");
        data.append("00P00001Oab00003OcKP0006@6=PMgl<@440MglH@000000`@000001P00000000");
        data.append("Ob@8@@00Ob@8@Ga13R@8Mga172@8?PAo3R@827QoOb@820@0O`0007`0000007P0");
        data.append("O`000P08Od400g`<3V=P0G`673IP0`@3>1`00P@6O`P00g`<O`000GP800000000");
        data.append("?P9PL020O`<`N3R0@E4HC7b0@ET<ATB0@@l6C4B0O`H3N7b0?P01L3R000000020");

        let mut font = Sprite::with_size(128, 48);
        let mut px: i32 = 0;
        let mut py: i32 = 0;
        let bytes = data.as_str().as_bytes();
        let n = bytes.len();
        let mut b: usize = 0;
        while n >= 4 && b <= n - 4
            invariant
                font.wf(),
                font.width == 128,
                font.height == 48,
                0 <= px < 0x7fff_ffff,
                0 <= py < 48,
                n == bytes.len(),
            decreases n - b,
        {
            let sym1 = digit_of(bytes[b]);
            let sym2 = digit_of(bytes[b + 1]);
            let sym3 = digit_of(bytes[b + 2]);
            let sym4 = digit_of(bytes[b + 3]);
            let r: u32 = sym1 << 18u32 | sym2 << 12u32 | sym3 << 6u32 | sym4;
            let mut i: u32 = 0;
            while i < 24
                invariant
                    font.wf(),
                    font.width == 128,
                    font.height == 48,
                    0 <= px < 0x7fff_ffff,
                    0 <= py < 48,
                    i <= 24,
                decreases 24 - i,
            {
                let k: u8 = if r & (1u32 << i) > 0 {
                    255
                } else {
                    0
                };
                font.set_pixel(px, py, Pixel::rgba(k, k, k, k));
                py = py + 1;
                if py == 48 {
                    if px < 0x7fff_fffe {
                        px = px + 1;
                    }
                    py = 0;
                }
                i = i + 1;
            }
            b = b + 4;
        }
        font
    }

    // Get/Set ==============================================================

    /// The width of the active draw target.
    pub fn target_width(&self) -> (w: i32)
        ensures
            w == self.spec_target().width,
    {
        match &self.draw_target {
            Some(t) => t.width,
            None => self.default_draw_target.width,
        }
    }

    /// The active draw target.
    pub fn get_draw_target(&mut self) -> (t: &Sprite)
        ensures
            *final(self) == *old(self),
            *t == old(self).spec_target(),
    {
        match &self.draw_target {
            Some(target) => target,
            None => &self.default_draw_target,
        }
    }

    /// The active draw target, mutably borrowed.
    pub fn get_draw_target_mut(&mut self) -> (t: &mut Sprite)
        ensures
            *t == old(self).spec_target(),
            final(self).draw_target is Some <==> old(self).draw_target is Some,
            old(self).draw_target is Some ==> {
                &&& final(self).draw_target == Some(*final(t))
                &&& final(self).default_draw_target == old(self).default_draw_target
            },
            old(self).draw_target is None ==> {
                &&& final(self).draw_target is None
                &&& final(self).default_draw_target == *final(t)
            },
            final(self).screen_width == old(self).screen_width,
            final(self).screen_height == old(self).screen_height,
            final(self).alpha_mode == old(self).alpha_mode,
            final(self).blend_factor == old(self).blend_factor,
            final(self).coord_wrapping == old(self).coord_wrapping,
            final(self).color == old(self).color,
            final(self).draw_scale == old(self).draw_scale,
            final(self).font_scale == old(self).font_scale,
            final(self).font == old(self).font,
            final(self).title == old(self).title,
    {
        match &mut self.draw_target {
            Some(target) => target,
            None => &mut self.default_draw_target,
        }
    }

    /// Takes the temporary draw target back out, leaving the default screen
    /// target active.
    pub fn take_draw_target(&mut self) -> (t: Option<Sprite>)
        ensures
            t == old(self).draw_target,
            *final(self) == (StateData { draw_target: None, ..*old(self) }),
    {
        self.draw_target.take()
    }

    /// Makes `target` the active draw target until it is taken back.
    pub fn set_draw_target(&mut self, target: Sprite)
        ensures
            *final(self) == (StateData { draw_target: Some(target), ..*old(self) }),
    {
        self.draw_target = Some(target);
    }

    /// The current alpha-composition mode.
    pub fn get_alpha_mode(&self) -> (m: AlphaMode)
        ensures
            m == self.alpha_mode,
    {
        self.alpha_mode
    }

    /// Sets the alpha-composition mode.
    pub fn set_alpha_mode(&mut self, mode: AlphaMode)
        ensures
            *final(self) == (StateData { alpha_mode: mode, ..*old(self) }),
    {
        self.alpha_mode = mode;
    }

    /// Sets the extra blend weight (out of 255) applied in
    /// [`AlphaMode::Blend`].
    pub fn set_alpha_blend(&mut self, blend: u8)
        ensures
            *final(self) == (StateData { blend_factor: blend, ..*old(self) }),
    {
        self.blend_factor = blend;
    }

    /// Enables or disables screen-space coordinate wrapping.
    pub fn enable_coord_wrapping(&mut self, val: bool)
        ensures
            *final(self) == (StateData { coord_wrapping: val, ..*old(self) }),
    {
        self.coord_wrapping = val;
    }

    /// The current draw color.
    pub fn get_draw_color(&mut self) -> (p: Pixel)
        ensures
            *final(self) == *old(self),
            p == old(self).color,
    {
        self.color
    }

    /// Sets the draw color.
    pub fn set_draw_color(&mut self, p: Pixel)
        ensures
            *final(self) == (StateData { color: p, ..*old(self) }),
    {
        self.color = p;
    }

    /// Resets the draw color to opaque white.
    pub fn reset_draw_color(&mut self)
        ensures
            *final(self) == (StateData { color: spec_default_draw_color(), ..*old(self) }),
    {
        self.color = Pixel::rgb(255, 255, 255);
    }

    /// Sets the sprite magnification factor.
    pub fn set_draw_scale(&mut self, scale: i32)
        requires
            1 <= scale <= 1024,
        ensures
            *final(self) == (StateData { draw_scale: scale, ..*old(self) }),
    {
        self.draw_scale = scale;
    }

    /// Sets the text magnification factor.
    pub fn set_font_scale(&mut self, scale: i32)
        requires
            1 <= scale <= 1024,
        ensures
            *final(self) == (StateData { font_scale: scale, ..*old(self) }),
    {
        self.font_scale = scale;
    }

    // Utility functions ====================================================

    /// Wraps `(x, y)` once around the screen dimensions into `(ox, oy)`.
    pub fn wrap_coords(&self, x: i32, y: i32, ox: &mut i32, oy: &mut i32)
        requires
            self.wf(),
            -0x20_0000 <= x <= 0x20_0000,
            -0x20_0000 <= y <= 0x20_0000,
        ensures
            *final(ox) == spec_wrap(x as int, self.screen_width as int),
            *final(oy) == spec_wrap(y as int, self.screen_height as int),
    {
        *ox = if x < 0 {
            x + self.screen_width
        } else if x >= self.screen_width {
            x - self.screen_width
        } else {
            x
        };
        *oy = if y < 0 {
            y + self.screen_height
        } else if y >= self.screen_height {
            y - self.screen_height
        } else {
            y
        };
    }

    // Draw functions =======================================================

    /// Writes the current draw color at `(x, y)` under the current alpha
    /// mode; reports whether a pixel was written.
    pub fn draw(&mut self, x: i32, y: i32) -> (hit: bool)
        requires
            old(self).wf(),
            -0x20_0000 <= x <= 0x20_0000,
            -0x20_0000 <= y <= 0x20_0000,
        ensures
            final(self).wf(),
            StateData::same_but_pixels(old(self), final(self)),
            StateData::spec_draw_post(old(self), final(self), x as int, y as int, old(self).color, hit),
    {
        let p = self.color;
        self.draw_color(x, y, p)
    }

    /// What one pixel write leaves behind: with `(wx, wy)` the possibly
    /// wrapped coordinates, the target keeps every other pixel, and the
    /// pixel at `(wx, wy)` either takes the mode's write value or stays
    /// (when the mode discards the write or the coordinates fall outside).
    pub open spec fn spec_draw_post(
        a: &StateData,
        b: &StateData,
        x: int,
        y: int,
        p: Pixel,
        hit: bool,
    ) -> bool {
        let wx = if a.coord_wrapping {
            spec_wrap(x, a.screen_width as int)
        } else {
            x
        };
        let wy = if a.coord_wrapping {
            spec_wrap(y, a.screen_height as int)
        } else {
            y
        };
        let written = spec_write_value(a.alpha_mode, a.blend_factor, p, a.spec_target().spec_pixel(wx, wy));
        &&& unchanged_except(&a.spec_target(), &b.spec_target(), wx, wy)
        &&& hit == (a.spec_target().spec_in_bounds(wx, wy) && written is Some)
        &&& (hit ==> b.spec_target().spec_pixel(wx, wy) == written->0)
        &&& (!hit ==> b.spec_target() == a.spec_target())
    }

    /// Writes `p` at `(x, y)` under the current alpha mode; reports whether
    /// a pixel was written.
    pub fn draw_color(&mut self, x: i32, y: i32, p: Pixel) -> (hit: bool)
        requires
            old(self).wf(),
            -0x20_0000 <= x <= 0x20_0000,
            -0x20_0000 <= y <= 0x20_0000,
        ensures
            final(self).wf(),
            StateData::same_but_pixels(old(self), final(self)),
            StateData::spec_draw_post(old(self), final(self), x as int, y as int, p, hit),
    {
        let mut x = x;
        let mut y = y;
        if self.coord_wrapping {
            let mut ox: i32 = 0;
            let mut oy: i32 = 0;
            self.wrap_coords(x, y, &mut ox, &mut oy);
            x = ox;
            y = oy;
        }
        let alpha_mode = self.alpha_mode;
        let blend_factor = self.blend_factor;

        match alpha_mode {
            AlphaMode::Normal => self.target_set_pixel(x, y, p),
            AlphaMode::Mask => if p.a == 255 {
                self.target_set_pixel(x, y, p)
            } else {
                false
            },
            AlphaMode::Blend => {
                let current_p = self.target_get_pixel(x, y);
                let blended = p.blend_onto(current_p, blend_factor);
                self.target_set_pixel(x, y, blended)
            },
        }
    }

    /// Reads the pixel of the active draw target at `(x, y)`, or the
    /// transparent default outside it.
    fn target_get_pixel(&self, x: i32, y: i32) -> (p: Pixel)
        requires
            self.wf(),
        ensures
            self.spec_target().spec_in_bounds(x as int, y as int)
                ==> p == self.spec_target().spec_pixel(x as int, y as int),
            !self.spec_target().spec_in_bounds(x as int, y as int)
                ==> p == crate::pixel::spec_transparent(),
    {
        match &self.draw_target {
            Some(t) => t.get_pixel(x, y),
            None => self.default_draw_target.get_pixel(x, y),
        }
    }

    /// Writes `p` raw at `(x, y)` of the active draw target; reports
    /// whether the write landed inside it.
    fn target_set_pixel(&mut self, x: i32, y: i32, p: Pixel) -> (hit: bool)
        requires
            old(self).wf(),
        ensures
            final(self).wf(),
            StateData::same_but_pixels(old(self), final(self)),
            hit == old(self).spec_target().spec_in_bounds(x as int, y as int),
            unchanged_except(&old(self).spec_target(), &final(self).spec_target(), x as int, y as int),
            hit ==> final(self).spec_target().spec_pixel(x as int, y as int) == p,
            !hit ==> *final(self) == *old(self),
    {
        let ghost pre = *self;
        let hit = match &mut self.draw_target {
            Some(t) => t.set_pixel(x, y, p),
            None => self.default_draw_target.set_pixel(x, y, p),
        };
        proof {
            let a = pre.spec_target();
            let b = self.spec_target();
            if hit {
                lemma_grid_index(x as int, y as int, a.width as int, a.height as int);
                assert forall|qx: int, qy: int|
                    a.spec_in_bounds(qx, qy) && (qx != x as int || qy != y as int)
                        implies #[trigger] b.spec_pixel(qx, qy) == a.spec_pixel(qx, qy) by {
                    lemma_grid_index(qx, qy, a.width as int, a.height as int);
                }
            }
        }
        hit
    }

    /// Sets every pixel of the active draw target to `p`, ignoring the
    /// alpha mode.
    pub fn fill(&mut self, p: Pixel)
        requires
            old(self).wf(),
        ensures
            final(self).wf(),
            StateData::same_but_pixels(old(self), final(self)),
            forall|qx: int, qy: int|
                old(self).spec_target().spec_in_bounds(qx, qy)
                    ==> #[trigger] final(self).spec_target().spec_pixel(qx, qy) == p,
    {
        let ghost orig = *self;
        let width = self.get_draw_target().width();
        let height = self.get_draw_target().height();
        let mut x: i32 = 0;
        while x < width
            invariant
                self.wf(),
                0 <= x <= width,
                width == self.spec_target().width,
                height == self.spec_target().height,
                StateData::same_but_pixels(&orig, self),
                forall|qx: int, qy: int|
                    self.spec_target().spec_in_bounds(qx, qy) && qx < x
                        ==> #[trigger] self.spec_target().spec_pixel(qx, qy) == p,
            decreases width - x,
        {
            let mut y: i32 = 0;
            while y < height
                invariant
                    self.wf(),
                    0 <= x < width,
                    0 <= y <= height,
                    width == self.spec_target().width,
                    height == self.spec_target().height,
                    StateData::same_but_pixels(&orig, self),
                    forall|qx: int, qy: int|
                        self.spec_target().spec_in_bounds(qx, qy) && qx < x
                            ==> #[trigger] self.spec_target().spec_pixel(qx, qy) == p,
                    forall|qy: int|
                        0 <= qy < y ==> #[trigger] self.spec_target().spec_pixel(x as int, qy) == p,
                decreases height - y,
            {
                self.target_set_pixel(x, y, p);
                y = y + 1;
            }
            x = x + 1;
        }
    }

    /// Clears the active draw target to `p`, ignoring the alpha mode.
    pub fn clear(&mut self, p: Pixel)
        requires
            old(self).wf(),
        ensures
            final(self).wf(),
            StateData::same_but_pixels(old(self), final(self)),
            forall|qx: int, qy: int|
                old(self).spec_target().spec_in_bounds(qx, qy)
                    ==> #[trigger] final(self).spec_target().spec_pixel(qx, qy) == p,
    {
        self.fill(p);
    }
}

impl StateData {
    /// Draws a solid line from `(x1, y1)` to `(x2, y2)` in the current draw
    /// color.
    pub fn draw_line(&mut self, x1: i32, y1: i32, x2: i32, y2: i32)
        requires
            old(self).wf(),
            -0x80000 <= x1 <= 0x80000,
            -0x80000 <= y1 <= 0x80000,
            -0x80000 <= x2 <= 0x80000,
            -0x80000 <= y2 <= 0x80000,
        ensures
            final(self).wf(),
            StateData::same_but_pixels(old(self), final(self)),
            !old(self).coord_wrapping ==> unchanged_outside_bands(
                &old(self).spec_target(),
                &final(self).spec_target(),
                vstd::math::min(x1 as int, x2 as int),
                vstd::math::min(y1 as int, y2 as int),
                vstd::math::max(x1 as int, x2 as int),
                vstd::math::max(y1 as int, y2 as int),
            ),
            !old(self).coord_wrapping && (x1 == x2 || y1 == y2) ==> unchanged_outside_box(
                &old(self).spec_target(),
                &final(self).spec_target(),
                vstd::math::min(x1 as int, x2 as int),
                vstd::math::min(y1 as int, y2 as int),
                vstd::math::max(x1 as int, x2 as int),
                vstd::math::max(y1 as int, y2 as int),
            ),
            !old(self).coord_wrapping && old(self).alpha_mode == AlphaMode::Normal && x1 == x2
                ==> forall|qy: int|
                    vstd::math::min(y1 as int, y2 as int) <= qy
                        <= vstd::math::max(y1 as int, y2 as int)
                        && old(self).spec_target().spec_in_bounds(x1 as int, qy)
                        ==> #[trigger] final(self).spec_target().spec_pixel(x1 as int, qy)
                        == old(self).color,
            !old(self).coord_wrapping && old(self).alpha_mode == AlphaMode::Normal && y1 == y2
                ==> forall|qx: int|
                    vstd::math::min(x1 as int, x2 as int) <= qx
                        <= vstd::math::max(x1 as int, x2 as int)
                        && old(self).spec_target().spec_in_bounds(qx, y1 as int)
                        ==> #[trigger] final(self).spec_target().spec_pixel(qx, y1 as int)
                        == old(self).color,
    {
        self.draw_line_pattern(x1, y1, x2, y2, 0xFFFF_FFFF);
    }

    /// Draws a line from `(x1, y1)` to `(x2, y2)`, plotting only where the
    /// rotating 32-bit `pattern` has a one bit. When wrapping is off the
    /// line touches only pixels whose column or row lies between the
    /// endpoints; an axis-aligned line stays inside its bounding box, and a
    /// solid axis-aligned line under normal composition paints every pixel
    /// of its segment with the draw color.
    #[verifier::loop_isolation(false)]
    pub fn draw_line_pattern(&mut self, x1: i32, y1: i32, x2: i32, y2: i32, pattern: u32)
        requires
            old(self).wf(),
            -0x80000 <= x1 <= 0x80000,
            -0x80000 <= y1 <= 0x80000,
            -0x80000 <= x2 <= 0x80000,
            -0x80000 <= y2 <= 0x80000,
        ensures
            final(self).wf(),
            StateData::same_but_pixels(old(self), final(self)),
            !old(self).coord_wrapping ==> unchanged_outside_bands(
                &old(self).spec_target(),
                &final(self).spec_target(),
                vstd::math::min(x1 as int, x2 as int),
                vstd::math::min(y1 as int, y2 as int),
                vstd::math::max(x1 as int, x2 as int),
                vstd::math::max(y1 as int, y2 as int),
            ),
            !old(self).coord_wrapping && (x1 == x2 || y1 == y2) ==> unchanged_outside_box(
                &old(self).spec_target(),
                &final(self).spec_target(),
                vstd::math::min(x1 as int, x2 as int),
                vstd::math::min(y1 as int, y2 as int),
                vstd::math::max(x1 as int, x2 as int),
                vstd::math::max(y1 as int, y2 as int),
            ),
            !old(self).coord_wrapping && old(self).alpha_mode == AlphaMode::Normal && pattern
                == 0xFFFF_FFFF && x1 == x2 ==> forall|qy: int|
                vstd::math::min(y1 as int, y2 as int) <= qy <= vstd::math::max(
                    y1 as int,
                    y2 as int,
                ) && old(self).spec_target().spec_in_bounds(x1 as int, qy)
                    ==> #[trigger] final(self).spec_target().spec_pixel(x1 as int, qy) == old(
                    self,
                ).color,
            !old(self).coord_wrapping && old(self).alpha_mode == AlphaMode::Normal && pattern
                == 0xFFFF_FFFF && y1 == y2 ==> forall|qx: int|
                vstd::math::min(x1 as int, x2 as int) <= qx <= vstd::math::max(
                    x1 as int,
                    x2 as int,
                ) && old(self).spec_target().spec_in_bounds(qx, y1 as int)
                    ==> #[trigger] final(self).spec_target().spec_pixel(qx, y1 as int) == old(
                    self,
                ).color,
    {
        let ghost orig = *self;
        let ghost lox = vstd::math::min(x1 as int, x2 as int);
        let ghost hix = vstd::math::max(x1 as int, x2 as int);
        let ghost loy = vstd::math::min(y1 as int, y2 as int);
        let ghost hiy = vstd::math::max(y1 as int, y2 as int);
        let dx = x2 - x1;
        let dy = y2 - y1;
        let mut pat = pattern;

        if dx == 0 {
            // Vertical
            let ya = if y2 < y1 { y2 } else { y1 };
            let yb = if y2 < y1 { y1 } else { y2 };
            let mut y = ya;
            while y <= yb
                invariant
                    self.wf(),
                    StateData::same_but_pixels(&orig, self),
                    orig.wf(),
                    ya <= y <= yb + 1,
                    ya == loy && yb == hiy && x1 as int == lox && lox == hix,
                    -0x80000 <= ya,
                    yb <= 0x80000,
                    pattern == 0xFFFF_FFFF ==> pat == 0xFFFF_FFFF,
                    !orig.coord_wrapping ==> unchanged_outside_box(
                        &orig.spec_target(),
                        &self.spec_target(),
                        lox,
                        loy,
                        hix,
                        hiy,
                    ),
                    !orig.coord_wrapping && orig.alpha_mode == AlphaMode::Normal && pattern
                        == 0xFFFF_FFFF ==> forall|qy: int|
                        ya <= qy < y && orig.spec_target().spec_in_bounds(x1 as int, qy)
                            ==> #[trigger] self.spec_target().spec_pixel(x1 as int, qy)
                            == orig.color,
                decreases yb + 1 - y,
            {
                pat = (pat << 1u32) | (pat >> 31u32);
                proof {
                    if pattern == 0xFFFF_FFFF {
                        assert(((0xFFFF_FFFFu32 << 1u32) | (0xFFFF_FFFFu32 >> 31u32))
                            == 0xFFFF_FFFFu32) by (bit_vector);
                    }
                }
                if pat & 1 > 0 {
                    let ghost before = self.spec_target();
                    self.draw(x1, y);
                    proof {
                        if !orig.coord_wrapping {
                            lemma_chain_box(
                                &orig.spec_target(),
                                &before,
                                &self.spec_target(),
                                lox,
                                loy,
                                hix,
                                hiy,
                                x1 as int,
                                y as int,
                            );
                        }
                    }
                } else {
                    proof {
                        assert(pattern != 0xFFFF_FFFF) by {
                            if pattern == 0xFFFF_FFFF {
                                assert((0xFFFF_FFFFu32 & 1u32) > 0u32) by (bit_vector);
                            }
                        }
                    }
                }
                y = y + 1;
            }
        } else if dy == 0 {
            // Horizontal
            let xa = if x2 < x1 { x2 } else { x1 };
            let xb = if x2 < x1 { x1 } else { x2 };
            let mut x = xa;
            while x <= xb
                invariant
                    self.wf(),
                    StateData::same_but_pixels(&orig, self),
                    orig.wf(),
                    xa <= x <= xb + 1,
                    xa == lox && xb == hix && y1 as int == loy && loy == hiy,
                    -0x80000 <= xa,
                    xb <= 0x80000,
                    pattern == 0xFFFF_FFFF ==> pat == 0xFFFF_FFFF,
                    !orig.coord_wrapping ==> unchanged_outside_box(
                        &orig.spec_target(),
                        &self.spec_target(),
                        lox,
                        loy,
                        hix,
                        hiy,
                    ),
                    !orig.coord_wrapping && orig.alpha_mode == AlphaMode::Normal && pattern
                        == 0xFFFF_FFFF ==> forall|qx: int|
                        xa <= qx < x && orig.spec_target().spec_in_bounds(qx, y1 as int)
                            ==> #[trigger] self.spec_target().spec_pixel(qx, y1 as int)
                            == orig.color,
                decreases xb + 1 - x,
            {
                pat = (pat << 1u32) | (pat >> 31u32);
                proof {
                    if pattern == 0xFFFF_FFFF {
                        assert(((0xFFFF_FFFFu32 << 1u32) | (0xFFFF_FFFFu32 >> 31u32))
                            == 0xFFFF_FFFFu32) by (bit_vector);
                    }
                }
                if pat & 1 > 0 {
                    let ghost before = self.spec_target();
                    self.draw(x, y1);
                    proof {
                        if !orig.coord_wrapping {
                            lemma_chain_box(
                                &orig.spec_target(),
                                &before,
                                &self.spec_target(),
                                lox,
                                loy,
                                hix,
                                hiy,
                                x as int,
                                y1 as int,
                            );
                        }
                    }
                } else {
                    proof {
                        assert(pattern != 0xFFFF_FFFF) by {
                            if pattern == 0xFFFF_FFFF {
                                assert((0xFFFF_FFFFu32 & 1u32) > 0u32) by (bit_vector);
                            }
                        }
                    }
                }
                x = x + 1;
            }
        } else {
            // Diagonal
            let dx1 = if dx < 0 { -dx } else { dx };
            let dy1 = if dy < 0 { -dy } else { dy };
            let mut px = 2 * dy1 - dx1;
            let mut py = 2 * dx1 - dy1;
            if dy1 <= dx1 {
                let (mut x, mut y, xe) = if dx >= 0 { (x1, y1, x2) } else { (x2, y2, x1) };
                let ghost xs = x as int;
                pat = (pat << 1u32) | (pat >> 31u32);
                if pat & 1 > 0 {
                    let ghost before = self.spec_target();
                    self.draw(x, y);
                    proof {
                        if !orig.coord_wrapping {
                            lemma_chain_bands(
                                &orig.spec_target(),
                                &before,
                                &self.spec_target(),
                                lox,
                                loy,
                                hix,
                                hiy,
                                x as int,
                                y as int,
                            );
                        }
                    }
                }
                while x < xe
                    invariant
                        self.wf(),
                        StateData::same_but_pixels(&orig, self),
                        orig.wf(),
                        xs <= x <= xe,
                        lox <= xs <= hix,
                        lox <= xe <= hix,
                        -0x80000 <= lox,
                        hix <= 0x80000,
                        -0x80000 <= loy,
                        hiy <= 0x80000,
                        0 < dy1 <= dx1 <= 0x100000,
                        -0x80000 - (x - xs) <= y <= 0x80000 + (x - xs),
                        -0x400000 <= px <= 0x400000,
                        !orig.coord_wrapping ==> unchanged_outside_bands(
                            &orig.spec_target(),
                            &self.spec_target(),
                            lox,
                            loy,
                            hix,
                            hiy,
                        ),
                    decreases xe - x,
                {
                    x = x + 1;
                    if px < 0 {
                        px = px + 2 * dy1;
                    } else {
                        if (dx < 0 && dy < 0) || (dx > 0 && dy > 0) {
                            y = y + 1;
                        } else {
                            y = y - 1;
                        }
                        px = px + 2 * (dy1 - dx1);
                    }
                    pat = (pat << 1u32) | (pat >> 31u32);
                    if pat & 1 > 0 {
                        let ghost before = self.spec_target();
                        self.draw(x, y);
                        proof {
                            if !orig.coord_wrapping {
                                lemma_chain_bands(
                                    &orig.spec_target(),
                                    &before,
                                    &self.spec_target(),
                                    lox,
                                    loy,
                                    hix,
                                    hiy,
                                    x as int,
                                    y as int,
                                );
                            }
                        }
                    }
                }
            } else {
                let (mut x, mut y, ye) = if dy >= 0 { (x1, y1, y2) } else { (x2, y2, y1) };
                let ghost ys = y as int;
                pat = (pat << 1u32) | (pat >> 31u32);
                if pat & 1 > 0 {
                    let ghost before = self.spec_target();
                    self.draw(x, y);
                    proof {
                        if !orig.coord_wrapping {
                            lemma_chain_bands(
                                &orig.spec_target(),
                                &before,
                                &self.spec_target(),
                                lox,
                                loy,
                                hix,
                                hiy,
                                x as int,
                                y as int,
                            );
                        }
                    }
                }
                while y < ye
                    invariant
                        self.wf(),
                        StateData::same_but_pixels(&orig, self),
                        orig.wf(),
                        ys <= y <= ye,
                        loy <= ys <= hiy,
                        loy <= ye <= hiy,
                        -0x80000 <= lox,
                        hix <= 0x80000,
                        -0x80000 <= loy,
                        hiy <= 0x80000,
                        0 < dx1 < dy1 <= 0x100000,
                        -0x80000 - (y - ys) <= x <= 0x80000 + (y - ys),
                        -0x400000 <= py <= 0x400000,
                        !orig.coord_wrapping ==> unchanged_outside_bands(
                            &orig.spec_target(),
                            &self.spec_target(),
                            lox,
                            loy,
                            hix,
                            hiy,
                        ),
                    decreases ye - y,
                {
                    y = y + 1;
                    if py < 0 {
                        py = py + 2 * dx1;
                    } else {
                        if (dx < 0 && dy < 0) || (dx > 0 && dy > 0) {
                            x = x + 1;
                        } else {
                            x = x - 1;
                        }
                        py = py + 2 * (dx1 - dy1);
                    }
                    pat = (pat << 1u32) | (pat >> 31u32);
                    if pat & 1 > 0 {
                        let ghost before = self.spec_target();
                        self.draw(x, y);
                        proof {
                            if !orig.coord_wrapping {
                                lemma_chain_bands(
                                    &orig.spec_target(),
                                    &before,
                                    &self.spec_target(),
                                    lox,
                                    loy,
                                    hix,
                                    hiy,
                                    x as int,
                                    y as int,
                                );
                            }
                        }
                    }
                }
            }
        }
    }
}


impl StateData {
    /// Draws a filled rectangle from `(x, y)` spanning `w` by `h` pixels in
    /// the current draw color. With wrapping off only pixels inside the
    /// rectangle change, and under normal composition every in-bounds pixel
    /// of the rectangle takes the draw color.
    #[verifier::loop_isolation(false)]
    pub fn fill_rect(&mut self, x: i32, y: i32, w: i32, h: i32)
        requires
            old(self).wf(),
            -0x39000 <= x <= 0x39000,
            -0x39000 <= y <= 0x39000,
            -0x10000 <= w <= 0x10000,
            -0x10000 <= h <= 0x10000,
        ensures
            final(self).wf(),
            StateData::same_but_pixels(old(self), final(self)),
            !old(self).coord_wrapping ==> unchanged_outside_box(
                &old(self).spec_target(),
                &final(self).spec_target(),
                x as int,
                y as int,
                x + w - 1,
                y + h - 1,
            ),
            !old(self).coord_wrapping && old(self).alpha_mode == AlphaMode::Normal
                ==> forall|qx: int, qy: int|
                    x <= qx < x + w && y <= qy < y + h
                        && old(self).spec_target().spec_in_bounds(qx, qy)
                        ==> #[trigger] final(self).spec_target().spec_pixel(qx, qy)
                        == old(self).color,
    {
        if w <= 0 || h <= 0 {
            return ;
        }
        let ghost orig = *self;
        let mut x1 = x;
        while x1 < x + w
            invariant
                self.wf(),
                StateData::same_but_pixels(&orig, self),
                x <= x1 <= x + w,
                !orig.coord_wrapping ==> unchanged_outside_box(
                    &orig.spec_target(),
                    &self.spec_target(),
                    x as int,
                    y as int,
                    x + w - 1,
                    y + h - 1,
                ),
                !orig.coord_wrapping && orig.alpha_mode == AlphaMode::Normal
                    ==> forall|qx: int, qy: int|
                        x <= qx < x1 && y <= qy < y + h
                            && orig.spec_target().spec_in_bounds(qx, qy)
                            ==> #[trigger] self.spec_target().spec_pixel(qx, qy) == orig.color,
            decreases x + w - x1,
        {
            let mut y1 = y;
            while y1 < y + h
                invariant
                    self.wf(),
                    StateData::same_but_pixels(&orig, self),
                    x <= x1 < x + w,
                    y <= y1 <= y + h,
                    !orig.coord_wrapping ==> unchanged_outside_box(
                        &orig.spec_target(),
                        &self.spec_target(),
                        x as int,
                        y as int,
                        x + w - 1,
                        y + h - 1,
                    ),
                    !orig.coord_wrapping && orig.alpha_mode == AlphaMode::Normal
                        ==> forall|qx: int, qy: int|
                            x <= qx < x1 && y <= qy < y + h
                                && orig.spec_target().spec_in_bounds(qx, qy)
                                ==> #[trigger] self.spec_target().spec_pixel(qx, qy)
                                == orig.color,
                    !orig.coord_wrapping && orig.alpha_mode == AlphaMode::Normal
                        ==> forall|qy: int|
                            y <= qy < y1 && orig.spec_target().spec_in_bounds(x1 as int, qy)
                                ==> #[trigger] self.spec_target().spec_pixel(x1 as int, qy)
                                == orig.color,
                decreases y + h - y1,
            {
                let ghost before = self.spec_target();
                self.draw(x1, y1);
                proof {
                    if !orig.coord_wrapping {
                        lemma_chain_box(
                            &orig.spec_target(),
                            &before,
                            &self.spec_target(),
                            x as int,
                            y as int,
                            x + w - 1,
                            y + h - 1,
                            x1 as int,
                            y1 as int,
                        );
                    }
                }
                y1 = y1 + 1;
            }
            x1 = x1 + 1;
        }
    }

    /// Whether `(qx, qy)` lies on the one-pixel border of the rectangle
    /// from `(x, y)` to `(x + w, y + h)` inclusive.
    pub open spec fn spec_on_rect_border(
        x: int,
        y: int,
        w: int,
        h: int,
        qx: int,
        qy: int,
    ) -> bool {
        ||| ((qy == y || qy == y + h) && x <= qx <= x + w)
        ||| ((qx == x || qx == x + w) && y <= qy <= y + h)
    }

    /// Draws the outline of the rectangle from `(x, y)` to
    /// `(x + w, y + h)` in the current draw color. With wrapping off only
    /// border pixels change, and under normal composition every in-bounds
    /// border pixel takes the draw color.
    pub fn draw_rect(&mut self, x: i32, y: i32, w: i32, h: i32)
        requires
            old(self).wf(),
            -0x39000 <= x <= 0x39000,
            -0x39000 <= y <= 0x39000,
            0 <= w <= 0x10000,
            0 <= h <= 0x10000,
        ensures
            final(self).wf(),
            StateData::same_but_pixels(old(self), final(self)),
            !old(self).coord_wrapping ==> forall|qx: int, qy: int|
                old(self).spec_target().spec_in_bounds(qx, qy)
                    && !StateData::spec_on_rect_border(x as int, y as int, w as int, h as int, qx, qy)
                    ==> #[trigger] final(self).spec_target().spec_pixel(qx, qy)
                    == old(self).spec_target().spec_pixel(qx, qy),
            !old(self).coord_wrapping && old(self).alpha_mode == AlphaMode::Normal
                ==> forall|qx: int, qy: int|
                    old(self).spec_target().spec_in_bounds(qx, qy)
                        && StateData::spec_on_rect_border(x as int, y as int, w as int, h as int, qx, qy)
                        ==> #[trigger] final(self).spec_target().spec_pixel(qx, qy)
                        == old(self).color,
    {
        let ghost orig = *self;
        self.draw_line(x, y, x + w, y);  // Top
        let ghost s1 = *self;
        self.draw_line(x + w, y, x + w, y + h);  // Right
        let ghost s2 = *self;
        self.draw_line(x + w, y + h, x, y + h);  // Bottom
        let ghost s3 = *self;
        self.draw_line(x, y + h, x, y);  // Left
        proof {
            if !orig.coord_wrapping {
                let a = orig.spec_target();
                let b1 = s1.spec_target();
                let b2 = s2.spec_target();
                let b3 = s3.spec_target();
                let c = self.spec_target();
                assert forall|qx: int, qy: int|
                    a.spec_in_bounds(qx, qy) && !StateData::spec_on_rect_border(
                        x as int,
                        y as int,
                        w as int,
                        h as int,
                        qx,
                        qy,
                    ) implies #[trigger] c.spec_pixel(qx, qy) == a.spec_pixel(qx, qy) by {
                    assert(b1.spec_pixel(qx, qy) == a.spec_pixel(qx, qy));
                    assert(b2.spec_pixel(qx, qy) == b1.spec_pixel(qx, qy));
                    assert(b3.spec_pixel(qx, qy) == b2.spec_pixel(qx, qy));
                    assert(c.spec_pixel(qx, qy) == b3.spec_pixel(qx, qy));
                }
                if orig.alpha_mode == AlphaMode::Normal {
                    assert forall|qx: int, qy: int|
                        a.spec_in_bounds(qx, qy) && StateData::spec_on_rect_border(
                            x as int,
                            y as int,
                            w as int,
                            h as int,
                            qx,
                            qy,
                        ) implies #[trigger] c.spec_pixel(qx, qy) == orig.color by {
                        if qx == x as int && y as int <= qy <= y + h {
                            assert(c.spec_pixel(qx, qy) == orig.color);
                        } else if qx == x + w && y as int <= qy <= y + h {
                            if qy == y + h {
                                assert(b3.spec_pixel(qx, qy) == orig.color);
                            } else {
                                assert(b2.spec_pixel(qx, qy) == orig.color);
                                assert(b3.spec_pixel(qx, qy) == b2.spec_pixel(qx, qy));
                            }
                            assert(c.spec_pixel(qx, qy) == b3.spec_pixel(qx, qy));
                        } else if qy == y as int {
                            assert(b1.spec_pixel(qx, qy) == orig.color);
                            assert(b2.spec_pixel(qx, qy) == b1.spec_pixel(qx, qy));
                            assert(b3.spec_pixel(qx, qy) == b2.spec_pixel(qx, qy));
                            assert(c.spec_pixel(qx, qy) == b3.spec_pixel(qx, qy));
                        } else {
                            assert(b3.spec_pixel(qx, qy) == orig.color);
                            assert(c.spec_pixel(qx, qy) == b3.spec_pixel(qx, qy));
                        }
                    }
                }
            }
        }
    }
}


impl StateData {
    /// Draws the outline of a circle centered at `(x, y)` with radius `r`.
    pub fn draw_circle(&mut self, x: i32, y: i32, r: i32)
        requires
            old(self).wf(),
            -0x8000 <= x <= 0x8000,
            -0x8000 <= y <= 0x8000,
            0 <= r <= 0x1000,
        ensures
            final(self).wf(),
            StateData::same_but_pixels(old(self), final(self)),
            !old(self).coord_wrapping ==> unchanged_outside_box(
                &old(self).spec_target(),
                &final(self).spec_target(),
                x - r,
                y - r,
                x + r,
                y + r,
            ),
    {
        self.draw_partial_circle(x, y, r, 0xFF);
    }

    /// Draws the outline of a circle centered at `(x, y)` with radius `r`,
    /// keeping only the octants selected by `mask`. With wrapping off only
    /// pixels within Chebyshev distance `r` of the center change.
    #[verifier::loop_isolation(false)]
    pub fn draw_partial_circle(&mut self, x: i32, y: i32, r: i32, mask: u8)
        requires
            old(self).wf(),
            -0x8000 <= x <= 0x8000,
            -0x8000 <= y <= 0x8000,
            0 <= r <= 0x1000,
        ensures
            final(self).wf(),
            StateData::same_but_pixels(old(self), final(self)),
            !old(self).coord_wrapping ==> unchanged_outside_box(
                &old(self).spec_target(),
                &final(self).spec_target(),
                x - r,
                y - r,
                x + r,
                y + r,
            ),
    {
        let ghost orig = *self;
        let mut x0: i32 = 0;
        let mut y0: i32 = r;
        let mut d: i32 = 3 - 2 * r;
        if r == 0 {
            return ;
        }
        while y0 >= x0
            invariant
                self.wf(),
                StateData::same_but_pixels(&orig, self),
                0 <= x0 <= y0 + 2,
                -1 <= y0 <= r,
                1 <= r,
                -(4 * r + 16) <= d <= 3 + (x0 + 1) * (4 * r + 16),
                !orig.coord_wrapping ==> unchanged_outside_box(
                    &orig.spec_target(),
                    &self.spec_target(),
                    x - r,
                    y - r,
                    x + r,
                    y + r,
                ),
            decreases y0 - x0 + 2,
        {
            if mask & 0x01 > 0 {
                self.circle_point(Ghost(&orig), x, y, r, x + x0, y - y0);
            }
            if mask & 0x02 > 0 {
                self.circle_point(Ghost(&orig), x, y, r, x + y0, y - x0);
            }
            if mask & 0x04 > 0 {
                self.circle_point(Ghost(&orig), x, y, r, x + y0, y + x0);
            }
            if mask & 0x08 > 0 {
                self.circle_point(Ghost(&orig), x, y, r, x + x0, y + y0);
            }
            if mask & 0x10 > 0 {
                self.circle_point(Ghost(&orig), x, y, r, x - x0, y + y0);
            }
            if mask & 0x20 > 0 {
                self.circle_point(Ghost(&orig), x, y, r, x - y0, y + x0);
            }
            if mask & 0x40 > 0 {
                self.circle_point(Ghost(&orig), x, y, r, x - y0, y - x0);
            }
            if mask & 0x80 > 0 {
                self.circle_point(Ghost(&orig), x, y, r, x - x0, y - y0);
            }
            x0 = x0 + 1;
            proof {
                assert((x0 + 1) * (4 * r + 16) == x0 * (4 * r + 16) + (4 * r + 16))
                    by (nonlinear_arith);
                assert(x0 * (4 * r + 16) <= 0x1003 * (4 * 0x1000 + 16)) by (nonlinear_arith)
                    requires
                        0 <= x0 <= 0x1003,
                        1 <= r <= 0x1000,
                ;
            }
            if d < 0 {
                d = d + 4 * x0 + 6;
            } else {
                y0 = y0 - 1;
                d = d + 4 * (x0 - y0) + 10;
            }
        }
    }

    /// One plotted point of a circle outline, kept inside the circle box.
    fn circle_point(&mut self, Ghost(orig): Ghost<&StateData>, x: i32, y: i32, r: i32, px: i32, py: i32)
        requires
            old(self).wf(),
            orig.wf(),
            StateData::same_but_pixels(orig, old(self)),
            -0x8000 <= x <= 0x8000,
            -0x8000 <= y <= 0x8000,
            0 <= r <= 0x1000,
            x - r <= px <= x + r,
            y - r <= py <= y + r,
            !orig.coord_wrapping ==> unchanged_outside_box(
                &orig.spec_target(),
                &old(self).spec_target(),
                x - r,
                y - r,
                x + r,
                y + r,
            ),
        ensures
            final(self).wf(),
            StateData::same_but_pixels(orig, final(self)),
            !orig.coord_wrapping ==> unchanged_outside_box(
                &orig.spec_target(),
                &final(self).spec_target(),
                x - r,
                y - r,
                x + r,
                y + r,
            ),
    {
        let ghost before = self.spec_target();
        self.draw(px, py);
        proof {
            if !orig.coord_wrapping {
                lemma_chain_box(
                    &orig.spec_target(),
                    &before,
                    &self.spec_target(),
                    x - r,
                    y - r,
                    x + r,
                    y + r,
                    px as int,
                    py as int,
                );
            }
        }
    }

    /// Draws a filled circle centered at `(x, y)` with radius `r`. With
    /// wrapping off only pixels within Chebyshev distance `r` of the center
    /// change.
    #[verifier::loop_isolation(false)]
    pub fn fill_circle(&mut self, x: i32, y: i32, r: i32)
        requires
            old(self).wf(),
            -0x8000 <= x <= 0x8000,
            -0x8000 <= y <= 0x8000,
            0 <= r <= 0x1000,
        ensures
            final(self).wf(),
            StateData::same_but_pixels(old(self), final(self)),
            !old(self).coord_wrapping ==> unchanged_outside_box(
                &old(self).spec_target(),
                &final(self).spec_target(),
                x - r,
                y - r,
                x + r,
                y + r,
            ),
    {
        let ghost orig = *self;
        let mut x0: i32 = 0;
        let mut y0: i32 = r;
        let mut d: i32 = 3 - 2 * r;
        if r == 0 {
            return ;
        }
        while y0 >= x0
            invariant
                self.wf(),
                StateData::same_but_pixels(&orig, self),
                0 <= x0 <= y0 + 2,
                -1 <= y0 <= r,
                1 <= r,
                -(4 * r + 16) <= d <= 3 + (x0 + 1) * (4 * r + 16),
                !orig.coord_wrapping ==> unchanged_outside_box(
                    &orig.spec_target(),
                    &self.spec_target(),
                    x - r,
                    y - r,
                    x + r,
                    y + r,
                ),
            decreases y0 - x0 + 2,
        {
            self.circle_span(Ghost(&orig), x, y, r, x - x0, x + x0, y - y0);
            self.circle_span(Ghost(&orig), x, y, r, x - y0, x + y0, y - x0);
            self.circle_span(Ghost(&orig), x, y, r, x - x0, x + x0, y + y0);
            self.circle_span(Ghost(&orig), x, y, r, x - y0, x + y0, y + x0);
            x0 = x0 + 1;
            proof {
                assert((x0 + 1) * (4 * r + 16) == x0 * (4 * r + 16) + (4 * r + 16))
                    by (nonlinear_arith);
                assert(x0 * (4 * r + 16) <= 0x1003 * (4 * 0x1000 + 16)) by (nonlinear_arith)
                    requires
                        0 <= x0 <= 0x1003,
                        1 <= r <= 0x1000,
                ;
            }
            if d < 0 {
                d = d + 4 * x0 + 6;
            } else {
                y0 = y0 - 1;
                d = d + 4 * (x0 - y0) + 10;
            }
        }
    }

    /// One horizontal span of a filled circle, kept inside the circle box.
    #[verifier::loop_isolation(false)]
    fn circle_span(&mut self, Ghost(orig): Ghost<&StateData>, x: i32, y: i32, r: i32, sx: i32, ex: i32, ny: i32)
        requires
            old(self).wf(),
            orig.wf(),
            StateData::same_but_pixels(orig, old(self)),
            -0x8000 <= x <= 0x8000,
            -0x8000 <= y <= 0x8000,
            0 <= r <= 0x1000,
            x - r <= sx <= x + r,
            x - r <= ex <= x + r + 1,
            sx <= ex,
            y - r <= ny <= y + r,
            !orig.coord_wrapping ==> unchanged_outside_box(
                &orig.spec_target(),
                &old(self).spec_target(),
                x - r,
                y - r,
                x + r,
                y + r,
            ),
        ensures
            final(self).wf(),
            StateData::same_but_pixels(orig, final(self)),
            !orig.coord_wrapping ==> unchanged_outside_box(
                &orig.spec_target(),
                &final(self).spec_target(),
                x - r,
                y - r,
                x + r,
                y + r,
            ),
    {
        let mut i = sx;
        while i < ex
            invariant
                self.wf(),
                StateData::same_but_pixels(orig, self),
                sx <= i <= ex,
                !orig.coord_wrapping ==> unchanged_outside_box(
                    &orig.spec_target(),
                    &self.spec_target(),
                    x - r,
                    y - r,
                    x + r,
                    y + r,
                ),
            decreases ex - i,
        {
            let ghost before = self.spec_target();
            self.draw(i, ny);
            proof {
                if !orig.coord_wrapping {
                    lemma_chain_box(
                        &orig.spec_target(),
                        &before,
                        &self.spec_target(),
                        x - r,
                        y - r,
                        x + r,
                        y + r,
                        i as int,
                        ny as int,
                    );
                }
            }
            i = i + 1;
        }
    }
}


/// The least of three values.
pub open spec fn spec_min3(a: int, b: int, c: int) -> int {
    vstd::math::min(a, vstd::math::min(b, c))
}

/// The greatest of three values.
pub open spec fn spec_max3(a: int, b: int, c: int) -> int {
    vstd::math::max(a, vstd::math::max(b, c))
}

/// The middle of three values.
pub open spec fn spec_mid3(a: int, b: int, c: int) -> int {
    a + b + c - spec_min3(a, b, c) - spec_max3(a, b, c)
}

/// A triangle the span filler can rasterize: either all three corners lie
/// on one row, or the two lowest rows differ. When the middle row equals
/// the bottom row of a taller triangle, the second span slope would divide
/// by zero.
pub open spec fn spec_triangle_rows_ok(ya: int, yb: int, yc: int) -> bool {
    spec_min3(ya, yb, yc) == spec_max3(ya, yb, yc) || spec_mid3(ya, yb, yc) != spec_max3(
        ya,
        yb,
        yc,
    )
}

impl StateData {
    /// Ellipse outlines are not offered by this rasterizer; the call leaves
    /// the draw state untouched.
    pub fn draw_elipse(&mut self)
        ensures
            *final(self) == *old(self),
    {
    }

    /// Filled ellipses are not offered by this rasterizer; the call leaves
    /// the draw state untouched.
    pub fn fill_elipse(&mut self)
        ensures
            *final(self) == *old(self),
    {
    }

    /// Draws the outline of the triangle with corners `(x1, y1)`,
    /// `(x2, y2)` and `(x3, y3)`. With wrapping off the outline touches
    /// only pixels whose column or row lies between the corners.
    pub fn draw_triangle(&mut self, x1: i32, y1: i32, x2: i32, y2: i32, x3: i32, y3: i32)
        requires
            old(self).wf(),
            -0x4000 <= x1 <= 0x4000,
            -0x4000 <= y1 <= 0x4000,
            -0x4000 <= x2 <= 0x4000,
            -0x4000 <= y2 <= 0x4000,
            -0x4000 <= x3 <= 0x4000,
            -0x4000 <= y3 <= 0x4000,
        ensures
            final(self).wf(),
            StateData::same_but_pixels(old(self), final(self)),
            !old(self).coord_wrapping ==> unchanged_outside_bands(
                &old(self).spec_target(),
                &final(self).spec_target(),
                spec_min3(x1 as int, x2 as int, x3 as int),
                spec_min3(y1 as int, y2 as int, y3 as int),
                spec_max3(x1 as int, x2 as int, x3 as int),
                spec_max3(y1 as int, y2 as int, y3 as int),
            ),
    {
        let ghost orig = *self;
        let ghost lox = spec_min3(x1 as int, x2 as int, x3 as int);
        let ghost loy = spec_min3(y1 as int, y2 as int, y3 as int);
        let ghost hix = spec_max3(x1 as int, x2 as int, x3 as int);
        let ghost hiy = spec_max3(y1 as int, y2 as int, y3 as int);
        self.draw_line(x1, y1, x2, y2);
        let ghost s1 = *self;
        self.draw_line(x2, y2, x3, y3);
        let ghost s2 = *self;
        self.draw_line(x3, y3, x1, y1);
        proof {
            if !orig.coord_wrapping {
                lemma_bands_widen(
                    &orig.spec_target(),
                    &s1.spec_target(),
                    vstd::math::min(x1 as int, x2 as int),
                    vstd::math::min(y1 as int, y2 as int),
                    vstd::math::max(x1 as int, x2 as int),
                    vstd::math::max(y1 as int, y2 as int),
                    lox,
                    loy,
                    hix,
                    hiy,
                );
                lemma_bands_widen(
                    &s1.spec_target(),
                    &s2.spec_target(),
                    vstd::math::min(x2 as int, x3 as int),
                    vstd::math::min(y2 as int, y3 as int),
                    vstd::math::max(x2 as int, x3 as int),
                    vstd::math::max(y2 as int, y3 as int),
                    lox,
                    loy,
                    hix,
                    hiy,
                );
                lemma_bands_widen(
                    &s2.spec_target(),
                    &self.spec_target(),
                    vstd::math::min(x3 as int, x1 as int),
                    vstd::math::min(y3 as int, y1 as int),
                    vstd::math::max(x3 as int, x1 as int),
                    vstd::math::max(y3 as int, y1 as int),
                    lox,
                    loy,
                    hix,
                    hiy,
                );
                lemma_bands_trans(
                    &orig.spec_target(),
                    &s1.spec_target(),
                    &s2.spec_target(),
                    lox,
                    loy,
                    hix,
                    hiy,
                );
                lemma_bands_trans(
                    &orig.spec_target(),
                    &s2.spec_target(),
                    &self.spec_target(),
                    lox,
                    loy,
                    hix,
                    hiy,
                );
            }
        }
    }

    /// One edge intercept of a triangle span: `x0` shifted by the slope
    /// `dxe / de` scaled to row offset `k`, rounded toward zero as machine
    /// division does.
    fn span_intercept(x0: i32, dxe: i32, de: i32, k: i32) -> (a: i32)
        requires
            1 <= de <= 0x8000,
            -0x8000 <= dxe <= 0x8000,
            -1 <= k <= de,
            -0x8000 <= x0 <= 0x8000,
        ensures
            -0x18000 <= a <= 0x18000,
    {
        proof {
            assert(-0x8000 * 0x8000 <= dxe * k <= 0x8000 * 0x8000) by (nonlinear_arith)
                requires
                    -0x8000 <= dxe <= 0x8000,
                    -0x8000 <= k <= 0x8000,
            ;
        }
        let n: i32 = dxe * k;
        let mag: i32 = if n < 0 { -n } else { n };
        proof {
            assert(mag <= 0x8001 * de) by (nonlinear_arith)
                requires
                    mag == (if n < 0 { -n } else { n as int }),
                    n == dxe * k,
                    -0x8000 <= dxe <= 0x8000,
                    -1 <= k <= de,
                    1 <= de,
            ;
            vstd::arithmetic::div_mod::lemma_div_is_ordered(mag as int, 0x8001 * de, de as int);
            vstd::arithmetic::div_mod::lemma_div_by_multiple(0x8001, de as int);
        }
        let q: i32 = mag / de;
        if n < 0 {
            x0 - q
        } else {
            x0 + q
        }
    }

    /// Fills the triangle with corners `(x1, y1)`, `(x2, y2)` and
    /// `(x3, y3)` with horizontal spans of the current draw color. With
    /// wrapping off only pixels whose row lies between the corners change.
    #[verifier::loop_isolation(false)]
    pub fn fill_triangle(&mut self, x1: i32, y1: i32, x2: i32, y2: i32, x3: i32, y3: i32)
        requires
            old(self).wf(),
            -0x4000 <= x1 <= 0x4000,
            -0x4000 <= y1 <= 0x4000,
            -0x4000 <= x2 <= 0x4000,
            -0x4000 <= y2 <= 0x4000,
            -0x4000 <= x3 <= 0x4000,
            -0x4000 <= y3 <= 0x4000,
            spec_triangle_rows_ok(y1 as int, y2 as int, y3 as int),
        ensures
            final(self).wf(),
            StateData::same_but_pixels(old(self), final(self)),
            !old(self).coord_wrapping ==> unchanged_outside_rows(
                &old(self).spec_target(),
                &final(self).spec_target(),
                spec_min3(y1 as int, y2 as int, y3 as int),
                spec_max3(y1 as int, y2 as int, y3 as int),
            ),
    {
        let ghost orig = *self;
        let ghost loy = spec_min3(y1 as int, y2 as int, y3 as int);
        let ghost hiy = spec_max3(y1 as int, y2 as int, y3 as int);
        let mut x1 = x1;
        let mut y1 = y1;
        let mut x2 = x2;
        let mut y2 = y2;
        let mut x3 = x3;
        let mut y3 = y3;

        // Sort corners by row (y3 >= y2 >= y1)
        if y1 > y2 {
            let t = y1;
            y1 = y2;
            y2 = t;
            let t = x1;
            x1 = x2;
            x2 = t;
        }
        if y2 > y3 {
            let t = y3;
            y3 = y2;
            y2 = t;
            let t = x3;
            x3 = x2;
            x2 = t;
        }
        if y1 > y2 {
            let t = y1;
            y1 = y2;
            y2 = t;
            let t = x1;
            x1 = x2;
            x2 = t;
        }
        proof {
            assert(y1 <= y2 <= y3);
            assert(y1 as int == loy && y3 as int == hiy);
        }

        if y1 == y3 {
            // All on same row
            let mut a = x1;
            let mut b = x1;
            if x2 < a {
                a = x2;
            } else if x2 > b {
                b = x2;
            }
            if x3 < a {
                a = x3;
            } else if x3 > b {
                b = x3;
            }
            let ghost before = *self;
            self.draw_line(a, y1, b, y1);
            proof {
                if !orig.coord_wrapping {
                    assert forall|qx: int, qy: int|
                        orig.spec_target().spec_in_bounds(qx, qy) && !(loy <= qy <= hiy)
                            implies #[trigger] self.spec_target().spec_pixel(qx, qy)
                            == orig.spec_target().spec_pixel(qx, qy) by {
                        assert(self.spec_target().spec_pixel(qx, qy) == before.spec_target()
                            .spec_pixel(qx, qy));
                    }
                }
            }
        } else {
            let dx12 = x2 - x1;
            let dy12 = y2 - y1;
            let dx13 = x3 - x1;
            let dy13 = y3 - y1;
            let dx23 = x3 - x2;
            let dy23 = y3 - y2;

            let last = if y2 == y3 {
                y2
            } else {
                y2 - 1
            };
            proof {
                assert(y2 < y3);
            }

            let mut y = y1;
            let mut i = y1;
            while i <= last
                invariant
                    self.wf(),
                    StateData::same_but_pixels(&orig, self),
                    y1 <= i <= last + 1,
                    i <= last ==> y1 < y2,
                    y == (if i == y1 { y1 as int } else { i - 1 }),
                    !orig.coord_wrapping ==> unchanged_outside_rows(
                        &orig.spec_target(),
                        &self.spec_target(),
                        loy,
                        hiy,
                    ),
                decreases last + 1 - i,
            {
                y = i;
                let a = StateData::span_intercept(x1, dx12, dy12, i - y1);
                let b = StateData::span_intercept(x1, dx13, dy13, i - y1);
                let ghost before = *self;
                self.draw_line(a, i, b, i);
                proof {
                    if !orig.coord_wrapping {
                        lemma_chain_rows_box(
                            &orig.spec_target(),
                            &before.spec_target(),
                            &self.spec_target(),
                            loy,
                            hiy,
                            vstd::math::min(a as int, b as int),
                            i as int,
                            vstd::math::max(a as int, b as int),
                            i as int,
                        );
                    }
                }
                i = i + 1;
            }

            let mut i = y;
            while i <= y3
                invariant
                    self.wf(),
                    StateData::same_but_pixels(&orig, self),
                    y <= i <= y3 + 1,
                    y2 - 1 <= y <= y2,
                    y1 <= y,
                    !orig.coord_wrapping ==> unchanged_outside_rows(
                        &orig.spec_target(),
                        &self.spec_target(),
                        loy,
                        hiy,
                    ),
                decreases y3 + 1 - i,
            {
                let a = StateData::span_intercept(x2, dx23, dy23, i - y2);
                let b = StateData::span_intercept(x1, dx13, dy13, i - y1);
                let ghost before = *self;
                self.draw_line(a, i, b, i);
                proof {
                    if !orig.coord_wrapping {
                        lemma_chain_rows_box(
                            &orig.spec_target(),
                            &before.spec_target(),
                            &self.spec_target(),
                            loy,
                            hiy,
                            vstd::math::min(a as int, b as int),
                            i as int,
                            vstd::math::max(a as int, b as int),
                            i as int,
                        );
                    }
                }
                i = i + 1;
            }
        }
    }
}


/// Every pixel of `a` above or left of `(x, y)` keeps its value in `b`.
pub open spec fn unchanged_outside_quadrant(a: &Sprite, b: &Sprite, x: int, y: int) -> bool {
    forall|qx: int, qy: int|
        a.spec_in_bounds(qx, qy) && (qx < x || qy < y)
            ==> #[trigger] b.spec_pixel(qx, qy) == a.spec_pixel(qx, qy)
}

/// A quadrant frame survives one more single-pixel write inside the
/// quadrant.
pub proof fn lemma_chain_quadrant(
    a: &Sprite,
    b: &Sprite,
    c: &Sprite,
    x: int,
    y: int,
    wx: int,
    wy: int,
)
    requires
        same_dims(a, b),
        same_dims(b, c),
        unchanged_outside_quadrant(a, b, x, y),
        unchanged_except(b, c, wx, wy),
        wx >= x,
        wy >= y,
    ensures
        unchanged_outside_quadrant(a, c, x, y),
{
    assert forall|qx: int, qy: int|
        a.spec_in_bounds(qx, qy) && (qx < x || qy < y)
            implies #[trigger] c.spec_pixel(qx, qy) == a.spec_pixel(qx, qy) by {
        assert(b.spec_pixel(qx, qy) == a.spec_pixel(qx, qy));
        assert(c.spec_pixel(qx, qy) == b.spec_pixel(qx, qy));
    }
}

impl StateData {
    /// One magnified block of a drawn sprite: the source color `p` written
    /// over `scale` by `scale` target pixels starting at `(px, py)`, all
    /// kept inside the sprite box.
    #[verifier::loop_isolation(false)]
    fn sprite_block(
        &mut self,
        Ghost(orig): Ghost<&StateData>,
        Ghost(bx0): Ghost<int>,
        Ghost(by0): Ghost<int>,
        Ghost(bx1): Ghost<int>,
        Ghost(by1): Ghost<int>,
        px: i32,
        py: i32,
        p: Pixel,
    )
        requires
            old(self).wf(),
            orig.wf(),
            StateData::same_but_pixels(orig, old(self)),
            -0x80000 <= px,
            -0x80000 <= py,
            px + old(self).draw_scale <= 0x80000,
            py + old(self).draw_scale <= 0x80000,
            bx0 <= px,
            by0 <= py,
            px + old(self).draw_scale - 1 <= bx1,
            py + old(self).draw_scale - 1 <= by1,
            !orig.coord_wrapping ==> unchanged_outside_box(
                &orig.spec_target(),
                &old(self).spec_target(),
                bx0,
                by0,
                bx1,
                by1,
            ),
        ensures
            final(self).wf(),
            StateData::same_but_pixels(orig, final(self)),
            !orig.coord_wrapping ==> unchanged_outside_box(
                &orig.spec_target(),
                &final(self).spec_target(),
                bx0,
                by0,
                bx1,
                by1,
            ),
    {
        let scale = self.draw_scale;
        let mut xs: i32 = 0;
        while xs < scale
            invariant
                self.wf(),
                StateData::same_but_pixels(orig, self),
                0 <= xs <= scale,
                scale == orig.draw_scale,
                !orig.coord_wrapping ==> unchanged_outside_box(
                    &orig.spec_target(),
                    &self.spec_target(),
                    bx0,
                    by0,
                    bx1,
                    by1,
                ),
            decreases scale - xs,
        {
            let mut ys: i32 = 0;
            while ys < scale
                invariant
                    self.wf(),
                    StateData::same_but_pixels(orig, self),
                    0 <= xs < scale,
                    0 <= ys <= scale,
                    scale == orig.draw_scale,
                    !orig.coord_wrapping ==> unchanged_outside_box(
                        &orig.spec_target(),
                        &self.spec_target(),
                        bx0,
                        by0,
                        bx1,
                        by1,
                    ),
                decreases scale - ys,
            {
                let ghost before = self.spec_target();
                self.draw_color(px + xs, py + ys, p);
                proof {
                    if !orig.coord_wrapping {
                        lemma_chain_box(
                            &orig.spec_target(),
                            &before,
                            &self.spec_target(),
                            bx0,
                            by0,
                            bx1,
                            by1,
                            px + xs,
                            py + ys,
                        );
                    }
                }
                ys = ys + 1;
            }
            xs = xs + 1;
        }
    }

    /// Draws all of `sprite` with its top-left corner at `(x, y)`,
    /// magnified by the sprite scale. With wrapping off only pixels inside
    /// the magnified sprite box change.
    #[verifier::loop_isolation(false)]
    pub fn draw_sprite(&mut self, x: i32, y: i32, sprite: &Sprite)
        requires
            old(self).wf(),
            sprite.wf(),
            -0x8000 <= x <= 0x8000,
            -0x8000 <= y <= 0x8000,
            sprite.width * old(self).draw_scale <= 0x10000,
            sprite.height * old(self).draw_scale <= 0x10000,
        ensures
            final(self).wf(),
            StateData::same_but_pixels(old(self), final(self)),
            !old(self).coord_wrapping ==> unchanged_outside_box(
                &old(self).spec_target(),
                &final(self).spec_target(),
                x as int,
                y as int,
                x + sprite.width * old(self).draw_scale - 1,
                y + sprite.height * old(self).draw_scale - 1,
            ),
    {
        let ghost orig = *self;
        let ghost bx1 = x + sprite.width * old(self).draw_scale - 1;
        let ghost by1 = y + sprite.height * old(self).draw_scale - 1;
        let scale = self.draw_scale;
        let mut ox: i32 = 0;
        while ox < sprite.width()
            invariant
                self.wf(),
                StateData::same_but_pixels(&orig, self),
                0 <= ox <= sprite.width,
                scale == orig.draw_scale,
                sprite.wf(),
                !orig.coord_wrapping ==> unchanged_outside_box(
                    &orig.spec_target(),
                    &self.spec_target(),
                    x as int,
                    y as int,
                    bx1,
                    by1,
                ),
            decreases sprite.width - ox,
        {
            let mut oy: i32 = 0;
            while oy < sprite.height()
                invariant
                    self.wf(),
                    StateData::same_but_pixels(&orig, self),
                    0 <= ox < sprite.width,
                    0 <= oy <= sprite.height,
                    scale == orig.draw_scale,
                    sprite.wf(),
                    !orig.coord_wrapping ==> unchanged_outside_box(
                        &orig.spec_target(),
                        &self.spec_target(),
                        x as int,
                        y as int,
                        bx1,
                        by1,
                    ),
                decreases sprite.height - oy,
            {
                proof {
                    assert(0 <= ox * scale && (ox + 1) * scale <= sprite.width * scale
                        && (ox + 1) * scale == ox * scale + scale) by (nonlinear_arith)
                        requires
                            0 <= ox < sprite.width,
                            1 <= scale,
                    ;
                    assert(0 <= oy * scale && (oy + 1) * scale <= sprite.height * scale
                        && (oy + 1) * scale == oy * scale + scale) by (nonlinear_arith)
                        requires
                            0 <= oy < sprite.height,
                            1 <= scale,
                    ;
                }
                let p = sprite.get_pixel(ox, oy);
                self.sprite_block(
                    Ghost(&orig),
                    Ghost(x as int),
                    Ghost(y as int),
                    Ghost(bx1),
                    Ghost(by1),
                    x + ox * scale,
                    y + oy * scale,
                    p,
                );
                oy = oy + 1;
            }
            ox = ox + 1;
        }
    }

    /// Draws the `w` by `h` part of `sprite` whose top-left source corner
    /// is `(ox, oy)`, placing it at `(x, y)` magnified by the sprite
    /// scale. With wrapping off only pixels inside the magnified box
    /// change.
    #[verifier::loop_isolation(false)]
    pub fn draw_partial_sprite(
        &mut self,
        x: i32,
        y: i32,
        ox: i32,
        oy: i32,
        w: i32,
        h: i32,
        sprite: &Sprite,
    )
        requires
            old(self).wf(),
            sprite.wf(),
            -0x8000 <= x <= 0x8000,
            -0x8000 <= y <= 0x8000,
            -0x8000 <= ox <= 0x8000,
            -0x8000 <= oy <= 0x8000,
            0 <= w <= 0xffff,
            0 <= h <= 0xffff,
            w * old(self).draw_scale <= 0x10000,
            h * old(self).draw_scale <= 0x10000,
        ensures
            final(self).wf(),
            StateData::same_but_pixels(old(self), final(self)),
            !old(self).coord_wrapping ==> unchanged_outside_box(
                &old(self).spec_target(),
                &final(self).spec_target(),
                x as int,
                y as int,
                x + w * old(self).draw_scale - 1,
                y + h * old(self).draw_scale - 1,
            ),
    {
        let ghost orig = *self;
        let ghost bx1 = x + w * old(self).draw_scale - 1;
        let ghost by1 = y + h * old(self).draw_scale - 1;
        let scale = self.draw_scale;
        let mut ox1: i32 = 0;
        while ox1 < w
            invariant
                self.wf(),
                StateData::same_but_pixels(&orig, self),
                0 <= ox1 <= w,
                scale == orig.draw_scale,
                sprite.wf(),
                !orig.coord_wrapping ==> unchanged_outside_box(
                    &orig.spec_target(),
                    &self.spec_target(),
                    x as int,
                    y as int,
                    bx1,
                    by1,
                ),
            decreases w - ox1,
        {
            let mut oy1: i32 = 0;
            while oy1 < h
                invariant
                    self.wf(),
                    StateData::same_but_pixels(&orig, self),
                    0 <= ox1 < w,
                    0 <= oy1 <= h,
                    scale == orig.draw_scale,
                    sprite.wf(),
                    !orig.coord_wrapping ==> unchanged_outside_box(
                        &orig.spec_target(),
                        &self.spec_target(),
                        x as int,
                        y as int,
                        bx1,
                        by1,
                    ),
                decreases h - oy1,
            {
                proof {
                    assert(0 <= ox1 * scale && (ox1 + 1) * scale <= w * scale && (ox1 + 1) * scale
                        == ox1 * scale + scale) by (nonlinear_arith)
                        requires
                            0 <= ox1 < w,
                            1 <= scale,
                    ;
                    assert(0 <= oy1 * scale && (oy1 + 1) * scale <= h * scale && (oy1 + 1) * scale
                        == oy1 * scale + scale) by (nonlinear_arith)
                        requires
                            0 <= oy1 < h,
                            1 <= scale,
                    ;
                }
                let p = sprite.get_pixel(ox1 + ox, oy1 + oy);
                self.sprite_block(
                    Ghost(&orig),
                    Ghost(x as int),
                    Ghost(y as int),
                    Ghost(bx1),
                    Ghost(by1),
                    x + ox1 * scale,
                    y + oy1 * scale,
                    p,
                );
                oy1 = oy1 + 1;
            }
            ox1 = ox1 + 1;
        }
    }
}


impl StateData {
    /// One magnified glyph dot: the current draw color written over a
    /// `font_scale` square block at `(px, py)`, kept right of and below
    /// `(x, y)`.
    #[verifier::loop_isolation(false)]
    fn glyph_block(
        &mut self,
        Ghost(orig): Ghost<&StateData>,
        Ghost(gx): Ghost<int>,
        Ghost(gy): Ghost<int>,
        px: i32,
        py: i32,
    )
        requires
            old(self).wf(),
            orig.wf(),
            old(self).color == orig.color,
            old(self).draw_scale == orig.draw_scale,
            old(self).font_scale == orig.font_scale,
            old(self).font == orig.font,
            old(self).title == orig.title,
            old(self).screen_width == orig.screen_width,
            old(self).screen_height == orig.screen_height,
            old(self).blend_factor == orig.blend_factor,
            old(self).coord_wrapping == orig.coord_wrapping,
            (old(self).draw_target is Some <==> orig.draw_target is Some),
            (orig.draw_target is Some ==> old(self).default_draw_target
                == orig.default_draw_target),
            same_dims(&orig.spec_target(), &old(self).spec_target()),
            gx <= px,
            gy <= py,
            -0x80000 <= px,
            -0x80000 <= py,
            px + old(self).font_scale <= 0x80000,
            py + old(self).font_scale <= 0x80000,
            !orig.coord_wrapping ==> unchanged_outside_quadrant(
                &orig.spec_target(),
                &old(self).spec_target(),
                gx,
                gy,
            ),
        ensures
            final(self).wf(),
            final(self).alpha_mode == old(self).alpha_mode,
            final(self).color == orig.color,
            final(self).draw_scale == orig.draw_scale,
            final(self).font_scale == orig.font_scale,
            final(self).font == orig.font,
            final(self).title == orig.title,
            final(self).screen_width == orig.screen_width,
            final(self).screen_height == orig.screen_height,
            final(self).blend_factor == orig.blend_factor,
            final(self).coord_wrapping == orig.coord_wrapping,
            (final(self).draw_target is Some <==> orig.draw_target is Some),
            (orig.draw_target is Some ==> final(self).default_draw_target
                == orig.default_draw_target),
            same_dims(&orig.spec_target(), &final(self).spec_target()),
            !orig.coord_wrapping ==> unchanged_outside_quadrant(
                &orig.spec_target(),
                &final(self).spec_target(),
                gx,
                gy,
            ),
    {
        let scale = self.font_scale;
        let mut xs: i32 = 0;
        while xs < scale
            invariant
                self.wf(),
                0 <= xs <= scale,
                scale == orig.font_scale,
                self.alpha_mode == old(self).alpha_mode,
                self.color == orig.color,
                self.draw_scale == orig.draw_scale,
                self.font_scale == orig.font_scale,
                self.font == orig.font,
                self.title == orig.title,
                self.screen_width == orig.screen_width,
                self.screen_height == orig.screen_height,
                self.blend_factor == orig.blend_factor,
                self.coord_wrapping == orig.coord_wrapping,
                (self.draw_target is Some <==> orig.draw_target is Some),
                (orig.draw_target is Some ==> self.default_draw_target
                    == orig.default_draw_target),
                same_dims(&orig.spec_target(), &self.spec_target()),
                !orig.coord_wrapping ==> unchanged_outside_quadrant(
                    &orig.spec_target(),
                    &self.spec_target(),
                    gx,
                    gy,
                ),
            decreases scale - xs,
        {
            let mut ys: i32 = 0;
            while ys < scale
                invariant
                    self.wf(),
                    0 <= xs < scale,
                    0 <= ys <= scale,
                    scale == orig.font_scale,
                    self.alpha_mode == old(self).alpha_mode,
                    self.color == orig.color,
                    self.draw_scale == orig.draw_scale,
                    self.font_scale == orig.font_scale,
                    self.font == orig.font,
                    self.title == orig.title,
                    self.screen_width == orig.screen_width,
                    self.screen_height == orig.screen_height,
                    self.blend_factor == orig.blend_factor,
                    self.coord_wrapping == orig.coord_wrapping,
                    (self.draw_target is Some <==> orig.draw_target is Some),
                    (orig.draw_target is Some ==> self.default_draw_target
                        == orig.default_draw_target),
                    same_dims(&orig.spec_target(), &self.spec_target()),
                    !orig.coord_wrapping ==> unchanged_outside_quadrant(
                        &orig.spec_target(),
                        &self.spec_target(),
                        gx,
                        gy,
                    ),
                decreases scale - ys,
            {
                let ghost before = self.spec_target();
                self.draw(px + xs, py + ys);
                proof {
                    if !orig.coord_wrapping {
                        lemma_chain_quadrant(
                            &orig.spec_target(),
                            &before,
                            &self.spec_target(),
                            gx,
                            gy,
                            px + xs,
                            py + ys,
                        );
                    }
                }
                ys = ys + 1;
            }
            xs = xs + 1;
        }
    }

    /// Draws `text` with the built-in bitmap font, its top-left corner at
    /// `(x, y)`, magnified by the font scale. A newline returns to the
    /// left edge one row of glyphs further down. Text overlays the target:
    /// opaque draw colors use masked writes and translucent ones blend,
    /// and the previous alpha mode is restored afterwards. With wrapping
    /// off only pixels right of and below `(x, y)` change.
    #[verifier::loop_isolation(false)]
    pub fn draw_string(&mut self, x: i32, y: i32, text: String)
        requires
            old(self).wf(),
            -0x10000 <= x <= 0x10000,
            -0x10000 <= y <= 0x10000,
        ensures
            final(self).wf(),
            StateData::same_but_pixels(old(self), final(self)),
            !old(self).coord_wrapping ==> unchanged_outside_quadrant(
                &old(self).spec_target(),
                &final(self).spec_target(),
                x as int,
                y as int,
            ),
    {
        let ghost orig = *self;
        let mut sx: i32 = 0;
        let mut sy: i32 = 0;

        // Temporarily change alpha mode so text will overlay
        let alpha_mode = self.get_alpha_mode();
        if self.color.a != 255 {
            self.set_alpha_mode(AlphaMode::Blend);
        } else {
            self.set_alpha_mode(AlphaMode::Mask);
        }
        let bytes_owner = text;
        let bytes = bytes_owner.as_str().as_bytes();
        let mut bi: usize = 0;
        while bi < bytes.len()
            invariant
                self.wf(),
                0 <= sx <= 0x38000,
                0 <= sy <= 0x38000,
                self.color == orig.color,
                self.draw_scale == orig.draw_scale,
                self.font_scale == orig.font_scale,
                self.font == orig.font,
                self.title == orig.title,
                self.screen_width == orig.screen_width,
                self.screen_height == orig.screen_height,
                self.blend_factor == orig.blend_factor,
                self.coord_wrapping == orig.coord_wrapping,
                (self.draw_target is Some <==> orig.draw_target is Some),
                (orig.draw_target is Some ==> self.default_draw_target
                    == orig.default_draw_target),
                same_dims(&orig.spec_target(), &self.spec_target()),
                !orig.coord_wrapping ==> unchanged_outside_quadrant(
                    &orig.spec_target(),
                    &self.spec_target(),
                    x as int,
                    y as int,
                ),
            decreases bytes.len() - bi,
        {
            let c = bytes[bi];
            if c == 0x0A {
                sx = 0;
                if sy <= 0x30000 {
                    sy = sy + 8 * self.font_scale;
                }
            } else if c & 0xC0 == 0x80 {
                // A continuation byte of a multi-byte character: the lead
                // byte already advanced the pen and no glyph exists for it.
            } else {
                if c >= 32 {
                    let ox = ((c - 32) as i32) % 16;
                    let oy = ((c - 32) as i32) / 16;
                    let mut ox1: i32 = 0;
                    while ox1 < 8
                        invariant
                            self.wf(),
                            0 <= ox1 <= 8,
                            0 <= ox <= 15,
                            0 <= oy <= 14,
                            0 <= sx <= 0x38000,
                            0 <= sy <= 0x38000,
                            self.color == orig.color,
                            self.draw_scale == orig.draw_scale,
                            self.font_scale == orig.font_scale,
                            self.font == orig.font,
                            self.title == orig.title,
                            self.screen_width == orig.screen_width,
                            self.screen_height == orig.screen_height,
                            self.blend_factor == orig.blend_factor,
                            self.coord_wrapping == orig.coord_wrapping,
                            (self.draw_target is Some <==> orig.draw_target is Some),
                            (orig.draw_target is Some ==> self.default_draw_target
                                == orig.default_draw_target),
                            same_dims(&orig.spec_target(), &self.spec_target()),
                            !orig.coord_wrapping ==> unchanged_outside_quadrant(
                                &orig.spec_target(),
                                &self.spec_target(),
                                x as int,
                                y as int,
                            ),
                        decreases 8 - ox1,
                    {
                        let mut oy1: i32 = 0;
                        while oy1 < 8
                            invariant
                                self.wf(),
                                0 <= ox1 < 8,
                                0 <= oy1 <= 8,
                                0 <= ox <= 15,
                                0 <= oy <= 14,
                                0 <= sx <= 0x38000,
                                0 <= sy <= 0x38000,
                                self.color == orig.color,
                                self.draw_scale == orig.draw_scale,
                                self.font_scale == orig.font_scale,
                                self.font == orig.font,
                                self.title == orig.title,
                                self.screen_width == orig.screen_width,
                                self.screen_height == orig.screen_height,
                                self.blend_factor == orig.blend_factor,
                                self.coord_wrapping == orig.coord_wrapping,
                                (self.draw_target is Some <==> orig.draw_target is Some),
                                (orig.draw_target is Some ==> self.default_draw_target
                                    == orig.default_draw_target),
                                same_dims(&orig.spec_target(), &self.spec_target()),
                                !orig.coord_wrapping ==> unchanged_outside_quadrant(
                                    &orig.spec_target(),
                                    &self.spec_target(),
                                    x as int,
                                    y as int,
                                ),
                            decreases 8 - oy1,
                        {
                            let fp = self.font.get_pixel(ox1 + ox * 8, oy1 + oy * 8);
                            if fp.r > 0 {
                                let fs = self.font_scale;
                                proof {
                                    assert(0 <= ox1 * fs <= 8 * 1024 && 0 <= oy1 * fs <= 8
                                        * 1024) by (nonlinear_arith)
                                        requires
                                            0 <= ox1 < 8,
                                            0 <= oy1 < 8,
                                            1 <= fs <= 1024,
                                    ;
                                }
                                self.glyph_block(
                                    Ghost(&orig),
                                    Ghost(x as int),
                                    Ghost(y as int),
                                    x + sx + ox1 * fs,
                                    y + sy + oy1 * fs,
                                );
                            }
                            oy1 = oy1 + 1;
                        }
                        ox1 = ox1 + 1;
                    }
                }
                if sx <= 0x30000 {
                    sx = sx + 8 * self.font_scale;
                }
            }
            bi = bi + 1;
        }
        self.set_alpha_mode(alpha_mode);  // Restore alpha mode
    }
}

} // verus!
