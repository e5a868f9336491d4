//! Images of the GUI's managed textures, as rows of RGBA pixels, and the
//! store that keeps them up to date.
use std::collections::HashMap;
use vstd::prelude::*;

verus! {

broadcast use vstd::std_specs::hash::group_hash_axioms;

/// An image of `width` x `height` pixels, stored row by row.
pub struct ColorImage {
    pub width: usize,
    pub height: usize,
    pub pixels: Vec<[u8; 4]>,
}

impl ColorImage {
    /// The pixel buffer holds exactly one pixel per position, and their
    /// number fits the address space.
    pub open spec fn wf(&self) -> bool {
        &&& self.pixels@.len() == self.width * self.height
        &&& self.width * self.height <= usize::MAX
    }

    /// The pixel at column `x` and row `y`.
    pub open spec fn pixel(&self, x: int, y: int) -> [u8; 4] {
        self.pixels@[y * self.width + x]
    }

    /// An image of the given size filled with one color.
    pub fn filled(width: usize, height: usize, color: [u8; 4]) -> (r: ColorImage)
        requires
            width * height <= usize::MAX,
        ensures
            r.wf(),
            r.width == width,
            r.height == height,
            forall|x: int, y: int| 0 <= x < width && 0 <= y < height ==> r.pixel(x, y) == color,
    {
        let n = width * height;
        let mut pixels: Vec<[u8; 4]> = Vec::new();
        let mut i: usize = 0;
        while i < n
            invariant
                i <= n,
                pixels@.len() == i,
                forall|j: int| 0 <= j < i ==> pixels@[j] == color,
            decreases n - i,
        {
            pixels.push(color);
            i = i + 1;
        }
        let r = ColorImage { width, height, pixels };
        assert forall|x: int, y: int| 0 <= x < width && 0 <= y < height implies r.pixel(x, y) == color by {
            lemma_index_in_bounds(x, y, width as int, height as int);
        }
        r
    }
}

proof fn lemma_index_in_bounds(x: int, y: int, w: int, h: int)
    requires
        0 <= x < w,
        0 <= y < h,
    ensures
        0 <= y * w + x < w * h,
{
    assert(0 <= y * w) by (nonlinear_arith)
        requires
            0 <= y,
            0 <= w,
    ;
    assert(y * w + x < w * h) by (nonlinear_arith)
        requires
            0 <= x < w,
            0 <= y < h,
    ;
}

proof fn lemma_index_unique(x1: int, y1: int, x2: int, y2: int, w: int)
    requires
        0 <= x1 < w,
        0 <= x2 < w,
        0 <= y1,
        0 <= y2,
        y1 * w + x1 == y2 * w + x2,
    ensures
        x1 == x2 && y1 == y2,
{
    if y1 < y2 {
        assert(y1 * w + w <= y2 * w) by (nonlinear_arith)
            requires
                y1 < y2,
                0 <= w,
        ;
    } else if y2 < y1 {
        assert(y2 * w + w <= y1 * w) by (nonlinear_arith)
            requires
                y2 < y1,
                0 <= w,
        ;
    }
}

/// Whether `(px, py)` lies in the `sw` x `sh` block whose corner is `(x, y)`,
/// among its first `done` pixels in row order.
pub open spec fn in_block(px: int, py: int, x: int, y: int, sw: int, sh: int, done: int) -> bool {
    x <= px < x + sw && y <= py < y + sh && (py - y) * sw + (px - x) < done
}

/// Copies `src` into `dest` with its top-left corner at column `x`, row `y`.
pub fn update_image_rect(dest: &mut ColorImage, x: usize, y: usize, src: &ColorImage)
    requires
        old(dest).wf(),
        src.wf(),
        x + src.width <= old(dest).width,
        y + src.height <= old(dest).height,
    ensures
        final(dest).wf(),
        final(dest).width == old(dest).width,
        final(dest).height == old(dest).height,
        forall|px: int, py: int|
            0 <= px < final(dest).width && 0 <= py < final(dest).height ==> #[trigger] final(dest).pixel(px, py)
                == if x <= px < x + src.width && y <= py < y + src.height {
                src.pixel(px - x, py - y)
            } else {
                old(dest).pixel(px, py)
            },
{
    let ghost orig = *dest;
    let w = dest.width;
    let sw = src.width;
    let sh = src.height;
    let mut sy: usize = 0;
    while sy < sh
        invariant
            dest.wf(),
            src.wf(),
            orig.wf(),
            sw == src.width,
            sh == src.height,
            dest.width == w && w == orig.width && dest.height == orig.height,
            x + sw <= w,
            y + sh <= orig.height,
            sy <= sh,
            forall|px: int, py: int|
                0 <= px < w && 0 <= py < orig.height ==> #[trigger] dest.pixel(px, py) == if in_block(
                    px,
                    py,
                    x as int,
                    y as int,
                    sw as int,
                    sh as int,
                    sy * sw,
                ) {
                    src.pixel(px - x, py - y)
                } else {
                    orig.pixel(px, py)
                },
        decreases sh - sy,
    {
        let mut sx: usize = 0;
        while sx < sw
            invariant
                dest.wf(),
                src.wf(),
                orig.wf(),
                sw == src.width,
                sh == src.height,
                dest.width == w && w == orig.width && dest.height == orig.height,
                x + sw <= w,
                y + sh <= orig.height,
                sy < sh,
                sx <= sw,
                forall|px: int, py: int|
                    0 <= px < w && 0 <= py < orig.height ==> #[trigger] dest.pixel(px, py) == if in_block(
                        px,
                        py,
                        x as int,
                        y as int,
                        sw as int,
                        sh as int,
                        sy * sw + sx,
                    ) {
                        src.pixel(px - x, py - y)
                    } else {
                        orig.pixel(px, py)
                    },
            decreases sw - sx,
        {
            proof {
                lemma_index_in_bounds(sx as int, sy as int, sw as int, sh as int);
                lemma_index_in_bounds((x + sx) as int, (y + sy) as int, w as int, orig.height as int);
            }
            let color = src.pixels[sy * sw + sx];
            let ghost before = *dest;
            let target = (y + sy) * w + (x + sx);
            dest.pixels.set(target, color);
            proof {
                assert forall|px: int, py: int| 0 <= px < w && 0 <= py < orig.height implies #[trigger] dest.pixel(
                    px,
                    py,
                ) == if in_block(px, py, x as int, y as int, sw as int, sh as int, sy * sw + sx + 1) {
                    src.pixel(px - x, py - y)
                } else {
                    orig.pixel(px, py)
                } by {
                    lemma_index_in_bounds(px, py, w as int, orig.height as int);
                    if py * w + px == target {
                        lemma_index_unique(px, py, (x + sx) as int, (y + sy) as int, w as int);
                    } else {
                        assert(dest.pixel(px, py) == before.pixel(px, py));
                        if x <= px < x + sw && y <= py < y + sh {
                            if (py - y) * sw + (px - x) == sy * sw + sx {
                                lemma_index_unique(px - x, py - y, sx as int, sy as int, sw as int);
                            }
                        }
                    }
                }
            }
            sx = sx + 1;
        }
        sy = sy + 1;
        assert(sy * sw == (sy - 1) * sw + sw) by (nonlinear_arith);
    }
    proof {
        assert forall|px: int, py: int| 0 <= px < w && 0 <= py < orig.height implies #[trigger] in_block(
            px,
            py,
            x as int,
            y as int,
            sw as int,
            sh as int,
            sh * sw,
        ) == (x <= px < x + sw && y <= py < y + sh) by {
            if x <= px < x + sw && y <= py < y + sh {
                lemma_index_in_bounds(px - x, py - y, sw as int, sh as int);
                assert(sw * sh == sh * sw) by (nonlinear_arith);
            }
        }
    }
}

/// How a texture delta of the GUI was applied.
#[derive(Debug, Clone, Copy, PartialEq, Eq, Structural)]
pub enum TextureUpdate {
    /// The delta is for a texture of the host, which the GUI does not paint.
    Ignored,
    /// The texture was created or replaced whole.
    Replaced,
    /// Part of the texture was overwritten.
    Patched,
    /// A partial update came for a texture that does not exist.
    Missing,
    /// A partial update reached past the texture's edge.
    OutOfBounds,
}

/// The store key of a GUI-managed texture of an entity's context.
pub open spec fn texture_key(entity: u64, texture: u64) -> u128 {
    (entity as int * 0x1_0000_0000_0000_0000 + texture as int) as u128
}

proof fn lemma_texture_key_unique(e1: u64, t1: u64, e2: u64, t2: u64)
    ensures
        texture_key(e1, t1) == texture_key(e2, t2) ==> e1 == e2 && t1 == t2,
{
    let b: int = 0x1_0000_0000_0000_0000;
    assert(0 <= e1 as int * b + t1 as int <= u128::MAX) by (nonlinear_arith)
        requires
            b == 0x1_0000_0000_0000_0000,
            0 <= e1 < b,
            0 <= t1 < b,
    ;
    assert(0 <= e2 as int * b + t2 as int <= u128::MAX) by (nonlinear_arith)
        requires
            b == 0x1_0000_0000_0000_0000,
            0 <= e2 < b,
            0 <= t2 < b,
    ;
    if e1 as int * b + t1 as int == e2 as int * b + t2 as int {
        lemma_index_unique(t1 as int, e1 as int, t2 as int, e2 as int, b);
    }
}

fn texture_key_of(entity: u64, texture: u64) -> (r: u128)
    ensures
        r == texture_key(entity, texture),
{
    assert(entity as int * 0x1_0000_0000_0000_0000 + texture as int <= u128::MAX) by (nonlinear_arith)
        requires
            entity <= u64::MAX,
            texture <= u64::MAX,
    ;
    (entity as u128) * 0x1_0000_0000_0000_0000 + (texture as u128)
}

/// The images of the textures that the GUI manages, by entity and texture id.
pub struct EguiManagedTextures {
    images: HashMap<u128, ColorImage>,
}

impl EguiManagedTextures {
    /// The image of a managed texture of an entity's context, if it exists.
    pub closed spec fn image(&self, entity: u64, texture: u64) -> Option<ColorImage> {
        if self.images@.contains_key(texture_key(entity, texture)) {
            Some(self.images@[texture_key(entity, texture)])
        } else {
            None
        }
    }

    /// Every stored image is well formed.
    pub closed spec fn wf(&self) -> bool {
        forall|k: u128| #[trigger] self.images@.contains_key(k) ==> self.images@[k].wf()
    }

    /// No texture.
    pub fn new() -> (r: EguiManagedTextures)
        ensures
            r.wf(),
            forall|e: u64, t: u64| #[trigger] r.image(e, t) is None,
    {
        EguiManagedTextures { images: HashMap::new() }
    }

    /// The image of a managed texture of an entity's context.
    pub fn get(&self, entity: u64, texture: u64) -> (r: Option<&ColorImage>)
        ensures
            match r {
                Some(i) => self.image(entity, texture) == Some(*i),
                None => self.image(entity, texture) is None,
            },
    {
        let key = texture_key_of(entity, texture);
        self.images.get(&key)
    }

    /// Applies a texture delta of an entity's context: a delta without a
    /// position replaces the texture, one with a position overwrites the
    /// part of the existing texture it covers. Deltas of host textures are
    /// ignored; a partial delta for a missing texture or past the edge of
    /// one changes nothing.
    pub fn set(&mut self, entity: u64, id: egui::TextureId, pos: Option<(usize, usize)>, image: ColorImage) -> (r:
        TextureUpdate)
        requires
            old(self).wf(),
            image.wf(),
        ensures
            final(self).wf(),
            match id {
                egui::TextureId::User(_) => r == TextureUpdate::Ignored && forall|e: u64, t: u64| #[trigger] final(self).image(e, t) == old(self).image(e, t),
                egui::TextureId::Managed(tex) => {
                    &&& forall|e: u64, t: u64| (e != entity || t != tex) ==> #[trigger] final(self).image(e, t) == old(self).image(e, t)
                    &&& match pos {
                        None => r == TextureUpdate::Replaced && final(self).image(entity, tex) == Some(image),
                        Some((x, y)) => match old(self).image(entity, tex) {
                            None => r == TextureUpdate::Missing && final(self).image(entity, tex) is None,
                            Some(old_image) => if x + image.width <= old_image.width && y + image.height <= old_image.height {
                                &&& r == TextureUpdate::Patched
                                &&& final(self).image(entity, tex) matches Some(new_image)
                                &&& new_image.width == old_image.width
                                &&& new_image.height == old_image.height
                                &&& forall|px: int, py: int| 0 <= px < new_image.width && 0 <= py < new_image.height
                                    ==> #[trigger] new_image.pixel(px, py) == if x <= px < x + image.width && y <= py < y + image.height {
                                        image.pixel(px - x, py - y)
                                    } else {
                                        old_image.pixel(px, py)
                                    }
                            } else {
                                r == TextureUpdate::OutOfBounds && final(self).image(entity, tex) == Some(old_image)
                            },
                        },
                    }
                },
            },
    {
        let tex = match id {
            egui::TextureId::Managed(t) => t,
            egui::TextureId::User(_) => return TextureUpdate::Ignored,
        };
        let key = texture_key_of(entity, tex);
        proof {
            assert forall|e: u64, t: u64| e != entity || t != tex implies texture_key(e, t) != key by {
                lemma_texture_key_unique(e, t, entity, tex);
            }
        }
        match pos {
            None => {
                self.images.insert(key, image);
                TextureUpdate::Replaced
            },
            Some((x, y)) => {
                let current = self.images.remove(&key);
                match current {
                    None => TextureUpdate::Missing,
                    Some(mut dest) => {
                        let ghost old_image = dest;
                        assert(old(self).images@.contains_key(key));
                        if image.width <= dest.width && x <= dest.width - image.width && image.height <= dest.height
                            && y <= dest.height - image.height {
                            update_image_rect(&mut dest, x, y, &image);
                            self.images.insert(key, dest);
                            TextureUpdate::Patched
                        } else {
                            self.images.insert(key, dest);
                            assert(self.images@ =~= old(self).images@);
                            TextureUpdate::OutOfBounds
                        }
                    },
                }
            },
        }
    }

    /// Frees a texture that the GUI no longer uses; host textures are not the GUI's to free.
    pub fn free(&mut self, entity: u64, id: egui::TextureId) -> (r: Option<ColorImage>)
        requires
            old(self).wf(),
        ensures
            final(self).wf(),
            match id {
                egui::TextureId::User(_) => r is None && forall|e: u64, t: u64| #[trigger] final(self).image(e, t) == old(self).image(e, t),
                egui::TextureId::Managed(tex) => {
                    &&& r == old(self).image(entity, tex)
                    &&& final(self).image(entity, tex) is None
                    &&& forall|e: u64, t: u64| (e != entity || t != tex) ==> #[trigger] final(self).image(e, t) == old(self).image(e, t)
                },
            },
    {
        match id {
            egui::TextureId::User(_) => None,
            egui::TextureId::Managed(tex) => {
                let key = texture_key_of(entity, tex);
                proof {
                    assert forall|e: u64, t: u64| e != entity || t != tex implies texture_key(e, t) != key by {
                        lemma_texture_key_unique(e, t, entity, tex);
                    }
                }
                self.images.remove(&key)
            },
        }
    }
}

} // verus!
