//! Theme, texture and renderer models.
//!
//! A [`Theme`] carries the visual colors a loaded theme asset resolves to;
//! loading the asset from disk is the embedding application's concern. The
//! [`MapGenerator`] derives a drawable texture from a terrain bitmap and a
//! theme as a pure function. The [`MapRenderer`] is the always-present
//! rendering handle: it holds the texture committed at initialization and
//! records the viewport of the latest draw request; issuing the actual draw
//! calls is behind the embedding application's graphics binding.

use vstd::prelude::*;

use crate::geometry::Rect;
use crate::land::Land;
use crate::land::LandModel;

verus! {

/// Land-type code that a generated bitmap uses for open (non-land) cells.
pub const EMPTY_LAND_CODE: u32 = 0;

/// Visual colors of a loaded theme, as packed RGBA words.
#[derive(Clone, Copy, PartialEq, Eq, Structural, Debug)]
pub struct Theme {
    pub land_color: u32,
    pub sky_color: u32,
}

impl Theme {
    pub fn new(land_color: u32, sky_color: u32) -> (t: Theme)
        ensures
            t == (Theme { land_color, sky_color }),
    {
        Theme { land_color, sky_color }
    }
}

/// Mathematical value of a drawable texture: dimensions and pixels in
/// row-major order.
pub struct TextureModel {
    pub width: int,
    pub height: int,
    pub pixels: Seq<u32>,
}

impl TextureModel {
    pub open spec fn wf(self) -> bool {
        &&& 0 <= self.width
        &&& 0 <= self.height
        &&& self.pixels.len() == self.width * self.height
    }
}

/// A drawable texture buffer derived from a terrain bitmap and a theme.
pub struct Texture {
    pub width: usize,
    pub height: usize,
    pub pixels: Vec<u32>,
}

impl View for Texture {
    type V = TextureModel;

    open spec fn view(&self) -> TextureModel {
        TextureModel {
            width: self.width as int,
            height: self.height as int,
            pixels: self.pixels@,
        }
    }
}

/// The texture a terrain bitmap and a theme determine: one pixel per cell,
/// the theme's sky color on open cells and its land color everywhere else.
pub open spec fn spec_texture(land: LandModel<u32>, theme: Theme) -> TextureModel {
    TextureModel {
        width: land.width,
        height: land.height,
        pixels: Seq::new(
            land.cells.len(),
            |i: int|
                if land.cells[i] == EMPTY_LAND_CODE {
                    theme.sky_color
                } else {
                    theme.land_color
                },
        ),
    }
}

/// Derives drawable textures from terrain bitmaps.
pub struct MapGenerator {}

impl MapGenerator {
    pub fn new() -> (g: MapGenerator)
        ensures
            g == (MapGenerator {  }),
    {
        MapGenerator {  }
    }

    /// Build the texture of a full-resolution terrain bitmap under a theme:
    /// exactly [`spec_texture`] of the inputs.
    pub fn make_texture32(&self, land: &Land<u32>, theme: &Theme) -> (texture: Texture)
        requires
            land@.wf(),
        ensures
            texture@ == spec_texture(land@, *theme),
            texture@.wf(),
    {
        let ghost expected = spec_texture(land@, *theme);
        let total = land.cells.len();
        let mut pixels: Vec<u32> = Vec::new();
        let mut i: usize = 0;
        while i < total
            invariant
                total == land@.cells.len(),
                expected == spec_texture(land@, *theme),
                i <= total,
                pixels@.len() == i,
                forall|k: int| 0 <= k < i ==> pixels@[k] == expected.pixels[k],
            decreases total - i,
        {
            let code = land.cells[i];
            if code == EMPTY_LAND_CODE {
                pixels.push(theme.sky_color);
            } else {
                pixels.push(theme.land_color);
            }
            i += 1;
        }
        proof {
            assert(pixels@ =~= expected.pixels);
        }
        Texture { width: land.width, height: land.height, pixels }
    }
}

/// Mathematical value of the renderer handle.
pub struct RendererModel {
    pub width: u32,
    pub height: u32,
    pub texture: Option<TextureModel>,
    pub last_viewport: Option<Rect>,
}

impl RendererModel {
    pub open spec fn wf(self) -> bool {
        match self.texture {
            Some(t) => t.wf(),
            None => true,
        }
    }
}

/// The owned rendering context: always present, reinitialized whenever new
/// terrain is committed.
pub struct MapRenderer {
    pub width: u32,
    pub height: u32,
    pub texture: Option<Texture>,
    pub last_viewport: Option<Rect>,
}

impl View for MapRenderer {
    type V = RendererModel;

    open spec fn view(&self) -> RendererModel {
        RendererModel {
            width: self.width,
            height: self.height,
            texture: match self.texture {
                Some(ref t) => Some(t@),
                None => None,
            },
            last_viewport: self.last_viewport,
        }
    }
}

impl MapRenderer {
    /// A fresh renderer for a drawing surface of the given extent, with no
    /// texture committed yet.
    pub fn new(width: u32, height: u32) -> (r: MapRenderer)
        ensures
            r@ == (RendererModel { width, height, texture: None, last_viewport: None }),
            r@.wf(),
    {
        MapRenderer { width, height, texture: None, last_viewport: None }
    }

    /// Commit a texture, replacing any previous one.
    pub fn init(&mut self, texture: Texture)
        ensures
            final(self)@ == (RendererModel { texture: Some(texture@), ..old(self)@ }),
            texture@.wf() ==> final(self)@.wf(),
    {
        self.texture = Some(texture);
    }

    /// Record a draw request for a viewport rectangle. Fire-and-forget: the
    /// core consumes no result of the draw.
    pub fn render(&mut self, viewport: Rect)
        ensures
            final(self)@ == (RendererModel { last_viewport: Some(viewport), ..old(self)@ }),
            old(self)@.wf() ==> final(self)@.wf(),
    {
        self.last_viewport = Some(viewport);
    }
}

} // verus!
