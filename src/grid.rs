use vstd::prelude::*;
use crate::classify::Classifier;
use crate::raster::{
    Raster,
    ResizeFilterType,
    pixel_of,
    preprocess_is_determined,
    preprocessed_data,
    target_dims,
};
use crate::tile::tile_id;

verus! {

/// A grid of tile ids, rows top to bottom.
pub struct TileGrid {
    pub width: u32,
    pub height: u32,
    pub tiles: Vec<u8>,
}

/// The tile id of each of the first `n` pixels of `data`, in row-major order.
pub open spec fn tiles_for(data: Seq<u8>, n: nat, cls: Classifier) -> Seq<u8> {
    Seq::new(n, |i: int| tile_id(cls.class_of(pixel_of(data, i))))
}

/// `g` is a grid that converting `img` with these settings may yield: it has
/// the scaled dimensions and holds the tiles of some scaled image `d`, which
/// is `preprocessed_data` where that is determined.
pub open spec fn converts_to(
    img: Raster,
    tile_size: u32,
    filter: ResizeFilterType,
    cls: Classifier,
    g: TileGrid,
) -> bool {
    let (w, h) = target_dims(img.width, img.height, tile_size);
    &&& g.width == w
    &&& g.height == h
    &&& exists|d: Seq<u8>|
        {
            &&& d.len() == 4 * w * h
            &&& (preprocess_is_determined(img.width, img.height, tile_size, filter) ==> d
                == preprocessed_data(img.data@, img.width, img.height, tile_size, filter))
            &&& #[trigger] tiles_for(d, (w * h) as nat, cls) == g.tiles@
        }
}

impl TileGrid {
    /// Holds one tile for each cell.
    pub open spec fn wf(&self) -> bool {
        self.tiles@.len() == self.width * self.height
    }

    /// The tile at column `x` of row `y`.
    pub fn get(&self, x: u32, y: u32) -> (t: u8)
        requires
            self.wf(),
            x < self.width,
            y < self.height,
        ensures
            t == self.tiles@[y * self.width + x],
    {
        let len = self.tiles.len();
        assert(y * self.width + x < len) by (nonlinear_arith)
            requires
                x < self.width,
                y < self.height,
                len == self.width * self.height,
        ;
        self.tiles[y as usize * self.width as usize + x as usize]
    }
}

/// Classifies every pixel of the image, in row-major order, and records the
/// tile id of its class in the cell at the same place.
pub fn build_grid(img: &Raster, cls: &Classifier) -> (g: TileGrid)
    requires
        img.wf(),
        cls.wf(),
    ensures
        g.wf(),
        g.width == img.width,
        g.height == img.height,
        g.tiles@ == tiles_for(img.data@, (img.width * img.height) as nat, *cls),
{
    let len = img.data.len();
    assert(img.width * img.height <= len) by (nonlinear_arith)
        requires
            len == 4 * img.width * img.height,
    ;
    let n: usize = img.width as usize * img.height as usize;
    let mut tiles: Vec<u8> = Vec::with_capacity(n);
    let mut i: usize = 0;
    while i < n
        invariant
            img.wf(),
            cls.wf(),
            n == img.width * img.height,
            i <= n,
            tiles@ == tiles_for(img.data@, i as nat, *cls),
        decreases n - i,
    {
        let c = img.pixel(i);
        let k = cls.classify(c);
        tiles.push(k.get_id());
        i = i + 1;
        assert(tiles@ =~= tiles_for(img.data@, i as nat, *cls));
    }
    TileGrid { width: img.width, height: img.height, tiles }
}

/// Scales the image by the tile size, as `Raster::preprocess` does, and
/// builds the tile grid of the result.
pub fn convert(img: Raster, tile_size: u32, filter: ResizeFilterType, cls: &Classifier) -> (g:
    TileGrid)
    requires
        img.wf(),
        cls.wf(),
    ensures
        g.wf(),
        converts_to(img, tile_size, filter, *cls, g),
{
    let scaled = img.preprocess(tile_size, filter);
    let g = build_grid(&scaled, cls);
    assert(tiles_for(scaled.data@, (scaled.width * scaled.height) as nat, *cls) == g.tiles@);
    g
}

/// Converting the same image with the same settings and classifier twice
/// yields the same grid, wherever preprocessing is determined: a tile size of
/// one or zero, an empty result, or the nearest or triangle filter.
pub proof fn lemma_convert_deterministic(
    img: Raster,
    tile_size: u32,
    filter: ResizeFilterType,
    cls: Classifier,
    g1: TileGrid,
    g2: TileGrid,
)
    requires
        preprocess_is_determined(img.width, img.height, tile_size, filter),
        converts_to(img, tile_size, filter, cls, g1),
        converts_to(img, tile_size, filter, cls, g2),
    ensures
        g1.width == g2.width,
        g1.height == g2.height,
        g1.tiles@ == g2.tiles@,
{
    let (w, h) = target_dims(img.width, img.height, tile_size);
    let d1 = choose|d: Seq<u8>|
        {
            &&& d.len() == 4 * w * h
            &&& (preprocess_is_determined(img.width, img.height, tile_size, filter) ==> d
                == preprocessed_data(img.data@, img.width, img.height, tile_size, filter))
            &&& #[trigger] tiles_for(d, (w * h) as nat, cls) == g1.tiles@
        };
    let d2 = choose|d: Seq<u8>|
        {
            &&& d.len() == 4 * w * h
            &&& (preprocess_is_determined(img.width, img.height, tile_size, filter) ==> d
                == preprocessed_data(img.data@, img.width, img.height, tile_size, filter))
            &&& #[trigger] tiles_for(d, (w * h) as nat, cls) == g2.tiles@
        };
    assert(d1 == d2);
}

} // verus!
