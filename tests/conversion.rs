use png2map::classify::{Classifier, ExactClassifier, NearestClassifier, PaletteEntry};
use png2map::color::Color;
use png2map::grid::{build_grid, convert, TileGrid};
use png2map::raster::{Raster, ResizeFilterType};
use png2map::tile::BlockType;

fn entry(r: u8, g: u8, b: u8, a: u8, class: BlockType) -> PaletteEntry {
    PaletteEntry { color: Color::new(r, g, b, a), class }
}

fn two_by_two() -> Raster {
    Raster::new(2, 2, vec![255, 0, 0, 255, 0, 0, 0, 0, 0, 0, 0, 0, 0, 0, 0, 0]).unwrap()
}

fn rows(g: &TileGrid) -> Vec<Vec<u8>> {
    (0..g.height).map(|y| (0..g.width).map(|x| g.get(x, y)).collect()).collect()
}

#[test]
fn exact_scenario_two_by_two() {
    let palette = vec![entry(255, 0, 0, 255, BlockType::Hookable)];
    let cls = Classifier::exact(&palette);
    let g = convert(two_by_two(), 1, ResizeFilterType::Nearest, &cls);
    assert_eq!(rows(&g), vec![vec![1, 0], vec![0, 0]]);
}

#[test]
fn nearest_scenario_two_by_two() {
    let palette = vec![
        entry(255, 0, 0, 255, BlockType::Hookable),
        entry(0, 0, 0, 0, BlockType::Freeze),
    ];
    let cls = Classifier::nearest(&palette);
    let g = convert(two_by_two(), 1, ResizeFilterType::Nearest, &cls);
    assert_eq!(rows(&g), vec![vec![1, 9], vec![9, 9]]);
}

#[test]
fn tile_id_table() {
    assert_eq!(BlockType::Empty.get_id(), 0);
    assert_eq!(BlockType::Hookable.get_id(), 1);
    assert_eq!(BlockType::Unhookable.get_id(), 2);
    assert_eq!(BlockType::Freeze.get_id(), 9);
    assert_eq!(BlockType::Start.get_id(), 33);
    assert_eq!(BlockType::Finish.get_id(), 34);
    assert_eq!(BlockType::Spawn.get_id(), 192);
    assert_eq!(BlockType::Custom(0).get_id(), 0);
    assert_eq!(BlockType::Custom(77).get_id(), 77);
    assert_eq!(BlockType::Custom(255).get_id(), 255);
}

#[test]
fn exact_every_entry_found_last_wins() {
    let palette = vec![
        entry(1, 2, 3, 4, BlockType::Freeze),
        entry(10, 20, 30, 40, BlockType::Start),
        entry(1, 2, 3, 4, BlockType::Finish),
    ];
    let cls = ExactClassifier::new(&palette);
    assert_eq!(cls.classify(Color::new(1, 2, 3, 4)), BlockType::Finish);
    assert_eq!(cls.classify(Color::new(10, 20, 30, 40)), BlockType::Start);
}

#[test]
fn exact_absent_color_is_empty() {
    let palette = vec![entry(1, 2, 3, 4, BlockType::Freeze)];
    let cls = ExactClassifier::new(&palette);
    assert_eq!(cls.classify(Color::new(1, 2, 3, 5)), BlockType::Empty);
    assert_eq!(cls.classify(Color::new(4, 3, 2, 1)), BlockType::Empty);
    let none = ExactClassifier::new(&Vec::new());
    assert_eq!(none.classify(Color::new(0, 0, 0, 0)), BlockType::Empty);
}

#[test]
fn nearest_picks_minimal_distance() {
    let palette = vec![
        entry(0, 0, 0, 255, BlockType::Hookable),
        entry(255, 255, 255, 255, BlockType::Unhookable),
        entry(255, 0, 0, 255, BlockType::Custom(5)),
    ];
    let cls = NearestClassifier::new(&palette);
    assert_eq!(cls.classify(Color::new(200, 10, 10, 255)), BlockType::Custom(5));
    assert_eq!(cls.classify(Color::new(30, 30, 30, 250)), BlockType::Hookable);
    assert_eq!(cls.classify(Color::new(230, 240, 220, 255)), BlockType::Unhookable);
    assert_eq!(cls.nearest_index(Color::new(255, 255, 255, 255)), Some(1));
}

#[test]
fn nearest_alpha_counts() {
    let palette = vec![
        entry(0, 0, 0, 0, BlockType::Empty),
        entry(0, 0, 0, 255, BlockType::Hookable),
    ];
    let cls = NearestClassifier::new(&palette);
    assert_eq!(cls.classify(Color::new(0, 0, 0, 10)), BlockType::Empty);
    assert_eq!(cls.classify(Color::new(0, 0, 0, 200)), BlockType::Hookable);
}

#[test]
fn nearest_tie_goes_to_first_inserted() {
    let palette = vec![
        entry(10, 0, 0, 255, BlockType::Freeze),
        entry(0, 10, 0, 255, BlockType::Hookable),
        entry(0, 0, 10, 255, BlockType::Unhookable),
    ];
    let cls = NearestClassifier::new(&palette);
    for _ in 0..3 {
        assert_eq!(cls.classify(Color::new(0, 0, 0, 255)), BlockType::Freeze);
        assert_eq!(cls.nearest_index(Color::new(0, 0, 0, 255)), Some(0));
    }
    let reversed = vec![palette[2], palette[1], palette[0]];
    let cls = NearestClassifier::new(&reversed);
    assert_eq!(cls.classify(Color::new(0, 0, 0, 255)), BlockType::Unhookable);
}

#[test]
fn nearest_empty_palette() {
    let cls = NearestClassifier::new(&Vec::new());
    assert_eq!(cls.nearest_index(Color::new(1, 1, 1, 1)), None);
    assert_eq!(cls.classify(Color::new(1, 1, 1, 1)), BlockType::Empty);
}

#[test]
fn color_pack_and_distance() {
    assert_eq!(Color::new(0x12, 0x34, 0x56, 0x78).pack(), 0x1234_5678);
    assert_eq!(Color::new(0, 0, 0, 0).distance(Color::new(255, 255, 255, 255)), 4 * 65025);
    assert_eq!(Color::new(1, 2, 3, 4).distance(Color::new(4, 2, 1, 4)), 13);
}

#[test]
fn raster_rejects_wrong_length() {
    assert!(Raster::new(2, 2, vec![0; 15]).is_none());
    assert!(Raster::new(2, 2, vec![0; 17]).is_none());
    assert!(Raster::new(2, 2, vec![0; 16]).is_some());
    assert!(Raster::new(0, 5, Vec::new()).is_some());
}

#[test]
fn resize_dimensions_round_down() {
    let img = Raster::new(7, 5, vec![255; 7 * 5 * 4]).unwrap();
    let out = img.preprocess(2, ResizeFilterType::Nearest);
    assert_eq!((out.width, out.height), (3, 2));
    assert_eq!(out.data.len(), 3 * 2 * 4);
    assert!(out.data.iter().all(|&b| b == 255));
}

#[test]
fn resize_every_filter() {
    let filters = [
        ResizeFilterType::Nearest,
        ResizeFilterType::Triangle,
        ResizeFilterType::CatmullRom,
        ResizeFilterType::Gaussian,
        ResizeFilterType::Lanczos3,
    ];
    for f in filters {
        let img = Raster::new(4, 4, vec![9; 64]).unwrap();
        let out = img.preprocess(2, f);
        assert_eq!((out.width, out.height), (2, 2));
        assert_eq!(out.data, vec![9; 16]);
    }
}

#[test]
fn resize_tile_size_one_keeps_image() {
    let data: Vec<u8> = (0..48).collect();
    let out = Raster::new(3, 4, data.clone()).unwrap().preprocess(1, ResizeFilterType::Gaussian);
    assert_eq!((out.width, out.height), (3, 4));
    assert_eq!(out.data, data);
    let out = Raster::new(3, 4, data.clone()).unwrap().preprocess(0, ResizeFilterType::Gaussian);
    assert_eq!(out.data, data);
}

#[test]
fn resize_larger_than_image_is_empty() {
    let img = Raster::new(3, 3, vec![1; 36]).unwrap();
    let out = img.preprocess(4, ResizeFilterType::Nearest);
    assert_eq!((out.width, out.height), (0, 0));
    assert!(out.data.is_empty());
}

#[test]
fn convert_with_tile_size_two() {
    let mut data = Vec::new();
    for _ in 0..16 {
        data.extend_from_slice(&[255, 0, 0, 255]);
    }
    let palette = vec![entry(255, 0, 0, 255, BlockType::Unhookable)];
    let cls = Classifier::exact(&palette);
    let g = convert(Raster::new(4, 4, data).unwrap(), 2, ResizeFilterType::Nearest, &cls);
    assert_eq!(rows(&g), vec![vec![2, 2], vec![2, 2]]);
}

#[test]
fn convert_twice_same_grid() {
    let palette = vec![
        entry(255, 0, 0, 255, BlockType::Hookable),
        entry(0, 0, 0, 0, BlockType::Freeze),
    ];
    let cls = Classifier::nearest(&palette);
    let data: Vec<u8> = (0..64u32).map(|v| (v * 37 % 256) as u8).collect();
    let g1 = convert(Raster::new(4, 4, data.clone()).unwrap(), 2, ResizeFilterType::Triangle, &cls);
    let g2 = convert(Raster::new(4, 4, data).unwrap(), 2, ResizeFilterType::Triangle, &cls);
    assert_eq!(g1.tiles, g2.tiles);
    assert_eq!((g1.width, g1.height), (g2.width, g2.height));
}

#[test]
fn build_grid_row_major() {
    let img = Raster::new(3, 1, vec![1, 1, 1, 1, 2, 2, 2, 2, 3, 3, 3, 3]).unwrap();
    let palette = vec![
        entry(1, 1, 1, 1, BlockType::Custom(11)),
        entry(3, 3, 3, 3, BlockType::Custom(33)),
    ];
    let g = build_grid(&img, &Classifier::exact(&palette));
    assert_eq!(g.tiles, vec![11, 0, 33]);
}
