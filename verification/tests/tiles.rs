use raytracer::span::Span;
use raytracer::tiles::{place_tile, Tile, TileGrid, WorkerStep};

#[test]
fn tile_count_rounds_bands_up() {
    let g = TileGrid { rows: 1080, cols: 1280, tile_rows: 32, tile_cols: 32 };
    // 1080 / 32 rounds up to 34 bands down, 1280 / 32 is exactly 40 across.
    assert_eq!(g.tile_count(), 34 * 40);

    let exact = TileGrid { rows: 64, cols: 96, tile_rows: 32, tile_cols: 32 };
    assert_eq!(exact.tile_count(), 2 * 3);

    let empty = TileGrid { rows: 0, cols: 1280, tile_rows: 32, tile_cols: 32 };
    assert_eq!(empty.tile_count(), 0);
}

#[test]
fn tile_at_walks_rows_of_bands() {
    let g = TileGrid { rows: 70, cols: 50, tile_rows: 32, tile_cols: 32 };
    // 3 bands down, 2 across.
    assert_eq!(g.tile_count(), 6);
    assert_eq!(
        g.tile_at(0),
        Tile { rows: Span::new(0, 32), cols: Span::new(0, 32) }
    );
    assert_eq!(
        g.tile_at(1),
        Tile { rows: Span::new(0, 32), cols: Span::new(32, 50) }
    );
    assert_eq!(
        g.tile_at(2),
        Tile { rows: Span::new(32, 64), cols: Span::new(0, 32) }
    );
    // The last tile is clipped on both axes.
    assert_eq!(
        g.tile_at(5),
        Tile { rows: Span::new(64, 70), cols: Span::new(32, 50) }
    );
}

#[test]
fn tiles_cover_every_pixel_exactly_once() {
    // Sizes that do not divide evenly on either axis.
    let g = TileGrid { rows: 7, cols: 5, tile_rows: 3, tile_cols: 2 };
    let count = g.tile_count();
    assert_eq!(count, 3 * 3);

    let mut covered = vec![0u32; 7 * 5];
    for index in 0..count {
        let t = g.tile_at(index);
        for r in t.rows.start..t.rows.end {
            for c in t.cols.start..t.cols.end {
                assert!(t.contains(r, c));
                covered[r * 5 + c] += 1;
            }
        }
    }
    for k in 0..covered.len() {
        assert_eq!(covered[k], 1);
    }
}

#[test]
fn next_task_renders_until_the_cursor_runs_out() {
    let g = TileGrid { rows: 7, cols: 5, tile_rows: 3, tile_cols: 2 };
    let count = g.tile_count();
    for index in 0..count {
        assert_eq!(g.next_task(index), WorkerStep::Render(g.tile_at(index)));
    }
    assert_eq!(g.next_task(count), WorkerStep::Finished);
    assert_eq!(g.next_task(count + 17), WorkerStep::Finished);
}

#[test]
fn place_tile_writes_exactly_the_tile() {
    // A 4-row, 3-column image, all zeros; place a 2x2 tile at row 1, col 1.
    let mut buffer = vec![0u32; 4 * 3];
    let tile = Tile { rows: Span::new(1, 3), cols: Span::new(1, 3) };
    let pixels = vec![91, 92, 93, 94];
    place_tile(&mut buffer, 3, &tile, &pixels);
    assert_eq!(
        buffer,
        vec![
            0, 0, 0, //
            0, 91, 92, //
            0, 93, 94, //
            0, 0, 0,
        ]
    );
}

#[test]
fn place_tile_keeps_other_tiles() {
    let mut buffer = vec![7u8; 2 * 4];
    let tile = Tile { rows: Span::new(0, 1), cols: Span::new(2, 4) };
    let pixels = vec![1, 2];
    place_tile(&mut buffer, 4, &tile, &pixels);
    assert_eq!(buffer, vec![7, 7, 1, 2, 7, 7, 7, 7]);
}

#[test]
fn assembled_tiles_reproduce_the_whole_image() {
    // Render a known function of pixel position tile by tile, deliver the
    // tiles in claim order, and check the assembled image.
    let g = TileGrid { rows: 5, cols: 6, tile_rows: 2, tile_cols: 4 };
    let mut image = vec![0usize; 5 * 6];
    let count = g.tile_count();
    for index in 0..count {
        match g.next_task(index) {
            WorkerStep::Render(t) => {
                let mut local = Vec::new();
                for r in t.rows.start..t.rows.end {
                    for c in t.cols.start..t.cols.end {
                        local.push(100 * r + c);
                    }
                }
                place_tile(&mut image, 6, &t, &local);
            }
            WorkerStep::Finished => unreachable!(),
        }
    }
    for r in 0..5 {
        for c in 0..6 {
            assert_eq!(image[r * 6 + c], 100 * r + c);
        }
    }
}
