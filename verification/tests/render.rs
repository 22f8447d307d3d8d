use anvil::render::{
    clone_space_elements, output_elements, present_ai_elements, presented_layers, preview_grid,
    space_preview_elements, ClearColor, CloneSizes, OutputLayer, PresentedLayer, PreviewGrid,
};
use anvil::utils::{Point, Rectangle, Size};

fn rect(x: i32, y: i32, w: i32, h: i32) -> Rectangle {
    Rectangle::new(Point { x, y }, Size { w, h })
}

#[test]
fn grids() {
    assert_eq!(preview_grid(0), PreviewGrid { per_row: 0, rows: 0 });
    assert_eq!(preview_grid(1), PreviewGrid { per_row: 1, rows: 1 });
    assert_eq!(preview_grid(4), PreviewGrid { per_row: 4, rows: 1 });
    assert_eq!(preview_grid(5), PreviewGrid { per_row: 4, rows: 2 });
    assert_eq!(preview_grid(9), PreviewGrid { per_row: 4, rows: 3 });
}

#[test]
fn previews() {
    let areas = space_preview_elements(5, Size { w: 480, h: 540 });
    assert_eq!(
        areas,
        vec![
            rect(10, 10, 460, 520),
            rect(480, 10, 460, 520),
            rect(950, 10, 460, 520),
            rect(1420, 10, 460, 520),
            rect(10, 540, 460, 520),
        ]
    );
    assert!(areas.iter().all(|area| area.loc.x + area.size.w < 1920));
    assert!(areas.iter().all(|area| area.loc.y + area.size.h < 1080));
    for (i, a) in areas.iter().enumerate() {
        for b in &areas[i + 1..] {
            let apart = a.loc.x + a.size.w <= b.loc.x
                || b.loc.x + b.size.w <= a.loc.x
                || a.loc.y + a.size.h <= b.loc.y;
            assert!(apart);
        }
    }
    assert!(space_preview_elements(0, Size { w: 0, h: 0 }).is_empty());
    assert_eq!(space_preview_elements(1, Size { w: 20, h: 20 }), vec![rect(10, 10, 0, 0)]);
}

#[test]
fn what_an_output_shows() {
    let plain = vec![OutputLayer::Custom, OutputLayer::Space];
    let with_previews = vec![OutputLayer::Custom, OutputLayer::Previews, OutputLayer::Space];
    assert_eq!(output_elements(None, 3, false), (plain.clone(), ClearColor::Desktop));
    assert_eq!(output_elements(None, 3, true), (with_previews, ClearColor::Desktop));
    assert_eq!(output_elements(None, 0, true), (plain, ClearColor::Desktop));
    let zone = rect(0, 40, 1920, 1040);
    assert_eq!(
        output_elements(Some(zone), 3, true),
        (
            vec![OutputLayer::Custom, OutputLayer::Fullscreen(Point { x: 0, y: 40 })],
            ClearColor::Fullscreen
        )
    );
}

#[test]
fn clones_need_an_extent() {
    let size = Size { w: 800, h: 600 };
    let sizes = Some(CloneSizes { source: size, target: Size { w: 1, h: 2 } });
    assert_eq!(clone_space_elements(Some(size), Some(Size { w: 1, h: 2 })), sizes);
    assert_eq!(clone_space_elements(None, Some(size)), None);
    assert_eq!(clone_space_elements(Some(size), None), None);
    assert_eq!(clone_space_elements(Some(Size { w: 0, h: 600 }), Some(size)), None);
    assert_eq!(clone_space_elements(Some(size), Some(Size { w: 800, h: 0 })), None);
}

#[test]
fn a_presented_workspace_has_its_cursor() {
    let size = Size { w: 800, h: 600 };
    let shown = present_ai_elements(Point { x: 100, y: 5 }, 12, Some(size), Some(size));
    assert_eq!(shown.cursor, Point { x: 88, y: -7 });
    assert_eq!(shown.surfaces, Some(CloneSizes { source: size, target: size }));
    assert_eq!(present_ai_elements(Point { x: 0, y: 0 }, 0, None, None).surfaces, None);
}

#[test]
fn a_presented_cursor_is_above_the_surfaces() {
    let size = Size { w: 800, h: 600 };
    let plan = present_ai_elements(Point { x: 100, y: 5 }, 12, Some(size), Some(size));
    let cursor = PresentedLayer::Cursor(Point { x: 88, y: -7 });
    let clones = PresentedLayer::Clones(CloneSizes { source: size, target: size });
    assert_eq!(presented_layers(true, plan), vec![cursor, clones]);
    // Without its image the cursor alone is missing.
    assert_eq!(presented_layers(false, plan), vec![clones]);
    let bare = present_ai_elements(Point { x: 100, y: 5 }, 12, Some(size), None);
    assert_eq!(presented_layers(true, bare), vec![cursor]);
    assert!(presented_layers(false, bare).is_empty());
}
