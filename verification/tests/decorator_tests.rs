use draw::decorator::{can_lay_out_new_frame, can_lay_out_resized_frame};
use draw::decorator::{
    Decoration, DecorationArea, DecorationBitFlag, DecorationIntersection, Rectangle, WindowDecorator, WindowEdges,
};

fn r(x: i32, y: i32, w: i32, h: i32) -> Rectangle {
    Rectangle { x, y, width: w, height: h }
}

fn ids(d: &WindowDecorator) -> Vec<DecorationBitFlag> {
    d.decorations.iter().map(|x| x.id).collect()
}

#[test]
fn rectangle_is_half_open() {
    let rect = Rectangle::new(2, 3, 4, 5);
    assert_eq!(rect.x_max(), 6);
    assert!(rect.contains(2, 3));
    assert!(rect.contains(5, 7));
    assert!(!rect.contains(6, 3));
    assert!(!rect.contains(2, 8));
    assert!(!rect.contains(1, 3));
}

#[test]
fn intersections_name_areas() {
    let e = DecorationIntersection::empty();
    assert_eq!(e.as_area(), DecorationArea::NoDecoration);
    let t = e.add(DecorationBitFlag::TitleBar);
    assert_eq!(t.as_area(), DecorationArea::TitleBar);
    assert_eq!(t.add(DecorationBitFlag::CloseButton).as_area(), DecorationArea::CloseButton);
    assert_eq!(t.add(DecorationBitFlag::MaximizeButton).as_area(), DecorationArea::MaximizeButton);
    assert_eq!(t.add(DecorationBitFlag::MinimizeButton).as_area(), DecorationArea::MinimizeButton);
    let top = e.add(DecorationBitFlag::TopSideBar);
    assert_eq!(top.as_area(), DecorationArea::Edge(WindowEdges::Top));
    assert_eq!(top.add(DecorationBitFlag::LeftSideBar).as_area(), DecorationArea::Edge(WindowEdges::TopLeft));
    assert_eq!(top.add(DecorationBitFlag::RightSideBar).as_area(), DecorationArea::Edge(WindowEdges::TopRight));
    let bottom = e.add(DecorationBitFlag::BottomSideBar);
    assert_eq!(bottom.as_area(), DecorationArea::Edge(WindowEdges::Bottom));
    assert_eq!(bottom.add(DecorationBitFlag::LeftSideBar).as_area(), DecorationArea::Edge(WindowEdges::BottomLeft));
    assert_eq!(bottom.add(DecorationBitFlag::RightSideBar).as_area(), DecorationArea::Edge(WindowEdges::BottomRight));
    assert_eq!(e.add(DecorationBitFlag::LeftSideBar).as_area(), DecorationArea::Edge(WindowEdges::Left));
    assert_eq!(e.add(DecorationBitFlag::RightSideBar).as_area(), DecorationArea::Edge(WindowEdges::Right));
    assert_eq!(t.add(DecorationBitFlag::TopSideBar).as_area(), DecorationArea::NoDecoration);
    assert_eq!(DecorationBitFlag::MinimizeButton.bit(), 128);
    assert_eq!(DecorationBitFlag::TitleBar.bit(), 1);
}

#[test]
fn new_frame_layout() {
    let d = WindowDecorator::new((800, 600), 50, 10);
    assert_eq!((d.width, d.height), (820, 670));
    assert_eq!(d.window_rect, r(0, 0, 820, 670));
    assert_eq!(d.content_rect, r(10, 50, 800, 600));
    assert!(!d.is_maximized);
    assert_eq!(
        ids(&d),
        vec![
            DecorationBitFlag::TitleBar,
            DecorationBitFlag::TopSideBar,
            DecorationBitFlag::BottomSideBar,
            DecorationBitFlag::RightSideBar,
            DecorationBitFlag::LeftSideBar,
            DecorationBitFlag::CloseButton,
            DecorationBitFlag::MaximizeButton,
            DecorationBitFlag::MinimizeButton,
        ]
    );
    let rects: Vec<Rectangle> = d.decorations.iter().map(|x| x.rect).collect();
    assert_eq!(
        rects,
        vec![
            r(0, 620, 800, 50),
            r(0, 660, 820, 10),
            r(0, 0, 820, 10),
            r(810, 0, 10, 670),
            r(0, 0, 10, 670),
            r(760, 635, 20, 20),
            r(720, 635, 20, 20),
            r(680, 635, 20, 20),
        ]
    );
    assert!(d.decorations.iter().all(|x| x.visibility));
}

#[test]
fn buttons_of_a_title_bar() {
    let title = Decoration::new(DecorationBitFlag::TitleBar, r(0, 100, 300, 41));
    let b = WindowDecorator::make_buttons(&title);
    assert_eq!(b.len(), 3);
    assert_eq!(b[0], Decoration { id: DecorationBitFlag::CloseButton, rect: r(260, 110, 20, 20), visibility: true });
    assert_eq!(b[1].rect, r(220, 110, 20, 20));
    assert_eq!(b[2].rect, r(180, 110, 20, 20));
}

#[test]
fn areas_under_the_pointer() {
    let d = WindowDecorator::new((800, 600), 50, 10);
    assert_eq!(d.inside_area(400, 10), DecorationArea::TitleBar);
    assert_eq!(d.inside_area(765, 30), DecorationArea::CloseButton);
    assert_eq!(d.inside_area(725, 30), DecorationArea::MaximizeButton);
    assert_eq!(d.inside_area(685, 30), DecorationArea::MinimizeButton);
    assert_eq!(d.inside_area(5, 300), DecorationArea::Edge(WindowEdges::Left));
    assert_eq!(d.inside_area(815, 300), DecorationArea::Edge(WindowEdges::Right));
    assert_eq!(d.inside_area(400, 665), DecorationArea::Edge(WindowEdges::Bottom));
    assert_eq!(d.inside_area(815, 668), DecorationArea::Edge(WindowEdges::BottomRight));
    assert_eq!(d.inside_area(5, 668), DecorationArea::Edge(WindowEdges::BottomLeft));
    assert_eq!(d.inside_area(815, 2), DecorationArea::Edge(WindowEdges::TopRight));
    assert_eq!(d.inside_area(400, 300), DecorationArea::NoDecoration);
    assert_eq!(d.inside_area(-1, 5), DecorationArea::NoDecoration);
    assert_eq!(d.inside_area(5, -1), DecorationArea::NoDecoration);
}

#[test]
fn resized_frame_layout() {
    let mut d = WindowDecorator::new((800, 600), 50, 10);
    d.resize_window_frame(1000, 800);
    assert_eq!((d.width, d.height), (1000, 800));
    assert_eq!(d.window_rect, r(0, 0, 1000, 800));
    assert_eq!(d.content_rect, r(10, 60, 980, 730));
    let rects: Vec<Rectangle> = d.decorations.iter().map(|x| x.rect).collect();
    assert_eq!(
        rects,
        vec![
            r(10, 740, 980, 50),
            r(0, 790, 1000, 10),
            r(0, 0, 1000, 10),
            r(0, 0, 10, 800),
            r(990, 0, 10, 800),
            r(950, 755, 20, 20),
            r(910, 755, 20, 20),
            r(870, 755, 20, 20),
        ]
    );
    assert_eq!(
        ids(&d)[..5].to_vec(),
        vec![
            DecorationBitFlag::TitleBar,
            DecorationBitFlag::TopSideBar,
            DecorationBitFlag::BottomSideBar,
            DecorationBitFlag::LeftSideBar,
            DecorationBitFlag::RightSideBar,
        ]
    );
}

#[test]
fn negative_size_leaves_frame_alone() {
    let mut d = WindowDecorator::new((800, 600), 50, 10);
    let before: Vec<Decoration> = d.decorations.clone();
    d.resize_window_frame(-1, 500);
    assert_eq!(d.decorations, before);
    assert_eq!((d.width, d.height), (820, 670));
}

#[test]
fn maximized_frame_hides_side_bars() {
    let mut d = WindowDecorator::new((800, 600), 50, 10);
    d.set_maximized(true);
    assert!(d.is_maximized);
    d.resize_window_frame(1000, 800);
    assert_eq!(d.content_rect, r(0, 50, 1000, 750));
    assert_eq!(d.decorations[0].rect, r(0, 750, 1000, 50));
    for part in &d.decorations[1..5] {
        assert!(!part.visibility);
    }
    for x in (-5..1005).step_by(7) {
        for y in (-5..805).step_by(7) {
            assert!(!matches!(d.inside_area(x, y), DecorationArea::Edge(_)), "edge at {x} {y}");
        }
    }
    assert_eq!(d.inside_area(500, 20), DecorationArea::TitleBar);
}

#[test]
fn find_a_part_by_id() {
    let d = WindowDecorator::new((800, 600), 50, 10);
    assert_eq!(d.find_decoration(DecorationBitFlag::TitleBar), Some(0));
    assert_eq!(d.find_decoration(DecorationBitFlag::LeftSideBar), Some(4));
    assert_eq!(d.find_decoration(DecorationBitFlag::MinimizeButton), Some(7));
}

#[test]
fn layout_checks() {
    assert!(can_lay_out_new_frame(800, 600, 50, 10));
    assert!(!can_lay_out_new_frame(i32::MAX, 600, 50, 10));
    assert!(!can_lay_out_new_frame(800, i32::MAX, 50, 10));
    assert!(can_lay_out_resized_frame(1000, 800, 50, 10, false));
    assert!(can_lay_out_resized_frame(1000, 800, 50, 10, true));
    assert!(!can_lay_out_resized_frame(1000, i32::MIN, 50, 10, false));
    assert!(can_lay_out_resized_frame(i32::MAX, 800, 50, 10, false));
    assert!(!can_lay_out_resized_frame(1000, 800, 50, i32::MAX, false));
}

#[test]
fn render_paints_visible_parts_red_with_y_growing_upwards() {
    let d = WindowDecorator {
        width: 3,
        height: 2,
        title_bar_height: 1,
        side_bar_thickness: 0,
        window_rect: r(0, 0, 3, 2),
        content_rect: r(0, 0, 3, 1),
        decorations: vec![
            Decoration { id: DecorationBitFlag::TitleBar, rect: r(0, 0, 2, 1), visibility: true },
            Decoration { id: DecorationBitFlag::LeftSideBar, rect: r(0, 0, 3, 2), visibility: false },
        ],
        is_maximized: false,
    };
    let red = [0u8, 0, 255, 255];
    let clear = [0u8, 0, 0, 0];
    let expected: Vec<u8> = [clear, clear, clear, red, red, clear].concat();
    assert_eq!(d.render(), expected);
}

#[test]
fn render_of_a_new_frame_leaves_the_content_transparent() {
    let d = WindowDecorator::new((800, 600), 50, 10);
    let bytes = d.render();
    let w = d.width as usize;
    assert_eq!(bytes.len(), 4 * w * d.height as usize);
    // Row 0 is the top of the window: the top side bar.
    assert_eq!(&bytes[0..4], &[0, 0, 255, 255]);
    // A pixel in the middle of the content.
    let (row, col) = (300usize, 400usize);
    let i = 4 * (row * w + col);
    assert_eq!(&bytes[i..i + 4], &[0, 0, 0, 0]);
}
