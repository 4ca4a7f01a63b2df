use task_ui::geometry::{centered_rect, create_main_layout, split_footer, Rect};

#[test]
fn test_centered_rect() {
    let rect = Rect { x: 0, y: 0, width: 200, height: 150 };
    let expected_rect = Rect { x: 74, y: 18, width: 50, height: 113 };
    let actual_rect = centered_rect(25, 75, rect);
    assert_eq!(actual_rect, expected_rect);
}

#[test]
fn test_create_main_layout() {
    let screen_size = Rect { x: 0, y: 0, width: 80, height: 25 };

    let out = create_main_layout(screen_size);
    let layout = [out.title, out.list, out.footer];

    let expected_sizes = [
        // Title: 3 units of height (assuming full width)
        Rect { x: 0, y: 0, width: 80, height: 3 },
        // List: Min height of 2 (assuming full width)
        Rect { x: 0, y: 3, width: 80, height: 19 },
        // Footer: 3 units of height (assuming full width)
        Rect { x: 0, y: 22, width: 80, height: 3 },
    ];

    for (i, rect) in layout.iter().enumerate() {
        assert_eq!(*rect, expected_sizes[i], "Element {} size mismatch", i);
    }
}

#[test]
fn main_layout_partitions_tall_viewport() {
    let area = Rect { x: 2, y: 1, width: 40, height: 6 };
    let out = create_main_layout(area);
    assert_eq!(out.title, Rect { x: 2, y: 1, width: 40, height: 3 });
    assert_eq!(out.list, Rect { x: 2, y: 4, width: 40, height: 0 });
    assert_eq!(out.footer, Rect { x: 2, y: 4, width: 40, height: 3 });
    assert_eq!(
        out.title.height + out.list.height + out.footer.height,
        area.height
    );
}

#[test]
fn main_layout_degrades_on_short_viewports() {
    for h in 0..6u16 {
        let out = create_main_layout(Rect { x: 0, y: 0, width: 10, height: h });
        assert_eq!(
            out.title.height + out.list.height + out.footer.height,
            h,
            "heights must sum to {}",
            h
        );
        assert_eq!(out.list.y, out.title.y + out.title.height);
        assert_eq!(out.footer.y, out.list.y + out.list.height);
    }
    let out = create_main_layout(Rect { x: 0, y: 0, width: 10, height: 4 });
    assert_eq!(out.title.height, 3);
    assert_eq!(out.footer.height, 1);
    assert_eq!(out.list.height, 0);
}

#[test]
fn geometry_survives_degenerate_sizes() {
    let sizes = [
        Rect { x: 0, y: 0, width: 0, height: 0 },
        Rect { x: 0, y: 0, width: 1, height: 1 },
        Rect { x: 0, y: 0, width: 0, height: 500 },
        Rect { x: 0, y: 0, width: 500, height: 0 },
        Rect { x: 0, y: 0, width: 65535, height: 65535 },
    ];
    for r in sizes {
        let _ = create_main_layout(r);
        let (left, right) = split_footer(r);
        assert_eq!(left.width + right.width, r.width);
        let c = centered_rect(20, 20, r);
        assert!(c.x >= r.x && c.y >= r.y);
        assert!(c.x + c.width <= r.x + r.width);
        assert!(c.y + c.height <= r.y + r.height);
    }
}

#[test]
fn centered_rect_stays_inside_enclosing_region() {
    let r = Rect { x: 7, y: 11, width: 93, height: 57 };
    for (px, py) in [(0, 0), (1, 99), (20, 20), (60, 25), (100, 100), (250, 250)] {
        let c = centered_rect(px, py, r);
        assert!(c.x >= r.x && c.y >= r.y);
        assert!(c.x + c.width <= r.x + r.width);
        assert!(c.y + c.height <= r.y + r.height);
    }
}

#[test]
fn centered_rect_full_percentages_cover_the_region() {
    let r = Rect { x: 3, y: 4, width: 50, height: 60 };
    assert_eq!(centered_rect(100, 100, r), r);
    // requests above 100 are clamped to 100
    assert_eq!(centered_rect(250, 250, r), r);
}

#[test]
fn footer_splits_at_thirty_percent() {
    let footer = Rect { x: 0, y: 22, width: 80, height: 3 };
    let (nav, hint) = split_footer(footer);
    assert_eq!(nav, Rect { x: 0, y: 22, width: 24, height: 3 });
    assert_eq!(hint, Rect { x: 24, y: 22, width: 56, height: 3 });
}
