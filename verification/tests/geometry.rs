use livekit_tui_client::layout::{inner_area, pip_rect, popup_rect, self_view, stream_order, tile_grid, tile_rect, Rect};
use livekit_tui_client::text::text_is_before;

#[test]
fn rect_new_clamps_to_coordinate_range() {
    let r = Rect::new(65530, 10, 20, 5);
    assert_eq!(r.width, 5);
    assert_eq!(r.right(), 65535);
    let s = Rect::new(1, 2, 3, 4);
    assert_eq!((s.right(), s.bottom()), (4, 6));
}

#[test]
fn inner_area_strips_border() {
    assert_eq!(inner_area(Rect::new(0, 0, 10, 6)), Rect { x: 1, y: 1, width: 8, height: 4 });
    assert_eq!(inner_area(Rect::new(5, 5, 1, 6)), Rect { x: 0, y: 0, width: 0, height: 0 });
}

#[test]
fn lone_self_view_is_centred() {
    let v = self_view(Rect { x: 10, y: 2, width: 60, height: 20 });
    assert_eq!(v.rect, Rect { x: 30, y: 7, width: 20, height: 10 });
    assert_eq!((v.inner_width, v.inner_height), (18, 8));
    let small = self_view(Rect { x: 10, y: 10, width: 9, height: 3 });
    assert_eq!(small.rect, Rect { x: 10, y: 9, width: 8, height: 4 });
}

#[test]
fn tiles_for_three_streams() {
    let area = Rect { x: 1, y: 1, width: 80, height: 20 };
    let g = tile_grid(area, 3);
    assert_eq!((g.cols, g.rows, g.tile_width, g.tile_height), (2, 2, 40, 10));
    assert_eq!((g.inner_width, g.inner_height), (38, 8));
    assert_eq!(tile_rect(area, &g, 0), Some(Rect { x: 1, y: 1, width: 40, height: 10 }));
    assert_eq!(tile_rect(area, &g, 2), Some(Rect { x: 1, y: 11, width: 40, height: 10 }));
    assert_eq!(tile_rect(area, &g, 3), Some(Rect { x: 41, y: 11, width: 40, height: 10 }));
    let tiny = Rect { x: 0, y: 0, width: 10, height: 10 };
    let g2 = tile_grid(tiny, 4);
    assert_eq!((g2.tile_width, g2.tile_height), (6, 5));
    assert_eq!(tile_rect(tiny, &g2, 1), None);
}

#[test]
fn picture_in_picture_and_notice() {
    let area = Rect { x: 1, y: 1, width: 80, height: 20 };
    let g = tile_grid(area, 1);
    assert_eq!(pip_rect(area, &g), Some(Rect { x: 54, y: 2, width: 26, height: 6 }));
    let g2 = tile_grid(Rect { x: 0, y: 0, width: 6, height: 2 }, 1);
    assert_eq!(pip_rect(Rect { x: 0, y: 0, width: 6, height: 2 }, &g2), None);
    assert_eq!(popup_rect(Rect { x: 0, y: 0, width: 100, height: 30 }), Rect { x: 30, y: 12, width: 40, height: 5 });
    assert_eq!(popup_rect(Rect { x: 2, y: 3, width: 20, height: 4 }), Rect { x: 2, y: 3, width: 20, height: 5 });
}

#[test]
fn streams_are_tiled_in_name_order() {
    let ids = vec!["zoe".to_string(), "Bob".to_string(), "amy".to_string(), "ämy".to_string(), "am".to_string()];
    let ordered = stream_order(&ids);
    let mut expected = ids.clone();
    expected.sort();
    assert_eq!(ordered, expected);
    assert!(stream_order(&Vec::new()).is_empty());
}

#[test]
fn text_order_matches_string_order() {
    let words = ["", "a", "ab", "b", "é", "z", "日本", "日", "Z"];
    for x in words {
        for y in words {
            assert_eq!(text_is_before(&x.to_string(), &y.to_string()), x < y, "{} {}", x, y);
        }
    }
}
