use ability_clipboard::display::{
    c_name_to_string, fallback_display, place_display, place_displays, position_of,
    set_display_layout, DisplayLayout, RawDisplayInfo,
};

#[test]
fn layout_push_replaces_previous_layout() {
    let mut layout = DisplayLayout::new();
    assert_eq!(position_of(&layout, 0), None);

    set_display_layout(&mut layout, "[[0, 0, 0], [7, 1920, -40]]".to_string()).unwrap();
    assert_eq!(position_of(&layout, 7), Some((1920, -40)));
    assert_eq!(position_of(&layout, 0), Some((0, 0)));

    // Display 7 unplugged: it disappears.
    set_display_layout(&mut layout, "[[0, 10, 20]]".to_string()).unwrap();
    assert_eq!(position_of(&layout, 7), None);
    assert_eq!(position_of(&layout, 0), Some((10, 20)));
    assert_eq!(layout.entries(), &[(0u32, 10i32, 20i32)]);
}

#[test]
fn unparsable_layout_keeps_previous_one() {
    let mut layout = DisplayLayout::new();
    set_display_layout(&mut layout, "[[3, 5, 6]]".to_string()).unwrap();
    set_display_layout(&mut layout, "not json".to_string()).unwrap_err();
    assert_eq!(position_of(&layout, 3), Some((5, 6)));
    set_display_layout(&mut layout, "[[3, -1]]".to_string()).unwrap_err();
    assert_eq!(position_of(&layout, 3), Some((5, 6)));
    set_display_layout(&mut layout, "[]".to_string()).unwrap();
    assert_eq!(position_of(&layout, 3), None);
}

#[test]
fn first_listed_position_wins() {
    let mut layout = DisplayLayout::new();
    set_display_layout(&mut layout, "[[1, 1, 1], [2, 2, 2], [1, 9, 9]]".to_string()).unwrap();
    assert_eq!(position_of(&layout, 1), Some((1, 1)));
    assert_eq!(position_of(&layout, 2), Some((2, 2)));
}

#[test]
fn c_names_stop_at_nul() {
    let mut raw = [0u8; 33];
    raw[..4].copy_from_slice(b"HDMI");
    raw[5] = b'x';
    assert_eq!(c_name_to_string(&raw), "HDMI");
    assert_eq!(c_name_to_string(b"full"), "full");
    assert_eq!(c_name_to_string(&[0, b'a']), "");
    assert_eq!(c_name_to_string(&[b'a', 0xff, b'b', 0]), "a\u{fffd}b");
    assert!(!c_name_to_string(&[0xc0, 0x80, b'z', 0, b'q']).contains('\0'));
}

fn raw(id: u32, name: &[u8], width: i32, height: i32) -> RawDisplayInfo {
    RawDisplayInfo { id, name: name.to_vec(), width, height, refresh_rate: 60 }
}

#[test]
fn displays_are_placed_from_the_layout() {
    let mut layout = DisplayLayout::new();
    set_display_layout(&mut layout, "[[2, 2560, 0]]".to_string()).unwrap();

    let placed = place_display(&raw(2, b"External\0", 1920, -5), &layout);
    assert_eq!(placed.id, 2);
    assert_eq!(placed.name, "External");
    assert_eq!((placed.x, placed.y), (2560, 0));
    assert_eq!((placed.width, placed.height), (1920, 0));
    assert_eq!(placed.refresh_rate, 60);

    let all = place_displays(&[raw(0, b"Built-in\0", 2560, 1600), raw(2, b"External\0", 1920, 1080)], &layout)
        .expect("two displays");
    assert_eq!(all.len(), 2);
    assert_eq!((all[0].id, all[0].x, all[0].y), (0, 0, 0));
    assert_eq!((all[1].id, all[1].x, all[1].y), (2, 2560, 0));

    assert!(place_displays(&[], &layout).is_none());
}

#[test]
fn fallback_describes_the_default_display() {
    let mut layout = DisplayLayout::new();
    set_display_layout(&mut layout, "[[5, 11, 12]]".to_string()).unwrap();
    let display = fallback_display(0x1_0000_0005, 1280, -1, 90, &layout);
    assert_eq!(display.id, 5);
    assert_eq!(display.name, "OpenHarmony Device");
    assert_eq!((display.x, display.y), (11, 12));
    assert_eq!((display.width, display.height), (1280, 0));
    assert_eq!(display.refresh_rate, 90);
}

#[test]
fn layout_push_reports_whether_it_parsed() {
    let mut layout = DisplayLayout::from_entries(vec![(1, 2, 3)]);
    let err = set_display_layout(&mut layout, "{\"bad\": true}".to_string()).unwrap_err();
    assert!(!err.is_empty());
    assert_eq!(layout.entries(), &[(1u32, 2i32, 3i32)]);
    assert!(set_display_layout(&mut layout, "[[4, 5, 6]]".to_string()).is_ok());
    assert_eq!(layout.entries(), &[(4u32, 5i32, 6i32)]);
}

#[test]
fn layout_replacement_from_parsed_entries() {
    let mut layout = DisplayLayout::from_entries(vec![(1, 2, 3), (9, 8, 7)]);
    assert_eq!(position_of(&layout, 9), Some((8, 7)));
    assert!(!layout.replace_with(None));
    assert_eq!(position_of(&layout, 9), Some((8, 7)));
    assert!(layout.replace_with(Some(vec![(2, -1, -2)])));
    assert_eq!(position_of(&layout, 9), None);
    assert_eq!(position_of(&layout, 2), Some((-1, -2)));
}
