use datathing::bridge::{
    check_frame, next_frame, anchor_from_upper, check_circle, check_line, check_region, check_text, parse_anchor,
    parse_color, parse_sense, parse_vec2, Align, Anchor, BridgeError, Rgba, Segment, Sense,
};

fn center() -> Anchor {
    Anchor { x: Align::Center, y: Align::Center }
}

#[test]
fn circle_accepts_four_channel_colors() {
    let plan = check_circle(&vec![0.0f32, 0.0], &vec![255, 0, 0, 255], &vec![0, 0, 0, 255]).unwrap();
    assert_eq!(plan.center, (0.0, 0.0));
    assert_eq!(plan.fill, Rgba { r: 255, g: 0, b: 0, a: 255 });
    assert_eq!(plan.stroke, Rgba { r: 0, g: 0, b: 0, a: 255 });
}

#[test]
fn circle_rejects_five_channel_fill() {
    let r = check_circle(&vec![0.0f32, 0.0], &vec![255, 0, 0, 255, 1], &vec![0, 0, 0, 255]);
    assert_eq!(r, Err(BridgeError::BadColor));
}

#[test]
fn circle_rejects_three_channel_colors() {
    let r = check_circle(&vec![0.0f32, 0.0], &vec![255, 0, 0], &vec![0, 0, 0]);
    assert_eq!(r, Err(BridgeError::BadColor));
}

#[test]
fn circle_checks_center_before_colors() {
    let r = check_circle(&vec![0.0f32], &vec![1], &vec![2]);
    assert_eq!(r, Err(BridgeError::BadPoint));
    let r = check_circle(&vec![0.0f32, 1.0], &vec![1, 2, 3, 4], &vec![2]);
    assert_eq!(r, Err(BridgeError::BadColor));
}

#[test]
fn empty_anchor_places_like_center_center() {
    let a = check_text(&vec![3.0f32, 4.0], "", &vec![1, 2, 3, 4]);
    let b = check_text(&vec![3.0f32, 4.0], "CENTER_CENTER", &vec![1, 2, 3, 4]);
    assert_eq!(a, b);
    assert_eq!(a.unwrap().anchor, center());
}

#[test]
fn anchor_names_ignore_case() {
    assert_eq!(parse_anchor("left_top"), Ok(Anchor { x: Align::Min, y: Align::Min }));
    assert_eq!(parse_anchor("Right_Bottom"), Ok(Anchor { x: Align::Max, y: Align::Max }));
    assert_eq!(parse_anchor("center_bottom"), Ok(Anchor { x: Align::Center, y: Align::Max }));
    assert_eq!(parse_anchor("RIGHT_CENTER"), Ok(Anchor { x: Align::Max, y: Align::Center }));
    assert_eq!(parse_anchor("center_center"), Ok(center()));
}

#[test]
fn all_nine_anchors() {
    let cases = [
        ("LEFT_BOTTOM", Align::Min, Align::Max),
        ("LEFT_CENTER", Align::Min, Align::Center),
        ("LEFT_TOP", Align::Min, Align::Min),
        ("CENTER_BOTTOM", Align::Center, Align::Max),
        ("CENTER_CENTER", Align::Center, Align::Center),
        ("CENTER_TOP", Align::Center, Align::Min),
        ("RIGHT_BOTTOM", Align::Max, Align::Max),
        ("RIGHT_CENTER", Align::Max, Align::Center),
        ("RIGHT_TOP", Align::Max, Align::Min),
    ];
    for (name, x, y) in cases {
        assert_eq!(anchor_from_upper(name), Ok(Anchor { x, y }));
    }
}

#[test]
fn unknown_anchor_is_refused() {
    assert_eq!(parse_anchor("north"), Err(BridgeError::BadAnchor));
    assert_eq!(anchor_from_upper("left_top"), Err(BridgeError::BadAnchor));
    assert_eq!(parse_anchor(" CENTER_CENTER"), Err(BridgeError::BadAnchor));
}

#[test]
fn sense_tokens() {
    assert_eq!(parse_sense("click"), Ok(Sense { click: true, drag: false, focusable: false }));
    assert_eq!(parse_sense("click|drag"), Ok(Sense { click: true, drag: true, focusable: false }));
    assert_eq!(
        parse_sense("focusable|drag|click"),
        Ok(Sense { click: true, drag: true, focusable: true })
    );
    assert_eq!(parse_sense("drag|drag"), Ok(Sense { click: false, drag: true, focusable: false }));
}

#[test]
fn sense_refuses_unknown_and_empty_tokens() {
    assert_eq!(parse_sense(""), Err(BridgeError::BadSense));
    assert_eq!(parse_sense("click||drag"), Err(BridgeError::BadSense));
    assert_eq!(parse_sense("click|"), Err(BridgeError::BadSense));
    assert_eq!(parse_sense("hover"), Err(BridgeError::BadSense));
    assert_eq!(parse_sense("Click"), Err(BridgeError::BadSense));
}

#[test]
fn colors_and_vectors() {
    assert_eq!(parse_color(&vec![1, 2, 3, 4]), Ok(Rgba { r: 1, g: 2, b: 3, a: 4 }));
    assert_eq!(parse_color(&vec![]), Err(BridgeError::BadColor));
    assert_eq!(parse_vec2(&vec![1.5f32, -2.0]), Ok((1.5, -2.0)));
    assert_eq!(parse_vec2(&vec![1.5f32, -2.0, 0.0]), Err(BridgeError::BadPoint));
}

#[test]
fn line_joins_consecutive_points() {
    let points = vec![vec![0.0f32, 0.0], vec![1.0, 1.0], vec![2.0, 0.0]];
    let (segments, color) = check_line(&points, &vec![9, 8, 7, 6]).unwrap();
    assert_eq!(
        segments,
        vec![
            Segment { from: (0.0, 0.0), to: (1.0, 1.0) },
            Segment { from: (1.0, 1.0), to: (2.0, 0.0) },
        ]
    );
    assert_eq!(color, Rgba { r: 9, g: 8, b: 7, a: 6 });
}

#[test]
fn line_with_one_point_draws_nothing() {
    let (segments, _) = check_line(&vec![vec![5.0f32, 5.0]], &vec![0, 0, 0, 0]).unwrap();
    assert!(segments.is_empty());
}

#[test]
fn line_refuses_bad_points_and_colors() {
    let bad = vec![vec![0.0f32, 0.0], vec![1.0], vec![2.0, 0.0]];
    assert_eq!(check_line(&bad, &vec![0, 0, 0, 0]), Err(BridgeError::BadPoint));
    assert_eq!(check_line(&bad, &vec![0, 0, 0]), Err(BridgeError::BadColor));
    let lone_bad = vec![vec![0.0f32, 0.0, 0.0]];
    assert_eq!(check_line(&lone_bad, &vec![0, 0, 0, 0]), Err(BridgeError::BadPoint));
}

#[test]
fn text_checks_in_order() {
    assert_eq!(check_text(&vec![0.0f32], "nowhere", &vec![0]), Err(BridgeError::BadPoint));
    assert_eq!(check_text(&vec![0.0f32, 0.0], "nowhere", &vec![0]), Err(BridgeError::BadAnchor));
    assert_eq!(check_text(&vec![0.0f32, 0.0], "left_top", &vec![0]), Err(BridgeError::BadColor));
    let plan = check_text(&vec![1.0f32, 2.0], "left_top", &vec![1, 1, 1, 1]).unwrap();
    assert_eq!(plan.pos, (1.0, 2.0));
    assert_eq!(plan.anchor, Anchor { x: Align::Min, y: Align::Min });
}

#[test]
fn region_checks_sense_before_size() {
    assert_eq!(check_region(&vec![1.0f32], "nope"), Err(BridgeError::BadSense));
    assert_eq!(check_region(&vec![1.0f32], "click"), Err(BridgeError::BadPoint));
    let plan = check_region(&vec![200.0f32, 100.0], "click|drag").unwrap();
    assert_eq!(plan.size, (200.0, 100.0));
    assert_eq!(plan.sense, Sense { click: true, drag: true, focusable: false });
}

#[test]
fn error_messages() {
    assert_eq!(BridgeError::BadAnchor.message(), "Must be {LEFT,CENTER,RIGHT}_{TOP,CENTER,BOTTOM}");
    assert_eq!(BridgeError::BadSense.message(), "Must be click, drag, or focusable");
    assert_eq!(BridgeError::BadColor.message(), "Colors are from premultiplied RGBA");
    assert_eq!(BridgeError::BadPoint.message(), "Points must be of dimension 2");
    assert_eq!(BridgeError::StaleHandle.message(), "This handle belongs to a frame that has ended");
}

#[test]
fn stale_handles_are_refused() {
    assert_eq!(check_frame(3, 3), Ok(()));
    assert_eq!(check_frame(2, 3), Err(BridgeError::StaleHandle));
    assert_eq!(next_frame(0), 1);
    assert_eq!(next_frame(41), 42);
    assert_eq!(next_frame(u64::MAX), 0);
    let old = next_frame(7);
    let now = next_frame(old);
    assert_eq!(check_frame(old, now), Err(BridgeError::StaleHandle));
}
