use wired_config::dimensions::{MinMax, Notification, TextDimensionVariants, TextDimensions};
use wired_config::geometry::{AnchorPosition, Rect, Vec2};

fn variants() -> TextDimensionVariants {
    let of = |n: i32| TextDimensions {
        width: MinMax { min: n, max: n + 100 },
        height: MinMax { min: n + 1, max: n + 50 },
    };
    TextDimensionVariants {
        dimensions: of(1),
        dimensions_image_hint: of(2),
        dimensions_image_app: of(3),
        dimensions_image_both: of(4),
    }
}

const ANCHORS: [AnchorPosition; 8] = [
    AnchorPosition::ML,
    AnchorPosition::TL,
    AnchorPosition::MT,
    AnchorPosition::TR,
    AnchorPosition::MR,
    AnchorPosition::BR,
    AnchorPosition::MB,
    AnchorPosition::BL,
];

fn assert_distinct_border_points(rect: &Rect) {
    let left = 2 * rect.x as i64;
    let right = left + 2 * rect.width as i64;
    let top = 2 * rect.y as i64;
    let bottom = top + 2 * rect.height as i64;
    for (i, a) in ANCHORS.iter().enumerate() {
        let p = a.get_pos(rect);
        assert!(left <= p.x && p.x <= right && top <= p.y && p.y <= bottom);
        assert!(p.x == left || p.x == right || p.y == top || p.y == bottom);
        assert_ne!(p, Vec2::new((left + right) / 2, (top + bottom) / 2));
        for b in ANCHORS.iter().skip(i + 1) {
            assert_ne!(p, b.get_pos(rect));
        }
    }
}

#[test]
fn anchor_maps_to_its_point() {
    let rect = Rect::new(10, 20, 6, 8);
    assert_eq!(AnchorPosition::ML.get_pos(&rect), Vec2::new(20, 48));
    assert_eq!(AnchorPosition::TL.get_pos(&rect), Vec2::new(20, 40));
    assert_eq!(AnchorPosition::MT.get_pos(&rect), Vec2::new(26, 40));
    assert_eq!(AnchorPosition::TR.get_pos(&rect), Vec2::new(32, 40));
    assert_eq!(AnchorPosition::MR.get_pos(&rect), Vec2::new(32, 48));
    assert_eq!(AnchorPosition::BR.get_pos(&rect), Vec2::new(32, 56));
    assert_eq!(AnchorPosition::MB.get_pos(&rect), Vec2::new(26, 56));
    assert_eq!(AnchorPosition::BL.get_pos(&rect), Vec2::new(20, 56));
}

#[test]
fn anchor_agrees_with_the_rect() {
    let rect = Rect::new(-7, 3, 11, 5);
    assert_eq!(AnchorPosition::ML.get_pos(&rect), rect.mid_left());
    assert_eq!(AnchorPosition::TL.get_pos(&rect), rect.top_left());
    assert_eq!(AnchorPosition::MT.get_pos(&rect), rect.mid_top());
    assert_eq!(AnchorPosition::TR.get_pos(&rect), rect.top_right());
    assert_eq!(AnchorPosition::MR.get_pos(&rect), rect.mid_right());
    assert_eq!(AnchorPosition::BR.get_pos(&rect), rect.bottom_right());
    assert_eq!(AnchorPosition::MB.get_pos(&rect), rect.mid_bottom());
    assert_eq!(AnchorPosition::BL.get_pos(&rect), rect.bottom_left());
}

#[test]
fn middle_of_an_odd_side_is_exact() {
    let rect = Rect::new(-7, 3, 11, 5);
    assert_eq!(rect.top_left(), Vec2::new(-14, 6));
    assert_eq!(rect.mid_top(), Vec2::new(-3, 6));
    assert_eq!(rect.top_right(), Vec2::new(8, 6));
    assert_eq!(rect.mid_left(), Vec2::new(-14, 11));
    assert_eq!(rect.mid_right(), Vec2::new(8, 11));
    assert_eq!(rect.bottom_left(), Vec2::new(-14, 16));
    assert_eq!(rect.mid_bottom(), Vec2::new(-3, 16));
    assert_eq!(rect.bottom_right(), Vec2::new(8, 16));
    let mid = rect.mid_top();
    assert_eq!(mid.x - rect.top_left().x, rect.top_right().x - mid.x);
    let mid = rect.mid_left();
    assert_eq!(mid.y - rect.top_left().y, rect.bottom_left().y - mid.y);
}

#[test]
fn smallest_rect_has_eight_points() {
    let rect = Rect::new(0, 0, 1, 1);
    assert_eq!(AnchorPosition::TL.get_pos(&rect), Vec2::new(0, 0));
    assert_eq!(AnchorPosition::ML.get_pos(&rect), Vec2::new(0, 1));
    assert_eq!(AnchorPosition::MT.get_pos(&rect), Vec2::new(1, 0));
    assert_eq!(AnchorPosition::BR.get_pos(&rect), Vec2::new(2, 2));
    assert_distinct_border_points(&rect);
}

#[test]
fn anchors_are_distinct_points_of_the_border() {
    for rect in [
        Rect::new(0, 0, 1, 1),
        Rect::new(-3, 9, 3, 3),
        Rect::new(10, 20, 6, 8),
        Rect::new(-7, 3, 11, 5),
        Rect::new(5, 5, 1, 1000),
        Rect::new(i32::MIN, i32::MIN, u32::MAX, u32::MAX),
        Rect::new(i32::MAX, i32::MAX, u32::MAX, 1),
    ] {
        assert_distinct_border_points(&rect);
    }
}

#[test]
fn empty_rect_has_one_point() {
    let rect = Rect::new(5, -5, 0, 0);
    for anchor in ANCHORS {
        assert_eq!(anchor.get_pos(&rect), Vec2::new(10, -10));
    }
}

#[test]
fn largest_rect_does_not_overflow() {
    let rect = Rect::new(i32::MAX, i32::MAX, u32::MAX, u32::MAX);
    let near = 2 * i32::MAX as i64;
    let far = near + 2 * u32::MAX as i64;
    let mid = near + u32::MAX as i64;
    assert_eq!(AnchorPosition::TL.get_pos(&rect), Vec2::new(near, near));
    assert_eq!(AnchorPosition::BR.get_pos(&rect), Vec2::new(far, far));
    assert_eq!(AnchorPosition::MB.get_pos(&rect), Vec2::new(mid, far));
    let rect = Rect::new(i32::MIN, i32::MIN, 0, 1);
    assert_eq!(
        AnchorPosition::BL.get_pos(&rect),
        Vec2::new(2 * i32::MIN as i64, 2 * i32::MIN as i64 + 2)
    );
    assert_eq!(
        AnchorPosition::ML.get_pos(&rect),
        Vec2::new(2 * i32::MIN as i64, 2 * i32::MIN as i64 + 1)
    );
}

#[test]
fn dimensions_with_both_images() {
    let v = variants();
    let n = Notification { has_app_image: true, has_hint_image: true };
    assert_eq!(v.get_dimensions(&n), &v.dimensions_image_both);
    assert_eq!(v.get_dimensions(&n).width, MinMax { min: 4, max: 104 });
}

#[test]
fn dimensions_with_app_image_only() {
    let v = variants();
    let n = Notification { has_app_image: true, has_hint_image: false };
    assert_eq!(v.get_dimensions(&n), &v.dimensions_image_app);
    assert_eq!(v.get_dimensions(&n).height, MinMax { min: 4, max: 53 });
}

#[test]
fn dimensions_with_hint_image_only() {
    let v = variants();
    let n = Notification { has_app_image: false, has_hint_image: true };
    assert_eq!(v.get_dimensions(&n), &v.dimensions_image_hint);
    assert_eq!(v.get_dimensions(&n).width, MinMax { min: 2, max: 102 });
}

#[test]
fn dimensions_without_image() {
    let v = variants();
    let n = Notification { has_app_image: false, has_hint_image: false };
    assert_eq!(v.get_dimensions(&n), &v.dimensions);
    assert_eq!(v.get_dimensions(&n).width, MinMax { min: 1, max: 101 });
}

#[test]
fn default_dimensions_are_zero() {
    let d = TextDimensions::default();
    assert_eq!(d.width, MinMax { min: 0, max: 0 });
    assert_eq!(d.height, MinMax { min: 0, max: 0 });
    assert_eq!(MinMax::default(), MinMax { min: 0, max: 0 });
}
