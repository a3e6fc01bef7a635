use bannergen::color::Color;
use bannergen::pattern::Pattern;

const COLORS: [(Color, u32); 16] = [
    (Color::White, 0xF9FFFE),
    (Color::Orange, 0xF9801D),
    (Color::Magenta, 0xC74EBD),
    (Color::LightBlue, 0x3AB3DA),
    (Color::Yellow, 0xFED83D),
    (Color::Lime, 0x80C71F),
    (Color::Pink, 0xF38BAA),
    (Color::Gray, 0x474F52),
    (Color::LightGray, 0x9D9D97),
    (Color::Cyan, 0x169C9C),
    (Color::Purple, 0x8932B8),
    (Color::Blue, 0x3C44AA),
    (Color::Brown, 0x835432),
    (Color::Green, 0x5E7C16),
    (Color::Red, 0xB02E26),
    (Color::Black, 0x1D1D21),
];

const PATTERNS: [(Pattern, &str); 43] = [
    (Pattern::Base, "base"),
    (Pattern::Border, "border"),
    (Pattern::Bricks, "bricks"),
    (Pattern::Circle, "circle"),
    (Pattern::Creeper, "creeper"),
    (Pattern::Cross, "cross"),
    (Pattern::CurlyBorder, "curly_border"),
    (Pattern::DiagonalLeft, "diagonal_left"),
    (Pattern::DiagonalRight, "diagonal_right"),
    (Pattern::DiagonalUpLeft, "diagonal_up_left"),
    (Pattern::DiagonalUpRight, "diagonal_up_right"),
    (Pattern::Flow, "flow"),
    (Pattern::Flower, "flower"),
    (Pattern::Globe, "globe"),
    (Pattern::Gradient, "gradient"),
    (Pattern::GradientUp, "gradient_up"),
    (Pattern::Guster, "guster"),
    (Pattern::HalfHorizontal, "half_horizontal"),
    (Pattern::HalfHorizontalBottom, "half_horizontal_bottom"),
    (Pattern::HalfVertical, "half_vertical"),
    (Pattern::HalfVerticalRight, "half_vertical_right"),
    (Pattern::Mojang, "mojang"),
    (Pattern::Piglin, "piglin"),
    (Pattern::Rhombus, "rhombus"),
    (Pattern::Skull, "skull"),
    (Pattern::SmallStripes, "small_stripes"),
    (Pattern::SquareBottomLeft, "square_bottom_left"),
    (Pattern::SquareBottomRight, "square_bottom_right"),
    (Pattern::SquareTopLeft, "square_top_left"),
    (Pattern::SquareTopRight, "square_top_right"),
    (Pattern::StraightCross, "straight_cross"),
    (Pattern::StripeBottom, "stripe_bottom"),
    (Pattern::StripeCenter, "stripe_center"),
    (Pattern::StripeDownleft, "stripe_downleft"),
    (Pattern::StripeDownright, "stripe_downright"),
    (Pattern::StripeLeft, "stripe_left"),
    (Pattern::StripeMiddle, "stripe_middle"),
    (Pattern::StripeRight, "stripe_right"),
    (Pattern::StripeTop, "stripe_top"),
    (Pattern::TrianglesBottom, "triangles_bottom"),
    (Pattern::TrianglesTop, "triangles_top"),
    (Pattern::TriangleBottom, "triangle_bottom"),
    (Pattern::TriangleTop, "triangle_top"),
];

#[test]
fn color_table_is_exact() {
    for (i, (c, hex)) in COLORS.iter().enumerate() {
        assert_eq!(c.to_hex(), *hex);
        assert_eq!(c.ordinal() as usize, i);
        assert_eq!(Color::from_ordinal(i as i8), Some(*c));
        let (r, g, b) = c.to_rgb();
        assert_eq!(((r as u32) << 16) | ((g as u32) << 8) | b as u32, *hex);
    }
}

#[test]
fn red_has_its_channels() {
    assert_eq!(Color::Red.to_rgb(), (0xB0, 0x2E, 0x26));
    assert_eq!(Color::White.to_rgb(), (0xF9, 0xFF, 0xFE));
    assert_eq!(Color::Black.to_rgb(), (0x1D, 0x1D, 0x21));
}

#[test]
fn color_ordinals_outside_range_have_no_color() {
    assert_eq!(Color::from_ordinal(16), None);
    assert_eq!(Color::from_ordinal(-1), None);
    assert_eq!(Color::from_ordinal(127), None);
    assert_eq!(Color::from_ordinal(-128), None);
}

#[test]
fn pattern_catalogue_is_in_order() {
    for (i, (p, name)) in PATTERNS.iter().enumerate() {
        assert_eq!(p.ordinal() as usize, i);
        assert_eq!(Pattern::from_ordinal(i as i8), Some(*p));
        assert_eq!(p.name(), *name);
        assert_eq!(Pattern::from_name(name), Some(*p));
    }
}

#[test]
fn pattern_ordinals_outside_range_have_no_pattern() {
    assert_eq!(Pattern::from_ordinal(43), None);
    assert_eq!(Pattern::from_ordinal(-1), None);
    assert_eq!(Pattern::from_ordinal(127), None);
}

#[test]
fn unknown_names_have_no_pattern() {
    assert_eq!(Pattern::from_name(""), None);
    assert_eq!(Pattern::from_name("Base"), None);
    assert_eq!(Pattern::from_name("base "), None);
    assert_eq!(Pattern::from_name("bas"), None);
    assert_eq!(Pattern::from_name("stripe_down_left"), None);
    assert_eq!(Pattern::from_name("bordér"), None);
}

#[test]
fn color_names_are_lower_case_with_underscores() {
    let names = [
        "white", "orange", "magenta", "light_blue", "yellow", "lime", "pink", "gray",
        "light_gray", "cyan", "purple", "blue", "brown", "green", "red", "black",
    ];
    for (i, (c, _)) in COLORS.iter().enumerate() {
        assert_eq!(c.name(), names[i]);
    }
}
