//! The catalogue of stencil patterns, in a fixed order.

use vstd::prelude::*;
use vstd::string::*;
use crate::error::{ParseError, ParseFailure};
use crate::hex::{byte_value, parse_byte};
use crate::text::same_text;

verus! {

/// A stencil pattern.  The order of the variants is part of the code format:
/// a layer names its pattern by its position in this list.  `Base` is the
/// stencil of the banner's ground and is never chosen by a layer.
#[derive(Debug, Clone, Copy, PartialEq, Eq, Structural, Hash)]
pub enum Pattern {
    Base,
    Border,
    Bricks,
    Circle,
    Creeper,
    Cross,
    CurlyBorder,
    DiagonalLeft,
    DiagonalRight,
    DiagonalUpLeft,
    DiagonalUpRight,
    Flow,
    Flower,
    Globe,
    Gradient,
    GradientUp,
    Guster,
    HalfHorizontal,
    HalfHorizontalBottom,
    HalfVertical,
    HalfVerticalRight,
    Mojang,
    Piglin,
    Rhombus,
    Skull,
    SmallStripes,
    SquareBottomLeft,
    SquareBottomRight,
    SquareTopLeft,
    SquareTopRight,
    StraightCross,
    StripeBottom,
    StripeCenter,
    StripeDownleft,
    StripeDownright,
    StripeLeft,
    StripeMiddle,
    StripeRight,
    StripeTop,
    TrianglesBottom,
    TrianglesTop,
    TriangleBottom,
    TriangleTop,
}

impl Pattern {
    /// The position of the pattern in the catalogue, counted from zero.
    pub open spec fn spec_ordinal(self) -> int {
        match self {
            Pattern::Base => 0,
            Pattern::Border => 1,
            Pattern::Bricks => 2,
            Pattern::Circle => 3,
            Pattern::Creeper => 4,
            Pattern::Cross => 5,
            Pattern::CurlyBorder => 6,
            Pattern::DiagonalLeft => 7,
            Pattern::DiagonalRight => 8,
            Pattern::DiagonalUpLeft => 9,
            Pattern::DiagonalUpRight => 10,
            Pattern::Flow => 11,
            Pattern::Flower => 12,
            Pattern::Globe => 13,
            Pattern::Gradient => 14,
            Pattern::GradientUp => 15,
            Pattern::Guster => 16,
            Pattern::HalfHorizontal => 17,
            Pattern::HalfHorizontalBottom => 18,
            Pattern::HalfVertical => 19,
            Pattern::HalfVerticalRight => 20,
            Pattern::Mojang => 21,
            Pattern::Piglin => 22,
            Pattern::Rhombus => 23,
            Pattern::Skull => 24,
            Pattern::SmallStripes => 25,
            Pattern::SquareBottomLeft => 26,
            Pattern::SquareBottomRight => 27,
            Pattern::SquareTopLeft => 28,
            Pattern::SquareTopRight => 29,
            Pattern::StraightCross => 30,
            Pattern::StripeBottom => 31,
            Pattern::StripeCenter => 32,
            Pattern::StripeDownleft => 33,
            Pattern::StripeDownright => 34,
            Pattern::StripeLeft => 35,
            Pattern::StripeMiddle => 36,
            Pattern::StripeRight => 37,
            Pattern::StripeTop => 38,
            Pattern::TrianglesBottom => 39,
            Pattern::TrianglesTop => 40,
            Pattern::TriangleBottom => 41,
            Pattern::TriangleTop => 42,
        }
    }

    /// The pattern at position `n` of the catalogue, if there is one.
    pub open spec fn at(n: int) -> Option<Pattern> {
        if 0 <= n < 43 {
            Some(choose|p: Pattern| p.spec_ordinal() == n)
        } else {
            None
        }
    }

    /// The name under which the pattern's stencil is stored and asked for.
    pub open spec fn spec_name(self) -> Seq<char> {
        match self {
            Pattern::Base => "base"@,
            Pattern::Border => "border"@,
            Pattern::Bricks => "bricks"@,
            Pattern::Circle => "circle"@,
            Pattern::Creeper => "creeper"@,
            Pattern::Cross => "cross"@,
            Pattern::CurlyBorder => "curly_border"@,
            Pattern::DiagonalLeft => "diagonal_left"@,
            Pattern::DiagonalRight => "diagonal_right"@,
            Pattern::DiagonalUpLeft => "diagonal_up_left"@,
            Pattern::DiagonalUpRight => "diagonal_up_right"@,
            Pattern::Flow => "flow"@,
            Pattern::Flower => "flower"@,
            Pattern::Globe => "globe"@,
            Pattern::Gradient => "gradient"@,
            Pattern::GradientUp => "gradient_up"@,
            Pattern::Guster => "guster"@,
            Pattern::HalfHorizontal => "half_horizontal"@,
            Pattern::HalfHorizontalBottom => "half_horizontal_bottom"@,
            Pattern::HalfVertical => "half_vertical"@,
            Pattern::HalfVerticalRight => "half_vertical_right"@,
            Pattern::Mojang => "mojang"@,
            Pattern::Piglin => "piglin"@,
            Pattern::Rhombus => "rhombus"@,
            Pattern::Skull => "skull"@,
            Pattern::SmallStripes => "small_stripes"@,
            Pattern::SquareBottomLeft => "square_bottom_left"@,
            Pattern::SquareBottomRight => "square_bottom_right"@,
            Pattern::SquareTopLeft => "square_top_left"@,
            Pattern::SquareTopRight => "square_top_right"@,
            Pattern::StraightCross => "straight_cross"@,
            Pattern::StripeBottom => "stripe_bottom"@,
            Pattern::StripeCenter => "stripe_center"@,
            Pattern::StripeDownleft => "stripe_downleft"@,
            Pattern::StripeDownright => "stripe_downright"@,
            Pattern::StripeLeft => "stripe_left"@,
            Pattern::StripeMiddle => "stripe_middle"@,
            Pattern::StripeRight => "stripe_right"@,
            Pattern::StripeTop => "stripe_top"@,
            Pattern::TrianglesBottom => "triangles_bottom"@,
            Pattern::TrianglesTop => "triangles_top"@,
            Pattern::TriangleBottom => "triangle_bottom"@,
            Pattern::TriangleTop => "triangle_top"@,
        }
    }

    /// The first pattern of the catalogue whose name is `s`, if there is one.
    pub open spec fn named(s: Seq<char>) -> Option<Pattern> {
        if exists|p: Pattern| p.spec_name() == s {
            Some(
                choose|p: Pattern|
                    p.spec_name() == s && forall|q: Pattern|
                        q.spec_name() == s ==> p.spec_ordinal() <= q.spec_ordinal(),
            )
        } else {
            None
        }
    }

    /// No two patterns share a name, so that a pattern is found again by
    /// its name.
    pub proof fn lemma_name(self)
        ensures
            forall|other: Pattern| other.spec_name() == self.spec_name() ==> other == self,
            Pattern::named(self.spec_name()) == Some(self),
    {
        reveal_strlit("base");
        reveal_strlit("border");
        reveal_strlit("bricks");
        reveal_strlit("circle");
        reveal_strlit("creeper");
        reveal_strlit("cross");
        reveal_strlit("curly_border");
        reveal_strlit("diagonal_left");
        reveal_strlit("diagonal_right");
        reveal_strlit("diagonal_up_left");
        reveal_strlit("diagonal_up_right");
        reveal_strlit("flow");
        reveal_strlit("flower");
        reveal_strlit("globe");
        reveal_strlit("gradient");
        reveal_strlit("gradient_up");
        reveal_strlit("guster");
        reveal_strlit("half_horizontal");
        reveal_strlit("half_horizontal_bottom");
        reveal_strlit("half_vertical");
        reveal_strlit("half_vertical_right");
        reveal_strlit("mojang");
        reveal_strlit("piglin");
        reveal_strlit("rhombus");
        reveal_strlit("skull");
        reveal_strlit("small_stripes");
        reveal_strlit("square_bottom_left");
        reveal_strlit("square_bottom_right");
        reveal_strlit("square_top_left");
        reveal_strlit("square_top_right");
        reveal_strlit("straight_cross");
        reveal_strlit("stripe_bottom");
        reveal_strlit("stripe_center");
        reveal_strlit("stripe_downleft");
        reveal_strlit("stripe_downright");
        reveal_strlit("stripe_left");
        reveal_strlit("stripe_middle");
        reveal_strlit("stripe_right");
        reveal_strlit("stripe_top");
        reveal_strlit("triangles_bottom");
        reveal_strlit("triangles_top");
        reveal_strlit("triangle_bottom");
        reveal_strlit("triangle_top");
        assert forall|other: Pattern| other.spec_name() == self.spec_name() implies other
            == self by {
            if other != self {
                // Two names differ in length or at one of a few places.
                let a = self.spec_name();
                let b = other.spec_name();
                assert(a.len() != b.len() || a[0] != b[0] || a[1] != b[1] || a[2] != b[2] || a[3]
                    != b[3] || a[a.len() - 1] != b[b.len() - 1] || a[a.len() - 3] != b[b.len() - 3]
                    || a[7] != b[7] || a[8] != b[8] || a[9] != b[9] || a[10] != b[10]);
            }
        }
    }

    /// Every ordinal lies in the catalogue's range, no two patterns share
    /// one, and each position of the range holds the pattern with that
    /// ordinal.
    pub proof fn lemma_ordinal(self)
        ensures
            0 <= self.spec_ordinal() <= 42,
            forall|other: Pattern| other.spec_ordinal() == self.spec_ordinal() ==> other == self,
            Pattern::at(self.spec_ordinal()) == Some(self),
    {
    }

    /// Each position of the catalogue holds the pattern with that ordinal,
    /// and no other position holds one.
    pub proof fn lemma_at(n: int)
        ensures
            match Pattern::at(n) {
                Some(x) => 0 <= n < 43 && x.spec_ordinal() == n,
                None => !(0 <= n < 43),
            },
    {
        if n == 0 {
            assert(Pattern::Base.spec_ordinal() == n);
        } else if n == 1 {
            assert(Pattern::Border.spec_ordinal() == n);
        } else if n == 2 {
            assert(Pattern::Bricks.spec_ordinal() == n);
        } else if n == 3 {
            assert(Pattern::Circle.spec_ordinal() == n);
        } else if n == 4 {
            assert(Pattern::Creeper.spec_ordinal() == n);
        } else if n == 5 {
            assert(Pattern::Cross.spec_ordinal() == n);
        } else if n == 6 {
            assert(Pattern::CurlyBorder.spec_ordinal() == n);
        } else if n == 7 {
            assert(Pattern::DiagonalLeft.spec_ordinal() == n);
        } else if n == 8 {
            assert(Pattern::DiagonalRight.spec_ordinal() == n);
        } else if n == 9 {
            assert(Pattern::DiagonalUpLeft.spec_ordinal() == n);
        } else if n == 10 {
            assert(Pattern::DiagonalUpRight.spec_ordinal() == n);
        } else if n == 11 {
            assert(Pattern::Flow.spec_ordinal() == n);
        } else if n == 12 {
            assert(Pattern::Flower.spec_ordinal() == n);
        } else if n == 13 {
            assert(Pattern::Globe.spec_ordinal() == n);
        } else if n == 14 {
            assert(Pattern::Gradient.spec_ordinal() == n);
        } else if n == 15 {
            assert(Pattern::GradientUp.spec_ordinal() == n);
        } else if n == 16 {
            assert(Pattern::Guster.spec_ordinal() == n);
        } else if n == 17 {
            assert(Pattern::HalfHorizontal.spec_ordinal() == n);
        } else if n == 18 {
            assert(Pattern::HalfHorizontalBottom.spec_ordinal() == n);
        } else if n == 19 {
            assert(Pattern::HalfVertical.spec_ordinal() == n);
        } else if n == 20 {
            assert(Pattern::HalfVerticalRight.spec_ordinal() == n);
        } else if n == 21 {
            assert(Pattern::Mojang.spec_ordinal() == n);
        } else if n == 22 {
            assert(Pattern::Piglin.spec_ordinal() == n);
        } else if n == 23 {
            assert(Pattern::Rhombus.spec_ordinal() == n);
        } else if n == 24 {
            assert(Pattern::Skull.spec_ordinal() == n);
        } else if n == 25 {
            assert(Pattern::SmallStripes.spec_ordinal() == n);
        } else if n == 26 {
            assert(Pattern::SquareBottomLeft.spec_ordinal() == n);
        } else if n == 27 {
            assert(Pattern::SquareBottomRight.spec_ordinal() == n);
        } else if n == 28 {
            assert(Pattern::SquareTopLeft.spec_ordinal() == n);
        } else if n == 29 {
            assert(Pattern::SquareTopRight.spec_ordinal() == n);
        } else if n == 30 {
            assert(Pattern::StraightCross.spec_ordinal() == n);
        } else if n == 31 {
            assert(Pattern::StripeBottom.spec_ordinal() == n);
        } else if n == 32 {
            assert(Pattern::StripeCenter.spec_ordinal() == n);
        } else if n == 33 {
            assert(Pattern::StripeDownleft.spec_ordinal() == n);
        } else if n == 34 {
            assert(Pattern::StripeDownright.spec_ordinal() == n);
        } else if n == 35 {
            assert(Pattern::StripeLeft.spec_ordinal() == n);
        } else if n == 36 {
            assert(Pattern::StripeMiddle.spec_ordinal() == n);
        } else if n == 37 {
            assert(Pattern::StripeRight.spec_ordinal() == n);
        } else if n == 38 {
            assert(Pattern::StripeTop.spec_ordinal() == n);
        } else if n == 39 {
            assert(Pattern::TrianglesBottom.spec_ordinal() == n);
        } else if n == 40 {
            assert(Pattern::TrianglesTop.spec_ordinal() == n);
        } else if n == 41 {
            assert(Pattern::TriangleBottom.spec_ordinal() == n);
        } else if n == 42 {
            assert(Pattern::TriangleTop.spec_ordinal() == n);
        }
    }

    /// The position of the pattern in the catalogue.
    pub fn ordinal(&self) -> (n: i8)
        ensures
            n == self.spec_ordinal(),
    {
        match self {
            Pattern::Base => 0,
            Pattern::Border => 1,
            Pattern::Bricks => 2,
            Pattern::Circle => 3,
            Pattern::Creeper => 4,
            Pattern::Cross => 5,
            Pattern::CurlyBorder => 6,
            Pattern::DiagonalLeft => 7,
            Pattern::DiagonalRight => 8,
            Pattern::DiagonalUpLeft => 9,
            Pattern::DiagonalUpRight => 10,
            Pattern::Flow => 11,
            Pattern::Flower => 12,
            Pattern::Globe => 13,
            Pattern::Gradient => 14,
            Pattern::GradientUp => 15,
            Pattern::Guster => 16,
            Pattern::HalfHorizontal => 17,
            Pattern::HalfHorizontalBottom => 18,
            Pattern::HalfVertical => 19,
            Pattern::HalfVerticalRight => 20,
            Pattern::Mojang => 21,
            Pattern::Piglin => 22,
            Pattern::Rhombus => 23,
            Pattern::Skull => 24,
            Pattern::SmallStripes => 25,
            Pattern::SquareBottomLeft => 26,
            Pattern::SquareBottomRight => 27,
            Pattern::SquareTopLeft => 28,
            Pattern::SquareTopRight => 29,
            Pattern::StraightCross => 30,
            Pattern::StripeBottom => 31,
            Pattern::StripeCenter => 32,
            Pattern::StripeDownleft => 33,
            Pattern::StripeDownright => 34,
            Pattern::StripeLeft => 35,
            Pattern::StripeMiddle => 36,
            Pattern::StripeRight => 37,
            Pattern::StripeTop => 38,
            Pattern::TrianglesBottom => 39,
            Pattern::TrianglesTop => 40,
            Pattern::TriangleBottom => 41,
            Pattern::TriangleTop => 42,
        }
    }

    /// The pattern at position `n` of the catalogue; `None` outside 0 to 42.
    pub fn from_ordinal(n: i8) -> (r: Option<Pattern>)
        ensures
            r == Pattern::at(n as int),
            r matches Some(x) ==> x.spec_ordinal() == n,
            r is Some <==> 0 <= n < 43,
    {
        let r = match n {
            0 => Some(Pattern::Base),
            1 => Some(Pattern::Border),
            2 => Some(Pattern::Bricks),
            3 => Some(Pattern::Circle),
            4 => Some(Pattern::Creeper),
            5 => Some(Pattern::Cross),
            6 => Some(Pattern::CurlyBorder),
            7 => Some(Pattern::DiagonalLeft),
            8 => Some(Pattern::DiagonalRight),
            9 => Some(Pattern::DiagonalUpLeft),
            10 => Some(Pattern::DiagonalUpRight),
            11 => Some(Pattern::Flow),
            12 => Some(Pattern::Flower),
            13 => Some(Pattern::Globe),
            14 => Some(Pattern::Gradient),
            15 => Some(Pattern::GradientUp),
            16 => Some(Pattern::Guster),
            17 => Some(Pattern::HalfHorizontal),
            18 => Some(Pattern::HalfHorizontalBottom),
            19 => Some(Pattern::HalfVertical),
            20 => Some(Pattern::HalfVerticalRight),
            21 => Some(Pattern::Mojang),
            22 => Some(Pattern::Piglin),
            23 => Some(Pattern::Rhombus),
            24 => Some(Pattern::Skull),
            25 => Some(Pattern::SmallStripes),
            26 => Some(Pattern::SquareBottomLeft),
            27 => Some(Pattern::SquareBottomRight),
            28 => Some(Pattern::SquareTopLeft),
            29 => Some(Pattern::SquareTopRight),
            30 => Some(Pattern::StraightCross),
            31 => Some(Pattern::StripeBottom),
            32 => Some(Pattern::StripeCenter),
            33 => Some(Pattern::StripeDownleft),
            34 => Some(Pattern::StripeDownright),
            35 => Some(Pattern::StripeLeft),
            36 => Some(Pattern::StripeMiddle),
            37 => Some(Pattern::StripeRight),
            38 => Some(Pattern::StripeTop),
            39 => Some(Pattern::TrianglesBottom),
            40 => Some(Pattern::TrianglesTop),
            41 => Some(Pattern::TriangleBottom),
            42 => Some(Pattern::TriangleTop),
            _ => None,
        };
        proof {
            if let Some(p) = r {
                p.lemma_ordinal();
            }
        }
        r
    }

    /// The name under which the pattern's stencil is stored and asked for.
    pub fn name(&self) -> (r: &'static str)
        ensures
            r@ == self.spec_name(),
    {
        match self {
            Pattern::Base => "base",
            Pattern::Border => "border",
            Pattern::Bricks => "bricks",
            Pattern::Circle => "circle",
            Pattern::Creeper => "creeper",
            Pattern::Cross => "cross",
            Pattern::CurlyBorder => "curly_border",
            Pattern::DiagonalLeft => "diagonal_left",
            Pattern::DiagonalRight => "diagonal_right",
            Pattern::DiagonalUpLeft => "diagonal_up_left",
            Pattern::DiagonalUpRight => "diagonal_up_right",
            Pattern::Flow => "flow",
            Pattern::Flower => "flower",
            Pattern::Globe => "globe",
            Pattern::Gradient => "gradient",
            Pattern::GradientUp => "gradient_up",
            Pattern::Guster => "guster",
            Pattern::HalfHorizontal => "half_horizontal",
            Pattern::HalfHorizontalBottom => "half_horizontal_bottom",
            Pattern::HalfVertical => "half_vertical",
            Pattern::HalfVerticalRight => "half_vertical_right",
            Pattern::Mojang => "mojang",
            Pattern::Piglin => "piglin",
            Pattern::Rhombus => "rhombus",
            Pattern::Skull => "skull",
            Pattern::SmallStripes => "small_stripes",
            Pattern::SquareBottomLeft => "square_bottom_left",
            Pattern::SquareBottomRight => "square_bottom_right",
            Pattern::SquareTopLeft => "square_top_left",
            Pattern::SquareTopRight => "square_top_right",
            Pattern::StraightCross => "straight_cross",
            Pattern::StripeBottom => "stripe_bottom",
            Pattern::StripeCenter => "stripe_center",
            Pattern::StripeDownleft => "stripe_downleft",
            Pattern::StripeDownright => "stripe_downright",
            Pattern::StripeLeft => "stripe_left",
            Pattern::StripeMiddle => "stripe_middle",
            Pattern::StripeRight => "stripe_right",
            Pattern::StripeTop => "stripe_top",
            Pattern::TrianglesBottom => "triangles_bottom",
            Pattern::TrianglesTop => "triangles_top",
            Pattern::TriangleBottom => "triangle_bottom",
            Pattern::TriangleTop => "triangle_top",
        }
    }
}

/// What a slice of a code says as a layer's pattern: the pattern whose
/// ordinal the slice writes in hexadecimal, which must not be `Base`.
pub open spec fn pattern_of(s: Seq<char>) -> Result<Pattern, ParseFailure> {
    match byte_value(s) {
        None => Err(ParseFailure::MalformedDigit),
        Some(n) => match Pattern::at(n as int) {
            Some(p) => if p == Pattern::Base {
                Err(ParseFailure::InvalidPattern(s))
            } else {
                Ok(p)
            },
            None => Err(ParseFailure::InvalidPattern(s)),
        },
    }
}

impl Pattern {
    /// Reads a layer's pattern from the hexadecimal text of its ordinal.
    pub fn parse_pattern(string: &str) -> (r: Result<Pattern, ParseError>)
        ensures
            match r {
                Ok(p) => pattern_of(string@) == Ok::<Pattern, ParseFailure>(p),
                Err(e) => pattern_of(string@) == Err::<Pattern, ParseFailure>(e@),
            },
    {
        let pattern_code = match parse_byte(string) {
            Some(code) => code,
            None => {
                return Err(ParseError::MalformedDigit);
            },
        };
        let found = if pattern_code > 127 {
            None
        } else {
            Pattern::from_ordinal(pattern_code as i8)
        };
        match found {
            Some(Pattern::Base) => Err(ParseError::InvalidPattern(string.to_owned())),
            Some(pattern) => Ok(pattern),
            None => Err(ParseError::InvalidPattern(string.to_owned())),
        }
    }

    /// Finds the pattern with the given name.
    pub fn from_name(name: &str) -> (r: Option<Pattern>)
        ensures
            r == Pattern::named(name@),
    {
        let mut i: i8 = 0;
        while i < 43
            invariant
                0 <= i <= 43,
                forall|q: Pattern| q.spec_ordinal() < i ==> q.spec_name() != name@,
            decreases 43 - i,
        {
            match Pattern::from_ordinal(i) {
                Some(p) => {
                    proof {
                        p.lemma_ordinal();
                    }
                    if same_text(name, p.name()) {
                        proof {
                            assert(p.spec_name() == name@ && forall|q: Pattern|
                                q.spec_name() == name@ ==> p.spec_ordinal() <= q.spec_ordinal());
                            let w = choose|w: Pattern|
                                w.spec_name() == name@ && forall|q: Pattern|
                                    q.spec_name() == name@ ==> w.spec_ordinal() <= q.spec_ordinal();
                            assert(w.spec_ordinal() <= p.spec_ordinal());
                            assert(p.spec_ordinal() <= w.spec_ordinal());
                            w.lemma_ordinal();
                        }
                        return Some(p);
                    }
                    assert forall|q: Pattern| q.spec_ordinal() < i + 1 implies q.spec_name()
                        != name@ by {
                        q.lemma_ordinal();
                    }
                },
                None => {
                    assert(false);
                },
            }
            i += 1;
        }
        assert forall|q: Pattern| q.spec_name() != name@ by {
            q.lemma_ordinal();
        }
        None
    }
}

} // verus!
