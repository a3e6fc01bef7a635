//! Banners and the decoding of their codes.
//!
//! A code is ASCII text: one hexadecimal digit for the base colour, then
//! groups of three characters, two hexadecimal digits for a pattern's ordinal
//! and one for a colour's.  At most sixteen groups are read; what follows
//! them, and a last group that is not complete, is ignored.

use vstd::prelude::*;
use vstd::string::*;
use vstd::utf8::is_ascii_chars;
use crate::color::{color_of, Color};
use crate::error::{ParseError, ParseFailure};
use crate::hex::{all_digits, byte_value, digit, is_digit, lemma_short_numbers};
use crate::pattern::{pattern_of, Pattern};

verus! {

/// One layer of a banner: a pattern and the colour it is dyed with.
#[derive(Debug, Clone, Copy, PartialEq, Eq, Structural)]
pub struct BannerPattern {
    pub pattern: Pattern,
    pub color: Color,
}

/// A decoded banner: the colour of its ground and its layers, the lowest
/// first.
#[derive(Debug, Clone, PartialEq, Eq)]
pub struct Banner {
    pub color: Color,
    pub patterns: Vec<BannerPattern>,
}

/// A [`Banner`] with its layers as a sequence.
pub ghost struct BannerView {
    pub color: Color,
    pub patterns: Seq<BannerPattern>,
}

impl View for Banner {
    type V = BannerView;

    open spec fn view(&self) -> BannerView {
        BannerView { color: self.color, patterns: self.patterns@ }
    }
}

/// The most layers a code can give a banner.
pub const MAX_LAYERS: usize = 16;

impl BannerView {
    /// What holds of every decoded banner: at most sixteen layers, none of
    /// them of the pattern `Base`.
    pub open spec fn wf(self) -> bool {
        &&& self.patterns.len() <= 16
        &&& forall|k: int| 0 <= k < self.patterns.len() ==> (#[trigger] self.patterns[k]).pattern
            != Pattern::Base
    }
}

/// How many layers a code of `len` characters gives: one for each three
/// characters after the first, and never more than sixteen.
pub open spec fn layer_count(len: nat) -> nat {
    if len < 4 {
        0
    } else if (len - 1) / 3 < 16 {
        ((len - 1) / 3) as nat
    } else {
        16
    }
}

/// The `k`-th group of the code as a layer: its pattern first, then its
/// colour; the pattern's error comes before the colour's.
pub open spec fn layer_at(s: Seq<char>, k: nat) -> Result<BannerPattern, ParseFailure> {
    let start = (1 + 3 * k) as int;
    match pattern_of(s.subrange(start, start + 2)) {
        Err(e) => Err(e),
        Ok(pattern) => match color_of(s.subrange(start + 2, start + 3)) {
            Err(e) => Err(e),
            Ok(color) => Ok(BannerPattern { pattern, color }),
        },
    }
}

/// The first `k` groups of the code as layers, or the error of the first
/// group that has one.
pub open spec fn layers(s: Seq<char>, k: nat) -> Result<Seq<BannerPattern>, ParseFailure>
    decreases k,
{
    if k == 0 {
        Ok(Seq::empty())
    } else {
        match layers(s, (k - 1) as nat) {
            Err(e) => Err(e),
            Ok(below) => match layer_at(s, (k - 1) as nat) {
                Err(e) => Err(e),
                Ok(layer) => Ok(below.push(layer)),
            },
        }
    }
}

/// What a code says: the banner it writes, or why it writes none.
pub open spec fn decode(s: Seq<char>) -> Result<BannerView, ParseFailure> {
    if s.len() == 0 {
        Err(ParseFailure::Empty)
    } else if !is_ascii_chars(s) {
        Err(ParseFailure::InvalidBannerString)
    } else {
        match color_of(s.subrange(0, 1)) {
            Err(e) => Err(e),
            Ok(color) => match layers(s, layer_count(s.len())) {
                Err(e) => Err(e),
                Ok(patterns) => Ok(BannerView { color, patterns }),
            },
        }
    }
}

/// Layers that were read are as many as were asked for, and none is of the
/// pattern `Base`.
pub proof fn lemma_layers_wf(s: Seq<char>, k: nat)
    ensures
        layers(s, k) matches Ok(l) ==> l.len() == k && forall|j: int|
            0 <= j < l.len() ==> (#[trigger] l[j]).pattern != Pattern::Base,
    decreases k,
{
    if k > 0 {
        lemma_layers_wf(s, (k - 1) as nat);
    }
}

/// A decoded banner has as many layers as the length of its code gives, at
/// most sixteen, and none of them is of the pattern `Base`.
pub proof fn lemma_decode_wf(s: Seq<char>)
    ensures
        decode(s) matches Ok(b) ==> b.wf() && b.patterns.len() == layer_count(s.len()),
{
    lemma_layers_wf(s, layer_count(s.len()));
}

/// Whether the `k`-th group of the code is well written: three hexadecimal
/// digits, the first two of which write a number from 1 to 42.
pub open spec fn group_ok(s: Seq<char>, k: nat) -> bool {
    let start = (1 + 3 * k) as int;
    &&& is_digit(s[start])
    &&& is_digit(s[start + 1])
    &&& is_digit(s[start + 2])
    &&& 1 <= 16 * digit(s[start]) + digit(s[start + 1]) <= 42
}

/// A single character is read as a colour exactly if it is a hexadecimal
/// digit.
pub proof fn lemma_color_of_one(t: Seq<char>)
    requires
        t.len() == 1,
    ensures
        color_of(t) is Ok <==> is_digit(t[0]),
        !is_digit(t[0]) ==> color_of(t) == Err::<Color, ParseFailure>(ParseFailure::MalformedDigit),
{
    lemma_short_numbers(t);
    if is_digit(t[0]) {
        assert(all_digits(t));
        Color::lemma_at(digit(t[0]) as int);
    } else {
        assert(!all_digits(t));
    }
}

/// Two characters are read as a layer's pattern exactly if both are
/// hexadecimal digits and they write a number from 1 to 42.
pub proof fn lemma_pattern_of_two(t: Seq<char>)
    requires
        t.len() == 2,
    ensures
        pattern_of(t) is Ok <==> is_digit(t[0]) && is_digit(t[1]) && 1 <= 16 * digit(t[0]) + digit(
            t[1],
        ) <= 42,
        !(is_digit(t[0]) && is_digit(t[1])) ==> pattern_of(t) == Err::<Pattern, ParseFailure>(
            ParseFailure::MalformedDigit,
        ),
{
    lemma_short_numbers(t);
    if is_digit(t[0]) && is_digit(t[1]) {
        assert(all_digits(t));
        let v = 16 * digit(t[0]) + digit(t[1]);
        assert(byte_value(t) == Some(v as u8));
        Pattern::lemma_at(v as int);
        Pattern::Base.lemma_ordinal();
    } else {
        assert(!all_digits(t));
    }
}

/// A group inside the code is read as a layer exactly if it is well written.
pub proof fn lemma_layer_at(s: Seq<char>, k: nat)
    requires
        4 + 3 * k <= s.len(),
    ensures
        layer_at(s, k) is Ok <==> group_ok(s, k),
{
    let start = (1 + 3 * k) as int;
    lemma_pattern_of_two(s.subrange(start, start + 2));
    lemma_color_of_one(s.subrange(start + 2, start + 3));
}

/// The first `m` groups are read exactly if each of them is well written.
pub proof fn lemma_layers_ok(s: Seq<char>, m: nat)
    requires
        1 + 3 * m <= s.len(),
    ensures
        layers(s, m) is Ok <==> forall|k: nat| k < m ==> group_ok(s, k),
    decreases m,
{
    if m > 0 {
        lemma_layers_ok(s, (m - 1) as nat);
        lemma_layer_at(s, (m - 1) as nat);
        if layers(s, m) is Ok {
            assert forall|k: nat| k < m implies group_ok(s, k) by {
                if k < m - 1 {
                } else {
                    assert(k == (m - 1) as nat);
                }
            }
        }
    }
}

/// When a code is accepted: it is not empty, all of it is ASCII, its first
/// character is a hexadecimal digit, and each group that is read is well
/// written.  What follows the groups that are read never matters.
pub proof fn lemma_decode_accepts(s: Seq<char>)
    ensures
        decode(s) is Ok <==> {
            &&& s.len() > 0
            &&& is_ascii_chars(s)
            &&& is_digit(s[0])
            &&& forall|k: nat| k < layer_count(s.len()) ==> group_ok(s, k)
        },
{
    if s.len() > 0 {
        lemma_color_of_one(s.subrange(0, 1));
        lemma_layers_ok(s, layer_count(s.len()));
    }
}

/// In a decoded banner every colour's ordinal lies in 0 to 15 and every
/// layer's pattern has an ordinal in 1 to 42.
pub proof fn lemma_decoded_ordinals(s: Seq<char>)
    ensures
        decode(s) matches Ok(b) ==> {
            &&& 0 <= b.color.spec_ordinal() <= 15
            &&& forall|k: int|
                0 <= k < b.patterns.len() ==> {
                    &&& 1 <= (#[trigger] b.patterns[k]).pattern.spec_ordinal() <= 42
                    &&& 0 <= b.patterns[k].color.spec_ordinal() <= 15
                }
        },
{
    lemma_decode_wf(s);
    if let Ok(b) = decode(s) {
        b.color.lemma_ordinal();
        assert forall|k: int| 0 <= k < b.patterns.len() implies {
            &&& 1 <= (#[trigger] b.patterns[k]).pattern.spec_ordinal() <= 42
            &&& 0 <= b.patterns[k].color.spec_ordinal() <= 15
        } by {
            b.patterns[k].pattern.lemma_ordinal();
            b.patterns[k].color.lemma_ordinal();
        }
    }
}

impl Banner {
    /// Decodes a banner code.
    pub fn parse_banner(banner_string: &str) -> (r: Result<Banner, ParseError>)
        ensures
            match r {
                Ok(b) => decode(banner_string@) == Ok::<BannerView, ParseFailure>(b@),
                Err(e) => decode(banner_string@) == Err::<BannerView, ParseFailure>(e@),
            },
            r matches Ok(b) ==> b@.wf() && b@.patterns.len() == layer_count(banner_string@.len()),
    {
        if banner_string.is_empty() {
            return Err(ParseError::Empty);
        }
        if !banner_string.is_ascii() {
            return Err(ParseError::InvalidBannerString);
        }
        proof {
            is_ascii_spec_bytes(banner_string);
            lemma_decode_wf(banner_string@);
        }
        let length = banner_string.as_bytes().len();
        assert(length == banner_string@.len());
        let banner_color = match Color::parse_color(banner_string.substring_ascii(0, 1)) {
            Ok(color) => color,
            Err(e) => {
                return Err(e);
            },
        };
        let mut banner_patterns: Vec<BannerPattern> = Vec::new();
        let mut index: usize = 1;
        while index < length.saturating_sub(2) && banner_patterns.len() < MAX_LAYERS
            invariant
                length == banner_string@.len(),
                banner_string.is_ascii(),
                index == 1 + 3 * banner_patterns@.len(),
                banner_patterns@.len() <= layer_count(length as nat),
                index <= length + 2,
                layers(banner_string@, banner_patterns@.len()) == Ok::<
                    Seq<BannerPattern>,
                    ParseFailure,
                >(banner_patterns@),
                color_of(banner_string@.subrange(0, 1)) == Ok::<Color, ParseFailure>(banner_color),
            decreases length + 2 - index,
        {
            let ghost k = banner_patterns@.len();
            assert(k < layer_count(length as nat));
            let pattern = match Pattern::parse_pattern(
                banner_string.substring_ascii(index, index + 2),
            ) {
                Ok(pattern) => pattern,
                Err(e) => {
                    proof {
                        lemma_layers_fail(banner_string@, k, layer_count(length as nat));
                    }
                    return Err(e);
                },
            };
            index += 2;
            let color = match Color::parse_color(banner_string.substring_ascii(index, index + 1)) {
                Ok(color) => color,
                Err(e) => {
                    proof {
                        lemma_layers_fail(banner_string@, k, layer_count(length as nat));
                    }
                    return Err(e);
                },
            };
            index += 1;
            banner_patterns.push(BannerPattern { color, pattern });
        }
        Ok(Banner { color: banner_color, patterns: banner_patterns })
    }
}

/// Once a group has an error, reading further groups gives that same error.
pub proof fn lemma_layers_fail(s: Seq<char>, k: nat, n: nat)
    requires
        k < n,
        layers(s, k) is Ok,
        layer_at(s, k) is Err,
    ensures
        layers(s, n) == Err::<Seq<BannerPattern>, ParseFailure>(layer_at(s, k)->Err_0),
    decreases n,
{
    if n > k + 1 {
        lemma_layers_fail(s, k, (n - 1) as nat);
    }
}

} // verus!
