use bannergen::banner::{Banner, BannerPattern};
use bannergen::color::Color;
use bannergen::error::ParseError;
use bannergen::hex::parse_byte;
use bannergen::pattern::Pattern;

#[test]
fn empty_code_is_refused() {
    assert_eq!(Banner::parse_banner(""), Err(ParseError::Empty));
}

#[test]
fn non_ascii_code_is_refused() {
    assert_eq!(Banner::parse_banner("1é"), Err(ParseError::InvalidBannerString));
    assert_eq!(Banner::parse_banner("é"), Err(ParseError::InvalidBannerString));
}

#[test]
fn single_digit_gives_ground_only() {
    let banner = Banner::parse_banner("1").unwrap();
    assert_eq!(banner, Banner { color: Color::Orange, patterns: vec![] });
}

#[test]
fn one_group_gives_one_layer() {
    let banner = Banner::parse_banner("102f").unwrap();
    assert_eq!(
        banner,
        Banner {
            color: Color::Orange,
            patterns: vec![BannerPattern { pattern: Pattern::Bricks, color: Color::Black }],
        }
    );
}

#[test]
fn fifth_character_of_five_is_left_unread() {
    // The group is "022": pattern "02", colour "2".  The "f" after it begins
    // a group that is not complete.
    let banner = Banner::parse_banner("1022f").unwrap();
    assert_eq!(
        banner,
        Banner {
            color: Color::Orange,
            patterns: vec![BannerPattern { pattern: Pattern::Bricks, color: Color::Magenta }],
        }
    );
}

#[test]
fn letter_outside_hex_is_malformed() {
    assert_eq!(Banner::parse_banner("g"), Err(ParseError::MalformedDigit));
    assert_eq!(Banner::parse_banner("10g0"), Err(ParseError::MalformedDigit));
    assert_eq!(Banner::parse_banner("101g"), Err(ParseError::MalformedDigit));
    assert_eq!(Banner::parse_banner(" "), Err(ParseError::MalformedDigit));
    assert_eq!(Banner::parse_banner("+"), Err(ParseError::MalformedDigit));
    assert_eq!(Banner::parse_banner("-"), Err(ParseError::MalformedDigit));
}

#[test]
fn pattern_out_of_range_is_invalid() {
    assert_eq!(Banner::parse_banner("1ff0"), Err(ParseError::InvalidPattern("ff".to_string())));
    assert_eq!(Banner::parse_banner("12b0"), Err(ParseError::InvalidPattern("2b".to_string())));
    assert_eq!(Banner::parse_banner("1800"), Err(ParseError::InvalidPattern("80".to_string())));
}

#[test]
fn base_is_no_layer_pattern() {
    assert_eq!(Banner::parse_banner("1000"), Err(ParseError::InvalidPattern("00".to_string())));
}

#[test]
fn last_pattern_is_accepted() {
    let banner = Banner::parse_banner("02a3").unwrap();
    assert_eq!(
        banner.patterns,
        vec![BannerPattern { pattern: Pattern::TriangleTop, color: Color::LightBlue }]
    );
    assert_eq!(banner.color, Color::White);
}

#[test]
fn pattern_error_comes_before_color_error() {
    assert_eq!(Banner::parse_banner("1ffg"), Err(ParseError::InvalidPattern("ff".to_string())));
    assert_eq!(Banner::parse_banner("1zzg"), Err(ParseError::MalformedDigit));
}

#[test]
fn first_failing_group_decides() {
    assert_eq!(
        Banner::parse_banner("1010ff0zz0"),
        Err(ParseError::InvalidPattern("ff".to_string()))
    );
    assert_eq!(Banner::parse_banner("1010zz0ff0"), Err(ParseError::MalformedDigit));
}

#[test]
fn incomplete_tail_is_ignored() {
    let want = Banner { color: Color::Orange, patterns: vec![] };
    assert_eq!(Banner::parse_banner("10").unwrap(), want);
    assert_eq!(Banner::parse_banner("102").unwrap(), want);
    assert_eq!(Banner::parse_banner("1zz").unwrap(), want);
    let one = Banner {
        color: Color::Orange,
        patterns: vec![BannerPattern { pattern: Pattern::Border, color: Color::White }],
    };
    assert_eq!(Banner::parse_banner("1010").unwrap(), one);
    assert_eq!(Banner::parse_banner("1010z").unwrap(), one);
    assert_eq!(Banner::parse_banner("1010zz").unwrap(), one);
    assert_eq!(Banner::parse_banner("1010zzz"), Err(ParseError::MalformedDigit));
}

#[test]
fn layer_count_follows_length() {
    for groups in 0..=20usize {
        for tail in 0..3usize {
            let mut code = String::from("a");
            for _ in 0..groups {
                code.push_str("05b");
            }
            for _ in 0..tail {
                code.push('0');
            }
            let banner = Banner::parse_banner(&code).unwrap();
            let expected = std::cmp::min(16, (code.len() - 1) / 3);
            assert_eq!(banner.patterns.len(), expected, "{}", code);
            assert_eq!(banner.color, Color::Purple);
            for layer in &banner.patterns {
                assert_eq!(*layer, BannerPattern { pattern: Pattern::Cross, color: Color::Blue });
            }
        }
    }
}

#[test]
fn at_most_sixteen_layers_and_rest_unread() {
    let mut code = String::from("0");
    for _ in 0..16 {
        code.push_str("01f");
    }
    code.push_str("zzzzzz");
    let banner = Banner::parse_banner(&code).unwrap();
    assert_eq!(banner.patterns.len(), 16);
}

#[test]
fn decoded_ordinals_are_in_range() {
    let banner = Banner::parse_banner("f01002a1e").unwrap();
    assert_eq!(banner.color.ordinal(), 15);
    for layer in &banner.patterns {
        assert!(layer.pattern.ordinal() >= 1 && layer.pattern.ordinal() <= 42);
        assert!(layer.color.ordinal() >= 0 && layer.color.ordinal() <= 15);
    }
    assert_eq!(banner.patterns.len(), 2);
}

#[test]
fn decoding_twice_gives_the_same() {
    for code in ["1022f", "", "g", "1ff0", "0010020030", "5"] {
        assert_eq!(Banner::parse_banner(code), Banner::parse_banner(code));
    }
}

#[test]
fn upper_case_digits_are_read() {
    let banner = Banner::parse_banner("F2AE").unwrap();
    assert_eq!(
        banner,
        Banner {
            color: Color::Black,
            patterns: vec![BannerPattern { pattern: Pattern::TriangleTop, color: Color::Red }],
        }
    );
}

#[test]
fn parse_color_reads_every_ordinal() {
    let all = [
        Color::White, Color::Orange, Color::Magenta, Color::LightBlue, Color::Yellow, Color::Lime,
        Color::Pink, Color::Gray, Color::LightGray, Color::Cyan, Color::Purple, Color::Blue,
        Color::Brown, Color::Green, Color::Red, Color::Black,
    ];
    for (i, c) in all.iter().enumerate() {
        assert_eq!(Color::parse_color(&format!("{:x}", i)), Ok(*c));
        assert_eq!(Color::parse_color(&format!("{:02X}", i)), Ok(*c));
    }
}

#[test]
fn parse_color_errors() {
    assert_eq!(Color::parse_color("10"), Err(ParseError::InvalidColor("10".to_string())));
    assert_eq!(Color::parse_color("ff"), Err(ParseError::InvalidColor("ff".to_string())));
    assert_eq!(Color::parse_color("80"), Err(ParseError::InvalidColor("80".to_string())));
    assert_eq!(Color::parse_color(""), Err(ParseError::MalformedDigit));
    assert_eq!(Color::parse_color("100"), Err(ParseError::MalformedDigit));
    assert_eq!(Color::parse_color("x"), Err(ParseError::MalformedDigit));
    assert_eq!(Color::parse_color("é"), Err(ParseError::MalformedDigit));
}

#[test]
fn parse_pattern_errors() {
    assert_eq!(Pattern::parse_pattern("00"), Err(ParseError::InvalidPattern("00".to_string())));
    assert_eq!(Pattern::parse_pattern("0"), Err(ParseError::InvalidPattern("0".to_string())));
    assert_eq!(Pattern::parse_pattern("2b"), Err(ParseError::InvalidPattern("2b".to_string())));
    assert_eq!(Pattern::parse_pattern("ff"), Err(ParseError::InvalidPattern("ff".to_string())));
    assert_eq!(Pattern::parse_pattern("1g"), Err(ParseError::MalformedDigit));
    assert_eq!(Pattern::parse_pattern(""), Err(ParseError::MalformedDigit));
    assert_eq!(Pattern::parse_pattern("01"), Ok(Pattern::Border));
    assert_eq!(Pattern::parse_pattern("2a"), Ok(Pattern::TriangleTop));
}

#[test]
fn parse_byte_reads_hex_digits_and_nothing_else() {
    let mut texts: Vec<String> = vec![String::new()];
    for a in 0u8..128 {
        texts.push((a as char).to_string());
        for b in 0u8..128 {
            let mut t = String::new();
            t.push(a as char);
            t.push(b as char);
            texts.push(t);
        }
    }
    for t in ["0ff", "00000000000f", "100", "fff", "0x1f", "é", "1é", "٣", "1 ", " 1", "1_0",
        "ffffffffffffffffffffffffffffffffffffffff", "0000000000000000000000000000000000000100"]
    {
        texts.push(t.to_string());
    }
    for t in &texts {
        let all_hex = !t.is_empty() && t.chars().all(|c| c.is_ascii_hexdigit());
        let want = if all_hex { u8::from_str_radix(t, 16).ok() } else { None };
        assert_eq!(parse_byte(t), want, "{:?}", t);
    }
    assert_eq!(parse_byte("ff"), Some(255));
    assert_eq!(parse_byte("Ff"), Some(255));
    assert_eq!(parse_byte("0a"), Some(10));
    assert_eq!(parse_byte("00000000000f"), Some(15));
}

#[test]
fn a_sign_is_no_hex_digit() {
    for t in ["+", "-", "+1", "-1", "+f", "+0f", "+ff", "++1", "1+"] {
        assert_eq!(parse_byte(t), None, "{:?}", t);
        assert_eq!(Color::parse_color(t), Err(ParseError::MalformedDigit), "{:?}", t);
        assert_eq!(Pattern::parse_pattern(t), Err(ParseError::MalformedDigit), "{:?}", t);
    }
    assert_eq!(Banner::parse_banner("+"), Err(ParseError::MalformedDigit));
    assert_eq!(Banner::parse_banner("1+10"), Err(ParseError::MalformedDigit));
    assert_eq!(Banner::parse_banner("101+"), Err(ParseError::MalformedDigit));
    assert_eq!(Banner::parse_banner("10+0"), Err(ParseError::MalformedDigit));
    // after the groups that are read, a sign is as good as anything
    assert!(Banner::parse_banner("1010+").is_ok());
    assert!(Banner::parse_banner("1+").is_ok());
}

#[test]
fn a_code_is_accepted_exactly_if_its_read_groups_are_well_written() {
    let alphabet = ['0', '1', '2', '9', 'a', 'F', 'g', '+', ' '];
    let mut x: u64 = 3;
    for _ in 0..20000 {
        x = x.wrapping_mul(6364136223846793005).wrapping_add(1442695040888963407);
        let len = ((x >> 33) % 9) as usize;
        let mut code = String::new();
        let mut y = x;
        for _ in 0..len {
            y = y.wrapping_mul(6364136223846793005).wrapping_add(1442695040888963407);
            // mostly digits that give valid groups, so that acceptance is common
            let pick = (y >> 40) % 12;
            code.push(if pick < 9 { alphabet[(y >> 50) as usize % 3] } else { alphabet[(y >> 50) as usize % 9] });
        }
        let chars: Vec<char> = code.chars().collect();
        let hex = |c: char| c.is_ascii_hexdigit();
        let groups = std::cmp::min(16, chars.len().saturating_sub(1) / 3);
        let mut want = !chars.is_empty() && hex(chars[0]);
        for k in 0..groups {
            let g = &chars[1 + 3 * k..4 + 3 * k];
            let ok = hex(g[0]) && hex(g[1]) && hex(g[2]) && {
                let v = g[0].to_digit(16).unwrap() * 16 + g[1].to_digit(16).unwrap();
                (1..=42).contains(&v)
            };
            want = want && ok;
        }
        assert_eq!(Banner::parse_banner(&code).is_ok(), want, "{:?}", code);
    }
}
