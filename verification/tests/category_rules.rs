use girl_technology::category::{validate_category, CategoryError, MAX_CATEGORY_BYTES};

fn check(raw: &str) -> Result<String, CategoryError> {
    validate_category(raw.to_string())
}

#[test]
fn empty_category_is_refused() {
    assert_eq!(check(""), Err(CategoryError::Empty));
    assert_eq!(check("   \t\n"), Err(CategoryError::Empty));
}

#[test]
fn boundary_dash_is_refused() {
    assert_eq!(check("-abc"), Err(CategoryError::BoundaryDash));
    assert_eq!(check("abc-"), Err(CategoryError::BoundaryDash));
    assert_eq!(check("-"), Err(CategoryError::BoundaryDash));
    assert_eq!(check("  -abc  "), Err(CategoryError::BoundaryDash));
}

#[test]
fn boundary_dash_is_reported_before_bad_characters() {
    assert_eq!(check("-AB"), Err(CategoryError::BoundaryDash));
    assert_eq!(check("\u{e9}-"), Err(CategoryError::BoundaryDash));
}

#[test]
fn characters_outside_the_slug_set_are_refused() {
    assert_eq!(check("AB_c"), Err(CategoryError::BadChars));
    assert_eq!(check("caf\u{e9}"), Err(CategoryError::BadChars));
    assert_eq!(check("a b"), Err(CategoryError::BadChars));
    assert_eq!(check("a\nb"), Err(CategoryError::BadChars));
    assert_eq!(check("a/b"), Err(CategoryError::BadChars));
    assert_eq!(check("a{b"), Err(CategoryError::BadChars));
    assert_eq!(check("a`b"), Err(CategoryError::BadChars));
}

#[test]
fn long_category_is_refused() {
    assert_eq!(check(&"a".repeat(256)), Err(CategoryError::TooLong));
    assert_eq!(check(&"a".repeat(255)), Ok("a".repeat(255)));
    assert_eq!(MAX_CATEGORY_BYTES, 255);
}

#[test]
fn length_is_counted_in_bytes_after_trimming() {
    // 128 two-byte characters are 256 bytes: too long before any character is looked at.
    assert_eq!(check(&"\u{e9}".repeat(128)), Err(CategoryError::TooLong));
    // 127 of them are 254 bytes: short enough, and then not a slug.
    assert_eq!(check(&"\u{e9}".repeat(127)), Err(CategoryError::BadChars));
    // White space around a category of full length does not count.
    let padded = format!("  {}\n", "b".repeat(255));
    assert_eq!(check(&padded), Ok("b".repeat(255)));
}

#[test]
fn valid_category_comes_back_unchanged() {
    assert_eq!(check("my-cat1"), Ok("my-cat1".to_string()));
    assert_eq!(check("a"), Ok("a".to_string()));
    assert_eq!(check("0"), Ok("0".to_string()));
    assert_eq!(check("a--b"), Ok("a--b".to_string()));
    assert_eq!(check("abcdefghijklmnopqrstuvwxyz0123456789"), Ok("abcdefghijklmnopqrstuvwxyz0123456789".to_string()));
}

#[test]
fn surrounding_white_space_is_trimmed() {
    assert_eq!(check("  my-cat1\n"), Ok("my-cat1".to_string()));
    assert_eq!(check("\t\r\nwidgets \u{b}\u{c}"), Ok("widgets".to_string()));
    assert_eq!(check("\u{a0}\u{2003}widgets\u{3000}\u{85}"), Ok("widgets".to_string()));
    assert_eq!(check("\u{1680}\u{2028}\u{2029}\u{202f}\u{205f}x\u{2000}\u{200a}"), Ok("x".to_string()));
}

#[test]
fn characters_that_only_look_blank_are_not_trimmed() {
    // Zero width space, Mongolian vowel separator and the byte order mark have
    // no White_Space property.
    assert_eq!(check("\u{200b}widgets"), Err(CategoryError::BadChars));
    assert_eq!(check("widgets\u{180e}"), Err(CategoryError::BadChars));
    assert_eq!(check("\u{feff}widgets"), Err(CategoryError::BadChars));
    assert_eq!(check("\u{1f}widgets"), Err(CategoryError::BadChars));
    assert_eq!(check("widgets\u{8}"), Err(CategoryError::BadChars));
}

#[test]
fn validating_twice_is_validating_once() {
    for raw in ["my-cat1", "  widgets ", "a", "x-1-y"] {
        let once = check(raw).unwrap();
        assert_eq!(check(&once), Ok(once.clone()));
    }
}

#[test]
fn each_refusal_has_its_message() {
    assert_eq!(CategoryError::TooLong.message(), "category is too long, max 255 chars");
    assert_eq!(CategoryError::Empty.message(), "category is 0 characters");
    assert_eq!(CategoryError::BoundaryDash.message(), "category cannot start or end with -");
    assert_eq!(CategoryError::BadChars.message(), "category must only contain 0-9, a-z, and -");
}

#[test]
fn validator_agrees_with_the_pattern() {
    let pattern = regex::Regex::new("^[a-z0-9-]{1,255}$").unwrap();
    let samples = [
        "my-cat1", "a", "z9", "a-b-c", "A", "ab_c", "a b", "a.b", "caf\u{e9}", "a\nb", "a\n", "0-0", "x\u{0}", "~", "a/b",
        "a+b", "{", "`", "@", "[", "/", ":", "abc\u{7f}",
    ];
    for raw in samples {
        let trimmed = raw.trim();
        let expected = pattern.is_match(trimmed);
        assert_eq!(check(raw).is_ok(), expected, "{:?}", raw);
        if !expected {
            assert_eq!(check(raw), Err(CategoryError::BadChars), "{:?}", raw);
        }
    }
    let long = "a".repeat(300);
    assert!(!pattern.is_match(&long));
    assert!(check(&long).is_err());
}

#[test]
fn white_space_is_what_is_trimmed() {
    let white = |c: char| {
        matches!(
            c as u32,
            0x09..=0x0d | 0x20 | 0x85 | 0xa0 | 0x1680 | 0x2000..=0x200a | 0x2028 | 0x2029 | 0x202f | 0x205f | 0x3000
        )
    };
    for code in 0..=0x10ffffu32 {
        let Some(c) = char::from_u32(code) else { continue };
        let front = check(&format!("{c}x"));
        let back = check(&format!("x{c}"));
        if white(c) {
            assert_eq!(front, Ok("x".to_string()), "U+{:04X}", code);
            assert_eq!(back, Ok("x".to_string()), "U+{:04X}", code);
        } else {
            assert_ne!(front, Ok("x".to_string()), "U+{:04X}", code);
            assert_ne!(back, Ok("x".to_string()), "U+{:04X}", code);
        }
    }
}

/// The same rules, written with a regular expression for the character set.
fn by_pattern(pattern: &regex::Regex, raw: &str) -> Result<String, &'static str> {
    let category = raw.trim();
    if category.len() > 255 {
        return Err("category is too long, max 255 chars");
    }
    if category.is_empty() {
        return Err("category is 0 characters");
    }
    let bytes = category.as_bytes();
    if bytes[0] == b'-' || bytes[bytes.len() - 1] == b'-' {
        return Err("category cannot start or end with -");
    }
    if !pattern.is_match(category) {
        return Err("category must only contain 0-9, a-z, and -");
    }
    Ok(category.to_string())
}

#[test]
fn validator_agrees_with_the_pattern_on_generated_input() {
    let pattern = regex::Regex::new("^[a-z0-9-]{1,255}$").unwrap();
    let alphabet: Vec<char> = "abz019--- \t\n\u{a0}\u{2003}\u{200b}A_Z.\u{e9}\u{4e16}\u{1f600}{`/:@[".chars().collect();
    let mut state: u64 = 0x2545_f491_4f6c_dd1d;
    let mut next = move || {
        state ^= state << 13;
        state ^= state >> 7;
        state ^= state << 17;
        state
    };
    for round in 0..20_000 {
        let length = if round % 50 == 0 { 250 + next() % 12 } else { next() % 9 };
        let only_slug = round % 3 == 0;
        let raw: String = (0..length)
            .map(|_| {
                let pick = next() as usize;
                if only_slug {
                    alphabet[pick % 7]
                } else {
                    alphabet[pick % alphabet.len()]
                }
            })
            .collect();
        let expected = by_pattern(&pattern, &raw);
        let got = check(&raw).map_err(|e| e.message());
        assert_eq!(got, expected, "{:?}", raw);
    }
}
