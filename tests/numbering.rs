use numbering::{numbering, Numbered, Numbering, NumberingKind, NumberingPattern, PatternError};

fn parse(s: &str) -> NumberingPattern {
    NumberingPattern::from_str(s).unwrap()
}

fn text<F>(r: Numbered<'_, F>) -> String {
    match r {
        Numbered::Text(t) => t,
        Numbered::Call(..) => panic!("expected text"),
    }
}

#[test]
fn pattern_repeats_last_piece() {
    let p = parse("1.1)");
    assert_eq!(p.pieces(), 2);
    assert_eq!(p.pieces[0], (String::new(), NumberingKind::Arabic));
    assert_eq!(p.pieces[1], (".".to_string(), NumberingKind::Arabic));
    assert_eq!(p.suffix, ")");
    assert_eq!(p.apply(&[1, 2, 3]), "1.2.3)");
}

#[test]
fn pattern_upper_roman_in_parens() {
    let p = parse("(I)");
    assert_eq!(p.pieces(), 1);
    assert_eq!(p.pieces[0], ("(".to_string(), NumberingKind::UpperRoman));
    assert_eq!(p.suffix, ")");
    assert_eq!(p.apply(&[4]), "(IV)");
}

#[test]
fn pattern_latin_zero() {
    assert_eq!(parse("a.").apply(&[0]), "-.");
}

#[test]
fn trimmed_pattern_drops_first_prefix_and_suffix() {
    let n: Numbering<()> = Numbering::Pattern(parse("1.1"));
    let t = n.trimmed();
    assert_eq!(text(t.apply(&[3, 4])), "3.4");
    let t2: Numbering<()> = Numbering::Pattern(parse("(1.1)")).trimmed();
    assert_eq!(text(t2.apply(&[3, 4])), "3.4");
    assert_eq!(parse("(1.1)").apply(&[3, 4]), "(3.4)");
    match t2 {
        Numbering::Pattern(p) => assert!(p.trimmed()),
        Numbering::Func(_) => panic!("expected a pattern"),
    }
}

#[test]
fn apply_kth_single_level() {
    let p = parse("1.1)");
    assert_eq!(p.apply_kth(1, 5), "5)");
    assert_eq!(p.apply_kth(7, 5), "5)");
    assert_eq!(parse("(a.i)").apply_kth(0, 3), "(c)");
    assert_eq!(parse("(a.i)").apply_kth(1, 3), "(iii)");
    assert_eq!(parse("(a.i)").apply_kth(9, 4), "(iv)");
}

#[test]
fn parse_without_counting_symbol_fails() {
    let r = NumberingPattern::from_str("##");
    assert_eq!(r, Err(PatternError::NoCountingSymbol));
    assert_eq!(r.unwrap_err().message(), "invalid numbering pattern");
    assert!(NumberingPattern::from_str("").is_err());
}

#[test]
fn parse_serialize_round_trip() {
    for s in ["1.a.i", "(I)", "Chapter 1 – A)", "あ-い", "①", "x*y"] {
        let p = parse(s);
        assert_eq!(p.serialize(), s);
        let q = parse(&p.serialize());
        assert_eq!(p, q);
    }
}

#[test]
fn parse_by_characters() {
    let p = parse("§α·Α壹");
    assert_eq!(p.pieces(), 3);
    assert_eq!(p.pieces[0], ("§".to_string(), NumberingKind::LowerGreek));
    assert_eq!(p.pieces[1], ("·".to_string(), NumberingKind::UpperGreek));
    assert_eq!(p.pieces[2], (String::new(), NumberingKind::UpperSimplifiedChinese));
    assert_eq!(p.suffix, "");
}

#[test]
fn traditional_chinese_serializes_as_simplified() {
    let p = NumberingPattern::new(
        vec![(String::new(), NumberingKind::LowerTraditionalChinese)],
        String::new(),
    );
    assert_eq!(p.serialize(), "一");
    assert_eq!(parse(&p.serialize()).pieces[0].1, NumberingKind::LowerSimplifiedChinese);
}

#[test]
fn excess_numbers_use_suffix_when_last_prefix_is_empty() {
    assert_eq!(parse("1)").apply(&[1, 2, 3]), "1)2)3)");
    assert_eq!(parse("a").apply(&[1, 2]), "ab");
}

#[test]
fn fewer_numbers_than_pieces() {
    assert_eq!(parse("1.a.i)").apply(&[2]), "2)");
    assert_eq!(parse("1.a.i)").apply(&[]), ")");
}

#[test]
fn pattern_from_pieces() {
    let p = NumberingPattern::new(
        vec![("[".to_string(), NumberingKind::UpperLatin), ("-".to_string(), NumberingKind::Arabic)],
        "]".to_string(),
    );
    assert_eq!(p.pieces(), 2);
    assert!(!p.trimmed());
    assert_eq!(p.apply(&[2, 7, 9]), "[B-7-9]");
    assert_eq!(p.apply_kth(0, 3), "[C]");
    assert_eq!(p.serialize(), "[A-1]");
}

#[test]
fn apply_is_deterministic() {
    let p = parse("(I.a)");
    assert_eq!(p.apply(&[12]), p.apply(&[12]));
    assert_eq!(parse("(I.a)").apply(&[12]), "(XII)");
}

#[test]
fn func_numbering_forwards_numbers() {
    let n: Numbering<u32> = Numbering::Func(7);
    match n.apply(&[1, 2, 3]) {
        Numbered::Call(f, args) => {
            assert_eq!(*f, 7);
            assert_eq!(args, vec![1, 2, 3]);
        }
        Numbered::Text(_) => panic!("expected a call"),
    }
    let t = n.clone().trimmed();
    assert_eq!(t, n);
    match numbering(&t, &[]) {
        Numbered::Call(_, args) => assert!(args.is_empty()),
        Numbered::Text(_) => panic!("expected a call"),
    }
}

#[test]
fn numbering_from_pattern() {
    let n: Numbering<()> = Numbering::from(parse("1."));
    assert_eq!(text(numbering(&n, &[1, 2])), "1.2.");
}

#[test]
fn char_round_trip() {
    for c in "1aAiIαΑ*א一壹あいアイㄱ가١۱१১ক①⓵".chars() {
        let k = NumberingKind::from_char(c).unwrap();
        assert_eq!(k.to_char(), c);
    }
    assert_eq!(NumberingKind::from_char('#'), None);
    assert_eq!(NumberingKind::UpperTraditionalChinese.to_char(), '壹');
}

#[test]
fn zero_representations() {
    let cases = [
        (NumberingKind::Arabic, "0"),
        (NumberingKind::LowerLatin, "-"),
        (NumberingKind::UpperLatin, "-"),
        (NumberingKind::LowerRoman, "n"),
        (NumberingKind::UpperRoman, "N"),
        (NumberingKind::LowerGreek, "𐆊"),
        (NumberingKind::UpperGreek, "𐆊"),
        (NumberingKind::Symbol, "-"),
        (NumberingKind::Hebrew, "-"),
        (NumberingKind::LowerSimplifiedChinese, "零"),
        (NumberingKind::UpperTraditionalChinese, "零"),
        (NumberingKind::HiraganaIroha, "-"),
        (NumberingKind::KoreanSyllable, "-"),
        (NumberingKind::EasternArabic, "\u{0660}"),
        (NumberingKind::EasternArabicPersian, "\u{06F0}"),
        (NumberingKind::DevanagariNumber, "\u{0966}"),
        (NumberingKind::BengaliNumber, "\u{09E6}"),
        (NumberingKind::BengaliLetter, "-"),
        (NumberingKind::CircledNumber, "-"),
        (NumberingKind::DoubleCircledNumber, "-"),
    ];
    for (k, z) in cases {
        assert_eq!(k.apply(0), z);
    }
}

#[test]
fn zeroless_values() {
    assert_eq!(NumberingKind::LowerLatin.apply(1), "a");
    assert_eq!(NumberingKind::LowerLatin.apply(26), "z");
    assert_eq!(NumberingKind::LowerLatin.apply(27), "aa");
    assert_eq!(NumberingKind::UpperLatin.apply(702), "ZZ");
    assert_eq!(NumberingKind::UpperLatin.apply(703), "AAA");
    assert_eq!(NumberingKind::CircledNumber.apply(50), "㊿");
    assert_eq!(NumberingKind::CircledNumber.apply(51), "①①");
    assert_eq!(NumberingKind::DoubleCircledNumber.apply(11), "⓵⓵");
    assert_eq!(NumberingKind::KoreanJamo.apply(15), "ㄱㄱ");
    assert_eq!(NumberingKind::HiraganaAiueo.apply(46), "ん");
    assert_eq!(NumberingKind::KatakanaIroha.apply(47), "ス");
}

#[test]
fn zeroless_distinct() {
    let mut seen = std::collections::HashSet::new();
    for n in 1..2000u64 {
        assert!(seen.insert(NumberingKind::KoreanSyllable.apply(n)));
    }
}

#[test]
fn decimal_values() {
    assert_eq!(NumberingKind::Arabic.apply(1234), "1234");
    assert_eq!(NumberingKind::Arabic.apply(u64::MAX), "18446744073709551615");
    assert_eq!(NumberingKind::EasternArabic.apply(10), "\u{0661}\u{0660}");
    assert_eq!(NumberingKind::DevanagariNumber.apply(205), "\u{0968}\u{0966}\u{096B}");
}

#[test]
fn symbol_values() {
    assert_eq!(NumberingKind::Symbol.apply(1), "*");
    assert_eq!(NumberingKind::Symbol.apply(6), "‖");
    assert_eq!(NumberingKind::Symbol.apply(7), "**");
    assert_eq!(NumberingKind::Symbol.apply(14), "†††");
}

#[test]
fn roman_values() {
    assert_eq!(NumberingKind::UpperRoman.apply(4), "IV");
    assert_eq!(NumberingKind::UpperRoman.apply(1994), "MCMXCIV");
    assert_eq!(NumberingKind::LowerRoman.apply(14), "xiv");
    assert_eq!(NumberingKind::UpperRoman.apply(4000), "I\u{305}V\u{305}");
    assert_eq!(NumberingKind::LowerRoman.apply(5001), "v\u{305}i");
}

#[test]
fn hebrew_values() {
    assert_eq!(NumberingKind::Hebrew.apply(1), "א׳");
    assert_eq!(NumberingKind::Hebrew.apply(11), "י״א");
    assert_eq!(NumberingKind::Hebrew.apply(15), "ט״ו");
    assert_eq!(NumberingKind::Hebrew.apply(16), "ט״ז");
    assert_eq!(NumberingKind::Hebrew.apply(115), "קט״ו");
    assert_eq!(NumberingKind::Hebrew.apply(400), "ת׳");
    assert_eq!(NumberingKind::Hebrew.apply(500), "ת״ק");
}

#[test]
fn greek_values() {
    assert_eq!(NumberingKind::LowerGreek.apply(1), "α\u{374}");
    assert_eq!(NumberingKind::UpperGreek.apply(1), "Α\u{374}");
    assert_eq!(NumberingKind::LowerGreek.apply(1000), "͵α");
    assert_eq!(NumberingKind::LowerGreek.apply(241), "σμα\u{374}");
    assert_eq!(NumberingKind::LowerGreek.apply(12345), "αΜα\u{374}, ͵βτμε");
    assert_eq!(NumberingKind::LowerGreek.apply(10000), "αΜα\u{374}");
    assert_eq!(NumberingKind::UpperGreek.apply(99), "ϞΘ\u{374}");
}

#[test]
fn chinese_values() {
    assert_eq!(NumberingKind::LowerSimplifiedChinese.apply(1), "一");
    assert_eq!(NumberingKind::UpperSimplifiedChinese.apply(1), "壹");
    assert_eq!(NumberingKind::UpperSimplifiedChinese.apply(2), "贰");
    assert_eq!(NumberingKind::UpperTraditionalChinese.apply(2), "貳");
    assert_eq!(NumberingKind::LowerTraditionalChinese.apply(2), "二");
}

#[test]
fn parse_through_from_str_trait() {
    let p: NumberingPattern = "1.a".parse().unwrap();
    assert_eq!(p.apply(&[2, 3]), "2.c");
    assert!("##".parse::<NumberingPattern>().is_err());
}
