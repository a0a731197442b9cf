//! The closed set of numeral systems, their representative characters and
//! their conversions.
use vstd::prelude::*;

use crate::numerals::{
    bijective, chinese, chinese_numeral, decimal, greek_numeral, greek_spec, hebrew_numeral,
    hebrew_spec, lemma_bijective_injective, positional, roman_numeral, roman_spec, symbols,
    symbols_spec, zeroless, zeroless_spec,
};

verus! {

/// Different kinds of numberings.
#[derive(Debug, Copy, Clone, PartialEq, Eq, Hash, Structural)]
pub enum NumberingKind {
    /// Arabic numerals (1, 2, 3, etc.).
    Arabic,
    /// Lowercase Latin letters (a, b, c, etc.). Items beyond z use base-26.
    LowerLatin,
    /// Uppercase Latin letters (A, B, C, etc.). Items beyond Z use base-26.
    UpperLatin,
    /// Lowercase Roman numerals (i, ii, iii, etc.).
    LowerRoman,
    /// Uppercase Roman numerals (I, II, III, etc.).
    UpperRoman,
    /// Lowercase Greek numerals (α, β, γ, etc.).
    LowerGreek,
    /// Uppercase Greek numerals (Α, Β, Γ, etc.).
    UpperGreek,
    /// Paragraph/note-like symbols: *, †, ‡, §, ¶, and ‖. Further items use
    /// repeated symbols.
    Symbol,
    /// Hebrew numerals, including geresh and gershayim.
    Hebrew,
    /// Simplified Chinese standard numerals.
    LowerSimplifiedChinese,
    /// Simplified Chinese "banknote" numerals.
    UpperSimplifiedChinese,
    /// Traditional Chinese standard numerals. Its representative character is
    /// that of the simplified kind, so parsing never yields it.
    LowerTraditionalChinese,
    /// Traditional Chinese "banknote" numerals. Its representative character
    /// is that of the simplified kind, so parsing never yields it.
    UpperTraditionalChinese,
    /// Hiragana in the gojūon order. Includes n but excludes wi and we.
    HiraganaAiueo,
    /// Hiragana in the iroha order. Includes wi and we but excludes n.
    HiraganaIroha,
    /// Katakana in the gojūon order. Includes n but excludes wi and we.
    KatakanaAiueo,
    /// Katakana in the iroha order. Includes wi and we but excludes n.
    KatakanaIroha,
    /// Korean jamo (ㄱ, ㄴ, ㄷ, etc.).
    KoreanJamo,
    /// Korean syllables (가, 나, 다, etc.).
    KoreanSyllable,
    /// Eastern Arabic numerals, used in some Arabic-speaking countries.
    EasternArabic,
    /// The variant of Eastern Arabic numerals used in Persian and Urdu.
    EasternArabicPersian,
    /// Devanagari numerals.
    DevanagariNumber,
    /// Bengali numerals.
    BengaliNumber,
    /// Bengali letters (ক, খ, গ, ...কক, কখ etc.).
    BengaliLetter,
    /// Circled numbers (①, ②, ③, etc.), up to 50.
    CircledNumber,
    /// Double-circled numbers (⓵, ⓶, ⓷, etc.), up to 10.
    DoubleCircledNumber,
}

/// The digits of the `LowerLatin` system, in order.
pub open spec fn lower_latin() -> Seq<char> {
    seq!['a', 'b', 'c', 'd', 'e', 'f', 'g', 'h', 'i', 'j', 'k', 'l', 'm', 'n', 'o', 'p', 'q', 'r', 's', 't', 'u', 'v', 'w', 'x', 'y', 'z']
}

/// The digits of the `UpperLatin` system, in order.
pub open spec fn upper_latin() -> Seq<char> {
    seq!['A', 'B', 'C', 'D', 'E', 'F', 'G', 'H', 'I', 'J', 'K', 'L', 'M', 'N', 'O', 'P', 'Q', 'R', 'S', 'T', 'U', 'V', 'W', 'X', 'Y', 'Z']
}

/// The digits of the `HiraganaAiueo` system, in order.
pub open spec fn hiragana_aiueo() -> Seq<char> {
    seq!['あ', 'い', 'う', 'え', 'お', 'か', 'き', 'く', 'け', 'こ', 'さ', 'し', 'す', 'せ', 'そ', 'た', 'ち', 'つ', 'て', 'と', 'な', 'に', 'ぬ', 'ね', 'の', 'は', 'ひ', 'ふ', 'へ', 'ほ', 'ま', 'み', 'む', 'め', 'も', 'や', 'ゆ', 'よ', 'ら', 'り', 'る', 'れ', 'ろ', 'わ', 'を', 'ん']
}

/// The digits of the `HiraganaIroha` system, in order.
pub open spec fn hiragana_iroha() -> Seq<char> {
    seq!['い', 'ろ', 'は', 'に', 'ほ', 'へ', 'と', 'ち', 'り', 'ぬ', 'る', 'を', 'わ', 'か', 'よ', 'た', 'れ', 'そ', 'つ', 'ね', 'な', 'ら', 'む', 'う', 'ゐ', 'の', 'お', 'く', 'や', 'ま', 'け', 'ふ', 'こ', 'え', 'て', 'あ', 'さ', 'き', 'ゆ', 'め', 'み', 'し', 'ゑ', 'ひ', 'も', 'せ', 'す']
}

/// The digits of the `KatakanaAiueo` system, in order.
pub open spec fn katakana_aiueo() -> Seq<char> {
    seq!['ア', 'イ', 'ウ', 'エ', 'オ', 'カ', 'キ', 'ク', 'ケ', 'コ', 'サ', 'シ', 'ス', 'セ', 'ソ', 'タ', 'チ', 'ツ', 'テ', 'ト', 'ナ', 'ニ', 'ヌ', 'ネ', 'ノ', 'ハ', 'ヒ', 'フ', 'ヘ', 'ホ', 'マ', 'ミ', 'ム', 'メ', 'モ', 'ヤ', 'ユ', 'ヨ', 'ラ', 'リ', 'ル', 'レ', 'ロ', 'ワ', 'ヲ', 'ン']
}

/// The digits of the `KatakanaIroha` system, in order.
pub open spec fn katakana_iroha() -> Seq<char> {
    seq!['イ', 'ロ', 'ハ', 'ニ', 'ホ', 'ヘ', 'ト', 'チ', 'リ', 'ヌ', 'ル', 'ヲ', 'ワ', 'カ', 'ヨ', 'タ', 'レ', 'ソ', 'ツ', 'ネ', 'ナ', 'ラ', 'ム', 'ウ', 'ヰ', 'ノ', 'オ', 'ク', 'ヤ', 'マ', 'ケ', 'フ', 'コ', 'エ', 'テ', 'ア', 'サ', 'キ', 'ユ', 'メ', 'ミ', 'シ', 'ヱ', 'ヒ', 'モ', 'セ', 'ス']
}

/// The digits of the `KoreanJamo` system, in order.
pub open spec fn korean_jamo() -> Seq<char> {
    seq!['ㄱ', 'ㄴ', 'ㄷ', 'ㄹ', 'ㅁ', 'ㅂ', 'ㅅ', 'ㅇ', 'ㅈ', 'ㅊ', 'ㅋ', 'ㅌ', 'ㅍ', 'ㅎ']
}

/// The digits of the `KoreanSyllable` system, in order.
pub open spec fn korean_syllable() -> Seq<char> {
    seq!['가', '나', '다', '라', '마', '바', '사', '아', '자', '차', '카', '타', '파', '하']
}

/// The digits of the `BengaliLetter` system, in order.
pub open spec fn bengali_letters() -> Seq<char> {
    seq!['ক', 'খ', 'গ', 'ঘ', 'ঙ', 'চ', 'ছ', 'জ', 'ঝ', 'ঞ', 'ট', 'ঠ', 'ড', 'ঢ', 'ণ', 'ত', 'থ', 'দ', 'ধ', 'ন', 'প', 'ফ', 'ব', 'ভ', 'ম', 'য', 'র', 'ল', 'শ', 'ষ', 'স', 'হ']
}

/// The digits of the `CircledNumber` system, in order.
pub open spec fn circled() -> Seq<char> {
    seq!['①', '②', '③', '④', '⑤', '⑥', '⑦', '⑧', '⑨', '⑩', '⑪', '⑫', '⑬', '⑭', '⑮', '⑯', '⑰', '⑱', '⑲', '⑳', '㉑', '㉒', '㉓', '㉔', '㉕', '㉖', '㉗', '㉘', '㉙', '㉚', '㉛', '㉜', '㉝', '㉞', '㉟', '㊱', '㊲', '㊳', '㊴', '㊵', '㊶', '㊷', '㊸', '㊹', '㊺', '㊻', '㊼', '㊽', '㊾', '㊿']
}

/// The digits of the `DoubleCircledNumber` system, in order.
pub open spec fn double_circled() -> Seq<char> {
    seq!['⓵', '⓶', '⓷', '⓸', '⓹', '⓺', '⓻', '⓼', '⓽', '⓾']
}

/// The digits of the `Arabic` system, in order.
pub open spec fn arabic_digits() -> Seq<char> {
    seq!['\u{0030}', '\u{0031}', '\u{0032}', '\u{0033}', '\u{0034}', '\u{0035}', '\u{0036}', '\u{0037}', '\u{0038}', '\u{0039}']
}

/// The digits of the `EasternArabic` system, in order.
pub open spec fn eastern_arabic_digits() -> Seq<char> {
    seq!['\u{0660}', '\u{0661}', '\u{0662}', '\u{0663}', '\u{0664}', '\u{0665}', '\u{0666}', '\u{0667}', '\u{0668}', '\u{0669}']
}

/// The digits of the `EasternArabicPersian` system, in order.
pub open spec fn persian_digits() -> Seq<char> {
    seq!['\u{06F0}', '\u{06F1}', '\u{06F2}', '\u{06F3}', '\u{06F4}', '\u{06F5}', '\u{06F6}', '\u{06F7}', '\u{06F8}', '\u{06F9}']
}

/// The digits of the `DevanagariNumber` system, in order.
pub open spec fn devanagari_digits() -> Seq<char> {
    seq!['\u{0966}', '\u{0967}', '\u{0968}', '\u{0969}', '\u{096A}', '\u{096B}', '\u{096C}', '\u{096D}', '\u{096E}', '\u{096F}']
}

/// The digits of the `BengaliNumber` system, in order.
pub open spec fn bengali_digits() -> Seq<char> {
    seq!['\u{09E6}', '\u{09E7}', '\u{09E8}', '\u{09E9}', '\u{09EA}', '\u{09EB}', '\u{09EC}', '\u{09ED}', '\u{09EE}', '\u{09EF}']
}

/// The kind that a representative character stands for, if any.
pub open spec fn kind_of(c: char) -> Option<NumberingKind> {
    match c {
        '1' => Some(NumberingKind::Arabic),
        'a' => Some(NumberingKind::LowerLatin),
        'A' => Some(NumberingKind::UpperLatin),
        'i' => Some(NumberingKind::LowerRoman),
        'I' => Some(NumberingKind::UpperRoman),
        'α' => Some(NumberingKind::LowerGreek),
        'Α' => Some(NumberingKind::UpperGreek),
        '*' => Some(NumberingKind::Symbol),
        'א' => Some(NumberingKind::Hebrew),
        '一' => Some(NumberingKind::LowerSimplifiedChinese),
        '壹' => Some(NumberingKind::UpperSimplifiedChinese),
        'あ' => Some(NumberingKind::HiraganaAiueo),
        'い' => Some(NumberingKind::HiraganaIroha),
        'ア' => Some(NumberingKind::KatakanaAiueo),
        'イ' => Some(NumberingKind::KatakanaIroha),
        'ㄱ' => Some(NumberingKind::KoreanJamo),
        '가' => Some(NumberingKind::KoreanSyllable),
        '\u{0661}' => Some(NumberingKind::EasternArabic),
        '\u{06F1}' => Some(NumberingKind::EasternArabicPersian),
        '\u{0967}' => Some(NumberingKind::DevanagariNumber),
        '\u{09E7}' => Some(NumberingKind::BengaliNumber),
        '\u{0995}' => Some(NumberingKind::BengaliLetter),
        '①' => Some(NumberingKind::CircledNumber),
        '⓵' => Some(NumberingKind::DoubleCircledNumber),
        _ => None,
    }
}

impl NumberingKind {
    /// The representative character of this kind.
    pub open spec fn char_of(self) -> char {
        match self {
            NumberingKind::Arabic => '1',
            NumberingKind::LowerLatin => 'a',
            NumberingKind::UpperLatin => 'A',
            NumberingKind::LowerRoman => 'i',
            NumberingKind::UpperRoman => 'I',
            NumberingKind::LowerGreek => 'α',
            NumberingKind::UpperGreek => 'Α',
            NumberingKind::Symbol => '*',
            NumberingKind::Hebrew => 'א',
            NumberingKind::LowerSimplifiedChinese => '一',
            NumberingKind::UpperSimplifiedChinese => '壹',
            NumberingKind::LowerTraditionalChinese => '一',
            NumberingKind::UpperTraditionalChinese => '壹',
            NumberingKind::HiraganaAiueo => 'あ',
            NumberingKind::HiraganaIroha => 'い',
            NumberingKind::KatakanaAiueo => 'ア',
            NumberingKind::KatakanaIroha => 'イ',
            NumberingKind::KoreanJamo => 'ㄱ',
            NumberingKind::KoreanSyllable => '가',
            NumberingKind::EasternArabic => '\u{0661}',
            NumberingKind::EasternArabicPersian => '\u{06F1}',
            NumberingKind::DevanagariNumber => '\u{0967}',
            NumberingKind::BengaliNumber => '\u{09E7}',
            NumberingKind::BengaliLetter => '\u{0995}',
            NumberingKind::CircledNumber => '①',
            NumberingKind::DoubleCircledNumber => '⓵',
        }
    }

    /// Whether this kind can be produced from its representative character:
    /// all but the two traditional Chinese kinds.
    pub open spec fn is_parsable(self) -> bool {
        !(self is LowerTraditionalChinese) && !(self is UpperTraditionalChinese)
    }

    /// The text of `n` in this numeral system.
    pub open spec fn numeral(self, n: u64) -> Seq<char> {
        match self {
            NumberingKind::Arabic => positional(arabic_digits(), n as nat),
            NumberingKind::LowerLatin => zeroless_spec(lower_latin(), n as nat),
            NumberingKind::UpperLatin => zeroless_spec(upper_latin(), n as nat),
            NumberingKind::LowerRoman => roman_spec(n as nat, false),
            NumberingKind::UpperRoman => roman_spec(n as nat, true),
            NumberingKind::LowerGreek => greek_spec(n as nat, false),
            NumberingKind::UpperGreek => greek_spec(n as nat, true),
            NumberingKind::Symbol => symbols_spec(n as nat),
            NumberingKind::Hebrew => hebrew_spec(n as nat),
            NumberingKind::LowerSimplifiedChinese => chinese_numeral(false, false, n as nat),
            NumberingKind::UpperSimplifiedChinese => chinese_numeral(false, true, n as nat),
            NumberingKind::LowerTraditionalChinese => chinese_numeral(true, false, n as nat),
            NumberingKind::UpperTraditionalChinese => chinese_numeral(true, true, n as nat),
            NumberingKind::HiraganaAiueo => zeroless_spec(hiragana_aiueo(), n as nat),
            NumberingKind::HiraganaIroha => zeroless_spec(hiragana_iroha(), n as nat),
            NumberingKind::KatakanaAiueo => zeroless_spec(katakana_aiueo(), n as nat),
            NumberingKind::KatakanaIroha => zeroless_spec(katakana_iroha(), n as nat),
            NumberingKind::KoreanJamo => zeroless_spec(korean_jamo(), n as nat),
            NumberingKind::KoreanSyllable => zeroless_spec(korean_syllable(), n as nat),
            NumberingKind::EasternArabic => positional(eastern_arabic_digits(), n as nat),
            NumberingKind::EasternArabicPersian => positional(persian_digits(), n as nat),
            NumberingKind::DevanagariNumber => positional(devanagari_digits(), n as nat),
            NumberingKind::BengaliNumber => positional(bengali_digits(), n as nat),
            NumberingKind::BengaliLetter => zeroless_spec(bengali_letters(), n as nat),
            NumberingKind::CircledNumber => zeroless_spec(circled(), n as nat),
            NumberingKind::DoubleCircledNumber => zeroless_spec(double_circled(), n as nat),
        }
    }

    /// Whether this kind writes numbers in a bijective base without zero.
    pub open spec fn is_zeroless(self) -> bool {
        match self {
            NumberingKind::LowerLatin | NumberingKind::UpperLatin | NumberingKind::HiraganaAiueo
            | NumberingKind::HiraganaIroha | NumberingKind::KatakanaAiueo
            | NumberingKind::KatakanaIroha | NumberingKind::KoreanJamo
            | NumberingKind::KoreanSyllable | NumberingKind::BengaliLetter
            | NumberingKind::CircledNumber | NumberingKind::DoubleCircledNumber => true,
            _ => false,
        }
    }

    /// The alphabet of a zeroless kind.
    pub open spec fn alphabet(self) -> Seq<char> {
        match self {
            NumberingKind::LowerLatin => lower_latin(),
            NumberingKind::UpperLatin => upper_latin(),
            NumberingKind::HiraganaAiueo => hiragana_aiueo(),
            NumberingKind::HiraganaIroha => hiragana_iroha(),
            NumberingKind::KatakanaAiueo => katakana_aiueo(),
            NumberingKind::KatakanaIroha => katakana_iroha(),
            NumberingKind::KoreanJamo => korean_jamo(),
            NumberingKind::KoreanSyllable => korean_syllable(),
            NumberingKind::BengaliLetter => bengali_letters(),
            NumberingKind::CircledNumber => circled(),
            NumberingKind::DoubleCircledNumber => double_circled(),
            _ => seq![],
        }
    }

    /// Whether this kind is one of the Chinese kinds.
    pub open spec fn is_chinese(self) -> bool {
        match self {
            NumberingKind::LowerSimplifiedChinese | NumberingKind::UpperSimplifiedChinese
            | NumberingKind::LowerTraditionalChinese | NumberingKind::UpperTraditionalChinese => true,
            _ => false,
        }
    }

    /// How this kind writes zero: `-` in the zeroless, symbol and Hebrew
    /// systems, the zero digit in the decimal ones, `n` or `N` in Roman, the
    /// Greek zero sign in Greek, and `零` in Chinese.
    pub open spec fn zero_text(self) -> Seq<char> {
        match self {
            NumberingKind::Arabic => seq!['0'],
            NumberingKind::LowerRoman => seq!['n'],
            NumberingKind::UpperRoman => seq!['N'],
            NumberingKind::LowerGreek | NumberingKind::UpperGreek => seq!['𐆊'],
            NumberingKind::EasternArabic => seq!['\u{0660}'],
            NumberingKind::EasternArabicPersian => seq!['\u{06F0}'],
            NumberingKind::DevanagariNumber => seq!['\u{0966}'],
            NumberingKind::BengaliNumber => seq!['\u{09E6}'],
            NumberingKind::LowerSimplifiedChinese | NumberingKind::UpperSimplifiedChinese
            | NumberingKind::LowerTraditionalChinese | NumberingKind::UpperTraditionalChinese => seq!['零'],
            _ => seq!['-'],
        }
    }

    /// Every kind but the Chinese ones writes zero as `zero_text` says.
    pub proof fn law_zero(self)
        requires
            !self.is_chinese(),
        ensures
            self.numeral(0) == self.zero_text(),
    {
    }

    /// A zeroless kind writes different positive numbers differently.
    pub proof fn law_zeroless_injective(self, n1: u64, n2: u64)
        requires
            self.is_zeroless(),
            n1 >= 1,
            n2 >= 1,
            n1 != n2,
        ensures
            self.numeral(n1) != self.numeral(n2),
    {
        let a = self.alphabet();
        assert(a.no_duplicates());
        assert(self.numeral(n1) == bijective(a, n1 as nat));
        assert(self.numeral(n2) == bijective(a, n2 as nat));
        if bijective(a, n1 as nat) == bijective(a, n2 as nat) {
            lemma_bijective_injective(a, n1 as nat, n2 as nat);
        }
    }

    /// Create a numbering kind from a representative character.
    pub fn from_char(c: char) -> (r: Option<Self>)
        ensures
            r == kind_of(c),
    {
        match c {
            '1' => Some(NumberingKind::Arabic),
            'a' => Some(NumberingKind::LowerLatin),
            'A' => Some(NumberingKind::UpperLatin),
            'i' => Some(NumberingKind::LowerRoman),
            'I' => Some(NumberingKind::UpperRoman),
            'α' => Some(NumberingKind::LowerGreek),
            'Α' => Some(NumberingKind::UpperGreek),
            '*' => Some(NumberingKind::Symbol),
            'א' => Some(NumberingKind::Hebrew),
            '一' => Some(NumberingKind::LowerSimplifiedChinese),
            '壹' => Some(NumberingKind::UpperSimplifiedChinese),
            'あ' => Some(NumberingKind::HiraganaAiueo),
            'い' => Some(NumberingKind::HiraganaIroha),
            'ア' => Some(NumberingKind::KatakanaAiueo),
            'イ' => Some(NumberingKind::KatakanaIroha),
            'ㄱ' => Some(NumberingKind::KoreanJamo),
            '가' => Some(NumberingKind::KoreanSyllable),
            '\u{0661}' => Some(NumberingKind::EasternArabic),
            '\u{06F1}' => Some(NumberingKind::EasternArabicPersian),
            '\u{0967}' => Some(NumberingKind::DevanagariNumber),
            '\u{09E7}' => Some(NumberingKind::BengaliNumber),
            '\u{0995}' => Some(NumberingKind::BengaliLetter),
            '①' => Some(NumberingKind::CircledNumber),
            '⓵' => Some(NumberingKind::DoubleCircledNumber),
            _ => None,
        }
    }

    /// The representative character for this numbering kind.
    pub fn to_char(self) -> (r: char)
        ensures
            r == self.char_of(),
    {
        match self {
            NumberingKind::Arabic => '1',
            NumberingKind::LowerLatin => 'a',
            NumberingKind::UpperLatin => 'A',
            NumberingKind::LowerRoman => 'i',
            NumberingKind::UpperRoman => 'I',
            NumberingKind::LowerGreek => 'α',
            NumberingKind::UpperGreek => 'Α',
            NumberingKind::Symbol => '*',
            NumberingKind::Hebrew => 'א',
            NumberingKind::LowerSimplifiedChinese => '一',
            NumberingKind::UpperSimplifiedChinese => '壹',
            NumberingKind::LowerTraditionalChinese => '一',
            NumberingKind::UpperTraditionalChinese => '壹',
            NumberingKind::HiraganaAiueo => 'あ',
            NumberingKind::HiraganaIroha => 'い',
            NumberingKind::KatakanaAiueo => 'ア',
            NumberingKind::KatakanaIroha => 'イ',
            NumberingKind::KoreanJamo => 'ㄱ',
            NumberingKind::KoreanSyllable => '가',
            NumberingKind::EasternArabic => '\u{0661}',
            NumberingKind::EasternArabicPersian => '\u{06F1}',
            NumberingKind::DevanagariNumber => '\u{0967}',
            NumberingKind::BengaliNumber => '\u{09E7}',
            NumberingKind::BengaliLetter => '\u{0995}',
            NumberingKind::CircledNumber => '①',
            NumberingKind::DoubleCircledNumber => '⓵',
        }
    }

    /// Apply the numbering to the given number.
    pub fn apply(self, n: u64) -> (r: String)
        ensures
            r@ == self.numeral(n),
            n == 0 ==> r@ == self.zero_text(),
    {
        match self {
            NumberingKind::Arabic => {
                let digits: [char; 10] = ['\u{0030}', '\u{0031}', '\u{0032}', '\u{0033}', '\u{0034}', '\u{0035}', '\u{0036}', '\u{0037}', '\u{0038}', '\u{0039}'];
                proof {
                    assert(digits@ =~= arabic_digits());
                }
                decimal(&digits, n)
            },
            NumberingKind::LowerLatin => {
                let digits: [char; 26] = ['a', 'b', 'c', 'd', 'e', 'f', 'g', 'h', 'i', 'j', 'k', 'l', 'm', 'n', 'o', 'p', 'q', 'r', 's', 't', 'u', 'v', 'w', 'x', 'y', 'z'];
                proof {
                    assert(digits@ =~= lower_latin());
                }
                zeroless(&digits, n)
            },
            NumberingKind::UpperLatin => {
                let digits: [char; 26] = ['A', 'B', 'C', 'D', 'E', 'F', 'G', 'H', 'I', 'J', 'K', 'L', 'M', 'N', 'O', 'P', 'Q', 'R', 'S', 'T', 'U', 'V', 'W', 'X', 'Y', 'Z'];
                proof {
                    assert(digits@ =~= upper_latin());
                }
                zeroless(&digits, n)
            },
            NumberingKind::LowerRoman => roman_numeral(n, false),
            NumberingKind::UpperRoman => roman_numeral(n, true),
            NumberingKind::LowerGreek => greek_numeral(n, false),
            NumberingKind::UpperGreek => greek_numeral(n, true),
            NumberingKind::Symbol => symbols(n),
            NumberingKind::Hebrew => hebrew_numeral(n),
            NumberingKind::LowerSimplifiedChinese => chinese(false, false, n),
            NumberingKind::UpperSimplifiedChinese => chinese(false, true, n),
            NumberingKind::LowerTraditionalChinese => chinese(true, false, n),
            NumberingKind::UpperTraditionalChinese => chinese(true, true, n),
            NumberingKind::HiraganaAiueo => {
                let digits: [char; 46] = ['あ', 'い', 'う', 'え', 'お', 'か', 'き', 'く', 'け', 'こ', 'さ', 'し', 'す', 'せ', 'そ', 'た', 'ち', 'つ', 'て', 'と', 'な', 'に', 'ぬ', 'ね', 'の', 'は', 'ひ', 'ふ', 'へ', 'ほ', 'ま', 'み', 'む', 'め', 'も', 'や', 'ゆ', 'よ', 'ら', 'り', 'る', 'れ', 'ろ', 'わ', 'を', 'ん'];
                proof {
                    assert(digits@ =~= hiragana_aiueo());
                }
                zeroless(&digits, n)
            },
            NumberingKind::HiraganaIroha => {
                let digits: [char; 47] = ['い', 'ろ', 'は', 'に', 'ほ', 'へ', 'と', 'ち', 'り', 'ぬ', 'る', 'を', 'わ', 'か', 'よ', 'た', 'れ', 'そ', 'つ', 'ね', 'な', 'ら', 'む', 'う', 'ゐ', 'の', 'お', 'く', 'や', 'ま', 'け', 'ふ', 'こ', 'え', 'て', 'あ', 'さ', 'き', 'ゆ', 'め', 'み', 'し', 'ゑ', 'ひ', 'も', 'せ', 'す'];
                proof {
                    assert(digits@ =~= hiragana_iroha());
                }
                zeroless(&digits, n)
            },
            NumberingKind::KatakanaAiueo => {
                let digits: [char; 46] = ['ア', 'イ', 'ウ', 'エ', 'オ', 'カ', 'キ', 'ク', 'ケ', 'コ', 'サ', 'シ', 'ス', 'セ', 'ソ', 'タ', 'チ', 'ツ', 'テ', 'ト', 'ナ', 'ニ', 'ヌ', 'ネ', 'ノ', 'ハ', 'ヒ', 'フ', 'ヘ', 'ホ', 'マ', 'ミ', 'ム', 'メ', 'モ', 'ヤ', 'ユ', 'ヨ', 'ラ', 'リ', 'ル', 'レ', 'ロ', 'ワ', 'ヲ', 'ン'];
                proof {
                    assert(digits@ =~= katakana_aiueo());
                }
                zeroless(&digits, n)
            },
            NumberingKind::KatakanaIroha => {
                let digits: [char; 47] = ['イ', 'ロ', 'ハ', 'ニ', 'ホ', 'ヘ', 'ト', 'チ', 'リ', 'ヌ', 'ル', 'ヲ', 'ワ', 'カ', 'ヨ', 'タ', 'レ', 'ソ', 'ツ', 'ネ', 'ナ', 'ラ', 'ム', 'ウ', 'ヰ', 'ノ', 'オ', 'ク', 'ヤ', 'マ', 'ケ', 'フ', 'コ', 'エ', 'テ', 'ア', 'サ', 'キ', 'ユ', 'メ', 'ミ', 'シ', 'ヱ', 'ヒ', 'モ', 'セ', 'ス'];
                proof {
                    assert(digits@ =~= katakana_iroha());
                }
                zeroless(&digits, n)
            },
            NumberingKind::KoreanJamo => {
                let digits: [char; 14] = ['ㄱ', 'ㄴ', 'ㄷ', 'ㄹ', 'ㅁ', 'ㅂ', 'ㅅ', 'ㅇ', 'ㅈ', 'ㅊ', 'ㅋ', 'ㅌ', 'ㅍ', 'ㅎ'];
                proof {
                    assert(digits@ =~= korean_jamo());
                }
                zeroless(&digits, n)
            },
            NumberingKind::KoreanSyllable => {
                let digits: [char; 14] = ['가', '나', '다', '라', '마', '바', '사', '아', '자', '차', '카', '타', '파', '하'];
                proof {
                    assert(digits@ =~= korean_syllable());
                }
                zeroless(&digits, n)
            },
            NumberingKind::EasternArabic => {
                let digits: [char; 10] = ['\u{0660}', '\u{0661}', '\u{0662}', '\u{0663}', '\u{0664}', '\u{0665}', '\u{0666}', '\u{0667}', '\u{0668}', '\u{0669}'];
                proof {
                    assert(digits@ =~= eastern_arabic_digits());
                }
                decimal(&digits, n)
            },
            NumberingKind::EasternArabicPersian => {
                let digits: [char; 10] = ['\u{06F0}', '\u{06F1}', '\u{06F2}', '\u{06F3}', '\u{06F4}', '\u{06F5}', '\u{06F6}', '\u{06F7}', '\u{06F8}', '\u{06F9}'];
                proof {
                    assert(digits@ =~= persian_digits());
                }
                decimal(&digits, n)
            },
            NumberingKind::DevanagariNumber => {
                let digits: [char; 10] = ['\u{0966}', '\u{0967}', '\u{0968}', '\u{0969}', '\u{096A}', '\u{096B}', '\u{096C}', '\u{096D}', '\u{096E}', '\u{096F}'];
                proof {
                    assert(digits@ =~= devanagari_digits());
                }
                decimal(&digits, n)
            },
            NumberingKind::BengaliNumber => {
                let digits: [char; 10] = ['\u{09E6}', '\u{09E7}', '\u{09E8}', '\u{09E9}', '\u{09EA}', '\u{09EB}', '\u{09EC}', '\u{09ED}', '\u{09EE}', '\u{09EF}'];
                proof {
                    assert(digits@ =~= bengali_digits());
                }
                decimal(&digits, n)
            },
            NumberingKind::BengaliLetter => {
                let digits: [char; 32] = ['ক', 'খ', 'গ', 'ঘ', 'ঙ', 'চ', 'ছ', 'জ', 'ঝ', 'ঞ', 'ট', 'ঠ', 'ড', 'ঢ', 'ণ', 'ত', 'থ', 'দ', 'ধ', 'ন', 'প', 'ফ', 'ব', 'ভ', 'ম', 'য', 'র', 'ল', 'শ', 'ষ', 'স', 'হ'];
                proof {
                    assert(digits@ =~= bengali_letters());
                }
                zeroless(&digits, n)
            },
            NumberingKind::CircledNumber => {
                let digits: [char; 50] = ['①', '②', '③', '④', '⑤', '⑥', '⑦', '⑧', '⑨', '⑩', '⑪', '⑫', '⑬', '⑭', '⑮', '⑯', '⑰', '⑱', '⑲', '⑳', '㉑', '㉒', '㉓', '㉔', '㉕', '㉖', '㉗', '㉘', '㉙', '㉚', '㉛', '㉜', '㉝', '㉞', '㉟', '㊱', '㊲', '㊳', '㊴', '㊵', '㊶', '㊷', '㊸', '㊹', '㊺', '㊻', '㊼', '㊽', '㊾', '㊿'];
                proof {
                    assert(digits@ =~= circled());
                }
                zeroless(&digits, n)
            },
            NumberingKind::DoubleCircledNumber => {
                let digits: [char; 10] = ['⓵', '⓶', '⓷', '⓸', '⓹', '⓺', '⓻', '⓼', '⓽', '⓾'];
                proof {
                    assert(digits@ =~= double_circled());
                }
                zeroless(&digits, n)
            },
        }
    }
}

} // verus!
