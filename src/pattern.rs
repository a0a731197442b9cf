//! Numbering patterns: parsing, serializing and applying them to numbers.
use vstd::prelude::*;

use crate::kind::{kind_of, NumberingKind};
use crate::text::{push_char, push_str};

verus! {

/// The model of a pattern's pieces: each prefix as characters, with its kind.
pub type PiecesModel = Seq<(Seq<char>, NumberingKind)>;

/// Scans pattern text: each representative character closes a piece whose
/// prefix is the text since the previous one; the text after the last one is
/// the suffix.
pub open spec fn scan(s: Seq<char>) -> (PiecesModel, Seq<char>)
    decreases s.len(),
{
    if s.len() == 0 {
        (seq![], seq![])
    } else {
        let (pieces, pending) = scan(s.drop_last());
        match kind_of(s.last()) {
            Some(k) => (pieces.push((pending, k)), seq![]),
            None => (pieces, pending.push(s.last())),
        }
    }
}

/// The text of the pieces: each prefix followed by its kind's character.
pub open spec fn pieces_text(pieces: PiecesModel) -> Seq<char>
    decreases pieces.len(),
{
    if pieces.len() == 0 {
        seq![]
    } else {
        pieces_text(pieces.drop_last()) + pieces.last().0 + seq![pieces.last().1.char_of()]
    }
}

/// The pattern text of pieces and a suffix.
pub open spec fn serialize(pieces: PiecesModel, suffix: Seq<char>) -> Seq<char> {
    pieces_text(pieces) + suffix
}

/// The text emitted for the number at index `i` of `nums` (pieces non-empty):
/// a piece's prefix (dropped for the first piece of a trimmed pattern) and
/// the numeral; past the last piece, that piece's kind again, after its
/// prefix or, where that is empty, after the suffix.
pub open spec fn number_text(
    pieces: PiecesModel,
    suffix: Seq<char>,
    trimmed: bool,
    nums: Seq<u64>,
    i: int,
) -> Seq<char> {
    if i < pieces.len() {
        (if i == 0 && trimmed {
            seq![]
        } else {
            pieces[i].0
        }) + pieces[i].1.numeral(nums[i])
    } else {
        (if pieces.last().0.len() == 0 {
            suffix
        } else {
            pieces.last().0
        }) + pieces.last().1.numeral(nums[i])
    }
}

/// The texts of the first `k` numbers, in order.
pub open spec fn emitted(
    pieces: PiecesModel,
    suffix: Seq<char>,
    trimmed: bool,
    nums: Seq<u64>,
    k: nat,
) -> Seq<char>
    decreases k,
{
    if k == 0 {
        seq![]
    } else {
        emitted(pieces, suffix, trimmed, nums, (k - 1) as nat) + number_text(
            pieces,
            suffix,
            trimmed,
            nums,
            k - 1,
        )
    }
}

/// A pattern applied to numbers: the text of every number, then the suffix
/// unless the pattern is trimmed. Without pieces, only that suffix.
pub open spec fn format(
    pieces: PiecesModel,
    suffix: Seq<char>,
    trimmed: bool,
    nums: Seq<u64>,
) -> Seq<char> {
    let end = if trimmed {
        seq![]
    } else {
        suffix
    };
    if pieces.len() == 0 {
        end
    } else {
        emitted(pieces, suffix, trimmed, nums, nums.len()) + end
    }
}

/// One level `k` of a pattern applied to `number`: the first prefix, the
/// kind at position `k` (the last kind past the end) and the suffix.
pub open spec fn format_kth(pieces: PiecesModel, suffix: Seq<char>, k: nat, number: u64) -> Seq<
    char,
> {
    if pieces.len() == 0 {
        suffix
    } else {
        let kind = if k < pieces.len() {
            pieces[k as int].1
        } else {
            pieces.last().1
        };
        pieces[0].0 + kind.numeral(number) + suffix
    }
}

/// Why a pattern could not be parsed.
#[derive(Debug, Clone, Copy, PartialEq, Eq, Hash, Structural)]
pub enum PatternError {
    /// The text holds no counting symbol.
    NoCountingSymbol,
}

impl PatternError {
    /// The message shown for this error.
    pub fn message(&self) -> (r: String)
        ensures
            r@ == seq!['i', 'n', 'v', 'a', 'l', 'i', 'd', ' ', 'n', 'u', 'm', 'b', 'e', 'r', 'i', 'n', 'g', ' ', 'p', 'a', 't', 't', 'e', 'r', 'n'],
    {
        let r = String::from_str("invalid numbering pattern");
        proof {
            reveal_strlit("invalid numbering pattern");
        }
        assert(r@ =~= seq!['i', 'n', 'v', 'a', 'l', 'i', 'd', ' ', 'n', 'u', 'm', 'b', 'e', 'r', 'i', 'n', 'g', ' ', 'p', 'a', 't', 't', 'e', 'r', 'n']);
        r
    }
}

/// How to turn a number into text.
///
/// A pattern consists of pieces, each a prefix followed by a counting symbol,
/// and one suffix. Examples of valid patterns: `1)`, `a.`, `(I)`.
#[derive(Debug, Clone, PartialEq, Eq, Hash)]
pub struct NumberingPattern {
    pub pieces: Vec<(String, NumberingKind)>,
    pub suffix: String,
    trimmed: bool,
}

/// The model of one piece.
pub open spec fn piece_model(p: (String, NumberingKind)) -> (Seq<char>, NumberingKind) {
    (p.0@, p.1)
}

/// The model of a pattern.
pub struct PatternView {
    pub pieces: PiecesModel,
    pub suffix: Seq<char>,
    pub trimmed: bool,
}

impl View for NumberingPattern {
    type V = PatternView;

    closed spec fn view(&self) -> PatternView {
        PatternView {
            pieces: self.pieces@.map_values(|p: (String, NumberingKind)| piece_model(p)),
            suffix: self.suffix@,
            trimmed: self.trimmed,
        }
    }
}

impl NumberingPattern {
    /// The text of this pattern applied to `nums`.
    pub open spec fn formatted(&self, nums: Seq<u64>) -> Seq<char> {
        format(self@.pieces, self@.suffix, self@.trimmed, nums)
    }

    /// A pattern of the given pieces (at least one) and suffix, not trimmed.
    pub fn new(pieces: Vec<(String, NumberingKind)>, suffix: String) -> (r: Self)
        requires
            pieces@.len() > 0,
        ensures
            r@.pieces == pieces@.map_values(|p: (String, NumberingKind)| piece_model(p)),
            r@.suffix == suffix@,
            !r@.trimmed,
    {
        NumberingPattern { pieces, suffix, trimmed: false }
    }

    /// The same pattern, trimmed.
    pub fn into_trimmed(self) -> (r: Self)
        ensures
            r@.pieces == self@.pieces,
            r@.suffix == self@.suffix,
            r@.trimmed,
    {
        NumberingPattern { trimmed: true, ..self }
    }

    /// Whether this pattern is trimmed.
    pub fn trimmed(&self) -> (r: bool)
        ensures
            r == self@.trimmed,
    {
        self.trimmed
    }

    /// How many counting symbols this pattern has.
    pub fn pieces(&self) -> (r: usize)
        ensures
            r == self@.pieces.len(),
    {
        self.pieces.len()
    }

    /// Apply the pattern to the given numbers.
    pub fn apply(&self, numbers: &[u64]) -> (r: String)
        ensures
            r@ == self.formatted(numbers@),
    {
        let ghost pieces = self@.pieces;
        let ghost suffix = self@.suffix;
        let ghost trimmed = self@.trimmed;
        let mut fmt = String::new();
        let count = self.pieces.len();
        if count > 0 {
            let mut i: usize = 0;
            while i < numbers.len()
                invariant
                    count == self.pieces@.len() == pieces.len(),
                    count > 0,
                    pieces == self@.pieces,
                    suffix == self@.suffix,
                    trimmed == self@.trimmed,
                    i <= numbers@.len(),
                    fmt@ == emitted(pieces, suffix, trimmed, numbers@, i as nat),
                decreases numbers@.len() - i,
            {
                let n = numbers[i];
                let ghost before = fmt@;
                if i < count {
                    let piece = &self.pieces[i];
                    if i > 0 || !self.trimmed {
                        push_str(&mut fmt, &piece.0);
                    }
                    let text = piece.1.apply(n);
                    push_str(&mut fmt, &text);
                } else {
                    let last = &self.pieces[count - 1];
                    if last.0.as_str().is_empty() {
                        push_str(&mut fmt, &self.suffix);
                    } else {
                        push_str(&mut fmt, &last.0);
                    }
                    let text = last.1.apply(n);
                    push_str(&mut fmt, &text);
                }
                assert(fmt@ =~= before + number_text(pieces, suffix, trimmed, numbers@, i as int));
                i = i + 1;
            }
        }
        if !self.trimmed {
            push_str(&mut fmt, &self.suffix);
        }
        proof {
            if count == 0 {
                assert(fmt@ =~= self.formatted(numbers@));
            }
        }
        fmt
    }

    /// Apply only the `k`-th level of the pattern to a number.
    pub fn apply_kth(&self, k: usize, number: u64) -> (r: String)
        ensures
            r@ == format_kth(self@.pieces, self@.suffix, k as nat, number),
    {
        let mut fmt = String::new();
        let count = self.pieces.len();
        if count > 0 {
            push_str(&mut fmt, &self.pieces[0].0);
            let index = if k < count {
                k
            } else {
                count - 1
            };
            let text = self.pieces[index].1.apply(number);
            push_str(&mut fmt, &text);
        }
        push_str(&mut fmt, &self.suffix);
        proof {
            if count == 0 {
                assert(fmt@ =~= format_kth(self@.pieces, self@.suffix, k as nat, number));
            }
        }
        fmt
    }

    /// The pattern text: each prefix followed by its kind's representative
    /// character, then the suffix.
    pub fn serialize(&self) -> (r: String)
        ensures
            r@ == serialize(self@.pieces, self@.suffix),
    {
        let ghost pieces = self@.pieces;
        let mut pat = String::new();
        let mut i: usize = 0;
        while i < self.pieces.len()
            invariant
                i <= self.pieces@.len() == pieces.len(),
                pieces == self@.pieces,
                pat@ == pieces_text(pieces.take(i as int)),
            decreases self.pieces@.len() - i,
        {
            let piece = &self.pieces[i];
            push_str(&mut pat, &piece.0);
            let c = piece.1.to_char();
            push_char(&mut pat, c);
            proof {
                let t = pieces.take(i + 1);
                assert(t.drop_last() =~= pieces.take(i as int));
            }
            i = i + 1;
        }
        assert(pieces.take(i as int) =~= pieces);
        push_str(&mut pat, &self.suffix);
        pat
    }

    /// Parses a pattern: each counting symbol closes a piece whose prefix is
    /// the text before it; the text after the last one is the suffix.
    pub fn from_str(pattern: &str) -> (r: Result<Self, PatternError>)
        ensures
            match r {
                Ok(p) => scan(pattern@).0.len() > 0 && p@.pieces == scan(pattern@).0
                    && p@.suffix == scan(pattern@).1 && !p@.trimmed,
                Err(e) => scan(pattern@).0.len() == 0 && e == PatternError::NoCountingSymbol,
            },
    {
        let len = pattern.unicode_len();
        let mut pieces: Vec<(String, NumberingKind)> = Vec::new();
        let mut pending = String::new();
        let mut i: usize = 0;
        while i < len
            invariant
                len == pattern@.len(),
                i <= len,
                pieces@.map_values(|p: (String, NumberingKind)| piece_model(p)) == scan(
                    pattern@.take(i as int),
                ).0,
                pending@ == scan(pattern@.take(i as int)).1,
            decreases len - i,
        {
            let c = pattern.get_char(i);
            let ghost prev = pieces@;
            proof {
                let t = pattern@.take(i + 1);
                assert(t.drop_last() =~= pattern@.take(i as int));
                assert(t.last() == c);
            }
            match NumberingKind::from_char(c) {
                Some(kind) => {
                    let prefix = pending;
                    pending = String::new();
                    pieces.push((prefix, kind));
                    assert(pieces@.map_values(|p: (String, NumberingKind)| piece_model(p))
                        =~= prev.map_values(|p: (String, NumberingKind)| piece_model(p)).push(
                        piece_model(pieces@.last()),
                    ));
                },
                None => {
                    push_char(&mut pending, c);
                },
            }
            assert(pending@ =~= scan(pattern@.take(i + 1)).1);
            i = i + 1;
        }
        assert(pattern@.take(len as int) =~= pattern@);
        if pieces.len() == 0 {
            return Err(PatternError::NoCountingSymbol);
        }
        Ok(NumberingPattern { pieces, suffix: pending, trimmed: false })
    }
}

/// Text without counting symbols.
pub open spec fn plain(t: Seq<char>) -> bool {
    forall|i: int| 0 <= i < t.len() ==> kind_of(#[trigger] t[i]) is None
}

/// Pieces that serialize back to themselves: plain prefixes and kinds that
/// parsing can produce.
pub open spec fn pieces_parsable(pieces: PiecesModel) -> bool {
    forall|i: int|
        0 <= i < pieces.len() ==> plain(#[trigger] pieces[i].0) && pieces[i].1.is_parsable()
}

proof fn lemma_scan_plain(x: Seq<char>, y: Seq<char>)
    requires
        plain(y),
    ensures
        scan(x + y) == (scan(x).0, scan(x).1 + y),
    decreases y.len(),
{
    if y.len() == 0 {
        assert(x + y =~= x);
        assert(scan(x).1 + y =~= scan(x).1);
    } else {
        let z = y.drop_last();
        assert(plain(z)) by {
            assert forall|i: int| 0 <= i < z.len() implies kind_of(#[trigger] z[i]) is None by {
                assert(z[i] == y[i]);
            }
        }
        lemma_scan_plain(x, z);
        assert((x + y).drop_last() =~= x + z);
        assert((x + y).last() == y.last());
        assert(kind_of(y[y.len() - 1]) is None);
        assert((scan(x).1 + z).push(y.last()) =~= scan(x).1 + y);
    }
}

proof fn lemma_scan_counting(x: Seq<char>, c: char, k: NumberingKind)
    requires
        kind_of(c) == Some(k),
    ensures
        scan(x.push(c)) == (scan(x).0.push((scan(x).1, k)), Seq::<char>::empty()),
{
    assert(x.push(c).drop_last() =~= x);
}

proof fn lemma_scan_pieces_text(pieces: PiecesModel)
    requires
        pieces_parsable(pieces),
    ensures
        scan(pieces_text(pieces)) == (pieces, Seq::<char>::empty()),
    decreases pieces.len(),
{
    if pieces.len() == 0 {
        assert(scan(pieces_text(pieces)).0 =~= pieces);
    } else {
        let init = pieces.drop_last();
        let (prefix, k) = pieces.last();
        assert(pieces_parsable(init)) by {
            assert forall|i: int| 0 <= i < init.len() implies plain(#[trigger] init[i].0)
                && init[i].1.is_parsable() by {
                assert(init[i] == pieces[i]);
            }
        }
        assert(plain(prefix) && k.is_parsable()) by {
            assert(pieces[pieces.len() - 1] == pieces.last());
        }
        lemma_scan_pieces_text(init);
        lemma_scan_plain(pieces_text(init), prefix);
        law_char_round_trip(k);
        lemma_scan_counting(pieces_text(init) + prefix, k.char_of(), k);
        assert((pieces_text(init) + prefix).push(k.char_of()) =~= pieces_text(pieces));
        assert(Seq::<char>::empty() + prefix =~= prefix);
        assert(init.push((prefix, k)) =~= pieces);
    }
}

proof fn lemma_scan_parsable(s: Seq<char>)
    ensures
        pieces_parsable(scan(s).0),
        plain(scan(s).1),
    decreases s.len(),
{
    if s.len() > 0 {
        lemma_scan_parsable(s.drop_last());
        let (pieces, pending) = scan(s.drop_last());
        match kind_of(s.last()) {
            Some(k) => {
                law_char_round_trip(k);
                let q = pieces.push((pending, k));
                assert(pieces_parsable(q)) by {
                    assert forall|i: int| 0 <= i < q.len() implies plain(#[trigger] q[i].0)
                        && q[i].1.is_parsable() by {
                        if i < pieces.len() {
                            assert(q[i] == pieces[i]);
                        }
                    }
                }
            },
            None => {
                let t = pending.push(s.last());
                assert(plain(t)) by {
                    assert forall|i: int| 0 <= i < t.len() implies kind_of(#[trigger] t[i]) is None by {
                        if i < pending.len() {
                            assert(t[i] == pending[i]);
                        }
                    }
                }
            },
        }
    }
}

/// The representative characters identify the kinds: parsing the character
/// of a parsable kind gives that kind back, and a character that parses
/// gives a kind whose character it is.
pub proof fn law_char_round_trip(k: NumberingKind)
    ensures
        k.is_parsable() ==> kind_of(k.char_of()) == Some(k),
        forall|c: char| kind_of(c) == Some(k) ==> k.char_of() == c && k.is_parsable(),
{
}

/// Serializing pieces whose prefixes and suffix hold no counting symbol, and
/// whose kinds parsing can produce, and parsing the text again gives back the
/// same pieces and suffix.
pub proof fn law_serialize_then_scan(pieces: PiecesModel, suffix: Seq<char>)
    requires
        pieces_parsable(pieces),
        plain(suffix),
    ensures
        scan(serialize(pieces, suffix)) == (pieces, suffix),
{
    lemma_scan_pieces_text(pieces);
    lemma_scan_plain(pieces_text(pieces), suffix);
    assert(Seq::<char>::empty() + suffix =~= suffix);
}

/// Parsing, serializing and parsing again gives the pieces and suffix of the
/// first parse.
pub proof fn law_parse_round_trip(s: Seq<char>)
    ensures
        scan(serialize(scan(s).0, scan(s).1)) == scan(s),
{
    lemma_scan_parsable(s);
    law_serialize_then_scan(scan(s).0, scan(s).1);
}

/// Applying a pattern depends on nothing but the pattern's model and the
/// numbers: equal patterns give equal text for the same numbers.
pub proof fn law_apply_deterministic(p: NumberingPattern, q: NumberingPattern, nums: Seq<u64>)
    requires
        p@ == q@,
    ensures
        p.formatted(nums) == q.formatted(nums),
{
}

proof fn lemma_emitted_trimmed(pieces: PiecesModel, suffix: Seq<char>, nums: Seq<u64>, k: nat)
    requires
        pieces.len() > 0,
        1 <= k <= nums.len(),
    ensures
        emitted(pieces, suffix, false, nums, k) == pieces[0].0 + emitted(
            pieces,
            suffix,
            true,
            nums,
            k,
        ),
    decreases k,
{
    if k == 1 {
        assert(emitted(pieces, suffix, false, nums, 0) =~= seq![]);
        assert(emitted(pieces, suffix, true, nums, 0) =~= seq![]);
        assert(number_text(pieces, suffix, true, nums, 0) =~= pieces[0].1.numeral(nums[0]));
        assert(emitted(pieces, suffix, false, nums, 1) =~= pieces[0].0 + emitted(
            pieces,
            suffix,
            true,
            nums,
            1,
        ));
    } else {
        lemma_emitted_trimmed(pieces, suffix, nums, (k - 1) as nat);
        assert(number_text(pieces, suffix, false, nums, k - 1) == number_text(
            pieces,
            suffix,
            true,
            nums,
            k - 1,
        ));
        assert(emitted(pieces, suffix, false, nums, k) =~= pieces[0].0 + emitted(
            pieces,
            suffix,
            true,
            nums,
            k,
        ));
    }
}

/// Trimming leaves out exactly the first piece's prefix and the suffix: for a
/// pattern with pieces and at least one number, the untrimmed text is the
/// first prefix, then the trimmed text, then the suffix.
pub proof fn law_trimmed(pieces: PiecesModel, suffix: Seq<char>, nums: Seq<u64>)
    requires
        pieces.len() > 0,
        nums.len() > 0,
    ensures
        format(pieces, suffix, false, nums) == pieces[0].0 + format(pieces, suffix, true, nums)
            + suffix,
{
    lemma_emitted_trimmed(pieces, suffix, nums, nums.len());
    assert(format(pieces, suffix, true, nums) =~= emitted(pieces, suffix, true, nums, nums.len()));
    assert(format(pieces, suffix, false, nums) =~= pieces[0].0 + format(pieces, suffix, true, nums)
        + suffix);
}

impl std::str::FromStr for NumberingPattern {
    type Err = PatternError;

    fn from_str(pattern: &str) -> Result<Self, PatternError> {
        NumberingPattern::from_str(pattern)
    }
}

} // verus!
