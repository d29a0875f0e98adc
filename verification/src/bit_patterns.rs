//! A declarative bit-pattern matcher over 32-bit words.
//!
//! A pattern is written as a string over `{'0', '1', 'x', '_', ' '}`; `_` and
//! space are ignored, `x` marks a don't-care bit, and `0`/`1` fix a bit.  A
//! word matches a row when `(word & mask) == (pattern & mask)`.  Dispatch
//! invokes the handler of the first matching row, in registration order, so
//! when two patterns overlap the more specific one must be registered first.

use crate::bits::extract_bits32;
use core::ops::Range;
use vstd::prelude::*;

verus! {

/// A consumer of a matched 32-bit word.  The executable `handle` must agree
/// with the pure description `spec_handle`, so that a matcher built from
/// handlers has a fully determined dispatch function.
pub trait Handler: Sized {
    type Output;

    /// What this handler produces for a given word.
    spec fn spec_handle(&self, raw_instr: u32) -> Self::Output;

    /// Produces this handler's output for a matched word.
    fn handle(&self, raw_instr: u32) -> (r: Self::Output)
        ensures
            r == self.spec_handle(raw_instr),
    ;
}

/// A contiguous bit range `[lo, hi)` of a 32-bit word, as used by handlers to
/// pull operand fields out of a matched word.
#[derive(Clone, Copy, Debug, PartialEq, Eq, Structural)]
pub struct BitRange {
    pub lo: u32,
    pub hi: u32,
}

impl BitRange {
    /// The range as a standard half-open index range.
    pub fn range(&self) -> (r: Range<usize>)
        ensures
            r.start == self.lo,
            r.end == self.hi,
    {
        (self.lo as usize)..(self.hi as usize)
    }

    /// Extracts this bit range from `word`, shifted down to bit 0.
    pub fn extract(&self, word: u32) -> (r: u32)
        requires
            self.lo <= self.hi <= 32,
        ensures
            r == crate::bits::spec_extract_bits32(word, self.lo, self.hi),
    {
        extract_bits32(self.range(), word)
    }
}

/// Parses one pattern character into its `(value bit, mask bit)` pair, with
/// `None` standing for an ignored character and the outer `None` for an
/// invalid one.
pub open spec fn spec_pattern_char(c: char) -> Option<Option<(u32, u32)>> {
    if c == 'x' {
        Some(Some((0u32, 0u32)))
    } else if c == '0' {
        Some(Some((0u32, 1u32)))
    } else if c == '1' {
        Some(Some((1u32, 1u32)))
    } else if c == '_' || c == ' ' {
        Some(None)
    } else {
        None
    }
}

/// The accumulator state after folding the first `n` characters of `s`,
/// shifting one bit of pattern and mask per significant character.
pub open spec fn spec_parse_prefix(s: Seq<char>, n: int) -> Option<(u32, u32)>
    decreases n,
{
    if n <= 0 {
        Some((0u32, 0u32))
    } else {
        match spec_parse_prefix(s, n - 1) {
            Option::None => Option::None,
            Some((p, m)) => match spec_pattern_char(s[n - 1]) {
                Option::None => Option::None,
                Some(Option::None) => Some((p, m)),
                Some(Some((pb, mb))) => Some((((p << 1u32) | pb), ((m << 1u32) | mb))),
            },
        }
    }
}

/// The `(pattern, mask)` pair denoted by a pattern string, or `None` when the
/// string holds a character outside `{'0', '1', 'x', '_', ' '}`.
pub open spec fn spec_parse_pattern(s: Seq<char>) -> Option<(u32, u32)> {
    spec_parse_prefix(s, s.len() as int)
}

/// Once a prefix of the pattern fails to parse, every longer prefix fails.
proof fn lemma_parse_prefix_none_persists(s: Seq<char>, n: int, k: int)
    requires
        n <= k,
        spec_parse_prefix(s, n) is None,
    ensures
        spec_parse_prefix(s, k) is None,
    decreases k - n,
{
    if n < k {
        lemma_parse_prefix_none_persists(s, n, k - 1);
    }
}

/// Whether `raw` agrees with `pattern` on every bit fixed by `mask`.
pub open spec fn word_matches(pattern: u32, mask: u32, raw: u32) -> bool {
    (raw & mask) == (pattern & mask)
}

/// One registered row: a fixed-bit pattern, its mask, and the handler invoked
/// when a word agrees with the pattern on all masked bits.
pub struct Match<H> {
    pub pattern: u32,
    pub mask: u32,
    pub handler: H,
}

impl<H: Handler> Match<H> {
    /// Whether `raw` matches this row.
    pub open spec fn spec_matches(&self, raw: u32) -> bool {
        word_matches(self.pattern, self.mask, raw)
    }

    /// Parses `pattern` and builds a row around `handler`; fails exactly on a
    /// string with a character outside the pattern alphabet.
    pub fn new(pattern: &str, handler: H) -> (r: Option<Match<H>>)
        ensures
            match spec_parse_pattern(pattern@) {
                Some((p, m)) => r matches Some(mm) && mm.pattern == p && mm.mask == m && mm.handler
                    == handler,
                Option::None => r is None,
            },
    {
        match Self::parse_pattern(pattern) {
            Some((p, m)) => Some(Match { pattern: p, mask: m, handler }),
            Option::None => Option::None,
        }
    }

    /// Invokes the handler if `raw` matches this row's pattern.
    pub fn handle(&self, raw_instr: u32) -> (r: Option<H::Output>)
        ensures
            self.spec_matches(raw_instr) ==> r == Some(self.handler.spec_handle(raw_instr)),
            !self.spec_matches(raw_instr) ==> r is None,
    {
        proof {
            let p = self.pattern;
            let m = self.mask;
            assert(((!(raw_instr ^ p) & m) == m) == ((raw_instr & m) == (p & m))) by (bit_vector);
        }
        if (!(raw_instr ^ self.pattern) & self.mask) == self.mask {
            Some(self.handler.handle(raw_instr))
        } else {
            Option::None
        }
    }

    /// Parses a pattern string into its `(pattern, mask)` pair.
    fn parse_pattern(pattern: &str) -> (r: Option<(u32, u32)>)
        ensures
            r == spec_parse_pattern(pattern@),
    {
        let mut pattern_result: u32 = 0;
        let mut mask_result: u32 = 0;
        for c in it: pattern.chars()
            invariant
                it.seq() == pattern@,
                spec_parse_prefix(pattern@, it.index() as int) == Some(
                    (pattern_result, mask_result),
                ),
        {
            proof {
                assert(pattern_result << 1u32 == (pattern_result << 1u32) | 0u32) by (bit_vector);
                assert(mask_result << 1u32 == (mask_result << 1u32) | 0u32) by (bit_vector);
            }
            if c == 'x' {
                pattern_result = pattern_result << 1u32;
                mask_result = mask_result << 1u32;
            } else if c == '0' {
                pattern_result = pattern_result << 1u32;
                mask_result = (mask_result << 1u32) | 1;
            } else if c == '1' {
                pattern_result = (pattern_result << 1u32) | 1;
                mask_result = (mask_result << 1u32) | 1;
            } else if c == '_' || c == ' ' {
                // ignored separator: the accumulators stay as they are
            } else {
                proof {
                    lemma_parse_prefix_none_persists(
                        pattern@,
                        it.index() + 1,
                        pattern@.len() as int,
                    );
                }
                return Option::None;
            }
        }
        Some((pattern_result, mask_result))
    }
}

/// The result of first-match dispatch over `rows`: the output of the first
/// row, in registration order, whose pattern matches `raw`; `None` when no
/// row matches.
pub open spec fn spec_dispatch<H: Handler>(rows: Seq<Match<H>>, raw: u32) -> Option<H::Output>
    decreases rows.len(),
{
    if rows.len() == 0 {
        Option::None
    } else if rows[0].spec_matches(raw) {
        Some(rows[0].handler.spec_handle(raw))
    } else {
        spec_dispatch(rows.drop_first(), raw)
    }
}

/// An insertion-ordered collection of pattern rows dispatched first-match.
pub struct BitPatternMatcher<H> {
    matches: Vec<Match<H>>,
}

impl<H: Handler> BitPatternMatcher<H> {
    /// The registered rows, in registration order.
    pub closed spec fn rows(&self) -> Seq<Match<H>> {
        self.matches@
    }

    /// Creates a matcher with no rows.
    pub fn new() -> (r: Self)
        ensures
            r.rows() =~= Seq::<Match<H>>::empty(),
    {
        Self { matches: Vec::new() }
    }

    /// Parses `pattern` and registers `handler` behind it, after every row
    /// registered so far.  Returns `false`, and registers nothing, exactly
    /// when the pattern string is invalid.
    pub fn bind(&mut self, pattern: &str, handler: H) -> (ok: bool)
        ensures
            match spec_parse_pattern(pattern@) {
                Some((p, m)) => ok && final(self).rows() =~= old(self).rows().push(
                    Match { pattern: p, mask: m, handler },
                ),
                Option::None => !ok && final(self).rows() =~= old(self).rows(),
            },
    {
        match Match::new(pattern, handler) {
            Some(m) => {
                self.matches.push(m);
                true
            },
            Option::None => false,
        }
    }

    /// Registers `handler` behind an already-parsed `(pattern, mask)` pair,
    /// after every row registered so far.  This is the numeric twin of
    /// [`Self::bind`] for tables whose rows are written as bit literals.
    pub fn bind_bits(&mut self, pattern: u32, mask: u32, handler: H)
        ensures
            final(self).rows() =~= old(self).rows().push(Match { pattern, mask, handler }),
    {
        self.matches.push(Match { pattern, mask, handler });
    }

    /// Dispatches `raw_instr` to the first matching row's handler.
    pub fn handle(&self, raw_instr: u32) -> (r: Option<H::Output>)
        ensures
            r == spec_dispatch(self.rows(), raw_instr),
    {
        let n = self.matches.len();
        let mut i: usize = 0;
        proof {
            assert(self.rows().skip(0) =~= self.rows());
        }
        while i < n
            invariant
                i <= n,
                n == self.rows().len(),
                spec_dispatch(self.rows().skip(i as int), raw_instr) == spec_dispatch(
                    self.rows(),
                    raw_instr,
                ),
            decreases n - i,
        {
            proof {
                assert(self.rows().skip(i as int).drop_first() =~= self.rows().skip(i + 1));
                assert(self.rows().skip(i as int)[0] == self.rows()[i as int]);
            }
            if let Some(result) = self.matches[i].handle(raw_instr) {
                return Some(result);
            }
            i = i + 1;
        }
        proof {
            assert(self.rows().skip(n as int) =~= Seq::<Match<H>>::empty());
        }
        Option::None
    }
}

/// First-match dispatch invokes at most one handler: when any row matches,
/// the dispatch result is exactly the output of the earliest matching row,
/// and every row before it does not match.
pub proof fn lemma_dispatch_first_match<H: Handler>(rows: Seq<Match<H>>, raw: u32, i: int)
    requires
        0 <= i < rows.len(),
        rows[i].spec_matches(raw),
        forall|j: int| 0 <= j < i ==> !(#[trigger] rows[j]).spec_matches(raw),
    ensures
        spec_dispatch(rows, raw) == Some(rows[i].handler.spec_handle(raw)),
    decreases i,
{
    if i == 0 {
    } else {
        assert(rows.drop_first()[i - 1] == rows[i]);
        assert(forall|j: int|
            0 <= j < i - 1 ==> (#[trigger] rows.drop_first()[j]) == rows[j + 1]);
        lemma_dispatch_first_match(rows.drop_first(), raw, i - 1);
    }
}

/// A dispatch that produced an output produced it from a matching row:
/// returns the index of the row whose handler's output was taken.
pub proof fn lemma_dispatch_yields_row<H: Handler>(rows: Seq<Match<H>>, raw: u32) -> (k: int)
    requires
        spec_dispatch(rows, raw) is Some,
    ensures
        0 <= k < rows.len(),
        rows[k].spec_matches(raw),
        spec_dispatch(rows, raw) == Some(rows[k].handler.spec_handle(raw)),
    decreases rows.len(),
{
    if rows[0].spec_matches(raw) {
        0
    } else {
        let k0 = lemma_dispatch_yields_row(rows.drop_first(), raw);
        assert(rows.drop_first()[k0] == rows[k0 + 1]);
        k0 + 1
    }
}

/// When no registered row matches, dispatch yields no output at all.
pub proof fn lemma_dispatch_no_match<H: Handler>(rows: Seq<Match<H>>, raw: u32)
    requires
        forall|j: int| 0 <= j < rows.len() ==> !(#[trigger] rows[j]).spec_matches(raw),
    ensures
        spec_dispatch(rows, raw) is None,
    decreases rows.len(),
{
    if rows.len() > 0 {
        assert(forall|j: int|
            0 <= j < rows.len() - 1 ==> (#[trigger] rows.drop_first()[j]) == rows[j + 1]);
        lemma_dispatch_no_match(rows.drop_first(), raw);
    }
}

} // verus!
