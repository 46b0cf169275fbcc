//! Signature rules and the first-match classification over a table of them.
//!
//! A part matches a buffer when its pattern stands in the buffer at its
//! offset; a signature (one alternative of a rule) matches when all of its
//! parts do; a rule matches when any of its signatures does. A table is
//! scanned in order and the first rule that matches decides the format.

use crate::format::{default_format, FileFormat, FormatId};
use vstd::prelude::*;

verus! {

/// A byte pattern expected at an offset, as plain values.
pub struct PartModel {
    pub offset: nat,
    pub pattern: Seq<u8>,
}

/// A rule as plain values: the format it stands for and its alternatives,
/// each a sequence of parts.
pub struct RuleModel {
    pub format: FormatId,
    pub alternatives: Seq<Seq<PartModel>>,
}

/// Where a part's pattern ends in the buffer it is checked against.
pub open spec fn part_end(p: PartModel) -> int {
    (p.offset + p.pattern.len()) as int
}

/// The part's pattern stands in `b` at the part's offset; a buffer too short
/// to hold it does not match.
pub open spec fn part_matches(b: Seq<u8>, p: PartModel) -> bool {
    &&& part_end(p) <= b.len()
    &&& b.subrange(p.offset as int, part_end(p)) == p.pattern
}

/// Every part of the alternative matches.
pub open spec fn alternative_matches(b: Seq<u8>, parts: Seq<PartModel>) -> bool {
    forall|k: int| 0 <= k < parts.len() ==> part_matches(b, #[trigger] parts[k])
}

/// Some alternative of the rule matches.
pub open spec fn rule_matches(b: Seq<u8>, r: RuleModel) -> bool {
    exists|j: int| 0 <= j < r.alternatives.len() && alternative_matches(b, #[trigger] r.alternatives[j])
}

/// The format of the first rule in `rules` that matches `b`, or the default
/// format when none does.
pub open spec fn classify_in(rules: Seq<RuleModel>, b: Seq<u8>) -> FormatId
    decreases rules.len(),
{
    if rules.len() == 0 {
        default_format()
    } else if rule_matches(b, rules[0]) {
        rules[0].format
    } else {
        classify_in(rules.drop_first(), b)
    }
}

/// A part expecting `pattern` at `offset`.
pub open spec fn part_model(offset: nat, pattern: Seq<u8>) -> PartModel {
    PartModel { offset, pattern }
}

/// A rule for the format named by `media_type` and `extension`.
pub open spec fn rule_model(
    media_type: Seq<char>,
    extension: Seq<char>,
    alternatives: Seq<Seq<PartModel>>,
) -> RuleModel {
    RuleModel { format: FormatId { media_type, extension }, alternatives }
}

/// The rules held by a sequence of executable rules.
pub open spec fn rules_view(rules: Seq<Rule>) -> Seq<RuleModel> {
    Seq::new(rules.len(), |i: int| rules[i]@)
}

/// Each rule has at least one alternative and each alternative at least one part.
pub open spec fn rule_well_formed(r: RuleModel) -> bool {
    &&& r.alternatives.len() > 0
    &&& forall|j: int| 0 <= j < r.alternatives.len() ==> #[trigger] r.alternatives[j].len() > 0
}

/// A buffer of `n` zero bytes.
pub open spec fn zero_bytes(n: nat) -> Seq<u8> {
    Seq::new(n, |i: int| 0u8)
}

/// One of the first four bytes of the pattern is not zero.
pub open spec fn leads_with_nonzero(pattern: Seq<u8>) -> bool {
    ||| (pattern.len() > 0 && pattern[0] != 0)
    ||| (pattern.len() > 1 && pattern[1] != 0)
    ||| (pattern.len() > 2 && pattern[2] != 0)
    ||| (pattern.len() > 3 && pattern[3] != 0)
}

/// The first rule that matches decides the format: later rules are not
/// looked at.
pub proof fn lemma_first_matching_rule_decides(rules: Seq<RuleModel>, b: Seq<u8>, i: int)
    requires
        0 <= i < rules.len(),
        rule_matches(b, rules[i]),
        forall|j: int| 0 <= j < i ==> !rule_matches(b, #[trigger] rules[j]),
    ensures
        classify_in(rules, b) == rules[i].format,
    decreases i,
{
    if i > 0 {
        assert(!rule_matches(b, rules[0]));
        let rest = rules.drop_first();
        assert forall|j: int| 0 <= j < i - 1 implies !rule_matches(b, #[trigger] rest[j]) by {
            assert(rest[j] == rules[j + 1]);
        }
        lemma_first_matching_rule_decides(rest, b, i - 1);
    }
}

/// When no rule matches, the default format comes back.
pub proof fn lemma_no_matching_rule_gives_default(rules: Seq<RuleModel>, b: Seq<u8>)
    requires
        forall|j: int| 0 <= j < rules.len() ==> !rule_matches(b, #[trigger] rules[j]),
    ensures
        classify_in(rules, b) == default_format(),
    decreases rules.len(),
{
    if rules.len() > 0 {
        assert(!rule_matches(b, rules[0]));
        let rest = rules.drop_first();
        assert forall|j: int| 0 <= j < rest.len() implies !rule_matches(b, #[trigger] rest[j]) by {
            assert(rest[j] == rules[j + 1]);
        }
        lemma_no_matching_rule_gives_default(rest, b);
    }
}

/// Classification always yields a known format: the default one when no rule
/// matches, and otherwise the format of the first rule that matches.
pub proof fn lemma_result_is_first_match_or_default(rules: Seq<RuleModel>, b: Seq<u8>)
    ensures
        (forall|j: int| 0 <= j < rules.len() ==> !rule_matches(b, #[trigger] rules[j]))
            ==> classify_in(rules, b) == default_format(),
        (exists|j: int| 0 <= j < rules.len() && rule_matches(b, #[trigger] rules[j])) ==> exists|i: int|
            {
                &&& 0 <= i < rules.len()
                &&& rule_matches(b, #[trigger] rules[i])
                &&& forall|j: int| 0 <= j < i ==> !rule_matches(b, #[trigger] rules[j])
                &&& classify_in(rules, b) == rules[i].format
            },
    decreases rules.len(),
{
    if forall|j: int| 0 <= j < rules.len() ==> !rule_matches(b, #[trigger] rules[j]) {
        lemma_no_matching_rule_gives_default(rules, b);
    }
    if exists|j: int| 0 <= j < rules.len() && rule_matches(b, #[trigger] rules[j]) {
        if rule_matches(b, rules[0]) {
            assert(classify_in(rules, b) == rules[0].format);
            assert(rule_matches(b, rules[0]));
        } else {
            let rest = rules.drop_first();
            let j0 = choose|j: int| 0 <= j < rules.len() && rule_matches(b, #[trigger] rules[j]);
            assert(rest[j0 - 1] == rules[j0]);
            lemma_result_is_first_match_or_default(rest, b);
            let i = choose|i: int|
                {
                    &&& 0 <= i < rest.len()
                    &&& rule_matches(b, #[trigger] rest[i])
                    &&& forall|j: int| 0 <= j < i ==> !rule_matches(b, #[trigger] rest[j])
                    &&& classify_in(rest, b) == rest[i].format
                };
            assert(rest[i] == rules[i + 1]);
            assert forall|j: int| 0 <= j < i + 1 implies !rule_matches(b, #[trigger] rules[j]) by {
                if j > 0 {
                    assert(rest[j - 1] == rules[j]);
                }
            }
            assert(rule_matches(b, rules[i + 1]));
        }
    }
}

/// A buffer too short to hold a part's pattern at its offset matches neither
/// that part nor any alternative that holds it.
pub proof fn lemma_short_buffer_misses_alternative(b: Seq<u8>, parts: Seq<PartModel>, k: int)
    requires
        0 <= k < parts.len(),
        b.len() < part_end(parts[k]),
    ensures
        !part_matches(b, parts[k]),
        !alternative_matches(b, parts),
{
}

/// Some part of the alternative ends beyond the end of `b`.
pub open spec fn outruns(b: Seq<u8>, parts: Seq<PartModel>) -> bool {
    exists|k: int| 0 <= k < parts.len() && b.len() < part_end(#[trigger] parts[k])
}

/// A rule each of whose alternatives holds a part that ends beyond the buffer
/// does not match it.
pub proof fn lemma_short_buffer_misses_rule(b: Seq<u8>, r: RuleModel)
    requires
        forall|j: int| 0 <= j < r.alternatives.len() ==> outruns(b, #[trigger] r.alternatives[j]),
    ensures
        !rule_matches(b, r),
{
    assert forall|j: int| 0 <= j < r.alternatives.len() implies !alternative_matches(
        b,
        #[trigger] r.alternatives[j],
    ) by {
        assert(outruns(b, r.alternatives[j]));
        let k = choose|k: int|
            0 <= k < r.alternatives[j].len() && b.len() < part_end(#[trigger] r.alternatives[j][k]);
        lemma_short_buffer_misses_alternative(b, r.alternatives[j], k);
    }
}

/// A buffer too short for every alternative of a rule is never given that
/// rule's format, when no other rule and not the default carry it.
pub proof fn lemma_short_buffer_never_gets_rule_format(rules: Seq<RuleModel>, b: Seq<u8>, i: int)
    requires
        0 <= i < rules.len(),
        forall|j: int|
            0 <= j < rules[i].alternatives.len() ==> outruns(b, #[trigger] rules[i].alternatives[j]),
        forall|j: int| 0 <= j < rules.len() && j != i ==> #[trigger] rules[j].format != rules[i].format,
        rules[i].format != default_format(),
    ensures
        classify_in(rules, b) != rules[i].format,
{
    lemma_short_buffer_misses_rule(b, rules[i]);
    lemma_result_is_first_match_or_default(rules, b);
    if exists|j: int| 0 <= j < rules.len() && rule_matches(b, #[trigger] rules[j]) {
        let k = choose|k: int|
            {
                &&& 0 <= k < rules.len()
                &&& rule_matches(b, #[trigger] rules[k])
                &&& forall|j: int| 0 <= j < k ==> !rule_matches(b, #[trigger] rules[j])
                &&& classify_in(rules, b) == rules[k].format
            };
        assert(k != i);
        assert(rules[k].format != rules[i].format);
    }
}

/// The part's pattern covers position `t` of `b` and disagrees with it there.
pub open spec fn clashes_at(b: Seq<u8>, p: PartModel, t: int) -> bool {
    &&& p.offset <= t < part_end(p)
    &&& 0 <= t < b.len()
    &&& b[t] != p.pattern[t - p.offset]
}

/// A part that clashes with `b` at some position does not match it, nor does
/// any alternative that holds it.
pub proof fn lemma_clash_misses_alternative(b: Seq<u8>, parts: Seq<PartModel>, k: int, t: int)
    requires
        0 <= k < parts.len(),
        clashes_at(b, parts[k], t),
    ensures
        !part_matches(b, parts[k]),
        !alternative_matches(b, parts),
{
    let p = parts[k];
    if part_matches(b, p) {
        assert(b.subrange(p.offset as int, part_end(p))[t - p.offset] == b[t]);
    }
}

/// Rules in front of a table that do not match `b` do not change its format.
pub proof fn lemma_unmatched_front_is_skipped(front: Seq<RuleModel>, rest: Seq<RuleModel>, b: Seq<u8>)
    requires
        forall|j: int| 0 <= j < front.len() ==> !rule_matches(b, #[trigger] front[j]),
    ensures
        classify_in(front + rest, b) == classify_in(rest, b),
    decreases front.len(),
{
    if front.len() > 0 {
        let all = front + rest;
        assert(all[0] == front[0]);
        assert(!rule_matches(b, front[0]));
        assert(all.drop_first() =~= front.drop_first() + rest);
        let tail = front.drop_first();
        assert forall|j: int| 0 <= j < tail.len() implies !rule_matches(b, #[trigger] tail[j]) by {
            assert(tail[j] == front[j + 1]);
        }
        lemma_unmatched_front_is_skipped(tail, rest, b);
    } else {
        assert(front + rest =~= rest);
    }
}

/// No buffer of zero bytes matches an alternative whose first part has a
/// byte other than zero among its first four.
pub proof fn lemma_zero_bytes_miss_alternative(parts: Seq<PartModel>, n: nat)
    requires
        parts.len() > 0,
        leads_with_nonzero(parts[0].pattern),
    ensures
        !alternative_matches(zero_bytes(n), parts),
{
    let b = zero_bytes(n);
    let p = parts[0];
    if part_matches(b, p) {
        let window = b.subrange(p.offset as int, part_end(p));
        assert forall|m: int| 0 <= m < p.pattern.len() implies p.pattern[m] == 0 by {
            assert(window[m] == b[p.offset + m]);
        }
    }
}

/// Every part of every rule ends within the first `m` bytes.
pub open spec fn fits_window(rules: Seq<RuleModel>, m: nat) -> bool {
    forall|i: int, j: int, k: int|
        0 <= i < rules.len() && 0 <= j < rules[i].alternatives.len() && 0 <= k
            < rules[i].alternatives[j].len() ==> part_end(#[trigger] rules[i].alternatives[j][k])
            <= m
}

/// A part that ends within the first `n` bytes matches `b` exactly when it
/// matches those `n` bytes.
proof fn lemma_part_sees_prefix(b: Seq<u8>, p: PartModel, n: int)
    requires
        part_end(p) <= n <= b.len(),
    ensures
        part_matches(b, p) == part_matches(b.take(n), p),
{
    assert(b.subrange(p.offset as int, part_end(p)) =~= b.take(n).subrange(
        p.offset as int,
        part_end(p),
    ));
}

/// Bytes past a window that holds every part of every rule do not change
/// the format: classifying a buffer and classifying any prefix of it that
/// covers the window give the same result.
pub proof fn lemma_bytes_past_window_are_ignored(rules: Seq<RuleModel>, b: Seq<u8>, m: nat, n: int)
    requires
        fits_window(rules, m),
        m <= n <= b.len(),
    ensures
        classify_in(rules, b) == classify_in(rules, b.take(n)),
    decreases rules.len(),
{
    if rules.len() > 0 {
        let r = rules[0];
        assert forall|j: int| 0 <= j < r.alternatives.len() implies alternative_matches(
            b,
            #[trigger] r.alternatives[j],
        ) == alternative_matches(b.take(n), r.alternatives[j]) by {
            let parts = r.alternatives[j];
            assert forall|k: int| 0 <= k < parts.len() implies part_matches(b, #[trigger] parts[k])
                == part_matches(b.take(n), parts[k]) by {
                assert(part_end(rules[0].alternatives[j][k]) <= m);
                lemma_part_sees_prefix(b, parts[k], n);
            }
        }
        assert(rule_matches(b, r) == rule_matches(b.take(n), r));
        let rest = rules.drop_first();
        assert forall|i: int, j: int, k: int|
            0 <= i < rest.len() && 0 <= j < rest[i].alternatives.len() && 0 <= k
                < rest[i].alternatives[j].len() implies part_end(
            #[trigger] rest[i].alternatives[j][k],
        ) <= m by {
            assert(rest[i] == rules[i + 1]);
            assert(part_end(rules[i + 1].alternatives[j][k]) <= m);
        }
        lemma_bytes_past_window_are_ignored(rest, b, m, n);
    }
}

/// A pattern expected at an offset of the buffer.
pub struct SignaturePart {
    offset: usize,
    pattern: Vec<u8>,
}

impl View for SignaturePart {
    type V = PartModel;

    closed spec fn view(&self) -> PartModel {
        PartModel { offset: self.offset as nat, pattern: self.pattern@ }
    }
}

/// One alternative of a rule: parts that must all match.
pub struct Signature {
    parts: Vec<SignaturePart>,
}

impl View for Signature {
    type V = Seq<PartModel>;

    closed spec fn view(&self) -> Seq<PartModel> {
        Seq::new(self.parts@.len(), |k: int| self.parts@[k]@)
    }
}

/// A format together with the alternatives, any one of which identifies it.
pub struct Rule {
    format: FileFormat,
    alternatives: Vec<Signature>,
}

impl View for Rule {
    type V = RuleModel;

    closed spec fn view(&self) -> RuleModel {
        RuleModel {
            format: self.format@,
            alternatives: Seq::new(self.alternatives@.len(), |j: int| self.alternatives@[j]@),
        }
    }
}

/// An ordered sequence of rules; earlier rules take precedence.
pub struct RuleTable {
    rules: Vec<Rule>,
}

impl View for RuleTable {
    type V = Seq<RuleModel>;

    closed spec fn view(&self) -> Seq<RuleModel> {
        rules_view(self.rules@)
    }
}

impl SignaturePart {
    /// A part that expects `pattern` at `offset`.
    pub fn new(offset: usize, pattern: Vec<u8>) -> (r: SignaturePart)
        ensures
            r@ == (PartModel { offset: offset as nat, pattern: pattern@ }),
    {
        SignaturePart { offset, pattern }
    }

    /// Whether the pattern stands in `bytes` at the offset.
    pub fn matches(&self, bytes: &[u8]) -> (r: bool)
        ensures
            r == part_matches(bytes@, self@),
    {
        let n = self.pattern.len();
        if bytes.len() < self.offset || bytes.len() - self.offset < n {
            return false;
        }
        let end: usize = self.offset + n;
        let mut k: usize = 0;
        while k < n
            invariant
                n == self.pattern@.len(),
                end == self.offset + n,
                end <= bytes@.len(),
                k <= n,
                forall|m: int| 0 <= m < k ==> bytes@[self.offset + m] == self.pattern@[m],
            decreases n - k,
        {
            if bytes[self.offset + k] != self.pattern[k] {
                assert(bytes@.subrange(self.offset as int, self.offset + n)[k as int]
                    != self.pattern@[k as int]);
                return false;
            }
            k = k + 1;
        }
        assert(bytes@.subrange(self.offset as int, self.offset + n) =~= self.pattern@);
        true
    }
}

impl Signature {
    /// An alternative made of `parts`, all of which must match.
    pub fn new(parts: Vec<SignaturePart>) -> (r: Signature)
        requires
            parts@.len() > 0,
        ensures
            r@ == Seq::new(parts@.len(), |k: int| parts@[k]@),
    {
        Signature { parts }
    }

    /// Whether every part matches `bytes`.
    pub fn matches(&self, bytes: &[u8]) -> (r: bool)
        ensures
            r == alternative_matches(bytes@, self@),
    {
        let mut k: usize = 0;
        while k < self.parts.len()
            invariant
                k <= self.parts@.len(),
                forall|m: int| 0 <= m < k ==> part_matches(bytes@, #[trigger] self@[m]),
            decreases self.parts@.len() - k,
        {
            if !self.parts[k].matches(bytes) {
                assert(!part_matches(bytes@, self@[k as int]));
                return false;
            }
            k = k + 1;
        }
        true
    }
}

impl Rule {
    /// A rule for `format` with the given alternatives.
    pub fn new(format: FileFormat, alternatives: Vec<Signature>) -> (r: Rule)
        requires
            alternatives@.len() > 0,
        ensures
            r@ == (RuleModel {
                format: format@,
                alternatives: Seq::new(alternatives@.len(), |j: int| alternatives@[j]@),
            }),
    {
        Rule { format, alternatives }
    }

    /// Whether some alternative matches `bytes`.
    pub fn matches(&self, bytes: &[u8]) -> (r: bool)
        ensures
            r == rule_matches(bytes@, self@),
    {
        let mut j: usize = 0;
        while j < self.alternatives.len()
            invariant
                j <= self.alternatives@.len(),
                forall|m: int| 0 <= m < j ==> !alternative_matches(bytes@, #[trigger] self@.alternatives[m]),
            decreases self.alternatives@.len() - j,
        {
            if self.alternatives[j].matches(bytes) {
                assert(alternative_matches(bytes@, self@.alternatives[j as int]));
                return true;
            }
            j = j + 1;
        }
        false
    }

    /// The format this rule identifies.
    pub fn format(&self) -> (r: &FileFormat)
        ensures
            r@ == self@.format,
    {
        &self.format
    }
}

impl RuleTable {
    /// A table that scans `rules` in the order given.
    pub fn new(rules: Vec<Rule>) -> (r: RuleTable)
        ensures
            r@ == rules_view(rules@),
    {
        RuleTable { rules }
    }

    /// The format of the first rule that matches `bytes`, or the default
    /// format when none does.
    pub fn classify(&self, bytes: &[u8]) -> (r: FileFormat)
        ensures
            r@ == classify_in(self@, bytes@),
    {
        let n = self.rules.len();
        let mut i: usize = 0;
        assert(self@.subrange(0, n as int) =~= self@);
        while i < n
            invariant
                n == self@.len(),
                i <= n,
                classify_in(self@, bytes@) == classify_in(self@.subrange(i as int, n as int), bytes@),
            decreases n - i,
        {
            let ghost rest = self@.subrange(i as int, n as int);
            assert(rest.drop_first() =~= self@.subrange(i + 1, n as int));
            if self.rules[i].matches(bytes) {
                return self.rules[i].format().duplicate();
            }
            i = i + 1;
        }
        FileFormat::default()
    }
}

} // verus!
