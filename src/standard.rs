//! The standard table of signature rules, and what holds of it.
//!
//! Rules are listed from the longest signature to the shortest, so that a
//! buffer carrying a specific signature is not taken for a more generic format
//! whose shorter signature it also carries (a ZIP-based document before plain
//! ZIP, a RIFF or Ogg payload before its container).

use crate::format::{default_format, FileFormat, FormatId};
use crate::rules::{
    push_rules_long, rules_long,
    push_rules_12_bytes, rules_12_bytes,
    push_rules_10_and_9_bytes, rules_10_and_9_bytes,
    push_rules_8_bytes_first, rules_8_bytes_first,
    push_rules_8_bytes_second, rules_8_bytes_second,
    push_rules_7_and_6_bytes, rules_7_and_6_bytes,
    push_rules_5_bytes, rules_5_bytes,
    push_rules_4_bytes_first, rules_4_bytes_first,
    push_rules_4_bytes_second, rules_4_bytes_second,
    push_rules_4_bytes_third, rules_4_bytes_third,
    push_rules_4_bytes_fourth, rules_4_bytes_fourth,
    push_rules_3_and_2_bytes, rules_3_and_2_bytes,
};
use crate::signature::{
    alternative_matches, classify_in, fits_window, leads_with_nonzero,
    lemma_bytes_past_window_are_ignored, lemma_no_matching_rule_gives_default,
    lemma_zero_bytes_miss_alternative, part_end, rule_matches, rule_well_formed, rules_view,
    zero_bytes, Rule, RuleModel, RuleTable,
};
use vstd::prelude::*;

verus! {

/// The standard rules, in order of precedence.
pub open spec fn standard_rules() -> Seq<RuleModel> {
    rules_long()
        + rules_12_bytes()
        + rules_10_and_9_bytes()
        + rules_8_bytes_first()
        + rules_8_bytes_second()
        + rules_7_and_6_bytes()
        + rules_5_bytes()
        + rules_4_bytes_first()
        + rules_4_bytes_second()
        + rules_4_bytes_third()
        + rules_4_bytes_fourth()
        + rules_3_and_2_bytes()
}

/// The format that the standard rules give to `b`.
pub open spec fn classify(b: Seq<u8>) -> FormatId {
    classify_in(standard_rules(), b)
}

/// Every rule has an alternative, and every alternative starts with a part
/// that has a byte other than zero among its first four.
pub open spec fn leads_are_nonzero(rules: Seq<RuleModel>) -> bool {
    &&& forall|i: int| 0 <= i < rules.len() ==> #[trigger] rules[i].alternatives.len() > 0
    &&& forall|i: int, j: int|
        0 <= i < rules.len() && 0 <= j < rules[i].alternatives.len() ==> {
            &&& (#[trigger] rules[i].alternatives[j]).len() > 0
            &&& leads_with_nonzero(rules[i].alternatives[j][0].pattern)
        }
}

proof fn lemma_leads_are_nonzero_concat(a: Seq<RuleModel>, b: Seq<RuleModel>)
    requires
        leads_are_nonzero(a),
        leads_are_nonzero(b),
    ensures
        leads_are_nonzero(a + b),
{
    let c = a + b;
    assert forall|i: int| 0 <= i < c.len() implies #[trigger] c[i].alternatives.len() > 0 by {
        if i >= a.len() {
            assert(c[i] == b[i - a.len()]);
        }
    }
    assert forall|i: int, j: int|
        0 <= i < c.len() && 0 <= j < c[i].alternatives.len() implies {
            &&& (#[trigger] c[i].alternatives[j]).len() > 0
            &&& leads_with_nonzero(c[i].alternatives[j][0].pattern)
        } by {
        if i >= a.len() {
            assert(c[i] == b[i - a.len()]);
            assert(b[i - a.len()].alternatives[j] == c[i].alternatives[j]);
        } else {
            assert(a[i].alternatives[j] == c[i].alternatives[j]);
        }
    }
}

proof fn lemma_standard_leads_are_nonzero()
    ensures
        leads_are_nonzero(standard_rules()),
{
    let mut acc = rules_long();
    assert(leads_are_nonzero(acc));
    assert(leads_are_nonzero(rules_12_bytes()));
    lemma_leads_are_nonzero_concat(acc, rules_12_bytes());
    acc = acc + rules_12_bytes();
    assert(leads_are_nonzero(rules_10_and_9_bytes()));
    lemma_leads_are_nonzero_concat(acc, rules_10_and_9_bytes());
    acc = acc + rules_10_and_9_bytes();
    assert(leads_are_nonzero(rules_8_bytes_first()));
    lemma_leads_are_nonzero_concat(acc, rules_8_bytes_first());
    acc = acc + rules_8_bytes_first();
    assert(leads_are_nonzero(rules_8_bytes_second()));
    lemma_leads_are_nonzero_concat(acc, rules_8_bytes_second());
    acc = acc + rules_8_bytes_second();
    assert(leads_are_nonzero(rules_7_and_6_bytes()));
    lemma_leads_are_nonzero_concat(acc, rules_7_and_6_bytes());
    acc = acc + rules_7_and_6_bytes();
    assert(leads_are_nonzero(rules_5_bytes()));
    lemma_leads_are_nonzero_concat(acc, rules_5_bytes());
    acc = acc + rules_5_bytes();
    assert(leads_are_nonzero(rules_4_bytes_first()));
    lemma_leads_are_nonzero_concat(acc, rules_4_bytes_first());
    acc = acc + rules_4_bytes_first();
    assert(leads_are_nonzero(rules_4_bytes_second()));
    lemma_leads_are_nonzero_concat(acc, rules_4_bytes_second());
    acc = acc + rules_4_bytes_second();
    assert(leads_are_nonzero(rules_4_bytes_third()));
    lemma_leads_are_nonzero_concat(acc, rules_4_bytes_third());
    acc = acc + rules_4_bytes_third();
    assert(leads_are_nonzero(rules_4_bytes_fourth()));
    lemma_leads_are_nonzero_concat(acc, rules_4_bytes_fourth());
    acc = acc + rules_4_bytes_fourth();
    assert(leads_are_nonzero(rules_3_and_2_bytes()));
    lemma_leads_are_nonzero_concat(acc, rules_3_and_2_bytes());
    acc = acc + rules_3_and_2_bytes();
}

/// No buffer of zero bytes, the empty one included, is recognised: it gets
/// the default format.
pub proof fn lemma_zero_bytes_unrecognised(n: nat)
    ensures
        classify(zero_bytes(n)) == default_format(),
{
    let rules = standard_rules();
    let b = zero_bytes(n);
    lemma_standard_leads_are_nonzero();
    assert forall|i: int| 0 <= i < rules.len() implies !rule_matches(b, #[trigger] rules[i]) by {
        let r = rules[i];
        assert forall|j: int| 0 <= j < r.alternatives.len() implies !alternative_matches(
            b,
            #[trigger] r.alternatives[j],
        ) by {
            lemma_zero_bytes_miss_alternative(r.alternatives[j], n);
        }
    }
    lemma_no_matching_rule_gives_default(rules, b);
}

/// Every standard rule has at least one alternative, and every alternative at
/// least one part.
pub proof fn lemma_standard_rules_well_formed()
    ensures
        forall|i: int| 0 <= i < standard_rules().len() ==> rule_well_formed(#[trigger] standard_rules()[i]),
{
    lemma_standard_leads_are_nonzero();
}

proof fn lemma_fits_window_concat(a: Seq<RuleModel>, b: Seq<RuleModel>, m: nat)
    requires
        fits_window(a, m),
        fits_window(b, m),
    ensures
        fits_window(a + b, m),
{
    let c = a + b;
    assert forall|i: int, j: int, k: int|
        0 <= i < c.len() && 0 <= j < c[i].alternatives.len() && 0 <= k
            < c[i].alternatives[j].len() implies part_end(#[trigger] c[i].alternatives[j][k])
        <= m by {
        if i >= a.len() {
            assert(c[i] == b[i - a.len()]);
            assert(part_end(b[i - a.len()].alternatives[j][k]) <= m);
        } else {
            assert(c[i] == a[i]);
            assert(part_end(a[i].alternatives[j][k]) <= m);
        }
    }
}

proof fn lemma_standard_rules_fit_window()
    ensures
        fits_window(standard_rules(), FileFormat::MAX_BYTES as nat),
{
    let m = FileFormat::MAX_BYTES as nat;
    let mut acc = rules_long();
    assert(fits_window(acc, m));
    assert(fits_window(rules_12_bytes(), m));
    lemma_fits_window_concat(acc, rules_12_bytes(), m);
    acc = acc + rules_12_bytes();
    assert(fits_window(rules_10_and_9_bytes(), m));
    lemma_fits_window_concat(acc, rules_10_and_9_bytes(), m);
    acc = acc + rules_10_and_9_bytes();
    assert(fits_window(rules_8_bytes_first(), m));
    lemma_fits_window_concat(acc, rules_8_bytes_first(), m);
    acc = acc + rules_8_bytes_first();
    assert(fits_window(rules_8_bytes_second(), m));
    lemma_fits_window_concat(acc, rules_8_bytes_second(), m);
    acc = acc + rules_8_bytes_second();
    assert(fits_window(rules_7_and_6_bytes(), m));
    lemma_fits_window_concat(acc, rules_7_and_6_bytes(), m);
    acc = acc + rules_7_and_6_bytes();
    assert(fits_window(rules_5_bytes(), m));
    lemma_fits_window_concat(acc, rules_5_bytes(), m);
    acc = acc + rules_5_bytes();
    assert(fits_window(rules_4_bytes_first(), m));
    lemma_fits_window_concat(acc, rules_4_bytes_first(), m);
    acc = acc + rules_4_bytes_first();
    assert(fits_window(rules_4_bytes_second(), m));
    lemma_fits_window_concat(acc, rules_4_bytes_second(), m);
    acc = acc + rules_4_bytes_second();
    assert(fits_window(rules_4_bytes_third(), m));
    lemma_fits_window_concat(acc, rules_4_bytes_third(), m);
    acc = acc + rules_4_bytes_third();
    assert(fits_window(rules_4_bytes_fourth(), m));
    lemma_fits_window_concat(acc, rules_4_bytes_fourth(), m);
    acc = acc + rules_4_bytes_fourth();
    assert(fits_window(rules_3_and_2_bytes(), m));
    lemma_fits_window_concat(acc, rules_3_and_2_bytes(), m);
    acc = acc + rules_3_and_2_bytes();
}

/// Every standard part ends within the first `MAX_BYTES` bytes, so reading
/// more of a source cannot change its format: any prefix of at least that
/// many bytes is classified as the whole buffer is.
pub proof fn lemma_max_bytes_suffice(b: Seq<u8>, n: int)
    requires
        FileFormat::MAX_BYTES <= n <= b.len(),
    ensures
        classify(b) == classify(b.take(n)),
{
    lemma_standard_rules_fit_window();
    lemma_bytes_past_window_are_ignored(standard_rules(), b, FileFormat::MAX_BYTES as nat, n);
}

impl RuleTable {
    /// The table of standard rules.
    pub fn standard() -> (r: RuleTable)
        ensures
            r@ == standard_rules(),
    {
        let mut rules: Vec<Rule> = Vec::new();
        push_rules_long(&mut rules);
        push_rules_12_bytes(&mut rules);
        push_rules_10_and_9_bytes(&mut rules);
        push_rules_8_bytes_first(&mut rules);
        push_rules_8_bytes_second(&mut rules);
        push_rules_7_and_6_bytes(&mut rules);
        push_rules_5_bytes(&mut rules);
        push_rules_4_bytes_first(&mut rules);
        push_rules_4_bytes_second(&mut rules);
        push_rules_4_bytes_third(&mut rules);
        push_rules_4_bytes_fourth(&mut rules);
        push_rules_3_and_2_bytes(&mut rules);
        assert(rules_view(rules@) =~= standard_rules());
        RuleTable::new(rules)
    }
}

} // verus!
