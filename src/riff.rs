//! How the standard table tells apart the formats that share the RIFF
//! container: by the form type at offset 8, whatever the size field at
//! offset 4 holds.

use crate::format::FormatId;
use crate::rules::{
    rules_10_and_9_bytes, rules_12_bytes, rules_3_and_2_bytes, rules_4_bytes_first,
    rules_4_bytes_fourth, rules_4_bytes_second, rules_4_bytes_third, rules_5_bytes,
    rules_7_and_6_bytes, rules_8_bytes_first, rules_8_bytes_second, rules_long,
};
use crate::signature::{
    alternative_matches, clashes_at, classify_in, lemma_clash_misses_alternative,
    lemma_first_matching_rule_decides, lemma_short_buffer_misses_alternative,
    lemma_unmatched_front_is_skipped, part_end, part_matches, rule_matches, PartModel, RuleModel,
};
use crate::standard::{classify, standard_rules};
use vstd::prelude::*;

verus! {

/// The bytes "RIFF" that open every RIFF container.
pub open spec fn riff_magic() -> Seq<u8> {
    [0x52u8, 0x49, 0x46, 0x46]@
}

/// The form type of WAV audio, "WAVE".
pub open spec fn wave_form() -> Seq<u8> {
    [0x57u8, 0x41, 0x56, 0x45]@
}

/// The form type of a WebP image, "WEBP".
pub open spec fn webp_form() -> Seq<u8> {
    [0x57u8, 0x45, 0x42, 0x50]@
}

/// The form type of an AVI video, "AVI ".
pub open spec fn avi_form() -> Seq<u8> {
    [0x41u8, 0x56, 0x49, 0x20]@
}

/// `b` is a RIFF header of the given form, 12 to 67 bytes long; its size
/// field, bytes 4 to 7, may hold anything.
pub open spec fn riff_header(b: Seq<u8>, form: Seq<u8>) -> bool {
    &&& 12 <= b.len() < 68
    &&& b.subrange(0, 4) == riff_magic()
    &&& b.subrange(8, 12) == form
}

/// The part ends past `b`, or clashes with it at one of the positions that a
/// RIFF header fixes and that tell its forms apart.
spec fn header_rules_out(b: Seq<u8>, p: PartModel) -> bool {
    ||| b.len() < part_end(p)
    ||| clashes_at(b, p, 0)
    ||| clashes_at(b, p, 1)
    ||| clashes_at(b, p, 2)
    ||| clashes_at(b, p, 3)
    ||| clashes_at(b, p, 8)
    ||| clashes_at(b, p, 9)
}

/// One of the first three parts of the alternative is ruled out.
spec fn header_rules_out_alternative(b: Seq<u8>, parts: Seq<PartModel>) -> bool {
    ||| parts.len() > 0 && header_rules_out(b, parts[0])
    ||| parts.len() > 1 && header_rules_out(b, parts[1])
    ||| parts.len() > 2 && header_rules_out(b, parts[2])
}

/// Every alternative of the first `n` rules is ruled out.
spec fn header_rules_out_rules(b: Seq<u8>, rules: Seq<RuleModel>, n: int) -> bool {
    forall|i: int, j: int|
        0 <= i < n && 0 <= j < rules[i].alternatives.len() ==> header_rules_out_alternative(
            b,
            #[trigger] rules[i].alternatives[j],
        )
}

proof fn lemma_ruled_out_part(b: Seq<u8>, parts: Seq<PartModel>, k: int)
    requires
        0 <= k < parts.len(),
        header_rules_out(b, parts[k]),
    ensures
        !alternative_matches(b, parts),
{
    let p = parts[k];
    if b.len() < part_end(p) {
        lemma_short_buffer_misses_alternative(b, parts, k);
    } else if clashes_at(b, p, 0) {
        lemma_clash_misses_alternative(b, parts, k, 0);
    } else if clashes_at(b, p, 1) {
        lemma_clash_misses_alternative(b, parts, k, 1);
    } else if clashes_at(b, p, 2) {
        lemma_clash_misses_alternative(b, parts, k, 2);
    } else if clashes_at(b, p, 3) {
        lemma_clash_misses_alternative(b, parts, k, 3);
    } else if clashes_at(b, p, 8) {
        lemma_clash_misses_alternative(b, parts, k, 8);
    } else {
        lemma_clash_misses_alternative(b, parts, k, 9);
    }
}

proof fn lemma_ruled_out_rules_miss(b: Seq<u8>, rules: Seq<RuleModel>, n: int)
    requires
        0 <= n <= rules.len(),
        header_rules_out_rules(b, rules, n),
    ensures
        forall|i: int| 0 <= i < n ==> !rule_matches(b, #[trigger] rules[i]),
{
    assert forall|i: int| 0 <= i < n implies !rule_matches(b, #[trigger] rules[i]) by {
        assert forall|j: int| 0 <= j < rules[i].alternatives.len() implies !alternative_matches(
            b,
            #[trigger] rules[i].alternatives[j],
        ) by {
            let parts = rules[i].alternatives[j];
            assert(header_rules_out_alternative(b, parts));
            if parts.len() > 0 && header_rules_out(b, parts[0]) {
                lemma_ruled_out_part(b, parts, 0);
            } else if parts.len() > 1 && header_rules_out(b, parts[1]) {
                lemma_ruled_out_part(b, parts, 1);
            } else {
                lemma_ruled_out_part(b, parts, 2);
            }
        }
    }
}

/// The header bytes that the rules look at, one by one.
proof fn lemma_header_bytes(b: Seq<u8>, form: Seq<u8>)
    requires
        riff_header(b, form),
    ensures
        b[0] == 0x52u8,
        b[1] == 0x49u8,
        b[2] == 0x46u8,
        b[3] == 0x46u8,
        b[8] == form[0],
        b[9] == form[1],
{
    assert(b[0] == b.subrange(0, 4)[0]);
    assert(b[1] == b.subrange(0, 4)[1]);
    assert(b[2] == b.subrange(0, 4)[2]);
    assert(b[3] == b.subrange(0, 4)[3]);
    assert(b[8] == b.subrange(8, 12)[0]);
    assert(b[9] == b.subrange(8, 12)[1]);
}

/// No rule with a signature longer than eight bytes matches a short RIFF
/// header, whatever its form.
proof fn lemma_riff_passes_long_rules(b: Seq<u8>, form: Seq<u8>)
    requires
        riff_header(b, form),
    ensures
        forall|i: int| 0 <= i < rules_long().len() ==> !rule_matches(b, #[trigger] rules_long()[i]),
        forall|i: int| 0 <= i < rules_12_bytes().len() ==> !rule_matches(b, #[trigger] rules_12_bytes()[i]),
        forall|i: int|
            0 <= i < rules_10_and_9_bytes().len() ==> !rule_matches(
                b,
                #[trigger] rules_10_and_9_bytes()[i],
            ),
{
    lemma_header_bytes(b, form);
    assert(header_rules_out_rules(b, rules_long(), rules_long().len() as int));
    lemma_ruled_out_rules_miss(b, rules_long(), rules_long().len() as int);
    assert(header_rules_out_rules(b, rules_12_bytes(), rules_12_bytes().len() as int));
    lemma_ruled_out_rules_miss(b, rules_12_bytes(), rules_12_bytes().len() as int);
    assert(header_rules_out_rules(b, rules_10_and_9_bytes(), rules_10_and_9_bytes().len() as int));
    lemma_ruled_out_rules_miss(b, rules_10_and_9_bytes(), rules_10_and_9_bytes().len() as int);
}

/// The rules from the 5-byte signatures on.
spec fn rules_after_8_bytes() -> Seq<RuleModel> {
    rules_7_and_6_bytes() + rules_5_bytes() + rules_4_bytes_first() + rules_4_bytes_second()
        + rules_4_bytes_third() + rules_4_bytes_fourth() + rules_3_and_2_bytes()
}

/// Regroups a sum of twelve tables so that the first five stand apart.
proof fn lemma_regroup(
    g1: Seq<RuleModel>,
    g2: Seq<RuleModel>,
    g3: Seq<RuleModel>,
    g4: Seq<RuleModel>,
    g5: Seq<RuleModel>,
    g6: Seq<RuleModel>,
    g7: Seq<RuleModel>,
    g8: Seq<RuleModel>,
    g9: Seq<RuleModel>,
    g10: Seq<RuleModel>,
    g11: Seq<RuleModel>,
    g12: Seq<RuleModel>,
)
    ensures
        g1 + g2 + g3 + g4 + g5 + g6 + g7 + g8 + g9 + g10 + g11 + g12 == g1 + (g2 + (g3 + (g4 + (g5
            + (g6 + g7 + g8 + g9 + g10 + g11 + g12))))),
{
    assert(g1 + g2 + g3 + g4 + g5 + g6 + g7 + g8 + g9 + g10 + g11 + g12 =~= g1 + (g2 + (g3 + (g4
        + (g5 + (g6 + g7 + g8 + g9 + g10 + g11 + g12))))));
}

/// A RIFF header is classified by the 8-byte rules and those after them.
proof fn lemma_riff_starts_at_8_bytes(b: Seq<u8>, form: Seq<u8>)
    requires
        riff_header(b, form),
    ensures
        classify(b) == classify_in(
            rules_8_bytes_first() + (rules_8_bytes_second() + rules_after_8_bytes()),
            b,
        ),
{
    lemma_regroup(
        rules_long(),
        rules_12_bytes(),
        rules_10_and_9_bytes(),
        rules_8_bytes_first(),
        rules_8_bytes_second(),
        rules_7_and_6_bytes(),
        rules_5_bytes(),
        rules_4_bytes_first(),
        rules_4_bytes_second(),
        rules_4_bytes_third(),
        rules_4_bytes_fourth(),
        rules_3_and_2_bytes(),
    );
    let g4 = rules_8_bytes_first() + (rules_8_bytes_second() + rules_after_8_bytes());
    let g3 = rules_10_and_9_bytes() + g4;
    let g2 = rules_12_bytes() + g3;
    lemma_riff_passes_long_rules(b, form);
    lemma_unmatched_front_is_skipped(rules_long(), g2, b);
    lemma_unmatched_front_is_skipped(rules_12_bytes(), g3, b);
    lemma_unmatched_front_is_skipped(rules_10_and_9_bytes(), g4, b);
}

/// No rule of the first 8-byte group matches a RIFF header of any form but
/// WAVE.
proof fn lemma_riff_misses_8_bytes_first(b: Seq<u8>, form: Seq<u8>)
    requires
        riff_header(b, form),
        form[0] != 0x69u8,
        !(form[0] == 0x57u8 && form[1] == 0x41u8),
    ensures
        forall|i: int|
            0 <= i < rules_8_bytes_first().len() ==> !rule_matches(
                b,
                #[trigger] rules_8_bytes_first()[i],
            ),
{
    lemma_header_bytes(b, form);
    let g = rules_8_bytes_first();
    assert(header_rules_out_rules(b, g, g.len() as int));
    lemma_ruled_out_rules_miss(b, g, g.len() as int);
}

/// A RIFF header of any form but WAVE is classified by the rules after the
/// first 8-byte group.
proof fn lemma_riff_passes_8_bytes_first(b: Seq<u8>, form: Seq<u8>)
    requires
        riff_header(b, form),
        form[0] != 0x69u8,
        !(form[0] == 0x57u8 && form[1] == 0x41u8),
    ensures
        classify(b) == classify_in(rules_8_bytes_second() + rules_after_8_bytes(), b),
{
    lemma_riff_starts_at_8_bytes(b, form);
    lemma_riff_misses_8_bytes_first(b, form);
    lemma_unmatched_front_is_skipped(
        rules_8_bytes_first(),
        rules_8_bytes_second() + rules_after_8_bytes(),
        b,
    );
}

/// The rule at `i` of `front` decides, when it matches and none before it does.
proof fn lemma_decided_in_front(front: Seq<RuleModel>, rest: Seq<RuleModel>, b: Seq<u8>, i: int)
    requires
        0 <= i < front.len(),
        rule_matches(b, front[i]),
        forall|j: int| 0 <= j < i ==> !rule_matches(b, #[trigger] front[j]),
    ensures
        classify_in(front + rest, b) == front[i].format,
{
    let all = front + rest;
    assert forall|j: int| 0 <= j < i implies !rule_matches(b, #[trigger] all[j]) by {
        assert(all[j] == front[j]);
    }
    assert(all[i] == front[i]);
    lemma_first_matching_rule_decides(all, b, i);
}

/// In the first 8-byte group, the WAV rule is the first to match a WAVE header.
proof fn lemma_wave_header_meets_wav_rule(b: Seq<u8>)
    requires
        riff_header(b, wave_form()),
    ensures
        forall|i: int| 0 <= i < 11 ==> !rule_matches(b, #[trigger] rules_8_bytes_first()[i]),
        rule_matches(b, rules_8_bytes_first()[11]),
        rules_8_bytes_first()[11].format == (FormatId {
            media_type: "audio/vnd.wave"@,
            extension: "wav"@,
        }),
{
    lemma_header_bytes(b, wave_form());
    let g = rules_8_bytes_first();
    assert(header_rules_out_rules(b, g, 11));
    lemma_ruled_out_rules_miss(b, g, 11);
    let wav = g[11];
    assert(part_matches(b, wav.alternatives[0][0]));
    assert(part_matches(b, wav.alternatives[0][1]));
    assert(alternative_matches(b, wav.alternatives[0]));
}

proof fn lemma_riff_wave(b: Seq<u8>)
    requires
        riff_header(b, wave_form()),
    ensures
        classify(b) == (FormatId { media_type: "audio/vnd.wave"@, extension: "wav"@ }),
{
    lemma_riff_starts_at_8_bytes(b, wave_form());
    lemma_wave_header_meets_wav_rule(b);
    lemma_decided_in_front(
        rules_8_bytes_first(),
        rules_8_bytes_second() + rules_after_8_bytes(),
        b,
        11,
    );
}

/// In the second 8-byte group, the WEBP rule is the first to match a
/// WEBP header.
proof fn lemma_webp_header_meets_webp_rule(b: Seq<u8>)
    requires
        riff_header(b, webp_form()),
    ensures
        forall|i: int| 0 <= i < 3 ==> !rule_matches(b, #[trigger] rules_8_bytes_second()[i]),
        rule_matches(b, rules_8_bytes_second()[3]),
        rules_8_bytes_second()[3].format == (FormatId {
            media_type: "image/webp"@,
            extension: "webp"@,
        }),
{
    lemma_header_bytes(b, webp_form());
    let g = rules_8_bytes_second();
    assert(header_rules_out_rules(b, g, 3));
    lemma_ruled_out_rules_miss(b, g, 3);
    let r = g[3];
    assert(part_matches(b, r.alternatives[0][0]));
    assert(part_matches(b, r.alternatives[0][1]));
    assert(alternative_matches(b, r.alternatives[0]));
}

proof fn lemma_riff_webp(b: Seq<u8>)
    requires
        riff_header(b, webp_form()),
    ensures
        classify(b) == (FormatId { media_type: "image/webp"@, extension: "webp"@ }),
{
    lemma_header_bytes(b, webp_form());
    lemma_riff_passes_8_bytes_first(b, webp_form());
    lemma_webp_header_meets_webp_rule(b);
    lemma_decided_in_front(rules_8_bytes_second(), rules_after_8_bytes(), b, 3);
}

/// In the second 8-byte group, the AVI rule is the first to match a
/// AVI header.
proof fn lemma_avi_header_meets_avi_rule(b: Seq<u8>)
    requires
        riff_header(b, avi_form()),
    ensures
        forall|i: int| 0 <= i < 5 ==> !rule_matches(b, #[trigger] rules_8_bytes_second()[i]),
        rule_matches(b, rules_8_bytes_second()[5]),
        rules_8_bytes_second()[5].format == (FormatId {
            media_type: "video/avi"@,
            extension: "avi"@,
        }),
{
    lemma_header_bytes(b, avi_form());
    let g = rules_8_bytes_second();
    assert(header_rules_out_rules(b, g, 5));
    lemma_ruled_out_rules_miss(b, g, 5);
    let r = g[5];
    assert(part_matches(b, r.alternatives[0][0]));
    assert(part_matches(b, r.alternatives[0][1]));
    assert(alternative_matches(b, r.alternatives[0]));
}

proof fn lemma_riff_avi(b: Seq<u8>)
    requires
        riff_header(b, avi_form()),
    ensures
        classify(b) == (FormatId { media_type: "video/avi"@, extension: "avi"@ }),
{
    lemma_header_bytes(b, avi_form());
    lemma_riff_passes_8_bytes_first(b, avi_form());
    lemma_avi_header_meets_avi_rule(b);
    lemma_decided_in_front(rules_8_bytes_second(), rules_after_8_bytes(), b, 5);
}

/// A RIFF container of 12 to 67 bytes is classified by its form type at
/// offset 8, whatever its size field holds: "WAVE" is WAV audio, "WEBP" a
/// WebP image and "AVI " an AVI video.
pub proof fn lemma_riff_form_decides(b: Seq<u8>)
    requires
        12 <= b.len() < 68,
        b.subrange(0, 4) == riff_magic(),
    ensures
        b.subrange(8, 12) == wave_form() ==> classify(b) == (FormatId {
            media_type: "audio/vnd.wave"@,
            extension: "wav"@,
        }),
        b.subrange(8, 12) == webp_form() ==> classify(b) == (FormatId {
            media_type: "image/webp"@,
            extension: "webp"@,
        }),
        b.subrange(8, 12) == avi_form() ==> classify(b) == (FormatId {
            media_type: "video/avi"@,
            extension: "avi"@,
        }),
{
    if b.subrange(8, 12) == wave_form() {
        lemma_riff_wave(b);
    }
    if b.subrange(8, 12) == webp_form() {
        lemma_riff_webp(b);
    }
    if b.subrange(8, 12) == avi_form() {
        lemma_riff_avi(b);
    }
}

} // verus!
