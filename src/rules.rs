//! The standard signature rules, in groups by signature length.
//!
//! Each group is written twice: as a sequence of rule models, which the
//! contracts speak of, and as the code that builds the same rules, which is
//! proved to build exactly that sequence.

use crate::format::FileFormat;
use crate::signature::{part_model, rule_model, rules_view, Rule, RuleModel, Signature, SignaturePart};
use vstd::prelude::*;

verus! {
/// Rules with long signatures, from 59 down to 14 bytes.
pub open spec fn rules_long() -> Seq<RuleModel> {
    seq![
        rule_model("application/vnd.oasis.opendocument.presentation"@, "odp"@, seq![
            seq![
                part_model(0, [0x50u8, 0x4B, 0x03, 0x04]@),
                // "mimetype"
                part_model(30, [0x6Du8, 0x69, 0x6D, 0x65, 0x74, 0x79, 0x70, 0x65]@),
                // "application/vnd.oasis.opendocument.presentation"
                part_model(38, [
                    0x61u8, 0x70, 0x70, 0x6C, 0x69, 0x63, 0x61, 0x74, 0x69, 0x6F, 0x6E, 0x2F, 0x76,
                    0x6E, 0x64, 0x2E, 0x6F, 0x61, 0x73, 0x69, 0x73, 0x2E, 0x6F, 0x70, 0x65, 0x6E,
                    0x64, 0x6F, 0x63, 0x75, 0x6D, 0x65, 0x6E, 0x74, 0x2E, 0x70, 0x72, 0x65, 0x73,
                    0x65, 0x6E, 0x74, 0x61, 0x74, 0x69, 0x6F, 0x6E,
                ]@),
            ],
        ]),
        rule_model("application/vnd.oasis.opendocument.spreadsheet"@, "ods"@, seq![
            seq![
                part_model(0, [0x50u8, 0x4B, 0x03, 0x04]@),
                // "mimetype"
                part_model(30, [0x6Du8, 0x69, 0x6D, 0x65, 0x74, 0x79, 0x70, 0x65]@),
                // "application/vnd.oasis.opendocument.spreadsheet"
                part_model(38, [
                    0x61u8, 0x70, 0x70, 0x6C, 0x69, 0x63, 0x61, 0x74, 0x69, 0x6F, 0x6E, 0x2F, 0x76,
                    0x6E, 0x64, 0x2E, 0x6F, 0x61, 0x73, 0x69, 0x73, 0x2E, 0x6F, 0x70, 0x65, 0x6E,
                    0x64, 0x6F, 0x63, 0x75, 0x6D, 0x65, 0x6E, 0x74, 0x2E, 0x73, 0x70, 0x72, 0x65,
                    0x61, 0x64, 0x73, 0x68, 0x65, 0x65, 0x74,
                ]@),
            ],
        ]),
        rule_model("application/vnd.oasis.opendocument.graphics"@, "odg"@, seq![
            seq![
                part_model(0, [0x50u8, 0x4B, 0x03, 0x04]@),
                // "mimetype"
                part_model(30, [0x6Du8, 0x69, 0x6D, 0x65, 0x74, 0x79, 0x70, 0x65]@),
                // "application/vnd.oasis.opendocument.graphics"
                part_model(38, [
                    0x61u8, 0x70, 0x70, 0x6C, 0x69, 0x63, 0x61, 0x74, 0x69, 0x6F, 0x6E, 0x2F, 0x76,
                    0x6E, 0x64, 0x2E, 0x6F, 0x61, 0x73, 0x69, 0x73, 0x2E, 0x6F, 0x70, 0x65, 0x6E,
                    0x64, 0x6F, 0x63, 0x75, 0x6D, 0x65, 0x6E, 0x74, 0x2E, 0x67, 0x72, 0x61, 0x70,
                    0x68, 0x69, 0x63, 0x73,
                ]@),
            ],
        ]),
        rule_model("application/vnd.oasis.opendocument.text"@, "odt"@, seq![
            seq![
                part_model(0, [0x50u8, 0x4B, 0x03, 0x04]@),
                // "mimetype"
                part_model(30, [0x6Du8, 0x69, 0x6D, 0x65, 0x74, 0x79, 0x70, 0x65]@),
                // "application/vnd.oasis.opendocument.text"
                part_model(38, [
                    0x61u8, 0x70, 0x70, 0x6C, 0x69, 0x63, 0x61, 0x74, 0x69, 0x6F, 0x6E, 0x2F, 0x76,
                    0x6E, 0x64, 0x2E, 0x6F, 0x61, 0x73, 0x69, 0x73, 0x2E, 0x6F, 0x70, 0x65, 0x6E,
                    0x64, 0x6F, 0x63, 0x75, 0x6D, 0x65, 0x6E, 0x74, 0x2E, 0x74, 0x65, 0x78, 0x74,
                ]@),
            ],
        ]),
        rule_model("application/x-virtualbox-vdi"@, "vdi"@, seq![
            seq![
                // "<<< Oracle VM VirtualBox Disk Image >>>"
                part_model(0, [
                    0x3Cu8, 0x3C, 0x3C, 0x20, 0x4F, 0x72, 0x61, 0x63, 0x6C, 0x65, 0x20, 0x56, 0x4D,
                    0x20, 0x56, 0x69, 0x72, 0x74, 0x75, 0x61, 0x6C, 0x42, 0x6F, 0x78, 0x20, 0x44,
                    0x69, 0x73, 0x6B, 0x20, 0x49, 0x6D, 0x61, 0x67, 0x65, 0x20, 0x3E, 0x3E, 0x3E,
                ]@),
            ],
        ]),
        rule_model("application/epub+zip"@, "epub"@, seq![
            seq![
                part_model(0, [0x50u8, 0x4B, 0x03, 0x04]@),
                // "mimetype"
                part_model(30, [0x6Du8, 0x69, 0x6D, 0x65, 0x74, 0x79, 0x70, 0x65]@),
                // "application/epub+zip"
                part_model(38, [
                    0x61u8, 0x70, 0x70, 0x6C, 0x69, 0x63, 0x61, 0x74, 0x69, 0x6F, 0x6E, 0x2F, 0x65,
                    0x70, 0x75, 0x62, 0x2B, 0x7A, 0x69, 0x70,
                ]@),
            ],
        ]),
        rule_model("application/vnd.sketchup.skp"@, "skp"@, seq![
            seq![
                part_model(0, [
                    0xFFu8, 0xFE, 0xFF, 0x0E, 0x53, 0x00, 0x6B, 0x00, 0x65, 0x00, 0x74, 0x00, 0x63,
                    0x00, 0x68, 0x00,
                ]@),
                part_model(16, [
                    0x55u8, 0x00, 0x70, 0x00, 0x20, 0x00, 0x4D, 0x00, 0x6F, 0x00, 0x64, 0x00, 0x65,
                    0x00, 0x6C, 0x00,
                ]@),
            ],
        ]),
        rule_model("application/vnd.debian.binary-package"@, "deb"@, seq![
            seq![
                part_model(0, [0x21u8, 0x3C, 0x61, 0x72, 0x63, 0x68, 0x3E, 0x0A]@),
                // "debian-binary"
                part_model(8, [
                    0x64u8, 0x65, 0x62, 0x69, 0x61, 0x6E, 0x2D, 0x62, 0x69, 0x6E, 0x61, 0x72, 0x79,
                ]@),
            ],
        ]),
        rule_model("application/vnd.sqlite3"@, "sqlite"@, seq![
            seq![
                part_model(0, [
                    0x53u8, 0x51, 0x4C, 0x69, 0x74, 0x65, 0x20, 0x66, 0x6F, 0x72, 0x6D, 0x61, 0x74,
                    0x20, 0x33, 0x00,
                ]@),
            ],
        ]),
        rule_model("application/x-indesign"@, "indd"@, seq![
            seq![
                part_model(0, [
                    0x06u8, 0x06, 0xED, 0xF5, 0xD8, 0x1D, 0x46, 0xE5, 0xBD, 0x31, 0xEF, 0xE7, 0xFE,
                    0x74, 0xB7, 0x1D,
                ]@),
            ],
        ]),
        rule_model("application/mxf"@, "mxf"@, seq![
            seq![
                part_model(0, [
                    0x06u8, 0x0E, 0x2B, 0x34, 0x02, 0x05, 0x01, 0x01, 0x0D, 0x01, 0x02, 0x01, 0x01,
                    0x02,
                ]@),
            ],
        ]),
    ]
}

/// Appends the rules of `rules_long`.
pub(crate) fn push_rules_long(rules: &mut Vec<Rule>)
    ensures
        rules_view(final(rules)@) == rules_view(old(rules)@) + rules_long(),
{
    let ghost start = rules_view(rules@);
    // application/vnd.oasis.opendocument.presentation
    let alt = Signature::new(vec![
        SignaturePart::new(0, vec![0x50, 0x4B, 0x03, 0x04]),
        // "mimetype"
        SignaturePart::new(30, vec![0x6D, 0x69, 0x6D, 0x65, 0x74, 0x79, 0x70, 0x65]),
        // "application/vnd.oasis.opendocument.presentation"
        SignaturePart::new(38, vec![
            0x61, 0x70, 0x70, 0x6C, 0x69, 0x63, 0x61, 0x74, 0x69, 0x6F, 0x6E, 0x2F, 0x76, 0x6E,
            0x64, 0x2E, 0x6F, 0x61, 0x73, 0x69, 0x73, 0x2E, 0x6F, 0x70, 0x65, 0x6E, 0x64, 0x6F,
            0x63, 0x75, 0x6D, 0x65, 0x6E, 0x74, 0x2E, 0x70, 0x72, 0x65, 0x73, 0x65, 0x6E, 0x74,
            0x61, 0x74, 0x69, 0x6F, 0x6E,
        ]),
    ]);
    assert(alt@ =~~= rules_long()[0].alternatives[0]);
    let rule = Rule::new(
        FileFormat::new("application/vnd.oasis.opendocument.presentation", "odp"),
        vec![alt],
    );
    assert(rule@.alternatives =~= rules_long()[0].alternatives);
    rules.push(rule);
    // application/vnd.oasis.opendocument.spreadsheet
    let alt = Signature::new(vec![
        SignaturePart::new(0, vec![0x50, 0x4B, 0x03, 0x04]),
        // "mimetype"
        SignaturePart::new(30, vec![0x6D, 0x69, 0x6D, 0x65, 0x74, 0x79, 0x70, 0x65]),
        // "application/vnd.oasis.opendocument.spreadsheet"
        SignaturePart::new(38, vec![
            0x61, 0x70, 0x70, 0x6C, 0x69, 0x63, 0x61, 0x74, 0x69, 0x6F, 0x6E, 0x2F, 0x76, 0x6E,
            0x64, 0x2E, 0x6F, 0x61, 0x73, 0x69, 0x73, 0x2E, 0x6F, 0x70, 0x65, 0x6E, 0x64, 0x6F,
            0x63, 0x75, 0x6D, 0x65, 0x6E, 0x74, 0x2E, 0x73, 0x70, 0x72, 0x65, 0x61, 0x64, 0x73,
            0x68, 0x65, 0x65, 0x74,
        ]),
    ]);
    assert(alt@ =~~= rules_long()[1].alternatives[0]);
    let rule = Rule::new(
        FileFormat::new("application/vnd.oasis.opendocument.spreadsheet", "ods"),
        vec![alt],
    );
    assert(rule@.alternatives =~= rules_long()[1].alternatives);
    rules.push(rule);
    // application/vnd.oasis.opendocument.graphics
    let alt = Signature::new(vec![
        SignaturePart::new(0, vec![0x50, 0x4B, 0x03, 0x04]),
        // "mimetype"
        SignaturePart::new(30, vec![0x6D, 0x69, 0x6D, 0x65, 0x74, 0x79, 0x70, 0x65]),
        // "application/vnd.oasis.opendocument.graphics"
        SignaturePart::new(38, vec![
            0x61, 0x70, 0x70, 0x6C, 0x69, 0x63, 0x61, 0x74, 0x69, 0x6F, 0x6E, 0x2F, 0x76, 0x6E,
            0x64, 0x2E, 0x6F, 0x61, 0x73, 0x69, 0x73, 0x2E, 0x6F, 0x70, 0x65, 0x6E, 0x64, 0x6F,
            0x63, 0x75, 0x6D, 0x65, 0x6E, 0x74, 0x2E, 0x67, 0x72, 0x61, 0x70, 0x68, 0x69, 0x63,
            0x73,
        ]),
    ]);
    assert(alt@ =~~= rules_long()[2].alternatives[0]);
    let rule = Rule::new(
        FileFormat::new("application/vnd.oasis.opendocument.graphics", "odg"),
        vec![alt],
    );
    assert(rule@.alternatives =~= rules_long()[2].alternatives);
    rules.push(rule);
    // application/vnd.oasis.opendocument.text
    let alt = Signature::new(vec![
        SignaturePart::new(0, vec![0x50, 0x4B, 0x03, 0x04]),
        // "mimetype"
        SignaturePart::new(30, vec![0x6D, 0x69, 0x6D, 0x65, 0x74, 0x79, 0x70, 0x65]),
        // "application/vnd.oasis.opendocument.text"
        SignaturePart::new(38, vec![
            0x61, 0x70, 0x70, 0x6C, 0x69, 0x63, 0x61, 0x74, 0x69, 0x6F, 0x6E, 0x2F, 0x76, 0x6E,
            0x64, 0x2E, 0x6F, 0x61, 0x73, 0x69, 0x73, 0x2E, 0x6F, 0x70, 0x65, 0x6E, 0x64, 0x6F,
            0x63, 0x75, 0x6D, 0x65, 0x6E, 0x74, 0x2E, 0x74, 0x65, 0x78, 0x74,
        ]),
    ]);
    assert(alt@ =~~= rules_long()[3].alternatives[0]);
    let rule = Rule::new(
        FileFormat::new("application/vnd.oasis.opendocument.text", "odt"),
        vec![alt],
    );
    assert(rule@.alternatives =~= rules_long()[3].alternatives);
    rules.push(rule);
    // application/x-virtualbox-vdi
    let alt = Signature::new(vec![
        // "<<< Oracle VM VirtualBox Disk Image >>>"
        SignaturePart::new(0, vec![
            0x3C, 0x3C, 0x3C, 0x20, 0x4F, 0x72, 0x61, 0x63, 0x6C, 0x65, 0x20, 0x56, 0x4D, 0x20,
            0x56, 0x69, 0x72, 0x74, 0x75, 0x61, 0x6C, 0x42, 0x6F, 0x78, 0x20, 0x44, 0x69, 0x73,
            0x6B, 0x20, 0x49, 0x6D, 0x61, 0x67, 0x65, 0x20, 0x3E, 0x3E, 0x3E,
        ]),
    ]);
    assert(alt@ =~~= rules_long()[4].alternatives[0]);
    let rule = Rule::new(FileFormat::new("application/x-virtualbox-vdi", "vdi"), vec![alt]);
    assert(rule@.alternatives =~= rules_long()[4].alternatives);
    rules.push(rule);
    // application/epub+zip
    let alt = Signature::new(vec![
        SignaturePart::new(0, vec![0x50, 0x4B, 0x03, 0x04]),
        // "mimetype"
        SignaturePart::new(30, vec![0x6D, 0x69, 0x6D, 0x65, 0x74, 0x79, 0x70, 0x65]),
        // "application/epub+zip"
        SignaturePart::new(38, vec![
            0x61, 0x70, 0x70, 0x6C, 0x69, 0x63, 0x61, 0x74, 0x69, 0x6F, 0x6E, 0x2F, 0x65, 0x70,
            0x75, 0x62, 0x2B, 0x7A, 0x69, 0x70,
        ]),
    ]);
    assert(alt@ =~~= rules_long()[5].alternatives[0]);
    let rule = Rule::new(FileFormat::new("application/epub+zip", "epub"), vec![alt]);
    assert(rule@.alternatives =~= rules_long()[5].alternatives);
    rules.push(rule);
    // application/vnd.sketchup.skp
    let alt = Signature::new(vec![
        SignaturePart::new(0, vec![
            0xFF, 0xFE, 0xFF, 0x0E, 0x53, 0x00, 0x6B, 0x00, 0x65, 0x00, 0x74, 0x00, 0x63, 0x00,
            0x68, 0x00,
        ]),
        SignaturePart::new(16, vec![
            0x55, 0x00, 0x70, 0x00, 0x20, 0x00, 0x4D, 0x00, 0x6F, 0x00, 0x64, 0x00, 0x65, 0x00,
            0x6C, 0x00,
        ]),
    ]);
    assert(alt@ =~~= rules_long()[6].alternatives[0]);
    let rule = Rule::new(FileFormat::new("application/vnd.sketchup.skp", "skp"), vec![alt]);
    assert(rule@.alternatives =~= rules_long()[6].alternatives);
    rules.push(rule);
    // application/vnd.debian.binary-package
    let alt = Signature::new(vec![
        SignaturePart::new(0, vec![0x21, 0x3C, 0x61, 0x72, 0x63, 0x68, 0x3E, 0x0A]),
        // "debian-binary"
        SignaturePart::new(8, vec![
            0x64, 0x65, 0x62, 0x69, 0x61, 0x6E, 0x2D, 0x62, 0x69, 0x6E, 0x61, 0x72, 0x79,
        ]),
    ]);
    assert(alt@ =~~= rules_long()[7].alternatives[0]);
    let rule = Rule::new(
        FileFormat::new("application/vnd.debian.binary-package", "deb"),
        vec![alt],
    );
    assert(rule@.alternatives =~= rules_long()[7].alternatives);
    rules.push(rule);
    // application/vnd.sqlite3
    let alt = Signature::new(vec![
        SignaturePart::new(0, vec![
            0x53, 0x51, 0x4C, 0x69, 0x74, 0x65, 0x20, 0x66, 0x6F, 0x72, 0x6D, 0x61, 0x74, 0x20,
            0x33, 0x00,
        ]),
    ]);
    assert(alt@ =~~= rules_long()[8].alternatives[0]);
    let rule = Rule::new(FileFormat::new("application/vnd.sqlite3", "sqlite"), vec![alt]);
    assert(rule@.alternatives =~= rules_long()[8].alternatives);
    rules.push(rule);
    // application/x-indesign
    let alt = Signature::new(vec![
        SignaturePart::new(0, vec![
            0x06, 0x06, 0xED, 0xF5, 0xD8, 0x1D, 0x46, 0xE5, 0xBD, 0x31, 0xEF, 0xE7, 0xFE, 0x74,
            0xB7, 0x1D,
        ]),
    ]);
    assert(alt@ =~~= rules_long()[9].alternatives[0]);
    let rule = Rule::new(FileFormat::new("application/x-indesign", "indd"), vec![alt]);
    assert(rule@.alternatives =~= rules_long()[9].alternatives);
    rules.push(rule);
    // application/mxf
    let alt = Signature::new(vec![
        SignaturePart::new(0, vec![
            0x06, 0x0E, 0x2B, 0x34, 0x02, 0x05, 0x01, 0x01, 0x0D, 0x01, 0x02, 0x01, 0x01, 0x02,
        ]),
    ]);
    assert(alt@ =~~= rules_long()[10].alternatives[0]);
    let rule = Rule::new(FileFormat::new("application/mxf", "mxf"), vec![alt]);
    assert(rule@.alternatives =~= rules_long()[10].alternatives);
    rules.push(rule);
    assert(rules_view(rules@) =~~= start + rules_long());
}

/// Rules with 12-byte signatures.
pub open spec fn rules_12_bytes() -> Seq<RuleModel> {
    seq![
        rule_model("audio/opus"@, "opus"@, seq![
            seq![
                // "OggS"
                part_model(0, [0x4Fu8, 0x67, 0x67, 0x53]@),
                // "OpusHead"
                part_model(28, [0x4Fu8, 0x70, 0x75, 0x73, 0x48, 0x65, 0x61, 0x64]@),
            ],
        ]),
        rule_model("image/apng"@, "apng"@, seq![
            seq![
                part_model(0, [0x89u8, 0x50, 0x4E, 0x47, 0x0D, 0x0A, 0x1A, 0x0A]@),
                // "acTL"
                part_model(37, [0x61u8, 0x63, 0x54, 0x4C]@),
            ],
        ]),
        rule_model("image/jpeg"@, "jpg"@, seq![
            seq![
                part_model(0, [
                    0xFFu8, 0xD8, 0xFF, 0xE0, 0x00, 0x10, 0x4A, 0x46, 0x49, 0x46, 0x00, 0x01,
                ]@),
            ],
            seq![
                part_model(0, [0xFFu8, 0xD8, 0xFF, 0xE1]@),
                part_model(6, [0x45u8, 0x78, 0x69, 0x66, 0x00, 0x00]@),
            ],
            seq![
                part_model(0, [0xFFu8, 0xD8, 0xFF, 0xDB]@),
            ],
            seq![
                part_model(0, [0xFFu8, 0xD8, 0xFF, 0xEE]@),
            ],
        ]),
        rule_model("image/jxl"@, "jxl"@, seq![
            seq![
                part_model(0, [
                    0x00u8, 0x00, 0x00, 0x0C, 0x4A, 0x58, 0x4C, 0x20, 0x0D, 0x0A, 0x87, 0x0A,
                ]@),
            ],
            seq![
                part_model(0, [0xFFu8, 0x0A]@),
            ],
        ]),
        rule_model("image/ktx"@, "ktx"@, seq![
            seq![
                part_model(0, [
                    0xABu8, 0x4B, 0x54, 0x58, 0x20, 0x31, 0x31, 0xBB, 0x0D, 0x0A, 0x1A, 0x0A,
                ]@),
            ],
        ]),
        rule_model("image/ktx2"@, "ktx2"@, seq![
            seq![
                part_model(0, [
                    0xABu8, 0x4B, 0x54, 0x58, 0x20, 0x32, 0x30, 0xBB, 0x0D, 0x0A, 0x1A, 0x0A,
                ]@),
            ],
        ]),
        rule_model("video/x-matroska"@, "mkv"@, seq![
            seq![
                part_model(0, [0x1Au8, 0x45, 0xDF, 0xA3]@),
                // "matroska"
                part_model(24, [0x6Du8, 0x61, 0x74, 0x72, 0x6F, 0x73, 0x6B, 0x61]@),
            ],
        ]),
    ]
}

/// Appends the rules of `rules_12_bytes`.
pub(crate) fn push_rules_12_bytes(rules: &mut Vec<Rule>)
    ensures
        rules_view(final(rules)@) == rules_view(old(rules)@) + rules_12_bytes(),
{
    let ghost start = rules_view(rules@);
    // audio/opus
    let alt = Signature::new(vec![
        // "OggS"
        SignaturePart::new(0, vec![0x4F, 0x67, 0x67, 0x53]),
        // "OpusHead"
        SignaturePart::new(28, vec![0x4F, 0x70, 0x75, 0x73, 0x48, 0x65, 0x61, 0x64]),
    ]);
    assert(alt@ =~~= rules_12_bytes()[0].alternatives[0]);
    let rule = Rule::new(FileFormat::new("audio/opus", "opus"), vec![alt]);
    assert(rule@.alternatives =~= rules_12_bytes()[0].alternatives);
    rules.push(rule);
    // image/apng
    let alt = Signature::new(vec![
        SignaturePart::new(0, vec![0x89, 0x50, 0x4E, 0x47, 0x0D, 0x0A, 0x1A, 0x0A]),
        // "acTL"
        SignaturePart::new(37, vec![0x61, 0x63, 0x54, 0x4C]),
    ]);
    assert(alt@ =~~= rules_12_bytes()[1].alternatives[0]);
    let rule = Rule::new(FileFormat::new("image/apng", "apng"), vec![alt]);
    assert(rule@.alternatives =~= rules_12_bytes()[1].alternatives);
    rules.push(rule);
    // image/jpeg
    let alt0 = Signature::new(vec![
        SignaturePart::new(0, vec![
            0xFF, 0xD8, 0xFF, 0xE0, 0x00, 0x10, 0x4A, 0x46, 0x49, 0x46, 0x00, 0x01,
        ]),
    ]);
    assert(alt0@ =~~= rules_12_bytes()[2].alternatives[0]);
    let alt1 = Signature::new(vec![
        SignaturePart::new(0, vec![0xFF, 0xD8, 0xFF, 0xE1]),
        SignaturePart::new(6, vec![0x45, 0x78, 0x69, 0x66, 0x00, 0x00]),
    ]);
    assert(alt1@ =~~= rules_12_bytes()[2].alternatives[1]);
    let alt2 = Signature::new(vec![SignaturePart::new(0, vec![0xFF, 0xD8, 0xFF, 0xDB])]);
    assert(alt2@ =~~= rules_12_bytes()[2].alternatives[2]);
    let alt3 = Signature::new(vec![SignaturePart::new(0, vec![0xFF, 0xD8, 0xFF, 0xEE])]);
    assert(alt3@ =~~= rules_12_bytes()[2].alternatives[3]);
    let rule = Rule::new(FileFormat::new("image/jpeg", "jpg"), vec![alt0, alt1, alt2, alt3]);
    assert(rule@.alternatives =~= rules_12_bytes()[2].alternatives);
    rules.push(rule);
    // image/jxl
    let alt0 = Signature::new(vec![
        SignaturePart::new(0, vec![
            0x00, 0x00, 0x00, 0x0C, 0x4A, 0x58, 0x4C, 0x20, 0x0D, 0x0A, 0x87, 0x0A,
        ]),
    ]);
    assert(alt0@ =~~= rules_12_bytes()[3].alternatives[0]);
    let alt1 = Signature::new(vec![SignaturePart::new(0, vec![0xFF, 0x0A])]);
    assert(alt1@ =~~= rules_12_bytes()[3].alternatives[1]);
    let rule = Rule::new(FileFormat::new("image/jxl", "jxl"), vec![alt0, alt1]);
    assert(rule@.alternatives =~= rules_12_bytes()[3].alternatives);
    rules.push(rule);
    // image/ktx
    let alt = Signature::new(vec![
        SignaturePart::new(0, vec![
            0xAB, 0x4B, 0x54, 0x58, 0x20, 0x31, 0x31, 0xBB, 0x0D, 0x0A, 0x1A, 0x0A,
        ]),
    ]);
    assert(alt@ =~~= rules_12_bytes()[4].alternatives[0]);
    let rule = Rule::new(FileFormat::new("image/ktx", "ktx"), vec![alt]);
    assert(rule@.alternatives =~= rules_12_bytes()[4].alternatives);
    rules.push(rule);
    // image/ktx2
    let alt = Signature::new(vec![
        SignaturePart::new(0, vec![
            0xAB, 0x4B, 0x54, 0x58, 0x20, 0x32, 0x30, 0xBB, 0x0D, 0x0A, 0x1A, 0x0A,
        ]),
    ]);
    assert(alt@ =~~= rules_12_bytes()[5].alternatives[0]);
    let rule = Rule::new(FileFormat::new("image/ktx2", "ktx2"), vec![alt]);
    assert(rule@.alternatives =~= rules_12_bytes()[5].alternatives);
    rules.push(rule);
    // video/x-matroska
    let alt = Signature::new(vec![
        SignaturePart::new(0, vec![0x1A, 0x45, 0xDF, 0xA3]),
        // "matroska"
        SignaturePart::new(24, vec![0x6D, 0x61, 0x74, 0x72, 0x6F, 0x73, 0x6B, 0x61]),
    ]);
    assert(alt@ =~~= rules_12_bytes()[6].alternatives[0]);
    let rule = Rule::new(FileFormat::new("video/x-matroska", "mkv"), vec![alt]);
    assert(rule@.alternatives =~= rules_12_bytes()[6].alternatives);
    rules.push(rule);
    assert(rules_view(rules@) =~~= start + rules_12_bytes());
}

/// Rules with 10- and 9-byte signatures.
pub open spec fn rules_10_and_9_bytes() -> Seq<RuleModel> {
    seq![
        rule_model("audio/ogg"@, "ogg"@, seq![
            seq![
                // "OggS"
                part_model(0, [0x4Fu8, 0x67, 0x67, 0x53]@),
                // "vorbis"
                part_model(29, [0x76u8, 0x6F, 0x72, 0x62, 0x69, 0x73]@),
            ],
        ]),
        rule_model("image/fits"@, "fits"@, seq![
            seq![
                // "SIMPLE  = "
                part_model(0, [0x53u8, 0x49, 0x4D, 0x50, 0x4C, 0x45, 0x20, 0x20, 0x3D, 0x20]@),
            ],
        ]),
        rule_model("video/ogg"@, "ogv"@, seq![
            seq![
                // "OggS"
                part_model(0, [0x4Fu8, 0x67, 0x67, 0x53]@),
                // "theora"
                part_model(29, [0x74u8, 0x68, 0x65, 0x6F, 0x72, 0x61]@),
            ],
        ]),
        rule_model("video/quicktime"@, "mov"@, seq![
            seq![
                part_model(0, [0x00u8, 0x00, 0x00, 0x14]@),
                // "ftypqt"
                part_model(4, [0x66u8, 0x74, 0x79, 0x70, 0x71, 0x74]@),
            ],
        ]),
        rule_model("video/x-ms-asf"@, "wmv"@, seq![
            seq![
                part_model(0, [0x30u8, 0x26, 0xB2, 0x75, 0x8E, 0x66, 0xCF, 0x11, 0xA6, 0xD9]@),
            ],
        ]),
        rule_model("application/x-gameboy-color-rom"@, "gbc"@, seq![
            seq![
                part_model(0x104, [0xCEu8, 0xED, 0x66, 0x66, 0xCC, 0x0D, 0x00, 0x0B]@),
                part_model(0x143, [0x80u8]@),
            ],
            seq![
                part_model(0x104, [0xCEu8, 0xED, 0x66, 0x66, 0xCC, 0x0D, 0x00, 0x0B]@),
                part_model(0x143, [0xC0u8]@),
            ],
        ]),
        rule_model("application/x-lzop"@, "lzo"@, seq![
            seq![
                part_model(0, [0x89u8, 0x4C, 0x5A, 0x4F, 0x00, 0x0D, 0x0A, 0x1A, 0x0A]@),
            ],
        ]),
        rule_model("audio/ogg"@, "spx"@, seq![
            seq![
                // "OggS"
                part_model(0, [0x4Fu8, 0x67, 0x67, 0x53]@),
                // "Speex"
                part_model(28, [0x53u8, 0x70, 0x65, 0x65, 0x78]@),
            ],
        ]),
        rule_model("image/x-olympus-orf"@, "orf"@, seq![
            seq![
                part_model(0, [0x49u8, 0x49, 0x52, 0x4F, 0x08, 0x00, 0x00, 0x00, 0x18]@),
            ],
        ]),
        rule_model("video/ogg"@, "ogm"@, seq![
            seq![
                // "OggS"
                part_model(0, [0x4Fu8, 0x67, 0x67, 0x53]@),
                // "video"
                part_model(29, [0x76u8, 0x69, 0x64, 0x65, 0x6F]@),
            ],
        ]),
    ]
}

/// Appends the rules of `rules_10_and_9_bytes`.
pub(crate) fn push_rules_10_and_9_bytes(rules: &mut Vec<Rule>)
    ensures
        rules_view(final(rules)@) == rules_view(old(rules)@) + rules_10_and_9_bytes(),
{
    let ghost start = rules_view(rules@);
    // audio/ogg
    let alt = Signature::new(vec![
        // "OggS"
        SignaturePart::new(0, vec![0x4F, 0x67, 0x67, 0x53]),
        // "vorbis"
        SignaturePart::new(29, vec![0x76, 0x6F, 0x72, 0x62, 0x69, 0x73]),
    ]);
    assert(alt@ =~~= rules_10_and_9_bytes()[0].alternatives[0]);
    let rule = Rule::new(FileFormat::new("audio/ogg", "ogg"), vec![alt]);
    assert(rule@.alternatives =~= rules_10_and_9_bytes()[0].alternatives);
    rules.push(rule);
    // image/fits
    let alt = Signature::new(vec![
        // "SIMPLE  = "
        SignaturePart::new(0, vec![0x53, 0x49, 0x4D, 0x50, 0x4C, 0x45, 0x20, 0x20, 0x3D, 0x20]),
    ]);
    assert(alt@ =~~= rules_10_and_9_bytes()[1].alternatives[0]);
    let rule = Rule::new(FileFormat::new("image/fits", "fits"), vec![alt]);
    assert(rule@.alternatives =~= rules_10_and_9_bytes()[1].alternatives);
    rules.push(rule);
    // video/ogg
    let alt = Signature::new(vec![
        // "OggS"
        SignaturePart::new(0, vec![0x4F, 0x67, 0x67, 0x53]),
        // "theora"
        SignaturePart::new(29, vec![0x74, 0x68, 0x65, 0x6F, 0x72, 0x61]),
    ]);
    assert(alt@ =~~= rules_10_and_9_bytes()[2].alternatives[0]);
    let rule = Rule::new(FileFormat::new("video/ogg", "ogv"), vec![alt]);
    assert(rule@.alternatives =~= rules_10_and_9_bytes()[2].alternatives);
    rules.push(rule);
    // video/quicktime
    let alt = Signature::new(vec![
        SignaturePart::new(0, vec![0x00, 0x00, 0x00, 0x14]),
        // "ftypqt"
        SignaturePart::new(4, vec![0x66, 0x74, 0x79, 0x70, 0x71, 0x74]),
    ]);
    assert(alt@ =~~= rules_10_and_9_bytes()[3].alternatives[0]);
    let rule = Rule::new(FileFormat::new("video/quicktime", "mov"), vec![alt]);
    assert(rule@.alternatives =~= rules_10_and_9_bytes()[3].alternatives);
    rules.push(rule);
    // video/x-ms-asf
    let alt = Signature::new(vec![
        SignaturePart::new(0, vec![0x30, 0x26, 0xB2, 0x75, 0x8E, 0x66, 0xCF, 0x11, 0xA6, 0xD9]),
    ]);
    assert(alt@ =~~= rules_10_and_9_bytes()[4].alternatives[0]);
    let rule = Rule::new(FileFormat::new("video/x-ms-asf", "wmv"), vec![alt]);
    assert(rule@.alternatives =~= rules_10_and_9_bytes()[4].alternatives);
    rules.push(rule);
    // application/x-gameboy-color-rom
    let alt0 = Signature::new(vec![
        SignaturePart::new(0x104, vec![0xCE, 0xED, 0x66, 0x66, 0xCC, 0x0D, 0x00, 0x0B]),
        SignaturePart::new(0x143, vec![0x80]),
    ]);
    assert(alt0@ =~~= rules_10_and_9_bytes()[5].alternatives[0]);
    let alt1 = Signature::new(vec![
        SignaturePart::new(0x104, vec![0xCE, 0xED, 0x66, 0x66, 0xCC, 0x0D, 0x00, 0x0B]),
        SignaturePart::new(0x143, vec![0xC0]),
    ]);
    assert(alt1@ =~~= rules_10_and_9_bytes()[5].alternatives[1]);
    let rule = Rule::new(
        FileFormat::new("application/x-gameboy-color-rom", "gbc"),
        vec![alt0, alt1],
    );
    assert(rule@.alternatives =~= rules_10_and_9_bytes()[5].alternatives);
    rules.push(rule);
    // application/x-lzop
    let alt = Signature::new(vec![
        SignaturePart::new(0, vec![0x89, 0x4C, 0x5A, 0x4F, 0x00, 0x0D, 0x0A, 0x1A, 0x0A]),
    ]);
    assert(alt@ =~~= rules_10_and_9_bytes()[6].alternatives[0]);
    let rule = Rule::new(FileFormat::new("application/x-lzop", "lzo"), vec![alt]);
    assert(rule@.alternatives =~= rules_10_and_9_bytes()[6].alternatives);
    rules.push(rule);
    // audio/ogg
    let alt = Signature::new(vec![
        // "OggS"
        SignaturePart::new(0, vec![0x4F, 0x67, 0x67, 0x53]),
        // "Speex"
        SignaturePart::new(28, vec![0x53, 0x70, 0x65, 0x65, 0x78]),
    ]);
    assert(alt@ =~~= rules_10_and_9_bytes()[7].alternatives[0]);
    let rule = Rule::new(FileFormat::new("audio/ogg", "spx"), vec![alt]);
    assert(rule@.alternatives =~= rules_10_and_9_bytes()[7].alternatives);
    rules.push(rule);
    // image/x-olympus-orf
    let alt = Signature::new(vec![
        SignaturePart::new(0, vec![0x49, 0x49, 0x52, 0x4F, 0x08, 0x00, 0x00, 0x00, 0x18]),
    ]);
    assert(alt@ =~~= rules_10_and_9_bytes()[8].alternatives[0]);
    let rule = Rule::new(FileFormat::new("image/x-olympus-orf", "orf"), vec![alt]);
    assert(rule@.alternatives =~= rules_10_and_9_bytes()[8].alternatives);
    rules.push(rule);
    // video/ogg
    let alt = Signature::new(vec![
        // "OggS"
        SignaturePart::new(0, vec![0x4F, 0x67, 0x67, 0x53]),
        // "video"
        SignaturePart::new(29, vec![0x76, 0x69, 0x64, 0x65, 0x6F]),
    ]);
    assert(alt@ =~~= rules_10_and_9_bytes()[9].alternatives[0]);
    let rule = Rule::new(FileFormat::new("video/ogg", "ogm"), vec![alt]);
    assert(rule@.alternatives =~= rules_10_and_9_bytes()[9].alternatives);
    rules.push(rule);
    assert(rules_view(rules@) =~~= start + rules_10_and_9_bytes());
}

/// Rules with 8-byte signatures, first part.
pub open spec fn rules_8_bytes_first() -> Seq<RuleModel> {
    seq![
        rule_model("application/vnd.rar"@, "rar"@, seq![
            seq![
                part_model(0, [0x52u8, 0x61, 0x72, 0x21, 0x1A, 0x07, 0x01, 0x00]@),
            ],
            seq![
                part_model(0, [0x52u8, 0x61, 0x72, 0x21, 0x1A, 0x07, 0x00]@),
            ],
        ]),
        rule_model("application/x-gameboy-rom"@, "gb"@, seq![
            seq![
                part_model(0x104, [0xCEu8, 0xED, 0x66, 0x66, 0xCC, 0x0D, 0x00, 0x0B]@),
            ],
        ]),
        rule_model("application/x-gba-rom"@, "gba"@, seq![
            seq![
                part_model(4, [0x24u8, 0xFF, 0xAE, 0x51, 0x69, 0x9A, 0xA2, 0x21]@),
            ],
        ]),
        rule_model("application/x-mobipocket-ebook"@, "mobi"@, seq![
            seq![
                // "BOOKMOBI"
                part_model(60, [0x42u8, 0x4F, 0x4F, 0x4B, 0x4D, 0x4F, 0x42, 0x49]@),
            ],
        ]),
        rule_model("application/x-ms-shortcut"@, "lnk"@, seq![
            seq![
                part_model(0, [0x4Cu8, 0x00, 0x00, 0x00, 0x01, 0x14, 0x02, 0x00]@),
            ],
        ]),
        rule_model("application/x-n64-rom"@, "z64"@, seq![
            seq![
                part_model(0, [0x80u8, 0x37, 0x12, 0x40, 0x00, 0x00, 0x00, 0x0F]@),
            ],
            seq![
                part_model(0, [0x37u8, 0x80, 0x40, 0x12, 0x00, 0x00, 0x0F, 0x00]@),
            ],
            seq![
                part_model(0, [0x12u8, 0x40, 0x80, 0x37, 0x00, 0x0F, 0x00, 0x00]@),
            ],
            seq![
                part_model(0, [0x40u8, 0x12, 0x37, 0x80, 0x0F, 0x00, 0x00, 0x00]@),
            ],
        ]),
        rule_model("application/x-nintendo-ds-rom"@, "nds"@, seq![
            seq![
                part_model(192, [0x24u8, 0xFF, 0xAE, 0x51, 0x69, 0x9A, 0xA2, 0x21]@),
            ],
            seq![
                part_model(192, [0xC8u8, 0x60, 0x4F, 0xE2, 0x01, 0x70, 0x8F, 0xE2]@),
            ],
        ]),
        rule_model("application/x-ole-storage"@, "msi"@, seq![
            seq![
                part_model(0, [0xD0u8, 0xCF, 0x11, 0xE0, 0xA1, 0xB1, 0x1A, 0xE1]@),
            ],
        ]),
        rule_model("application/x-tar"@, "tar"@, seq![
            seq![
                part_model(0x101, [0x75u8, 0x73, 0x74, 0x61, 0x72, 0x00, 0x30, 0x30]@),
            ],
            seq![
                part_model(0x101, [0x75u8, 0x73, 0x74, 0x61, 0x72, 0x20, 0x20, 0x00]@),
            ],
        ]),
        rule_model("audio/aiff"@, "aif"@, seq![
            seq![
                // "FORM"
                part_model(0, [0x46u8, 0x4F, 0x52, 0x4D]@),
                // "AIFF"
                part_model(8, [0x41u8, 0x49, 0x46, 0x46]@),
            ],
        ]),
        rule_model("audio/ogg"@, "oga"@, seq![
            seq![
                // "OggS"
                part_model(0, [0x4Fu8, 0x67, 0x67, 0x53]@),
                // "FLAC"
                part_model(29, [0x46u8, 0x4C, 0x41, 0x43]@),
            ],
        ]),
        rule_model("audio/vnd.wave"@, "wav"@, seq![
            seq![
                // "RIFF"
                part_model(0, [0x52u8, 0x49, 0x46, 0x46]@),
                // "WAVE"
                part_model(8, [0x57u8, 0x41, 0x56, 0x45]@),
            ],
        ]),
    ]
}

/// Appends the rules of `rules_8_bytes_first`.
pub(crate) fn push_rules_8_bytes_first(rules: &mut Vec<Rule>)
    ensures
        rules_view(final(rules)@) == rules_view(old(rules)@) + rules_8_bytes_first(),
{
    let ghost start = rules_view(rules@);
    // application/vnd.rar
    let alt0 = Signature::new(vec![
        SignaturePart::new(0, vec![0x52, 0x61, 0x72, 0x21, 0x1A, 0x07, 0x01, 0x00]),
    ]);
    assert(alt0@ =~~= rules_8_bytes_first()[0].alternatives[0]);
    let alt1 = Signature::new(vec![
        SignaturePart::new(0, vec![0x52, 0x61, 0x72, 0x21, 0x1A, 0x07, 0x00]),
    ]);
    assert(alt1@ =~~= rules_8_bytes_first()[0].alternatives[1]);
    let rule = Rule::new(FileFormat::new("application/vnd.rar", "rar"), vec![alt0, alt1]);
    assert(rule@.alternatives =~= rules_8_bytes_first()[0].alternatives);
    rules.push(rule);
    // application/x-gameboy-rom
    let alt = Signature::new(vec![
        SignaturePart::new(0x104, vec![0xCE, 0xED, 0x66, 0x66, 0xCC, 0x0D, 0x00, 0x0B]),
    ]);
    assert(alt@ =~~= rules_8_bytes_first()[1].alternatives[0]);
    let rule = Rule::new(FileFormat::new("application/x-gameboy-rom", "gb"), vec![alt]);
    assert(rule@.alternatives =~= rules_8_bytes_first()[1].alternatives);
    rules.push(rule);
    // application/x-gba-rom
    let alt = Signature::new(vec![
        SignaturePart::new(4, vec![0x24, 0xFF, 0xAE, 0x51, 0x69, 0x9A, 0xA2, 0x21]),
    ]);
    assert(alt@ =~~= rules_8_bytes_first()[2].alternatives[0]);
    let rule = Rule::new(FileFormat::new("application/x-gba-rom", "gba"), vec![alt]);
    assert(rule@.alternatives =~= rules_8_bytes_first()[2].alternatives);
    rules.push(rule);
    // application/x-mobipocket-ebook
    let alt = Signature::new(vec![
        // "BOOKMOBI"
        SignaturePart::new(60, vec![0x42, 0x4F, 0x4F, 0x4B, 0x4D, 0x4F, 0x42, 0x49]),
    ]);
    assert(alt@ =~~= rules_8_bytes_first()[3].alternatives[0]);
    let rule = Rule::new(FileFormat::new("application/x-mobipocket-ebook", "mobi"), vec![alt]);
    assert(rule@.alternatives =~= rules_8_bytes_first()[3].alternatives);
    rules.push(rule);
    // application/x-ms-shortcut
    let alt = Signature::new(vec![
        SignaturePart::new(0, vec![0x4C, 0x00, 0x00, 0x00, 0x01, 0x14, 0x02, 0x00]),
    ]);
    assert(alt@ =~~= rules_8_bytes_first()[4].alternatives[0]);
    let rule = Rule::new(FileFormat::new("application/x-ms-shortcut", "lnk"), vec![alt]);
    assert(rule@.alternatives =~= rules_8_bytes_first()[4].alternatives);
    rules.push(rule);
    // application/x-n64-rom
    let alt0 = Signature::new(vec![
        SignaturePart::new(0, vec![0x80, 0x37, 0x12, 0x40, 0x00, 0x00, 0x00, 0x0F]),
    ]);
    assert(alt0@ =~~= rules_8_bytes_first()[5].alternatives[0]);
    let alt1 = Signature::new(vec![
        SignaturePart::new(0, vec![0x37, 0x80, 0x40, 0x12, 0x00, 0x00, 0x0F, 0x00]),
    ]);
    assert(alt1@ =~~= rules_8_bytes_first()[5].alternatives[1]);
    let alt2 = Signature::new(vec![
        SignaturePart::new(0, vec![0x12, 0x40, 0x80, 0x37, 0x00, 0x0F, 0x00, 0x00]),
    ]);
    assert(alt2@ =~~= rules_8_bytes_first()[5].alternatives[2]);
    let alt3 = Signature::new(vec![
        SignaturePart::new(0, vec![0x40, 0x12, 0x37, 0x80, 0x0F, 0x00, 0x00, 0x00]),
    ]);
    assert(alt3@ =~~= rules_8_bytes_first()[5].alternatives[3]);
    let rule = Rule::new(
        FileFormat::new("application/x-n64-rom", "z64"),
        vec![alt0, alt1, alt2, alt3],
    );
    assert(rule@.alternatives =~= rules_8_bytes_first()[5].alternatives);
    rules.push(rule);
    // application/x-nintendo-ds-rom
    let alt0 = Signature::new(vec![
        SignaturePart::new(192, vec![0x24, 0xFF, 0xAE, 0x51, 0x69, 0x9A, 0xA2, 0x21]),
    ]);
    assert(alt0@ =~~= rules_8_bytes_first()[6].alternatives[0]);
    let alt1 = Signature::new(vec![
        SignaturePart::new(192, vec![0xC8, 0x60, 0x4F, 0xE2, 0x01, 0x70, 0x8F, 0xE2]),
    ]);
    assert(alt1@ =~~= rules_8_bytes_first()[6].alternatives[1]);
    let rule = Rule::new(FileFormat::new("application/x-nintendo-ds-rom", "nds"), vec![alt0, alt1]);
    assert(rule@.alternatives =~= rules_8_bytes_first()[6].alternatives);
    rules.push(rule);
    // application/x-ole-storage
    let alt = Signature::new(vec![
        SignaturePart::new(0, vec![0xD0, 0xCF, 0x11, 0xE0, 0xA1, 0xB1, 0x1A, 0xE1]),
    ]);
    assert(alt@ =~~= rules_8_bytes_first()[7].alternatives[0]);
    let rule = Rule::new(FileFormat::new("application/x-ole-storage", "msi"), vec![alt]);
    assert(rule@.alternatives =~= rules_8_bytes_first()[7].alternatives);
    rules.push(rule);
    // application/x-tar
    let alt0 = Signature::new(vec![
        SignaturePart::new(0x101, vec![0x75, 0x73, 0x74, 0x61, 0x72, 0x00, 0x30, 0x30]),
    ]);
    assert(alt0@ =~~= rules_8_bytes_first()[8].alternatives[0]);
    let alt1 = Signature::new(vec![
        SignaturePart::new(0x101, vec![0x75, 0x73, 0x74, 0x61, 0x72, 0x20, 0x20, 0x00]),
    ]);
    assert(alt1@ =~~= rules_8_bytes_first()[8].alternatives[1]);
    let rule = Rule::new(FileFormat::new("application/x-tar", "tar"), vec![alt0, alt1]);
    assert(rule@.alternatives =~= rules_8_bytes_first()[8].alternatives);
    rules.push(rule);
    // audio/aiff
    let alt = Signature::new(vec![
        // "FORM"
        SignaturePart::new(0, vec![0x46, 0x4F, 0x52, 0x4D]),
        // "AIFF"
        SignaturePart::new(8, vec![0x41, 0x49, 0x46, 0x46]),
    ]);
    assert(alt@ =~~= rules_8_bytes_first()[9].alternatives[0]);
    let rule = Rule::new(FileFormat::new("audio/aiff", "aif"), vec![alt]);
    assert(rule@.alternatives =~= rules_8_bytes_first()[9].alternatives);
    rules.push(rule);
    // audio/ogg
    let alt = Signature::new(vec![
        // "OggS"
        SignaturePart::new(0, vec![0x4F, 0x67, 0x67, 0x53]),
        // "FLAC"
        SignaturePart::new(29, vec![0x46, 0x4C, 0x41, 0x43]),
    ]);
    assert(alt@ =~~= rules_8_bytes_first()[10].alternatives[0]);
    let rule = Rule::new(FileFormat::new("audio/ogg", "oga"), vec![alt]);
    assert(rule@.alternatives =~= rules_8_bytes_first()[10].alternatives);
    rules.push(rule);
    // audio/vnd.wave
    let alt = Signature::new(vec![
        // "RIFF"
        SignaturePart::new(0, vec![0x52, 0x49, 0x46, 0x46]),
        // "WAVE"
        SignaturePart::new(8, vec![0x57, 0x41, 0x56, 0x45]),
    ]);
    assert(alt@ =~~= rules_8_bytes_first()[11].alternatives[0]);
    let rule = Rule::new(FileFormat::new("audio/vnd.wave", "wav"), vec![alt]);
    assert(rule@.alternatives =~= rules_8_bytes_first()[11].alternatives);
    rules.push(rule);
    assert(rules_view(rules@) =~~= start + rules_8_bytes_first());
}

/// Rules with 8-byte signatures, second part.
pub open spec fn rules_8_bytes_second() -> Seq<RuleModel> {
    seq![
        rule_model("image/avif"@, "avif"@, seq![
            seq![
                // "ftypavif"
                part_model(4, [0x66u8, 0x74, 0x79, 0x70, 0x61, 0x76, 0x69, 0x66]@),
            ],
        ]),
        rule_model("image/heic"@, "heic"@, seq![
            seq![
                // "ftypheic"
                part_model(4, [0x66u8, 0x74, 0x79, 0x70, 0x68, 0x65, 0x69, 0x63]@),
            ],
            seq![
                // "ftypheix"
                part_model(4, [0x66u8, 0x74, 0x79, 0x70, 0x68, 0x65, 0x69, 0x78]@),
            ],
        ]),
        rule_model("image/png"@, "png"@, seq![
            seq![
                part_model(0, [0x89u8, 0x50, 0x4E, 0x47, 0x0D, 0x0A, 0x1A, 0x0A]@),
            ],
        ]),
        rule_model("image/webp"@, "webp"@, seq![
            seq![
                // "RIFF"
                part_model(0, [0x52u8, 0x49, 0x46, 0x46]@),
                // "WEBP"
                part_model(8, [0x57u8, 0x45, 0x42, 0x50]@),
            ],
        ]),
        rule_model("image/x-xcf"@, "xcf"@, seq![
            seq![
                // "gimp xcf"
                part_model(0, [0x67u8, 0x69, 0x6D, 0x70, 0x20, 0x78, 0x63, 0x66]@),
            ],
        ]),
        rule_model("video/avi"@, "avi"@, seq![
            seq![
                // "RIFF"
                part_model(0, [0x52u8, 0x49, 0x46, 0x46]@),
                // "AVI "
                part_model(8, [0x41u8, 0x56, 0x49, 0x20]@),
            ],
        ]),
        rule_model("video/mp4"@, "mp4"@, seq![
            seq![
                // "ftypavc1"
                part_model(4, [0x66u8, 0x74, 0x79, 0x70, 0x61, 0x76, 0x63, 0x31]@),
            ],
            seq![
                // "ftypdash"
                part_model(4, [0x66u8, 0x74, 0x79, 0x70, 0x64, 0x61, 0x73, 0x68]@),
            ],
            seq![
                // "ftypiso2"
                part_model(4, [0x66u8, 0x74, 0x79, 0x70, 0x69, 0x73, 0x6F, 0x32]@),
            ],
            seq![
                // "ftypiso3"
                part_model(4, [0x66u8, 0x74, 0x79, 0x70, 0x69, 0x73, 0x6F, 0x33]@),
            ],
            seq![
                // "ftypiso4"
                part_model(4, [0x66u8, 0x74, 0x79, 0x70, 0x69, 0x73, 0x6F, 0x34]@),
            ],
            seq![
                // "ftypiso5"
                part_model(4, [0x66u8, 0x74, 0x79, 0x70, 0x69, 0x73, 0x6F, 0x35]@),
            ],
            seq![
                // "ftypiso6"
                part_model(4, [0x66u8, 0x74, 0x79, 0x70, 0x69, 0x73, 0x6F, 0x36]@),
            ],
            seq![
                // "ftypisom"
                part_model(4, [0x66u8, 0x74, 0x79, 0x70, 0x69, 0x73, 0x6F, 0x6D]@),
            ],
            seq![
                // "ftypmmp4"
                part_model(4, [0x66u8, 0x74, 0x79, 0x70, 0x6D, 0x6D, 0x70, 0x34]@),
            ],
            seq![
                // "ftypmp41"
                part_model(4, [0x66u8, 0x74, 0x79, 0x70, 0x6D, 0x70, 0x34, 0x31]@),
            ],
            seq![
                // "ftypmp42"
                part_model(4, [0x66u8, 0x74, 0x79, 0x70, 0x6D, 0x70, 0x34, 0x32]@),
            ],
            seq![
                // "ftypmp4v"
                part_model(4, [0x66u8, 0x74, 0x79, 0x70, 0x6D, 0x70, 0x34, 0x76]@),
            ],
            seq![
                // "ftypmp71"
                part_model(4, [0x66u8, 0x74, 0x79, 0x70, 0x6D, 0x70, 0x37, 0x31]@),
            ],
            seq![
                // "ftypMSNV"
                part_model(4, [0x66u8, 0x74, 0x79, 0x70, 0x4D, 0x53, 0x4E, 0x56]@),
            ],
            seq![
                // "ftypNDAS"
                part_model(4, [0x66u8, 0x74, 0x79, 0x70, 0x4E, 0x44, 0x41, 0x53]@),
            ],
            seq![
                // "ftypNDSC"
                part_model(4, [0x66u8, 0x74, 0x79, 0x70, 0x4E, 0x44, 0x53, 0x43]@),
            ],
            seq![
                // "ftypNDSH"
                part_model(4, [0x66u8, 0x74, 0x79, 0x70, 0x4E, 0x44, 0x53, 0x48]@),
            ],
            seq![
                // "ftypNDSM"
                part_model(4, [0x66u8, 0x74, 0x79, 0x70, 0x4E, 0x44, 0x53, 0x4D]@),
            ],
            seq![
                // "ftypNDSP"
                part_model(4, [0x66u8, 0x74, 0x79, 0x70, 0x4E, 0x44, 0x53, 0x50]@),
            ],
            seq![
                // "ftypNDSS"
                part_model(4, [0x66u8, 0x74, 0x79, 0x70, 0x4E, 0x44, 0x53, 0x53]@),
            ],
            seq![
                // "ftypNDXC"
                part_model(4, [0x66u8, 0x74, 0x79, 0x70, 0x4E, 0x44, 0x58, 0x43]@),
            ],
            seq![
                // "ftypNDXH"
                part_model(4, [0x66u8, 0x74, 0x79, 0x70, 0x4E, 0x44, 0x58, 0x48]@),
            ],
            seq![
                // "ftypNDXM"
                part_model(4, [0x66u8, 0x74, 0x79, 0x70, 0x4E, 0x44, 0x58, 0x4D]@),
            ],
            seq![
                // "ftypNDXP"
                part_model(4, [0x66u8, 0x74, 0x79, 0x70, 0x4E, 0x44, 0x58, 0x50]@),
            ],
            seq![
                // "ftypF4V"
                part_model(4, [0x66u8, 0x74, 0x79, 0x70, 0x46, 0x34, 0x56]@),
            ],
            seq![
                // "ftypF4P"
                part_model(4, [0x66u8, 0x74, 0x79, 0x70, 0x46, 0x34, 0x50]@),
            ],
        ]),
        rule_model("video/webm"@, "webm"@, seq![
            seq![
                part_model(0, [0x1Au8, 0x45, 0xDF, 0xA3]@),
                // "webm"
                part_model(24, [0x77u8, 0x65, 0x62, 0x6D]@),
            ],
        ]),
    ]
}

/// Appends the rules of `rules_8_bytes_second`.
pub(crate) fn push_rules_8_bytes_second(rules: &mut Vec<Rule>)
    ensures
        rules_view(final(rules)@) == rules_view(old(rules)@) + rules_8_bytes_second(),
{
    let ghost start = rules_view(rules@);
    // image/avif
    let alt = Signature::new(vec![
        // "ftypavif"
        SignaturePart::new(4, vec![0x66, 0x74, 0x79, 0x70, 0x61, 0x76, 0x69, 0x66]),
    ]);
    assert(alt@ =~~= rules_8_bytes_second()[0].alternatives[0]);
    let rule = Rule::new(FileFormat::new("image/avif", "avif"), vec![alt]);
    assert(rule@.alternatives =~= rules_8_bytes_second()[0].alternatives);
    rules.push(rule);
    // image/heic
    let alt0 = Signature::new(vec![
        // "ftypheic"
        SignaturePart::new(4, vec![0x66, 0x74, 0x79, 0x70, 0x68, 0x65, 0x69, 0x63]),
    ]);
    assert(alt0@ =~~= rules_8_bytes_second()[1].alternatives[0]);
    let alt1 = Signature::new(vec![
        // "ftypheix"
        SignaturePart::new(4, vec![0x66, 0x74, 0x79, 0x70, 0x68, 0x65, 0x69, 0x78]),
    ]);
    assert(alt1@ =~~= rules_8_bytes_second()[1].alternatives[1]);
    let rule = Rule::new(FileFormat::new("image/heic", "heic"), vec![alt0, alt1]);
    assert(rule@.alternatives =~= rules_8_bytes_second()[1].alternatives);
    rules.push(rule);
    // image/png
    let alt = Signature::new(vec![
        SignaturePart::new(0, vec![0x89, 0x50, 0x4E, 0x47, 0x0D, 0x0A, 0x1A, 0x0A]),
    ]);
    assert(alt@ =~~= rules_8_bytes_second()[2].alternatives[0]);
    let rule = Rule::new(FileFormat::new("image/png", "png"), vec![alt]);
    assert(rule@.alternatives =~= rules_8_bytes_second()[2].alternatives);
    rules.push(rule);
    // image/webp
    let alt = Signature::new(vec![
        // "RIFF"
        SignaturePart::new(0, vec![0x52, 0x49, 0x46, 0x46]),
        // "WEBP"
        SignaturePart::new(8, vec![0x57, 0x45, 0x42, 0x50]),
    ]);
    assert(alt@ =~~= rules_8_bytes_second()[3].alternatives[0]);
    let rule = Rule::new(FileFormat::new("image/webp", "webp"), vec![alt]);
    assert(rule@.alternatives =~= rules_8_bytes_second()[3].alternatives);
    rules.push(rule);
    // image/x-xcf
    let alt = Signature::new(vec![
        // "gimp xcf"
        SignaturePart::new(0, vec![0x67, 0x69, 0x6D, 0x70, 0x20, 0x78, 0x63, 0x66]),
    ]);
    assert(alt@ =~~= rules_8_bytes_second()[4].alternatives[0]);
    let rule = Rule::new(FileFormat::new("image/x-xcf", "xcf"), vec![alt]);
    assert(rule@.alternatives =~= rules_8_bytes_second()[4].alternatives);
    rules.push(rule);
    // video/avi
    let alt = Signature::new(vec![
        // "RIFF"
        SignaturePart::new(0, vec![0x52, 0x49, 0x46, 0x46]),
        // "AVI "
        SignaturePart::new(8, vec![0x41, 0x56, 0x49, 0x20]),
    ]);
    assert(alt@ =~~= rules_8_bytes_second()[5].alternatives[0]);
    let rule = Rule::new(FileFormat::new("video/avi", "avi"), vec![alt]);
    assert(rule@.alternatives =~= rules_8_bytes_second()[5].alternatives);
    rules.push(rule);
    // video/mp4
    let alt0 = Signature::new(vec![
        // "ftypavc1"
        SignaturePart::new(4, vec![0x66, 0x74, 0x79, 0x70, 0x61, 0x76, 0x63, 0x31]),
    ]);
    assert(alt0@ =~~= rules_8_bytes_second()[6].alternatives[0]);
    let alt1 = Signature::new(vec![
        // "ftypdash"
        SignaturePart::new(4, vec![0x66, 0x74, 0x79, 0x70, 0x64, 0x61, 0x73, 0x68]),
    ]);
    assert(alt1@ =~~= rules_8_bytes_second()[6].alternatives[1]);
    let alt2 = Signature::new(vec![
        // "ftypiso2"
        SignaturePart::new(4, vec![0x66, 0x74, 0x79, 0x70, 0x69, 0x73, 0x6F, 0x32]),
    ]);
    assert(alt2@ =~~= rules_8_bytes_second()[6].alternatives[2]);
    let alt3 = Signature::new(vec![
        // "ftypiso3"
        SignaturePart::new(4, vec![0x66, 0x74, 0x79, 0x70, 0x69, 0x73, 0x6F, 0x33]),
    ]);
    assert(alt3@ =~~= rules_8_bytes_second()[6].alternatives[3]);
    let alt4 = Signature::new(vec![
        // "ftypiso4"
        SignaturePart::new(4, vec![0x66, 0x74, 0x79, 0x70, 0x69, 0x73, 0x6F, 0x34]),
    ]);
    assert(alt4@ =~~= rules_8_bytes_second()[6].alternatives[4]);
    let alt5 = Signature::new(vec![
        // "ftypiso5"
        SignaturePart::new(4, vec![0x66, 0x74, 0x79, 0x70, 0x69, 0x73, 0x6F, 0x35]),
    ]);
    assert(alt5@ =~~= rules_8_bytes_second()[6].alternatives[5]);
    let alt6 = Signature::new(vec![
        // "ftypiso6"
        SignaturePart::new(4, vec![0x66, 0x74, 0x79, 0x70, 0x69, 0x73, 0x6F, 0x36]),
    ]);
    assert(alt6@ =~~= rules_8_bytes_second()[6].alternatives[6]);
    let alt7 = Signature::new(vec![
        // "ftypisom"
        SignaturePart::new(4, vec![0x66, 0x74, 0x79, 0x70, 0x69, 0x73, 0x6F, 0x6D]),
    ]);
    assert(alt7@ =~~= rules_8_bytes_second()[6].alternatives[7]);
    let alt8 = Signature::new(vec![
        // "ftypmmp4"
        SignaturePart::new(4, vec![0x66, 0x74, 0x79, 0x70, 0x6D, 0x6D, 0x70, 0x34]),
    ]);
    assert(alt8@ =~~= rules_8_bytes_second()[6].alternatives[8]);
    let alt9 = Signature::new(vec![
        // "ftypmp41"
        SignaturePart::new(4, vec![0x66, 0x74, 0x79, 0x70, 0x6D, 0x70, 0x34, 0x31]),
    ]);
    assert(alt9@ =~~= rules_8_bytes_second()[6].alternatives[9]);
    let alt10 = Signature::new(vec![
        // "ftypmp42"
        SignaturePart::new(4, vec![0x66, 0x74, 0x79, 0x70, 0x6D, 0x70, 0x34, 0x32]),
    ]);
    assert(alt10@ =~~= rules_8_bytes_second()[6].alternatives[10]);
    let alt11 = Signature::new(vec![
        // "ftypmp4v"
        SignaturePart::new(4, vec![0x66, 0x74, 0x79, 0x70, 0x6D, 0x70, 0x34, 0x76]),
    ]);
    assert(alt11@ =~~= rules_8_bytes_second()[6].alternatives[11]);
    let alt12 = Signature::new(vec![
        // "ftypmp71"
        SignaturePart::new(4, vec![0x66, 0x74, 0x79, 0x70, 0x6D, 0x70, 0x37, 0x31]),
    ]);
    assert(alt12@ =~~= rules_8_bytes_second()[6].alternatives[12]);
    let alt13 = Signature::new(vec![
        // "ftypMSNV"
        SignaturePart::new(4, vec![0x66, 0x74, 0x79, 0x70, 0x4D, 0x53, 0x4E, 0x56]),
    ]);
    assert(alt13@ =~~= rules_8_bytes_second()[6].alternatives[13]);
    let alt14 = Signature::new(vec![
        // "ftypNDAS"
        SignaturePart::new(4, vec![0x66, 0x74, 0x79, 0x70, 0x4E, 0x44, 0x41, 0x53]),
    ]);
    assert(alt14@ =~~= rules_8_bytes_second()[6].alternatives[14]);
    let alt15 = Signature::new(vec![
        // "ftypNDSC"
        SignaturePart::new(4, vec![0x66, 0x74, 0x79, 0x70, 0x4E, 0x44, 0x53, 0x43]),
    ]);
    assert(alt15@ =~~= rules_8_bytes_second()[6].alternatives[15]);
    let alt16 = Signature::new(vec![
        // "ftypNDSH"
        SignaturePart::new(4, vec![0x66, 0x74, 0x79, 0x70, 0x4E, 0x44, 0x53, 0x48]),
    ]);
    assert(alt16@ =~~= rules_8_bytes_second()[6].alternatives[16]);
    let alt17 = Signature::new(vec![
        // "ftypNDSM"
        SignaturePart::new(4, vec![0x66, 0x74, 0x79, 0x70, 0x4E, 0x44, 0x53, 0x4D]),
    ]);
    assert(alt17@ =~~= rules_8_bytes_second()[6].alternatives[17]);
    let alt18 = Signature::new(vec![
        // "ftypNDSP"
        SignaturePart::new(4, vec![0x66, 0x74, 0x79, 0x70, 0x4E, 0x44, 0x53, 0x50]),
    ]);
    assert(alt18@ =~~= rules_8_bytes_second()[6].alternatives[18]);
    let alt19 = Signature::new(vec![
        // "ftypNDSS"
        SignaturePart::new(4, vec![0x66, 0x74, 0x79, 0x70, 0x4E, 0x44, 0x53, 0x53]),
    ]);
    assert(alt19@ =~~= rules_8_bytes_second()[6].alternatives[19]);
    let alt20 = Signature::new(vec![
        // "ftypNDXC"
        SignaturePart::new(4, vec![0x66, 0x74, 0x79, 0x70, 0x4E, 0x44, 0x58, 0x43]),
    ]);
    assert(alt20@ =~~= rules_8_bytes_second()[6].alternatives[20]);
    let alt21 = Signature::new(vec![
        // "ftypNDXH"
        SignaturePart::new(4, vec![0x66, 0x74, 0x79, 0x70, 0x4E, 0x44, 0x58, 0x48]),
    ]);
    assert(alt21@ =~~= rules_8_bytes_second()[6].alternatives[21]);
    let alt22 = Signature::new(vec![
        // "ftypNDXM"
        SignaturePart::new(4, vec![0x66, 0x74, 0x79, 0x70, 0x4E, 0x44, 0x58, 0x4D]),
    ]);
    assert(alt22@ =~~= rules_8_bytes_second()[6].alternatives[22]);
    let alt23 = Signature::new(vec![
        // "ftypNDXP"
        SignaturePart::new(4, vec![0x66, 0x74, 0x79, 0x70, 0x4E, 0x44, 0x58, 0x50]),
    ]);
    assert(alt23@ =~~= rules_8_bytes_second()[6].alternatives[23]);
    let alt24 = Signature::new(vec![
        // "ftypF4V"
        SignaturePart::new(4, vec![0x66, 0x74, 0x79, 0x70, 0x46, 0x34, 0x56]),
    ]);
    assert(alt24@ =~~= rules_8_bytes_second()[6].alternatives[24]);
    let alt25 = Signature::new(vec![
        // "ftypF4P"
        SignaturePart::new(4, vec![0x66, 0x74, 0x79, 0x70, 0x46, 0x34, 0x50]),
    ]);
    assert(alt25@ =~~= rules_8_bytes_second()[6].alternatives[25]);
    let rule = Rule::new(
        FileFormat::new("video/mp4", "mp4"),
        vec![alt0, alt1, alt2, alt3, alt4, alt5, alt6, alt7, alt8, alt9, alt10, alt11, alt12, alt13, alt14, alt15, alt16, alt17, alt18, alt19, alt20, alt21, alt22, alt23, alt24, alt25],
    );
    assert(rule@.alternatives =~= rules_8_bytes_second()[6].alternatives);
    rules.push(rule);
    // video/webm
    let alt = Signature::new(vec![
        SignaturePart::new(0, vec![0x1A, 0x45, 0xDF, 0xA3]),
        // "webm"
        SignaturePart::new(24, vec![0x77, 0x65, 0x62, 0x6D]),
    ]);
    assert(alt@ =~~= rules_8_bytes_second()[7].alternatives[0]);
    let rule = Rule::new(FileFormat::new("video/webm", "webm"), vec![alt]);
    assert(rule@.alternatives =~= rules_8_bytes_second()[7].alternatives);
    rules.push(rule);
    assert(rules_view(rules@) =~~= start + rules_8_bytes_second());
}

/// Rules with 7- and 6-byte signatures.
pub open spec fn rules_7_and_6_bytes() -> Seq<RuleModel> {
    seq![
        rule_model("application/x-archive"@, "ar"@, seq![
            seq![
                // "!<arch>"
                part_model(0, [0x21u8, 0x3C, 0x61, 0x72, 0x63, 0x68, 0x3E]@),
            ],
        ]),
        rule_model("application/x-blender"@, "blend"@, seq![
            seq![
                // "BLENDER"
                part_model(0, [0x42u8, 0x4C, 0x45, 0x4E, 0x44, 0x45, 0x52]@),
            ],
        ]),
        rule_model("audio/x-m4a"@, "m4a"@, seq![
            seq![
                // "ftypM4A"
                part_model(4, [0x66u8, 0x74, 0x79, 0x70, 0x4D, 0x34, 0x41]@),
            ],
        ]),
        rule_model("image/jp2"@, "jp2"@, seq![
            seq![
                // "ftypjp2"
                part_model(16, [0x66u8, 0x74, 0x79, 0x70, 0x6A, 0x70, 0x32]@),
            ],
        ]),
        rule_model("video/3gpp"@, "3gp"@, seq![
            seq![
                // "ftyp3gp"
                part_model(4, [0x66u8, 0x74, 0x79, 0x70, 0x33, 0x67, 0x70]@),
            ],
        ]),
        rule_model("video/3gpp2"@, "3g2"@, seq![
            seq![
                // "ftyp3g2"
                part_model(4, [0x66u8, 0x74, 0x79, 0x70, 0x33, 0x67, 0x32]@),
            ],
        ]),
        rule_model("video/x-m4v"@, "m4v"@, seq![
            seq![
                // "ftypM4V"
                part_model(4, [0x66u8, 0x74, 0x79, 0x70, 0x4D, 0x34, 0x56]@),
            ],
        ]),
        rule_model("application/x-7z-compressed"@, "7z"@, seq![
            seq![
                part_model(0, [0x37u8, 0x7A, 0xBC, 0xAF, 0x27, 0x1C]@),
            ],
        ]),
        rule_model("application/x-xz"@, "xz"@, seq![
            seq![
                part_model(0, [0xFDu8, 0x37, 0x7A, 0x58, 0x5A, 0x00]@),
            ],
        ]),
        rule_model("image/gif"@, "gif"@, seq![
            seq![
                // "GIF87a"
                part_model(0, [0x47u8, 0x49, 0x46, 0x38, 0x37, 0x61]@),
            ],
            seq![
                // "GIF89a"
                part_model(0, [0x47u8, 0x49, 0x46, 0x38, 0x39, 0x61]@),
            ],
        ]),
    ]
}

/// Appends the rules of `rules_7_and_6_bytes`.
pub(crate) fn push_rules_7_and_6_bytes(rules: &mut Vec<Rule>)
    ensures
        rules_view(final(rules)@) == rules_view(old(rules)@) + rules_7_and_6_bytes(),
{
    let ghost start = rules_view(rules@);
    // application/x-archive
    let alt = Signature::new(vec![
        // "!<arch>"
        SignaturePart::new(0, vec![0x21, 0x3C, 0x61, 0x72, 0x63, 0x68, 0x3E]),
    ]);
    assert(alt@ =~~= rules_7_and_6_bytes()[0].alternatives[0]);
    let rule = Rule::new(FileFormat::new("application/x-archive", "ar"), vec![alt]);
    assert(rule@.alternatives =~= rules_7_and_6_bytes()[0].alternatives);
    rules.push(rule);
    // application/x-blender
    let alt = Signature::new(vec![
        // "BLENDER"
        SignaturePart::new(0, vec![0x42, 0x4C, 0x45, 0x4E, 0x44, 0x45, 0x52]),
    ]);
    assert(alt@ =~~= rules_7_and_6_bytes()[1].alternatives[0]);
    let rule = Rule::new(FileFormat::new("application/x-blender", "blend"), vec![alt]);
    assert(rule@.alternatives =~= rules_7_and_6_bytes()[1].alternatives);
    rules.push(rule);
    // audio/x-m4a
    let alt = Signature::new(vec![
        // "ftypM4A"
        SignaturePart::new(4, vec![0x66, 0x74, 0x79, 0x70, 0x4D, 0x34, 0x41]),
    ]);
    assert(alt@ =~~= rules_7_and_6_bytes()[2].alternatives[0]);
    let rule = Rule::new(FileFormat::new("audio/x-m4a", "m4a"), vec![alt]);
    assert(rule@.alternatives =~= rules_7_and_6_bytes()[2].alternatives);
    rules.push(rule);
    // image/jp2
    let alt = Signature::new(vec![
        // "ftypjp2"
        SignaturePart::new(16, vec![0x66, 0x74, 0x79, 0x70, 0x6A, 0x70, 0x32]),
    ]);
    assert(alt@ =~~= rules_7_and_6_bytes()[3].alternatives[0]);
    let rule = Rule::new(FileFormat::new("image/jp2", "jp2"), vec![alt]);
    assert(rule@.alternatives =~= rules_7_and_6_bytes()[3].alternatives);
    rules.push(rule);
    // video/3gpp
    let alt = Signature::new(vec![
        // "ftyp3gp"
        SignaturePart::new(4, vec![0x66, 0x74, 0x79, 0x70, 0x33, 0x67, 0x70]),
    ]);
    assert(alt@ =~~= rules_7_and_6_bytes()[4].alternatives[0]);
    let rule = Rule::new(FileFormat::new("video/3gpp", "3gp"), vec![alt]);
    assert(rule@.alternatives =~= rules_7_and_6_bytes()[4].alternatives);
    rules.push(rule);
    // video/3gpp2
    let alt = Signature::new(vec![
        // "ftyp3g2"
        SignaturePart::new(4, vec![0x66, 0x74, 0x79, 0x70, 0x33, 0x67, 0x32]),
    ]);
    assert(alt@ =~~= rules_7_and_6_bytes()[5].alternatives[0]);
    let rule = Rule::new(FileFormat::new("video/3gpp2", "3g2"), vec![alt]);
    assert(rule@.alternatives =~= rules_7_and_6_bytes()[5].alternatives);
    rules.push(rule);
    // video/x-m4v
    let alt = Signature::new(vec![
        // "ftypM4V"
        SignaturePart::new(4, vec![0x66, 0x74, 0x79, 0x70, 0x4D, 0x34, 0x56]),
    ]);
    assert(alt@ =~~= rules_7_and_6_bytes()[6].alternatives[0]);
    let rule = Rule::new(FileFormat::new("video/x-m4v", "m4v"), vec![alt]);
    assert(rule@.alternatives =~= rules_7_and_6_bytes()[6].alternatives);
    rules.push(rule);
    // application/x-7z-compressed
    let alt = Signature::new(vec![SignaturePart::new(0, vec![0x37, 0x7A, 0xBC, 0xAF, 0x27, 0x1C])]);
    assert(alt@ =~~= rules_7_and_6_bytes()[7].alternatives[0]);
    let rule = Rule::new(FileFormat::new("application/x-7z-compressed", "7z"), vec![alt]);
    assert(rule@.alternatives =~= rules_7_and_6_bytes()[7].alternatives);
    rules.push(rule);
    // application/x-xz
    let alt = Signature::new(vec![SignaturePart::new(0, vec![0xFD, 0x37, 0x7A, 0x58, 0x5A, 0x00])]);
    assert(alt@ =~~= rules_7_and_6_bytes()[8].alternatives[0]);
    let rule = Rule::new(FileFormat::new("application/x-xz", "xz"), vec![alt]);
    assert(rule@.alternatives =~= rules_7_and_6_bytes()[8].alternatives);
    rules.push(rule);
    // image/gif
    let alt0 = Signature::new(vec![
        // "GIF87a"
        SignaturePart::new(0, vec![0x47, 0x49, 0x46, 0x38, 0x37, 0x61]),
    ]);
    assert(alt0@ =~~= rules_7_and_6_bytes()[9].alternatives[0]);
    let alt1 = Signature::new(vec![
        // "GIF89a"
        SignaturePart::new(0, vec![0x47, 0x49, 0x46, 0x38, 0x39, 0x61]),
    ]);
    assert(alt1@ =~~= rules_7_and_6_bytes()[9].alternatives[1]);
    let rule = Rule::new(FileFormat::new("image/gif", "gif"), vec![alt0, alt1]);
    assert(rule@.alternatives =~= rules_7_and_6_bytes()[9].alternatives);
    rules.push(rule);
    assert(rules_view(rules@) =~~= start + rules_7_and_6_bytes());
}

/// Rules with 5-byte signatures.
pub open spec fn rules_5_bytes() -> Seq<RuleModel> {
    seq![
        rule_model("application/pdf"@, "pdf"@, seq![
            seq![
                // "%PDF-"
                part_model(0, [0x25u8, 0x50, 0x44, 0x46, 0x2D]@),
            ],
        ]),
        rule_model("application/vnd.ms-fontobject"@, "eot"@, seq![
            seq![
                part_model(8, [0x00u8, 0x00, 0x01]@),
                part_model(34, [0x4Cu8, 0x50]@),
            ],
            seq![
                part_model(8, [0x01u8, 0x00, 0x02]@),
                part_model(34, [0x4Cu8, 0x50]@),
            ],
            seq![
                part_model(8, [0x02u8, 0x00, 0x02]@),
                part_model(34, [0x4Cu8, 0x50]@),
            ],
        ]),
        rule_model("application/x-iso9660-image"@, "iso"@, seq![
            seq![
                // "CD001"
                part_model(0x8001, [0x43u8, 0x44, 0x30, 0x30, 0x31]@),
            ],
            seq![
                // "CD001"
                part_model(0x8801, [0x43u8, 0x44, 0x30, 0x30, 0x31]@),
            ],
            seq![
                // "CD001"
                part_model(0x9001, [0x43u8, 0x44, 0x30, 0x30, 0x31]@),
            ],
        ]),
        rule_model("audio/amr"@, "amr"@, seq![
            seq![
                // "#!AMR"
                part_model(0, [0x23u8, 0x21, 0x41, 0x4D, 0x52]@),
            ],
        ]),
        rule_model("font/otf"@, "otf"@, seq![
            seq![
                part_model(0, [0x4Fu8, 0x54, 0x54, 0x4F, 0x00]@),
            ],
        ]),
        rule_model("font/ttf"@, "ttf"@, seq![
            seq![
                part_model(0, [0x00u8, 0x01, 0x00, 0x00, 0x00]@),
            ],
        ]),
    ]
}

/// Appends the rules of `rules_5_bytes`.
pub(crate) fn push_rules_5_bytes(rules: &mut Vec<Rule>)
    ensures
        rules_view(final(rules)@) == rules_view(old(rules)@) + rules_5_bytes(),
{
    let ghost start = rules_view(rules@);
    // application/pdf
    let alt = Signature::new(vec![
        // "%PDF-"
        SignaturePart::new(0, vec![0x25, 0x50, 0x44, 0x46, 0x2D]),
    ]);
    assert(alt@ =~~= rules_5_bytes()[0].alternatives[0]);
    let rule = Rule::new(FileFormat::new("application/pdf", "pdf"), vec![alt]);
    assert(rule@.alternatives =~= rules_5_bytes()[0].alternatives);
    rules.push(rule);
    // application/vnd.ms-fontobject
    let alt0 = Signature::new(vec![
        SignaturePart::new(8, vec![0x00, 0x00, 0x01]),
        SignaturePart::new(34, vec![0x4C, 0x50]),
    ]);
    assert(alt0@ =~~= rules_5_bytes()[1].alternatives[0]);
    let alt1 = Signature::new(vec![
        SignaturePart::new(8, vec![0x01, 0x00, 0x02]),
        SignaturePart::new(34, vec![0x4C, 0x50]),
    ]);
    assert(alt1@ =~~= rules_5_bytes()[1].alternatives[1]);
    let alt2 = Signature::new(vec![
        SignaturePart::new(8, vec![0x02, 0x00, 0x02]),
        SignaturePart::new(34, vec![0x4C, 0x50]),
    ]);
    assert(alt2@ =~~= rules_5_bytes()[1].alternatives[2]);
    let rule = Rule::new(
        FileFormat::new("application/vnd.ms-fontobject", "eot"),
        vec![alt0, alt1, alt2],
    );
    assert(rule@.alternatives =~= rules_5_bytes()[1].alternatives);
    rules.push(rule);
    // application/x-iso9660-image
    let alt0 = Signature::new(vec![
        // "CD001"
        SignaturePart::new(0x8001, vec![0x43, 0x44, 0x30, 0x30, 0x31]),
    ]);
    assert(alt0@ =~~= rules_5_bytes()[2].alternatives[0]);
    let alt1 = Signature::new(vec![
        // "CD001"
        SignaturePart::new(0x8801, vec![0x43, 0x44, 0x30, 0x30, 0x31]),
    ]);
    assert(alt1@ =~~= rules_5_bytes()[2].alternatives[1]);
    let alt2 = Signature::new(vec![
        // "CD001"
        SignaturePart::new(0x9001, vec![0x43, 0x44, 0x30, 0x30, 0x31]),
    ]);
    assert(alt2@ =~~= rules_5_bytes()[2].alternatives[2]);
    let rule = Rule::new(
        FileFormat::new("application/x-iso9660-image", "iso"),
        vec![alt0, alt1, alt2],
    );
    assert(rule@.alternatives =~= rules_5_bytes()[2].alternatives);
    rules.push(rule);
    // audio/amr
    let alt = Signature::new(vec![
        // "#!AMR"
        SignaturePart::new(0, vec![0x23, 0x21, 0x41, 0x4D, 0x52]),
    ]);
    assert(alt@ =~~= rules_5_bytes()[3].alternatives[0]);
    let rule = Rule::new(FileFormat::new("audio/amr", "amr"), vec![alt]);
    assert(rule@.alternatives =~= rules_5_bytes()[3].alternatives);
    rules.push(rule);
    // font/otf
    let alt = Signature::new(vec![SignaturePart::new(0, vec![0x4F, 0x54, 0x54, 0x4F, 0x00])]);
    assert(alt@ =~~= rules_5_bytes()[4].alternatives[0]);
    let rule = Rule::new(FileFormat::new("font/otf", "otf"), vec![alt]);
    assert(rule@.alternatives =~= rules_5_bytes()[4].alternatives);
    rules.push(rule);
    // font/ttf
    let alt = Signature::new(vec![SignaturePart::new(0, vec![0x00, 0x01, 0x00, 0x00, 0x00])]);
    assert(alt@ =~~= rules_5_bytes()[5].alternatives[0]);
    let rule = Rule::new(FileFormat::new("font/ttf", "ttf"), vec![alt]);
    assert(rule@.alternatives =~= rules_5_bytes()[5].alternatives);
    rules.push(rule);
    assert(rules_view(rules@) =~~= start + rules_5_bytes());
}

/// Rules with 4-byte signatures, first part.
pub open spec fn rules_4_bytes_first() -> Seq<RuleModel> {
    seq![
        rule_model("application/dicom"@, "dcm"@, seq![
            seq![
                // "DICM"
                part_model(128, [0x44u8, 0x49, 0x43, 0x4D]@),
            ],
        ]),
        rule_model("application/java-vm"@, "class"@, seq![
            seq![
                part_model(0, [0xCAu8, 0xFE, 0xBA, 0xBE]@),
            ],
        ]),
        rule_model("application/ogg"@, "ogx"@, seq![
            seq![
                // "OggS"
                part_model(0, [0x4Fu8, 0x67, 0x67, 0x53]@),
            ],
        ]),
        rule_model("application/vnd.android.dex"@, "dex"@, seq![
            seq![
                part_model(0, [0x64u8, 0x65, 0x78, 0x0A]@),
            ],
        ]),
        rule_model("application/vnd.ms-cab-compressed"@, "cab"@, seq![
            seq![
                // "MSCF"
                part_model(0, [0x4Du8, 0x53, 0x43, 0x46]@),
            ],
            seq![
                // "ISc("
                part_model(0, [0x49u8, 0x53, 0x63, 0x28]@),
            ],
        ]),
        rule_model("application/vnd.tcpdump.pcap"@, "pcap"@, seq![
            seq![
                part_model(0, [0xA1u8, 0xB2, 0xC3, 0xD4]@),
            ],
            seq![
                part_model(0, [0xD4u8, 0xC3, 0xB2, 0xA1]@),
            ],
        ]),
        rule_model("application/wasm"@, "wasm"@, seq![
            seq![
                part_model(0, [0x00u8, 0x61, 0x73, 0x6D]@),
            ],
        ]),
        rule_model("application/x-esri-shape"@, "shp"@, seq![
            seq![
                part_model(0, [0x00u8, 0x00, 0x27, 0x0A]@),
            ],
        ]),
        rule_model("application/x-executable"@, "elf"@, seq![
            seq![
                part_model(0, [0x7Fu8, 0x45, 0x4C, 0x46]@),
            ],
        ]),
        rule_model("application/x-google-chrome-extension"@, "crx"@, seq![
            seq![
                // "Cr24"
                part_model(0, [0x43u8, 0x72, 0x32, 0x34]@),
            ],
        ]),
        rule_model("application/x-lrzip"@, "lrz"@, seq![
            seq![
                // "LRZI"
                part_model(0, [0x4Cu8, 0x52, 0x5A, 0x49]@),
            ],
        ]),
        rule_model("application/x-lz4"@, "lz4"@, seq![
            seq![
                part_model(0, [0x04u8, 0x22, 0x4D, 0x18]@),
            ],
        ]),
    ]
}

/// Appends the rules of `rules_4_bytes_first`.
pub(crate) fn push_rules_4_bytes_first(rules: &mut Vec<Rule>)
    ensures
        rules_view(final(rules)@) == rules_view(old(rules)@) + rules_4_bytes_first(),
{
    let ghost start = rules_view(rules@);
    // application/dicom
    let alt = Signature::new(vec![
        // "DICM"
        SignaturePart::new(128, vec![0x44, 0x49, 0x43, 0x4D]),
    ]);
    assert(alt@ =~~= rules_4_bytes_first()[0].alternatives[0]);
    let rule = Rule::new(FileFormat::new("application/dicom", "dcm"), vec![alt]);
    assert(rule@.alternatives =~= rules_4_bytes_first()[0].alternatives);
    rules.push(rule);
    // application/java-vm
    let alt = Signature::new(vec![SignaturePart::new(0, vec![0xCA, 0xFE, 0xBA, 0xBE])]);
    assert(alt@ =~~= rules_4_bytes_first()[1].alternatives[0]);
    let rule = Rule::new(FileFormat::new("application/java-vm", "class"), vec![alt]);
    assert(rule@.alternatives =~= rules_4_bytes_first()[1].alternatives);
    rules.push(rule);
    // application/ogg
    let alt = Signature::new(vec![
        // "OggS"
        SignaturePart::new(0, vec![0x4F, 0x67, 0x67, 0x53]),
    ]);
    assert(alt@ =~~= rules_4_bytes_first()[2].alternatives[0]);
    let rule = Rule::new(FileFormat::new("application/ogg", "ogx"), vec![alt]);
    assert(rule@.alternatives =~= rules_4_bytes_first()[2].alternatives);
    rules.push(rule);
    // application/vnd.android.dex
    let alt = Signature::new(vec![SignaturePart::new(0, vec![0x64, 0x65, 0x78, 0x0A])]);
    assert(alt@ =~~= rules_4_bytes_first()[3].alternatives[0]);
    let rule = Rule::new(FileFormat::new("application/vnd.android.dex", "dex"), vec![alt]);
    assert(rule@.alternatives =~= rules_4_bytes_first()[3].alternatives);
    rules.push(rule);
    // application/vnd.ms-cab-compressed
    let alt0 = Signature::new(vec![
        // "MSCF"
        SignaturePart::new(0, vec![0x4D, 0x53, 0x43, 0x46]),
    ]);
    assert(alt0@ =~~= rules_4_bytes_first()[4].alternatives[0]);
    let alt1 = Signature::new(vec![
        // "ISc("
        SignaturePart::new(0, vec![0x49, 0x53, 0x63, 0x28]),
    ]);
    assert(alt1@ =~~= rules_4_bytes_first()[4].alternatives[1]);
    let rule = Rule::new(
        FileFormat::new("application/vnd.ms-cab-compressed", "cab"),
        vec![alt0, alt1],
    );
    assert(rule@.alternatives =~= rules_4_bytes_first()[4].alternatives);
    rules.push(rule);
    // application/vnd.tcpdump.pcap
    let alt0 = Signature::new(vec![SignaturePart::new(0, vec![0xA1, 0xB2, 0xC3, 0xD4])]);
    assert(alt0@ =~~= rules_4_bytes_first()[5].alternatives[0]);
    let alt1 = Signature::new(vec![SignaturePart::new(0, vec![0xD4, 0xC3, 0xB2, 0xA1])]);
    assert(alt1@ =~~= rules_4_bytes_first()[5].alternatives[1]);
    let rule = Rule::new(FileFormat::new("application/vnd.tcpdump.pcap", "pcap"), vec![alt0, alt1]);
    assert(rule@.alternatives =~= rules_4_bytes_first()[5].alternatives);
    rules.push(rule);
    // application/wasm
    let alt = Signature::new(vec![SignaturePart::new(0, vec![0x00, 0x61, 0x73, 0x6D])]);
    assert(alt@ =~~= rules_4_bytes_first()[6].alternatives[0]);
    let rule = Rule::new(FileFormat::new("application/wasm", "wasm"), vec![alt]);
    assert(rule@.alternatives =~= rules_4_bytes_first()[6].alternatives);
    rules.push(rule);
    // application/x-esri-shape
    let alt = Signature::new(vec![SignaturePart::new(0, vec![0x00, 0x00, 0x27, 0x0A])]);
    assert(alt@ =~~= rules_4_bytes_first()[7].alternatives[0]);
    let rule = Rule::new(FileFormat::new("application/x-esri-shape", "shp"), vec![alt]);
    assert(rule@.alternatives =~= rules_4_bytes_first()[7].alternatives);
    rules.push(rule);
    // application/x-executable
    let alt = Signature::new(vec![SignaturePart::new(0, vec![0x7F, 0x45, 0x4C, 0x46])]);
    assert(alt@ =~~= rules_4_bytes_first()[8].alternatives[0]);
    let rule = Rule::new(FileFormat::new("application/x-executable", "elf"), vec![alt]);
    assert(rule@.alternatives =~= rules_4_bytes_first()[8].alternatives);
    rules.push(rule);
    // application/x-google-chrome-extension
    let alt = Signature::new(vec![
        // "Cr24"
        SignaturePart::new(0, vec![0x43, 0x72, 0x32, 0x34]),
    ]);
    assert(alt@ =~~= rules_4_bytes_first()[9].alternatives[0]);
    let rule = Rule::new(
        FileFormat::new("application/x-google-chrome-extension", "crx"),
        vec![alt],
    );
    assert(rule@.alternatives =~= rules_4_bytes_first()[9].alternatives);
    rules.push(rule);
    // application/x-lrzip
    let alt = Signature::new(vec![
        // "LRZI"
        SignaturePart::new(0, vec![0x4C, 0x52, 0x5A, 0x49]),
    ]);
    assert(alt@ =~~= rules_4_bytes_first()[10].alternatives[0]);
    let rule = Rule::new(FileFormat::new("application/x-lrzip", "lrz"), vec![alt]);
    assert(rule@.alternatives =~= rules_4_bytes_first()[10].alternatives);
    rules.push(rule);
    // application/x-lz4
    let alt = Signature::new(vec![SignaturePart::new(0, vec![0x04, 0x22, 0x4D, 0x18])]);
    assert(alt@ =~~= rules_4_bytes_first()[11].alternatives[0]);
    let rule = Rule::new(FileFormat::new("application/x-lz4", "lz4"), vec![alt]);
    assert(rule@.alternatives =~= rules_4_bytes_first()[11].alternatives);
    rules.push(rule);
    assert(rules_view(rules@) =~~= start + rules_4_bytes_first());
}

/// Rules with 4-byte signatures, second part.
pub open spec fn rules_4_bytes_second() -> Seq<RuleModel> {
    seq![
        rule_model("application/x-lzip"@, "lz"@, seq![
            seq![
                // "LZIP"
                part_model(0, [0x4Cu8, 0x5A, 0x49, 0x50]@),
            ],
        ]),
        rule_model("application/x-nintendo-nes-rom"@, "nes"@, seq![
            seq![
                part_model(0, [0x4Eu8, 0x45, 0x53, 0x1A]@),
            ],
        ]),
        rule_model("application/x-pcapng"@, "pcapng"@, seq![
            seq![
                part_model(0, [0x0Au8, 0x0D, 0x0D, 0x0A]@),
            ],
        ]),
        rule_model("application/x-rpm"@, "rpm"@, seq![
            seq![
                part_model(0, [0xEDu8, 0xAB, 0xEE, 0xDB]@),
            ],
        ]),
        rule_model("application/x-xar"@, "xar"@, seq![
            seq![
                // "xar!"
                part_model(0, [0x78u8, 0x61, 0x72, 0x21]@),
            ],
        ]),
        rule_model("application/zip"@, "zip"@, seq![
            seq![
                part_model(0, [0x50u8, 0x4B, 0x03, 0x04]@),
            ],
            seq![
                part_model(0, [0x50u8, 0x4B, 0x05, 0x06]@),
            ],
            seq![
                part_model(0, [0x50u8, 0x4B, 0x07, 0x08]@),
            ],
        ]),
        rule_model("application/zstd"@, "zst"@, seq![
            seq![
                part_model(0, [0x28u8, 0xB5, 0x2F, 0xFD]@),
            ],
        ]),
        rule_model("audio/basic"@, "au"@, seq![
            seq![
                // ".snd"
                part_model(0, [0x2Eu8, 0x73, 0x6E, 0x64]@),
            ],
        ]),
        rule_model("audio/midi"@, "mid"@, seq![
            seq![
                // "MThd"
                part_model(0, [0x4Du8, 0x54, 0x68, 0x64]@),
            ],
        ]),
        rule_model("audio/wavpack"@, "wv"@, seq![
            seq![
                // "wvpk"
                part_model(0, [0x77u8, 0x76, 0x70, 0x6B]@),
            ],
        ]),
        rule_model("audio/x-ape"@, "ape"@, seq![
            seq![
                // "MAC "
                part_model(0, [0x4Du8, 0x41, 0x43, 0x20]@),
            ],
        ]),
        rule_model("audio/x-flac"@, "flac"@, seq![
            seq![
                // "fLaC"
                part_model(0, [0x66u8, 0x4C, 0x61, 0x43]@),
            ],
        ]),
    ]
}

/// Appends the rules of `rules_4_bytes_second`.
pub(crate) fn push_rules_4_bytes_second(rules: &mut Vec<Rule>)
    ensures
        rules_view(final(rules)@) == rules_view(old(rules)@) + rules_4_bytes_second(),
{
    let ghost start = rules_view(rules@);
    // application/x-lzip
    let alt = Signature::new(vec![
        // "LZIP"
        SignaturePart::new(0, vec![0x4C, 0x5A, 0x49, 0x50]),
    ]);
    assert(alt@ =~~= rules_4_bytes_second()[0].alternatives[0]);
    let rule = Rule::new(FileFormat::new("application/x-lzip", "lz"), vec![alt]);
    assert(rule@.alternatives =~= rules_4_bytes_second()[0].alternatives);
    rules.push(rule);
    // application/x-nintendo-nes-rom
    let alt = Signature::new(vec![SignaturePart::new(0, vec![0x4E, 0x45, 0x53, 0x1A])]);
    assert(alt@ =~~= rules_4_bytes_second()[1].alternatives[0]);
    let rule = Rule::new(FileFormat::new("application/x-nintendo-nes-rom", "nes"), vec![alt]);
    assert(rule@.alternatives =~= rules_4_bytes_second()[1].alternatives);
    rules.push(rule);
    // application/x-pcapng
    let alt = Signature::new(vec![SignaturePart::new(0, vec![0x0A, 0x0D, 0x0D, 0x0A])]);
    assert(alt@ =~~= rules_4_bytes_second()[2].alternatives[0]);
    let rule = Rule::new(FileFormat::new("application/x-pcapng", "pcapng"), vec![alt]);
    assert(rule@.alternatives =~= rules_4_bytes_second()[2].alternatives);
    rules.push(rule);
    // application/x-rpm
    let alt = Signature::new(vec![SignaturePart::new(0, vec![0xED, 0xAB, 0xEE, 0xDB])]);
    assert(alt@ =~~= rules_4_bytes_second()[3].alternatives[0]);
    let rule = Rule::new(FileFormat::new("application/x-rpm", "rpm"), vec![alt]);
    assert(rule@.alternatives =~= rules_4_bytes_second()[3].alternatives);
    rules.push(rule);
    // application/x-xar
    let alt = Signature::new(vec![
        // "xar!"
        SignaturePart::new(0, vec![0x78, 0x61, 0x72, 0x21]),
    ]);
    assert(alt@ =~~= rules_4_bytes_second()[4].alternatives[0]);
    let rule = Rule::new(FileFormat::new("application/x-xar", "xar"), vec![alt]);
    assert(rule@.alternatives =~= rules_4_bytes_second()[4].alternatives);
    rules.push(rule);
    // application/zip
    let alt0 = Signature::new(vec![SignaturePart::new(0, vec![0x50, 0x4B, 0x03, 0x04])]);
    assert(alt0@ =~~= rules_4_bytes_second()[5].alternatives[0]);
    let alt1 = Signature::new(vec![SignaturePart::new(0, vec![0x50, 0x4B, 0x05, 0x06])]);
    assert(alt1@ =~~= rules_4_bytes_second()[5].alternatives[1]);
    let alt2 = Signature::new(vec![SignaturePart::new(0, vec![0x50, 0x4B, 0x07, 0x08])]);
    assert(alt2@ =~~= rules_4_bytes_second()[5].alternatives[2]);
    let rule = Rule::new(FileFormat::new("application/zip", "zip"), vec![alt0, alt1, alt2]);
    assert(rule@.alternatives =~= rules_4_bytes_second()[5].alternatives);
    rules.push(rule);
    // application/zstd
    let alt = Signature::new(vec![SignaturePart::new(0, vec![0x28, 0xB5, 0x2F, 0xFD])]);
    assert(alt@ =~~= rules_4_bytes_second()[6].alternatives[0]);
    let rule = Rule::new(FileFormat::new("application/zstd", "zst"), vec![alt]);
    assert(rule@.alternatives =~= rules_4_bytes_second()[6].alternatives);
    rules.push(rule);
    // audio/basic
    let alt = Signature::new(vec![
        // ".snd"
        SignaturePart::new(0, vec![0x2E, 0x73, 0x6E, 0x64]),
    ]);
    assert(alt@ =~~= rules_4_bytes_second()[7].alternatives[0]);
    let rule = Rule::new(FileFormat::new("audio/basic", "au"), vec![alt]);
    assert(rule@.alternatives =~= rules_4_bytes_second()[7].alternatives);
    rules.push(rule);
    // audio/midi
    let alt = Signature::new(vec![
        // "MThd"
        SignaturePart::new(0, vec![0x4D, 0x54, 0x68, 0x64]),
    ]);
    assert(alt@ =~~= rules_4_bytes_second()[8].alternatives[0]);
    let rule = Rule::new(FileFormat::new("audio/midi", "mid"), vec![alt]);
    assert(rule@.alternatives =~= rules_4_bytes_second()[8].alternatives);
    rules.push(rule);
    // audio/wavpack
    let alt = Signature::new(vec![
        // "wvpk"
        SignaturePart::new(0, vec![0x77, 0x76, 0x70, 0x6B]),
    ]);
    assert(alt@ =~~= rules_4_bytes_second()[9].alternatives[0]);
    let rule = Rule::new(FileFormat::new("audio/wavpack", "wv"), vec![alt]);
    assert(rule@.alternatives =~= rules_4_bytes_second()[9].alternatives);
    rules.push(rule);
    // audio/x-ape
    let alt = Signature::new(vec![
        // "MAC "
        SignaturePart::new(0, vec![0x4D, 0x41, 0x43, 0x20]),
    ]);
    assert(alt@ =~~= rules_4_bytes_second()[10].alternatives[0]);
    let rule = Rule::new(FileFormat::new("audio/x-ape", "ape"), vec![alt]);
    assert(rule@.alternatives =~= rules_4_bytes_second()[10].alternatives);
    rules.push(rule);
    // audio/x-flac
    let alt = Signature::new(vec![
        // "fLaC"
        SignaturePart::new(0, vec![0x66, 0x4C, 0x61, 0x43]),
    ]);
    assert(alt@ =~~= rules_4_bytes_second()[11].alternatives[0]);
    let rule = Rule::new(FileFormat::new("audio/x-flac", "flac"), vec![alt]);
    assert(rule@.alternatives =~= rules_4_bytes_second()[11].alternatives);
    rules.push(rule);
    assert(rules_view(rules@) =~~= start + rules_4_bytes_second());
}

/// Rules with 4-byte signatures, third part.
pub open spec fn rules_4_bytes_third() -> Seq<RuleModel> {
    seq![
        rule_model("audio/x-musepack"@, "mpc"@, seq![
            seq![
                // "MPCK"
                part_model(0, [0x4Du8, 0x50, 0x43, 0x4B]@),
            ],
            seq![
                // "MP+"
                part_model(0, [0x4Du8, 0x50, 0x2B]@),
            ],
        ]),
        rule_model("font/woff"@, "woff"@, seq![
            seq![
                // "wOFF"
                part_model(0, [0x77u8, 0x4F, 0x46, 0x46]@),
            ],
        ]),
        rule_model("font/woff2"@, "woff2"@, seq![
            seq![
                // "wOF2"
                part_model(0, [0x77u8, 0x4F, 0x46, 0x32]@),
            ],
        ]),
        rule_model("image/bpg"@, "bpg"@, seq![
            seq![
                part_model(0, [0x42u8, 0x50, 0x47, 0xFB]@),
            ],
        ]),
        rule_model("image/cineon"@, "cin"@, seq![
            seq![
                part_model(0, [0x80u8, 0x2A, 0x5F, 0xD7]@),
            ],
        ]),
        rule_model("image/flif"@, "flif"@, seq![
            seq![
                // "FLIF"
                part_model(0, [0x46u8, 0x4C, 0x49, 0x46]@),
            ],
        ]),
        rule_model("image/icns"@, "icns"@, seq![
            seq![
                // "icns"
                part_model(0, [0x69u8, 0x63, 0x6E, 0x73]@),
            ],
        ]),
        rule_model("image/tiff"@, "tiff"@, seq![
            seq![
                part_model(0, [0x4Du8, 0x4D, 0x00, 0x2A]@),
            ],
            seq![
                part_model(0, [0x49u8, 0x49, 0x2A, 0x00]@),
            ],
        ]),
    ]
}

/// Appends the rules of `rules_4_bytes_third`.
pub(crate) fn push_rules_4_bytes_third(rules: &mut Vec<Rule>)
    ensures
        rules_view(final(rules)@) == rules_view(old(rules)@) + rules_4_bytes_third(),
{
    let ghost start = rules_view(rules@);
    // audio/x-musepack
    let alt0 = Signature::new(vec![
        // "MPCK"
        SignaturePart::new(0, vec![0x4D, 0x50, 0x43, 0x4B]),
    ]);
    assert(alt0@ =~~= rules_4_bytes_third()[0].alternatives[0]);
    let alt1 = Signature::new(vec![
        // "MP+"
        SignaturePart::new(0, vec![0x4D, 0x50, 0x2B]),
    ]);
    assert(alt1@ =~~= rules_4_bytes_third()[0].alternatives[1]);
    let rule = Rule::new(FileFormat::new("audio/x-musepack", "mpc"), vec![alt0, alt1]);
    assert(rule@.alternatives =~= rules_4_bytes_third()[0].alternatives);
    rules.push(rule);
    // font/woff
    let alt = Signature::new(vec![
        // "wOFF"
        SignaturePart::new(0, vec![0x77, 0x4F, 0x46, 0x46]),
    ]);
    assert(alt@ =~~= rules_4_bytes_third()[1].alternatives[0]);
    let rule = Rule::new(FileFormat::new("font/woff", "woff"), vec![alt]);
    assert(rule@.alternatives =~= rules_4_bytes_third()[1].alternatives);
    rules.push(rule);
    // font/woff2
    let alt = Signature::new(vec![
        // "wOF2"
        SignaturePart::new(0, vec![0x77, 0x4F, 0x46, 0x32]),
    ]);
    assert(alt@ =~~= rules_4_bytes_third()[2].alternatives[0]);
    let rule = Rule::new(FileFormat::new("font/woff2", "woff2"), vec![alt]);
    assert(rule@.alternatives =~= rules_4_bytes_third()[2].alternatives);
    rules.push(rule);
    // image/bpg
    let alt = Signature::new(vec![SignaturePart::new(0, vec![0x42, 0x50, 0x47, 0xFB])]);
    assert(alt@ =~~= rules_4_bytes_third()[3].alternatives[0]);
    let rule = Rule::new(FileFormat::new("image/bpg", "bpg"), vec![alt]);
    assert(rule@.alternatives =~= rules_4_bytes_third()[3].alternatives);
    rules.push(rule);
    // image/cineon
    let alt = Signature::new(vec![SignaturePart::new(0, vec![0x80, 0x2A, 0x5F, 0xD7])]);
    assert(alt@ =~~= rules_4_bytes_third()[4].alternatives[0]);
    let rule = Rule::new(FileFormat::new("image/cineon", "cin"), vec![alt]);
    assert(rule@.alternatives =~= rules_4_bytes_third()[4].alternatives);
    rules.push(rule);
    // image/flif
    let alt = Signature::new(vec![
        // "FLIF"
        SignaturePart::new(0, vec![0x46, 0x4C, 0x49, 0x46]),
    ]);
    assert(alt@ =~~= rules_4_bytes_third()[5].alternatives[0]);
    let rule = Rule::new(FileFormat::new("image/flif", "flif"), vec![alt]);
    assert(rule@.alternatives =~= rules_4_bytes_third()[5].alternatives);
    rules.push(rule);
    // image/icns
    let alt = Signature::new(vec![
        // "icns"
        SignaturePart::new(0, vec![0x69, 0x63, 0x6E, 0x73]),
    ]);
    assert(alt@ =~~= rules_4_bytes_third()[6].alternatives[0]);
    let rule = Rule::new(FileFormat::new("image/icns", "icns"), vec![alt]);
    assert(rule@.alternatives =~= rules_4_bytes_third()[6].alternatives);
    rules.push(rule);
    // image/tiff
    let alt0 = Signature::new(vec![SignaturePart::new(0, vec![0x4D, 0x4D, 0x00, 0x2A])]);
    assert(alt0@ =~~= rules_4_bytes_third()[7].alternatives[0]);
    let alt1 = Signature::new(vec![SignaturePart::new(0, vec![0x49, 0x49, 0x2A, 0x00])]);
    assert(alt1@ =~~= rules_4_bytes_third()[7].alternatives[1]);
    let rule = Rule::new(FileFormat::new("image/tiff", "tiff"), vec![alt0, alt1]);
    assert(rule@.alternatives =~= rules_4_bytes_third()[7].alternatives);
    rules.push(rule);
    assert(rules_view(rules@) =~~= start + rules_4_bytes_third());
}

/// Rules with 4-byte signatures, fourth part.
pub open spec fn rules_4_bytes_fourth() -> Seq<RuleModel> {
    seq![
        rule_model("image/vnd.adobe.photoshop"@, "psd"@, seq![
            seq![
                // "8BPS"
                part_model(0, [0x38u8, 0x42, 0x50, 0x53]@),
            ],
        ]),
        rule_model("image/wmf"@, "wmf"@, seq![
            seq![
                part_model(0, [0xD7u8, 0xCD, 0xC6, 0x9A]@),
            ],
            seq![
                part_model(0, [0x02u8, 0x00, 0x09, 0x00]@),
            ],
            seq![
                part_model(0, [0x01u8, 0x00, 0x09, 0x00]@),
            ],
        ]),
        rule_model("image/x-dpx"@, "dpx"@, seq![
            seq![
                // "SDPX"
                part_model(0, [0x53u8, 0x44, 0x50, 0x58]@),
            ],
            seq![
                // "XPDS"
                part_model(0, [0x58u8, 0x50, 0x44, 0x53]@),
            ],
        ]),
        rule_model("image/x-exr"@, "exr"@, seq![
            seq![
                part_model(0, [0x76u8, 0x2F, 0x31, 0x01]@),
            ],
        ]),
        rule_model("image/x-icon"@, "ico"@, seq![
            seq![
                part_model(0, [0x00u8, 0x00, 0x01, 0x00]@),
            ],
        ]),
        rule_model("model/gltf-binary"@, "glb"@, seq![
            seq![
                // "glTF"
                part_model(0, [0x67u8, 0x6C, 0x54, 0x46]@),
            ],
        ]),
        rule_model("video/mpeg"@, "mpg"@, seq![
            seq![
                part_model(0, [0x00u8, 0x00, 0x01, 0xBA]@),
            ],
            seq![
                part_model(0, [0x00u8, 0x00, 0x01, 0xB3]@),
            ],
        ]),
        rule_model("video/x-flv"@, "flv"@, seq![
            seq![
                part_model(0, [0x46u8, 0x4C, 0x56, 0x01]@),
            ],
        ]),
    ]
}

/// Appends the rules of `rules_4_bytes_fourth`.
pub(crate) fn push_rules_4_bytes_fourth(rules: &mut Vec<Rule>)
    ensures
        rules_view(final(rules)@) == rules_view(old(rules)@) + rules_4_bytes_fourth(),
{
    let ghost start = rules_view(rules@);
    // image/vnd.adobe.photoshop
    let alt = Signature::new(vec![
        // "8BPS"
        SignaturePart::new(0, vec![0x38, 0x42, 0x50, 0x53]),
    ]);
    assert(alt@ =~~= rules_4_bytes_fourth()[0].alternatives[0]);
    let rule = Rule::new(FileFormat::new("image/vnd.adobe.photoshop", "psd"), vec![alt]);
    assert(rule@.alternatives =~= rules_4_bytes_fourth()[0].alternatives);
    rules.push(rule);
    // image/wmf
    let alt0 = Signature::new(vec![SignaturePart::new(0, vec![0xD7, 0xCD, 0xC6, 0x9A])]);
    assert(alt0@ =~~= rules_4_bytes_fourth()[1].alternatives[0]);
    let alt1 = Signature::new(vec![SignaturePart::new(0, vec![0x02, 0x00, 0x09, 0x00])]);
    assert(alt1@ =~~= rules_4_bytes_fourth()[1].alternatives[1]);
    let alt2 = Signature::new(vec![SignaturePart::new(0, vec![0x01, 0x00, 0x09, 0x00])]);
    assert(alt2@ =~~= rules_4_bytes_fourth()[1].alternatives[2]);
    let rule = Rule::new(FileFormat::new("image/wmf", "wmf"), vec![alt0, alt1, alt2]);
    assert(rule@.alternatives =~= rules_4_bytes_fourth()[1].alternatives);
    rules.push(rule);
    // image/x-dpx
    let alt0 = Signature::new(vec![
        // "SDPX"
        SignaturePart::new(0, vec![0x53, 0x44, 0x50, 0x58]),
    ]);
    assert(alt0@ =~~= rules_4_bytes_fourth()[2].alternatives[0]);
    let alt1 = Signature::new(vec![
        // "XPDS"
        SignaturePart::new(0, vec![0x58, 0x50, 0x44, 0x53]),
    ]);
    assert(alt1@ =~~= rules_4_bytes_fourth()[2].alternatives[1]);
    let rule = Rule::new(FileFormat::new("image/x-dpx", "dpx"), vec![alt0, alt1]);
    assert(rule@.alternatives =~= rules_4_bytes_fourth()[2].alternatives);
    rules.push(rule);
    // image/x-exr
    let alt = Signature::new(vec![SignaturePart::new(0, vec![0x76, 0x2F, 0x31, 0x01])]);
    assert(alt@ =~~= rules_4_bytes_fourth()[3].alternatives[0]);
    let rule = Rule::new(FileFormat::new("image/x-exr", "exr"), vec![alt]);
    assert(rule@.alternatives =~= rules_4_bytes_fourth()[3].alternatives);
    rules.push(rule);
    // image/x-icon
    let alt = Signature::new(vec![SignaturePart::new(0, vec![0x00, 0x00, 0x01, 0x00])]);
    assert(alt@ =~~= rules_4_bytes_fourth()[4].alternatives[0]);
    let rule = Rule::new(FileFormat::new("image/x-icon", "ico"), vec![alt]);
    assert(rule@.alternatives =~= rules_4_bytes_fourth()[4].alternatives);
    rules.push(rule);
    // model/gltf-binary
    let alt = Signature::new(vec![
        // "glTF"
        SignaturePart::new(0, vec![0x67, 0x6C, 0x54, 0x46]),
    ]);
    assert(alt@ =~~= rules_4_bytes_fourth()[5].alternatives[0]);
    let rule = Rule::new(FileFormat::new("model/gltf-binary", "glb"), vec![alt]);
    assert(rule@.alternatives =~= rules_4_bytes_fourth()[5].alternatives);
    rules.push(rule);
    // video/mpeg
    let alt0 = Signature::new(vec![SignaturePart::new(0, vec![0x00, 0x00, 0x01, 0xBA])]);
    assert(alt0@ =~~= rules_4_bytes_fourth()[6].alternatives[0]);
    let alt1 = Signature::new(vec![SignaturePart::new(0, vec![0x00, 0x00, 0x01, 0xB3])]);
    assert(alt1@ =~~= rules_4_bytes_fourth()[6].alternatives[1]);
    let rule = Rule::new(FileFormat::new("video/mpeg", "mpg"), vec![alt0, alt1]);
    assert(rule@.alternatives =~= rules_4_bytes_fourth()[6].alternatives);
    rules.push(rule);
    // video/x-flv
    let alt = Signature::new(vec![SignaturePart::new(0, vec![0x46, 0x4C, 0x56, 0x01])]);
    assert(alt@ =~~= rules_4_bytes_fourth()[7].alternatives[0]);
    let rule = Rule::new(FileFormat::new("video/x-flv", "flv"), vec![alt]);
    assert(rule@.alternatives =~= rules_4_bytes_fourth()[7].alternatives);
    rules.push(rule);
    assert(rules_view(rules@) =~~= start + rules_4_bytes_fourth());
}

/// Rules with 3- and 2-byte signatures.
pub open spec fn rules_3_and_2_bytes() -> Seq<RuleModel> {
    seq![
        rule_model("application/x-bzip2"@, "bz2"@, seq![
            seq![
                // "BZh"
                part_model(0, [0x42u8, 0x5A, 0x68]@),
            ],
        ]),
        rule_model("application/x-shockwave-flash"@, "swf"@, seq![
            seq![
                // "CWS"
                part_model(0, [0x43u8, 0x57, 0x53]@),
            ],
            seq![
                // "FWS"
                part_model(0, [0x46u8, 0x57, 0x53]@),
            ],
        ]),
        rule_model("audio/mpeg"@, "mp3"@, seq![
            seq![
                // "ID3"
                part_model(0, [0x49u8, 0x44, 0x33]@),
            ],
        ]),
        rule_model("image/jxr"@, "jxr"@, seq![
            seq![
                part_model(0, [0x49u8, 0x49, 0xBC]@),
            ],
        ]),
        rule_model("application/gzip"@, "gz"@, seq![
            seq![
                part_model(0, [0x1Fu8, 0x8B]@),
            ],
        ]),
        rule_model("application/x-apple-diskimage"@, "dmg"@, seq![
            seq![
                part_model(0, [0x78u8, 0x01]@),
            ],
        ]),
        rule_model("application/x-compress"@, "z"@, seq![
            seq![
                part_model(0, [0x1Fu8, 0xA0]@),
            ],
            seq![
                part_model(0, [0x1Fu8, 0x9D]@),
            ],
        ]),
        rule_model("application/x-msdownload"@, "exe"@, seq![
            seq![
                part_model(0, [0x4Du8, 0x5A]@),
            ],
        ]),
        rule_model("audio/aac"@, "aac"@, seq![
            seq![
                part_model(0, [0xFFu8, 0xF1]@),
            ],
            seq![
                part_model(0, [0xFFu8, 0xF9]@),
            ],
        ]),
        rule_model("audio/vnd.dolby.dd-raw"@, "ac3"@, seq![
            seq![
                part_model(0, [0x0Bu8, 0x77]@),
            ],
        ]),
        rule_model("image/bmp"@, "bmp"@, seq![
            seq![
                part_model(0, [0x42u8, 0x4D]@),
            ],
        ]),
        rule_model("video/mp2t"@, "m2ts"@, seq![
            seq![
                part_model(0, [0x47u8]@),
                part_model(188, [0x47u8]@),
            ],
            seq![
                part_model(4, [0x47u8]@),
                part_model(196, [0x47u8]@),
            ],
        ]),
    ]
}

/// Appends the rules of `rules_3_and_2_bytes`.
pub(crate) fn push_rules_3_and_2_bytes(rules: &mut Vec<Rule>)
    ensures
        rules_view(final(rules)@) == rules_view(old(rules)@) + rules_3_and_2_bytes(),
{
    let ghost start = rules_view(rules@);
    // application/x-bzip2
    let alt = Signature::new(vec![
        // "BZh"
        SignaturePart::new(0, vec![0x42, 0x5A, 0x68]),
    ]);
    assert(alt@ =~~= rules_3_and_2_bytes()[0].alternatives[0]);
    let rule = Rule::new(FileFormat::new("application/x-bzip2", "bz2"), vec![alt]);
    assert(rule@.alternatives =~= rules_3_and_2_bytes()[0].alternatives);
    rules.push(rule);
    // application/x-shockwave-flash
    let alt0 = Signature::new(vec![
        // "CWS"
        SignaturePart::new(0, vec![0x43, 0x57, 0x53]),
    ]);
    assert(alt0@ =~~= rules_3_and_2_bytes()[1].alternatives[0]);
    let alt1 = Signature::new(vec![
        // "FWS"
        SignaturePart::new(0, vec![0x46, 0x57, 0x53]),
    ]);
    assert(alt1@ =~~= rules_3_and_2_bytes()[1].alternatives[1]);
    let rule = Rule::new(FileFormat::new("application/x-shockwave-flash", "swf"), vec![alt0, alt1]);
    assert(rule@.alternatives =~= rules_3_and_2_bytes()[1].alternatives);
    rules.push(rule);
    // audio/mpeg
    let alt = Signature::new(vec![
        // "ID3"
        SignaturePart::new(0, vec![0x49, 0x44, 0x33]),
    ]);
    assert(alt@ =~~= rules_3_and_2_bytes()[2].alternatives[0]);
    let rule = Rule::new(FileFormat::new("audio/mpeg", "mp3"), vec![alt]);
    assert(rule@.alternatives =~= rules_3_and_2_bytes()[2].alternatives);
    rules.push(rule);
    // image/jxr
    let alt = Signature::new(vec![SignaturePart::new(0, vec![0x49, 0x49, 0xBC])]);
    assert(alt@ =~~= rules_3_and_2_bytes()[3].alternatives[0]);
    let rule = Rule::new(FileFormat::new("image/jxr", "jxr"), vec![alt]);
    assert(rule@.alternatives =~= rules_3_and_2_bytes()[3].alternatives);
    rules.push(rule);
    // application/gzip
    let alt = Signature::new(vec![SignaturePart::new(0, vec![0x1F, 0x8B])]);
    assert(alt@ =~~= rules_3_and_2_bytes()[4].alternatives[0]);
    let rule = Rule::new(FileFormat::new("application/gzip", "gz"), vec![alt]);
    assert(rule@.alternatives =~= rules_3_and_2_bytes()[4].alternatives);
    rules.push(rule);
    // application/x-apple-diskimage
    let alt = Signature::new(vec![SignaturePart::new(0, vec![0x78, 0x01])]);
    assert(alt@ =~~= rules_3_and_2_bytes()[5].alternatives[0]);
    let rule = Rule::new(FileFormat::new("application/x-apple-diskimage", "dmg"), vec![alt]);
    assert(rule@.alternatives =~= rules_3_and_2_bytes()[5].alternatives);
    rules.push(rule);
    // application/x-compress
    let alt0 = Signature::new(vec![SignaturePart::new(0, vec![0x1F, 0xA0])]);
    assert(alt0@ =~~= rules_3_and_2_bytes()[6].alternatives[0]);
    let alt1 = Signature::new(vec![SignaturePart::new(0, vec![0x1F, 0x9D])]);
    assert(alt1@ =~~= rules_3_and_2_bytes()[6].alternatives[1]);
    let rule = Rule::new(FileFormat::new("application/x-compress", "z"), vec![alt0, alt1]);
    assert(rule@.alternatives =~= rules_3_and_2_bytes()[6].alternatives);
    rules.push(rule);
    // application/x-msdownload
    let alt = Signature::new(vec![SignaturePart::new(0, vec![0x4D, 0x5A])]);
    assert(alt@ =~~= rules_3_and_2_bytes()[7].alternatives[0]);
    let rule = Rule::new(FileFormat::new("application/x-msdownload", "exe"), vec![alt]);
    assert(rule@.alternatives =~= rules_3_and_2_bytes()[7].alternatives);
    rules.push(rule);
    // audio/aac
    let alt0 = Signature::new(vec![SignaturePart::new(0, vec![0xFF, 0xF1])]);
    assert(alt0@ =~~= rules_3_and_2_bytes()[8].alternatives[0]);
    let alt1 = Signature::new(vec![SignaturePart::new(0, vec![0xFF, 0xF9])]);
    assert(alt1@ =~~= rules_3_and_2_bytes()[8].alternatives[1]);
    let rule = Rule::new(FileFormat::new("audio/aac", "aac"), vec![alt0, alt1]);
    assert(rule@.alternatives =~= rules_3_and_2_bytes()[8].alternatives);
    rules.push(rule);
    // audio/vnd.dolby.dd-raw
    let alt = Signature::new(vec![SignaturePart::new(0, vec![0x0B, 0x77])]);
    assert(alt@ =~~= rules_3_and_2_bytes()[9].alternatives[0]);
    let rule = Rule::new(FileFormat::new("audio/vnd.dolby.dd-raw", "ac3"), vec![alt]);
    assert(rule@.alternatives =~= rules_3_and_2_bytes()[9].alternatives);
    rules.push(rule);
    // image/bmp
    let alt = Signature::new(vec![SignaturePart::new(0, vec![0x42, 0x4D])]);
    assert(alt@ =~~= rules_3_and_2_bytes()[10].alternatives[0]);
    let rule = Rule::new(FileFormat::new("image/bmp", "bmp"), vec![alt]);
    assert(rule@.alternatives =~= rules_3_and_2_bytes()[10].alternatives);
    rules.push(rule);
    // video/mp2t
    let alt0 = Signature::new(vec![
        SignaturePart::new(0, vec![0x47]),
        SignaturePart::new(188, vec![0x47]),
    ]);
    assert(alt0@ =~~= rules_3_and_2_bytes()[11].alternatives[0]);
    let alt1 = Signature::new(vec![
        SignaturePart::new(4, vec![0x47]),
        SignaturePart::new(196, vec![0x47]),
    ]);
    assert(alt1@ =~~= rules_3_and_2_bytes()[11].alternatives[1]);
    let rule = Rule::new(FileFormat::new("video/mp2t", "m2ts"), vec![alt0, alt1]);
    assert(rule@.alternatives =~= rules_3_and_2_bytes()[11].alternatives);
    rules.push(rule);
    assert(rules_view(rules@) =~~= start + rules_3_and_2_bytes());
}

} // verus!
