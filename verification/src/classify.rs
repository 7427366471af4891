//! Turning raw encoder diagnostics into messages for the user.
//!
//! The encoder reports failures as free text. A diagnostic is matched
//! against an ordered table of signatures; the first signature that occurs
//! in the text decides the message, and a text that matches none is passed
//! on behind a fixed prefix.

use vstd::prelude::*;
use crate::text::{contains, occurs_in};

verus! {

/// One row of the classification table: a signature to look for in the
/// diagnostic and the message given when it is found.
pub struct Rule {
    pub signature: String,
    pub message: String,
}

/// The mathematical content of a [`Rule`].
pub struct RuleView {
    pub signature: Seq<char>,
    pub message: Seq<char>,
}

impl View for Rule {
    type V = RuleView;

    open spec fn view(&self) -> RuleView {
        RuleView { signature: self.signature@, message: self.message@ }
    }
}

impl DeepView for Rule {
    type V = RuleView;

    open spec fn deep_view(&self) -> RuleView {
        self@
    }
}

/// The message for a diagnostic that matches no rule.
pub open spec fn fallback_message(text: Seq<char>) -> Seq<char> {
    "Conversion failed: "@ + text
}

/// The message that an ordered table gives for a diagnostic: that of the
/// first rule whose signature occurs in the text, else the fallback.
pub open spec fn classify_by(rules: Seq<RuleView>, text: Seq<char>) -> Seq<char>
    decreases rules.len(),
{
    if rules.len() == 0 {
        fallback_message(text)
    } else if occurs_in(rules[0].signature, text) {
        rules[0].message
    } else {
        classify_by(rules.drop_first(), text)
    }
}

/// The table of known encoder failures, in matching order.
pub open spec fn standard_rules() -> Seq<RuleView> {
    seq![
        RuleView {
            signature: "Output file does not contain any stream"@,
            message: "The input file appears to be corrupted or doesn't contain valid video/audio streams"@,
        },
        RuleView {
            signature: "Invalid data found"@,
            message: "The file contains invalid data or is corrupted"@,
        },
        RuleView {
            signature: "No such file or directory"@,
            message: "FFmpeg failed to access the file. Make sure FFmpeg is properly installed."@,
        },
        RuleView {
            signature: "Invalid argument"@,
            message: "Invalid arguments passed to FFmpeg. The file might be corrupted."@,
        },
    ]
}

/// The message shown to the user for a failed conversion, written out rule
/// by rule.
pub open spec fn friendly_message(text: Seq<char>) -> Seq<char> {
    if occurs_in("Output file does not contain any stream"@, text) {
        "The input file appears to be corrupted or doesn't contain valid video/audio streams"@
    } else if occurs_in("Invalid data found"@, text) {
        "The file contains invalid data or is corrupted"@
    } else if occurs_in("No such file or directory"@, text) {
        "FFmpeg failed to access the file. Make sure FFmpeg is properly installed."@
    } else if occurs_in("Invalid argument"@, text) {
        "Invalid arguments passed to FFmpeg. The file might be corrupted."@
    } else {
        fallback_message(text)
    }
}

/// First match wins: a rule whose signature occurs in the text, with no
/// earlier rule's signature occurring, gives the message.
pub proof fn lemma_first_match_wins(rules: Seq<RuleView>, text: Seq<char>, i: int)
    requires
        0 <= i < rules.len(),
        occurs_in(rules[i].signature, text),
        forall|j: int| 0 <= j < i ==> !occurs_in(#[trigger] rules[j].signature, text),
    ensures
        classify_by(rules, text) == rules[i].message,
    decreases i,
{
    if i > 0 {
        let rest = rules.drop_first();
        assert(!occurs_in(rules[0].signature, text));
        assert(rest[i - 1] == rules[i]);
        assert forall|j: int| 0 <= j < i - 1 implies !occurs_in(
            #[trigger] rest[j].signature,
            text,
        ) by {
            assert(rest[j] == rules[j + 1]);
        }
        lemma_first_match_wins(rest, text, i - 1);
    }
}

/// A text in which no signature of the table occurs gets the fallback
/// message, which passes the text on in full.
pub proof fn lemma_no_match_falls_back(rules: Seq<RuleView>, text: Seq<char>)
    requires
        forall|j: int| 0 <= j < rules.len() ==> !occurs_in(#[trigger] rules[j].signature, text),
    ensures
        classify_by(rules, text) == fallback_message(text),
    decreases rules.len(),
{
    if rules.len() > 0 {
        let rest = rules.drop_first();
        assert(!occurs_in(rules[0].signature, text));
        assert forall|j: int| 0 <= j < rest.len() implies !occurs_in(
            #[trigger] rest[j].signature,
            text,
        ) by {
            assert(rest[j] == rules[j + 1]);
        }
        lemma_no_match_falls_back(rest, text);
    }
}

/// The standard table classifies exactly as the rule-by-rule definition.
pub proof fn lemma_standard_rules_classify(text: Seq<char>)
    ensures
        classify_by(standard_rules(), text) == friendly_message(text),
{
    let r0 = standard_rules();
    let r1 = r0.drop_first();
    let r2 = r1.drop_first();
    let r3 = r2.drop_first();
    let r4 = r3.drop_first();
    assert(r4.len() == 0);
    assert(classify_by(r4, text) == fallback_message(text));
    assert(classify_by(r3, text) == if occurs_in(r3[0].signature, text) {
        r3[0].message
    } else {
        classify_by(r4, text)
    });
    assert(classify_by(r2, text) == if occurs_in(r2[0].signature, text) {
        r2[0].message
    } else {
        classify_by(r3, text)
    });
    assert(classify_by(r1, text) == if occurs_in(r1[0].signature, text) {
        r1[0].message
    } else {
        classify_by(r2, text)
    });
}

/// Builds one table row.
pub fn rule(signature: &str, message: &str) -> (r: Rule)
    ensures
        r@ == (RuleView { signature: signature@, message: message@ }),
{
    Rule { signature: String::from_str(signature), message: String::from_str(message) }
}

/// The table of known encoder failures.
pub fn standard_rule_table() -> (rules: Vec<Rule>)
    ensures
        rules.deep_view() == standard_rules(),
{
    let mut rules: Vec<Rule> = Vec::new();
    rules.push(
        rule(
            "Output file does not contain any stream",
            "The input file appears to be corrupted or doesn't contain valid video/audio streams",
        ),
    );
    rules.push(rule("Invalid data found", "The file contains invalid data or is corrupted"));
    rules.push(
        rule(
            "No such file or directory",
            "FFmpeg failed to access the file. Make sure FFmpeg is properly installed.",
        ),
    );
    rules.push(
        rule(
            "Invalid argument",
            "Invalid arguments passed to FFmpeg. The file might be corrupted.",
        ),
    );
    assert(rules.deep_view() =~= standard_rules());
    rules
}

/// Classifies a diagnostic against an ordered table: the first rule whose
/// signature occurs in the text gives the message; if none does, the text
/// itself is returned behind the fallback prefix.
pub fn classify(rules: &Vec<Rule>, text: &str) -> (message: String)
    ensures
        message@ == classify_by(rules.deep_view(), text@),
{
    let ghost table = rules.deep_view();
    let mut i: usize = 0;
    assert(table.skip(0) =~= table);
    while i < rules.len()
        invariant
            i <= rules.len(),
            table == rules.deep_view(),
            classify_by(table, text@) == classify_by(table.skip(i as int), text@),
        decreases rules.len() - i,
    {
        let ghost rest = table.skip(i as int);
        assert(rest[0] == rules[i as int]@);
        assert(rest.drop_first() =~= table.skip(i + 1));
        if contains(text, rules[i].signature.as_str()) {
            return rules[i].message.clone();
        }
        i += 1;
    }
    assert(table.skip(i as int).len() == 0);
    String::from_str("Conversion failed: ").concat(text)
}

/// The message shown to the user for a failed conversion, given the
/// encoder's diagnostic text. Matching is by substring and in a fixed
/// order: a missing output stream, invalid input data, an inaccessible
/// file, an invalid argument; any other text is passed on behind
/// `Conversion failed: `.
pub fn get_user_friendly_error(error_message: &str) -> (message: String)
    ensures
        message@ == friendly_message(error_message@),
{
    let rules = standard_rule_table();
    proof {
        lemma_standard_rules_classify(error_message@);
    }
    classify(&rules, error_message)
}

} // verus!
