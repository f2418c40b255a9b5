//! The signature classifier: a total, pure function from raw source text to
//! one framework label, decided by substring markers in a fixed priority
//! order, first match wins. It never depends on whether the text parses.

use vstd::prelude::*;
use crate::text::chars_of;
use crate::text::contains_seq;
use crate::text::contains_str;

verus! {

/// The framework label assigned to a source text: the first matching marker
/// set wins, and texts with no marker fall back to `"generic"`.
pub open spec fn classify_label(s: Seq<char>) -> Seq<char> {
    if contains_seq(s, "#[ink::contract]"@) || contains_seq(s, "ink_lang"@) {
        "ink"@
    } else if contains_seq(s, "cosmwasm_std"@) || contains_seq(s, "InstantiateMsg"@) {
        "cosmwasm"@
    } else if contains_seq(s, "anchor_lang"@) || contains_seq(s, "#[program]"@) {
        "anchor"@
    } else if contains_seq(s, "near_sdk"@) || contains_seq(s, "#[near_bindgen]"@) {
        "near"@
    } else {
        "generic"@
    }
}

/// `l` is one of the five labels the classifier can assign to a text it was
/// given. (The sixth label, `"unknown"`, is reserved for reports whose text
/// failed to parse and is never assigned by the classifier itself.)
pub open spec fn is_classifier_label(l: Seq<char>) -> bool {
    l == "ink"@ || l == "cosmwasm"@ || l == "anchor"@ || l == "near"@ || l == "generic"@
}

/// Classification is total: every text, the empty one included, is assigned
/// exactly one label, and that label is from the closed candidate set.
pub proof fn lemma_classification_total(s: Seq<char>)
    ensures
        is_classifier_label(classify_label(s)),
{
}

/// Classification is pure: the label depends on the text alone, so two
/// classifications of identical text agree.
pub proof fn lemma_classification_pure(s1: Seq<char>, s2: Seq<char>)
    requires
        s1 == s2,
    ensures
        classify_label(s1) == classify_label(s2),
{
}

/// A text carrying either ink marker anywhere in it is classified `"ink"`,
/// whatever else it contains: that marker set has the highest priority.
/// (A report only shows this label when the text also parses; a parse
/// failure forces the report's label to `"unknown"` instead.)
pub proof fn lemma_ink_marker_wins(s: Seq<char>)
    requires
        contains_seq(s, "#[ink::contract]"@) || contains_seq(s, "ink_lang"@),
    ensures
        classify_label(s) == "ink"@,
{
}

/// Assigns the framework label for `source`.
pub fn classify_source(source: &str) -> (r: String)
    ensures
        r@ == classify_label(source@),
{
    let hay = chars_of(source);
    let label: &str = if contains_str(&hay, "#[ink::contract]") || contains_str(&hay, "ink_lang") {
        "ink"
    } else if contains_str(&hay, "cosmwasm_std") || contains_str(&hay, "InstantiateMsg") {
        "cosmwasm"
    } else if contains_str(&hay, "anchor_lang") || contains_str(&hay, "#[program]") {
        "anchor"
    } else if contains_str(&hay, "near_sdk") || contains_str(&hay, "#[near_bindgen]") {
        "near"
    } else {
        "generic"
    };
    String::from_str(label)
}

} // verus!
