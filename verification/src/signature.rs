//! The meeting-application signatures and how process names match them.
//!
//! A process counts as a meeting application when its name, in lowercase,
//! contains one of the signatures. The match is by substring on purpose: any
//! name that happens to contain a signature matches too.

use crate::text::{
    chars_of, contains, is_substring, lemma_substring_of_itself, lemma_substring_of_substring,
    lowercase,
};
use vstd::multiset::Multiset;
use vstd::prelude::*;

verus! {

/// The signatures, all in lowercase.
pub open spec fn meeting_signatures() -> Seq<Seq<char>> {
    seq!["zoom"@, "teams"@, "wemeetapp"@, "dingtalk"@, "feishu"@, "webex"@, "slack"@]
}

/// One of `signatures` occurs in `text`.
pub open spec fn matches_any(text: Seq<char>, signatures: Seq<Seq<char>>) -> bool {
    exists|k: int| 0 <= k < signatures.len() && is_substring(text, #[trigger] signatures[k])
}

/// A process of this name counts as a meeting application.
pub open spec fn is_meeting_name(name: Seq<char>) -> bool {
    matches_any(lowercase(name), meeting_signatures())
}

/// One of `names` is the name of a meeting application.
pub open spec fn has_meeting_name(names: Multiset<Seq<char>>) -> bool {
    exists|name: Seq<char>| names.contains(name) && is_meeting_name(name)
}

/// The signatures as character vectors, in the order of `meeting_signatures`.
pub fn signature_list() -> (list: Vec<Vec<char>>)
    ensures
        list.deep_view() == meeting_signatures(),
{
    let mut list: Vec<Vec<char>> = Vec::new();
    list.push(chars_of("zoom"));
    list.push(chars_of("teams"));
    list.push(chars_of("wemeetapp"));
    list.push(chars_of("dingtalk"));
    list.push(chars_of("feishu"));
    list.push(chars_of("webex"));
    list.push(chars_of("slack"));
    assert(list.deep_view() =~~= meeting_signatures());
    list
}

/// Whether one of `signatures` occurs in `text`. The signatures are tried in
/// order and the first that occurs decides.
pub fn contains_any(text: &Vec<char>, signatures: &Vec<Vec<char>>) -> (found: bool)
    ensures
        found == matches_any(text@, signatures.deep_view()),
{
    let mut k: usize = 0;
    while k < signatures.len()
        invariant
            k <= signatures.len(),
            forall|j: int| 0 <= j < k ==> !is_substring(text@, #[trigger] signatures.deep_view()[j]),
        decreases signatures.len() - k,
    {
        assert(signatures.deep_view()[k as int] == signatures@[k as int]@);
        if contains(text, &signatures[k]) {
            return true;
        }
        k += 1;
    }
    false
}

/// Whether a name that is already in lowercase contains a meeting signature.
pub fn matches_meeting_signature(lowered: &str) -> (found: bool)
    ensures
        found == matches_any(lowered@, meeting_signatures()),
{
    let signatures = signature_list();
    let text = chars_of(lowered);
    contains_any(&text, &signatures)
}

/// Whether a process of this name counts as a meeting application: the name
/// is put in lowercase and searched for the signatures.
pub fn is_meeting_process(name: &str) -> (found: bool)
    ensures
        found == is_meeting_name(name@),
{
    let lowered = name.to_lowercase();
    matches_meeting_signature(lowered.as_str())
}

/// Whether one of `names` is the name of a meeting application. The names are
/// tried in order and the first match decides.
pub fn any_meeting_process(names: &Vec<String>) -> (found: bool)
    ensures
        found == has_meeting_name(names.deep_view().to_multiset()),
{
    let ghost all = names.deep_view();
    let mut i: usize = 0;
    while i < names.len()
        invariant
            i <= names.len(),
            all == names.deep_view(),
            forall|j: int| 0 <= j < i ==> !is_meeting_name(#[trigger] all[j]),
        decreases names.len() - i,
    {
        assert(all[i as int] == names@[i as int]@);
        if is_meeting_process(names[i].as_str()) {
            proof {
                all.to_multiset_ensures();
                assert(all.contains(all[i as int]));
                assert(all.to_multiset().contains(all[i as int]));
            }
            return true;
        }
        i += 1;
    }
    proof {
        all.to_multiset_ensures();
        assert forall|name: Seq<char>| all.to_multiset().contains(name) implies !is_meeting_name(
            name,
        ) by {
            assert(all.contains(name));
            let j = choose|j: int| 0 <= j < all.len() && all[j] == name;
            assert(!is_meeting_name(all[j]));
        }
    }
    false
}

/// A process list is detected as soon as one of its names is, in lowercase,
/// exactly one of the signatures.
pub proof fn lemma_signature_name_is_detected(names: Multiset<Seq<char>>, name: Seq<char>)
    requires
        names.contains(name),
        meeting_signatures().contains(lowercase(name)),
    ensures
        has_meeting_name(names),
{
    let k = choose|k: int|
        0 <= k < meeting_signatures().len() && meeting_signatures()[k] == lowercase(name);
    lemma_substring_of_itself(lowercase(name));
    assert(is_substring(lowercase(name), meeting_signatures()[k]));
    assert(is_meeting_name(name));
}

/// The match is by substring: a text in which a matching text occurs matches
/// too, whatever stands around it.
pub proof fn lemma_match_survives_extension(
    longer: Seq<char>,
    text: Seq<char>,
    signatures: Seq<Seq<char>>,
)
    requires
        matches_any(text, signatures),
        is_substring(longer, text),
    ensures
        matches_any(longer, signatures),
{
    let k = choose|k: int| 0 <= k < signatures.len() && is_substring(text, signatures[k]);
    lemma_substring_of_substring(longer, text, signatures[k]);
}

/// A process list in which no name matches is not detected, and neither is the
/// empty list.
pub proof fn lemma_no_match_is_not_detected(names: Multiset<Seq<char>>)
    requires
        forall|name: Seq<char>| names.contains(name) ==> !is_meeting_name(name),
    ensures
        !has_meeting_name(names),
        !has_meeting_name(Multiset::empty()),
{
}

} // verus!
