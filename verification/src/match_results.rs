//! Capture lists on their way across a C boundary: as a thin vector of
//! texts that may be absent on the one side, as a vector of optional
//! strings on the other.

use crate::maybe_string::{MaybeString, MaybeText};
use crate::url_matcher::{text_of, texts_of};
use thin_vec::ThinVec;
use vstd::prelude::*;

verus! {

/// `thin_vec::ThinVec`. What a list of texts holds is named `maybe_texts`.
#[verifier::external_type_specification]
#[verifier::external_body]
#[verifier::reject_recursive_types(T)]
pub struct ExThinVec<T>(thin_vec::ThinVec<T>);

/// What a thin vector of texts holds: for each entry its text and its
/// flag.
pub uninterp spec fn maybe_texts(list: ThinVec<MaybeString>) -> Seq<MaybeText>;

/// The texts of a list that count, nothing for the others.
pub open spec fn optional_texts(list: Seq<MaybeText>) -> Seq<Option<Seq<char>>> {
    Seq::new(list.len(), |i: int| list[i].optional())
}

/// The entries for a list of optional texts: valid with the text, or
/// invalid with an empty text.
pub open spec fn entries_of(texts: Seq<Option<Seq<char>>>) -> Seq<MaybeText> {
    Seq::new(texts.len(), |i: int| MaybeText::of(texts[i]))
}

/// Calls `ThinVec::len`: the number of entries.
#[verifier::external_body]
pub(crate) fn list_len(list: &ThinVec<MaybeString>) -> (len: usize)
    ensures
        len == maybe_texts(*list).len(),
{
    list.len()
}

/// Indexes a `ThinVec`, which dereferences to a slice: entry `index`.
#[verifier::external_body]
pub(crate) fn list_entry(list: &ThinVec<MaybeString>, index: usize) -> (entry: &MaybeString)
    requires
        index < maybe_texts(*list).len(),
    ensures
        entry@ == maybe_texts(*list)[index as int],
{
    &list[index]
}

/// Calls `ThinVec::push`: the entry is appended. As with `Vec`, running
/// out of memory is not considered.
#[verifier::external_body]
pub(crate) fn list_push(list: &mut ThinVec<MaybeString>, entry: MaybeString)
    ensures
        maybe_texts(*final(list)) == maybe_texts(*old(list)).push(entry@),
{
    list.push(entry)
}

/// The captures of a regular expression match as reported by its
/// evaluator: nothing if the evaluation failed or the expression did not
/// match, else the texts of `results` in order, absent where a group took
/// no part in the match.
pub fn collect_regexp_matches(
    success: bool,
    match_result: bool,
    results: &ThinVec<MaybeString>,
) -> (captures: Option<Vec<Option<String>>>)
    ensures
        captures.is_some() == (success && match_result),
        captures.is_some() ==> texts_of(captures.unwrap()@) == optional_texts(
            maybe_texts(*results),
        ),
{
    if !success {
        return None;
    }
    if !match_result {
        return None;
    }
    let mut rust_results: Vec<Option<String>> = Vec::new();
    let len = list_len(results);
    let mut i: usize = 0;
    while i < len
        invariant
            i <= len,
            len == maybe_texts(*results).len(),
            rust_results@.len() == i,
            forall|k: int|
                0 <= k < i ==> text_of(rust_results@[k]) == maybe_texts(*results)[k].optional(),
        decreases len - i,
    {
        let maybe_str = list_entry(results, i);
        if maybe_str.valid {
            rust_results.push(Some(maybe_str.string.clone()));
        } else {
            rust_results.push(None);
        }
        i += 1;
    }
    assert(texts_of(rust_results@) =~= optional_texts(maybe_texts(*results)));
    Some(rust_results)
}

/// Hands the captures of a component match across the boundary: appends
/// them to `res`, an absent capture as an invalid entry with an empty
/// text, and says whether there was a match at all.
pub fn write_component_matches(matches: &Option<Vec<Option<String>>>, res: &mut ThinVec<MaybeString>) -> (matched:
    bool)
    ensures
        matched == matches.is_some(),
        matches.is_some() ==> maybe_texts(*final(res)) == maybe_texts(*old(res)) + entries_of(
            texts_of(matches.unwrap()@),
        ),
        matches.is_none() ==> maybe_texts(*final(res)) == maybe_texts(*old(res)),
{
    match matches {
        Some(inner_vec) => {
            let ghost before = maybe_texts(*res);
            let ghost all = entries_of(texts_of(inner_vec@));
            let mut i: usize = 0;
            while i < inner_vec.len()
                invariant
                    i <= inner_vec.len(),
                    all == entries_of(texts_of(inner_vec@)),
                    maybe_texts(*res) == before + all.take(i as int),
                decreases inner_vec.len() - i,
            {
                let entry = match &inner_vec[i] {
                    Some(s) => MaybeString { string: s.clone(), valid: true },
                    None => MaybeString { string: String::new(), valid: false },
                };
                list_push(res, entry);
                assert(before + all.take(i as int + 1) =~= (before + all.take(i as int)).push(
                    all[i as int],
                ));
                i += 1;
            }
            assert(all.take(all.len() as int) =~= all);
            true
        },
        None => false,
    }
}

} // verus!
