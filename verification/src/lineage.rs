//! The lineage record: the list, kept on a source file, of every destination
//! cloned from it.

use vstd::prelude::*;

verus! {

/// Name of the extended attribute that holds the lineage record.
pub const LINEAGE_ATTRIBUTE: &'static str = "user.reflink_destinations";

/// The record after `dst` joins `existing`: entries are separated by a comma,
/// and an empty record takes the first entry as it is.
pub open spec fn appended(existing: Seq<char>, dst: Seq<char>) -> Seq<char> {
    if existing.len() == 0 {
        dst
    } else {
        existing + seq![','] + dst
    }
}

/// Appends `dst` to the lineage record `existing`.
///
/// Nothing is pruned and nothing is deduplicated.
pub fn append_destination(existing: &str, dst: &str) -> (value: String)
    ensures
        value@ == appended(existing@, dst@),
{
    let mut value = String::new();
    value.append(existing);
    if !existing.is_empty() {
        proof {
            reveal_strlit(",");
        }
        value.append(",");
        assert(","@ =~= seq![',']);
    }
    value.append(dst);
    assert(value@ =~= appended(existing@, dst@));
    value
}

/// Appending only ever grows the record: what was recorded before is still
/// there, unchanged and in front, and the new destination is at the end.
pub proof fn lemma_append_preserves_history(existing: Seq<char>, dst: Seq<char>)
    ensures
        existing.is_prefix_of(appended(existing, dst)),
        dst.is_suffix_of(appended(existing, dst)),
        existing.len() > 0 ==> appended(existing, dst).len() == existing.len() + 1 + dst.len(),
        existing.len() > 0 ==> appended(existing, dst)[existing.len() as int] == ',',
{
    let grown = appended(existing, dst);
    assert(grown.subrange(0, existing.len() as int) =~= existing);
    assert(grown.subrange(grown.len() - dst.len(), grown.len() as int) =~= dst);
}

/// Two clones from one source whose record starts out empty leave the first
/// destination, a comma and the second destination.
pub proof fn lemma_second_clone_appends(first: Seq<char>, second: Seq<char>)
    requires
        first.len() > 0,
    ensures
        appended(appended(Seq::empty(), first), second) == first + seq![','] + second,
{
}

} // verus!
