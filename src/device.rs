use vstd::prelude::*;

verus! {

/// The lower-case form of a string, as std's `str::to_lowercase` gives it.
pub uninterp spec fn lower_of(s: Seq<char>) -> Seq<char>;

/// `needle` occurs somewhere in `hay` as a contiguous run.
pub open spec fn is_substring(hay: Seq<char>, needle: Seq<char>) -> bool {
    exists|i: int|
        0 <= i && i + needle.len() <= hay.len() && #[trigger] hay.subrange(i, i + needle.len())
            == needle
}

/// A device name matches a filter when the filter occurs in it, ignoring case.
pub open spec fn name_matches(name: Seq<char>, filter: Seq<char>) -> bool {
    is_substring(lower_of(name), lower_of(filter))
}

/// The index of the first name that contains `needle`, if any.
pub open spec fn is_first_match(names: Seq<Seq<char>>, needle: Seq<char>, r: Option<usize>) -> bool {
    match r {
        Some(i) => {
            &&& i < names.len()
            &&& is_substring(names[i as int], needle)
            &&& forall|j: int| 0 <= j < i ==> !is_substring(#[trigger] names[j], needle)
        },
        None => forall|j: int| 0 <= j < names.len() ==> !is_substring(#[trigger] names[j], needle),
    }
}

/// The character sequences of a list of names.
pub open spec fn name_seqs(names: Seq<String>) -> Seq<Seq<char>> {
    names.map_values(|n: String| n@)
}

/// Relies on std's `str::to_lowercase`: the result depends on the characters alone.
#[verifier::external_body]
fn to_lower(s: &str) -> (r: String)
    ensures
        r@ == lower_of(s@),
{
    s.to_lowercase()
}

/// Relies on std's `str::contains` with a `&str` pattern: true exactly when
/// the pattern matches a sub-slice of the string.
#[verifier::external_body]
fn contains_str(hay: &str, needle: &str) -> (r: bool)
    ensures
        r == is_substring(hay@, needle@),
{
    hay.contains(needle)
}

/// Whether `name` contains `filter`, ignoring case.
pub fn matches_filter(name: &str, filter: &str) -> (r: bool)
    ensures
        r == name_matches(name@, filter@),
{
    let n = to_lower(name);
    let f = to_lower(filter);
    contains_str(n.as_str(), f.as_str())
}

/// The index of the first of `names` that contains `needle`, comparing
/// characters exactly. Callers fold case beforehand.
pub fn first_containing(names: &Vec<String>, needle: &str) -> (r: Option<usize>)
    ensures
        is_first_match(name_seqs(names@), needle@, r),
{
    let mut i: usize = 0;
    while i < names.len()
        invariant
            0 <= i <= names@.len(),
            forall|j: int| 0 <= j < i ==> !is_substring(#[trigger] name_seqs(names@)[j], needle@),
        decreases names@.len() - i,
    {
        if contains_str(names[i].as_str(), needle) {
            return Some(i);
        }
        i = i + 1;
    }
    None
}

/// The index of the first of `names` that contains `filter`, ignoring case.
pub fn find_device(names: &Vec<String>, filter: &str) -> (r: Option<usize>)
    ensures
        is_first_match(name_seqs(names@).map_values(|n: Seq<char>| lower_of(n)), lower_of(filter@), r),
{
    let mut lowered: Vec<String> = Vec::new();
    let mut i: usize = 0;
    while i < names.len()
        invariant
            0 <= i <= names@.len(),
            lowered@.len() == i,
            forall|j: int| 0 <= j < i ==> (#[trigger] lowered@[j])@ == lower_of(names@[j]@),
        decreases names@.len() - i,
    {
        lowered.push(to_lower(names[i].as_str()));
        i = i + 1;
    }
    let f = to_lower(filter);
    let r = first_containing(&lowered, f.as_str());
    assert(name_seqs(lowered@) =~= name_seqs(names@).map_values(|n: Seq<char>| lower_of(n)));
    r
}

} // verus!
