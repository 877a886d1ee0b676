use vstd::prelude::*;

verus! {

/// The prefix of length `i + 1` is the prefix of length `i` followed by the
/// element at `i`.
pub proof fn lemma_take_step<T>(s: Seq<T>, i: int)
    requires
        0 <= i < s.len(),
    ensures
        s.take(i + 1).len() == i + 1,
        s.take(i + 1).drop_last() == s.take(i),
        s.take(i + 1).last() == s[i],
{
    assert(s.take(i + 1).drop_last() =~= s.take(i));
}

/// The prefix of full length is the sequence itself.
pub proof fn lemma_take_all<T>(s: Seq<T>)
    ensures
        s.take(s.len() as int) == s,
{
    assert(s.take(s.len() as int) =~= s);
}

/// The index of the first element of `s` that meets `pred`.
pub open spec fn first_index<T>(s: Seq<T>, pred: spec_fn(T) -> bool) -> Option<int>
    decreases s.len(),
{
    if s.len() == 0 {
        None
    } else {
        match first_index(s.drop_last(), pred) {
            Some(i) => Some(i),
            None => if pred(s.last()) {
                Some(s.len() - 1)
            } else {
                None
            },
        }
    }
}

/// What `first_index` finds meets `pred`, and nothing before it does; where
/// it finds nothing, nothing meets `pred`.
pub proof fn lemma_first_index<T>(s: Seq<T>, pred: spec_fn(T) -> bool)
    ensures
        match first_index(s, pred) {
            Some(i) => 0 <= i < s.len() && pred(s[i]) && forall|j: int|
                0 <= j < i ==> !pred(#[trigger] s[j]),
            None => forall|j: int| 0 <= j < s.len() ==> !pred(#[trigger] s[j]),
        },
    decreases s.len(),
{
    if s.len() > 0 {
        let rest = s.drop_last();
        lemma_first_index(rest, pred);
        match first_index(rest, pred) {
            Some(i) => {
                assert(s[i] == rest[i]);
                assert forall|j: int| 0 <= j < i implies !pred(#[trigger] s[j]) by {
                    assert(s[j] == rest[j]);
                }
            },
            None => {
                assert forall|j: int| 0 <= j < s.len() - 1 implies !pred(#[trigger] s[j]) by {
                    assert(s[j] == rest[j]);
                }
            },
        }
    }
}

/// An element that meets `pred`, with nothing before it that does, is what
/// `first_index` finds.
pub proof fn lemma_first_index_at<T>(s: Seq<T>, pred: spec_fn(T) -> bool, i: int)
    requires
        0 <= i < s.len(),
        pred(s[i]),
        forall|j: int| 0 <= j < i ==> !pred(#[trigger] s[j]),
    ensures
        first_index(s, pred) == Some(i),
{
    lemma_first_index(s, pred);
}

/// Where nothing meets `pred`, `first_index` finds nothing.
pub proof fn lemma_first_index_none<T>(s: Seq<T>, pred: spec_fn(T) -> bool)
    requires
        forall|j: int| 0 <= j < s.len() ==> !pred(#[trigger] s[j]),
    ensures
        first_index(s, pred) is None,
{
    lemma_first_index(s, pred);
}

} // verus!
