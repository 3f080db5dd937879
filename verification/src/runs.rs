//! Sequences gathered from the elements of others.
use vstd::prelude::*;

verus! {

/// What the elements of a sequence bring, put one behind the other.
pub open spec fn gathered<A, B>(s: Seq<A>, brings: spec_fn(A) -> Seq<B>) -> Seq<B>
    decreases s.len(),
{
    if s.len() == 0 {
        Seq::empty()
    } else {
        gathered(s.drop_last(), brings) + brings(s.last())
    }
}

/// Two sequences bring together what the first and then the second brings.
pub proof fn lemma_gathered_concat<A, B>(a: Seq<A>, b: Seq<A>, brings: spec_fn(A) -> Seq<B>)
    ensures
        gathered(a + b, brings) == gathered(a, brings) + gathered(b, brings),
    decreases b.len(),
{
    if b.len() == 0 {
        assert(a + b =~= a);
        assert(gathered(a, brings) + gathered(b, brings) =~= gathered(a, brings));
    } else {
        assert((a + b).drop_last() =~= a + b.drop_last());
        lemma_gathered_concat(a, b.drop_last(), brings);
        assert(gathered(a + b, brings) =~= gathered(a, brings) + gathered(b, brings));
    }
}

/// A sequence of elements that bring nothing brings nothing.
pub proof fn lemma_gathered_nothing<A, B>(s: Seq<A>, brings: spec_fn(A) -> Seq<B>)
    requires
        forall|i: int| 0 <= i < s.len() ==> (#[trigger] brings(s[i])).len() == 0,
    ensures
        gathered(s, brings) == Seq::<B>::empty(),
    decreases s.len(),
{
    if s.len() > 0 {
        let front = s.drop_last();
        assert forall|i: int| 0 <= i < front.len() implies (#[trigger] brings(front[i])).len()
            == 0 by {
            assert(brings(s[i]).len() == 0);
        }
        lemma_gathered_nothing(front, brings);
        assert(brings(s[s.len() - 1]).len() == 0);
        assert(gathered(s, brings) =~= Seq::empty());
    }
}

/// What short sequences bring.
pub proof fn lemma_gathered_few<A, B>(s: Seq<A>, brings: spec_fn(A) -> Seq<B>)
    ensures
        s.len() == 0 ==> gathered(s, brings) == Seq::<B>::empty(),
        s.len() == 1 ==> gathered(s, brings) == brings(s[0]),
        s.len() == 2 ==> gathered(s, brings) == brings(s[0]) + brings(s[1]),
        s.len() == 3 ==> gathered(s, brings) == brings(s[0]) + brings(s[1]) + brings(s[2]),
        s.len() == 4 ==> gathered(s, brings) == brings(s[0]) + brings(s[1]) + brings(s[2])
            + brings(s[3]),
    decreases s.len(),
{
    if 0 < s.len() <= 4 {
        let front = s.drop_last();
        lemma_gathered_few(front, brings);
        assert(s.len() == 1 ==> gathered(s, brings) =~= brings(s[0]));
    }
}

} // verus!
