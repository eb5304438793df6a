//! Sorting that keeps the order of what ranks the same.
use vstd::prelude::*;

verus! {

/// Values that are ranked by their models.
pub trait Ranked: View + Sized {
    /// Whether the first ranks before the second or the same.
    spec fn ranks(a: Self::V, b: Self::V) -> bool;

    /// Of two values at least one ranks before the other or the same.
    proof fn ranks_total(a: Self::V, b: Self::V)
        ensures
            Self::ranks(a, b) || Self::ranks(b, a),
    ;

    /// Ranking carries over.
    proof fn ranks_transitive(a: Self::V, b: Self::V, c: Self::V)
        requires
            Self::ranks(a, b),
            Self::ranks(b, c),
        ensures
            Self::ranks(a, c),
    ;

    /// Whether this value ranks before the other or the same.
    fn stands_before(&self, other: &Self) -> (r: bool)
        ensures
            r == Self::ranks(self@, other@),
    ;
}

/// The models of values.
pub open spec fn views<T: View>(items: Seq<T>) -> Seq<T::V> {
    Seq::new(items.len(), |i: int| items[i]@)
}

/// Whether `places` says where in `input` each value of `output` comes from: `output` is `input`
/// in the order of the ranks, values of the same rank in the order that they had.
pub open spec fn sorts<T: Ranked>(input: Seq<T::V>, output: Seq<T::V>, places: Seq<int>) -> bool {
    &&& places.len() == input.len()
    &&& output.len() == input.len()
    &&& forall|k: int|
        0 <= k < output.len() ==> 0 <= #[trigger] places[k] < input.len() && output[k]
            == input[places[k]]
    &&& forall|i: int, j: int|
        0 <= i < j < output.len() ==> #[trigger] places[i] != #[trigger] places[j] && T::ranks(
            output[i],
            output[j],
        ) && (T::ranks(output[j], output[i]) ==> places[i] < places[j])
}

/// Whether `output` is `input` in the order of the ranks, values of the same rank in the order
/// that they had.
pub open spec fn stably_sorted<T: Ranked>(input: Seq<T::V>, output: Seq<T::V>) -> bool {
    exists|places: Seq<int>| sorts::<T>(input, output, places)
}

/// One more value, put behind all that rank before it or the same, keeps values sorted.
proof fn lemma_sorts_insert<T: Ranked>(
    input: Seq<T::V>,
    output: Seq<T::V>,
    places: Seq<int>,
    value: T::V,
    at: int,
)
    requires
        sorts::<T>(input, output, places),
        0 <= at <= output.len(),
        at > 0 ==> T::ranks(output[at - 1], value),
        forall|k: int| at <= k < output.len() ==> !T::ranks(#[trigger] output[k], value),
    ensures
        sorts::<T>(
            input.push(value),
            output.insert(at, value),
            places.insert(at, input.len() as int),
        ),
{
    let n = input.len() as int;
    let input2 = input.push(value);
    let output2 = output.insert(at, value);
    let places2 = places.insert(at, n);
    assert forall|k: int| 0 <= k < at implies T::ranks(#[trigger] output[k], value) by {
        if k < at - 1 {
            assert(places[k] != places[at - 1]);
            T::ranks_transitive(output[k], output[at - 1], value);
        }
    }
    assert forall|k: int| 0 <= k < output2.len() implies 0 <= #[trigger] places2[k] < input2.len()
        && output2[k] == input2[places2[k]] by {
        if k < at {
            assert(places2[k] == places[k]);
        } else if k > at {
            assert(places2[k] == places[k - 1]);
        }
    }
    assert forall|i: int, j: int| 0 <= i < j < output2.len() implies #[trigger] places2[i]
        != #[trigger] places2[j] && T::ranks(output2[i], output2[j]) && (T::ranks(
        output2[j],
        output2[i],
    ) ==> places2[i] < places2[j]) by {
        let pi = if i < at {
            i
        } else {
            i - 1
        };
        let pj = if j < at {
            j
        } else {
            j - 1
        };
        if i == at {
            assert(output2[j] == output[pj]);
            assert(places2[j] == places[pj]);
            T::ranks_total(value, output[pj]);
        } else if j == at {
            assert(output2[i] == output[pi]);
            assert(places2[i] == places[pi]);
        } else {
            assert(places2[i] == places[pi]);
            assert(places2[j] == places[pj]);
            assert(output2[i] == output[pi]);
            assert(output2[j] == output[pj]);
        }
    }
}

/// The values in the order of their ranks, those of the same rank in the order that they had.
pub fn sort<T: Ranked>(items: Vec<T>) -> (r: Vec<T>)
    ensures
        stably_sorted::<T>(views(items@), views(r@)),
{
    let ghost input = views(items@);
    let ghost mut places = Seq::<int>::empty();
    let ghost mut taken: int = 0;
    let mut rest = items;
    let mut r: Vec<T> = Vec::new();
    assert(input.take(0) =~= Seq::<T::V>::empty());
    assert(views(r@) =~= Seq::<T::V>::empty());
    assert(input.skip(0) =~= input);
    while rest.len() > 0
        invariant
            0 <= taken <= input.len(),
            views(rest@) == input.skip(taken),
            sorts::<T>(input.take(taken), views(r@), places),
        decreases rest.len(),
    {
        let ghost before = views(r@);
        assert(views(rest@).len() == rest@.len());
        assert(input.skip(taken)[0] == input[taken]);
        let item = rest.remove(0);
        assert(item@ == input[taken]);
        assert(views(rest@) =~= input.skip(taken).skip(1));
        assert(input.skip(taken).skip(1) =~= input.skip(taken + 1));
        let mut at: usize = r.len();
        while at > 0 && !r[at - 1].stands_before(&item)
            invariant
                at <= r.len(),
                before == views(r@),
                forall|k: int|
                    at <= k < before.len() ==> !T::ranks(#[trigger] before[k], item@),
            decreases at,
        {
            assert(before[at - 1] == r@[at - 1]@);
            at = at - 1;
        }
        assert(at > 0 ==> before[at - 1] == r@[at - 1]@);
        proof {
            lemma_sorts_insert::<T>(input.take(taken), before, places, item@, at as int);
            places = places.insert(at as int, taken);
            assert(input.take(taken).push(item@) =~= input.take(taken + 1));
            taken = taken + 1;
        }
        let ghost value = item@;
        r.insert(at, item);
        assert(views(r@) =~= before.insert(at as int, value));
    }
    proof {
        assert(views(rest@).len() == rest@.len());
        assert(input.skip(taken).len() == 0);
        assert(input.take(taken) =~= input);
    }
    r
}

} // verus!
