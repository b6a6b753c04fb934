use vstd::prelude::*;
use crate::consumer::Consumer;

verus! {

/// One round of fan-out: `after` has the consumers of `before`, in the same order, and each
/// consumer has taken in exactly one more value, a clone of `product`.
pub open spec fn is_fan_out<T: Clone>(before: Seq<Seq<T>>, after: Seq<Seq<T>>, product: T) -> bool {
    &&& after.len() == before.len()
    &&& forall|i: int| 0 <= i < before.len() ==> {
        &&& (#[trigger] after[i]) == before[i].push(after[i].last())
        &&& cloned(product, after[i].last())
    }
}

/// Products reach each consumer in the order they were produced: after two rounds of
/// fan-out, first of `a` and then of `b`, each consumer has taken in, after what it had
/// before, a clone of `a` and then a clone of `b`.
pub proof fn law_products_arrive_in_order<T: Clone>(
    start: Seq<Seq<T>>,
    middle: Seq<Seq<T>>,
    end: Seq<Seq<T>>,
    a: T,
    b: T,
)
    requires
        is_fan_out(start, middle, a),
        is_fan_out(middle, end, b),
    ensures
        end.len() == start.len(),
        forall|i: int| 0 <= i < start.len() ==> {
            &&& #[trigger] end[i] == start[i] + seq![middle[i].last(), end[i].last()]
            &&& cloned(a, middle[i].last())
            &&& cloned(b, end[i].last())
        },
{
    assert forall|i: int| 0 <= i < start.len() implies {
        &&& #[trigger] end[i] == start[i] + seq![middle[i].last(), end[i].last()]
        &&& cloned(a, middle[i].last())
        &&& cloned(b, end[i].last())
    } by {
        assert(middle[i] == start[i].push(middle[i].last()));
        assert(end[i] == middle[i].push(end[i].last()));
        assert(end[i] =~= start[i] + seq![middle[i].last(), end[i].last()]);
    }
}

/// The positions `0..count` in increasing order: every consumer once, first-added first.
pub open spec fn in_order(count: nat) -> Seq<nat> {
    Seq::new(count, |k: int| k as nat)
}

/// One round of serving in order calls each of the `count` consumers exactly once, and a
/// consumer added earlier is called before every consumer added after it.
pub proof fn law_round_serves_first_added_first(count: nat)
    ensures
        in_order(count).len() == count,
        forall|c: nat| c < count ==> #[trigger] in_order(count).contains(c),
        forall|i: int, j: int|
            0 <= i < j < count ==> #[trigger] in_order(count)[i] < #[trigger] in_order(count)[j],
        forall|i: int| 0 <= i < count ==> #[trigger] in_order(count)[i] == i,
{
    assert forall|c: nat| c < count implies #[trigger] in_order(count).contains(c) by {
        assert(in_order(count)[c as int] == c);
    }
}

/// What each of a list of consumers has taken in, in the list's order.
pub open spec fn histories<T, C: Consumer<T> + ?Sized>(consumers: Seq<Box<C>>) -> Seq<Seq<T>> {
    Seq::new(consumers.len(), |i: int| consumers[i].consumed())
}

/// Adding a consumer at the end adds its history at the end.
proof fn lemma_histories_push<T, C: Consumer<T> + ?Sized>(consumers: Seq<Box<C>>, added: Box<C>)
    ensures
        histories(consumers.push(added)) == histories(consumers).push(added.consumed()),
{
    assert(histories(consumers.push(added)) =~= histories(consumers).push(added.consumed()));
}

/// Hands every value it is given on to each of its consumers, in the order the consumers
/// were added. Each consumer gets its own clone.
///
/// The consumers are boxed values of `C`, by default any type that consumes `T`.
#[verifier::reject_recursive_types(T)]
#[verifier::reject_recursive_types(C)]
pub struct Producer<T: Clone, C: Consumer<T> + ?Sized = dyn Consumer<T>> {
    consumers: Vec<Box<C>>,
    /// The position of each consumer that was handed a value, in the order of the calls.
    served: Ghost<Seq<nat>>,
    product: std::marker::PhantomData<T>,
}

impl<T: Clone, C: Consumer<T> + ?Sized> Producer<T, C> {
    /// The consumers, first-added first.
    pub closed spec fn consumers(self) -> Seq<Box<C>> {
        self.consumers@
    }

    /// The positions of the consumers that were handed a value, in the order the values
    /// were handed over.
    pub closed spec fn served(self) -> Seq<nat> {
        self.served@
    }

    /// What each consumer has taken in so far, first-added consumer first.
    pub open spec fn consumed(self) -> Seq<Seq<T>> {
        histories(self.consumers())
    }

    /// A producer with no consumers.
    pub fn new() -> (p: Self)
        ensures
            p.consumers() == Seq::<Box<C>>::empty(),
            p.served() == Seq::<nat>::empty(),
    {
        Producer { consumers: Vec::new(), served: Ghost(Seq::empty()), product: std::marker::PhantomData }
    }

    /// Hands a clone of `product` to every consumer, first-added first: each consumer
    /// takes in exactly one more value, and it is a clone of `product`.
    pub fn produce(&mut self, product: T)
        ensures
            final(self).consumers().len() == old(self).consumers().len(),
            is_fan_out(old(self).consumed(), final(self).consumed(), product),
            final(self).served() == old(self).served() + in_order(old(self).consumers().len()),
    {
        let ghost start = self.consumers@;
        let ghost served_before = self.served@;
        let n = self.consumers.len();
        let mut i: usize = 0;
        while i < n
            invariant
                n == start.len(),
                n == self.consumers@.len(),
                start == old(self).consumers@,
                i <= n,
                forall|j: int| 0 <= j < i ==> {
                    &&& (#[trigger] self.consumers@[j]).consumed() == start[j].consumed().push(
                        self.consumers@[j].consumed().last(),
                    )
                    &&& cloned(product, self.consumers@[j].consumed().last())
                },
                forall|j: int| i <= j < n ==> #[trigger] self.consumers@[j] == start[j],
                served_before == old(self).served@,
                self.served@ == served_before + in_order(i as nat),
            decreases n - i,
        {
            let copy = product.clone();
            let ghost handed = copy;
            let ghost before = self.consumers@;
            self.consumers[i].consume(copy);
            proof {
                self.served@ = self.served@.push(i as nat);
                assert(in_order((i + 1) as nat) =~= in_order(i as nat).push(i as nat));
                assert(self.served@ =~= served_before + in_order((i + 1) as nat));
                let c = self.consumers@[i as int];
                assert(c.consumed() == before[i as int].consumed().push(handed));
                assert(c.consumed().last() == handed);
            }
            i = i + 1;
        }
        proof {
            let after = self.consumers@;
            assert forall|j: int| 0 <= j < n implies {
                &&& (#[trigger] histories(after)[j]) == histories(start)[j].push(histories(after)[j].last())
                &&& cloned(product, histories(after)[j].last())
            } by {
                assert(histories(after)[j] == after[j].consumed());
                assert(histories(start)[j] == start[j].consumed());
            }
        }
    }

    /// Adds a consumer after those already there; from now on it gets every value produced.
    pub fn add_consumer(&mut self, consumer: Box<C>)
        ensures
            final(self).consumers() == old(self).consumers().push(consumer),
            final(self).consumed() == old(self).consumed().push(consumer.consumed()),
            final(self).served() == old(self).served(),
    {
        let ghost before = self.consumers@;
        self.consumers.push(consumer);
        proof {
            lemma_histories_push(before, consumer);
        }
    }
}

} // verus!
