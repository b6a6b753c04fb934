use vstd::prelude::*;

verus! {

/// What a consumer has taken in, oldest first. It exists for the proofs only: compiled code
/// never builds or reads one.
pub type History<T> = Seq<T>;

/// A stage of the pipeline that takes in the values an upstream stage hands out.
pub trait Consumer<T> {
    /// Every value this consumer has taken in, oldest first.
    spec fn consumed(&self) -> History<T>;

    /// Takes in one value; it joins the end of what the consumer has taken in.
    fn consume(&mut self, to_consume: T)
        ensures
            final(self).consumed() == old(self).consumed().push(to_consume),
    ;
}

} // verus!
