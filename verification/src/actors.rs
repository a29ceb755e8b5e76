use vstd::prelude::*;

verus! {

/// An actor whose messages all have one type.
pub trait Actor: Sized {
    type Message;

    /// A builder that starts one instance of this actor.
    fn build(self) -> (b: Builder<Self>)
        ensures
            b.actor == self,
            b.num == 1,
    {
        Builder { actor: self, num: 1 }
    }
}

/// A message and the type of its result.
pub trait Message {
    type Result;
}

/// Maps the result of an actor's message back to the result of one message type.
pub trait MapResult<M>: Sized {
    type Output;

    fn map(msg: M) -> Self::Output;
}

/// A builder that starts `num` copies of one actor instance.
pub struct Builder<A> {
    pub actor: A,
    pub num: usize,
}

impl<A> Builder<A> {
    /// Build multiple actors with the num passed.
    pub fn num(self, num: usize) -> (b: Self)
        requires
            num > 0,
        ensures
            b.actor == self.actor,
            b.num == num,
    {
        Self::check_num(num, 0);
        Builder { actor: self.actor, num }
    }

    /// The number of actors must be larger than `target`.
    fn check_num(num: usize, target: usize)
        requires
            num > target,
    {
    }
}

} // verus!
