use vstd::prelude::*;
use std::marker::PhantomData;

verus! {

/// A single-use carrier of one typed payload.
pub struct ComponentMsg<T>(pub T);

/// A total, deterministic re-labelling of payloads from one message type to another.
///
/// A parent that embeds a child hands one of these to the composition adapters; the
/// same value is later applied to whatever the child's pending commands deliver.
pub trait Mapper<T, M> {
    /// The function this mapper computes.
    spec fn apply_spec(&self, value: T) -> M;

    fn apply(&self, value: T) -> (out: M)
        ensures
            out == self.apply_spec(value),
    ;
}

/// The mapper that applies `first` and then `second`.
pub struct Compose<B, F, G> {
    pub first: F,
    pub second: G,
    pub between: PhantomData<B>,
}

impl<A, B, C, F: Mapper<A, B>, G: Mapper<B, C>> Mapper<A, C> for Compose<B, F, G> {
    open spec fn apply_spec(&self, value: A) -> C {
        self.second.apply_spec(self.first.apply_spec(value))
    }

    fn apply(&self, value: A) -> (out: C) {
        self.second.apply(self.first.apply(value))
    }
}

/// `compose(second, first)` applies `first`, then `second`.
pub fn compose<A, B, C, F: Mapper<A, B>, G: Mapper<B, C>>(second: G, first: F) -> (out: Compose<
    B,
    F,
    G,
>)
    ensures
        out.first == first,
        out.second == second,
{
    Compose { first, second, between: PhantomData }
}

impl<T> ComponentMsg<T> {
    /// The payload carried by this envelope.
    pub open spec fn payload(self) -> T {
        self.0
    }

    /// Wraps a payload.
    pub fn wrap(value: T) -> (out: Self)
        ensures
            out == ComponentMsg(value),
    {
        ComponentMsg(value)
    }

    /// Consumes the envelope and hands out its payload.
    pub fn take(self) -> (out: T)
        ensures
            out == self.payload(),
    {
        self.0
    }

    /// Re-labels the payload with `mapper`.
    pub fn map<M, F: Mapper<T, M>>(self, mapper: &F) -> (out: ComponentMsg<M>)
        ensures
            out == map_msg(self, mapper),
    {
        ComponentMsg(mapper.apply(self.0))
    }
}

/// What `ComponentMsg::map` returns.
pub open spec fn map_msg<T, M, F: Mapper<T, M>>(msg: ComponentMsg<T>, mapper: &F) -> ComponentMsg<M> {
    ComponentMsg(mapper.apply_spec(msg.0))
}

/// Element-wise re-labelling of a sequence of envelopes.
pub open spec fn map_msgs<T, M, F: Mapper<T, M>>(msgs: Seq<ComponentMsg<T>>, mapper: &F) -> Seq<
    ComponentMsg<M>,
> {
    Seq::new(msgs.len(), |i: int| map_msg(msgs[i], mapper))
}

/// Re-labels every envelope of `msgs`, keeping their order.
pub fn map_all<T, M, F: Mapper<T, M>>(msgs: Vec<ComponentMsg<T>>, mapper: &F) -> (out: Vec<
    ComponentMsg<M>,
>)
    ensures
        out@ == map_msgs(msgs@, mapper),
{
    let ghost before = msgs@;
    let mut rest = msgs;
    let mut out: Vec<ComponentMsg<M>> = Vec::new();
    // Taken from the back, then put back in order.
    let mut reversed: Vec<ComponentMsg<M>> = Vec::new();
    while rest.len() > 0
        invariant
            rest@.len() + reversed@.len() == before.len(),
            rest@ == before.subrange(0, rest@.len() as int),
            forall|k: int|
                0 <= k < reversed@.len() ==> reversed@[k] == map_msg(
                    before[before.len() - 1 - k],
                    mapper,
                ),
        decreases rest.len(),
    {
        let msg = rest.pop().unwrap();
        reversed.push(msg.map(mapper));
    }
    while reversed.len() > 0
        invariant
            reversed@.len() + out@.len() == before.len(),
            forall|k: int|
                0 <= k < reversed@.len() ==> reversed@[k] == map_msg(
                    before[before.len() - 1 - k],
                    mapper,
                ),
            forall|k: int| 0 <= k < out@.len() ==> out@[k] == map_msg(before[k], mapper),
        decreases reversed.len(),
    {
        let msg = reversed.pop().unwrap();
        out.push(msg);
    }
    assert(out@ =~= map_msgs(before, mapper));
    out
}

} // verus!
