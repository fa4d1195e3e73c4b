use vstd::prelude::*;
use std::marker::PhantomData;
use std::sync::Arc;
use crate::connector::Connector;
use crate::envelope::ComponentMsg;
use crate::envelope::Mapper;
use crate::envelope::map_all;
use crate::envelope::map_msgs;
use crate::query::Query;
use crate::record::Resource;
use crate::record::ResourceKind;

verus! {

/// The background work that a command asks for.
pub enum Work {
    /// Fetch one page of a collection from a connector.
    Fetch { connector: Connector, kind: ResourceKind, query: Query },
    /// Wait for a number of seconds.
    Sleep { seconds: u64 },
    /// Put a text on the clipboard.
    Copy { text: String },
}

/// How a piece of background work ended.
pub enum Outcome {
    /// The page that a fetch brought.
    Fetched(Vec<Resource>),
    /// Why a fetch failed.
    Failed(String),
    /// The wait is over, or the text is on the clipboard.
    Elapsed,
}

/// How the outcome of a piece of background work becomes messages of type `T`.
pub trait Completion<T> {
    spec fn messages_spec(&self, outcome: Outcome) -> Seq<ComponentMsg<T>>;

    fn messages(&self, outcome: Outcome) -> (out: Vec<ComponentMsg<T>>)
        ensures
            out@ == self.messages_spec(outcome),
    ;
}

/// The completion of work that has nothing to report.
pub struct Silent;

impl<T> Completion<T> for Silent {
    open spec fn messages_spec(&self, outcome: Outcome) -> Seq<ComponentMsg<T>> {
        Seq::empty()
    }

    fn messages(&self, outcome: Outcome) -> (out: Vec<ComponentMsg<T>>) {
        Vec::new()
    }
}

/// A unit of deferred background work: what to do, and what to tell the component
/// that asked for it once it is done.
pub struct Command<K> {
    pub work: Work,
    pub on_done: K,
}

/// What a command stands for: its work, and the messages for each outcome.
#[verifier::reject_recursive_types(T)]
pub struct CommandModel<T> {
    pub work: Work,
    pub on_done: spec_fn(Outcome) -> Seq<ComponentMsg<T>>,
}

/// A completion whose messages are re-labelled by a mapper that it shares with
/// the other commands of the same return.
pub struct Relabel<T, K, F> {
    pub inner: K,
    pub mapper: Arc<F>,
    pub from: PhantomData<T>,
}

impl<T, M, K: Completion<T>, F: Mapper<T, M>> Completion<M> for Relabel<T, K, F> {
    open spec fn messages_spec(&self, outcome: Outcome) -> Seq<ComponentMsg<M>> {
        map_msgs(self.inner.messages_spec(outcome), &*self.mapper)
    }

    fn messages(&self, outcome: Outcome) -> (out: Vec<ComponentMsg<M>>) {
        let inner = self.inner.messages(outcome);
        map_all(inner, &*self.mapper)
    }
}

/// Another handle on a shared value.
///
/// Calls `Arc::clone`, which returns a pointer to the same allocation: what the new
/// handle points to is what the old one points to.
#[verifier::external_body]
pub(crate) fn share<F>(shared: &Arc<F>) -> (out: Arc<F>)
    ensures
        out == *shared,
{
    Arc::clone(shared)
}

impl<K> Command<K> {
    /// What this command stands for, for messages of type `T`.
    pub open spec fn model<T>(self) -> CommandModel<T> where K: Completion<T> {
        CommandModel {
            work: self.work,
            on_done: |outcome: Outcome| self.on_done.messages_spec(outcome),
        }
    }

    /// A command that does `work` and reports as `on_done` says.
    pub fn new(work: Work, on_done: K) -> (out: Command<K>)
        ensures
            out == (Command { work, on_done }),
    {
        Command { work, on_done }
    }

    /// The work to be done.
    pub fn work(&self) -> (out: &Work)
        ensures
            *out == self.work,
    {
        &self.work
    }

    /// The messages that the command delivers when its work has ended with `outcome`.
    pub fn complete<T>(&self, outcome: Outcome) -> (out: Vec<ComponentMsg<T>>) where
        K: Completion<T>,

        ensures
            out@ == (self.model::<T>().on_done)(outcome),
    {
        self.on_done.messages(outcome)
    }

    /// The same work, with every eventual message re-labelled by the shared mapper.
    pub fn relabel<T, M, F: Mapper<T, M>>(self, mapper: &Arc<F>) -> (out: Command<
        Relabel<T, K, F>,
    >) where K: Completion<T>
        ensures
            out.model::<M>() == map_command(self.model::<T>(), &**mapper),
    {
        let out = Command {
            work: self.work,
            on_done: Relabel { inner: self.on_done, mapper: share(mapper), from: PhantomData },
        };
        assert(out.model::<M>().on_done =~= map_command(self.model::<T>(), &**mapper).on_done);
        out
    }
}

/// A command model with the mapper applied to whatever it will deliver.
pub open spec fn map_command<T, M, F: Mapper<T, M>>(
    command: CommandModel<T>,
    mapper: &F,
) -> CommandModel<M> {
    CommandModel {
        work: command.work,
        on_done: |outcome: Outcome| map_msgs((command.on_done)(outcome), mapper),
    }
}

} // verus!
