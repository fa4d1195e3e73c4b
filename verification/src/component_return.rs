use vstd::prelude::*;
use std::marker::PhantomData;
use std::sync::Arc;
use crate::action::Action;
use crate::command::Command;
use crate::command::CommandModel;
use crate::command::Completion;
use crate::command::Relabel;
use crate::command::map_command;
use crate::envelope::Compose;
use crate::envelope::ComponentMsg;
use crate::envelope::Mapper;
use crate::envelope::map_all;
use crate::envelope::map_msg;
use crate::envelope::map_msgs;

verus! {

/// What one call of `init` or `update` hands back: follow-up messages to process in
/// the same tick, commands to run in the background, and actions for the root.
pub struct ComponentReturn<T, K> {
    pub msgs: Vec<ComponentMsg<T>>,
    pub cmds: Vec<Command<K>>,
    pub actions: Vec<Action>,
}

/// What a return stands for.
#[verifier::reject_recursive_types(T)]
pub struct ReturnModel<T> {
    pub msgs: Seq<ComponentMsg<T>>,
    pub cmds: Seq<CommandModel<T>>,
    pub actions: Seq<Action>,
}

/// The models of a list of commands, in order.
pub open spec fn command_models<T, K: Completion<T>>(cmds: Seq<Command<K>>) -> Seq<CommandModel<T>> {
    Seq::new(cmds.len(), |i: int| cmds[i].model::<T>())
}

/// The models of a list of commands after each is re-labelled.
pub open spec fn map_commands<T, M, F: Mapper<T, M>>(
    cmds: Seq<CommandModel<T>>,
    mapper: &F,
) -> Seq<CommandModel<M>> {
    Seq::new(cmds.len(), |i: int| map_command(cmds[i], mapper))
}

/// A return with every message it holds, and every message its commands will
/// deliver, re-labelled by `mapper`. Actions pass through untouched.
pub open spec fn map_return<T, M, F: Mapper<T, M>>(ret: ReturnModel<T>, mapper: &F) -> ReturnModel<M> {
    ReturnModel {
        msgs: map_msgs(ret.msgs, mapper),
        cmds: map_commands(ret.cmds, mapper),
        actions: ret.actions,
    }
}

impl<T, K: Completion<T>> View for ComponentReturn<T, K> {
    type V = ReturnModel<T>;

    open spec fn view(&self) -> ReturnModel<T> {
        ReturnModel {
            msgs: self.msgs@,
            cmds: command_models::<T, K>(self.cmds@),
            actions: self.actions@,
        }
    }
}

/// The return that holds nothing.
pub open spec fn empty_return<T>() -> ReturnModel<T> {
    ReturnModel { msgs: Seq::empty(), cmds: Seq::empty(), actions: Seq::empty() }
}

impl<T, K: Completion<T>> ComponentReturn<T, K> {
    /// Nothing to do.
    pub fn empty() -> (out: Self)
        ensures
            out@ == empty_return::<T>(),
    {
        let out = ComponentReturn { msgs: Vec::new(), cmds: Vec::new(), actions: Vec::new() };
        assert(out@.cmds =~= Seq::empty());
        out
    }

    /// One command to run in the background.
    pub fn cmd(cmd: Command<K>) -> (out: Self)
        ensures
            out@ == (ReturnModel::<T> {
                msgs: Seq::empty(),
                cmds: seq![cmd.model::<T>()],
                actions: Seq::empty(),
            }),
            out.cmds@ == seq![cmd],
    {
        let mut cmds: Vec<Command<K>> = Vec::new();
        cmds.push(cmd);
        let out = ComponentReturn { msgs: Vec::new(), cmds, actions: Vec::new() };
        assert(out@.cmds =~= seq![cmd.model::<T>()]);
        out
    }

    /// One action for the root.
    pub fn action(action: Action) -> (out: Self)
        ensures
            out@ == (ReturnModel::<T> {
                msgs: Seq::empty(),
                cmds: Seq::empty(),
                actions: seq![action],
            }),
    {
        let mut actions: Vec<Action> = Vec::new();
        actions.push(action);
        let out = ComponentReturn { msgs: Vec::new(), cmds: Vec::new(), actions };
        assert(out@.cmds =~= Seq::empty());
        out
    }

    /// One follow-up message.
    pub fn message(msg: ComponentMsg<T>) -> (out: Self)
        ensures
            out@ == (ReturnModel::<T> {
                msgs: seq![msg],
                cmds: Seq::empty(),
                actions: Seq::empty(),
            }),
    {
        let mut msgs: Vec<ComponentMsg<T>> = Vec::new();
        msgs.push(msg);
        let out = ComponentReturn { msgs, cmds: Vec::new(), actions: Vec::new() };
        assert(out@.cmds =~= Seq::empty());
        out
    }

    /// Re-labels every message now, and installs `mapper`, shared, as the mapper of
    /// whatever the pending commands will deliver.
    pub fn map<M, F: Mapper<T, M>>(self, mapper: F) -> (out: ComponentReturn<M, Relabel<T, K, F>>)
        ensures
            out@ == map_return(self@, &mapper),
    {
        let ghost before = self@;
        let ComponentReturn { msgs, cmds, actions } = self;
        let ghost old_cmds = cmds@;
        let msgs = map_all(msgs, &mapper);
        let shared = Arc::new(mapper);
        let mut rest = cmds;
        let mut reversed: Vec<Command<Relabel<T, K, F>>> = Vec::new();
        while rest.len() > 0
            invariant
                *shared == mapper,
                rest@.len() + reversed@.len() == old_cmds.len(),
                rest@ == old_cmds.subrange(0, rest@.len() as int),
                forall|k: int|
                    0 <= k < reversed@.len() ==> (#[trigger] reversed@[k]).model::<M>()
                        == map_command(old_cmds[old_cmds.len() - 1 - k].model::<T>(), &mapper),
            decreases rest.len(),
        {
            let cmd = rest.pop().unwrap();
            reversed.push(cmd.relabel(&shared));
        }
        let mut mapped: Vec<Command<Relabel<T, K, F>>> = Vec::new();
        while reversed.len() > 0
            invariant
                reversed@.len() + mapped@.len() == old_cmds.len(),
                forall|k: int|
                    0 <= k < reversed@.len() ==> (#[trigger] reversed@[k]).model::<M>()
                        == map_command(old_cmds[old_cmds.len() - 1 - k].model::<T>(), &mapper),
                forall|k: int|
                    0 <= k < mapped@.len() ==> (#[trigger] mapped@[k]).model::<M>() == map_command(
                        old_cmds[k].model::<T>(),
                        &mapper,
                    ),
            decreases reversed.len(),
        {
            let cmd = reversed.pop().unwrap();
            mapped.push(cmd);
        }
        let out = ComponentReturn { msgs, cmds: mapped, actions };
        assert(out@.cmds =~= map_return(before, &mapper).cmds);
        out
    }
}

/// Whether `lift` changes how a completion is held, and nothing of what it delivers.
pub open spec fn keeps_messages<T, K: Completion<T>, K2: Completion<T>, L: Mapper<K, K2>>(
    lift: &L,
) -> bool {
    forall|k: K, o: crate::command::Outcome|
        #![trigger lift.apply_spec(k).messages_spec(o)]
        lift.apply_spec(k).messages_spec(o) == k.messages_spec(o)
}

impl<T, K: Completion<T>> ComponentReturn<T, K> {
    /// The same return, with each pending completion held the way `lift` holds it.
    pub fn with_pending<K2: Completion<T>, L: Mapper<K, K2>>(self, lift: &L) -> (out:
        ComponentReturn<T, K2>)
        requires
            keeps_messages::<T, K, K2, L>(lift),
        ensures
            out@ == self@,
    {
        let ghost before = self@;
        let ComponentReturn { msgs, cmds, actions } = self;
        let ghost old_cmds = cmds@;
        let mut rest = cmds;
        let mut lifted: Vec<Command<K2>> = Vec::new();
        while rest.len() > 0
            invariant
                keeps_messages::<T, K, K2, L>(lift),
                lifted@.len() + rest@.len() == old_cmds.len(),
                rest@ == old_cmds.skip(lifted@.len() as int),
                forall|k: int|
                    0 <= k < lifted@.len() ==> (#[trigger] lifted@[k]).model::<T>()
                        == old_cmds[k].model::<T>(),
            decreases rest.len(),
        {
            let ghost done = lifted@.len() as int;
            let Command { work, on_done } = rest.remove(0);
            let ghost held = on_done;
            let next = Command { work, on_done: lift.apply(on_done) };
            assert(next.model::<T>().on_done =~= old_cmds[done].model::<T>().on_done) by {
                assert forall|o: crate::command::Outcome| #[trigger]
                    (next.model::<T>().on_done)(o) == (old_cmds[done].model::<T>().on_done)(o) by {
                    assert(lift.apply_spec(held).messages_spec(o) == held.messages_spec(o));
                }
            }
            lifted.push(next);
            assert(rest@ =~= old_cmds.skip(lifted@.len() as int));
        }
        let out = ComponentReturn { msgs, cmds: lifted, actions };
        assert(out@.cmds =~= before.cmds);
        out
    }
}

/// Re-labelling an envelope twice is re-labelling it once with the composed mapper.
pub proof fn lemma_map_msg_composition<A, B, C, F: Mapper<A, B>, G: Mapper<B, C>>(
    msg: ComponentMsg<A>,
    f: F,
    g: G,
)
    ensures
        map_msg(map_msg(msg, &f), &g) == map_msg(
            msg,
            &(Compose { first: f, second: g, between: PhantomData::<B> }),
        ),
{
}

/// Re-labelling a return twice is re-labelling it once with the composed mapper:
/// the messages it holds, the messages each of its commands will deliver for any
/// outcome, and its actions are all the same either way.
pub proof fn lemma_map_return_composition<A, B, C, F: Mapper<A, B>, G: Mapper<B, C>>(
    ret: ReturnModel<A>,
    f: F,
    g: G,
)
    ensures
        map_return(map_return(ret, &f), &g) == map_return(
            ret,
            &(Compose { first: f, second: g, between: PhantomData::<B> }),
        ),
{
    let h = Compose { first: f, second: g, between: PhantomData::<B> };
    let twice = map_return(map_return(ret, &f), &g);
    let once = map_return(ret, &h);
    assert(twice.msgs =~= once.msgs);
    assert forall|i: int| 0 <= i < ret.cmds.len() implies #[trigger] twice.cmds[i] == once.cmds[i] by {
        let a = twice.cmds[i].on_done;
        let b = once.cmds[i].on_done;
        assert forall|o: crate::command::Outcome| #[trigger] a(o) == b(o) by {
            assert(a(o) =~= b(o));
        }
        assert(a =~= b);
    }
    assert(twice.cmds =~= once.cmds);
}

/// Re-labelling never absorbs an action: the actions of a return reach the parent as
/// they are, in their order, whatever the mapper.
pub proof fn lemma_map_keeps_actions<A, B, F: Mapper<A, B>>(ret: ReturnModel<A>, f: F)
    ensures
        map_return(ret, &f).actions == ret.actions,
        map_return(ret, &f).msgs.len() == ret.msgs.len(),
        map_return(ret, &f).cmds.len() == ret.cmds.len(),
        forall|i: int|
            0 <= i < ret.cmds.len() ==> (#[trigger] map_return(ret, &f).cmds[i]).work
                == ret.cmds[i].work,
{
}

} // verus!
