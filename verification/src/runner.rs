use vstd::prelude::*;
use std::collections::VecDeque;
use crate::action::Action;
use crate::command::Command;
use crate::command::CommandModel;
use crate::component::ActionHandler;
use crate::component::Component;
use crate::component_return::ReturnModel;
use crate::component_return::command_models;
use crate::envelope::ComponentMsg;
use crate::event::ComponentEvent;

verus! {

/// Drives a root component: one tick takes in what the background work delivered
/// and what the terminal reported, and then applies messages until none is left.
///
/// Messages delivered by background work are taken in the order in which they were
/// delivered, ahead of the messages of the tick's input event.
pub struct Runner<C: Component> {
    pub tick_rate_millis: u64,
    pub component: C,
    /// The messages still to be applied in this tick, oldest first.
    pub queue: VecDeque<ComponentMsg<C::Msg>>,
    /// The commands handed back so far that no one has started yet.
    pub spawned: Vec<Command<C::Pending>>,
    pub should_quit: bool,
}

/// What a runner stands for.
#[verifier::reject_recursive_types(C)]
pub struct RunnerModel<C: Component> {
    pub component: C,
    pub queue: Seq<ComponentMsg<C::Msg>>,
    pub spawned: Seq<CommandModel<C::Msg>>,
    pub should_quit: bool,
}

/// Whether one of the actions asks to quit.
pub open spec fn any_quit(actions: Seq<Action>) -> bool {
    exists|i: int| 0 <= i < actions.len() && #[trigger] actions[i] is Quit
}

/// Handing `actions` to the dispatcher one after the other, in order, may take the
/// root from `start` to `end` and gather `msgs` as its answers, in order.
pub open spec fn dispatched<C: ActionHandler>(
    start: C,
    actions: Seq<Action>,
    end: C,
    msgs: Seq<ComponentMsg<C::Msg>>,
) -> bool
    decreases actions.len(),
{
    if actions.len() == 0 {
        end == start && msgs == Seq::<ComponentMsg<C::Msg>>::empty()
    } else {
        exists|mid: C, earlier: Seq<ComponentMsg<C::Msg>>, last: Seq<ComponentMsg<C::Msg>>|
            #![trigger mid.action_spec(actions.last(), end, last), earlier + last]
            dispatched(start, actions.drop_last(), mid, earlier) && mid.action_spec(
                actions.last(),
                end,
                last,
            ) && msgs == earlier + last
    }
}

/// One message applied: the oldest message of the queue went to `update`; its
/// follow-up messages joined the back of the queue, behind everything that was
/// already waiting; its commands joined the commands to start; each of its actions
/// went to the dispatcher, whose answers joined the queue behind the follow-ups; and
/// a quit among the actions stops the run.
pub open spec fn stepped<C: ActionHandler>(pre: RunnerModel<C>, post: RunnerModel<C>) -> bool {
    &&& pre.queue.len() > 0
    &&& exists|mid: C, ret: ReturnModel<C::Msg>, answers: Seq<ComponentMsg<C::Msg>>|
        #![trigger pre.component.update_spec(pre.queue[0].payload(), mid, ret), dispatched(mid, ret.actions, post.component, answers)]
        {
            &&& pre.component.update_spec(pre.queue[0].payload(), mid, ret)
            &&& dispatched(mid, ret.actions, post.component, answers)
            &&& post.queue == pre.queue.drop_first() + ret.msgs + answers
            &&& post.spawned == pre.spawned + ret.cmds
            &&& post.should_quit == (pre.should_quit || any_quit(ret.actions))
        }
}

/// `steps` messages applied one after the other.
pub open spec fn stepped_n<C: ActionHandler>(pre: RunnerModel<C>, steps: nat, post: RunnerModel<C>) -> bool
    decreases steps,
{
    if steps == 0 {
        post == pre
    } else {
        exists|mid: RunnerModel<C>|
            #![trigger stepped(mid, post)]
            stepped_n(pre, (steps - 1) as nat, mid) && stepped(mid, post)
    }
}

impl<C: ActionHandler> View for Runner<C> {
    type V = RunnerModel<C>;

    open spec fn view(&self) -> RunnerModel<C> {
        RunnerModel {
            component: self.component,
            queue: self.queue@,
            spawned: command_models::<C::Msg, C::Pending>(self.spawned@),
            should_quit: self.should_quit,
        }
    }
}

impl<C: ActionHandler> Runner<C> {
    /// A runner at rest: nothing queued, nothing to start, not asked to quit.
    pub fn new(tick_rate_millis: u64, component: C) -> (out: Self)
        ensures
            out.tick_rate_millis == tick_rate_millis,
            out@ == (RunnerModel::<C> {
                component,
                queue: Seq::empty(),
                spawned: Seq::empty(),
                should_quit: false,
            }),
    {
        let out = Runner {
            tick_rate_millis,
            component,
            queue: VecDeque::new(),
            spawned: Vec::new(),
            should_quit: false,
        };
        assert(out@.spawned =~= Seq::empty());
        out
    }

    /// How long the terminal is polled for an event, in milliseconds.
    pub fn tick_rate_millis(&self) -> (out: u64)
        ensures
            out == self.tick_rate_millis,
    {
        self.tick_rate_millis
    }

    /// The root component, for painting.
    pub fn component(&self) -> (out: &C)
        ensures
            *out == self.component,
    {
        &self.component
    }

    /// Whether a quit action has been seen. Once it has, the run is over.
    pub fn should_quit(&self) -> (out: bool)
        ensures
            out == self.should_quit,
    {
        self.should_quit
    }

    /// Whether this tick has messages left to apply.
    pub fn has_work(&self) -> (out: bool)
        ensures
            out == (self@.queue.len() > 0),
    {
        self.queue.len() > 0
    }

    /// Starts a tick. The messages that background work has delivered since the last
    /// tick come first, in the order of their delivery; the messages that the root
    /// makes of the input event, if there was one, come behind them.
    ///
    /// A tick starts only when the one before has applied all its messages: what
    /// background work delivers meanwhile waits for the next tick.
    pub fn begin_tick(
        &mut self,
        delivered: Vec<ComponentMsg<C::Msg>>,
        event: Option<ComponentEvent>,
    )
        requires
            old(self).component.inv(),
            old(self)@.queue.len() == 0,
        ensures
            final(self).component == old(self).component,
            final(self).spawned == old(self).spawned,
            final(self).should_quit == old(self).should_quit,
            final(self).tick_rate_millis == old(self).tick_rate_millis,
            match event {
                Some(evt) => exists|made: Seq<ComponentMsg<C::Msg>>|
                    #![auto]
                    old(self).component.event_spec(evt, made) && final(self)@.queue
                        == delivered@ + made,
                None => final(self)@.queue == delivered@,
            },
    {
        let mut delivered = delivered;
        let ghost all = delivered@;
        while delivered.len() > 0
            invariant
                self.component == old(self).component,
                self.spawned == old(self).spawned,
                self.should_quit == old(self).should_quit,
                self.tick_rate_millis == old(self).tick_rate_millis,
                self.queue@ + delivered@ == all,
            decreases delivered.len(),
        {
            let ghost before = delivered@;
            let ghost queued = self.queue@;
            let msg = delivered.remove(0);
            self.queue.push_back(msg);
            assert(self.queue@ + delivered@ =~= queued + before);
        }
        assert(self.queue@ =~= all);
        match event {
            Some(evt) => {
                let mut made = self.component.handle_event(evt);
                let ghost fresh = made@;
                while made.len() > 0
                    invariant
                        self.component == old(self).component,
                        self.spawned == old(self).spawned,
                        self.should_quit == old(self).should_quit,
                        self.tick_rate_millis == old(self).tick_rate_millis,
                        self.queue@ + made@ == all + fresh,
                    decreases made.len(),
                {
                    let ghost before = made@;
                    let ghost queued = self.queue@;
                    let msg = made.remove(0);
                    self.queue.push_back(msg);
                    assert(self.queue@ + made@ =~= queued + before);
                }
                assert(self.queue@ =~= all + fresh);
            },
            None => {},
        }
    }

    /// Applies the oldest message of the queue.
    pub fn step(&mut self)
        requires
            old(self).component.inv(),
            old(self)@.queue.len() > 0,
        ensures
            final(self).component.inv(),
            final(self).tick_rate_millis == old(self).tick_rate_millis,
            stepped(old(self)@, final(self)@),
    {
        let ghost pre = self@;
        let msg = self.queue.pop_front().unwrap();
        let ret = self.component.update(msg);
        let ghost mid = self.component;
        let ghost model = ret@;
        let crate::component_return::ComponentReturn { msgs, cmds, actions } = ret;
        assert(msgs@ == model.msgs);
        assert(actions@ == model.actions);
        assert(command_models::<C::Msg, C::Pending>(cmds@) == model.cmds);

        let mut msgs = msgs;
        while msgs.len() > 0
            invariant
                pre.queue.len() > 0,
                self.component == mid,
                self.spawned == old(self).spawned,
                self.should_quit == old(self).should_quit,
                self.tick_rate_millis == old(self).tick_rate_millis,
                self.queue@ + msgs@ == pre.queue.drop_first() + model.msgs,
            decreases msgs.len(),
        {
            let ghost before = msgs@;
            let ghost queued = self.queue@;
            let m = msgs.remove(0);
            self.queue.push_back(m);
            assert(self.queue@ + msgs@ =~= queued + before);
        }
        assert(self.queue@ =~= pre.queue.drop_first() + model.msgs);

        let mut cmds = cmds;
        let ghost all_cmds = cmds@;
        while cmds.len() > 0
            invariant
                pre.queue.len() > 0,
                self.component == mid,
                self.should_quit == old(self).should_quit,
                self.tick_rate_millis == old(self).tick_rate_millis,
                self.queue@ == pre.queue.drop_first() + model.msgs,
                self.spawned@ + cmds@ == old(self).spawned@ + all_cmds,
            decreases cmds.len(),
        {
            let ghost before = cmds@;
            let ghost started = self.spawned@;
            let c = cmds.remove(0);
            self.spawned.push(c);
            assert(self.spawned@ + cmds@ =~= started + before);
        }
        assert(self.spawned@ =~= old(self).spawned@ + all_cmds);
        assert(self@.spawned =~= pre.spawned + model.cmds);

        let mut actions = actions;
        let ghost all_actions = actions@;
        let ghost answers = Seq::<ComponentMsg<C::Msg>>::empty();
        let ghost done: int = 0;
        assert(all_actions.take(0) =~= Seq::<Action>::empty());
        while actions.len() > 0
            invariant
                pre.queue.len() > 0,
                self.component.inv(),
                self.tick_rate_millis == old(self).tick_rate_millis,
                self@.spawned == pre.spawned + model.cmds,
                0 <= done <= all_actions.len(),
                actions@ == all_actions.skip(done),
                dispatched(mid, all_actions.take(done), self.component, answers),
                self.queue@ == pre.queue.drop_first() + model.msgs + answers,
                self.should_quit == (pre.should_quit || any_quit(all_actions.take(done))),
            decreases actions.len(),
        {
            let ghost before = self.component;
            let ghost earlier = answers;
            let ghost quit_before = any_quit(all_actions.take(done));
            let action = actions.remove(0);
            assert(action == all_actions[done]);
            if action.is_quit() {
                self.should_quit = true;
            }
            let mut replies = self.component.handle_action(action);
            let ghost last = replies@;
            proof {
                let prefix = all_actions.take(done + 1);
                assert(prefix.drop_last() =~= all_actions.take(done));
                assert(prefix.last() == action);
                assert(prefix.len() > 0);
                assert(dispatched(mid, prefix.drop_last(), before, earlier));
                assert(before.action_spec(prefix.last(), self.component, last));
                assert(dispatched(mid, prefix, self.component, earlier + last));
                assert(any_quit(prefix) == (quit_before || action is Quit)) by {
                    if any_quit(prefix) {
                        let i = choose|i: int| 0 <= i < prefix.len() && #[trigger] prefix[i] is Quit;
                        if i < done {
                            assert(all_actions.take(done)[i] is Quit);
                        }
                    }
                    if quit_before {
                        let i = choose|i: int|
                            0 <= i < all_actions.take(done).len() && #[trigger] all_actions.take(
                                done,
                            )[i] is Quit;
                        assert(prefix[i] is Quit);
                    }
                    if action is Quit {
                        assert(prefix[done] is Quit);
                    }
                }
                assert(actions@ =~= all_actions.skip(done + 1));
                answers = earlier + last;
                done = done + 1;
            }
            while replies.len() > 0
                invariant
                    pre.queue.len() > 0,
                    self.component.inv(),
                    self.tick_rate_millis == old(self).tick_rate_millis,
                    self@.spawned == pre.spawned + model.cmds,
                    self.should_quit == (pre.should_quit || any_quit(all_actions.take(done))),
                    dispatched(mid, all_actions.take(done), self.component, answers),
                    self.queue@ + replies@ == pre.queue.drop_first() + model.msgs + answers,
                decreases replies.len(),
            {
                let ghost rest = replies@;
                let ghost queued = self.queue@;
                let m = replies.remove(0);
                self.queue.push_back(m);
                assert(self.queue@ + replies@ =~= queued + rest);
            }
            assert(self.queue@ =~= pre.queue.drop_first() + model.msgs + answers);
        }
        assert(all_actions.take(done) =~= all_actions);
        assert(pre.component.update_spec(pre.queue[0].payload(), mid, model));
        assert(dispatched(mid, model.actions, self@.component, answers));
        assert(stepped(pre, self@));
    }

    /// Applies messages until the queue is empty, the runner has been asked to quit
    /// or `budget` messages have been applied, and says how many it applied.
    pub fn run_queue(&mut self, budget: usize) -> (applied: usize)
        requires
            old(self).component.inv(),
        ensures
            final(self).component.inv(),
            final(self).tick_rate_millis == old(self).tick_rate_millis,
            applied <= budget,
            stepped_n(old(self)@, applied as nat, final(self)@),
            applied < budget ==> final(self)@.queue.len() == 0,
    {
        let mut applied: usize = 0;
        while applied < budget && self.queue.len() > 0
            invariant
                self.component.inv(),
                self.tick_rate_millis == old(self).tick_rate_millis,
                applied <= budget,
                stepped_n(old(self)@, applied as nat, self@),
            decreases budget - applied,
        {
            let ghost mid = self@;
            let ghost before: nat = applied as nat;
            self.step();
            applied += 1;
            assert(((applied as nat) - 1) as nat == before);
            assert(stepped_n(old(self)@, ((applied as nat) - 1) as nat, mid));
            assert(stepped(mid, self@));
            assert(stepped_n(old(self)@, applied as nat, self@));
        }
        applied
    }

    /// Hands out the commands that are to be started, oldest first, and forgets them.
    pub fn take_spawned(&mut self) -> (out: Vec<Command<C::Pending>>)
        ensures
            out@ == old(self).spawned@,
            final(self)@ == (RunnerModel { spawned: Seq::empty(), ..old(self)@ }),
            final(self).tick_rate_millis == old(self).tick_rate_millis,
    {
        let mut out: Vec<Command<C::Pending>> = Vec::new();
        std::mem::swap(&mut out, &mut self.spawned);
        assert(self@.spawned =~= Seq::empty());
        out
    }
}

/// Whether the dispatcher was handed `action` in some state and answered it.
pub open spec fn reached_dispatcher<C: ActionHandler>(action: Action) -> bool {
    exists|before: C, after: C, answer: Seq<ComponentMsg<C::Msg>>|
        #![trigger before.action_spec(action, after, answer)]
        before.action_spec(action, after, answer)
}

/// Every action of a dispatched list was handed to the dispatcher.
pub proof fn lemma_dispatched_each<C: ActionHandler>(
    start: C,
    actions: Seq<Action>,
    end: C,
    msgs: Seq<ComponentMsg<C::Msg>>,
    i: int,
)
    requires
        dispatched(start, actions, end, msgs),
        0 <= i < actions.len(),
    ensures
        reached_dispatcher::<C>(actions[i]),
    decreases actions.len(),
{
    let (mid, earlier, last) = choose|
        mid: C,
        earlier: Seq<ComponentMsg<C::Msg>>,
        last: Seq<ComponentMsg<C::Msg>>,
    |
        #![trigger mid.action_spec(actions.last(), end, last), earlier + last]
        dispatched(start, actions.drop_last(), mid, earlier) && mid.action_spec(
            actions.last(),
            end,
            last,
        ) && msgs == earlier + last;
    if i == actions.len() - 1 {
        assert(mid.action_spec(actions[i], end, last));
    } else {
        lemma_dispatched_each(start, actions.drop_last(), mid, earlier, i);
        assert(actions.drop_last()[i] == actions[i]);
    }
}

/// The order of a tick. When `update`, applied to the oldest message, emits
/// follow-up messages and actions, then
/// - the follow-ups stand in the queue of this very tick, in the order of their
///   emission, behind the messages that were already waiting and ahead of nothing
///   but the dispatcher's answers, so that they are applied before the tick ends;
/// - what the commands of this `update` will deliver is not in the queue: the
///   commands have joined the commands to start, and their messages can enter only
///   when a later tick begins, which takes an empty queue;
/// - each action has been handed to the dispatcher before the step is over, and a
///   quit among them has stopped the run.
pub proof fn lemma_tick_ordering<C: ActionHandler>(
    pre: RunnerModel<C>,
    post: RunnerModel<C>,
    mid: C,
    ret: ReturnModel<C::Msg>,
    answers: Seq<ComponentMsg<C::Msg>>,
)
    requires
        pre.queue.len() > 0,
        pre.component.update_spec(pre.queue[0].payload(), mid, ret),
        dispatched(mid, ret.actions, post.component, answers),
        post.queue == pre.queue.drop_first() + ret.msgs + answers,
        post.spawned == pre.spawned + ret.cmds,
        post.should_quit == (pre.should_quit || any_quit(ret.actions)),
    ensures
        stepped(pre, post),
        post.queue.len() == pre.queue.len() - 1 + ret.msgs.len() + answers.len(),
        forall|i: int| 0 <= i < pre.queue.len() - 1 ==> #[trigger] post.queue[i] == pre.queue[i + 1],
        forall|i: int|
            0 <= i < ret.msgs.len() ==> #[trigger] post.queue[pre.queue.len() - 1 + i]
                == ret.msgs[i],
        forall|i: int|
            0 <= i < ret.cmds.len() ==> #[trigger] post.spawned[pre.spawned.len() + i]
                == ret.cmds[i],
        forall|i: int|
            0 <= i < ret.actions.len() ==> reached_dispatcher::<C>(#[trigger] ret.actions[i]),
        any_quit(ret.actions) ==> post.should_quit,
{
    assert forall|i: int| 0 <= i < ret.actions.len() implies reached_dispatcher::<C>(
        #[trigger] ret.actions[i],
    ) by {
        lemma_dispatched_each(mid, ret.actions, post.component, answers, i);
    }
}

} // verus!
