use vstd::prelude::*;
use crate::action::Action;
use crate::command::Completion;
use crate::command::Relabel;
use crate::component_return::ComponentReturn;
use crate::component_return::ReturnModel;
use crate::component_return::map_return;
use crate::envelope::ComponentMsg;
use crate::envelope::Mapper;
use crate::envelope::map_all;
use crate::envelope::map_msgs;
use crate::event::ComponentEvent;

verus! {

/// A unit of the screen with its own state, its own messages and its own props.
///
/// `init` is called once when the component is entered, `update` applies exactly one
/// message, and `handle_event` turns one raw event into messages without
/// touching the state. What each of them does is laid down by the three relations.
pub trait Component: Sized {
    type Msg;

    type Props;

    /// How the background work of this component reports back.
    type Pending: Completion<Self::Msg>;

    /// What holds of the component between calls.
    spec fn inv(&self) -> bool;

    /// `init` with `props` may leave the component as `next` and hand back `ret`.
    spec fn init_spec(&self, props: Self::Props, next: Self, ret: ReturnModel<Self::Msg>) -> bool;

    /// `update` with `msg` may leave the component as `next` and hand back `ret`.
    spec fn update_spec(&self, msg: Self::Msg, next: Self, ret: ReturnModel<Self::Msg>) -> bool;

    /// `handle_event` may turn `evt` into `msgs`.
    spec fn event_spec(&self, evt: ComponentEvent, msgs: Seq<ComponentMsg<Self::Msg>>) -> bool;

    fn init(&mut self, props: Self::Props) -> (ret: ComponentReturn<Self::Msg, Self::Pending>)
        requires
            old(self).inv(),
        ensures
            final(self).inv(),
            old(self).init_spec(props, *final(self), ret@),
    ;

    fn update(&mut self, msg: ComponentMsg<Self::Msg>) -> (ret: ComponentReturn<
        Self::Msg,
        Self::Pending,
    >)
        requires
            old(self).inv(),
        ensures
            final(self).inv(),
            old(self).update_spec(msg.payload(), *final(self), ret@),
    ;

    fn handle_event(&self, evt: ComponentEvent) -> (msgs: Vec<ComponentMsg<Self::Msg>>)
        requires
            self.inv(),
        ensures
            self.event_spec(evt, msgs@),
    ;
}

/// The root's dispatcher for actions: it sees every action once, and may answer
/// with messages for the root itself.
pub trait ActionHandler: Component {
    /// `handle_action` with `action` may leave the handler as `next` and answer `msgs`.
    spec fn action_spec(&self, action: Action, next: Self, msgs: Seq<ComponentMsg<Self::Msg>>) -> bool;

    fn handle_action(&mut self, action: Action) -> (msgs: Vec<ComponentMsg<Self::Msg>>)
        requires
            old(self).inv(),
        ensures
            final(self).inv(),
            old(self).action_spec(action, *final(self), msgs@),
    ;
}

/// Lets `other` apply `msg`, and re-labels what it hands back for its parent.
pub fn forward_update<M, F, C>(other: &mut C, msg: ComponentMsg<C::Msg>, mapper: F) -> (ret:
    ComponentReturn<M, Relabel<C::Msg, C::Pending, F>>) where F: Mapper<C::Msg, M>, C: Component
    requires
        old(other).inv(),
    ensures
        final(other).inv(),
        exists|inner: ReturnModel<C::Msg>|
            #![auto]
            old(other).update_spec(msg.payload(), *final(other), inner) && ret@ == map_return(
                inner,
                &mapper,
            ),
{
    let inner = other.update(msg);
    inner.map(mapper)
}

/// Lets `other` initialise itself from `props`, and re-labels what it hands back for
/// its parent.
pub fn forward_init<M, F, C>(other: &mut C, props: C::Props, mapper: F) -> (ret: ComponentReturn<
    M,
    Relabel<C::Msg, C::Pending, F>,
>) where F: Mapper<C::Msg, M>, C: Component
    requires
        old(other).inv(),
    ensures
        final(other).inv(),
        exists|inner: ReturnModel<C::Msg>|
            #![auto]
            old(other).init_spec(props, *final(other), inner) && ret@ == map_return(inner, &mapper),
{
    let inner = other.init(props);
    inner.map(mapper)
}

/// Lets `other` turn `evt` into messages, and re-labels each for its parent.
pub fn forward_event<M, F, C>(other: &C, evt: ComponentEvent, mapper: F) -> (msgs: Vec<
    ComponentMsg<M>,
>) where F: Mapper<C::Msg, M>, C: Component
    requires
        other.inv(),
    ensures
        exists|inner: Seq<ComponentMsg<C::Msg>>|
            #![auto]
            other.event_spec(evt, inner) && msgs@ == map_msgs(inner, &mapper),
{
    let inner = other.handle_event(evt);
    map_all(inner, &mapper)
}

} // verus!
