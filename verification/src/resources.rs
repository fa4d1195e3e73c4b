use vstd::prelude::*;
use crate::action::Action;
use crate::command::Command;
use crate::command::Completion;
use crate::command::Outcome;
use crate::command::Relabel;
use crate::command::Silent;
use crate::command::Work;
use crate::component::forward_event;
use crate::component::forward_update;
use crate::component::Component;
use crate::component_return::empty_return;
use crate::component_return::map_return;
use crate::component_return::ComponentReturn;
use crate::component_return::ReturnModel;
use crate::connector::Connector;
use crate::detail::ResourceComponent;
use crate::detail::ResourceMsg;
use crate::envelope::map_msgs;
use crate::envelope::ComponentMsg;
use crate::envelope::Mapper;
use crate::event::ComponentEvent;
use crate::event::KeyCode;
use crate::detail::detail_sheet;
use crate::info::put;
use crate::info::put_all;
use crate::info::InfoSheet;
use crate::info::InfoSheetModel;
use crate::table::table_sheet;
use crate::notification::Notification;
use crate::notification::NotificationKind;
use crate::notification::NOTIFICATION_TIMEOUT;
use crate::query::Query;
use crate::query::QueryModel;
use crate::record::Resource;
use crate::record::ResourceKind;
use crate::table::Selector;
use crate::table::TableMsg;
use crate::table::UiTable;

verus! {

/// Who owns the keyboard inside a resource screen: the list, or the detail of the
/// selected resource.
#[derive(Debug, Clone, Copy, PartialEq, Eq, Structural)]
pub enum Focus {
    ResourceList,
    Resource,
}

/// What a resource screen is told.
pub enum ResourcesMsg {
    ResourceSelected(Resource),
    Back,
    NextPage,
    PrevPage,
    RefreshPage,
    TableEvent(TableMsg<Box<ResourcesMsg>>),
    ResourceMsg(ResourceMsg),
    ResourcesFetched(Vec<Resource>),
    ResourcesFetchFailed(String),
}

/// Tells the screen which resource was selected in its table.
pub struct SelectResource;

impl Selector<Resource> for SelectResource {
    type Msg = Box<ResourcesMsg>;

    open spec fn select_spec(&self, element: &Resource, out: Box<ResourcesMsg>) -> bool {
        *out is ResourceSelected && out->ResourceSelected_0@ == element@
    }

    fn select(&self, element: &Resource) -> (out: Box<ResourcesMsg>) {
        Box::new(ResourcesMsg::ResourceSelected(element.clone()))
    }
}

/// A message of the table, as a message of the screen.
pub struct WrapTable;

impl Mapper<TableMsg<Box<ResourcesMsg>>, ResourcesMsg> for WrapTable {
    open spec fn apply_spec(&self, value: TableMsg<Box<ResourcesMsg>>) -> ResourcesMsg {
        ResourcesMsg::TableEvent(value)
    }

    fn apply(&self, value: TableMsg<Box<ResourcesMsg>>) -> (out: ResourcesMsg) {
        ResourcesMsg::TableEvent(value)
    }
}

/// A message of the table, as a message of the screen; what the table emits for its
/// parent is taken out of its wrapping.
pub struct UnwrapOuter;

impl Mapper<TableMsg<Box<ResourcesMsg>>, ResourcesMsg> for UnwrapOuter {
    open spec fn apply_spec(&self, value: TableMsg<Box<ResourcesMsg>>) -> ResourcesMsg {
        match value {
            TableMsg::Local(local) => ResourcesMsg::TableEvent(TableMsg::Local(local)),
            TableMsg::Outer(outer) => *outer,
        }
    }

    fn apply(&self, value: TableMsg<Box<ResourcesMsg>>) -> (out: ResourcesMsg) {
        match value {
            TableMsg::Local(local) => ResourcesMsg::TableEvent(TableMsg::Local(local)),
            TableMsg::Outer(outer) => *outer,
        }
    }
}

/// A message of the detail screen, as a message of the screen.
pub struct WrapDetail;

impl Mapper<ResourceMsg, ResourcesMsg> for WrapDetail {
    open spec fn apply_spec(&self, value: ResourceMsg) -> ResourcesMsg {
        ResourcesMsg::ResourceMsg(value)
    }

    fn apply(&self, value: ResourceMsg) -> (out: ResourcesMsg) {
        ResourcesMsg::ResourceMsg(value)
    }
}

/// How a fetch reports back: the page it brought, or why it failed. A failure is an
/// ordinary message.
pub struct FetchDone;

/// The messages of a finished fetch.
pub open spec fn fetch_messages(outcome: Outcome) -> Seq<ComponentMsg<ResourcesMsg>> {
    match outcome {
        Outcome::Fetched(resources) => seq![ComponentMsg(ResourcesMsg::ResourcesFetched(resources))],
        Outcome::Failed(reason) => seq![ComponentMsg(ResourcesMsg::ResourcesFetchFailed(reason))],
        Outcome::Elapsed => Seq::empty(),
    }
}

impl Completion<ResourcesMsg> for FetchDone {
    open spec fn messages_spec(&self, outcome: Outcome) -> Seq<ComponentMsg<ResourcesMsg>> {
        fetch_messages(outcome)
    }

    fn messages(&self, outcome: Outcome) -> (out: Vec<ComponentMsg<ResourcesMsg>>) {
        let mut out: Vec<ComponentMsg<ResourcesMsg>> = Vec::new();
        match outcome {
            Outcome::Fetched(resources) => {
                out.push(ComponentMsg(ResourcesMsg::ResourcesFetched(resources)));
            },
            Outcome::Failed(reason) => {
                out.push(ComponentMsg(ResourcesMsg::ResourcesFetchFailed(reason)));
            },
            Outcome::Elapsed => {},
        }
        assert(out@ =~= fetch_messages(outcome));
        out
    }
}

/// The background work that a resource screen can be waiting for.
pub enum ResourcesPending {
    Fetch(FetchDone),
    Table(Relabel<TableMsg<Box<ResourcesMsg>>, Silent, WrapTable>),
    Detail(Relabel<ResourceMsg, Silent, WrapDetail>),
}

impl Completion<ResourcesMsg> for ResourcesPending {
    open spec fn messages_spec(&self, outcome: Outcome) -> Seq<ComponentMsg<ResourcesMsg>> {
        match self {
            ResourcesPending::Fetch(done) => done.messages_spec(outcome),
            ResourcesPending::Table(done) => done.messages_spec(outcome),
            ResourcesPending::Detail(done) => done.messages_spec(outcome),
        }
    }

    fn messages(&self, outcome: Outcome) -> (out: Vec<ComponentMsg<ResourcesMsg>>) {
        match self {
            ResourcesPending::Fetch(done) => done.messages(outcome),
            ResourcesPending::Table(done) => done.messages(outcome),
            ResourcesPending::Detail(done) => done.messages(outcome),
        }
    }
}

/// Holds what the table is waiting for as something the screen is waiting for.
pub struct HoldTable;

impl Mapper<Relabel<TableMsg<Box<ResourcesMsg>>, Silent, WrapTable>, ResourcesPending> for HoldTable {
    open spec fn apply_spec(
        &self,
        value: Relabel<TableMsg<Box<ResourcesMsg>>, Silent, WrapTable>,
    ) -> ResourcesPending {
        ResourcesPending::Table(value)
    }

    fn apply(&self, value: Relabel<TableMsg<Box<ResourcesMsg>>, Silent, WrapTable>) -> (out:
        ResourcesPending) {
        ResourcesPending::Table(value)
    }
}

/// Holds what the detail screen is waiting for as something the screen is waiting for.
pub struct HoldDetail;

impl Mapper<Relabel<ResourceMsg, Silent, WrapDetail>, ResourcesPending> for HoldDetail {
    open spec fn apply_spec(&self, value: Relabel<ResourceMsg, Silent, WrapDetail>) -> ResourcesPending {
        ResourcesPending::Detail(value)
    }

    fn apply(&self, value: Relabel<ResourceMsg, Silent, WrapDetail>) -> (out: ResourcesPending) {
        ResourcesPending::Detail(value)
    }
}

pub type ResourceTable = UiTable<Resource, SelectResource>;

/// The number of resources on a full page.
pub const PAGE_SIZE: u32 = 50;

/// A screen that lists one collection of a connector page by page, and shows the
/// detail of the selected resource.
pub struct ResourcesComponent {
    pub kind: ResourceKind,
    pub table: ResourceTable,
    pub resource: ResourceComponent,
    pub focus: Focus,
    pub connector: Option<Connector>,
    /// The collection to fetch from, once the screen is bound to one.
    pub on_fetch: Option<ResourceKind>,
    pub query: Query,
    pub page_size: u32,
}

/// What `fetch` hands back: one command that fetches the current page from the bound
/// connector and reports as a fetch does; nothing for a screen that is bound to no
/// connector or to no collection.
pub open spec fn fetch_spec(screen: ResourcesComponent, ret: ReturnModel<ResourcesMsg>) -> bool {
    if screen.connector is Some && screen.on_fetch is Some {
        &&& ret.msgs.len() == 0
        &&& ret.actions.len() == 0
        &&& ret.cmds.len() == 1
        &&& ret.cmds[0].work is Fetch
        &&& ret.cmds[0].work->Fetch_connector == screen.connector->Some_0
        &&& ret.cmds[0].work->Fetch_kind == screen.on_fetch->Some_0
        &&& ret.cmds[0].work->Fetch_query@ == screen.query@
        &&& forall|o: Outcome| #[trigger] (ret.cmds[0].on_done)(o) == fetch_messages(o)
    } else {
        ret == empty_return::<ResourcesMsg>()
    }
}

/// Whether two screens differ in nothing but their queries.
pub open spec fn same_but_query(a: ResourcesComponent, b: ResourcesComponent) -> bool {
    &&& a.kind == b.kind
    &&& a.table == b.table
    &&& a.resource == b.resource
    &&& a.focus == b.focus
    &&& a.connector == b.connector
    &&& a.on_fetch == b.on_fetch
    &&& a.page_size == b.page_size
}

/// Whether the next page can be asked for: the page shown is full, and the offset of
/// the next one can still be written down.
pub open spec fn has_next_page(screen: ResourcesComponent) -> bool {
    screen.table.elements@.len() == screen.page_size && screen.query.offset + screen.page_size
        <= u32::MAX
}

/// The offset of the page before the one at `offset`.
pub open spec fn prev_offset(offset: u32, page_size: u32) -> u32 {
    if offset >= page_size {
        (offset - page_size) as u32
    } else {
        0
    }
}

/// What `update` does with each message.
pub open spec fn resources_updated(
    pre: ResourcesComponent,
    msg: ResourcesMsg,
    next: ResourcesComponent,
    ret: ReturnModel<ResourcesMsg>,
) -> bool {
    match msg {
        ResourcesMsg::ResourceSelected(selected) => {
            &&& next == (ResourcesComponent {
                resource: ResourceComponent { resource: Some(selected), ..pre.resource },
                focus: Focus::Resource,
                ..pre
            })
            &&& ret == (ReturnModel::<ResourcesMsg> {
                msgs: Seq::empty(),
                cmds: Seq::empty(),
                actions: seq![Action::ChangeSheet],
            })
        },
        ResourcesMsg::TableEvent(table) => {
            &&& next == (ResourcesComponent { table: next.table, ..pre })
            &&& exists|inner: ReturnModel<TableMsg<Box<ResourcesMsg>>>|
                #![auto]
                pre.table.update_spec(table, next.table, inner) && ret == map_return(
                    inner,
                    &WrapTable,
                )
        },
        ResourcesMsg::ResourcesFetched(resources) => {
            &&& next == (ResourcesComponent {
                table: UiTable { elements: resources, ..pre.table },
                ..pre
            })
            &&& ret == empty_return::<ResourcesMsg>()
        },
        ResourcesMsg::Back => {
            &&& next == (ResourcesComponent { focus: Focus::ResourceList, ..pre })
            &&& ret == (ReturnModel::<ResourcesMsg> {
                msgs: Seq::empty(),
                cmds: Seq::empty(),
                actions: seq![Action::ChangeSheet],
            })
        },
        ResourcesMsg::NextPage => if has_next_page(pre) {
            &&& same_but_query(pre, next)
            &&& next.query@ == (QueryModel {
                offset: (pre.query.offset + pre.page_size) as u32,
                ..pre.query@
            })
            &&& fetch_spec(next, ret)
        } else {
            next == pre && ret == empty_return::<ResourcesMsg>()
        },
        ResourcesMsg::PrevPage => if pre.query.offset > 0 {
            &&& same_but_query(pre, next)
            &&& next.query@ == (QueryModel {
                offset: prev_offset(pre.query.offset, pre.page_size),
                ..pre.query@
            })
            &&& fetch_spec(next, ret)
        } else {
            next == pre && ret == empty_return::<ResourcesMsg>()
        },
        ResourcesMsg::RefreshPage => next == pre && fetch_spec(pre, ret),
        ResourcesMsg::ResourceMsg(msg) => {
            &&& next == (ResourcesComponent { resource: next.resource, ..pre })
            &&& exists|inner: ReturnModel<ResourceMsg>|
                #![auto]
                pre.resource.update_spec(msg, next.resource, inner) && ret == map_return(
                    inner,
                    &WrapDetail,
                )
        },
        ResourcesMsg::ResourcesFetchFailed(error) => {
            &&& next == pre
            &&& ret == (ReturnModel::<ResourcesMsg> {
                msgs: Seq::empty(),
                cmds: Seq::empty(),
                actions: seq![
                    Action::Notification(
                        Notification {
                            msg: error,
                            kind: NotificationKind::Error,
                            timeout: NOTIFICATION_TIMEOUT,
                        },
                    ),
                ],
            })
        },
    }
}

/// What a raw event means to the screen. With the list in focus, `n`, `p` and `r` ask
/// for the next page, the page before and this page again, and every other event goes
/// to the table. With the detail in focus, escape leads back and every other event
/// goes to the detail screen.
pub open spec fn resources_event(
    screen: ResourcesComponent,
    evt: ComponentEvent,
    msgs: Seq<ComponentMsg<ResourcesMsg>>,
) -> bool {
    match screen.focus {
        Focus::ResourceList => {
            if evt is Key && evt->Key_0.code == KeyCode::Char('n') {
                msgs == seq![ComponentMsg(ResourcesMsg::NextPage)]
            } else if evt is Key && evt->Key_0.code == KeyCode::Char('p') {
                msgs == seq![ComponentMsg(ResourcesMsg::PrevPage)]
            } else if evt is Key && evt->Key_0.code == KeyCode::Char('r') {
                msgs == seq![ComponentMsg(ResourcesMsg::RefreshPage)]
            } else {
                exists|inner: Seq<ComponentMsg<TableMsg<Box<ResourcesMsg>>>>|
                    #![auto]
                    screen.table.event_spec(evt, inner) && msgs == map_msgs(inner, &UnwrapOuter)
            }
        },
        Focus::Resource => {
            if evt is Key && evt->Key_0.code == KeyCode::Esc {
                msgs == seq![ComponentMsg(ResourcesMsg::Back)]
            } else {
                exists|inner: Seq<ComponentMsg<ResourceMsg>>|
                    #![auto]
                    screen.resource.event_spec(evt, inner) && msgs == map_msgs(inner, &WrapDetail)
            }
        },
    }
}

/// The info sheet of the keys that turn pages.
pub open spec fn pagination_sheet_spec() -> InfoSheetModel {
    InfoSheetModel {
        info: Seq::empty(),
        key_bindings: put(
            put(put(Seq::empty(), "<n>"@, "Next Page"@), "<p>"@, "Prev page"@),
            "<r>"@,
            "Refresh page"@,
        ),
    }
}

/// The info sheet of a resource screen: that of the table and the page keys while the
/// list has the keyboard, that of the detail screen otherwise.
pub open spec fn resources_sheet(focus: Focus) -> InfoSheetModel {
    match focus {
        Focus::ResourceList => InfoSheetModel {
            info: put_all(table_sheet().info, pagination_sheet_spec().info),
            key_bindings: put_all(table_sheet().key_bindings, pagination_sheet_spec().key_bindings),
        },
        Focus::Resource => detail_sheet(),
    }
}

impl ResourcesComponent {
    /// A screen for one collection: an empty list in focus, bound to nothing, showing
    /// the first page.
    pub fn new(kind: ResourceKind) -> (out: Self)
        ensures
            out.kind == kind,
            out.table.elements@.len() == 0,
            out.table.selected == Some(0usize),
            out.table.on_select == Some(SelectResource),
            out.table.name@ == kind.title_spec(),
            out.resource.resource is None,
            out.resource.selected_field == 0,
            out.resource.name@ == kind.title_spec(),
            out.focus == Focus::ResourceList,
            out.connector is None,
            out.on_fetch is None,
            out.query@ == (QueryModel {
                offset: 0,
                limit: crate::query::DEFAULT_LIMIT,
                sort: None,
                filter_expression: Seq::empty(),
            }),
            out.page_size == PAGE_SIZE,
    {
        ResourcesComponent {
            kind,
            table: UiTable::new(kind.title().to_owned()).on_select(SelectResource),
            resource: ResourceComponent::new(kind.title().to_owned()),
            focus: Focus::ResourceList,
            connector: None,
            on_fetch: None,
            query: Query::default(),
            page_size: PAGE_SIZE,
        }
    }

    /// The same screen, fetching its pages from the collection `source`.
    pub fn on_fetch(self, source: ResourceKind) -> (out: Self)
        ensures
            out == (ResourcesComponent { on_fetch: Some(source), ..self }),
    {
        let mut out = self;
        out.on_fetch = Some(source);
        out
    }

    /// The keys that do something on the part of the screen that has the keyboard.
    pub fn info_sheet(&self) -> (out: InfoSheet)
        ensures
            out.wf(),
            out@ == resources_sheet(self.focus),
    {
        match self.focus {
            Focus::ResourceList => self.table.info_sheet().merge(self.pagination_sheet()),
            Focus::Resource => self.resource.info_sheet(),
        }
    }

    /// The status line under the list: offset, limit, sort and filter of the query.
    pub fn render_footer(&self) -> (out: String)
        ensures
            out@ == crate::query::summary_text(self.query@),
    {
        self.query.summary()
    }

    /// The keys that turn pages.
    pub fn pagination_sheet(&self) -> (out: InfoSheet)
        ensures
            out.wf(),
            out@ == pagination_sheet_spec(),
    {
        InfoSheet::default().key_binding("<n>", "Next Page").key_binding(
            "<p>",
            "Prev page",
        ).key_binding("<r>", "Refresh page")
    }

    pub fn focus(&self) -> (out: Focus)
        ensures
            out == self.focus,
    {
        self.focus
    }

    pub fn query(&self) -> (out: &Query)
        ensures
            *out == self.query,
    {
        &self.query
    }

    /// Asks for the current page.
    pub fn fetch(&self) -> (ret: ComponentReturn<ResourcesMsg, ResourcesPending>)
        ensures
            fetch_spec(*self, ret@),
    {
        match (&self.connector, &self.on_fetch) {
            (Some(connector), Some(kind)) => {
                let work = Work::Fetch {
                    connector: connector.clone(),
                    kind: *kind,
                    query: self.query.clone(),
                };
                ComponentReturn::cmd(Command::new(work, ResourcesPending::Fetch(FetchDone)))
            },
            _ => ComponentReturn::empty(),
        }
    }
}

impl Component for ResourcesComponent {
    type Msg = ResourcesMsg;

    type Props = Connector;

    type Pending = ResourcesPending;

    open spec fn inv(&self) -> bool {
        true
    }

    /// Entering the screen binds it to the connector and asks for the current page.
    open spec fn init_spec(
        &self,
        props: Connector,
        next: Self,
        ret: ReturnModel<ResourcesMsg>,
    ) -> bool {
        next == (ResourcesComponent { connector: Some(props), ..*self }) && fetch_spec(next, ret)
    }

    open spec fn update_spec(
        &self,
        msg: ResourcesMsg,
        next: Self,
        ret: ReturnModel<ResourcesMsg>,
    ) -> bool {
        resources_updated(*self, msg, next, ret)
    }

    open spec fn event_spec(
        &self,
        evt: ComponentEvent,
        msgs: Seq<ComponentMsg<ResourcesMsg>>,
    ) -> bool {
        resources_event(*self, evt, msgs)
    }

    fn init(&mut self, props: Connector) -> (ret: ComponentReturn<ResourcesMsg, ResourcesPending>) {
        self.connector = Some(props);
        self.fetch()
    }

    fn update(&mut self, msg: ComponentMsg<ResourcesMsg>) -> (ret: ComponentReturn<
        ResourcesMsg,
        ResourcesPending,
    >) {
        match msg.take() {
            ResourcesMsg::ResourceSelected(selected) => {
                self.resource.update_resource(Some(selected));
                self.focus = Focus::Resource;
                ComponentReturn::action(Action::ChangeSheet)
            },
            ResourcesMsg::TableEvent(table) => {
                let ret = forward_update(&mut self.table, ComponentMsg(table), WrapTable);
                ret.with_pending(&HoldTable)
            },
            ResourcesMsg::ResourcesFetched(resources) => {
                self.table.set_elements(resources);
                ComponentReturn::empty()
            },
            ResourcesMsg::Back => {
                self.focus = Focus::ResourceList;
                ComponentReturn::action(Action::ChangeSheet)
            },
            ResourcesMsg::NextPage => {
                if self.table.elements.len() == self.page_size as usize && self.query.offset()
                    <= u32::MAX - self.page_size {
                    let offset: u32 = self.query.offset() + self.page_size;
                    self.query = self.query.to_builder().offset(offset).build();
                    self.fetch()
                } else {
                    ComponentReturn::empty()
                }
            },
            ResourcesMsg::PrevPage => {
                if self.query.offset() > 0 {
                    let offset: u32 = self.query.offset().saturating_sub(self.page_size);
                    self.query = self.query.to_builder().offset(offset).build();
                    self.fetch()
                } else {
                    ComponentReturn::empty()
                }
            },
            ResourcesMsg::RefreshPage => self.fetch(),
            ResourcesMsg::ResourceMsg(msg) => {
                let ret = forward_update(&mut self.resource, ComponentMsg(msg), WrapDetail);
                ret.with_pending(&HoldDetail)
            },
            ResourcesMsg::ResourcesFetchFailed(error) => ComponentReturn::action(
                Action::Notification(Notification::error(error)),
            ),
        }
    }

    fn handle_event(&self, evt: ComponentEvent) -> (msgs: Vec<ComponentMsg<ResourcesMsg>>) {
        let mut msgs: Vec<ComponentMsg<ResourcesMsg>> = Vec::new();
        match self.focus {
            Focus::ResourceList => {
                match evt {
                    ComponentEvent::Key(key) => {
                        match key.code {
                            KeyCode::Char(c) => {
                                if c == 'n' {
                                    msgs.push(ComponentMsg(ResourcesMsg::NextPage));
                                    return msgs;
                                } else if c == 'p' {
                                    msgs.push(ComponentMsg(ResourcesMsg::PrevPage));
                                    return msgs;
                                } else if c == 'r' {
                                    msgs.push(ComponentMsg(ResourcesMsg::RefreshPage));
                                    return msgs;
                                }
                            },
                            _ => {},
                        }
                    },
                    _ => {},
                }
                forward_event(&self.table, evt, UnwrapOuter)
            },
            Focus::Resource => {
                match evt {
                    ComponentEvent::Key(key) => {
                        match key.code {
                            KeyCode::Esc => {
                                msgs.push(ComponentMsg(ResourcesMsg::Back));
                                return msgs;
                            },
                            _ => {},
                        }
                    },
                    _ => {},
                }
                forward_event(&self.resource, evt, WrapDetail)
            },
        }
    }
}

/// Asking for the next page of a list whose last page came up short is a no-op:
/// nothing is fetched and the screen, its offset included, stays as it is. So is
/// asking for the page before the first.
pub proof fn lemma_pagination_no_op(
    pre: ResourcesComponent,
    next: ResourcesComponent,
    ret: ReturnModel<ResourcesMsg>,
)
    ensures
        pre.table.elements@.len() < pre.page_size && pre.update_spec(ResourcesMsg::NextPage, next, ret)
            ==> next == pre && ret == empty_return::<ResourcesMsg>(),
        pre.query.offset == 0 && pre.update_spec(ResourcesMsg::PrevPage, next, ret) ==> next == pre
            && ret == empty_return::<ResourcesMsg>(),
{
}

/// Selecting a resource gives the keyboard to the detail screen, leaving it gives the
/// keyboard back to the list, and each of the two asks the root to refresh the header.
/// No other message moves the focus.
pub proof fn lemma_focus_moves(
    pre: ResourcesComponent,
    msg: ResourcesMsg,
    next: ResourcesComponent,
    ret: ReturnModel<ResourcesMsg>,
)
    requires
        pre.update_spec(msg, next, ret),
    ensures
        msg is ResourceSelected ==> next.focus == Focus::Resource && ret.actions == seq![
            Action::ChangeSheet,
        ],
        msg is Back ==> next.focus == Focus::ResourceList && ret.actions == seq![
            Action::ChangeSheet,
        ],
        !(msg is ResourceSelected) && !(msg is Back) ==> next.focus == pre.focus,
{
}

} // verus!
