use vstd::prelude::*;
use crate::action::Action;
use crate::command::Relabel;
use crate::command::Silent;
use crate::component::forward_event;
use crate::component::forward_update;
use crate::component::Component;
use crate::component_return::empty_return;
use crate::component_return::map_return;
use crate::component_return::ComponentReturn;
use crate::component_return::ReturnModel;
use crate::connector::Connector;
use crate::envelope::map_msgs;
use crate::envelope::ComponentMsg;
use crate::envelope::Mapper;
use crate::event::ComponentEvent;
use crate::info::put;
use crate::info::InfoSheet;
use crate::info::InfoSheetModel;
use crate::nav::Nav;
use crate::record::texts;
use crate::record::TableEntry;
use crate::table::Selector;
use crate::table::TableMsg;
use crate::table::UiTable;

verus! {

/// What the connector list is told.
pub enum ConnectorsMsg {
    TableEvent(TableMsg<Box<ConnectorsMsg>>),
    ConnectorSelected(Connector),
}

/// One row of the connector list.
pub struct ConnectorEntry(pub Connector);

/// The cells of the row of a connector: name, address, kind of authentication, status.
pub open spec fn connector_row(connector: Connector) -> Seq<Seq<char>> {
    seq![
        connector.config.name@,
        connector.config.address@,
        connector.config.auth.kind_spec(),
        connector.status.as_str_spec(),
    ]
}

impl TableEntry for ConnectorEntry {
    fn row(&self) -> (out: Vec<String>)
        ensures
            texts(out@) == connector_row(self.0),
    {
        let mut out: Vec<String> = Vec::new();
        out.push(self.0.config().name().to_owned());
        out.push(self.0.config().address().to_owned());
        out.push(self.0.config().auth().kind().to_owned());
        out.push(self.0.status().as_str().to_owned());
        assert(texts(out@) =~= connector_row(self.0));
        out
    }

    fn headers(&self) -> (out: Vec<String>)
        ensures
            texts(out@) == seq!["NAME"@, "ADDRESS"@, "AUTH"@, "STATUS"@],
    {
        let mut out: Vec<String> = Vec::new();
        out.push("NAME".to_owned());
        out.push("ADDRESS".to_owned());
        out.push("AUTH".to_owned());
        out.push("STATUS".to_owned());
        assert(texts(out@) =~= seq!["NAME"@, "ADDRESS"@, "AUTH"@, "STATUS"@]);
        out
    }
}

/// Tells the list which connector was selected in its table.
pub struct SelectConnector;

impl Selector<ConnectorEntry> for SelectConnector {
    type Msg = Box<ConnectorsMsg>;

    open spec fn select_spec(&self, element: &ConnectorEntry, out: Box<ConnectorsMsg>) -> bool {
        *out == ConnectorsMsg::ConnectorSelected(element.0)
    }

    fn select(&self, element: &ConnectorEntry) -> (out: Box<ConnectorsMsg>) {
        Box::new(ConnectorsMsg::ConnectorSelected(element.0.clone()))
    }
}

/// A message of the table, as a message of the list.
pub struct WrapConnectorsTable;

impl Mapper<TableMsg<Box<ConnectorsMsg>>, ConnectorsMsg> for WrapConnectorsTable {
    open spec fn apply_spec(&self, value: TableMsg<Box<ConnectorsMsg>>) -> ConnectorsMsg {
        ConnectorsMsg::TableEvent(value)
    }

    fn apply(&self, value: TableMsg<Box<ConnectorsMsg>>) -> (out: ConnectorsMsg) {
        ConnectorsMsg::TableEvent(value)
    }
}

/// A message of the table, as a message of the list; what the table emits for its
/// parent is taken out of its wrapping.
pub struct UnwrapConnectorsOuter;

impl Mapper<TableMsg<Box<ConnectorsMsg>>, ConnectorsMsg> for UnwrapConnectorsOuter {
    open spec fn apply_spec(&self, value: TableMsg<Box<ConnectorsMsg>>) -> ConnectorsMsg {
        match value {
            TableMsg::Local(local) => ConnectorsMsg::TableEvent(TableMsg::Local(local)),
            TableMsg::Outer(outer) => *outer,
        }
    }

    fn apply(&self, value: TableMsg<Box<ConnectorsMsg>>) -> (out: ConnectorsMsg) {
        match value {
            TableMsg::Local(local) => ConnectorsMsg::TableEvent(TableMsg::Local(local)),
            TableMsg::Outer(outer) => *outer,
        }
    }
}

pub type ConnectorsTable = UiTable<ConnectorEntry, SelectConnector>;

pub type ConnectorsPending = Relabel<TableMsg<Box<ConnectorsMsg>>, Silent, WrapConnectorsTable>;

/// The list of configured connectors, one of which is the current one.
pub struct ConnectorsComponent {
    pub table: ConnectorsTable,
    pub selected: Option<Connector>,
}

/// The info sheet of the connector list: name and address of the current connector.
pub open spec fn connectors_sheet(selected: Option<Connector>) -> InfoSheetModel {
    match selected {
        Some(c) => InfoSheetModel {
            info: put(
                put(Seq::empty(), "Connector Name"@, c.config.name@),
                "Connector Address"@,
                c.config.address@,
            ),
            key_bindings: Seq::empty(),
        },
        None => InfoSheetModel {
            info: put(put(Seq::empty(), "Connector Name"@, "n/a"@), "Connector Address"@, "n/a"@),
            key_bindings: Seq::empty(),
        },
    }
}

/// What `update` does with each message: a selected connector becomes the current
/// one and the root is asked to show its assets; a message of the table goes to the
/// table.
pub open spec fn connectors_updated(
    pre: ConnectorsComponent,
    msg: ConnectorsMsg,
    next: ConnectorsComponent,
    ret: ReturnModel<ConnectorsMsg>,
) -> bool {
    match msg {
        ConnectorsMsg::ConnectorSelected(connector) => {
            &&& next == (ConnectorsComponent { selected: Some(connector), ..pre })
            &&& ret == (ReturnModel::<ConnectorsMsg> {
                msgs: Seq::empty(),
                cmds: Seq::empty(),
                actions: seq![Action::NavTo(Nav::AssetsList)],
            })
        },
        ConnectorsMsg::TableEvent(table) => {
            &&& next == (ConnectorsComponent { table: next.table, ..pre })
            &&& exists|inner: ReturnModel<TableMsg<Box<ConnectorsMsg>>>|
                #![auto]
                pre.table.update_spec(table, next.table, inner) && ret == map_return(
                    inner,
                    &WrapConnectorsTable,
                )
        },
    }
}

impl Default for ConnectorsComponent {
    fn default() -> (out: Self)
        ensures
            out.selected is None,
            out.table.elements@.len() == 0,
            out.table.selected == Some(0usize),
            out.table.on_select is None,
    {
        ConnectorsComponent { table: UiTable::default(), selected: None }
    }
}

impl ConnectorsComponent {
    /// The list of `connectors`, the first of which is the current one.
    pub fn new(connectors: Vec<Connector>) -> (out: Self)
        ensures
            out.selected == if connectors@.len() > 0 {
                Some(connectors@[0])
            } else {
                None::<Connector>
            },
            out.table.elements@.len() == connectors@.len(),
            forall|i: int| 0 <= i < connectors@.len() ==> (#[trigger] out.table.elements@[i]).0 == connectors@[i],
            out.table.selected == Some(0usize),
            out.table.on_select == Some(SelectConnector),
            out.table.show_block,
            out.table.name@ == "Connectors"@,
    {
        let selected = if connectors.len() > 0 {
            Some(connectors[0].clone())
        } else {
            None
        };
        let ghost all = connectors@;
        let mut rest = connectors;
        let mut entries: Vec<ConnectorEntry> = Vec::new();
        while rest.len() > 0
            invariant
                entries@.len() + rest@.len() == all.len(),
                rest@ == all.skip(entries@.len() as int),
                forall|i: int| 0 <= i < entries@.len() ==> (#[trigger] entries@[i]).0 == all[i],
            decreases rest.len(),
        {
            let connector = rest.remove(0);
            entries.push(ConnectorEntry(connector));
            assert(rest@ =~= all.skip(entries@.len() as int));
        }
        ConnectorsComponent {
            table: UiTable::with_elements("Connectors".to_owned(), entries, true).on_select(
                SelectConnector,
            ),
            selected,
        }
    }

    /// The current connector.
    pub fn selected(&self) -> (out: Option<&Connector>)
        ensures
            out == match self.selected {
                Some(c) => Some(&c),
                None => None,
            },
    {
        self.selected.as_ref()
    }

    /// Name and address of the current connector, or `n/a` for both.
    pub fn info_sheet(&self) -> (out: InfoSheet)
        ensures
            out.wf(),
            out@ == connectors_sheet(self.selected),
    {
        match &self.selected {
            Some(c) => InfoSheet::default().info("Connector Name", c.config().name()).info(
                "Connector Address",
                c.config().address(),
            ),
            None => InfoSheet::default().info("Connector Name", "n/a").info(
                "Connector Address",
                "n/a",
            ),
        }
    }
}

impl Component for ConnectorsComponent {
    type Msg = ConnectorsMsg;

    type Props = ();

    type Pending = ConnectorsPending;

    open spec fn inv(&self) -> bool {
        true
    }

    open spec fn init_spec(&self, props: (), next: Self, ret: ReturnModel<ConnectorsMsg>) -> bool {
        next == *self && ret == empty_return::<ConnectorsMsg>()
    }

    open spec fn update_spec(
        &self,
        msg: ConnectorsMsg,
        next: Self,
        ret: ReturnModel<ConnectorsMsg>,
    ) -> bool {
        connectors_updated(*self, msg, next, ret)
    }

    /// Every event goes to the table; what the table emits for its parent is taken
    /// out of its wrapping.
    open spec fn event_spec(
        &self,
        evt: ComponentEvent,
        msgs: Seq<ComponentMsg<ConnectorsMsg>>,
    ) -> bool {
        exists|inner: Seq<ComponentMsg<TableMsg<Box<ConnectorsMsg>>>>|
            #![auto]
            self.table.event_spec(evt, inner) && msgs == map_msgs(inner, &UnwrapConnectorsOuter)
    }

    fn init(&mut self, props: ()) -> (ret: ComponentReturn<ConnectorsMsg, ConnectorsPending>) {
        ComponentReturn::empty()
    }

    fn update(&mut self, msg: ComponentMsg<ConnectorsMsg>) -> (ret: ComponentReturn<
        ConnectorsMsg,
        ConnectorsPending,
    >) {
        match msg.take() {
            ConnectorsMsg::ConnectorSelected(connector) => {
                self.selected = Some(connector);
                ComponentReturn::action(Action::NavTo(Nav::AssetsList))
            },
            ConnectorsMsg::TableEvent(table) => forward_update(
                &mut self.table,
                ComponentMsg(table),
                WrapConnectorsTable,
            ),
        }
    }

    fn handle_event(&self, evt: ComponentEvent) -> (msgs: Vec<ComponentMsg<ConnectorsMsg>>) {
        forward_event(&self.table, evt, UnwrapConnectorsOuter)
    }
}

} // verus!
