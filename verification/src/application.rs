use vstd::prelude::*;
use crate::action::Action;
use crate::client::Auth;
use crate::command::Command;
use crate::command::Completion;
use crate::command::Outcome;
use crate::command::Relabel;
use crate::command::Silent;
use crate::command::Work;
use crate::component::forward_event;
use crate::component::forward_init;
use crate::component::forward_update;
use crate::component::ActionHandler;
use crate::component::Component;
use crate::component_return::empty_return;
use crate::component_return::map_return;
use crate::component_return::ComponentReturn;
use crate::component_return::ReturnModel;
use crate::config::AuthKind;
use crate::config::Config;
use crate::config::ConnectorConfig;
use crate::connector::Connector;
use crate::connector::ConnectorStatus;
use crate::connectors::connectors_sheet;
use crate::connectors::ConnectorsComponent;
use crate::connectors::ConnectorsMsg;
use crate::connectors::ConnectorsPending;
use crate::envelope::map_msgs;
use crate::envelope::ComponentMsg;
use crate::envelope::Mapper;
use crate::event::ComponentEvent;
use crate::event::KeyCode;
use crate::event::KeyEvent;
use crate::event::KeyEventKind;
use crate::footer::cleared;
use crate::footer::shown;
use crate::footer::Footer;
use crate::header::HeaderComponent;
use crate::header::HeaderMsg;
use crate::info::put;
use crate::info::put_all;
use crate::info::InfoSheet;
use crate::info::InfoSheetModel;
use crate::launch_bar::bar_cleared;
use crate::launch_bar::LaunchBar;
use crate::launch_bar::LaunchBarMsg;
use crate::nav::Menu;
use crate::nav::Nav;
use crate::notification::Notification;
use crate::notification::NotificationMsg;
use crate::record::ResourceKind;
use crate::resources::resources_sheet;
use crate::resources::ResourcesComponent;
use crate::resources::ResourcesMsg;
use crate::resources::ResourcesPending;

verus! {

/// Who owns the keyboard at the root: the connector list, the launch bar, or one of
/// the resource screens.
#[derive(Debug, Clone, Copy, PartialEq, Eq, Structural)]
pub enum AppFocus {
    ConnectorList,
    LaunchBar,
    Assets,
    Policies,
    ContractDefinitions,
    ContractNegotiations,
    TransferProcesses,
}

/// What the root is told.
pub enum AppMsg {
    ConnectorsMsg(ConnectorsMsg),
    ShowLaunchBar,
    HideLaunchBar,
    LaunchBarMsg(LaunchBarMsg),
    AssetsMsg(ResourcesMsg),
    PoliciesMsg(ResourcesMsg),
    ContractDefinitions(ResourcesMsg),
    ContractNegotiations(ResourcesMsg),
    TransferProcesses(ResourcesMsg),
    HeaderMsg(HeaderMsg),
    RoutingMsg(Nav),
    NontificationMsg(NotificationMsg),
    ChangeSheet,
}

/// A message of the connector list, as a message of the root.
pub struct WrapConnectors;

impl Mapper<ConnectorsMsg, AppMsg> for WrapConnectors {
    open spec fn apply_spec(&self, value: ConnectorsMsg) -> AppMsg {
        AppMsg::ConnectorsMsg(value)
    }

    fn apply(&self, value: ConnectorsMsg) -> (out: AppMsg) {
        AppMsg::ConnectorsMsg(value)
    }
}

/// A message of the launch bar, as a message of the root.
pub struct WrapLaunchBar;

impl Mapper<LaunchBarMsg, AppMsg> for WrapLaunchBar {
    open spec fn apply_spec(&self, value: LaunchBarMsg) -> AppMsg {
        AppMsg::LaunchBarMsg(value)
    }

    fn apply(&self, value: LaunchBarMsg) -> (out: AppMsg) {
        AppMsg::LaunchBarMsg(value)
    }
}

/// A message of the header, as a message of the root.
pub struct WrapHeader;

impl Mapper<HeaderMsg, AppMsg> for WrapHeader {
    open spec fn apply_spec(&self, value: HeaderMsg) -> AppMsg {
        AppMsg::HeaderMsg(value)
    }

    fn apply(&self, value: HeaderMsg) -> (out: AppMsg) {
        AppMsg::HeaderMsg(value)
    }
}

/// A message of one of the resource screens, as a message of the root.
pub struct WrapScreen {
    pub kind: ResourceKind,
}

impl Mapper<ResourcesMsg, AppMsg> for WrapScreen {
    open spec fn apply_spec(&self, value: ResourcesMsg) -> AppMsg {
        match self.kind {
            ResourceKind::Assets => AppMsg::AssetsMsg(value),
            ResourceKind::Policies => AppMsg::PoliciesMsg(value),
            ResourceKind::ContractDefinitions => AppMsg::ContractDefinitions(value),
            ResourceKind::ContractNegotiations => AppMsg::ContractNegotiations(value),
            ResourceKind::TransferProcesses => AppMsg::TransferProcesses(value),
        }
    }

    fn apply(&self, value: ResourcesMsg) -> (out: AppMsg) {
        match self.kind {
            ResourceKind::Assets => AppMsg::AssetsMsg(value),
            ResourceKind::Policies => AppMsg::PoliciesMsg(value),
            ResourceKind::ContractDefinitions => AppMsg::ContractDefinitions(value),
            ResourceKind::ContractNegotiations => AppMsg::ContractNegotiations(value),
            ResourceKind::TransferProcesses => AppMsg::TransferProcesses(value),
        }
    }
}

/// How the timer of a notification reports back: when the time is over, the
/// notification is to be cleared.
pub struct ClearTimer;

/// The messages of a finished timer.
pub open spec fn timer_messages(outcome: Outcome) -> Seq<ComponentMsg<AppMsg>> {
    match outcome {
        Outcome::Elapsed => seq![ComponentMsg(AppMsg::NontificationMsg(NotificationMsg::Clear))],
        _ => Seq::empty(),
    }
}

impl Completion<AppMsg> for ClearTimer {
    open spec fn messages_spec(&self, outcome: Outcome) -> Seq<ComponentMsg<AppMsg>> {
        timer_messages(outcome)
    }

    fn messages(&self, outcome: Outcome) -> (out: Vec<ComponentMsg<AppMsg>>) {
        let mut out: Vec<ComponentMsg<AppMsg>> = Vec::new();
        match outcome {
            Outcome::Elapsed => {
                out.push(ComponentMsg(AppMsg::NontificationMsg(NotificationMsg::Clear)));
            },
            _ => {},
        }
        assert(out@ =~= timer_messages(outcome));
        out
    }
}

/// The background work that the root can be waiting for.
pub enum AppPending {
    Screen(Relabel<ResourcesMsg, ResourcesPending, WrapScreen>),
    Connectors(Relabel<ConnectorsMsg, ConnectorsPending, WrapConnectors>),
    LaunchBar(Relabel<LaunchBarMsg, Silent, WrapLaunchBar>),
    Header(Relabel<HeaderMsg, Silent, WrapHeader>),
    Timer(ClearTimer),
}

impl Completion<AppMsg> for AppPending {
    open spec fn messages_spec(&self, outcome: Outcome) -> Seq<ComponentMsg<AppMsg>> {
        match self {
            AppPending::Screen(done) => done.messages_spec(outcome),
            AppPending::Connectors(done) => done.messages_spec(outcome),
            AppPending::LaunchBar(done) => done.messages_spec(outcome),
            AppPending::Header(done) => done.messages_spec(outcome),
            AppPending::Timer(done) => done.messages_spec(outcome),
        }
    }

    fn messages(&self, outcome: Outcome) -> (out: Vec<ComponentMsg<AppMsg>>) {
        match self {
            AppPending::Screen(done) => done.messages(outcome),
            AppPending::Connectors(done) => done.messages(outcome),
            AppPending::LaunchBar(done) => done.messages(outcome),
            AppPending::Header(done) => done.messages(outcome),
            AppPending::Timer(done) => done.messages(outcome),
        }
    }
}

/// Holds what a resource screen is waiting for as something the root is waiting for.
pub struct HoldScreen;

impl Mapper<Relabel<ResourcesMsg, ResourcesPending, WrapScreen>, AppPending> for HoldScreen {
    open spec fn apply_spec(&self, value: Relabel<ResourcesMsg, ResourcesPending, WrapScreen>) -> AppPending {
        AppPending::Screen(value)
    }

    fn apply(&self, value: Relabel<ResourcesMsg, ResourcesPending, WrapScreen>) -> (out: AppPending) {
        AppPending::Screen(value)
    }
}

/// Holds what the connector list is waiting for as something the root is waiting for.
pub struct HoldConnectors;

impl Mapper<Relabel<ConnectorsMsg, ConnectorsPending, WrapConnectors>, AppPending> for HoldConnectors {
    open spec fn apply_spec(
        &self,
        value: Relabel<ConnectorsMsg, ConnectorsPending, WrapConnectors>,
    ) -> AppPending {
        AppPending::Connectors(value)
    }

    fn apply(&self, value: Relabel<ConnectorsMsg, ConnectorsPending, WrapConnectors>) -> (out:
        AppPending) {
        AppPending::Connectors(value)
    }
}

/// Holds what the launch bar is waiting for as something the root is waiting for.
pub struct HoldLaunchBar;

impl Mapper<Relabel<LaunchBarMsg, Silent, WrapLaunchBar>, AppPending> for HoldLaunchBar {
    open spec fn apply_spec(&self, value: Relabel<LaunchBarMsg, Silent, WrapLaunchBar>) -> AppPending {
        AppPending::LaunchBar(value)
    }

    fn apply(&self, value: Relabel<LaunchBarMsg, Silent, WrapLaunchBar>) -> (out: AppPending) {
        AppPending::LaunchBar(value)
    }
}

/// Holds what the header is waiting for as something the root is waiting for.
pub struct HoldHeader;

impl Mapper<Relabel<HeaderMsg, Silent, WrapHeader>, AppPending> for HoldHeader {
    open spec fn apply_spec(&self, value: Relabel<HeaderMsg, Silent, WrapHeader>) -> AppPending {
        AppPending::Header(value)
    }

    fn apply(&self, value: Relabel<HeaderMsg, Silent, WrapHeader>) -> (out: AppPending) {
        AppPending::Header(value)
    }
}

/// The root of the screen: the connector list, the five resource screens, the launch
/// bar, the header and the footer.
pub struct App {
    pub connectors: ConnectorsComponent,
    pub policies: ResourcesComponent,
    pub assets: ResourcesComponent,
    pub contract_definitions: ResourcesComponent,
    pub contract_negotiations: ResourcesComponent,
    pub transfer_processes: ResourcesComponent,
    pub launch_bar: LaunchBar,
    pub launch_bar_visible: bool,
    pub focus: AppFocus,
    pub header: HeaderComponent,
    pub footer: Footer,
}

/// The screen that lists a collection.
pub open spec fn screen_of(app: App, kind: ResourceKind) -> ResourcesComponent {
    match kind {
        ResourceKind::Assets => app.assets,
        ResourceKind::Policies => app.policies,
        ResourceKind::ContractDefinitions => app.contract_definitions,
        ResourceKind::ContractNegotiations => app.contract_negotiations,
        ResourceKind::TransferProcesses => app.transfer_processes,
    }
}

/// The root with one of its screens replaced.
pub open spec fn with_screen(app: App, kind: ResourceKind, screen: ResourcesComponent) -> App {
    match kind {
        ResourceKind::Assets => App { assets: screen, ..app },
        ResourceKind::Policies => App { policies: screen, ..app },
        ResourceKind::ContractDefinitions => App { contract_definitions: screen, ..app },
        ResourceKind::ContractNegotiations => App { contract_negotiations: screen, ..app },
        ResourceKind::TransferProcesses => App { transfer_processes: screen, ..app },
    }
}

/// The collection that a tab lists, if it lists one.
pub open spec fn kind_of_menu(menu: Menu) -> Option<ResourceKind> {
    match menu {
        Menu::Connectors => None,
        Menu::Assets => Some(ResourceKind::Assets),
        Menu::Policies => Some(ResourceKind::Policies),
        Menu::ContractDefinitions => Some(ResourceKind::ContractDefinitions),
        Menu::ContractNegotiations => Some(ResourceKind::ContractNegotiations),
        Menu::TransferProcesses => Some(ResourceKind::TransferProcesses),
    }
}

/// Who owns the keyboard when a tab is shown.
pub open spec fn focus_of_menu(menu: Menu) -> AppFocus {
    match menu {
        Menu::Connectors => AppFocus::ConnectorList,
        Menu::Assets => AppFocus::Assets,
        Menu::Policies => AppFocus::Policies,
        Menu::ContractDefinitions => AppFocus::ContractDefinitions,
        Menu::ContractNegotiations => AppFocus::ContractNegotiations,
        Menu::TransferProcesses => AppFocus::TransferProcesses,
    }
}

/// The collection whose screen owns the keyboard, if one does.
pub open spec fn kind_of_focus(focus: AppFocus) -> Option<ResourceKind> {
    match focus {
        AppFocus::ConnectorList => None,
        AppFocus::LaunchBar => None,
        AppFocus::Assets => Some(ResourceKind::Assets),
        AppFocus::Policies => Some(ResourceKind::Policies),
        AppFocus::ContractDefinitions => Some(ResourceKind::ContractDefinitions),
        AppFocus::ContractNegotiations => Some(ResourceKind::ContractNegotiations),
        AppFocus::TransferProcesses => Some(ResourceKind::TransferProcesses),
    }
}

/// The collection and the message of a message for a resource screen.
pub open spec fn screen_msg(msg: AppMsg) -> Option<(ResourceKind, ResourcesMsg)> {
    match msg {
        AppMsg::AssetsMsg(m) => Some((ResourceKind::Assets, m)),
        AppMsg::PoliciesMsg(m) => Some((ResourceKind::Policies, m)),
        AppMsg::ContractDefinitions(m) => Some((ResourceKind::ContractDefinitions, m)),
        AppMsg::ContractNegotiations(m) => Some((ResourceKind::ContractNegotiations, m)),
        AppMsg::TransferProcesses(m) => Some((ResourceKind::TransferProcesses, m)),
        _ => None,
    }
}

/// One info sheet with every entry of another put into it.
pub open spec fn merged(a: InfoSheetModel, b: InfoSheetModel) -> InfoSheetModel {
    InfoSheetModel {
        info: put_all(a.info, b.info),
        key_bindings: put_all(a.key_bindings, b.key_bindings),
    }
}

/// The keys that do something everywhere.
pub open spec fn app_sheet() -> InfoSheetModel {
    InfoSheetModel {
        info: Seq::empty(),
        key_bindings: put(
            put(
                put(put(Seq::empty(), "<tab>"@, "Switch menu"@), "<esc>"@, "Back/Clear"@),
                "<:>"@,
                "Launch bar"@,
            ),
            "<:q>"@,
            "Quit"@,
        ),
    }
}

/// The info sheet that the header is to show: that of the connector list, the keys
/// that work everywhere, and the sheet of the screen behind the selected tab.
pub open spec fn sheet_model(app: App) -> InfoSheetModel {
    let screen = match kind_of_menu(app.header.menu) {
        Some(kind) => resources_sheet(screen_of(app, kind).focus),
        None => InfoSheetModel { info: Seq::empty(), key_bindings: Seq::empty() },
    };
    merged(merged(connectors_sheet(app.connectors.selected), app_sheet()), screen)
}

/// Whether two roots differ in nothing but their headers.
pub open spec fn same_but_header(a: App, b: App) -> bool {
    &&& a.connectors == b.connectors
    &&& a.policies == b.policies
    &&& a.assets == b.assets
    &&& a.contract_definitions == b.contract_definitions
    &&& a.contract_negotiations == b.contract_negotiations
    &&& a.transfer_processes == b.transfer_processes
    &&& a.launch_bar == b.launch_bar
    &&& a.launch_bar_visible == b.launch_bar_visible
    &&& a.focus == b.focus
    &&& a.footer == b.footer
}

/// What refreshing the header does: the header shows the info sheet of the current
/// state, and nothing else changes.
pub open spec fn sheet_changed(pre: App, next: App) -> bool {
    &&& same_but_header(pre, next)
    &&& next.header.menu == pre.header.menu
    &&& next.header.sheet.wf()
    &&& next.header.sheet@ == sheet_model(pre)
}

/// What routing does. The launch bar is hidden and cleared, the tab of the screen is
/// selected and the header refreshed; the screen gets the keyboard, and a resource
/// screen is bound to the current connector, if there is one, and asked for its page.
pub open spec fn routed(pre: App, nav: Nav, next: App, ret: ReturnModel<AppMsg>) -> bool {
    let menu = nav.menu_spec();
    &&& next.connectors == pre.connectors
    &&& next.footer == pre.footer
    &&& !next.launch_bar_visible
    &&& bar_cleared(pre.launch_bar, next.launch_bar)
    &&& next.launch_bar.wf()
    &&& next.header.menu == menu
    &&& next.header.sheet.wf()
    &&& next.header.sheet@ == sheet_model(
        App { header: HeaderComponent { menu, ..pre.header }, ..pre },
    )
    &&& next.focus == focus_of_menu(menu)
    &&& match kind_of_menu(menu) {
        Some(kind) => {
            &&& forall|other: ResourceKind|
                other != kind ==> #[trigger] screen_of(next, other) == screen_of(pre, other)
            &&& match pre.connectors.selected {
                Some(connector) => exists|inner: ReturnModel<ResourcesMsg>|
                    #![auto]
                    screen_of(pre, kind).init_spec(connector, screen_of(next, kind), inner) && ret
                        == map_return(inner, &(WrapScreen { kind })),
                None => screen_of(next, kind) == screen_of(pre, kind) && ret == empty_return::<
                    AppMsg,
                >(),
            }
        },
        None => {
            &&& forall|other: ResourceKind| #[trigger] screen_of(next, other) == screen_of(pre, other)
            &&& ret == empty_return::<AppMsg>()
        },
    }
}

/// What showing a notification hands back: one command that waits for the time the
/// notification is to stay, and then asks for it to be cleared.
pub open spec fn timer_spec(seconds: u64, ret: ReturnModel<AppMsg>) -> bool {
    &&& ret.msgs.len() == 0
    &&& ret.actions.len() == 0
    &&& ret.cmds.len() == 1
    &&& ret.cmds[0].work == (Work::Sleep { seconds })
    &&& forall|o: Outcome| #[trigger] (ret.cmds[0].on_done)(o) == timer_messages(o)
}

/// What `update` does with each message.
pub open spec fn app_updated(pre: App, msg: AppMsg, next: App, ret: ReturnModel<AppMsg>) -> bool {
    match msg {
        AppMsg::ConnectorsMsg(m) => {
            &&& next == (App { connectors: next.connectors, ..pre })
            &&& exists|inner: ReturnModel<ConnectorsMsg>|
                #![auto]
                pre.connectors.update_spec(m, next.connectors, inner) && ret == map_return(
                    inner,
                    &WrapConnectors,
                )
        },
        AppMsg::ShowLaunchBar => {
            &&& next == (App { launch_bar_visible: true, focus: AppFocus::LaunchBar, ..pre })
            &&& ret == empty_return::<AppMsg>()
        },
        AppMsg::HideLaunchBar => {
            &&& next == (App {
                launch_bar: next.launch_bar,
                launch_bar_visible: false,
                focus: AppFocus::ConnectorList,
                ..pre
            })
            &&& bar_cleared(pre.launch_bar, next.launch_bar)
            &&& ret == empty_return::<AppMsg>()
        },
        AppMsg::LaunchBarMsg(m) => {
            &&& next == (App { launch_bar: next.launch_bar, ..pre })
            &&& exists|inner: ReturnModel<LaunchBarMsg>|
                #![auto]
                pre.launch_bar.update_spec(m, next.launch_bar, inner) && ret == map_return(
                    inner,
                    &WrapLaunchBar,
                )
        },
        AppMsg::HeaderMsg(m) => {
            &&& next == (App { header: next.header, ..pre })
            &&& exists|inner: ReturnModel<HeaderMsg>|
                #![auto]
                pre.header.update_spec(m, next.header, inner) && ret == map_return(
                    inner,
                    &WrapHeader,
                )
        },
        AppMsg::RoutingMsg(nav) => routed(pre, nav, next, ret),
        AppMsg::ChangeSheet => sheet_changed(pre, next) && ret == empty_return::<AppMsg>(),
        AppMsg::NontificationMsg(NotificationMsg::Show(noty)) => {
            &&& next == (App { footer: shown(pre.footer, noty), ..pre })
            &&& timer_spec(noty.timeout, ret)
        },
        AppMsg::NontificationMsg(NotificationMsg::Clear) => {
            &&& next == (App { footer: cleared(pre.footer), ..pre })
            &&& ret == empty_return::<AppMsg>()
        },
        _ => {
            let (kind, m) = screen_msg(msg)->Some_0;
            &&& screen_msg(msg) is Some
            &&& next == with_screen(pre, kind, screen_of(next, kind))
            &&& exists|inner: ReturnModel<ResourcesMsg>|
                #![auto]
                screen_of(pre, kind).update_spec(m, screen_of(next, kind), inner) && ret
                    == map_return(inner, &(WrapScreen { kind }))
        },
    }
}

/// What the component that owns the keyboard makes of a raw event, as messages of
/// the root.
pub open spec fn focused_event(app: App, evt: ComponentEvent, msgs: Seq<ComponentMsg<AppMsg>>) -> bool {
    match app.focus {
        AppFocus::ConnectorList => exists|inner: Seq<ComponentMsg<ConnectorsMsg>>|
            #![auto]
            app.connectors.event_spec(evt, inner) && msgs == map_msgs(inner, &WrapConnectors),
        AppFocus::LaunchBar => exists|inner: Seq<ComponentMsg<LaunchBarMsg>>|
            #![auto]
            app.launch_bar.event_spec(evt, inner) && msgs == map_msgs(inner, &WrapLaunchBar),
        _ => {
            let kind = kind_of_focus(app.focus)->Some_0;
            exists|inner: Seq<ComponentMsg<ResourcesMsg>>|
                #![auto]
                screen_of(app, kind).event_spec(evt, inner) && msgs == map_msgs(
                    inner,
                    &(WrapScreen { kind }),
                )
        },
    }
}

/// What a key means to the root itself: a colon opens the launch bar.
pub open spec fn app_key_spec(key: KeyEvent) -> Seq<ComponentMsg<AppMsg>> {
    if key.code == KeyCode::Char(':') {
        seq![ComponentMsg(AppMsg::ShowLaunchBar)]
    } else {
        Seq::empty()
    }
}

/// What a raw event means to the root. The component that owns the keyboard comes
/// first; if it makes nothing of the event the header is asked; if the header makes
/// nothing of it either, a pressed key goes to the root itself.
pub open spec fn app_event(app: App, evt: ComponentEvent, msgs: Seq<ComponentMsg<AppMsg>>) -> bool {
    exists|focused: Seq<ComponentMsg<AppMsg>>|
        #![trigger focused_event(app, evt, focused)]
        focused_event(app, evt, focused) && if focused.len() > 0 {
            msgs == focused
        } else {
            let header = map_msgs(crate::header::header_event_spec(evt), &WrapHeader);
            if header.len() > 0 {
                msgs == header
            } else if evt is Key && evt->Key_0.kind == KeyEventKind::Press {
                msgs == app_key_spec(evt->Key_0)
            } else {
                msgs == Seq::<ComponentMsg<AppMsg>>::empty()
            }
        }
}

/// What the dispatcher answers to an action. Escape closes the launch bar while it
/// owns the keyboard; a navigation is routed; a refresh of the header and a
/// notification are passed on as messages; everything else is let go.
pub open spec fn app_action(focus: AppFocus, action: Action) -> Seq<ComponentMsg<AppMsg>> {
    match action {
        Action::Esc => if focus == AppFocus::LaunchBar {
            seq![ComponentMsg(AppMsg::HideLaunchBar)]
        } else {
            Seq::empty()
        },
        Action::NavTo(nav) => seq![ComponentMsg(AppMsg::RoutingMsg(nav))],
        Action::ChangeSheet => seq![ComponentMsg(AppMsg::ChangeSheet)],
        Action::Notification(noty) => seq![
            ComponentMsg(AppMsg::NontificationMsg(NotificationMsg::Show(noty))),
        ],
        Action::Quit => Seq::empty(),
    }
}

/// The status of a connector and how to authenticate against it, given its
/// configuration and the token found for its alias, if one was looked for and found.
pub open spec fn auth_spec(cfg: ConnectorConfig, token: Option<String>, out: (ConnectorStatus, Auth)) -> bool {
    match cfg.auth {
        AuthKind::NoAuth => out == (ConnectorStatus::Connected, Auth::NoAuth),
        AuthKind::Token { token_alias } => match token {
            Some(t) => out == (ConnectorStatus::Connected, Auth::ApiToken(t)),
            None => {
                &&& out.0 is Custom
                &&& out.0->Custom_0@ == "Token not found for alias "@ + token_alias@
                &&& out.1 == Auth::NoAuth
            },
        },
    }
}

/// The token found for the connector at position `i`, if there is one.
pub open spec fn token_at(tokens: Seq<Option<String>>, i: int) -> Option<String> {
    if 0 <= i < tokens.len() {
        tokens[i]
    } else {
        None
    }
}

impl App {
    /// The launch bar is well formed.
    pub open spec fn wf(self) -> bool {
        self.launch_bar.wf()
    }

    /// Decides how to authenticate against a connector.
    pub fn auth(cfg: &ConnectorConfig, token: Option<String>) -> (out: (ConnectorStatus, Auth))
        ensures
            auth_spec(*cfg, token, out),
    {
        match cfg.auth() {
            AuthKind::NoAuth => (ConnectorStatus::Connected, Auth::NoAuth),
            AuthKind::Token { token_alias } => {
                match token {
                    Some(pwd) => (ConnectorStatus::Connected, Auth::api_token(pwd)),
                    None => (ConnectorStatus::token_not_found(token_alias.as_str()), Auth::NoAuth),
                }
            },
        }
    }

    /// The connector of a configuration, with the status that `auth` gives it.
    pub fn init_connector(cfg: ConnectorConfig, token: Option<String>) -> (out: (Connector, Auth))
        ensures
            out.0.config == cfg,
            auth_spec(cfg, token, (out.0.status, out.1)),
    {
        let (status, auth) = Self::auth(&cfg, token);
        (Connector::new(cfg, status), auth)
    }

    /// The root for a list of connectors: the connector list has the keyboard, the
    /// launch bar is hidden, nothing is shown in the footer, and each resource screen
    /// fetches from its own collection.
    pub fn init_with_connectors(connectors: Vec<Connector>) -> (out: App)
        ensures
            out.wf(),
            out.focus == AppFocus::ConnectorList,
            !out.launch_bar_visible,
            crate::launch_bar::empty_prompt(out.launch_bar),
            out.footer == (Footer { noty: None, noty_counter: 0 }),
            out.header.menu == Menu::Connectors,
            out.header.sheet.wf(),
            out.header.sheet@ == merged(connectors_sheet(out.connectors.selected), app_sheet()),
            out.connectors.selected == if connectors@.len() > 0 {
                Some(connectors@[0])
            } else {
                None::<Connector>
            },
            out.connectors.table.elements@.len() == connectors@.len(),
            forall|i: int|
                0 <= i < connectors@.len() ==> (#[trigger] out.connectors.table.elements@[i]).0
                    == connectors@[i],
            forall|kind: ResourceKind|
                {
                    &&& (#[trigger] screen_of(out, kind)).kind == kind
                    &&& screen_of(out, kind).on_fetch == Some(kind)
                    &&& screen_of(out, kind).connector is None
                    &&& screen_of(out, kind).focus == crate::resources::Focus::ResourceList
                    &&& screen_of(out, kind).page_size == crate::resources::PAGE_SIZE
                    &&& screen_of(out, kind).table.elements@.len() == 0
                },
    {
        let connectors = ConnectorsComponent::new(connectors);
        let sheet = connectors.info_sheet().merge(Self::info_sheet());
        App {
            connectors,
            policies: ResourcesComponent::new(ResourceKind::Policies).on_fetch(
                ResourceKind::Policies,
            ),
            assets: ResourcesComponent::new(ResourceKind::Assets).on_fetch(ResourceKind::Assets),
            contract_definitions: ResourcesComponent::new(
                ResourceKind::ContractDefinitions,
            ).on_fetch(ResourceKind::ContractDefinitions),
            contract_negotiations: ResourcesComponent::new(
                ResourceKind::ContractNegotiations,
            ).on_fetch(ResourceKind::ContractNegotiations),
            transfer_processes: ResourcesComponent::new(ResourceKind::TransferProcesses).on_fetch(
                ResourceKind::TransferProcesses,
            ),
            launch_bar: LaunchBar::default(),
            launch_bar_visible: false,
            focus: AppFocus::ConnectorList,
            footer: Footer::default(),
            header: HeaderComponent::with_sheet(sheet),
        }
    }

    /// The root for a configuration. `tokens` holds, connector by connector, the token
    /// that was found for the connector, if one was looked for and found; of a
    /// connector beyond the end of `tokens` none was found. Beside the root stands, for
    /// each connector, how to authenticate against it.
    pub fn init(cfg: Config, tokens: Vec<Option<String>>) -> (out: (App, Vec<Auth>))
        ensures
            out.0.wf(),
            out.0.focus == AppFocus::ConnectorList,
            !out.0.launch_bar_visible,
            out.0.header.menu == Menu::Connectors,
            out.1@.len() == cfg.connectors@.len(),
            out.0.connectors.table.elements@.len() == cfg.connectors@.len(),
            forall|i: int|
                0 <= i < cfg.connectors@.len() ==> {
                    let connector = (#[trigger] out.0.connectors.table.elements@[i]).0;
                    &&& connector.config == cfg.connectors@[i]
                    &&& auth_spec(
                        cfg.connectors@[i],
                        token_at(tokens@, i),
                        (connector.status, out.1@[i]),
                    )
                },
    {
        let ghost configs = cfg.connectors@;
        let ghost found = tokens@;
        let mut rest = cfg.connectors;
        let mut tokens = tokens;
        let mut connectors: Vec<Connector> = Vec::new();
        let mut auths: Vec<Auth> = Vec::new();
        while rest.len() > 0
            invariant
                connectors@.len() + rest@.len() == configs.len(),
                auths@.len() == connectors@.len(),
                rest@ == configs.skip(connectors@.len() as int),
                tokens@ == found.skip(
                    if connectors@.len() <= found.len() {
                        connectors@.len() as int
                    } else {
                        found.len() as int
                    },
                ),
                forall|i: int|
                    0 <= i < connectors@.len() ==> {
                        &&& (#[trigger] connectors@[i]).config == configs[i]
                        &&& auth_spec(configs[i], token_at(found, i), (connectors@[i].status, auths@[i]))
                    },
            decreases rest.len(),
        {
            let ghost at = connectors@.len() as int;
            let connector_cfg = rest.remove(0);
            let token = if tokens.len() > 0 {
                tokens.remove(0)
            } else {
                None
            };
            assert(token == token_at(found, at));
            let (connector, auth) = Self::init_connector(connector_cfg, token);
            connectors.push(connector);
            auths.push(auth);
            assert(rest@ =~= configs.skip(connectors@.len() as int));
            assert(tokens@ =~= found.skip(
                if connectors@.len() <= found.len() {
                    connectors@.len() as int
                } else {
                    found.len() as int
                },
            ));
        }
        (Self::init_with_connectors(connectors), auths)
    }

    /// The keys that do something everywhere.
    pub fn info_sheet() -> (out: InfoSheet)
        ensures
            out.wf(),
            out@ == app_sheet(),
    {
        InfoSheet::default().key_binding("<tab>", "Switch menu").key_binding(
            "<esc>",
            "Back/Clear",
        ).key_binding("<:>", "Launch bar").key_binding("<:q>", "Quit")
    }

    /// Shows a notification, and sets the timer that will ask for it to be cleared.
    pub fn show_notification(&mut self, noty: Notification) -> (ret: ComponentReturn<
        AppMsg,
        AppPending,
    >)
        ensures
            *final(self) == (App { footer: shown(old(self).footer, noty), ..*old(self) }),
            timer_spec(noty.timeout, ret@),
    {
        let timeout = noty.timeout();
        self.footer.show_notification(noty);
        ComponentReturn::cmd(
            Command::new(Work::Sleep { seconds: timeout }, AppPending::Timer(ClearTimer)),
        )
    }

    /// Counts one pending clear off the footer.
    pub fn clear_notification(&mut self) -> (ret: ComponentReturn<AppMsg, AppPending>)
        ensures
            *final(self) == (App { footer: cleared(old(self).footer), ..*old(self) }),
            ret@ == empty_return::<AppMsg>(),
    {
        self.footer.clear_notification();
        ComponentReturn::empty()
    }

    /// Refreshes the info sheet of the header.
    pub fn change_sheet(&mut self) -> (ret: ComponentReturn<AppMsg, AppPending>)
        ensures
            sheet_changed(*old(self), *final(self)),
            ret@ == empty_return::<AppMsg>(),
    {
        let component_sheet = match self.header.selected_menu() {
            Menu::Connectors => InfoSheet::default(),
            Menu::Assets => self.assets.info_sheet(),
            Menu::Policies => self.policies.info_sheet(),
            Menu::ContractDefinitions => self.contract_definitions.info_sheet(),
            Menu::ContractNegotiations => self.contract_negotiations.info_sheet(),
            Menu::TransferProcesses => self.transfer_processes.info_sheet(),
        };
        let sheet = self.connectors.info_sheet().merge(Self::info_sheet()).merge(component_sheet);
        self.header.update_sheet(sheet);
        ComponentReturn::empty()
    }

    /// Shows the screen that `nav` names.
    pub fn handle_routing(&mut self, nav: Nav) -> (ret: ComponentReturn<AppMsg, AppPending>)
        requires
            old(self).wf(),
        ensures
            final(self).wf(),
            routed(*old(self), nav, *final(self), ret@),
    {
        self.launch_bar_visible = false;
        self.launch_bar.clear();
        self.header.set_selected_menu(nav.menu());
        let refreshed = self.change_sheet();
        let ghost mid = *self;
        let menu = *self.header.selected_menu();
        let selected = match self.connectors.selected() {
            Some(connector) => Some(connector.clone()),
            None => None,
        };
        match menu {
            Menu::Connectors => {
                self.focus = AppFocus::ConnectorList;
                ComponentReturn::empty()
            },
            Menu::Assets => {
                self.focus = AppFocus::Assets;
                match selected {
                    Some(connector) => forward_init(
                        &mut self.assets,
                        connector,
                        WrapScreen { kind: ResourceKind::Assets },
                    ).with_pending(&HoldScreen),
                    None => ComponentReturn::empty(),
                }
            },
            Menu::Policies => {
                self.focus = AppFocus::Policies;
                match selected {
                    Some(connector) => forward_init(
                        &mut self.policies,
                        connector,
                        WrapScreen { kind: ResourceKind::Policies },
                    ).with_pending(&HoldScreen),
                    None => ComponentReturn::empty(),
                }
            },
            Menu::ContractDefinitions => {
                self.focus = AppFocus::ContractDefinitions;
                match selected {
                    Some(connector) => forward_init(
                        &mut self.contract_definitions,
                        connector,
                        WrapScreen { kind: ResourceKind::ContractDefinitions },
                    ).with_pending(&HoldScreen),
                    None => ComponentReturn::empty(),
                }
            },
            Menu::ContractNegotiations => {
                self.focus = AppFocus::ContractNegotiations;
                match selected {
                    Some(connector) => forward_init(
                        &mut self.contract_negotiations,
                        connector,
                        WrapScreen { kind: ResourceKind::ContractNegotiations },
                    ).with_pending(&HoldScreen),
                    None => ComponentReturn::empty(),
                }
            },
            Menu::TransferProcesses => {
                self.focus = AppFocus::TransferProcesses;
                match selected {
                    Some(connector) => forward_init(
                        &mut self.transfer_processes,
                        connector,
                        WrapScreen { kind: ResourceKind::TransferProcesses },
                    ).with_pending(&HoldScreen),
                    None => ComponentReturn::empty(),
                }
            },
        }
    }

    /// What a key means to the root itself.
    pub fn handle_key(key: KeyEvent) -> (msgs: Vec<ComponentMsg<AppMsg>>)
        ensures
            msgs@ == app_key_spec(key),
    {
        let mut msgs: Vec<ComponentMsg<AppMsg>> = Vec::new();
        match key.code {
            KeyCode::Char(c) => {
                if c == ':' {
                    msgs.push(ComponentMsg(AppMsg::ShowLaunchBar));
                }
            },
            _ => {},
        }
        assert(msgs@ =~= app_key_spec(key));
        msgs
    }

    /// The share of the screen's height, in percent, that the launch bar takes.
    pub fn launch_bar_percentage(&self) -> (out: u16)
        ensures
            out == if self.launch_bar_visible {
                5u16
            } else {
                0u16
            },
    {
        if self.launch_bar_visible {
            5
        } else {
            0
        }
    }
}

impl Component for App {
    type Msg = AppMsg;

    type Props = ();

    type Pending = AppPending;

    open spec fn inv(&self) -> bool {
        self.wf()
    }

    open spec fn init_spec(&self, props: (), next: Self, ret: ReturnModel<AppMsg>) -> bool {
        next == *self && ret == empty_return::<AppMsg>()
    }

    open spec fn update_spec(&self, msg: AppMsg, next: Self, ret: ReturnModel<AppMsg>) -> bool {
        app_updated(*self, msg, next, ret)
    }

    open spec fn event_spec(&self, evt: ComponentEvent, msgs: Seq<ComponentMsg<AppMsg>>) -> bool {
        app_event(*self, evt, msgs)
    }

    fn init(&mut self, props: ()) -> (ret: ComponentReturn<AppMsg, AppPending>) {
        ComponentReturn::empty()
    }

    fn update(&mut self, msg: ComponentMsg<AppMsg>) -> (ret: ComponentReturn<AppMsg, AppPending>) {
        match msg.take() {
            AppMsg::ConnectorsMsg(m) => forward_update(
                &mut self.connectors,
                ComponentMsg(m),
                WrapConnectors,
            ).with_pending(&HoldConnectors),
            AppMsg::ShowLaunchBar => {
                self.launch_bar_visible = true;
                self.focus = AppFocus::LaunchBar;
                ComponentReturn::empty()
            },
            AppMsg::HideLaunchBar => {
                self.launch_bar.clear();
                self.launch_bar_visible = false;
                self.focus = AppFocus::ConnectorList;
                ComponentReturn::empty()
            },
            AppMsg::LaunchBarMsg(m) => forward_update(
                &mut self.launch_bar,
                ComponentMsg(m),
                WrapLaunchBar,
            ).with_pending(&HoldLaunchBar),
            AppMsg::AssetsMsg(m) => forward_update(
                &mut self.assets,
                ComponentMsg(m),
                WrapScreen { kind: ResourceKind::Assets },
            ).with_pending(&HoldScreen),
            AppMsg::PoliciesMsg(m) => forward_update(
                &mut self.policies,
                ComponentMsg(m),
                WrapScreen { kind: ResourceKind::Policies },
            ).with_pending(&HoldScreen),
            AppMsg::ContractDefinitions(m) => forward_update(
                &mut self.contract_definitions,
                ComponentMsg(m),
                WrapScreen { kind: ResourceKind::ContractDefinitions },
            ).with_pending(&HoldScreen),
            AppMsg::ContractNegotiations(m) => forward_update(
                &mut self.contract_negotiations,
                ComponentMsg(m),
                WrapScreen { kind: ResourceKind::ContractNegotiations },
            ).with_pending(&HoldScreen),
            AppMsg::TransferProcesses(m) => forward_update(
                &mut self.transfer_processes,
                ComponentMsg(m),
                WrapScreen { kind: ResourceKind::TransferProcesses },
            ).with_pending(&HoldScreen),
            AppMsg::HeaderMsg(m) => forward_update(
                &mut self.header,
                ComponentMsg(m),
                WrapHeader,
            ).with_pending(&HoldHeader),
            AppMsg::RoutingMsg(nav) => self.handle_routing(nav),
            AppMsg::ChangeSheet => self.change_sheet(),
            AppMsg::NontificationMsg(NotificationMsg::Show(noty)) => self.show_notification(noty),
            AppMsg::NontificationMsg(NotificationMsg::Clear) => self.clear_notification(),
        }
    }

    fn handle_event(&self, evt: ComponentEvent) -> (msgs: Vec<ComponentMsg<AppMsg>>) {
        let focused = match self.focus {
            AppFocus::ConnectorList => forward_event(&self.connectors, evt, WrapConnectors),
            AppFocus::LaunchBar => forward_event(&self.launch_bar, evt, WrapLaunchBar),
            AppFocus::Assets => forward_event(
                &self.assets,
                evt,
                WrapScreen { kind: ResourceKind::Assets },
            ),
            AppFocus::Policies => forward_event(
                &self.policies,
                evt,
                WrapScreen { kind: ResourceKind::Policies },
            ),
            AppFocus::ContractDefinitions => forward_event(
                &self.contract_definitions,
                evt,
                WrapScreen { kind: ResourceKind::ContractDefinitions },
            ),
            AppFocus::ContractNegotiations => forward_event(
                &self.contract_negotiations,
                evt,
                WrapScreen { kind: ResourceKind::ContractNegotiations },
            ),
            AppFocus::TransferProcesses => forward_event(
                &self.transfer_processes,
                evt,
                WrapScreen { kind: ResourceKind::TransferProcesses },
            ),
        };
        assert(focused_event(*self, evt, focused@));
        if focused.len() > 0 {
            return focused;
        }
        let header = forward_event(&self.header, evt, WrapHeader);
        if header.len() > 0 {
            return header;
        }
        match evt {
            ComponentEvent::Key(key) => {
                match key.kind {
                    KeyEventKind::Press => Self::handle_key(key),
                    _ => Vec::new(),
                }
            },
            _ => Vec::new(),
        }
    }
}

impl ActionHandler for App {
    open spec fn action_spec(&self, action: Action, next: Self, msgs: Seq<ComponentMsg<AppMsg>>) -> bool {
        next == *self && msgs == app_action(self.focus, action)
    }

    fn handle_action(&mut self, action: Action) -> (msgs: Vec<ComponentMsg<AppMsg>>) {
        let mut msgs: Vec<ComponentMsg<AppMsg>> = Vec::new();
        match action {
            Action::Esc => {
                match self.focus {
                    AppFocus::LaunchBar => {
                        msgs.push(ComponentMsg(AppMsg::HideLaunchBar));
                    },
                    _ => {},
                }
            },
            Action::NavTo(nav) => {
                msgs.push(ComponentMsg(AppMsg::RoutingMsg(nav)));
            },
            Action::ChangeSheet => {
                msgs.push(ComponentMsg(AppMsg::ChangeSheet));
            },
            Action::Notification(noty) => {
                msgs.push(ComponentMsg(AppMsg::NontificationMsg(NotificationMsg::Show(noty))));
            },
            Action::Quit => {},
        }
        assert(msgs@ =~= app_action(self.focus, action));
        msgs
    }
}

/// Exactly one component owns the keyboard, and the launch bar hands it on only
/// after being cleared: whenever a message takes the keyboard from the launch bar,
/// the bar has been reset, and a bar of one line with no selection under way then
/// shows the empty prompt.
pub proof fn lemma_leaving_launch_bar_clears(
    pre: App,
    msg: AppMsg,
    next: App,
    ret: ReturnModel<AppMsg>,
)
    requires
        pre.update_spec(msg, next, ret),
        pre.focus == AppFocus::LaunchBar,
        next.focus != AppFocus::LaunchBar,
    ensures
        bar_cleared(pre.launch_bar, next.launch_bar),
        crate::launch_bar::plain_line(pre.launch_bar) ==> crate::launch_bar::empty_prompt(
            next.launch_bar,
        ),
{
    match msg {
        AppMsg::AssetsMsg(_) => {},
        AppMsg::PoliciesMsg(_) => {},
        AppMsg::ContractDefinitions(_) => {},
        AppMsg::ContractNegotiations(_) => {},
        AppMsg::TransferProcesses(_) => {},
        _ => {},
    }
}

/// The keyboard changes hands only by the three messages that say so: opening the
/// launch bar, closing it, and routing to a screen.
pub proof fn lemma_focus_changes_only_by_transition(
    pre: App,
    msg: AppMsg,
    next: App,
    ret: ReturnModel<AppMsg>,
)
    requires
        pre.update_spec(msg, next, ret),
        next.focus != pre.focus,
    ensures
        msg is ShowLaunchBar || msg is HideLaunchBar || msg is RoutingMsg,
{
    match msg {
        AppMsg::AssetsMsg(_) => {},
        AppMsg::PoliciesMsg(_) => {},
        AppMsg::ContractDefinitions(_) => {},
        AppMsg::ContractNegotiations(_) => {},
        AppMsg::TransferProcesses(_) => {},
        _ => {},
    }
}

} // verus!
