use edc_connector::application::App;
use edc_connector::application::AppFocus;
use edc_connector::application::AppMsg;
use edc_connector::client::Auth;
use edc_connector::command::Work;
use edc_connector::component::Component;
use edc_connector::config::AuthKind;
use edc_connector::config::ConnectorConfig;
use edc_connector::connector::Connector;
use edc_connector::connector::ConnectorStatus;
use edc_connector::connectors::ConnectorsMsg;
use edc_connector::envelope::ComponentMsg;
use edc_connector::event::ComponentEvent;
use edc_connector::event::KeyCode;
use edc_connector::event::KeyEvent;
use edc_connector::event::KeyEventKind;
use edc_connector::header::HeaderMsg;
use edc_connector::launch_bar::LaunchBarMsg;
use edc_connector::nav::Menu;
use edc_connector::nav::Nav;
use edc_connector::notification::Notification;
use edc_connector::notification::NotificationMsg;
use edc_connector::record::ResourceKind;
use edc_connector::resources::Focus;
use edc_connector::resources::ResourcesMsg;
use edc_connector::table::TableLocalMsg;
use edc_connector::table::TableMsg;

fn connector(name: &str) -> Connector {
    Connector::new(
        ConnectorConfig::new(name.to_string(), format!("http://{}", name), AuthKind::NoAuth),
        ConnectorStatus::Connected,
    )
}

fn app() -> App {
    App::init_with_connectors(vec![connector("one"), connector("two")])
}

fn key(code: KeyCode) -> ComponentEvent {
    ComponentEvent::Key(KeyEvent::press(code))
}

fn type_into_bar(app: &mut App, text: &str) {
    for c in text.chars() {
        for m in app.handle_event(key(KeyCode::Char(c))) {
            let _ = app.update(m);
        }
    }
}

fn keys_of(pairs: Vec<(String, String)>) -> Vec<String> {
    pairs.into_iter().map(|(k, _)| k).collect()
}

#[test]
fn the_root_starts_on_the_connector_list() {
    let app = app();
    assert_eq!(app.focus, AppFocus::ConnectorList);
    assert!(!app.launch_bar_visible);
    assert_eq!(app.launch_bar_percentage(), 0);
    assert_eq!(*app.header.selected_menu(), Menu::Connectors);
    assert_eq!(app.connectors.selected().map(|c| c.config().name()), Some("one"));
    assert_eq!(app.launch_bar.lines(), vec![" $> ".to_string()]);
    assert_eq!(app.footer.content(), "");
    assert_eq!(app.assets.kind, ResourceKind::Assets);
    assert_eq!(app.transfer_processes.on_fetch, Some(ResourceKind::TransferProcesses));
    let info = app.header.sheet().iter_info();
    assert_eq!(
        info,
        vec![
            ("Connector Address".to_string(), "http://one".to_string()),
            ("Connector Name".to_string(), "one".to_string()),
        ]
    );
    assert_eq!(
        keys_of(app.header.sheet().iter_key_bindings()),
        vec!["<:>", "<:q>", "<esc>", "<tab>"]
    );
}

#[test]
fn a_root_without_connectors_shows_placeholders() {
    let app = App::init_with_connectors(vec![]);
    assert!(app.connectors.selected().is_none());
    assert_eq!(
        app.header.sheet().iter_info(),
        vec![
            ("Connector Address".to_string(), "n/a".to_string()),
            ("Connector Name".to_string(), "n/a".to_string()),
        ]
    );
}

#[test]
fn a_colon_opens_the_launch_bar_and_escape_closes_and_clears_it() {
    let mut app = app();
    let msgs = app.handle_event(key(KeyCode::Char(':')));
    assert_eq!(msgs.len(), 1);
    assert!(matches!(msgs[0].0, AppMsg::ShowLaunchBar));
    for m in msgs {
        let _ = app.update(m);
    }
    assert_eq!(app.focus, AppFocus::LaunchBar);
    assert!(app.launch_bar_visible);
    assert_eq!(app.launch_bar_percentage(), 5);

    type_into_bar(&mut app, "pol");
    assert_eq!(app.launch_bar.current(), "pol");

    let msgs = app.handle_event(key(KeyCode::Esc));
    assert_eq!(msgs.len(), 1);
    assert!(matches!(msgs[0].0, AppMsg::LaunchBarMsg(LaunchBarMsg::Esc)));
    let ret = app.update(ComponentMsg::wrap(AppMsg::HideLaunchBar));
    assert!(ret.msgs.is_empty() && ret.cmds.is_empty() && ret.actions.is_empty());
    assert_eq!(app.focus, AppFocus::ConnectorList);
    assert!(!app.launch_bar_visible);
    assert_eq!(app.launch_bar.lines(), vec![" $> ".to_string()]);
}

#[test]
fn routing_from_the_launch_bar_clears_it_and_binds_the_screen() {
    let mut app = app();
    let _ = app.update(ComponentMsg::wrap(AppMsg::ShowLaunchBar));
    type_into_bar(&mut app, "policies");
    let ret = app.update(ComponentMsg::wrap(AppMsg::RoutingMsg(Nav::PoliciesList)));
    assert_eq!(app.focus, AppFocus::Policies);
    assert!(!app.launch_bar_visible);
    assert_eq!(app.launch_bar.lines(), vec![" $> ".to_string()]);
    assert_eq!(*app.header.selected_menu(), Menu::Policies);
    assert_eq!(app.policies.connector.as_ref().map(|c| c.config().name()), Some("one"));
    assert!(app.assets.connector.is_none());
    assert_eq!(ret.cmds.len(), 1);
    match ret.cmds[0].work() {
        Work::Fetch { kind, connector, .. } => {
            assert_eq!(*kind, ResourceKind::Policies);
            assert_eq!(connector.config().address(), "http://one");
        }
        _ => panic!("a fetch was expected"),
    }
    assert_eq!(
        keys_of(app.header.sheet().iter_key_bindings()),
        vec!["<:>", "<:q>", "<esc>", "<j/down>", "<k/down>", "<n>", "<p>", "<r>", "<tab>"]
    );
}

#[test]
fn routing_to_the_connector_list_fetches_nothing() {
    let mut app = app();
    let _ = app.update(ComponentMsg::wrap(AppMsg::RoutingMsg(Nav::AssetsList)));
    let ret = app.update(ComponentMsg::wrap(AppMsg::RoutingMsg(Nav::ConnectorsList)));
    assert!(ret.cmds.is_empty());
    assert_eq!(app.focus, AppFocus::ConnectorList);
    assert_eq!(*app.header.selected_menu(), Menu::Connectors);
}

#[test]
fn routing_without_a_connector_fetches_nothing() {
    let mut app = App::init_with_connectors(vec![]);
    let ret = app.update(ComponentMsg::wrap(AppMsg::RoutingMsg(Nav::TransferProcesses)));
    assert!(ret.cmds.is_empty());
    assert_eq!(app.focus, AppFocus::TransferProcesses);
    assert!(app.transfer_processes.connector.is_none());
}

#[test]
fn every_screen_can_be_routed_to() {
    for (nav, focus, menu) in [
        (Nav::AssetsList, AppFocus::Assets, Menu::Assets),
        (Nav::PoliciesList, AppFocus::Policies, Menu::Policies),
        (Nav::ContractDefinitionsList, AppFocus::ContractDefinitions, Menu::ContractDefinitions),
        (Nav::ContractNegotiations, AppFocus::ContractNegotiations, Menu::ContractNegotiations),
        (Nav::TransferProcesses, AppFocus::TransferProcesses, Menu::TransferProcesses),
    ] {
        let mut app = app();
        let ret = app.handle_routing(nav);
        assert_eq!(app.focus, focus);
        assert_eq!(*app.header.selected_menu(), menu);
        assert_eq!(ret.cmds.len(), 1);
    }
}

#[test]
fn tab_moves_to_the_next_tab_through_the_header() {
    let mut app = app();
    let press = ComponentEvent::Key(KeyEvent::press(KeyCode::Tab));
    let msgs = app.handle_event(press);
    assert_eq!(msgs.len(), 1);
    assert!(matches!(msgs[0].0, AppMsg::HeaderMsg(HeaderMsg::NextTab)));
    let released = ComponentEvent::Key(KeyEvent {
        code: KeyCode::Tab,
        ctrl: false,
        alt: false,
        shift: false,
        kind: KeyEventKind::Release,
    });
    assert!(app.handle_event(released).is_empty());
    let mut all = msgs;
    let ret = app.update(all.remove(0));
    assert_eq!(*app.header.selected_menu(), Menu::Assets);
    assert_eq!(ret.actions.len(), 1);
    assert!(matches!(ret.actions[0], edc_connector::action::Action::NavTo(Nav::AssetsList)));
    assert_eq!(app.focus, AppFocus::ConnectorList);
}

#[test]
fn events_go_to_the_component_that_owns_the_keyboard() {
    let mut app = app();
    let msgs = app.handle_event(key(KeyCode::Char('j')));
    assert!(matches!(
        msgs[0].0,
        AppMsg::ConnectorsMsg(ConnectorsMsg::TableEvent(TableMsg::Local(TableLocalMsg::MoveDown)))
    ));
    let msgs = app.handle_event(key(KeyCode::Enter));
    assert!(matches!(
        &msgs[0].0,
        AppMsg::ConnectorsMsg(ConnectorsMsg::ConnectorSelected(c)) if c.config().name() == "one"
    ));
    let _ = app.update(ComponentMsg::wrap(AppMsg::RoutingMsg(Nav::ContractNegotiations)));
    let msgs = app.handle_event(key(KeyCode::Char('n')));
    assert!(matches!(msgs[0].0, AppMsg::ContractNegotiations(ResourcesMsg::NextPage)));
    let _ = app.update(ComponentMsg::wrap(AppMsg::ShowLaunchBar));
    let msgs = app.handle_event(key(KeyCode::Char('n')));
    assert!(matches!(msgs[0].0, AppMsg::LaunchBarMsg(LaunchBarMsg::AppendCommand(_))));
    assert!(app.handle_event(ComponentEvent::Other).len() == 1);
    app.focus = AppFocus::Assets;
    assert!(app.handle_event(ComponentEvent::Other).is_empty());
    assert!(app.handle_event(key(KeyCode::Char('x'))).is_empty());
}

#[test]
fn messages_for_a_screen_reach_that_screen_only() {
    let mut app = app();
    let _ = app.update(ComponentMsg::wrap(AppMsg::TransferProcesses(ResourcesMsg::ResourcesFetched(
        vec![],
    ))));
    let selected = edc_connector::record::Resource::new(
        ResourceKind::ContractDefinitions,
        "cd".to_string(),
        vec![],
        vec![],
    );
    let ret = app.update(ComponentMsg::wrap(AppMsg::ContractDefinitions(
        ResourcesMsg::ResourceSelected(selected),
    )));
    assert_eq!(app.contract_definitions.focus(), Focus::Resource);
    assert_eq!(app.assets.focus(), Focus::ResourceList);
    assert_eq!(ret.actions.len(), 1);
    assert!(matches!(ret.actions[0], edc_connector::action::Action::ChangeSheet));
}

#[test]
fn the_header_sheet_follows_the_screen_on_request() {
    let mut app = app();
    let _ = app.update(ComponentMsg::wrap(AppMsg::RoutingMsg(Nav::AssetsList)));
    let selected =
        edc_connector::record::Resource::new(ResourceKind::Assets, "a".to_string(), vec![], vec![]);
    let _ = app.update(ComponentMsg::wrap(AppMsg::AssetsMsg(ResourcesMsg::ResourceSelected(selected))));
    let ret = app.update(ComponentMsg::wrap(AppMsg::ChangeSheet));
    assert!(ret.msgs.is_empty() && ret.cmds.is_empty() && ret.actions.is_empty());
    assert_eq!(
        keys_of(app.header.sheet().iter_key_bindings()),
        vec!["<:>", "<:q>", "<esc>", "<j/down>", "<k/down>", "<tab>", "<y>"]
    );
}

#[test]
fn show_and_clear_count_the_notifications() {
    let mut app = app();
    let ret = app.show_notification(Notification::error("A".to_string()));
    assert_eq!(ret.cmds.len(), 1);
    let _ = app.update(ComponentMsg::wrap(AppMsg::NontificationMsg(NotificationMsg::Show(
        Notification::info("B".to_string()),
    ))));
    assert_eq!(app.footer.noty_counter, 2);
    let _ = app.clear_notification();
    assert_eq!(app.footer.content(), "B");
    let _ = app.update(ComponentMsg::wrap(AppMsg::NontificationMsg(NotificationMsg::Clear)));
    assert_eq!(app.footer.content(), "");
    assert_eq!(app.footer.noty_counter, 0);
}

#[test]
fn init_of_the_root_does_nothing() {
    let mut app = app();
    let ret = app.init(());
    assert!(ret.msgs.is_empty() && ret.cmds.is_empty() && ret.actions.is_empty());
    assert_eq!(app.focus, AppFocus::ConnectorList);
}

#[test]
fn authentication_follows_the_configuration_and_the_token() {
    let plain = ConnectorConfig::new("a".to_string(), "http://a".to_string(), AuthKind::NoAuth);
    let (status, auth) = App::auth(&plain, Some("ignored".to_string()));
    assert_eq!(status.as_str(), "connected");
    assert!(matches!(auth, Auth::NoAuth));

    let token =
        ConnectorConfig::new("b".to_string(), "http://b".to_string(), AuthKind::Token {
            token_alias: "alias-b".to_string(),
        });
    let (status, auth) = App::auth(&token, Some("secret".to_string()));
    assert_eq!(status.as_str(), "connected");
    assert!(matches!(auth, Auth::ApiToken(t) if t == "secret"));

    let (status, auth) = App::auth(&token, None);
    assert_eq!(status.as_str(), "Token not found for alias alias-b");
    assert!(matches!(status, ConnectorStatus::Custom(_)));
    assert!(matches!(auth, Auth::NoAuth));

    let (connector, auth) = App::init_connector(token, None);
    assert_eq!(connector.config().name(), "b");
    assert_eq!(connector.status().as_str(), "Token not found for alias alias-b");
    assert!(matches!(auth, Auth::NoAuth));
}

#[test]
fn the_keys_of_the_root() {
    let msgs = App::handle_key(KeyEvent::press(KeyCode::Char(':')));
    assert!(matches!(msgs[0].0, AppMsg::ShowLaunchBar));
    assert!(App::handle_key(KeyEvent::press(KeyCode::Char(';'))).is_empty());
    assert!(App::handle_key(KeyEvent::press(KeyCode::Enter)).is_empty());
}

#[test]
fn the_root_of_a_configuration() {
    let cfg = edc_connector::config::Config {
        connectors: vec![
            ConnectorConfig::new("plain".to_string(), "http://plain".to_string(), AuthKind::NoAuth),
            ConnectorConfig::new(
                "found".to_string(),
                "http://found".to_string(),
                AuthKind::Token { token_alias: "alias-found".to_string() },
            ),
            ConnectorConfig::new(
                "lost".to_string(),
                "http://lost".to_string(),
                AuthKind::Token { token_alias: "alias-lost".to_string() },
            ),
            ConnectorConfig::new(
                "beyond".to_string(),
                "http://beyond".to_string(),
                AuthKind::Token { token_alias: "alias-beyond".to_string() },
            ),
        ],
    };
    let (app, auths) = App::init(cfg, vec![None, Some("secret".to_string()), None]);
    assert_eq!(auths.len(), 4);
    assert!(matches!(auths[0], Auth::NoAuth));
    assert!(matches!(&auths[1], Auth::ApiToken(t) if t == "secret"));
    assert!(matches!(auths[2], Auth::NoAuth));
    assert!(matches!(auths[3], Auth::NoAuth));
    let entries = &app.connectors.table.elements;
    assert_eq!(entries.len(), 4);
    assert_eq!(entries[0].0.status().as_str(), "connected");
    assert_eq!(entries[1].0.status().as_str(), "connected");
    assert_eq!(entries[2].0.status().as_str(), "Token not found for alias alias-lost");
    assert_eq!(entries[3].0.status().as_str(), "Token not found for alias alias-beyond");
    assert_eq!(entries[3].0.config().address(), "http://beyond");
    assert_eq!(app.connectors.selected().map(|c| c.config().name()), Some("plain"));
    assert_eq!(app.focus, AppFocus::ConnectorList);
    let (empty, none) = App::init(edc_connector::config::Config { connectors: vec![] }, vec![]);
    assert!(none.is_empty());
    assert!(empty.connectors.selected().is_none());
}
