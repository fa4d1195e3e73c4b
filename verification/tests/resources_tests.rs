use edc_connector::action::Action;
use edc_connector::command::Outcome;
use edc_connector::command::Work;
use edc_connector::component::Component;
use edc_connector::config::AuthKind;
use edc_connector::config::ConnectorConfig;
use edc_connector::connector::Connector;
use edc_connector::connector::ConnectorStatus;
use edc_connector::envelope::ComponentMsg;
use edc_connector::event::ComponentEvent;
use edc_connector::event::KeyCode;
use edc_connector::event::KeyEvent;
use edc_connector::notification::NotificationKind;
use edc_connector::query::Query;
use edc_connector::record::Field;
use edc_connector::record::Resource;
use edc_connector::record::ResourceKind;
use edc_connector::resources::Focus;
use edc_connector::resources::ResourcesComponent;
use edc_connector::resources::ResourcesMsg;
use edc_connector::table::TableLocalMsg;
use edc_connector::table::TableMsg;

fn connector() -> Connector {
    Connector::new(
        ConnectorConfig::new(
            "local".to_string(),
            "http://localhost:8080".to_string(),
            AuthKind::NoAuth,
        ),
        ConnectorStatus::Connected,
    )
}

fn asset(id: &str) -> Resource {
    Resource::new(
        ResourceKind::Assets,
        id.to_string(),
        vec![id.to_string(), "{}".to_string(), "{}".to_string(), "{}".to_string()],
        vec![Field::string("id", id), Field::json("properties", "{}".to_string())],
    )
}

fn page(count: usize) -> Vec<Resource> {
    let mut out = Vec::new();
    for i in 0..count {
        out.push(asset(&format!("asset-{}", i)));
    }
    out
}

fn bound_screen() -> ResourcesComponent {
    let mut screen = ResourcesComponent::new(ResourceKind::Assets).on_fetch(ResourceKind::Assets);
    let _ = screen.init(connector());
    screen
}

fn key(code: KeyCode) -> ComponentEvent {
    ComponentEvent::Key(KeyEvent::press(code))
}

#[test]
fn list_screen_from_fetch_to_detail_and_back() {
    let mut screen = ResourcesComponent::new(ResourceKind::Assets).on_fetch(ResourceKind::Assets);
    assert_eq!(screen.page_size, 50);

    let ret = screen.init(connector());
    assert!(ret.msgs.is_empty());
    assert!(ret.actions.is_empty());
    assert_eq!(ret.cmds.len(), 1);
    match ret.cmds[0].work() {
        Work::Fetch { connector, kind, query } => {
            assert_eq!(connector.config().name(), "local");
            assert_eq!(*kind, ResourceKind::Assets);
            assert_eq!(query.offset(), 0);
            assert_eq!(query.limit(), 50);
        }
        _ => panic!("a fetch was expected"),
    }

    let mut delivered = ret.cmds[0].complete(Outcome::Fetched(page(2)));
    assert_eq!(delivered.len(), 1);
    let fetched = delivered.remove(0);
    let ret = screen.update(fetched);
    assert!(ret.msgs.is_empty() && ret.cmds.is_empty() && ret.actions.is_empty());
    assert_eq!(screen.table.elements.len(), 2);
    assert_eq!(screen.focus(), Focus::ResourceList);

    let mut msgs = screen.handle_event(key(KeyCode::Enter));
    assert_eq!(msgs.len(), 1);
    let selected = msgs.remove(0);
    let ret = screen.update(selected);
    assert_eq!(screen.focus(), Focus::Resource);
    assert_eq!(screen.resource.resource.as_ref().map(|r| r.id.as_str()), Some("asset-0"));
    assert_eq!(ret.actions.len(), 1);
    assert!(matches!(ret.actions[0], Action::ChangeSheet));
    assert!(ret.msgs.is_empty() && ret.cmds.is_empty());

    let mut msgs = screen.handle_event(key(KeyCode::Esc));
    assert_eq!(msgs.len(), 1);
    let back = msgs.remove(0);
    assert!(matches!(back.0, ResourcesMsg::Back));
    let ret = screen.update(back);
    assert_eq!(screen.focus(), Focus::ResourceList);
    assert_eq!(ret.actions.len(), 1);
    assert!(matches!(ret.actions[0], Action::ChangeSheet));
}

#[test]
fn next_page_on_a_short_page_does_nothing() {
    let mut screen = bound_screen();
    let _ = screen.update(ComponentMsg::wrap(ResourcesMsg::ResourcesFetched(page(2))));
    let ret = screen.update(ComponentMsg::wrap(ResourcesMsg::NextPage));
    assert!(ret.cmds.is_empty() && ret.msgs.is_empty() && ret.actions.is_empty());
    assert_eq!(screen.query().offset(), 0);
}

#[test]
fn next_page_on_a_full_page_fetches_the_next_fifty() {
    let mut screen = bound_screen();
    let _ = screen.update(ComponentMsg::wrap(ResourcesMsg::ResourcesFetched(page(50))));
    let ret = screen.update(ComponentMsg::wrap(ResourcesMsg::NextPage));
    assert_eq!(screen.query().offset(), 50);
    assert_eq!(ret.cmds.len(), 1);
    match ret.cmds[0].work() {
        Work::Fetch { query, .. } => assert_eq!(query.offset(), 50),
        _ => panic!("a fetch was expected"),
    }
}

#[test]
fn prev_page_at_offset_zero_does_nothing() {
    let mut screen = bound_screen();
    let ret = screen.update(ComponentMsg::wrap(ResourcesMsg::PrevPage));
    assert!(ret.cmds.is_empty() && ret.msgs.is_empty() && ret.actions.is_empty());
    assert_eq!(screen.query().offset(), 0);
}

#[test]
fn prev_page_goes_back_one_page() {
    let mut screen = bound_screen();
    screen.query = Query::builder().offset(100).build();
    let ret = screen.update(ComponentMsg::wrap(ResourcesMsg::PrevPage));
    assert_eq!(screen.query().offset(), 50);
    assert_eq!(ret.cmds.len(), 1);
}

#[test]
fn prev_page_from_a_small_offset_stops_at_zero() {
    let mut screen = bound_screen();
    screen.query = Query::builder().offset(20).build();
    let ret = screen.update(ComponentMsg::wrap(ResourcesMsg::PrevPage));
    assert_eq!(screen.query().offset(), 0);
    assert_eq!(ret.cmds.len(), 1);
}

#[test]
fn refresh_fetches_the_same_page() {
    let mut screen = bound_screen();
    screen.query = Query::builder().offset(150).limit(50).build();
    let ret = screen.update(ComponentMsg::wrap(ResourcesMsg::RefreshPage));
    assert_eq!(screen.query().offset(), 150);
    assert_eq!(ret.cmds.len(), 1);
    match ret.cmds[0].work() {
        Work::Fetch { query, .. } => assert_eq!(query.offset(), 150),
        _ => panic!("a fetch was expected"),
    }
}

#[test]
fn an_unbound_screen_fetches_nothing() {
    let mut screen = ResourcesComponent::new(ResourceKind::Policies);
    let ret = screen.init(connector());
    assert!(ret.cmds.is_empty());
    let screen = ResourcesComponent::new(ResourceKind::Policies).on_fetch(ResourceKind::Policies);
    assert!(screen.fetch().cmds.is_empty());
}

#[test]
fn a_failed_fetch_becomes_an_error_notification() {
    let mut screen = ResourcesComponent::new(ResourceKind::Assets).on_fetch(ResourceKind::Assets);
    let ret = screen.init(connector());
    let mut delivered = ret.cmds[0].complete(Outcome::Failed("connection refused".to_string()));
    assert_eq!(delivered.len(), 1);
    let failed = delivered.remove(0);
    assert!(matches!(&failed.0, ResourcesMsg::ResourcesFetchFailed(e) if e == "connection refused"));
    let ret = screen.update(failed);
    assert_eq!(ret.actions.len(), 1);
    match &ret.actions[0] {
        Action::Notification(noty) => {
            assert_eq!(noty.msg(), "connection refused");
            assert_eq!(*noty.kind(), NotificationKind::Error);
            assert_eq!(noty.timeout(), 5);
        }
        _ => panic!("a notification was expected"),
    }
    assert!(screen.table.elements.is_empty());
}

#[test]
fn a_fetch_that_only_elapsed_delivers_nothing() {
    let mut screen = ResourcesComponent::new(ResourceKind::Assets).on_fetch(ResourceKind::Assets);
    let ret = screen.init(connector());
    assert!(ret.cmds[0].complete(Outcome::Elapsed).is_empty());
}

#[test]
fn list_keys_turn_pages() {
    let screen = bound_screen();
    let msgs = screen.handle_event(key(KeyCode::Char('n')));
    assert!(matches!(msgs[0].0, ResourcesMsg::NextPage));
    let msgs = screen.handle_event(key(KeyCode::Char('p')));
    assert!(matches!(msgs[0].0, ResourcesMsg::PrevPage));
    let msgs = screen.handle_event(key(KeyCode::Char('r')));
    assert!(matches!(msgs[0].0, ResourcesMsg::RefreshPage));
    let msgs = screen.handle_event(key(KeyCode::Char('j')));
    assert!(matches!(
        msgs[0].0,
        ResourcesMsg::TableEvent(TableMsg::Local(TableLocalMsg::MoveDown))
    ));
    assert!(screen.handle_event(key(KeyCode::Char('x'))).is_empty());
    assert!(screen.handle_event(ComponentEvent::Other).is_empty());
}

#[test]
fn enter_on_an_empty_list_selects_nothing() {
    let screen = bound_screen();
    assert!(screen.handle_event(key(KeyCode::Enter)).is_empty());
}

#[test]
fn table_messages_move_the_selection_of_the_list() {
    let mut screen = bound_screen();
    let _ = screen.update(ComponentMsg::wrap(ResourcesMsg::ResourcesFetched(page(3))));
    let down = ResourcesMsg::TableEvent(TableMsg::Local(TableLocalMsg::MoveDown));
    let _ = screen.update(ComponentMsg::wrap(down));
    assert_eq!(screen.table.selected(), Some(1));
    let mut msgs = screen.handle_event(key(KeyCode::Enter));
    let _ = screen.update(msgs.remove(0));
    assert_eq!(screen.resource.resource.as_ref().map(|r| r.id.as_str()), Some("asset-1"));
}

#[test]
fn info_sheet_follows_the_focus() {
    let mut screen = bound_screen();
    let sheet = screen.info_sheet();
    let keys: Vec<String> = sheet.iter_key_bindings().into_iter().map(|(k, _)| k).collect();
    assert_eq!(keys, vec!["<j/down>", "<k/down>", "<n>", "<p>", "<r>"]);
    let _ = screen.update(ComponentMsg::wrap(ResourcesMsg::ResourceSelected(asset("a"))));
    let sheet = screen.info_sheet();
    let keys: Vec<String> = sheet.iter_key_bindings().into_iter().map(|(k, _)| k).collect();
    assert_eq!(keys, vec!["<j/down>", "<k/down>", "<y>"]);
}

#[test]
fn the_status_line_follows_the_query() {
    let mut screen = bound_screen();
    assert_eq!(screen.render_footer(), "Offset: 0 | Limit: 50 | Sort: None | Filter: []");
    let _ = screen.update(ComponentMsg::wrap(ResourcesMsg::ResourcesFetched(page(50))));
    let _ = screen.update(ComponentMsg::wrap(ResourcesMsg::NextPage));
    assert_eq!(screen.render_footer(), "Offset: 50 | Limit: 50 | Sort: None | Filter: []");
}
