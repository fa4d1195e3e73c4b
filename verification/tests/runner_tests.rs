use edc_connector::application::App;
use edc_connector::application::AppFocus;
use edc_connector::application::AppMsg;
use edc_connector::command::Outcome;
use edc_connector::command::Work;
use edc_connector::component::ActionHandler;
use edc_connector::action::Action;
use edc_connector::config::AuthKind;
use edc_connector::config::ConnectorConfig;
use edc_connector::connector::Connector;
use edc_connector::connector::ConnectorStatus;
use edc_connector::envelope::ComponentMsg;
use edc_connector::event::ComponentEvent;
use edc_connector::event::KeyCode;
use edc_connector::event::KeyEvent;
use edc_connector::launch_bar::LaunchBarMsg;
use edc_connector::nav::Menu;
use edc_connector::nav::Nav;
use edc_connector::notification::Notification;
use edc_connector::notification::NotificationMsg;
use edc_connector::record::Field;
use edc_connector::record::Resource;
use edc_connector::record::ResourceKind;
use edc_connector::resources::ResourcesMsg;
use edc_connector::runner::Runner;

fn connector(name: &str) -> Connector {
    Connector::new(
        ConnectorConfig::new(name.to_string(), format!("http://{}", name), AuthKind::NoAuth),
        ConnectorStatus::Connected,
    )
}

fn runner() -> Runner<App> {
    Runner::new(250, App::init_with_connectors(vec![connector("one"), connector("two")]))
}

fn key(code: KeyCode) -> Option<ComponentEvent> {
    Some(ComponentEvent::Key(KeyEvent::press(code)))
}

fn asset(id: &str) -> Resource {
    Resource::new(
        ResourceKind::Assets,
        id.to_string(),
        vec![id.to_string()],
        vec![Field::string("id", id)],
    )
}

#[test]
fn a_new_runner_is_at_rest() {
    let r = runner();
    assert_eq!(r.tick_rate_millis(), 250);
    assert!(!r.should_quit());
    assert!(!r.has_work());
    assert!(r.spawned.is_empty());
    assert_eq!(r.component().focus, AppFocus::ConnectorList);
}

#[test]
fn delivered_messages_come_before_the_messages_of_the_event_in_their_own_order() {
    let mut r = runner();
    let delivered = vec![
        ComponentMsg::wrap(AppMsg::AssetsMsg(ResourcesMsg::ResourcesFetched(vec![asset("a")]))),
        ComponentMsg::wrap(AppMsg::PoliciesMsg(ResourcesMsg::ResourcesFetched(vec![]))),
    ];
    r.begin_tick(delivered, key(KeyCode::Char(':')));
    assert_eq!(r.queue.len(), 3);
    assert!(matches!(r.queue[0].0, AppMsg::AssetsMsg(ResourcesMsg::ResourcesFetched(_))));
    assert!(matches!(r.queue[1].0, AppMsg::PoliciesMsg(ResourcesMsg::ResourcesFetched(_))));
    assert!(matches!(r.queue[2].0, AppMsg::ShowLaunchBar));
    let applied = r.run_queue(usize::MAX);
    assert_eq!(applied, 3);
    assert!(!r.has_work());
    assert_eq!(r.component().assets.table.elements.len(), 1);
    assert_eq!(r.component().focus, AppFocus::LaunchBar);
}

#[test]
fn follow_ups_of_an_update_are_applied_in_the_same_tick_behind_what_was_waiting() {
    let mut r = runner();
    // Selecting a connector emits a navigation action; the dispatcher answers with a
    // routing message, which is applied in this tick, behind the message that was
    // already waiting, and whose fetch command is only started, not answered.
    let delivered = vec![
        ComponentMsg::wrap(AppMsg::ConnectorsMsg(
            edc_connector::connectors::ConnectorsMsg::ConnectorSelected(connector("two")),
        )),
        ComponentMsg::wrap(AppMsg::ShowLaunchBar),
    ];
    r.begin_tick(delivered, None);
    r.step();
    assert_eq!(r.queue.len(), 2);
    assert!(matches!(r.queue[0].0, AppMsg::ShowLaunchBar));
    assert!(matches!(r.queue[1].0, AppMsg::RoutingMsg(Nav::AssetsList)));
    assert_eq!(r.component().connectors.selected.as_ref().map(|c| c.config().name()), Some("two"));
    r.step();
    assert_eq!(r.component().focus, AppFocus::LaunchBar);
    r.step();
    assert!(!r.has_work());
    assert_eq!(r.component().focus, AppFocus::Assets);
    assert_eq!(*r.component().header.selected_menu(), Menu::Assets);
    assert!(!r.component().launch_bar_visible);
    let spawned = r.take_spawned();
    assert!(r.spawned.is_empty());
    assert_eq!(spawned.len(), 1);
    match spawned[0].work() {
        Work::Fetch { connector, kind, query } => {
            assert_eq!(connector.config().name(), "two");
            assert_eq!(*kind, ResourceKind::Assets);
            assert_eq!(query.offset(), 0);
        }
        _ => panic!("a fetch was expected"),
    }
    // What the command delivers enters with the next tick.
    let delivered: Vec<ComponentMsg<AppMsg>> =
        spawned[0].complete(Outcome::Fetched(vec![asset("a"), asset("b")]));
    assert_eq!(delivered.len(), 1);
    r.begin_tick(delivered, None);
    assert_eq!(r.run_queue(10), 1);
    assert_eq!(r.component().assets.table.elements.len(), 2);
}

#[test]
fn a_quit_action_stops_the_run() {
    let mut r = runner();
    r.begin_tick(vec![ComponentMsg::wrap(AppMsg::LaunchBarMsg(LaunchBarMsg::Quit))], None);
    r.step();
    assert!(r.should_quit());
    assert!(!r.has_work());
}

#[test]
fn the_budget_bounds_the_messages_applied() {
    let mut r = runner();
    let delivered = vec![
        ComponentMsg::wrap(AppMsg::ShowLaunchBar),
        ComponentMsg::wrap(AppMsg::HideLaunchBar),
        ComponentMsg::wrap(AppMsg::ShowLaunchBar),
    ];
    r.begin_tick(delivered, None);
    assert_eq!(r.run_queue(2), 2);
    assert!(r.has_work());
    assert_eq!(r.component().focus, AppFocus::ConnectorList);
    assert_eq!(r.run_queue(0), 0);
    assert_eq!(r.run_queue(5), 1);
    assert_eq!(r.component().focus, AppFocus::LaunchBar);
}

#[test]
fn a_notification_sets_a_timer_whose_end_clears_it() {
    let mut r = runner();
    let show = AppMsg::NontificationMsg(NotificationMsg::Show(Notification::error("A".to_string())));
    r.begin_tick(vec![ComponentMsg::wrap(show)], None);
    assert_eq!(r.run_queue(usize::MAX), 1);
    assert_eq!(r.component().footer.content(), "A");
    let spawned = r.take_spawned();
    assert_eq!(spawned.len(), 1);
    assert!(matches!(spawned[0].work(), Work::Sleep { seconds: 5 }));
    let failed: Vec<ComponentMsg<AppMsg>> = spawned[0].complete(Outcome::Failed("x".to_string()));
    assert!(failed.is_empty());
    let delivered: Vec<ComponentMsg<AppMsg>> = spawned[0].complete(Outcome::Elapsed);
    assert_eq!(delivered.len(), 1);
    assert!(matches!(delivered[0].0, AppMsg::NontificationMsg(NotificationMsg::Clear)));
    r.begin_tick(delivered, None);
    assert_eq!(r.run_queue(usize::MAX), 1);
    assert_eq!(r.component().footer.content(), "");
}

#[test]
fn the_dispatcher_answers_each_action() {
    let mut app = App::init_with_connectors(vec![]);
    assert!(app.handle_action(Action::Quit).is_empty());
    assert!(app.handle_action(Action::Esc).is_empty());
    let msgs = app.handle_action(Action::NavTo(Nav::PoliciesList));
    assert!(matches!(msgs[0].0, AppMsg::RoutingMsg(Nav::PoliciesList)));
    let msgs = app.handle_action(Action::ChangeSheet);
    assert!(matches!(msgs[0].0, AppMsg::ChangeSheet));
    let msgs = app.handle_action(Action::Notification(Notification::info("hi".to_string())));
    assert!(matches!(&msgs[0].0, AppMsg::NontificationMsg(NotificationMsg::Show(n)) if n.msg() == "hi"));
    app.focus = AppFocus::LaunchBar;
    let msgs = app.handle_action(Action::Esc);
    assert_eq!(msgs.len(), 1);
    assert!(matches!(msgs[0].0, AppMsg::HideLaunchBar));
}
