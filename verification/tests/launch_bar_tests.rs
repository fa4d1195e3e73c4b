use edc_connector::action::Action;
use edc_connector::component::Component;
use edc_connector::envelope::ComponentMsg;
use edc_connector::event::ComponentEvent;
use edc_connector::event::Input;
use edc_connector::event::InputKey;
use edc_connector::event::KeyCode;
use edc_connector::event::KeyEvent;
use edc_connector::event::KeyEventKind;
use edc_connector::launch_bar::LaunchBar;
use edc_connector::launch_bar::LaunchBarMsg;
use edc_connector::nav::Nav;
use edc_connector::notification::NotificationKind;

fn key(code: KeyCode) -> ComponentEvent {
    ComponentEvent::Key(KeyEvent::press(code))
}

fn type_text(bar: &mut LaunchBar, text: &str) {
    for c in text.chars() {
        let msgs = bar.handle_event(key(KeyCode::Char(c)));
        for m in msgs {
            let _ = bar.update(m);
        }
    }
}

#[test]
fn a_new_bar_shows_the_empty_prompt() {
    let bar = LaunchBar::default();
    assert_eq!(bar.lines(), vec![" $> ".to_string()]);
    assert_eq!(bar.cursor(), (0, 4));
    assert_eq!(bar.current(), "");
}

#[test]
fn typing_appends_to_the_command() {
    let mut bar = LaunchBar::default();
    let msgs = bar.handle_event(key(KeyCode::Char('a')));
    assert_eq!(msgs.len(), 1);
    assert!(matches!(
        msgs[0].0,
        LaunchBarMsg::AppendCommand(Input { key: InputKey::Char('a'), ctrl: false, alt: false, shift: false })
    ));
    type_text(&mut bar, "assets");
    assert_eq!(bar.lines(), vec![" $> assets".to_string()]);
    assert_eq!(bar.current(), "assets");
}

#[test]
fn q_on_an_empty_command_types_the_quit_command() {
    let mut bar = LaunchBar::default();
    let msgs = bar.handle_event(key(KeyCode::Char('q')));
    assert_eq!(msgs.len(), 2);
    assert!(matches!(
        msgs[1].0,
        LaunchBarMsg::AppendCommand(Input { key: InputKey::Char('!'), ctrl: false, alt: false, shift: false })
    ));
    for m in msgs {
        let _ = bar.update(m);
    }
    assert_eq!(bar.current(), "q!");
    let msgs = bar.handle_event(key(KeyCode::Enter));
    assert_eq!(msgs.len(), 1);
    assert!(matches!(msgs[0].0, LaunchBarMsg::Quit));
}

#[test]
fn q_inside_a_command_is_an_ordinary_letter() {
    let mut bar = LaunchBar::default();
    type_text(&mut bar, "a");
    let msgs = bar.handle_event(key(KeyCode::Char('q')));
    assert_eq!(msgs.len(), 1);
}

#[test]
fn enter_on_the_name_of_a_screen_navigates() {
    for (word, nav) in [
        ("connectors", Nav::ConnectorsList),
        ("assets", Nav::AssetsList),
        ("policies", Nav::PoliciesList),
    ] {
        let mut bar = LaunchBar::default();
        type_text(&mut bar, word);
        let msgs = bar.handle_event(key(KeyCode::Enter));
        assert_eq!(msgs.len(), 1);
        match &msgs[0].0 {
            LaunchBarMsg::NavTo(got) => assert_eq!(*got, nav),
            _ => panic!("a navigation was expected"),
        }
    }
}

#[test]
fn enter_on_an_unknown_command_complains() {
    let mut bar = LaunchBar::default();
    type_text(&mut bar, "transfers");
    let msgs = bar.handle_event(key(KeyCode::Enter));
    assert_eq!(msgs.len(), 1);
    match &msgs[0].0 {
        LaunchBarMsg::Error(text) => assert_eq!(text, "Command transfers not recognized"),
        _ => panic!("an error was expected"),
    }
}

#[test]
fn enter_on_an_empty_command_and_escape_close_the_bar() {
    let mut bar = LaunchBar::default();
    let msgs = bar.handle_event(key(KeyCode::Enter));
    assert!(matches!(msgs[0].0, LaunchBarMsg::Esc));
    type_text(&mut bar, "ass");
    let msgs = bar.handle_event(key(KeyCode::Esc));
    assert_eq!(msgs.len(), 1);
    assert!(matches!(msgs[0].0, LaunchBarMsg::Esc));
}

#[test]
fn tab_is_swallowed() {
    let bar = LaunchBar::default();
    let msgs = bar.handle_event(key(KeyCode::Tab));
    assert_eq!(msgs.len(), 1);
    assert!(matches!(msgs[0].0, LaunchBarMsg::Loop));
}

#[test]
fn backspace_does_not_eat_the_prompt() {
    let mut bar = LaunchBar::default();
    assert!(bar.handle_event(key(KeyCode::Backspace)).is_empty());
    type_text(&mut bar, "ab");
    let msgs = bar.handle_event(key(KeyCode::Backspace));
    assert_eq!(msgs.len(), 1);
    for m in msgs {
        let _ = bar.update(m);
    }
    assert_eq!(bar.current(), "a");
}

#[test]
fn a_released_key_is_the_null_input() {
    let bar = LaunchBar::default();
    let released = ComponentEvent::Key(KeyEvent {
        code: KeyCode::Enter,
        ctrl: false,
        alt: false,
        shift: false,
        kind: KeyEventKind::Release,
    });
    let msgs = bar.handle_event(released);
    assert_eq!(msgs.len(), 1);
    assert!(matches!(
        msgs[0].0,
        LaunchBarMsg::AppendCommand(Input { key: InputKey::Null, .. })
    ));
    let msgs = bar.handle_event(ComponentEvent::Other);
    assert!(matches!(
        msgs[0].0,
        LaunchBarMsg::AppendCommand(Input { key: InputKey::Null, .. })
    ));
}

#[test]
fn update_turns_messages_into_actions() {
    let mut bar = LaunchBar::default();
    let ret = bar.update(ComponentMsg::wrap(LaunchBarMsg::Quit));
    assert!(matches!(ret.actions[0], Action::Quit));
    let ret = bar.update(ComponentMsg::wrap(LaunchBarMsg::Esc));
    assert!(matches!(ret.actions[0], Action::Esc));
    let ret = bar.update(ComponentMsg::wrap(LaunchBarMsg::NavTo(Nav::PoliciesList)));
    assert!(matches!(ret.actions[0], Action::NavTo(Nav::PoliciesList)));
    let ret = bar.update(ComponentMsg::wrap(LaunchBarMsg::Error("bad".to_string())));
    match &ret.actions[0] {
        Action::Notification(noty) => {
            assert_eq!(noty.msg(), "bad");
            assert_eq!(*noty.kind(), NotificationKind::Error);
        }
        _ => panic!("a notification was expected"),
    }
    let ret = bar.update(ComponentMsg::wrap(LaunchBarMsg::Loop));
    assert!(ret.actions.is_empty() && ret.msgs.is_empty() && ret.cmds.is_empty());
    assert_eq!(bar.lines(), vec![" $> ".to_string()]);
}

#[test]
fn clear_resets_a_typed_command_to_the_prompt() {
    let mut bar = LaunchBar::default();
    type_text(&mut bar, "policies");
    bar.clear();
    assert_eq!(bar.lines(), vec![" $> ".to_string()]);
    assert_eq!(bar.cursor(), (0, 4));
    assert_eq!(bar.current(), "");
    bar.clear();
    assert_eq!(bar.lines(), vec![" $> ".to_string()]);
}

#[test]
fn clear_resets_only_the_line_under_the_cursor() {
    let mut bar = LaunchBar::default();
    type_text(&mut bar, "ab");
    let line_break = Input { key: InputKey::Char('m'), ctrl: true, alt: false, shift: false };
    let _ = bar.update(ComponentMsg::wrap(LaunchBarMsg::AppendCommand(line_break)));
    assert_eq!(bar.lines().len(), 2);
    bar.clear();
    assert_eq!(bar.lines(), vec![" $> ab".to_string(), " $> ".to_string()]);
    assert_eq!(bar.current(), "ab");
}

#[test]
fn the_prompt_is_removed_once_only() {
    let mut bar = LaunchBar::default();
    type_text(&mut bar, " $> x");
    assert_eq!(bar.current(), " $> x");
}
