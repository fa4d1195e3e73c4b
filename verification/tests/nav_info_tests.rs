use edc_connector::header::chunk_lines;
use edc_connector::header::max_name_len;
use edc_connector::header::padded_lines;
use edc_connector::header::HeaderComponent;
use edc_connector::header::HeaderMsg;
use edc_connector::header::InfoComponent;
use edc_connector::component::Component;
use edc_connector::action::Action;
use edc_connector::envelope::ComponentMsg;
use edc_connector::info::copy_entries;
use edc_connector::info::key_order;
use edc_connector::info::put_entries;
use edc_connector::info::put_entry;
use edc_connector::info::InfoSheet;
use edc_connector::nav::append_str;
use edc_connector::nav::str_equal;
use edc_connector::nav::Menu;
use edc_connector::nav::Nav;

fn pair(k: &str, v: &str) -> (String, String) {
    (k.to_string(), v.to_string())
}

#[test]
fn the_launch_bar_understands_three_words() {
    assert_eq!(Nav::parse("connectors").ok(), Some(Nav::ConnectorsList));
    assert_eq!(Nav::parse("assets").ok(), Some(Nav::AssetsList));
    assert_eq!(Nav::parse("policies").ok(), Some(Nav::PoliciesList));
}

#[test]
fn any_other_word_is_an_unknown_command() {
    for word in ["", "Assets", "assets ", "contract_definitions", "transfers"] {
        match Nav::parse(word) {
            Ok(_) => panic!("{} should not be known", word),
            Err(err) => {
                assert_eq!(err.command, word);
                assert_eq!(err.message(), format!("Command {} not recognized", word));
            }
        }
    }
}

#[test]
fn tabs_and_screens_correspond() {
    let all = [
        (Menu::Connectors, Nav::ConnectorsList, 0usize, "Connectors"),
        (Menu::Assets, Nav::AssetsList, 1, "Assets"),
        (Menu::Policies, Nav::PoliciesList, 2, "Policies"),
        (Menu::ContractDefinitions, Nav::ContractDefinitionsList, 3, "ContractDefinitions"),
        (Menu::ContractNegotiations, Nav::ContractNegotiations, 4, "ContractNegotiations"),
        (Menu::TransferProcesses, Nav::TransferProcesses, 5, "TransferProcesses"),
    ];
    for (menu, nav, ordinal, name) in all {
        assert_eq!(menu.nav(), nav);
        assert_eq!(nav.menu(), menu);
        assert_eq!(menu.ordinal(), ordinal);
        assert_eq!(Menu::from_ordinal(ordinal), Some(menu));
        assert_eq!(menu.name(), name);
    }
    assert_eq!(Menu::from_ordinal(6), None);
    assert_eq!(Menu::from_ordinal(usize::MAX), None);
    assert_eq!(Menu::default(), Menu::Connectors);
    assert_eq!(Nav::default(), Nav::ConnectorsList);
}

#[test]
fn the_next_tab_wraps_around() {
    assert_eq!(Menu::Connectors.next(), Menu::Assets);
    assert_eq!(Menu::ContractNegotiations.next(), Menu::TransferProcesses);
    assert_eq!(Menu::TransferProcesses.next(), Menu::Connectors);
}

#[test]
fn the_names_of_the_tabs_from_the_left() {
    assert_eq!(
        Menu::names(),
        vec![
            "Connectors",
            "Assets",
            "Policies",
            "ContractDefinitions",
            "ContractNegotiations",
            "TransferProcesses"
        ]
    );
}

#[test]
fn string_helpers() {
    assert!(str_equal("abc", "abc"));
    assert!(!str_equal("abc", "abd"));
    assert!(!str_equal("abc", "ab"));
    let mut s = "ab".to_string();
    append_str(&mut s, "cd");
    assert_eq!(s, "abcd");
}

#[test]
fn keys_are_ordered_by_their_bytes() {
    assert_eq!(key_order("a", "b"), -1);
    assert_eq!(key_order("b", "a"), 1);
    assert_eq!(key_order("abc", "abc"), 0);
    assert_eq!(key_order("ab", "abc"), -1);
    assert_eq!(key_order("abc", "ab"), 1);
    assert_eq!(key_order("", ""), 0);
    assert_eq!(key_order("", "a"), -1);
    assert_eq!(key_order("Z", "a"), -1);
    assert_eq!(key_order("<:>", "<:q>"), -1);
    assert_eq!(key_order("é", "z"), 1);
    for (a, b) in [("x", "y"), ("<tab>", "<esc>"), ("Connector Name", "Connector Address")] {
        let expected = match a.cmp(b) {
            std::cmp::Ordering::Less => -1,
            std::cmp::Ordering::Equal => 0,
            std::cmp::Ordering::Greater => 1,
        };
        assert_eq!(key_order(a, b), expected);
    }
}

#[test]
fn an_info_sheet_lists_its_entries_in_the_order_of_their_keys() {
    let sheet = InfoSheet::default()
        .info("b", "2")
        .info("a", "1")
        .info("c", "3")
        .key_binding("<z>", "last")
        .key_binding("<a>", "first");
    assert_eq!(sheet.iter_info(), vec![pair("a", "1"), pair("b", "2"), pair("c", "3")]);
    assert_eq!(sheet.iter_key_bindings(), vec![pair("<a>", "first"), pair("<z>", "last")]);
}

#[test]
fn setting_a_key_again_replaces_its_value() {
    let sheet = InfoSheet::default().info("a", "1").info("b", "2").info("a", "3");
    assert_eq!(sheet.iter_info(), vec![pair("a", "3"), pair("b", "2")]);
}

#[test]
fn merge_lets_the_other_sheet_win() {
    let left = InfoSheet::default().info("a", "1").info("b", "2").key_binding("k", "left");
    let right = InfoSheet::default().info("b", "two").info("c", "3").key_binding("k", "right");
    let merged = left.merge(right);
    assert_eq!(merged.iter_info(), vec![pair("a", "1"), pair("b", "two"), pair("c", "3")]);
    assert_eq!(merged.iter_key_bindings(), vec![pair("k", "right")]);
    assert_eq!(left.iter_info(), vec![pair("a", "1"), pair("b", "2")]);
    let empty = InfoSheet::default();
    assert!(empty.iter_info().is_empty());
    assert!(empty.merge(InfoSheet::default()).iter_key_bindings().is_empty());
}

#[test]
fn entries_are_put_in_place() {
    let mut entries = vec![pair("b", "1"), pair("d", "2")];
    put_entry(&mut entries, "c".to_string(), "x".to_string());
    put_entry(&mut entries, "a".to_string(), "y".to_string());
    put_entry(&mut entries, "e".to_string(), "z".to_string());
    put_entry(&mut entries, "d".to_string(), "w".to_string());
    assert_eq!(
        entries,
        vec![pair("a", "y"), pair("b", "1"), pair("c", "x"), pair("d", "w"), pair("e", "z")]
    );
    let copy = copy_entries(&entries);
    assert_eq!(copy, entries);
    let mut base = vec![pair("m", "0")];
    put_entries(&mut base, &vec![pair("z", "1"), pair("a", "2"), pair("m", "3")]);
    assert_eq!(base, vec![pair("a", "2"), pair("m", "3"), pair("z", "1")]);
}

#[test]
fn panel_lines_are_padded_to_the_longest_name() {
    let entries = vec![pair("ab", "1"), pair("abcde", "2"), pair("", "3")];
    assert_eq!(max_name_len(&entries), 5);
    assert_eq!(max_name_len(&vec![]), 0);
    let lines = padded_lines(&entries);
    assert_eq!(lines.len(), 3);
    assert_eq!(lines[0].name, "ab");
    assert_eq!(lines[0].padding, 5);
    assert_eq!(lines[0].value, "1");
    assert_eq!(lines[1].padding, 2);
    assert_eq!(lines[2].padding, 7);
    assert!(padded_lines(&vec![]).is_empty());
}

#[test]
fn key_bindings_are_listed_five_to_a_column() {
    let mut entries = Vec::new();
    for i in 0..12 {
        entries.push(pair(&format!("k{:02}", i), "v"));
    }
    let columns = chunk_lines(padded_lines(&entries));
    assert_eq!(columns.len(), 3);
    assert_eq!(columns[0].len(), 5);
    assert_eq!(columns[1].len(), 5);
    assert_eq!(columns[2].len(), 2);
    assert_eq!(columns[1][0].name, "k05");
    assert_eq!(columns[2][1].name, "k11");
    assert!(chunk_lines(Vec::new()).is_empty());
    let exact = chunk_lines(padded_lines(&entries[..10].to_vec()));
    assert_eq!(exact.len(), 2);

    let mut sheet = InfoSheet::default().info("name", "value");
    for (k, _) in entries.iter() {
        sheet = sheet.key_binding(k, "v");
    }
    let panel = InfoComponent {};
    assert_eq!(panel.view_info(&sheet).len(), 1);
    assert_eq!(panel.view_info(&sheet)[0].padding, 2);
    assert_eq!(panel.view_key_bindings(&sheet).len(), 3);
}

#[test]
fn the_header_keeps_the_tab_and_the_sheet() {
    let mut header = HeaderComponent::with_sheet(InfoSheet::default().info("a", "1"));
    assert_eq!(*header.selected_menu(), Menu::Connectors);
    assert_eq!(header.sheet().iter_info(), vec![pair("a", "1")]);
    header.set_selected_menu(Menu::Policies);
    assert_eq!(*header.selected_menu(), Menu::Policies);
    header.update_sheet(InfoSheet::default());
    assert!(header.sheet().iter_info().is_empty());
    let ret = header.update(ComponentMsg::wrap(HeaderMsg::NextTab));
    assert_eq!(*header.selected_menu(), Menu::ContractDefinitions);
    assert!(matches!(
        ret.actions[0],
        Action::NavTo(edc_connector::nav::Nav::ContractDefinitionsList)
    ));
    header.set_selected_menu(Menu::TransferProcesses);
    let ret = header.update(ComponentMsg::wrap(HeaderMsg::NextTab));
    assert_eq!(*header.selected_menu(), Menu::Connectors);
    assert!(matches!(ret.actions[0], Action::NavTo(edc_connector::nav::Nav::ConnectorsList)));
}
