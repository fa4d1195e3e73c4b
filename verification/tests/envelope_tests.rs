use edc_connector::application::AppMsg;
use edc_connector::application::WrapScreen;
use edc_connector::detail::ResourceMsg;
use edc_connector::envelope::compose;
use edc_connector::envelope::map_all;
use edc_connector::envelope::ComponentMsg;
use edc_connector::envelope::Mapper;
use edc_connector::record::ResourceKind;
use edc_connector::resources::ResourcesMsg;
use edc_connector::resources::WrapDetail;

#[test]
fn wrap_then_take_gives_the_payload_back() {
    let msg = ComponentMsg::wrap(7u32);
    assert_eq!(msg.take(), 7);
}

#[test]
fn map_relabels_the_payload() {
    let msg = ComponentMsg::wrap(ResourceMsg::Yank);
    let mapped = msg.map(&WrapDetail);
    assert!(matches!(mapped.take(), ResourcesMsg::ResourceMsg(ResourceMsg::Yank)));
}

#[test]
fn mapping_twice_equals_mapping_once_with_the_composition() {
    let first = WrapDetail;
    let second = WrapScreen { kind: ResourceKind::Policies };
    let twice = ComponentMsg::wrap(ResourceMsg::MoveUp).map(&first).map(&second);
    let once = ComponentMsg::wrap(ResourceMsg::MoveUp).map(&compose(
        WrapScreen { kind: ResourceKind::Policies },
        WrapDetail,
    ));
    assert!(matches!(
        twice.take(),
        AppMsg::PoliciesMsg(ResourcesMsg::ResourceMsg(ResourceMsg::MoveUp))
    ));
    assert!(matches!(
        once.take(),
        AppMsg::PoliciesMsg(ResourcesMsg::ResourceMsg(ResourceMsg::MoveUp))
    ));
}

#[test]
fn compose_applies_the_first_mapper_first() {
    let both = compose(WrapScreen { kind: ResourceKind::Assets }, WrapDetail);
    assert!(matches!(
        both.apply(ResourceMsg::MoveDown),
        AppMsg::AssetsMsg(ResourcesMsg::ResourceMsg(ResourceMsg::MoveDown))
    ));
}

#[test]
fn map_all_keeps_the_order() {
    let msgs = vec![
        ComponentMsg::wrap(ResourceMsg::MoveUp),
        ComponentMsg::wrap(ResourceMsg::Yank),
        ComponentMsg::wrap(ResourceMsg::MoveDown),
    ];
    let mapped = map_all(msgs, &WrapDetail);
    assert_eq!(mapped.len(), 3);
    let mut payloads = Vec::new();
    for m in mapped {
        payloads.push(m.take());
    }
    assert!(matches!(payloads[0], ResourcesMsg::ResourceMsg(ResourceMsg::MoveUp)));
    assert!(matches!(payloads[1], ResourcesMsg::ResourceMsg(ResourceMsg::Yank)));
    assert!(matches!(payloads[2], ResourcesMsg::ResourceMsg(ResourceMsg::MoveDown)));
}

#[test]
fn map_all_of_nothing_is_nothing() {
    let msgs: Vec<ComponentMsg<ResourceMsg>> = Vec::new();
    assert!(map_all(msgs, &WrapDetail).is_empty());
}
