use edc_connector::footer::Footer;
use edc_connector::notification::Notification;

#[test]
fn newest_notification_outlives_the_clear_of_the_older() {
    let mut footer = Footer::default();
    assert_eq!(footer.noty_counter, 0);
    footer.show_notification(Notification::error("A".to_string()));
    assert_eq!(footer.noty_counter, 1);
    footer.show_notification(Notification::info("B".to_string()));
    assert_eq!(footer.noty_counter, 2);
    footer.clear_notification();
    assert_eq!(footer.noty_counter, 1);
    assert_eq!(footer.content(), "B");
    footer.clear_notification();
    assert_eq!(footer.noty_counter, 0);
    assert!(footer.noty.is_none());
    assert_eq!(footer.content(), "");
}
