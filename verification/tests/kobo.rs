use omnibus_pages::kobo::{KoboDevicesCard, kobo_device_row, KoboCardState, KoboDeviceView};

fn device(id: i64, name: &str, token: &str) -> KoboDeviceView {
    KoboDeviceView {
        id,
        name: name.to_string(),
        token: token.to_string(),
        created_at: 0,
        last_seen_at: 0,
    }
}

fn card() -> String {
    KoboDevicesCard(&KoboCardState::new(), "https://omni.example.com")
}

#[test]
fn kobo_card_renders_the_data_loss_warning_on_first_paint() {
    let html = card();
    assert!(html.contains("data-testid=\"kobo-data-loss-warning\""));
    assert!(html.contains("First sync can erase your Kobo&#39;s highlights"));
    assert!(html.contains("KoboReader.sqlite"));
}

#[test]
fn kobo_card_walks_through_the_conf_file_setup() {
    let html = card();
    assert!(html.contains("data-testid=\"kobo-setup-steps\""));
    assert!(html.contains("Kobo eReader.conf"));
    assert!(html.contains("api_endpoint="));
    assert!(!html.contains("Beta Features"));
}

#[test]
fn kobo_card_warns_even_with_no_devices_registered() {
    let html = card();
    assert!(html.contains("data-testid=\"kobo-devices-empty\""));
    assert!(html.contains("data-testid=\"kobo-data-loss-warning\""));
}

#[test]
fn kobo_device_row_renders_the_endpoint_url() {
    let html = kobo_device_row(
        &device(1, "Kobo Clara", "tok123"),
        "https://omni.example.com/kobo/tok123",
        false,
    );
    assert!(html.contains("https://omni.example.com/kobo/tok123"));
    assert!(html.contains("Kobo Clara"));
    assert!(!html.contains("disabled"));
}

#[test]
fn kobo_card_lists_each_device_with_its_endpoint() {
    let mut s = KoboCardState::new();
    s.load(vec![device(1, "Clara", "a"), device(2, "Libra", "b")]);
    let html = KoboDevicesCard(&s, "http://h:3000/");
    assert!(html.contains("http://h:3000/kobo/a"));
    assert!(html.contains("http://h:3000/kobo/b"));
    assert!(!html.contains("kobo-devices-empty"));
}

#[test]
fn adding_refuses_a_blank_name_and_appends_the_new_device() {
    let mut s = KoboCardState::new();
    s.on_name_input("   ".to_string());
    assert_eq!(s.begin_add(), None);
    assert_eq!(s.msg.as_deref(), Some("Enter a name for your Kobo."));
    assert!(s.msg_is_error);
    s.on_name_input("  Clara ".to_string());
    assert_eq!(s.begin_add().as_deref(), Some("Clara"));
    assert!(s.in_flight);
    s.finish_add(Ok(device(7, "Clara", "t7")));
    assert_eq!(s.devices.len(), 1);
    assert_eq!(s.name_input, "");
    assert_eq!(s.msg.as_deref(), Some("Kobo added. Paste its endpoint URL below."));
    assert!(!s.in_flight);
}

#[test]
fn regenerating_replaces_only_the_matching_device() {
    let mut s = KoboCardState::new();
    s.load(vec![device(1, "A", "old"), device(2, "B", "keep")]);
    s.begin_device_action();
    s.finish_regenerate(1, Ok(device(1, "A", "new")));
    assert_eq!(s.devices[0].token, "new");
    assert_eq!(s.devices[1].token, "keep");
    s.finish_regenerate(9, Ok(device(9, "Z", "z")));
    assert_eq!(s.devices.len(), 2);
    s.finish_regenerate(2, Err("gone".to_string()));
    assert_eq!(s.devices[1].token, "keep");
    assert_eq!(s.msg.as_deref(), Some("gone"));
}

#[test]
fn removing_drops_the_device_and_keeps_the_rest_in_order() {
    let mut s = KoboCardState::new();
    s.load(vec![device(1, "A", "a"), device(2, "B", "b"), device(3, "C", "c")]);
    s.finish_remove(2, Ok(()));
    let ids: Vec<i64> = s.devices.iter().map(|d| d.id).collect();
    assert_eq!(ids, vec![1, 3]);
    assert_eq!(s.msg.as_deref(), Some("Kobo removed."));
}
