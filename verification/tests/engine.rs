//! Filter, payload-builder, connection and loop-planner behaviour.

use jellyfin_rpc::connection::{backoff_ms, connect_step, ConnState, SetAction, SetPhase, SetStatusTask};
use jellyfin_rpc::filter::{is_displayable, media_eligible, BlacklistRule, LibraryScan};
use jellyfin_rpc::media::{ExternalService, MediaType, PlaybackItem};
use jellyfin_rpc::presence::{build, select_buttons, tag_line, ButtonSlot};
use jellyfin_rpc::sync::{next_connected, plan_cycle, CycleAction};

fn movie_item() -> PlaybackItem {
    PlaybackItem {
        item_id: String::from("abc"),
        media_type: MediaType::Movie,
        details: String::from("A Film"),
        state_message: String::from("Playing"),
        end_time: Some(1_700_000_000),
        image_url: String::from("http://media/img"),
        external_services: Vec::new(),
    }
}

fn slot(label: &str, url: &str) -> ButtonSlot {
    ButtonSlot { label: label.to_string(), url: url.to_string() }
}

fn service(name: &str, url: &str) -> ExternalService {
    ExternalService { name: name.to_string(), url: url.to_string() }
}

#[test]
fn blacklisted_media_type_is_never_displayable() {
    let item = movie_item();
    let rule = BlacklistRule {
        media_types: vec![MediaType::Movie],
        libraries: vec![String::from("Anime")],
    };
    // Whatever the library scan would have answered, the verdict stands.
    assert!(!is_displayable(&item, &rule, false));
    assert!(!is_displayable(&item, &rule, true));
    assert!(!media_eligible(item.media_type, &rule));
}

#[test]
fn nothing_playing_is_not_displayable() {
    let rule = BlacklistRule { media_types: Vec::new(), libraries: Vec::new() };
    assert!(!media_eligible(MediaType::Nothing, &rule));
}

#[test]
fn eligible_item_displays_unless_library_excludes_it() {
    let item = movie_item();
    let rule = BlacklistRule {
        media_types: vec![MediaType::Audio],
        libraries: Vec::new(),
    };
    assert!(is_displayable(&item, &rule, false));
    assert!(!is_displayable(&item, &rule, true));
}

#[test]
fn library_scan_stops_after_first_exclusion() {
    let rule = BlacklistRule {
        media_types: Vec::new(),
        libraries: vec![String::from("Anime"), String::from("Concerts")],
    };
    let mut scan = LibraryScan::start();
    let mut lookups: u32 = 0;

    while let Some(lib) = scan.pending_lookup(&rule).cloned() {
        lookups += 1;
        // The external predicate says the item is in the first library.
        let in_library = lib == "Anime";
        scan.record(in_library);
    }
    assert_eq!(lookups, 1);
    assert!(scan.excluded);
}

#[test]
fn library_scan_checks_every_library_when_none_excludes() {
    let rule = BlacklistRule {
        media_types: Vec::new(),
        libraries: vec![String::from("Anime"), String::from("Concerts")],
    };
    let mut scan = LibraryScan::start();
    let mut lookups: u32 = 0;
    while scan.pending_lookup(&rule).is_some() {
        lookups += 1;
        scan.record(false);
    }
    assert_eq!(lookups, 2);
    assert!(!scan.excluded);
}

#[test]
fn three_dynamic_slots_and_three_services_yield_two_buttons_in_order() {
    let cfg = vec![
        slot("dynamic", "dynamic"),
        slot("dynamic", "dynamic"),
        slot("dynamic", "dynamic"),
    ];
    let svcs = vec![
        service("IMDb", "http://svc/1"),
        service("Trakt", "http://svc/2"),
        service("TVDB", "http://svc/3"),
    ];
    let buttons = select_buttons(&cfg, &svcs);
    assert_eq!(buttons.len(), 2);
    assert_eq!(buttons[0].label, "IMDb");
    assert_eq!(buttons[0].url, "http://svc/1");
    assert_eq!(buttons[1].label, "Trakt");
    assert_eq!(buttons[1].url, "http://svc/2");
}

#[test]
fn static_buttons_pass_through_and_mix_with_dynamic() {
    let cfg = vec![slot("Site", "http://a"), slot("dynamic", "dynamic")];
    let svcs = vec![service("IMDb", "http://svc/1")];
    let buttons = select_buttons(&cfg, &svcs);
    assert_eq!(buttons.len(), 2);
    assert_eq!(buttons[0].label, "Site");
    assert_eq!(buttons[1].label, "IMDb");
}

#[test]
fn dynamic_slot_without_service_is_dropped() {
    let cfg = vec![slot("dynamic", "dynamic"), slot("Site", "http://a")];
    let svcs: Vec<ExternalService> = Vec::new();
    let buttons = select_buttons(&cfg, &svcs);
    assert_eq!(buttons.len(), 1);
    assert_eq!(buttons[0].label, "Site");
}

#[test]
fn build_truncates_to_two_buttons_and_keeps_fields() {
    let buttons = vec![slot("a", "1"), slot("b", "2"), slot("c", "3")];
    let p = build(
        "Playing",
        "A Film",
        Some(12345),
        "http://img/1",
        buttons,
        "Jellyfin-RPC v1.0.0",
        MediaType::Movie,
    );
    assert_eq!(p.buttons.len(), 2);
    assert_eq!(p.buttons[0].label, "a");
    assert_eq!(p.buttons[1].label, "b");
    assert_eq!(p.state_message, "Playing");
    assert_eq!(p.details, "A Film");
    assert_eq!(p.end_time, Some(12345));
    assert_eq!(p.image_url, "http://img/1");
    assert_eq!(p.tag_line, "Jellyfin-RPC v1.0.0");
    assert_eq!(p.media_type, MediaType::Movie);
}

#[test]
fn build_without_end_time_omits_timing() {
    let p = build("s", "d", None, "", Vec::new(), "t", MediaType::Audio);
    assert_eq!(p.end_time, None);
    assert_eq!(p.buttons.len(), 0);
}

#[test]
fn tag_line_embeds_version_or_sentinel() {
    assert_eq!(tag_line(Some("1.2.3")), "Jellyfin-RPC v1.2.3");
    assert_eq!(tag_line(None), "Jellyfin-RPC v0.0.0");
}

#[test]
fn backoff_starts_at_one_second_and_doubles() {
    assert_eq!(backoff_ms(0), 1000);
    assert_eq!(backoff_ms(1), 2000);
    assert_eq!(backoff_ms(5), 32000);
    assert_eq!(backoff_ms(54), 18_014_398_509_481_984_000);
    assert_eq!(backoff_ms(55), u64::MAX);
    assert_eq!(backoff_ms(200), u64::MAX);
}

#[test]
fn connect_moves_to_connected_only_on_success() {
    assert_eq!(connect_step(true, 0), (ConnState::Connected, None));
    assert_eq!(connect_step(false, 0), (ConnState::Disconnected, Some(1000)));
    assert_eq!(connect_step(false, 3), (ConnState::Disconnected, Some(8000)));
}

#[test]
fn failed_set_reconnects_then_resends_same_payload() {
    let payload = build("s", "d", None, "", Vec::new(), "t", MediaType::Movie);
    let mut task = SetStatusTask::begin(payload);

    // The push fails: a reconnect is owed after the first backoff.
    let a1 = task.after_send(false);
    assert_eq!(a1, SetAction::Reconnect { delay_ms: 1000 });
    assert_eq!(task.phase, SetPhase::Reconnecting { attempt: 0 });

    // A reconnect attempt fails: the delay doubles.
    let a2 = task.after_reconnect(false);
    assert_eq!(a2, SetAction::Reconnect { delay_ms: 2000 });

    // The transport recovers: the same payload is pushed again.
    let a3 = task.after_reconnect(true);
    assert_eq!(a3, SetAction::PushPayload);
    assert_eq!(task.payload.state_message, "s");
    assert_eq!(task.payload.details, "d");

    // The re-push succeeds: the logical update is applied.
    let a4 = task.after_send(true);
    assert_eq!(a4, SetAction::Done);
    assert_eq!(task.phase, SetPhase::Applied);
}

#[test]
fn display_lines_log_only_on_the_edge() {
    let mut connected = false;
    let mut logs: u32 = 0;
    for _cycle in 0..2 {
        match plan_cycle(connected, true, true, MediaType::Movie) {
            CycleAction::Show { log_lines, resolve_image } => {
                if log_lines {
                    logs += 1;
                }
                assert!(resolve_image);
            }
            _ => panic!("displayable cycles must show"),
        }
        connected = next_connected(connected, true);
    }
    assert_eq!(logs, 1);
    assert!(connected);
}

#[test]
fn leaving_display_clears_exactly_once() {
    let mut connected = true;
    let mut clears: u32 = 0;
    for _cycle in 0..3 {
        match plan_cycle(connected, false, true, MediaType::Movie) {
            CycleAction::ClearPresence => clears += 1,
            CycleAction::Idle => {}
            CycleAction::Show { .. } => panic!("nothing displayable"),
        }
        connected = next_connected(connected, false);
    }
    assert_eq!(clears, 1);
    assert!(!connected);
}

#[test]
fn live_tv_skips_image_resolution() {
    match plan_cycle(false, true, true, MediaType::LiveTv) {
        CycleAction::Show { resolve_image, .. } => assert!(!resolve_image),
        _ => panic!("displayable cycles must show"),
    }
    match plan_cycle(false, true, false, MediaType::Movie) {
        CycleAction::Show { resolve_image, .. } => assert!(!resolve_image),
        _ => panic!("displayable cycles must show"),
    }
}
