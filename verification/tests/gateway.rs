use corpo::gateway::GatewayAction;
use corpo::gateway::GatewayEvent;
use corpo::gateway::GatewayState;
use corpo::gateway::fetch_event_of_status;
use corpo::gateway::gateway_fetch_path;
use corpo::gateway::pointer_event_of_rows;
use corpo::gateway::static_event_of_status;
use corpo::pointer::RootPointer;
use corpo::pointer::current_pointer_index;

fn pointer(id: i64, cid: &str, created_at: i64) -> RootPointer {
    RootPointer { id, cid: cid.to_owned(), created_at }
}

#[test]
fn static_hit_serves_the_file_bytes() {
    let bytes = b"body { color: black; }".to_vec();
    let state = GatewayState::start();
    assert!(matches!(state.next_action(), GatewayAction::ProbeStatic));
    let event = static_event_of_status(200, bytes.clone());
    let state = state.step(event, "/assets/app.css");
    match state {
        GatewayState::Served { response } => {
            assert_eq!(response.status, 200);
            assert_eq!(response.body, bytes);
            assert_eq!(response.content_type, "text/css");
        },
        _ => panic!("a static hit must be served at once"),
    }
}

#[test]
fn no_pointer_goes_straight_to_render() {
    let state = GatewayState::start();
    let state = state.step(static_event_of_status(404, Vec::new()), "/about");
    assert!(matches!(&state, GatewayState::PointerLookup));
    assert!(matches!(state.next_action(), GatewayAction::ReadPointer));
    let event = pointer_event_of_rows(true, Vec::new());
    assert!(matches!(&event, GatewayEvent::PointerMissing));
    let state = state.step(event, "/about");
    assert!(matches!(&state, GatewayState::DynamicRender));
    assert!(matches!(state.next_action(), GatewayAction::Render));
}

#[test]
fn storage_failure_skips_the_tier_not_the_request() {
    let state = GatewayState::PointerLookup;
    let event = pointer_event_of_rows(false, vec![pointer(1, "bafyroot", 10)]);
    assert!(matches!(&event, GatewayEvent::StorageFailed));
    let state = state.step(event, "/about");
    assert!(matches!(state, GatewayState::DynamicRender));
}

#[test]
fn snapshot_hit_serves_bytes_verbatim() {
    let state = GatewayState::start();
    let state = state.step(static_event_of_status(404, Vec::new()), "/about");
    let rows = vec![pointer(1, "bafyolder", 10), pointer(2, "bafynewer", 20)];
    let event = pointer_event_of_rows(true, rows);
    match &event {
        GatewayEvent::PointerFound { pointer } => assert_eq!(pointer.cid, "bafynewer"),
        _ => panic!("a non-empty table must yield a pointer"),
    }
    let state = state.step(event, "/about");
    match &state {
        GatewayState::ContentFetch { cid } => assert_eq!(cid, "bafynewer"),
        _ => panic!("a pointer must lead to a fetch"),
    }
    match state.next_action() {
        GatewayAction::FetchContent { cid } => {
            assert_eq!(gateway_fetch_path(cid, "/about"), "/ipfs/bafynewer/about");
        },
        _ => panic!("the fetch state must ask for a fetch"),
    }
    let body = b"<html>about</html>".to_vec();
    let state = state.step(fetch_event_of_status(200, body.clone()), "/about");
    match state {
        GatewayState::Served { response } => {
            assert_eq!(response.status, 200);
            assert_eq!(response.body, body);
        },
        _ => panic!("a snapshot hit must be served"),
    }
}

#[test]
fn snapshot_miss_renders_dynamically() {
    let state = GatewayState::ContentFetch { cid: "bafyroot".to_owned() };
    let event = fetch_event_of_status(404, Vec::new());
    assert!(matches!(&event, GatewayEvent::FetchMissing));
    let state = state.step(event, "/about");
    assert!(matches!(state, GatewayState::DynamicRender));
    let rendered = corpo::gateway::ok_response("/about", b"<html>rendered</html>".to_vec());
    let state = state.step(GatewayEvent::Rendered { response: rendered }, "/about");
    match state {
        GatewayState::Served { response } => {
            assert_eq!(response.body, b"<html>rendered</html>".to_vec());
        },
        _ => panic!("the renderer's answer must be served"),
    }
}

#[test]
fn backend_failure_also_falls_through_to_render() {
    let state = GatewayState::ContentFetch { cid: "bafyroot".to_owned() };
    let event = fetch_event_of_status(502, Vec::new());
    assert!(matches!(&event, GatewayEvent::FetchFailed));
    let state = state.step(event, "/about");
    assert!(matches!(state, GatewayState::DynamicRender));
}

#[test]
fn fetch_statuses_classify_per_contract() {
    assert!(matches!(fetch_event_of_status(200, Vec::new()), GatewayEvent::FetchFound { .. }));
    assert!(matches!(fetch_event_of_status(204, Vec::new()), GatewayEvent::FetchFound { .. }));
    assert!(matches!(fetch_event_of_status(404, Vec::new()), GatewayEvent::FetchMissing));
    assert!(matches!(fetch_event_of_status(301, Vec::new()), GatewayEvent::FetchFailed));
    assert!(matches!(fetch_event_of_status(500, Vec::new()), GatewayEvent::FetchFailed));
}

#[test]
fn static_fault_is_surfaced_not_read_as_absence() {
    let state = GatewayState::start();
    let state = state.step(GatewayEvent::StaticFailed, "/assets/app.css");
    match state {
        GatewayState::Served { response } => {
            assert_eq!(response.status, 500);
            assert_eq!(response.content_type, "text/plain");
            assert_eq!(response.body, b"Something went wrong".to_vec());
        },
        _ => panic!("a static fault must be surfaced as an internal error"),
    }
}

#[test]
fn static_statuses_classify_per_contract() {
    assert!(matches!(static_event_of_status(200, Vec::new()), GatewayEvent::StaticFound { .. }));
    assert!(matches!(static_event_of_status(404, Vec::new()), GatewayEvent::StaticMissing));
    assert!(matches!(static_event_of_status(500, Vec::new()), GatewayEvent::StaticMissing));
}

#[test]
fn svg_from_snapshot_is_typed_svg() {
    let state = GatewayState::ContentFetch { cid: "bafyroot".to_owned() };
    let state = state.step(fetch_event_of_status(200, b"<svg/>".to_vec()), "/img/logo.svg");
    match state {
        GatewayState::Served { response } => {
            assert_eq!(response.content_type, "image/svg+xml");
        },
        _ => panic!("a snapshot hit must be served"),
    }
}

#[test]
fn newest_pointer_wins_and_ids_break_ties() {
    let rows = vec![pointer(3, "bafya", 50), pointer(7, "bafyb", 90), pointer(5, "bafyc", 90)];
    assert_eq!(current_pointer_index(&rows), Some(1));
    let rows = vec![pointer(1, "bafya", 10)];
    assert_eq!(current_pointer_index(&rows), Some(0));
    assert_eq!(current_pointer_index(&Vec::new()), None);
}

#[test]
fn fetch_path_concatenates_scheme_root_and_path() {
    assert_eq!(gateway_fetch_path("bafyroot", "/about"), "/ipfs/bafyroot/about");
    assert_eq!(gateway_fetch_path("bafyroot", ""), "/ipfs/bafyroot");
}
