use rdesktop::agent::{
    agent_ipc_reply, auto_stop_session, dom_snapshot, find_elements, queued_action_result,
    recording_download, recording_ok, recording_start_options, ActionType, AgentIpcData,
    AgentIpcRequest, ElementQuery, RecordingStartRequest,
};
use rdesktop::recording::{RecordingSnapshot, RecordingStatus};

fn query(selector: Option<&str>, text: Option<&str>) -> ElementQuery {
    ElementQuery {
        selector: selector.map(|s| s.to_string()),
        text: text.map(|s| s.to_string()),
        role: None,
    }
}

#[test]
fn finds_elements_by_tag() {
    let html = "<div><button id=\"a\"> Save </button><button>Cancel</button></div>";
    let found = find_elements(html, &query(Some("button"), None));
    assert_eq!(found.len(), 2);
    assert_eq!(found[0].selector, "button:nth-of-type(1)");
    assert_eq!(found[0].text, "Save");
    assert_eq!(found[1].selector, "button:nth-of-type(2)");
    assert_eq!(found[1].text, "Cancel");
    assert_eq!(found[1].tag, "button");
    assert!(found[0].attributes.is_empty() && found[0].visible && found[0].enabled);
}

#[test]
fn selector_brackets_are_ignored() {
    let found = find_elements("<h1>Title</h1>", &query(Some("<h1>"), None));
    assert_eq!(found.len(), 1);
    assert_eq!(found[0].tag, "h1");
    assert_eq!(found[0].text, "Title");
}

#[test]
fn unclosed_elements_have_no_text() {
    let found = find_elements("<input type=\"text\"><p>x", &query(Some("input"), None));
    assert_eq!(found.len(), 1);
    assert_eq!(found[0].text, "");
}

#[test]
fn text_search_ignores_case() {
    let found = find_elements("<p>Hello World</p>", &query(None, Some("WORLD")));
    assert_eq!(found.len(), 1);
    assert_eq!(found[0].selector, "*:contains(\"WORLD\")");
    assert_eq!(found[0].tag, "*");
    assert_eq!(found[0].text, "WORLD");
    assert!(find_elements("<p>Hello</p>", &query(None, Some("bye"))).is_empty());
}

#[test]
fn tag_matches_come_before_the_text_match() {
    let found = find_elements("<b>x</b><b>y</b>", &query(Some("b"), Some("Y")));
    assert_eq!(found.len(), 3);
    assert_eq!(found[2].tag, "*");
}

#[test]
fn agent_ipc_demo_commands() {
    let greet = agent_ipc_reply(&AgentIpcRequest {
        cmd: Some("greet".to_string()),
        id: Some("7".to_string()),
        name: Some("Ada".to_string()),
    });
    assert_eq!(greet.id, "7");
    assert!(greet.success);
    assert!(matches!(greet.data, AgentIpcData::Message(ref m) if m == "Hello, Ada!"));

    let greet_default = agent_ipc_reply(&AgentIpcRequest { cmd: Some("greet".to_string()), id: None, name: None });
    assert_eq!(greet_default.id, "0");
    assert!(matches!(greet_default.data, AgentIpcData::Message(ref m) if m == "Hello, World!"));

    let ping = agent_ipc_reply(&AgentIpcRequest { cmd: Some("ping".to_string()), id: None, name: None });
    assert!(ping.success && matches!(ping.data, AgentIpcData::Pong));

    let unknown = agent_ipc_reply(&AgentIpcRequest { cmd: None, id: None, name: None });
    assert!(!unknown.success);
    assert!(matches!(unknown.data, AgentIpcData::Error(ref e) if e == "Unknown command: unknown"));
}

#[test]
fn recording_options_are_bounded() {
    assert_eq!(recording_start_options(&RecordingStartRequest::default()), (30, 300));
    assert_eq!(
        recording_start_options(&RecordingStartRequest { fps: Some(0), max_duration_seconds: Some(0) }),
        (1, 1)
    );
    assert_eq!(
        recording_start_options(&RecordingStartRequest { fps: Some(240), max_duration_seconds: Some(100000) }),
        (60, 3600)
    );
    assert_eq!(
        recording_start_options(&RecordingStartRequest { fps: Some(24), max_duration_seconds: Some(90) }),
        (24, 90)
    );
}

fn snapshot(status: RecordingStatus, mime: Option<&str>) -> RecordingSnapshot {
    RecordingSnapshot {
        status,
        session_id: Some("1-1".to_string()),
        path: "/r/recording.mp4".to_string(),
        download_url: "/__rdesktop__/agent/recording/file".to_string(),
        mime_type: mime.map(|m| m.to_string()),
        native: false,
        bytes: 0,
        error: None,
        started_at: None,
        finished_at: None,
    }
}

#[test]
fn recording_downloads() {
    assert_eq!(
        recording_download(&snapshot(RecordingStatus::Recording, None)).unwrap_err(),
        "recording is not complete: Recording"
    );
    assert_eq!(
        recording_download(&snapshot(RecordingStatus::Completed, Some("video/mp4"))).unwrap(),
        ("video/mp4".to_string(), "attachment; filename=recording.mp4")
    );
    assert_eq!(
        recording_download(&snapshot(RecordingStatus::Completed, None)).unwrap(),
        ("video/webm".to_string(), "attachment; filename=recording.webm")
    );
    assert!(recording_ok(&snapshot(RecordingStatus::Completed, None)));
    assert!(!recording_ok(&snapshot(RecordingStatus::Failed, None)));
}

#[test]
fn auto_stop_only_for_new_sessions() {
    let s = snapshot(RecordingStatus::Recording, None);
    assert_eq!(auto_stop_session(&s, false).as_deref(), Some("1-1"));
    assert_eq!(auto_stop_session(&s, true), None);
}

#[test]
fn queued_actions_are_described() {
    let r = queued_action_result(ActionType::DoubleClick, "#save");
    assert!(r.success && r.error.is_none());
    assert_eq!(r.side_effects, vec!["Action DoubleClick on '#save' queued".to_string()]);
}

#[test]
fn dom_snapshot_placeholder() {
    let d = dom_snapshot(None, "12".to_string());
    assert!(d.html.starts_with("<!DOCTYPE html>"));
    assert!(d.html.contains("No DOM snapshot available yet."));
    assert_eq!(d.url, "http://localhost");
    assert_eq!(d.title, "rdesktop App");
    assert_eq!(dom_snapshot(Some("<p/>".to_string()), "1".to_string()).html, "<p/>");
}
