use issue_watcher::config::Config;
use issue_watcher::endpoints::{account_url, api_key_accepted, issue_url, open_issues_url};
use issue_watcher::sync::{RoomUpdate, SyncLoopState, SyncUpdate, TimelineEvent};

fn message(sender: &str, body: &str) -> TimelineEvent {
    TimelineEvent::Message { sender: String::from(sender), body: String::from(body) }
}

#[test]
fn loop_state_keeps_the_seed_token() {
    let state = SyncLoopState::new(String::from("s72594_4483_1934"));
    assert_eq!(state.token, "s72594_4483_1934");
}

#[test]
fn begin_cycle_adopts_the_cursor() {
    let mut state = SyncLoopState::new(String::from("t0"));
    let update = SyncUpdate { next_token: String::from("t1"), rooms: vec![] };
    let events = state.begin_cycle(&update);
    assert_eq!(state.token, "t1");
    assert!(events.is_empty());
}

#[test]
fn begin_cycle_extracts_messages_in_order() {
    let mut state = SyncLoopState::new(String::from("t0"));
    let update = SyncUpdate {
        next_token: String::from("t1"),
        rooms: vec![
            RoomUpdate {
                room_id: String::from("!a:server"),
                events: vec![
                    message("@u1:server", "hello"),
                    TimelineEvent::Other,
                    message("@u2:server", "!ping"),
                ],
            },
            RoomUpdate {
                room_id: String::from("!b:server"),
                events: vec![message("@u3:server", "!issues")],
            },
        ],
    };
    let events = state.begin_cycle(&update);
    assert_eq!(events.len(), 3);
    assert_eq!(events[0].room_id, "!a:server");
    assert_eq!(events[0].sender, "@u1:server");
    assert_eq!(events[0].body, "hello");
    assert_eq!(events[1].body, "!ping");
    assert_eq!(events[2].room_id, "!b:server");
    assert_eq!(events[2].body, "!issues");
}

#[test]
fn non_message_events_are_dropped() {
    let mut state = SyncLoopState::new(String::from("t0"));
    let update = SyncUpdate {
        next_token: String::from("t1"),
        rooms: vec![RoomUpdate {
            room_id: String::from("!a:server"),
            events: vec![TimelineEvent::Other, TimelineEvent::Other],
        }],
    };
    assert!(state.begin_cycle(&update).is_empty());
}

#[test]
fn ticketing_endpoints() {
    assert_eq!(account_url("https://rm"), "https://rm/my/account.json");
    assert_eq!(open_issues_url("https://rm"), "https://rm/issues.json?status_id=open");
    assert_eq!(issue_url("https://rm", 42), "https://rm/issue.json?issue_id=42");
}

#[test]
fn only_ok_status_keeps_the_key() {
    assert!(api_key_accepted(200));
    assert!(!api_key_accepted(401));
    assert!(!api_key_accepted(500));
}

#[test]
fn config_defaults() {
    let config = Config::default();
    assert_eq!(config.matrix_server, "https://matrix.org");
    assert_eq!(config.matrix_login, "user");
    assert_eq!(config.matrix_password, "password");
    assert!(config.matrix_session.is_none());
    assert_eq!(config.redmine_server, "https://redmine-server.com");
    assert!(config.redmine_token.is_none());
}
