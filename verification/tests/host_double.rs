use vpinball_plugin_api::errors::BridgeError;
use vpinball_plugin_api::testhost::{TestMsgPluginAPI, TestVPXPluginAPI, TEST_SESSION_ID};

#[test]
fn well_known_messages_resolve_to_fixed_ids() {
    let bus = TestMsgPluginAPI::init(TEST_SESSION_ID);
    assert_eq!(bus.get_msg_id("VPX", "OnGameStart"), Ok(1));
    assert_eq!(bus.get_msg_id("VPX", "OnGameEnd"), Ok(2));
    assert_eq!(bus.get_msg_id("VPX", "OnPrepareFrame"), Ok(3));
    assert_eq!(bus.get_msg_id("VPX", "OnSettingsChanged"), Ok(4));
    assert_eq!(bus.get_msg_id("VPX", "GetAPI"), Ok(5));
}

#[test]
fn unknown_messages_are_rejected() {
    let bus = TestMsgPluginAPI::init(TEST_SESSION_ID);
    assert_eq!(bus.get_msg_id("VPX", "OnCoinInserted"), Err(BridgeError::UnknownMessage));
    assert_eq!(bus.get_msg_id("PinMAME", "OnGameStart"), Err(BridgeError::UnknownMessage));
    assert_eq!(bus.get_msg_id("", ""), Err(BridgeError::UnknownMessage));
}

#[test]
fn broadcast_hands_out_the_api_only_for_get_api_to_own_session() {
    let bus = TestMsgPluginAPI::init(TEST_SESSION_ID);
    assert!(bus.broadcast_msg(TEST_SESSION_ID, 5));
    assert!(!bus.broadcast_msg(TEST_SESSION_ID, 1));
    assert!(!bus.broadcast_msg(TEST_SESSION_ID + 1, 5));
}

#[test]
fn unsubscribe_removes_one_matching_subscription() {
    let mut bus = TestMsgPluginAPI::init(TEST_SESSION_ID);
    bus.subscribe_msg(1);
    bus.subscribe_msg(2);
    bus.subscribe_msg(2);
    assert_eq!(bus.subscription_ids(), &vec![1, 2, 2]);
    bus.unsubscribe_msg(1);
    assert_eq!(bus.subscription_ids(), &vec![2, 2]);
    bus.unsubscribe_msg(1);
    bus.unsubscribe_msg(3);
    assert_eq!(bus.subscription_ids(), &vec![2, 2]);
    bus.unsubscribe_msg(2);
    assert_eq!(bus.subscription_ids(), &vec![2]);
    bus.unsubscribe_msg(2);
    assert_eq!(bus.subscription_ids(), &Vec::new());
}

#[test]
fn domain_api_double_answers_defaults_and_records_notifications() {
    let mut vpx = TestVPXPluginAPI::init();
    assert_eq!(vpx.get_option(), 0);
    assert_eq!(vpx.notifications_shown(), 0);
    vpx.push_notification(b"Hello World".to_vec(), 5000);
    vpx.push_notification(b"Bye".to_vec(), 100);
    assert_eq!(vpx.notifications_shown(), 2);
}
