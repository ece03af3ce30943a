use vpinball_plugin_api::errors::BridgeError;
use vpinball_plugin_api::lifecycle::PluginWrapper;
use vpinball_plugin_api::testhost::{TestMsgPluginAPI, TEST_SESSION_ID};

type Callback = Box<dyn Fn(u32)>;

#[test]
fn test_plugin_load_unload() {
    let mut bus = TestMsgPluginAPI::init(TEST_SESSION_ID);
    let mut wrapper: PluginWrapper<Callback> = PluginWrapper::new();
    wrapper.load(TEST_SESSION_ID).unwrap();

    // bootstrap handshake: resolve GetAPI, broadcast it to our own
    // endpoint; the host writes the secondary API pointer during the call
    let get_api = bus.get_msg_id("VPX", "GetAPI").unwrap();
    let granted = bus.broadcast_msg(TEST_SESSION_ID, get_api);
    wrapper.complete_handshake(granted).unwrap();
    assert!(wrapper.domain_api_available());

    // the plugin's on_load registers a closure for each event it follows
    for name in ["OnGameStart", "OnGameEnd", "OnPrepareFrame", "OnSettingsChanged"] {
        let id = bus.get_msg_id("VPX", name).unwrap();
        wrapper.register(id, Box::new(|_id| {})).unwrap();
        bus.subscribe_msg(id);
    }
    assert_eq!(wrapper.subscription_count(), 4);

    // unload: every subscription comes back out, to be unsubscribed at the
    // host and freed exactly once
    let subs = wrapper.unload().unwrap();
    assert_eq!(subs.len(), 4);
    for sub in &subs {
        bus.unsubscribe_msg(sub.id);
    }
    assert_eq!(wrapper.subscription_count(), 0);
    assert!(!wrapper.domain_api_available());
    assert!(!wrapper.loaded());
}

#[test]
fn lib_test_plugin_load_unload() {
    let bus = TestMsgPluginAPI::init(0);
    let mut wrapper: PluginWrapper<Callback> = PluginWrapper::new();
    wrapper.load(0).unwrap();
    let get_api = bus.get_msg_id("VPX", "GetAPI").unwrap();
    let granted = bus.broadcast_msg(0, get_api);
    wrapper.complete_handshake(granted).unwrap();
    wrapper.unload().unwrap();
    assert!(!wrapper.loaded());
}

#[test]
fn load_then_unload_leaves_nothing_and_second_unload_fails() {
    let mut wrapper: PluginWrapper<Callback> = PluginWrapper::new();
    wrapper.load(TEST_SESSION_ID).unwrap();
    let subs = wrapper.unload().unwrap();
    assert_eq!(subs.len(), 0);
    assert_eq!(wrapper.subscription_count(), 0);
    assert!(!wrapper.domain_api_available());
    assert_eq!(wrapper.unload().err(), Some(BridgeError::LifecycleViolation));
}

#[test]
fn second_load_fails_and_first_session_is_untouched() {
    let mut wrapper: PluginWrapper<Callback> = PluginWrapper::new();
    wrapper.load(TEST_SESSION_ID).unwrap();
    wrapper.register(3, Box::new(|_id| {})).unwrap();
    let again = wrapper.load(77);
    assert_eq!(again, Err(BridgeError::LifecycleViolation));
    assert!(wrapper.loaded());
    assert_eq!(wrapper.endpoint_id(), Some(TEST_SESSION_ID));
    assert_eq!(wrapper.subscription_count(), 1);
}

#[test]
fn register_and_dispatch_need_a_live_session() {
    let mut wrapper: PluginWrapper<Callback> = PluginWrapper::new();
    let r = wrapper.register(1, Box::new(|_id| {}));
    assert_eq!(r.err(), Some(BridgeError::LifecycleViolation));
    assert!(wrapper.dispatch(1).is_none());
    assert_eq!(wrapper.endpoint_id(), None);
}

#[test]
fn domain_api_is_unavailable_before_handshake_and_after_unload() {
    let mut wrapper: PluginWrapper<Callback> = PluginWrapper::new();
    assert_eq!(wrapper.require_domain_api().err(), Some(BridgeError::HostApiUnavailable));
    wrapper.load(TEST_SESSION_ID).unwrap();
    assert_eq!(wrapper.require_domain_api().err(), Some(BridgeError::HostApiUnavailable));
    wrapper.complete_handshake(true).unwrap();
    assert!(wrapper.require_domain_api().is_ok());
    wrapper.unload().unwrap();
    assert_eq!(wrapper.require_domain_api().err(), Some(BridgeError::HostApiUnavailable));
}

#[test]
fn duplicate_registration_in_session_keeps_first_closure() {
    let mut wrapper: PluginWrapper<&'static str> = PluginWrapper::new();
    wrapper.load(1).unwrap();
    wrapper.register(9, "first").unwrap();
    assert_eq!(wrapper.register(9, "second"), Err(BridgeError::DuplicateSubscription));
    assert_eq!(wrapper.dispatch(9), Some(&"first"));
    assert_eq!(wrapper.subscription_count(), 1);
}
