use s3rm_rs::callback::event_manager::{EventDispatch, PipelineCounters};
use s3rm_rs::callback::user_defined::{event_label, UserDefinedEventCallback, UserDefinedFilterCallback};
use s3rm_rs::lua::{lua_vm_mode, LuaVmMode};
use s3rm_rs::event::{
    EventData, ALL_EVENTS, DELETE_COMPLETE, DELETE_FAILED, DELETE_FILTERED, DELETE_WARNING, PIPELINE_END,
    PIPELINE_ERROR, PIPELINE_START, STATS_REPORT,
};

#[test]
fn user_defined_event_callback_new_creates_disabled_callback() {
    let callback = UserDefinedEventCallback::new();
    assert!(!callback.enable);
    assert!(!callback.is_enabled());
}

#[test]
fn user_defined_event_callback_enable_field_controls_is_enabled() {
    let mut callback = UserDefinedEventCallback::new();
    callback.enable = true;
    assert!(callback.is_enabled());
}

#[test]
fn user_defined_filter_callback_new_creates_disabled_callback() {
    let callback = UserDefinedFilterCallback::new();
    assert!(!callback.enable);
    assert!(!callback.is_enabled());
}

#[test]
fn user_defined_filter_callback_enable_field_controls_is_enabled() {
    let mut callback = UserDefinedFilterCallback::new();
    callback.enable = true;
    assert!(callback.is_enabled());
}

#[test]
fn new_manager_has_no_callback() {
    let manager = EventDispatch::new();
    assert!(!manager.is_callback_registered());
    assert_eq!(manager.event_flags, ALL_EVENTS);
}

#[test]
fn unregistered_manager_delivers_nothing_but_counts() {
    let mut manager = EventDispatch::new();
    let mut e = EventData::new(DELETE_COMPLETE);
    e.size = Some(10);
    let delivered = manager.trigger_event(e);
    assert!(delivered.is_empty());
    assert_eq!(manager.counters.stats_deleted_objects, 1);
    assert_eq!(manager.counters.stats_deleted_bytes, 10);
}

#[test]
fn register_callback_and_trigger_event() {
    let mut manager = EventDispatch::new();
    manager.register_callback(ALL_EVENTS, false);
    assert!(manager.is_callback_registered());
    let delivered = manager.trigger_event(EventData::new(PIPELINE_START));
    assert_eq!(delivered.len(), 1);
    assert_eq!(delivered[0].event_type, PIPELINE_START);
}

#[test]
fn pipeline_end_sends_stats_report() {
    let mut manager = EventDispatch::new();
    manager.register_callback(ALL_EVENTS, false);
    let mut collected = Vec::new();
    collected.extend(manager.trigger_event(EventData::new(PIPELINE_START)));
    let mut delete_event = EventData::new(DELETE_COMPLETE);
    delete_event.size = Some(1024);
    collected.extend(manager.trigger_event(delete_event));
    collected.extend(manager.trigger_event(EventData::new(PIPELINE_END)));
    assert_eq!(collected.len(), 4);
    assert_eq!(collected[3].event_type, STATS_REPORT);
    assert_eq!(collected[3].stats_deleted_objects, Some(1));
    assert_eq!(collected[3].stats_deleted_bytes, Some(1024));
}

#[test]
fn event_flag_filtering() {
    let mut manager = EventDispatch::new();
    manager.register_callback(DELETE_COMPLETE, false);
    let mut collected = Vec::new();
    collected.extend(manager.trigger_event(EventData::new(PIPELINE_START)));
    collected.extend(manager.trigger_event(EventData::new(DELETE_COMPLETE)));
    assert_eq!(collected.len(), 1);
    assert_eq!(collected[0].event_type, DELETE_COMPLETE);
}

#[test]
fn pipeline_end_without_stats_flag_skips_stats_report() {
    let mut manager = EventDispatch::new();
    manager.register_callback(PIPELINE_START | PIPELINE_END, false);
    let mut collected = Vec::new();
    collected.extend(manager.trigger_event(EventData::new(PIPELINE_START)));
    collected.extend(manager.trigger_event(EventData::new(PIPELINE_END)));
    assert_eq!(collected.len(), 2);
    assert_eq!(collected[0].event_type, PIPELINE_START);
    assert_eq!(collected[1].event_type, PIPELINE_END);
}

#[test]
fn dry_run_flag_propagated() {
    let mut manager = EventDispatch::new();
    manager.register_callback(ALL_EVENTS, true);
    let collected = manager.trigger_event(EventData::new(PIPELINE_START));
    assert!(collected[0].dry_run);
}

#[test]
fn pipeline_stats_to_event_data() {
    let counters = PipelineCounters {
        stats_deleted_objects: 100,
        stats_deleted_bytes: 50_000,
        stats_failed_objects: 5,
        stats_skipped_objects: 10,
        stats_warning_count: 2,
        stats_error_count: 1,
    };
    let event_data = counters.stats_report(false);
    assert_eq!(event_data.event_type, STATS_REPORT);
    assert_eq!(event_data.stats_deleted_objects, Some(100));
    assert_eq!(event_data.stats_deleted_bytes, Some(50_000));
    assert_eq!(event_data.stats_failed_objects, Some(5));
    assert_eq!(event_data.stats_skipped_objects, Some(10));
}

#[test]
fn counters_record_each_event_kind() {
    let mut counters = PipelineCounters::new();
    for t in [DELETE_FAILED, DELETE_FILTERED, DELETE_FILTERED, DELETE_WARNING, PIPELINE_ERROR, PIPELINE_START] {
        let e = EventData::new(t);
        assert!(counters.can_record(&e));
        counters.record(&e);
    }
    assert_eq!(counters.stats_failed_objects, 1);
    assert_eq!(counters.stats_skipped_objects, 2);
    assert_eq!(counters.stats_warning_count, 1);
    assert_eq!(counters.stats_error_count, 1);
    assert_eq!(counters.stats_deleted_objects, 0);
}

#[test]
fn counters_refuse_overflowing_bytes() {
    let mut counters = PipelineCounters::new();
    counters.stats_deleted_bytes = u64::MAX - 1;
    let mut e = EventData::new(DELETE_COMPLETE);
    e.size = Some(2);
    assert!(!counters.can_record(&e));
}

#[test]
fn register_user_defined_callbacks_disabled_by_default() {
    let config = s3rm_rs::config::Config::for_target("test-bucket", "prefix/");
    let mut events = EventDispatch::new();
    let filter_enabled = s3rm_rs::callback::user_defined::register_user_defined_callbacks(&config, &mut events);
    assert!(!filter_enabled);
    assert!(!events.is_callback_registered());
}

#[test]
fn register_user_defined_callbacks_enabled() {
    let mut config = s3rm_rs::config::Config::for_target("test-bucket", "prefix/");
    config.test_user_defined_callback = true;
    config.dry_run = true;
    let mut events = EventDispatch::new();
    let filter_enabled = s3rm_rs::callback::user_defined::register_user_defined_callbacks(&config, &mut events);
    assert!(filter_enabled);
    assert!(events.is_callback_registered());
    assert_eq!(events.event_flags, ALL_EVENTS);
    assert!(events.dry_run);
}

#[test]
fn event_labels_of_the_user_defined_callback() {
    assert_eq!(event_label(PIPELINE_START), "Pipeline started");
    assert_eq!(event_label(STATS_REPORT), "Stats report");
    assert_eq!(event_label(DELETE_WARNING), "Other events");
}

#[test]
fn lua_vm_mode_prefers_unsafe_then_os_libraries() {
    assert_eq!(lua_vm_mode(false, false), LuaVmMode::Sandboxed);
    assert_eq!(lua_vm_mode(true, false), LuaVmMode::AllLibraries);
    assert_eq!(lua_vm_mode(true, true), LuaVmMode::Unsafe);
    assert_eq!(lua_vm_mode(false, true), LuaVmMode::Unsafe);
}
