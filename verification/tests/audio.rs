use eucalyptus_twig::audio::{AudioState, AudioUpdate, Volume, peak_volume};

#[test]
fn peak_is_the_maximum_channel() {
    assert_eq!(peak_volume(&vec![]), None);
    assert_eq!(peak_volume(&vec![7]), Some(7));
    assert_eq!(peak_volume(&vec![3, 7, 5]), Some(7));
    assert_eq!(peak_volume(&vec![9, 1, 9]), Some(9));
}

#[test]
fn switch_publishes_the_switched_to_nodes_cache() {
    let mut s = AudioState::new();
    // Events for two nodes arrive before any default sink is known;
    // nothing is forwarded yet.
    assert_eq!(s.node_channel_volumes("a", &vec![10, 40, 20]), None);
    assert_eq!(s.node_mute("a", true), None);
    assert_eq!(s.node_channel_volumes("b", &vec![99]), None);
    assert_eq!(s.node_mute("b", false), None);
    // The default switches to "a": its cached values are published, not
    // the other node's.
    let out = s.handle_metadata(
        Some("default.audio.sink"),
        Some("Spa:String:JSON"),
        Some(r#"{"name":"a"}"#),
    );
    assert_eq!(out, vec![AudioUpdate::Mute(Some(true)), AudioUpdate::Volume(Some(40))]);
    // A newer event for "a" updates the cache; switching again republishes
    // the most recent values.
    assert_eq!(s.node_channel_volumes("a", &vec![55]), Some(AudioUpdate::Volume(Some(55))));
    let out = s.handle_metadata(
        Some("default.audio.sink"),
        Some("Spa:String:JSON"),
        Some(r#"{"name":"a"}"#),
    );
    assert_eq!(out, vec![AudioUpdate::Mute(Some(true)), AudioUpdate::Volume(Some(55))]);
}

#[test]
fn only_default_node_events_are_forwarded() {
    let mut s = AudioState::new();
    s.handle_metadata(
        Some("default.audio.sink"),
        Some("Spa:String:JSON"),
        Some(r#"{"name":"a"}"#),
    );
    assert_eq!(s.node_mute("a", true), Some(AudioUpdate::Mute(Some(true))));
    assert_eq!(s.node_mute("b", true), None);
    assert_eq!(s.node_channel_volumes("b", &vec![80]), None);
    assert_eq!(s.node_channel_volumes("a", &vec![30, 60]), Some(AudioUpdate::Volume(Some(60))));
    // An empty channel array clears the forwarded volume.
    assert_eq!(s.node_channel_volumes("a", &vec![]), Some(AudioUpdate::Volume(None)));
}

#[test]
fn switch_to_unseen_node_publishes_unknown() {
    let mut s = AudioState::new();
    s.node_mute("other", true);
    let out = s.handle_metadata(
        Some("default.audio.sink"),
        Some("Spa:String:JSON"),
        Some(r#"{"name":"fresh"}"#),
    );
    assert_eq!(out, vec![AudioUpdate::Mute(None), AudioUpdate::Volume(None)]);
}

#[test]
fn malformed_json_keeps_previous_default() {
    let mut s = AudioState::new();
    s.node_mute("a", true);
    s.handle_metadata(
        Some("default.audio.sink"),
        Some("Spa:String:JSON"),
        Some(r#"{"name":"a"}"#),
    );
    // Truncated JSON: nothing published, pointer unchanged.
    let out = s.handle_metadata(
        Some("default.audio.sink"),
        Some("Spa:String:JSON"),
        Some(r#"{"nam"#),
    );
    assert_eq!(out, vec![]);
    // JSON of the wrong shape: same.
    let out = s.handle_metadata(
        Some("default.audio.sink"),
        Some("Spa:String:JSON"),
        Some(r#"{"label":"b"}"#),
    );
    assert_eq!(out, vec![]);
    // "a" is still the default: its events are still forwarded.
    assert_eq!(s.node_mute("a", false), Some(AudioUpdate::Mute(Some(false))));
}

#[test]
fn unexpected_type_is_ignored() {
    let mut s = AudioState::new();
    s.handle_metadata(
        Some("default.audio.sink"),
        Some("Spa:String:JSON"),
        Some(r#"{"name":"a"}"#),
    );
    let out = s.handle_metadata(
        Some("default.audio.sink"),
        Some("Spa:String"),
        Some(r#"{"name":"b"}"#),
    );
    assert_eq!(out, vec![]);
    assert_eq!(s.node_mute("a", true), Some(AudioUpdate::Mute(Some(true))));
}

#[test]
fn cleared_key_drops_the_pointer_without_stale_data() {
    let mut s = AudioState::new();
    s.node_mute("a", true);
    s.handle_metadata(
        Some("default.audio.sink"),
        Some("Spa:String:JSON"),
        Some(r#"{"name":"a"}"#),
    );
    let out = s.handle_metadata(Some("default.audio.sink"), None, None);
    assert_eq!(out, vec![]);
    // No default any more: nothing is forwarded.
    assert_eq!(s.node_mute("a", false), None);
    // A cleared subject (no key at all) drops the pointer too.
    s.handle_metadata(
        Some("default.audio.sink"),
        Some("Spa:String:JSON"),
        Some(r#"{"name":"a"}"#),
    );
    s.handle_metadata(None, None, None);
    assert_eq!(s.node_mute("a", true), None);
}

#[test]
fn unrelated_keys_are_ignored() {
    let mut s = AudioState::new();
    let out = s.handle_metadata(
        Some("default.audio.source"),
        Some("Spa:String:JSON"),
        Some(r#"{"name":"mic"}"#),
    );
    assert_eq!(out, vec![]);
    assert_eq!(s.node_mute("mic", true), None);
}

#[test]
fn widget_applies_updates_fieldwise() {
    let mut v = Volume::new();
    assert!(v.error_message.is_none() && v.mute.is_none() && v.volume.is_none());
    v.apply_update(AudioUpdate::Volume(Some(42)));
    assert_eq!(v.volume, Some(42));
    v.apply_update(AudioUpdate::Mute(Some(true)));
    assert_eq!(v.mute, Some(true));
    assert_eq!(v.volume, Some(42));
    v.apply_update(AudioUpdate::Volume(None));
    assert_eq!(v.volume, None);
    v.apply_update(AudioUpdate::ErrorMessage("loop died".to_owned()));
    assert_eq!(v.error_message.as_deref(), Some("loop died"));
    assert_eq!(v.mute, Some(true));
}

use eucalyptus_twig::audio::{GlobalAction, GlobalKind, classify_global};

#[test]
fn registry_globals_classify() {
    assert_eq!(
        classify_global(GlobalKind::Node, Some("Audio/Sink"), Some("alsa.card"), None),
        GlobalAction::BindSinkNode("alsa.card".to_owned())
    );
    assert_eq!(
        classify_global(GlobalKind::Node, Some("Audio/Sink"), None, None),
        GlobalAction::SinkWithoutName
    );
    assert_eq!(
        classify_global(GlobalKind::Node, Some("Video/Source"), Some("cam"), None),
        GlobalAction::Ignore
    );
    assert_eq!(
        classify_global(GlobalKind::Node, None, Some("cam"), None),
        GlobalAction::Ignore
    );
    assert_eq!(
        classify_global(GlobalKind::Metadata, None, None, Some("default")),
        GlobalAction::BindDefaultMetadata
    );
    assert_eq!(
        classify_global(GlobalKind::Metadata, None, None, Some("settings")),
        GlobalAction::Ignore
    );
    assert_eq!(classify_global(GlobalKind::Other, None, None, None), GlobalAction::Ignore);
}

use eucalyptus_twig::audio::VolumeIndicator;

#[test]
fn volume_indicator_mute_wins_over_level() {
    let mut v = Volume::new();
    assert_eq!(v.indicator(), VolumeIndicator::Unknown);
    v.apply_update(AudioUpdate::Volume(Some(700_000)));
    assert_eq!(v.indicator(), VolumeIndicator::Level(700_000));
    v.apply_update(AudioUpdate::Mute(Some(true)));
    assert_eq!(v.indicator(), VolumeIndicator::Muted);
    v.apply_update(AudioUpdate::Mute(Some(false)));
    assert_eq!(v.indicator(), VolumeIndicator::Level(700_000));
    v.apply_update(AudioUpdate::Volume(None));
    assert_eq!(v.indicator(), VolumeIndicator::Unknown);
    v.apply_update(AudioUpdate::ErrorMessage("gone".to_owned()));
    assert_eq!(v.indicator(), VolumeIndicator::Error);
}
