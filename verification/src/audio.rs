//! Audio graph driver: every sink node's mute flag and peak channel
//! volume are cached in a map keyed by node name, populated lazily as
//! property events arrive; only the record of the *current default sink*
//! is ever surfaced to the widget. A default-sink metadata event carries
//! a JSON payload naming the new default; on a successful parse the new
//! default's cached values are published immediately (even if that node's
//! own properties did not change), on a malformed payload the previous
//! pointer and previously published values stay untouched.
//!
//! Volumes are linear channel levels scaled to an integer range by the
//! transport before they reach this module; the peak is the maximum
//! across channels (a deliberate simplification, not an average).

use vstd::prelude::*;

verus! {

use crate::assoc::NameMap;
use crate::text::str_eq;

/// What is known about one node: each half is absent until its first
/// property event.
#[derive(PartialEq, Eq, Structural, Clone, Copy, Debug)]
pub struct NodeRecord {
    pub mute: Option<bool>,
    pub volume: Option<u32>,
}

/// One update forwarded to the widget's context.
#[derive(PartialEq, Eq, Clone, Debug)]
pub enum AudioUpdate {
    Volume(Option<u32>),
    Mute(Option<bool>),
    ErrorMessage(String),
}

/// The empty record used before any event for a node was seen.
pub open spec fn empty_record() -> NodeRecord {
    NodeRecord { mute: None, volume: None }
}

/// The cached record for `n`, or the empty record if `n` was never seen.
pub open spec fn cache_record(m: Map<Seq<char>, NodeRecord>, n: Seq<char>) -> NodeRecord {
    if m.contains_key(n) {
        m[n]
    } else {
        empty_record()
    }
}

/// A volume event overwrites the volume half and keeps the mute half.
pub open spec fn merge_volume(r: NodeRecord, v: Option<u32>) -> NodeRecord {
    NodeRecord { mute: r.mute, volume: v }
}

/// A mute event overwrites the mute half and keeps the volume half.
pub open spec fn merge_mute(r: NodeRecord, b: bool) -> NodeRecord {
    NodeRecord { mute: Some(b), volume: r.volume }
}

/// The peak (maximum) of a channel-volume array; an empty array has none.
pub open spec fn spec_peak(s: Seq<u32>) -> Option<u32>
    decreases s.len(),
{
    if s.len() == 0 {
        None
    } else {
        match spec_peak(s.drop_last()) {
            None => Some(s.last()),
            Some(m) => Some(
                if s.last() > m {
                    s.last()
                } else {
                    m
                },
            ),
        }
    }
}

/// Reduce a channel-volume array to its peak.
pub fn peak_volume(channels: &Vec<u32>) -> (r: Option<u32>)
    ensures
        r == spec_peak(channels@),
{
    let mut r: Option<u32> = None;
    let mut i: usize = 0;
    while i < channels.len()
        invariant
            i <= channels@.len(),
            r == spec_peak(channels@.subrange(0, i as int)),
        decreases channels@.len() - i,
    {
        let c = channels[i];
        proof {
            assert(channels@.subrange(0, i + 1).drop_last() =~= channels@.subrange(0, i as int));
            assert(channels@.subrange(0, i + 1).last() == channels@[i as int]);
        }
        r = match r {
            None => Some(c),
            Some(m) => Some(
                if c > m {
                    c
                } else {
                    m
                },
            ),
        };
        i += 1;
    }
    proof {
        assert(channels@.subrange(0, channels@.len() as int) =~= channels@);
    }
    r
}

/// What the registry listener does with a newly discovered global object.
#[derive(PartialEq, Eq, Clone, Debug)]
pub enum GlobalAction {
    /// An audio sink node with a name: bind it and subscribe to its
    /// property events under that name.
    BindSinkNode(String),
    /// The well-known "default" metadata object: bind it and subscribe to
    /// its property events.
    BindDefaultMetadata,
    /// A sink node without a name cannot be keyed: log and skip it.
    SinkWithoutName,
    /// Anything else on the registry is not this driver's business.
    Ignore,
}

/// The kind of a registry global, as far as this driver cares.
#[derive(PartialEq, Eq, Structural, Clone, Copy, Debug)]
pub enum GlobalKind {
    Node,
    Metadata,
    Other,
}

/// Decide what to do with a discovered global: bind an audio sink node
/// (identified by its `media.class` property) under its `node.name`, bind
/// the metadata object named "default", ignore everything else.
pub fn classify_global(
    kind: GlobalKind,
    media_class: Option<&str>,
    node_name: Option<&str>,
    metadata_name: Option<&str>,
) -> (r: GlobalAction)
    ensures
        kind is Node && (media_class matches Some(c) && c@ == "Audio/Sink"@) ==> match node_name {
            Some(n) => r matches GlobalAction::BindSinkNode(b) && b@ == n@,
            None => r == GlobalAction::SinkWithoutName,
        },
        kind is Node && !(media_class matches Some(c) && c@ == "Audio/Sink"@) ==> r
            == GlobalAction::Ignore,
        kind is Metadata ==> if metadata_name matches Some(m) && m@ == "default"@ {
            r == GlobalAction::BindDefaultMetadata
        } else {
            r == GlobalAction::Ignore
        },
        kind is Other ==> r == GlobalAction::Ignore,
{
    match kind {
        GlobalKind::Node => {
            let is_sink = match media_class {
                Some(c) => str_eq(c, "Audio/Sink"),
                None => false,
            };
            if !is_sink {
                return GlobalAction::Ignore;
            }
            match node_name {
                Some(n) => GlobalAction::BindSinkNode(n.to_owned()),
                None => GlobalAction::SinkWithoutName,
            }
        },
        GlobalKind::Metadata => {
            let is_default = match metadata_name {
                Some(m) => str_eq(m, "default"),
                None => false,
            };
            if is_default {
                GlobalAction::BindDefaultMetadata
            } else {
                GlobalAction::Ignore
            }
        },
        GlobalKind::Other => GlobalAction::Ignore,
    }
}

/// Relies on `serde_json::from_str` (and `Value::get` / `Value::as_str`):
/// the metadata value for the default sink is a JSON object
/// `{"name": <node-name>}`, and what parsing yields is a function of the
/// string alone, named here by `sink_name_of`.
pub uninterp spec fn sink_name_of(s: Seq<char>) -> Option<Seq<char>>;

#[verifier::external_body]
fn parse_default_sink(value: &str) -> (r: Option<String>)
    ensures
        match r {
            Some(n) => sink_name_of(value@) == Some(n@),
            None => sink_name_of(value@) is None,
        },
{
    let v: serde_json::Value = serde_json::from_str(value).ok()?;
    let name = v.get("name")?.as_str()?;
    Some(name.to_owned())
}

/// The driver's private protocol state: the per-node cache and the
/// default-sink pointer.
pub struct AudioState {
    pub volumes: NameMap<NodeRecord>,
    pub default_sink: Option<String>,
}

/// `node` is the current default sink of `s`.
pub open spec fn spec_is_default(s: AudioState, node: Seq<char>) -> bool {
    match s.default_sink {
        Some(d) => d@ == node,
        None => false,
    }
}

impl AudioState {
    /// The node cache is a well-formed map.
    pub open spec fn wf(self) -> bool {
        self.volumes.wf()
    }

    /// Fresh state: nothing cached, no default sink known.
    pub fn new() -> (r: AudioState)
        ensures
            r.wf(),
            r.volumes@ == Map::<Seq<char>, NodeRecord>::empty(),
            r.default_sink is None,
    {
        AudioState { volumes: NameMap::new(), default_sink: None }
    }

    /// Is `node` the current default sink?
    fn is_default(&self, node: &str) -> (r: bool)
        ensures
            r == spec_is_default(*self, node@),
    {
        match &self.default_sink {
            Some(d) => str_eq(d.as_str(), node),
            None => false,
        }
    }

    /// A channel-volumes property event for `node`: cache its peak, and
    /// forward it exactly when `node` is the current default sink.
    pub fn node_channel_volumes(&mut self, node: &str, channels: &Vec<u32>) -> (r: Option<
        AudioUpdate,
    >)
        requires
            old(self).wf(),
        ensures
            final(self).wf(),
            final(self).volumes@ == old(self).volumes@.insert(
                node@,
                merge_volume(cache_record(old(self).volumes@, node@), spec_peak(channels@)),
            ),
            final(self).default_sink == old(self).default_sink,
            r == if spec_is_default(*old(self), node@) {
                Some(AudioUpdate::Volume(spec_peak(channels@)))
            } else {
                None::<AudioUpdate>
            },
    {
        let peak = peak_volume(channels);
        let out = if self.is_default(node) {
            Some(AudioUpdate::Volume(peak))
        } else {
            None
        };
        let mute = match self.volumes.get(node) {
            Some(rec) => rec.mute,
            None => None,
        };
        self.volumes.insert(node.to_owned(), NodeRecord { mute, volume: peak });
        out
    }

    /// A mute property event for `node`: cache it, and forward it exactly
    /// when `node` is the current default sink.
    pub fn node_mute(&mut self, node: &str, mute: bool) -> (r: Option<AudioUpdate>)
        requires
            old(self).wf(),
        ensures
            final(self).wf(),
            final(self).volumes@ == old(self).volumes@.insert(
                node@,
                merge_mute(cache_record(old(self).volumes@, node@), mute),
            ),
            final(self).default_sink == old(self).default_sink,
            r == if spec_is_default(*old(self), node@) {
                Some(AudioUpdate::Mute(Some(mute)))
            } else {
                None::<AudioUpdate>
            },
    {
        let out = if self.is_default(node) {
            Some(AudioUpdate::Mute(Some(mute)))
        } else {
            None
        };
        let volume = match self.volumes.get(node) {
            Some(rec) => rec.volume,
            None => None,
        };
        self.volumes.insert(node.to_owned(), NodeRecord { mute: Some(mute), volume });
        out
    }

    /// The default sink switched to `name` (already parsed): publish that
    /// node's cached mute and volume immediately — the values most
    /// recently cached for it, never the previous default's — then move
    /// the pointer. A node never seen publishes unknown/unknown.
    pub fn apply_default_sink_change(&mut self, name: String) -> (r: Vec<AudioUpdate>)
        requires
            old(self).wf(),
        ensures
            final(self).wf(),
            final(self).volumes@ == old(self).volumes@,
            final(self).default_sink == Some(name),
            r@ == seq![
                AudioUpdate::Mute(cache_record(old(self).volumes@, name@).mute),
                AudioUpdate::Volume(cache_record(old(self).volumes@, name@).volume),
            ],
    {
        let rec = match self.volumes.get(name.as_str()) {
            Some(rec) => *rec,
            None => NodeRecord { mute: None, volume: None },
        };
        let mut out: Vec<AudioUpdate> = Vec::new();
        out.push(AudioUpdate::Mute(rec.mute));
        out.push(AudioUpdate::Volume(rec.volume));
        self.default_sink = Some(name);
        proof {
            assert(out@ =~= seq![
                AudioUpdate::Mute(cache_record(old(self).volumes@, final(self).default_sink->0@).mute),
                AudioUpdate::Volume(
                    cache_record(old(self).volumes@, final(self).default_sink->0@).volume,
                ),
            ]);
        }
        out
    }

    /// The default-sink key was cleared: drop the pointer without
    /// forwarding stale data.
    pub fn clear_default_sink(&mut self)
        ensures
            final(self).wf() == old(self).wf(),
            final(self).volumes@ == old(self).volumes@,
            final(self).default_sink is None,
    {
        self.default_sink = None;
    }

    /// A metadata property event. Only the `default.audio.sink` key is
    /// acted on: a JSON value switches the default sink to the node the
    /// payload names (publishing its cached values), a cleared value (or
    /// cleared key) drops the pointer, a malformed payload — wrong type,
    /// or JSON that does not name a node — changes nothing, so the
    /// previous pointer and the previously published values stay.
    pub fn handle_metadata(&mut self, key: Option<&str>, type_: Option<&str>, value: Option<&str>)
        -> (r: Vec<AudioUpdate>)
        requires
            old(self).wf(),
        ensures
            final(self).wf(),
            final(self).volumes@ == old(self).volumes@,
            ({
                let is_sink_key = key matches Some(k) && k@ == "default.audio.sink"@;
                let is_json = type_ matches Some(t) && t@ == "Spa:String:JSON"@;
                if key is None || (is_sink_key && value is None) {
                    final(self).default_sink is None && r@ =~= Seq::<AudioUpdate>::empty()
                } else if is_sink_key && is_json && value is Some {
                    match sink_name_of(value->0@) {
                        Some(n) => final(self).default_sink matches Some(d) && d@ == n && r@
                            == seq![
                            AudioUpdate::Mute(cache_record(old(self).volumes@, n).mute),
                            AudioUpdate::Volume(cache_record(old(self).volumes@, n).volume),
                        ],
                        None => final(self).default_sink == old(self).default_sink && r@
                            =~= Seq::<AudioUpdate>::empty(),
                    }
                } else {
                    final(self).default_sink == old(self).default_sink && r@
                        =~= Seq::<AudioUpdate>::empty()
                }
            }),
    {
        let is_sink_key = match key {
            Some(k) => str_eq(k, "default.audio.sink"),
            None => false,
        };
        let is_json = match type_ {
            Some(t) => str_eq(t, "Spa:String:JSON"),
            None => false,
        };
        if key.is_none() {
            self.clear_default_sink();
            return Vec::new();
        }
        if is_sink_key {
            match value {
                None => {
                    self.clear_default_sink();
                    Vec::new()
                },
                Some(v) => {
                    if is_json {
                        match parse_default_sink(v) {
                            Some(name) => self.apply_default_sink_change(name),
                            None => Vec::new(),
                        }
                    } else {
                        Vec::new()
                    }
                },
            }
        } else {
            Vec::new()
        }
    }
}

// ---------------------------------------------------------------------------
// The widget state.
// ---------------------------------------------------------------------------
/// Snapshot of the default sink as the widget renders it.
pub struct Volume {
    pub error_message: Option<String>,
    pub mute: Option<bool>,
    pub volume: Option<u32>,
}

/// What the widget should draw: an error message, the muted glyph (mute
/// wins over any volume), a level (the scaled linear volume, shaped into
/// a percentage by the renderer), or a placeholder while the level is
/// unknown.
#[derive(PartialEq, Eq, Structural, Clone, Copy, Debug)]
pub enum VolumeIndicator {
    Error,
    Muted,
    Level(u32),
    Unknown,
}

/// What [`Volume::indicator`] returns, as a function of the snapshot.
pub open spec fn spec_volume_indicator(v: Volume) -> VolumeIndicator {
    if v.error_message is Some {
        VolumeIndicator::Error
    } else if v.mute == Some(true) {
        VolumeIndicator::Muted
    } else if v.volume is Some {
        VolumeIndicator::Level(v.volume->0)
    } else {
        VolumeIndicator::Unknown
    }
}

impl Volume {
    /// Fresh snapshot: nothing known yet.
    pub fn new() -> (r: Volume)
        ensures
            r.error_message is None,
            r.mute is None,
            r.volume is None,
    {
        Volume { error_message: None, mute: None, volume: None }
    }

    /// Decide what the widget draws from the current snapshot.
    pub fn indicator(&self) -> (r: VolumeIndicator)
        ensures
            r == spec_volume_indicator(*self),
    {
        if self.error_message.is_some() {
            VolumeIndicator::Error
        } else if self.mute == Some(true) {
            VolumeIndicator::Muted
        } else {
            match self.volume {
                Some(v) => VolumeIndicator::Level(v),
                None => VolumeIndicator::Unknown,
            }
        }
    }

    /// Apply one forwarded update.
    pub fn apply_update(&mut self, u: AudioUpdate)
        ensures
            (u matches AudioUpdate::Volume(v) ==> final(self).volume == v && final(self).mute
                == old(self).mute && final(self).error_message == old(self).error_message),
            (u matches AudioUpdate::Mute(m) ==> final(self).mute == m && final(self).volume == old(
                self,
            ).volume && final(self).error_message == old(self).error_message),
            (u matches AudioUpdate::ErrorMessage(e) ==> final(self).error_message == Some(e)
                && final(self).volume == old(self).volume && final(self).mute == old(self).mute),
    {
        match u {
            AudioUpdate::Volume(v) => {
                self.volume = v;
            },
            AudioUpdate::Mute(m) => {
                self.mute = m;
            },
            AudioUpdate::ErrorMessage(e) => {
                self.error_message = Some(e);
            },
        }
    }
}

// ---------------------------------------------------------------------------
// The cache-correctness law: after any sequence of node property events,
// the record cached for a node holds exactly the most recent peak and the
// most recent mute flag observed for that node, so the switch-time
// publication in `apply_default_sink_change` surfaces the latest values.
// ---------------------------------------------------------------------------
/// One node property event, at the level the cache sees.
pub enum NodeEvent {
    ChannelVolumes { node: Seq<char>, channels: Seq<u32> },
    MuteFlag { node: Seq<char>, mute: bool },
}

/// How one event transforms the cache (exactly what
/// [`AudioState::node_channel_volumes`] and [`AudioState::node_mute`]
/// ensure).
pub open spec fn apply_node_event(m: Map<Seq<char>, NodeRecord>, e: NodeEvent) -> Map<
    Seq<char>,
    NodeRecord,
> {
    match e {
        NodeEvent::ChannelVolumes { node, channels } => m.insert(
            node,
            merge_volume(cache_record(m, node), spec_peak(channels)),
        ),
        NodeEvent::MuteFlag { node, mute } => m.insert(node, merge_mute(cache_record(m, node), mute)),
    }
}

/// A whole event sequence folded over a cache.
pub open spec fn apply_node_events(m: Map<Seq<char>, NodeRecord>, es: Seq<NodeEvent>) -> Map<
    Seq<char>,
    NodeRecord,
>
    decreases es.len(),
{
    if es.len() == 0 {
        m
    } else {
        apply_node_event(apply_node_events(m, es.drop_last()), es.last())
    }
}

/// The record the events alone dictate for node `n`: the peak of the last
/// channel-volumes event and the flag of the last mute event, each absent
/// until first observed.
pub open spec fn latest_record(es: Seq<NodeEvent>, n: Seq<char>) -> NodeRecord
    decreases es.len(),
{
    if es.len() == 0 {
        empty_record()
    } else {
        let r = latest_record(es.drop_last(), n);
        match es.last() {
            NodeEvent::ChannelVolumes { node, channels } => if node == n {
                merge_volume(r, spec_peak(channels))
            } else {
                r
            },
            NodeEvent::MuteFlag { node, mute } => if node == n {
                merge_mute(r, mute)
            } else {
                r
            },
        }
    }
}

/// Starting from an empty cache, the cached record of every node equals
/// the record its own most recent events dictate: a default-sink switch
/// to node `n` therefore publishes `n`'s latest observed values, never
/// the previous default's.
pub proof fn lemma_cache_holds_latest(es: Seq<NodeEvent>, n: Seq<char>)
    ensures
        cache_record(apply_node_events(Map::<Seq<char>, NodeRecord>::empty(), es), n)
            == latest_record(es, n),
    decreases es.len(),
{
    if es.len() > 0 {
        lemma_cache_holds_latest(es.drop_last(), n);
    }
}

} // verus!
