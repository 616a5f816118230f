use vstd::prelude::*;
use vstd::string::*;

verus! {

/// The media kind of a discovered stream.
#[derive(Clone, Copy, Debug, PartialEq, Eq, Structural)]
pub enum StreamKind {
    Audio,
    Video,
    Other,
}

/// The kind named by a stream's media type (`audio/...`, `video/...`).
pub open spec fn kind_of(media_type: Seq<char>) -> StreamKind {
    if "audio/"@.is_prefix_of(media_type) {
        StreamKind::Audio
    } else if "video/"@.is_prefix_of(media_type) {
        StreamKind::Video
    } else {
        StreamKind::Other
    }
}

/// Whether `s` starts with `p`.
pub fn has_prefix(s: &str, p: &str) -> (r: bool)
    ensures
        r == p@.is_prefix_of(s@),
{
    let n = s.unicode_len();
    let m = p.unicode_len();
    if m > n {
        return false;
    }
    let mut i: usize = 0;
    while i < m
        invariant
            m == p@.len(),
            n == s@.len(),
            m <= n,
            i <= m,
            forall|k: int| 0 <= k < i ==> p@[k] == s@[k],
        decreases m - i,
    {
        if p.get_char(i) != s.get_char(i) {
            return false;
        }
        i = i + 1;
    }
    assert(p@ =~= s@.subrange(0, m as int));
    true
}

/// Classifies a stream by its media type.
pub fn classify_stream(media_type: &str) -> (r: StreamKind)
    ensures
        r == kind_of(media_type@),
{
    if has_prefix(media_type, "audio/") {
        StreamKind::Audio
    } else if has_prefix(media_type, "video/") {
        StreamKind::Video
    } else {
        StreamKind::Other
    }
}

/// The negotiated capabilities of a discovered stream.
#[derive(Clone, Debug, PartialEq, Eq)]
pub struct StreamCaps {
    /// The media type, such as `video/x-raw`.
    pub media_type: String,
    pub width: Option<i32>,
    pub height: Option<i32>,
}

/// One of the two mixers.
#[derive(Clone, Copy, Debug, PartialEq, Eq, Structural)]
pub enum MixerKind {
    Audio,
    Video,
}

/// A permanent edge from a discovered stream to an input of a mixer.
#[derive(Clone, Debug, PartialEq, Eq)]
pub struct Connection {
    pub stream_id: String,
    pub mixer: MixerKind,
    pub input: u32,
}

/// What the worker must build for one discovered stream.
#[derive(Clone, Copy, Debug, PartialEq, Eq, Structural)]
pub enum LinkPlan {
    /// Insert convert, resample and queue nodes, link the stream through
    /// them into this input of the audio mixer, and sync their states.
    AudioChain { input: u32 },
    /// Request this input of the video mixer, give it the compositing order
    /// `zorder` (background) and the stream's dimensions, set the overlay's
    /// capabilities to the same dimensions and make the overlay renegotiate,
    /// then link the stream to the input.
    VideoInput { input: u32, zorder: u32, width: i32, height: i32 },
    /// Neither audio nor video: nothing is done.
    Ignore,
}

/// Why a stream cannot be linked. Each is fatal for that stream.
#[derive(Clone, Copy, Debug, PartialEq, Eq, Structural)]
pub enum LinkError {
    /// The stream was linked before; links are never redone.
    AlreadyLinked,
    /// A video stream without a negotiated width and height.
    MissingDimensions,
    /// The mixer has no input number left.
    InputsExhausted,
}

/// The first input of each mixer is reserved for the overlay.
pub const FIRST_STREAM_INPUT: u32 = 1;

/// The compositing order given to discovered video: the background.
pub const BACKGROUND_ZORDER: u32 = 0;

pub open spec fn conn_view(c: Connection) -> (Seq<char>, MixerKind, u32) {
    (c.stream_id@, c.mixer, c.input)
}

pub struct LinkerView {
    pub connections: Seq<(Seq<char>, MixerKind, u32)>,
    pub next_audio: u32,
    pub next_video: u32,
    pub overlay_size: Option<(i32, i32)>,
}

/// The next free input of a mixer.
pub open spec fn next_input(v: LinkerView, m: MixerKind) -> u32 {
    match m {
        MixerKind::Audio => v.next_audio,
        MixerKind::Video => v.next_video,
    }
}

/// Whether a stream has a connection.
pub open spec fn is_linked(v: LinkerView, id: Seq<char>) -> bool {
    exists|i: int| 0 <= i < v.connections.len() && (#[trigger] v.connections[i]).0 == id
}

/// Every stream is linked at most once, no two connections share an input
/// of a mixer, and every input in use lies below that mixer's next input.
pub open spec fn linker_wf(v: LinkerView) -> bool {
    &&& FIRST_STREAM_INPUT <= v.next_audio
    &&& FIRST_STREAM_INPUT <= v.next_video
    &&& forall|i: int|
        0 <= i < v.connections.len() ==> FIRST_STREAM_INPUT <= (#[trigger] v.connections[i]).2
            < next_input(v, v.connections[i].1)
    &&& forall|i: int, j: int|
        0 <= i < j < v.connections.len() ==> (#[trigger] v.connections[i]).0
            != (#[trigger] v.connections[j]).0
    &&& forall|i: int, j: int|
        0 <= i < j < v.connections.len() ==> !((#[trigger] v.connections[i]).1
            == (#[trigger] v.connections[j]).1 && v.connections[i].2 == v.connections[j].2)
}

/// The plan and new state of the linker for a stream, or the error, with
/// the state then unchanged.
pub open spec fn link_result(
    v: LinkerView,
    id: Seq<char>,
    kind: StreamKind,
    width: Option<i32>,
    height: Option<i32>,
) -> (LinkerView, Result<LinkPlan, LinkError>) {
    if is_linked(v, id) {
        (v, Err(LinkError::AlreadyLinked))
    } else {
        match kind {
            StreamKind::Other => (v, Ok(LinkPlan::Ignore)),
            StreamKind::Audio => if v.next_audio == u32::MAX {
                (v, Err(LinkError::InputsExhausted))
            } else {
                (
                    LinkerView {
                        connections: v.connections.push((id, MixerKind::Audio, v.next_audio)),
                        next_audio: (v.next_audio + 1) as u32,
                        ..v
                    },
                    Ok(LinkPlan::AudioChain { input: v.next_audio }),
                )
            },
            StreamKind::Video => if width is None || height is None {
                (v, Err(LinkError::MissingDimensions))
            } else if v.next_video == u32::MAX {
                (v, Err(LinkError::InputsExhausted))
            } else {
                (
                    LinkerView {
                        connections: v.connections.push((id, MixerKind::Video, v.next_video)),
                        next_video: (v.next_video + 1) as u32,
                        overlay_size: Some((width->0, height->0)),
                        ..v
                    },
                    Ok(
                        LinkPlan::VideoInput {
                            input: v.next_video,
                            zorder: BACKGROUND_ZORDER,
                            width: width->0,
                            height: height->0,
                        },
                    ),
                )
            },
        }
    }
}

/// One notification of a discovered stream, as the linker reads it.
pub struct Discovery {
    pub id: Seq<char>,
    pub kind: StreamKind,
    pub width: Option<i32>,
    pub height: Option<i32>,
}

/// The linker after handling a sequence of discoveries in order.
pub open spec fn link_all(v: LinkerView, ds: Seq<Discovery>) -> LinkerView
    decreases ds.len(),
{
    if ds.len() == 0 {
        v
    } else {
        let d = ds.last();
        link_result(link_all(v, ds.drop_last()), d.id, d.kind, d.width, d.height).0
    }
}

proof fn lemma_link_step(
    v: LinkerView,
    id: Seq<char>,
    kind: StreamKind,
    width: Option<i32>,
    height: Option<i32>,
)
    requires
        linker_wf(v),
    ensures
        linker_wf(link_result(v, id, kind, width, height).0),
        v.connections.is_prefix_of(link_result(v, id, kind, width, height).0.connections),
{
    let w = link_result(v, id, kind, width, height).0;
    assert forall|i: int| 0 <= i < v.connections.len() implies (#[trigger] v.connections[i]).0
        != id || is_linked(v, id) by {}
    if w.connections.len() > v.connections.len() {
        assert(w.connections.subrange(0, v.connections.len() as int) =~= v.connections);
    } else {
        assert(w.connections =~= v.connections);
        assert(w.connections.subrange(0, v.connections.len() as int) =~= v.connections);
    }
}

/// Whatever streams are discovered, in whatever order and however often,
/// each stream ends up linked at most once, no two links share a mixer
/// input, and a link once made is never changed: new discoveries only add
/// connections after the existing ones.
pub proof fn lemma_each_stream_linked_once(v: LinkerView, ds: Seq<Discovery>)
    requires
        linker_wf(v),
    ensures
        linker_wf(link_all(v, ds)),
        v.connections.is_prefix_of(link_all(v, ds).connections),
    decreases ds.len(),
{
    if ds.len() > 0 {
        let d = ds.last();
        let pre = link_all(v, ds.drop_last());
        lemma_each_stream_linked_once(v, ds.drop_last());
        lemma_link_step(pre, d.id, d.kind, d.width, d.height);
        let post = link_all(v, ds);
        assert(post.connections.subrange(0, v.connections.len() as int) =~= pre.connections.subrange(
            0,
            v.connections.len() as int,
        ));
    }
}

/// Whether a link outcome takes an input of the given mixer.
pub open spec fn takes_input(r: Result<LinkPlan, LinkError>, m: MixerKind) -> bool {
    match m {
        MixerKind::Audio => r matches Ok(LinkPlan::AudioChain { .. }),
        MixerKind::Video => r matches Ok(LinkPlan::VideoInput { .. }),
    }
}

/// How many discoveries of a sequence took an input of the given mixer.
pub open spec fn inputs_taken(v: LinkerView, ds: Seq<Discovery>, m: MixerKind) -> nat
    decreases ds.len(),
{
    if ds.len() == 0 {
        0
    } else {
        let d = ds.last();
        let pre = link_all(v, ds.drop_last());
        inputs_taken(v, ds.drop_last(), m) + if takes_input(
            link_result(pre, d.id, d.kind, d.width, d.height).1,
            m,
        ) {
            1nat
        } else {
            0nat
        }
    }
}

/// Each discovered stream that is linked accounts for exactly one new
/// connection and one new input of its own mixer; ignored and refused
/// streams add none.
pub proof fn lemma_one_input_per_linked_stream(v: LinkerView, ds: Seq<Discovery>)
    ensures
        link_all(v, ds).connections.len() == v.connections.len() + inputs_taken(
            v,
            ds,
            MixerKind::Audio,
        ) + inputs_taken(v, ds, MixerKind::Video),
        link_all(v, ds).next_audio == v.next_audio + inputs_taken(v, ds, MixerKind::Audio),
        link_all(v, ds).next_video == v.next_video + inputs_taken(v, ds, MixerKind::Video),
    decreases ds.len(),
{
    if ds.len() > 0 {
        lemma_one_input_per_linked_stream(v, ds.drop_last());
    }
}

/// Decides, for each stream discovered on the ingest node, how it is wired
/// into the mixers, and keeps the connections made so far.
pub struct DynamicLinker {
    connections: Vec<Connection>,
    next_audio: u32,
    next_video: u32,
    overlay_size: Option<(i32, i32)>,
}

impl View for DynamicLinker {
    type V = LinkerView;

    closed spec fn view(&self) -> LinkerView {
        LinkerView {
            connections: self.connections@.map_values(|c: Connection| conn_view(c)),
            next_audio: self.next_audio,
            next_video: self.next_video,
            overlay_size: self.overlay_size,
        }
    }
}

impl DynamicLinker {
    pub fn new() -> (r: DynamicLinker)
        ensures
            linker_wf(r@),
            r@.connections == Seq::<(Seq<char>, MixerKind, u32)>::empty(),
            r@.next_audio == FIRST_STREAM_INPUT,
            r@.next_video == FIRST_STREAM_INPUT,
            r@.overlay_size is None,
    {
        DynamicLinker {
            connections: Vec::new(),
            next_audio: FIRST_STREAM_INPUT,
            next_video: FIRST_STREAM_INPUT,
            overlay_size: None,
        }
    }

    /// The connections made so far, in the order they were made.
    pub fn connections(&self) -> (r: &Vec<Connection>)
        ensures
            r@.map_values(|c: Connection| conn_view(c)) == self@.connections,
    {
        &self.connections
    }

    /// The dimensions last requested of the overlay, if any.
    pub fn overlay_size(&self) -> (r: Option<(i32, i32)>)
        ensures
            r == self@.overlay_size,
    {
        self.overlay_size
    }

    /// Whether a stream has been linked.
    pub fn is_linked(&self, stream_id: &String) -> (r: bool)
        ensures
            r == is_linked(self@, stream_id@),
    {
        let mut i: usize = 0;
        while i < self.connections.len()
            invariant
                i <= self.connections@.len(),
                forall|k: int| 0 <= k < i ==> (#[trigger] self@.connections[k]).0 != stream_id@,
            decreases self.connections@.len() - i,
        {
            if self.connections[i].stream_id == *stream_id {
                assert(self@.connections[i as int].0 == stream_id@);
                return true;
            }
            i = i + 1;
        }
        false
    }

    /// Handles a newly discovered stream: decides what to build, and records
    /// the connection. A stream is linked at most once, and an existing
    /// connection is never changed: a new one only ever takes a fresh input.
    pub fn on_stream(&mut self, stream_id: String, caps: &StreamCaps) -> (r: Result<
        LinkPlan,
        LinkError,
    >)
        requires
            linker_wf(old(self)@),
        ensures
            linker_wf(final(self)@),
            (final(self)@, r) == link_result(
                old(self)@,
                stream_id@,
                kind_of(caps.media_type@),
                caps.width,
                caps.height,
            ),
            final(self)@.connections.subrange(0, old(self)@.connections.len() as int)
                == old(self)@.connections,
    {
        let ghost v = self@;
        if self.is_linked(&stream_id) {
            return Err(LinkError::AlreadyLinked);
        }
        match classify_stream(caps.media_type.as_str()) {
            StreamKind::Other => Ok(LinkPlan::Ignore),
            StreamKind::Audio => {
                if self.next_audio == u32::MAX {
                    return Err(LinkError::InputsExhausted);
                }
                let input = self.next_audio;
                let ghost id = stream_id@;
                self.connections.push(Connection { stream_id, mixer: MixerKind::Audio, input });
                self.next_audio = input + 1;
                proof {
                    assert(self@.connections =~= v.connections.push((id, MixerKind::Audio, input)));
                    assert(self@.connections.subrange(0, v.connections.len() as int) =~= v.connections);
                    assert forall|i: int| 0 <= i < v.connections.len() implies (#[trigger] v.connections[i]).0 != id by {
                        if v.connections[i].0 == id {
                            assert(is_linked(v, id));
                        }
                    }
                }
                Ok(LinkPlan::AudioChain { input })
            },
            StreamKind::Video => {
                match (caps.width, caps.height) {
                    (Some(width), Some(height)) => {
                        if self.next_video == u32::MAX {
                            return Err(LinkError::InputsExhausted);
                        }
                        let input = self.next_video;
                        let ghost id = stream_id@;
                        self.connections.push(
                            Connection { stream_id, mixer: MixerKind::Video, input },
                        );
                        self.next_video = input + 1;
                        self.overlay_size = Some((width, height));
                        proof {
                            assert(self@.connections =~= v.connections.push(
                                (id, MixerKind::Video, input),
                            ));
                            assert(self@.connections.subrange(0, v.connections.len() as int)
                                =~= v.connections);
                            assert forall|i: int| 0 <= i < v.connections.len() implies (
                            #[trigger] v.connections[i]).0 != id by {
                                if v.connections[i].0 == id {
                                    assert(is_linked(v, id));
                                }
                            }
                        }
                        Ok(LinkPlan::VideoInput { input, zorder: BACKGROUND_ZORDER, width, height })
                    },
                    _ => Err(LinkError::MissingDimensions),
                }
            },
        }
    }
}

} // verus!
