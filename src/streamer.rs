use vstd::prelude::*;
use vstd::string::*;

verus! {

/// A node of the graph that the worker looks up by name.
#[derive(Clone, Copy, Debug, PartialEq, Eq, Structural)]
pub enum NodeRef {
    /// The compositor that mixes video.
    VideoMixer,
    /// The mixer of audio.
    AudioMixer,
    /// The node that pulls and decodes the ingest source.
    Ingest,
    /// The overlay's rendering source.
    Overlay,
    /// The capabilities filter between the overlay and the video mixer.
    OverlayCaps,
    /// The entry queue of the output sub-graph's video branch.
    OutputVideoQueue,
    /// The entry queue of the output sub-graph's audio branch.
    OutputAudioQueue,
}

/// The name of a node in the topology descriptions.
pub open spec fn node_name_spec(n: NodeRef) -> Seq<char> {
    match n {
        NodeRef::VideoMixer => "vmixer"@,
        NodeRef::AudioMixer => "amixer"@,
        NodeRef::Ingest => "decoder"@,
        NodeRef::Overlay => "wpesrc"@,
        NodeRef::OverlayCaps => "wpecaps"@,
        NodeRef::OutputVideoQueue => "stream-vqueue"@,
        NodeRef::OutputAudioQueue => "stream-aqueue"@,
    }
}

/// The name of a node in the topology descriptions.
pub fn node_name(n: NodeRef) -> (r: &'static str)
    ensures
        r@ == node_name_spec(n),
{
    match n {
        NodeRef::VideoMixer => "vmixer",
        NodeRef::AudioMixer => "amixer",
        NodeRef::Ingest => "decoder",
        NodeRef::Overlay => "wpesrc",
        NodeRef::OverlayCaps => "wpecaps",
        NodeRef::OutputVideoQueue => "stream-vqueue",
        NodeRef::OutputAudioQueue => "stream-aqueue",
    }
}

/// The main graph: the two mixers, the overlay source through its
/// capabilities filter and a queue into the video mixer, and the ingest
/// node pulling from `uri`.
pub open spec fn pipeline_description_spec(uri: Seq<char>) -> Seq<char> {
    "compositor name=vmixer audiomixer name=amixer wpesrc name=wpesrc location=http://127.0.0.1:3000 draw-background=0 ! capsfilter name=wpecaps caps=\"video/x-raw,format=BGRA\" ! queue ! vmixer. uridecodebin3 name=decoder uri="@
        + uri
}

/// The output sub-graph: video and audio are encoded once, then muxed and
/// pushed to `location`, and cut into segments with a playlist under `root`.
pub open spec fn output_description_spec(location: Seq<char>, root: Seq<char>) -> Seq<char> {
    "flvmux streamable=1 name=mux ! rtmp2sink enable-last-sample=0 async-connect=0 location=\""@
        + location
        + "\" queue name=stream-vqueue ! videoconvert ! x264enc tune=zerolatency ! tee name=vtee ! queue ! mux.video queue name=stream-aqueue ! audioconvert ! audioresample ! fdkaacenc ! tee name=atee ! queue ! mux.audio hlssink2 name=hlssink location="@
        + root + "/segment%05d.ts playlist-location="@ + root
        + "/playlist.m3u8 target-duration=3 vtee. ! queue ! h264parse ! hlssink.video atee. ! queue ! aacparse ! hlssink.audio "@
}

/// The name of the output sub-graph inside the main graph.
pub open spec fn output_bin_name_spec() -> Seq<char> {
    "stream-bin"@
}

/// Whether a character would change how a description is parsed when it
/// stands in a property value. A bare value ends at whitespace, and a quote
/// or an escape would start quoting; inside double quotes only a quote or
/// an escape can end or alter the value.
pub open spec fn breaks_value(c: char, quoted: bool) -> bool {
    c == '"' || c == '\\' || (!quoted && (c == ' ' || c == '\t' || c == '\n' || c == '\r'
        || c == '\x0B' || c == '\x0C'))
}

/// Whether a string can stand in a description as exactly one property
/// value, bare or inside double quotes.
pub open spec fn fits_value(s: Seq<char>, quoted: bool) -> bool {
    forall|i: int| 0 <= i < s.len() ==> !breaks_value(#[trigger] s[i], quoted)
}

/// Whether a string can stand in a description as exactly one property
/// value, bare or inside double quotes.
pub fn check_value(s: &str, quoted: bool) -> (r: bool)
    ensures
        r == fits_value(s@, quoted),
{
    let n = s.unicode_len();
    let mut i: usize = 0;
    while i < n
        invariant
            n == s@.len(),
            i <= n,
            forall|k: int| 0 <= k < i ==> !breaks_value(#[trigger] s@[k], quoted),
        decreases n - i,
    {
        let c = s.get_char(i);
        if c == '"' || c == '\\' || (!quoted && (c == ' ' || c == '\t' || c == '\n' || c == '\r'
            || c == '\x0B' || c == '\x0C')) {
            assert(breaks_value(s@[i as int], quoted));
            return false;
        }
        i = i + 1;
    }
    true
}

/// Why the graph could not be built or attached. Each is fatal: no handle
/// is returned.
#[derive(Clone, Debug, PartialEq, Eq)]
pub enum GraphBuildError {
    /// The ingest locator holds whitespace, a double quote or a backslash.
    UnsafeLocator,
    /// The output directory holds whitespace, a double quote or a backslash.
    UnsafeDirectory,
    /// The push destination holds a double quote or a backslash.
    UnsafeDestination,
    /// The runtime could not parse a topology description.
    Parse(String),
    /// The main description gave a single node, not a composite graph.
    NotAGraph,
    /// A node that the descriptions name was not found.
    MissingNode(NodeRef),
    /// The output sub-graph could not be attached to the mixers.
    Attach(String),
}

/// The configuration of one live pipeline: where it ingests from, where the
/// segments are written, and where the stream is pushed. Each of them fits
/// where the descriptions put it, so the descriptions have the fixed
/// topology.
#[derive(Debug)]
pub struct Streamer {
    ingest_uri: String,
    root_directory: String,
    rtmp_url: String,
}

impl Streamer {
    #[verifier::type_invariant]
    closed spec fn inv(&self) -> bool {
        &&& fits_value(self.ingest_uri@, false)
        &&& fits_value(self.root_directory@, false)
        &&& fits_value(self.rtmp_url@, true)
    }

    pub closed spec fn ingest_view(&self) -> Seq<char> {
        self.ingest_uri@
    }

    pub closed spec fn root_view(&self) -> Seq<char> {
        self.root_directory@
    }

    pub closed spec fn destination_view(&self) -> Seq<char> {
        self.rtmp_url@
    }

    /// Takes the configuration. Every configuration is accepted but one
    /// whose value would not stand as exactly one property value where the
    /// descriptions put it: the locator and the directory bare, the
    /// destination inside double quotes (checked in the order of the
    /// arguments).
    pub fn new(ingest_uri: String, root_directory: String, rtmp_url: String) -> (r: Result<
        Streamer,
        GraphBuildError,
    >)
        ensures
            !fits_value(ingest_uri@, false) ==> r == Err::<Streamer, GraphBuildError>(
                GraphBuildError::UnsafeLocator,
            ),
            (fits_value(ingest_uri@, false) && !fits_value(root_directory@, false)) ==> r == Err::<
                Streamer,
                GraphBuildError,
            >(GraphBuildError::UnsafeDirectory),
            (fits_value(ingest_uri@, false) && fits_value(root_directory@, false) && !fits_value(
                rtmp_url@,
                true,
            )) ==> r == Err::<Streamer, GraphBuildError>(GraphBuildError::UnsafeDestination),
            (fits_value(ingest_uri@, false) && fits_value(root_directory@, false) && fits_value(
                rtmp_url@,
                true,
            )) <==> (r is Ok),
            (r is Ok) ==> (r->Ok_0.ingest_view() == ingest_uri@ && r->Ok_0.root_view()
                == root_directory@ && r->Ok_0.destination_view() == rtmp_url@),
    {
        if !check_value(ingest_uri.as_str(), false) {
            return Err(GraphBuildError::UnsafeLocator);
        }
        if !check_value(root_directory.as_str(), false) {
            return Err(GraphBuildError::UnsafeDirectory);
        }
        if !check_value(rtmp_url.as_str(), true) {
            return Err(GraphBuildError::UnsafeDestination);
        }
        Ok(Streamer { ingest_uri, root_directory, rtmp_url })
    }

    /// The ingest locator.
    pub fn ingest_uri(&self) -> (r: &String)
        ensures
            r@ == self.ingest_view(),
            fits_value(r@, false),
    {
        proof {
            use_type_invariant(self);
        }
        &self.ingest_uri
    }

    /// The output directory.
    pub fn root_directory(&self) -> (r: &String)
        ensures
            r@ == self.root_view(),
            fits_value(r@, false),
    {
        proof {
            use_type_invariant(self);
        }
        &self.root_directory
    }

    /// The push destination.
    pub fn rtmp_url(&self) -> (r: &String)
        ensures
            r@ == self.destination_view(),
            fits_value(r@, true),
    {
        proof {
            use_type_invariant(self);
        }
        &self.rtmp_url
    }

    /// The description of the main graph, which ingests from this
    /// pipeline's source.
    pub fn pipeline_description(&self) -> (r: String)
        ensures
            r@ == pipeline_description_spec(self.ingest_view()),
            fits_value(self.ingest_view(), false),
    {
        proof {
            use_type_invariant(self);
        }
        let mut d = String::from_str(
            "compositor name=vmixer audiomixer name=amixer wpesrc name=wpesrc location=http://127.0.0.1:3000 draw-background=0 ! capsfilter name=wpecaps caps=\"video/x-raw,format=BGRA\" ! queue ! vmixer. uridecodebin3 name=decoder uri=",
        );
        d.append(self.ingest_uri.as_str());
        d
    }

    /// The description of the output sub-graph for this pipeline's push
    /// target and output directory.
    pub fn output_description(&self) -> (r: String)
        ensures
            r@ == output_description_spec(self.destination_view(), self.root_view()),
            fits_value(self.destination_view(), true),
            fits_value(self.root_view(), false),
    {
        proof {
            use_type_invariant(self);
        }
        let mut d = String::from_str(
            "flvmux streamable=1 name=mux ! rtmp2sink enable-last-sample=0 async-connect=0 location=\"",
        );
        d.append(self.rtmp_url.as_str());
        d.append(
            "\" queue name=stream-vqueue ! videoconvert ! x264enc tune=zerolatency ! tee name=vtee ! queue ! mux.video queue name=stream-aqueue ! audioconvert ! audioresample ! fdkaacenc ! tee name=atee ! queue ! mux.audio hlssink2 name=hlssink location=",
        );
        d.append(self.root_directory.as_str());
        d.append("/segment%05d.ts playlist-location=");
        d.append(self.root_directory.as_str());
        d.append(
            "/playlist.m3u8 target-duration=3 vtee. ! queue ! h264parse ! hlssink.video atee. ! queue ! aacparse ! hlssink.audio ",
        );
        d
    }

    /// The name of the output sub-graph inside the main graph.
    pub fn output_bin_name(&self) -> (r: String)
        ensures
            r@ == output_bin_name_spec(),
    {
        String::from_str("stream-bin")
    }
}

} // verus!
