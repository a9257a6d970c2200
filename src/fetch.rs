use vstd::prelude::*;

use crate::error::{ErrorView, FontError, StringError};
use crate::family::family_name;
use crate::font::{family_of, font_name, position_in_family, Font};
use crate::manifest::{manifest_json, manifest_json_of};

verus! {

/// The folder under the platform cache root that holds the cached fonts.
pub open spec fn cache_folder() -> Seq<char> {
    "google-fonts"@
}

/// The extension of a cached font file.
pub open spec fn cache_extension() -> Seq<char> {
    ".ttf"@
}

/// The location of a font's cache file: `<root>/<folder>/<file>`.
pub struct CachePath {
    pub root: String,
    pub folder: String,
    pub file: String,
}

/// The mathematical value of a [`CachePath`].
pub struct CachePathView {
    pub root: Seq<char>,
    pub folder: Seq<char>,
    pub file: Seq<char>,
}

impl View for CachePath {
    type V = CachePathView;

    open spec fn view(&self) -> CachePathView {
        CachePathView { root: self.root@, folder: self.folder@, file: self.file@ }
    }
}

/// The cache location of `font` under the cache root `root`:
/// `<root>/google-fonts/<font name>.ttf`.
pub open spec fn cache_path_of(font: Font, root: Seq<char>) -> CachePathView {
    CachePathView { root, folder: cache_folder(), file: font_name(font) + cache_extension() }
}

impl CachePath {
    /// Returns the cache location of `font` under the cache root `root`.
    pub fn for_font(font: Font, root: String) -> (r: CachePath)
        ensures
            r@ == cache_path_of(font, root@),
    {
        let folder = String::from_str("google-fonts");
        let file = font.name().concat(".ttf");
        CachePath { root, folder, file }
    }

    /// Returns a copy of the location.
    pub fn duplicate(&self) -> (r: CachePath)
        ensures
            r@ == self@,
    {
        CachePath { root: self.root.clone(), folder: self.folder.clone(), file: self.file.clone() }
    }
}

/// Where a retrieval stands.
pub enum Stage {
    /// Waiting to learn whether the cache file exists.
    Probing,
    /// The cache file exists: waiting for its contents.
    Reading,
    /// The cache file is missing: waiting for its folder to exist.
    PreparingDir,
    /// Waiting for the body of the family's manifest.
    FetchingManifest,
    /// Waiting for the manifest's JSON payload to be decoded into its file URLs.
    Decoding(Vec<u8>),
    /// Waiting for the bytes at this URL.
    Downloading(String),
    /// Waiting for these bytes to be written to the cache file.
    Writing(Vec<u8>),
    /// Finished, with the font data or the error.
    Done(Result<Vec<u8>, FontError>),
}

/// The mathematical value of a [`Stage`].
pub enum StageView {
    Probing,
    Reading,
    PreparingDir,
    FetchingManifest,
    Decoding(Seq<u8>),
    Downloading(Seq<char>),
    Writing(Seq<u8>),
    Done(Result<Seq<u8>, ErrorView>),
}

impl View for Stage {
    type V = StageView;

    open spec fn view(&self) -> StageView {
        match self {
            Stage::Probing => StageView::Probing,
            Stage::Reading => StageView::Reading,
            Stage::PreparingDir => StageView::PreparingDir,
            Stage::FetchingManifest => StageView::FetchingManifest,
            Stage::Decoding(b) => StageView::Decoding(b@),
            Stage::Downloading(u) => StageView::Downloading(u@),
            Stage::Writing(b) => StageView::Writing(b@),
            Stage::Done(Ok(b)) => StageView::Done(Ok(b@)),
            Stage::Done(Err(e)) => StageView::Done(Err(e@)),
        }
    }
}

/// What the caller reports back after carrying out an [`Action`].
pub enum Event {
    /// Whether the cache file exists.
    CacheProbed(bool),
    /// The contents of the cache file, or the message of the read failure.
    CacheRead(Result<Vec<u8>, String>),
    /// Whether the cache folder exists now, or the message of the failure.
    CacheDirReady(Result<(), String>),
    /// The body of the manifest response, or the message of the transport failure.
    ManifestFetched(Result<Vec<u8>, String>),
    /// The file URLs of the manifest, in order, or the message of the decoding failure.
    ManifestDecoded(Result<Vec<String>, String>),
    /// The downloaded bytes, or the message of the transport failure.
    Downloaded(Result<Vec<u8>, String>),
    /// Whether the cache file was written, or the message of the failure.
    CacheWritten(Result<(), String>),
}

/// The mathematical value of an [`Event`].
pub enum EventView {
    CacheProbed(bool),
    CacheRead(Result<Seq<u8>, Seq<char>>),
    CacheDirReady(Result<(), Seq<char>>),
    ManifestFetched(Result<Seq<u8>, Seq<char>>),
    ManifestDecoded(Result<Seq<Seq<char>>, Seq<char>>),
    Downloaded(Result<Seq<u8>, Seq<char>>),
    CacheWritten(Result<(), Seq<char>>),
}

impl View for Event {
    type V = EventView;

    open spec fn view(&self) -> EventView {
        match self {
            Event::CacheProbed(b) => EventView::CacheProbed(*b),
            Event::CacheRead(Ok(b)) => EventView::CacheRead(Ok(b@)),
            Event::CacheRead(Err(m)) => EventView::CacheRead(Err(m@)),
            Event::CacheDirReady(Ok(())) => EventView::CacheDirReady(Ok(())),
            Event::CacheDirReady(Err(m)) => EventView::CacheDirReady(Err(m@)),
            Event::ManifestFetched(Ok(b)) => EventView::ManifestFetched(Ok(b@)),
            Event::ManifestFetched(Err(m)) => EventView::ManifestFetched(Err(m@)),
            Event::ManifestDecoded(Ok(u)) => EventView::ManifestDecoded(
                Ok(u@.map_values(|s: String| s@)),
            ),
            Event::ManifestDecoded(Err(m)) => EventView::ManifestDecoded(Err(m@)),
            Event::Downloaded(Ok(b)) => EventView::Downloaded(Ok(b@)),
            Event::Downloaded(Err(m)) => EventView::Downloaded(Err(m@)),
            Event::CacheWritten(Ok(())) => EventView::CacheWritten(Ok(())),
            Event::CacheWritten(Err(m)) => EventView::CacheWritten(Err(m@)),
        }
    }
}

/// What the caller has to carry out next for a retrieval.
pub enum Action {
    /// Report whether the cache file exists ([`Event::CacheProbed`]).
    ProbeCache(CachePath),
    /// Read the whole cache file ([`Event::CacheRead`]).
    ReadCache(CachePath),
    /// Create the cache file's folder and its missing ancestors
    /// ([`Event::CacheDirReady`]).
    PrepareCacheDir(CachePath),
    /// Fetch the manifest of the family with this name ([`Event::ManifestFetched`]).
    FetchManifest(String),
    /// Decode this JSON payload into the manifest's file URLs ([`Event::ManifestDecoded`]).
    DecodeManifest(Vec<u8>),
    /// Download the bytes at this URL ([`Event::Downloaded`]).
    Download(String),
    /// Write these bytes to the cache file ([`Event::CacheWritten`]).
    WriteCache(CachePath, Vec<u8>),
}

/// The mathematical value of an [`Action`].
pub enum ActionView {
    ProbeCache(CachePathView),
    ReadCache(CachePathView),
    PrepareCacheDir(CachePathView),
    FetchManifest(Seq<char>),
    DecodeManifest(Seq<u8>),
    Download(Seq<char>),
    WriteCache(CachePathView, Seq<u8>),
}

impl View for Action {
    type V = ActionView;

    open spec fn view(&self) -> ActionView {
        match self {
            Action::ProbeCache(p) => ActionView::ProbeCache(p@),
            Action::ReadCache(p) => ActionView::ReadCache(p@),
            Action::PrepareCacheDir(p) => ActionView::PrepareCacheDir(p@),
            Action::FetchManifest(n) => ActionView::FetchManifest(n@),
            Action::DecodeManifest(b) => ActionView::DecodeManifest(b@),
            Action::Download(u) => ActionView::Download(u@),
            Action::WriteCache(p, b) => ActionView::WriteCache(p@, b@),
        }
    }
}

/// The stage that follows `s` when `e` is reported, for a retrieval of `font`
/// that goes through the disk cache where `cached` holds. An event that does
/// not answer the stage's action leaves the stage as it is.
pub open spec fn next_stage(font: Font, cached: bool, s: StageView, e: EventView) -> StageView {
    match (s, e) {
        (StageView::Probing, EventView::CacheProbed(true)) => StageView::Reading,
        (StageView::Probing, EventView::CacheProbed(false)) => StageView::PreparingDir,
        (StageView::Reading, EventView::CacheRead(Ok(b))) => StageView::Done(Ok(b)),
        (StageView::Reading, EventView::CacheRead(Err(m))) => StageView::Done(
            Err(ErrorView::CacheFile(m)),
        ),
        (StageView::PreparingDir, EventView::CacheDirReady(Ok(()))) => StageView::FetchingManifest,
        (StageView::PreparingDir, EventView::CacheDirReady(Err(m))) => StageView::Done(
            Err(ErrorView::CacheFile(m)),
        ),
        (StageView::FetchingManifest, EventView::ManifestFetched(Ok(body))) => StageView::Decoding(
            manifest_json_of(body),
        ),
        (StageView::FetchingManifest, EventView::ManifestFetched(Err(m))) => StageView::Done(
            Err(ErrorView::Network(m)),
        ),
        (StageView::Decoding(_), EventView::ManifestDecoded(Ok(urls))) => {
            if position_in_family(font) < urls.len() {
                StageView::Downloading(urls[position_in_family(font)])
            } else {
                StageView::Done(Err(ErrorView::Index(position_in_family(font), urls.len() as int)))
            }
        },
        (StageView::Decoding(_), EventView::ManifestDecoded(Err(m))) => StageView::Done(
            Err(ErrorView::Deserialize(m)),
        ),
        (StageView::Downloading(_), EventView::Downloaded(Ok(b))) => {
            if cached {
                StageView::Writing(b)
            } else {
                StageView::Done(Ok(b))
            }
        },
        (StageView::Downloading(_), EventView::Downloaded(Err(m))) => StageView::Done(
            Err(ErrorView::Network(m)),
        ),
        (StageView::Writing(b), EventView::CacheWritten(Ok(()))) => StageView::Done(Ok(b)),
        (StageView::Writing(_), EventView::CacheWritten(Err(m))) => StageView::Done(
            Err(ErrorView::CacheFile(m)),
        ),
        _ => s,
    }
}

/// The action that a retrieval waits on; none once it is done.
pub open spec fn action_of(v: FetchView) -> Option<ActionView> {
    let path = v.cache.unwrap();
    match v.stage {
        StageView::Probing => Some(ActionView::ProbeCache(path)),
        StageView::Reading => Some(ActionView::ReadCache(path)),
        StageView::PreparingDir => Some(ActionView::PrepareCacheDir(path)),
        StageView::FetchingManifest => Some(
            ActionView::FetchManifest(family_name(family_of(v.font))),
        ),
        StageView::Decoding(json) => Some(ActionView::DecodeManifest(json)),
        StageView::Downloading(url) => Some(ActionView::Download(url)),
        StageView::Writing(b) => Some(ActionView::WriteCache(path, b)),
        StageView::Done(_) => None,
    }
}

/// A stage that works on the cache file.
pub open spec fn is_cache_stage(s: StageView) -> bool {
    s is Probing || s is Reading || s is PreparingDir || s is Writing
}

/// A stage that waits on the network.
pub open spec fn is_network_stage(s: StageView) -> bool {
    s is FetchingManifest || s is Downloading
}

/// A retrieval works on the cache file only where it has one.
pub open spec fn fetch_wf(v: FetchView) -> bool {
    is_cache_stage(v.stage) ==> v.cache is Some
}

/// The view of an optional cache root.
pub open spec fn root_view(root: Option<String>) -> Option<Seq<char>> {
    match root {
        Some(r) => Some(r@),
        None => None,
    }
}

/// The message of the error for a platform without a cache directory.
pub open spec fn missing_cache_dir_message() -> Seq<char> {
    "Missing cache directory"@
}

/// How a retrieval of `font` through the disk cache under `root` starts: done
/// at once with a cache-directory error where there is no root, else probing
/// the font's cache file.
pub open spec fn cached_start(font: Font, root: Option<Seq<char>>) -> FetchView {
    match root {
        None => FetchView {
            font,
            cache: None,
            stage: StageView::Done(Err(ErrorView::CacheDir(missing_cache_dir_message()))),
        },
        Some(root) => FetchView {
            font,
            cache: Some(cache_path_of(font, root)),
            stage: StageView::Probing,
        },
    }
}

/// One retrieval of a font's data, as a state machine: the caller asks for the
/// next [`Action`], carries it out, and reports the outcome as an [`Event`],
/// until the retrieval is done.
pub struct FontFetch {
    font: Font,
    cache: Option<CachePath>,
    stage: Stage,
}

/// The mathematical value of a [`FontFetch`].
pub struct FetchView {
    pub font: Font,
    pub cache: Option<CachePathView>,
    pub stage: StageView,
}

impl View for FontFetch {
    type V = FetchView;

    closed spec fn view(&self) -> FetchView {
        FetchView {
            font: self.font,
            cache: match self.cache {
                Some(p) => Some(p@),
                None => None,
            },
            stage: self.stage@,
        }
    }
}

impl FontFetch {
    #[verifier::type_invariant]
    closed spec fn inv(&self) -> bool {
        fetch_wf(self@)
    }

    /// Starts a retrieval of `font` through the disk cache under the platform
    /// cache root `root`. Without a root the retrieval is done at once with a
    /// cache-directory error; otherwise it first probes the font's cache file.
    pub fn cached(font: Font, root: Option<String>) -> (r: FontFetch)
        ensures
            r@ == cached_start(font, root_view(root)),
    {
        match root {
            None => FontFetch {
                font,
                cache: None,
                stage: Stage::Done(
                    Err(FontError::CacheDir(StringError::new("Missing cache directory"))),
                ),
            },
            Some(root) => FontFetch {
                font,
                cache: Some(CachePath::for_font(font, root)),
                stage: Stage::Probing,
            },
        }
    }

    /// Starts a retrieval of `font` from the network alone, with no cache:
    /// it first fetches the manifest of the font's family.
    pub fn uncached(font: Font) -> (r: FontFetch)
        ensures
            r@.font == font,
            r@.cache is None,
            r@.stage == StageView::FetchingManifest,
    {
        FontFetch { font, cache: None, stage: Stage::FetchingManifest }
    }

    /// Returns the font being retrieved.
    pub fn font(&self) -> (r: Font)
        ensures
            r == self@.font,
    {
        self.font
    }

    /// Returns the stage of the retrieval.
    pub fn stage(&self) -> (r: &Stage)
        ensures
            r@ == self@.stage,
    {
        &self.stage
    }

    /// Indicates whether the retrieval is done.
    pub fn is_done(&self) -> (r: bool)
        ensures
            r == self@.stage is Done,
    {
        match self.stage {
            Stage::Done(_) => true,
            _ => false,
        }
    }

    /// Returns what the caller has to carry out next, or `None` once the
    /// retrieval is done.
    pub fn action(&self) -> (r: Option<Action>)
        ensures
            match r {
                None => action_of(self@) is None,
                Some(a) => action_of(self@) == Some(a@),
            },
            r is None <==> self@.stage is Done,
    {
        proof {
            use_type_invariant(self);
        }
        match &self.stage {
            Stage::Probing => Some(Action::ProbeCache(self.path())),
            Stage::Reading => Some(Action::ReadCache(self.path())),
            Stage::PreparingDir => Some(Action::PrepareCacheDir(self.path())),
            Stage::FetchingManifest => Some(Action::FetchManifest(self.font.family().name())),
            Stage::Decoding(json) => {
                let copy = json.clone();
                proof {
                    assert(copy@ =~= json@);
                }
                Some(Action::DecodeManifest(copy))
            },
            Stage::Downloading(url) => Some(Action::Download(url.clone())),
            Stage::Writing(b) => {
                let copy = b.clone();
                proof {
                    assert(copy@ =~= b@);
                }
                Some(Action::WriteCache(self.path(), copy))
            },
            Stage::Done(_) => None,
        }
    }

    fn path(&self) -> (r: CachePath)
        requires
            self@.cache is Some,
        ensures
            r@ == self@.cache.unwrap(),
    {
        match &self.cache {
            Some(p) => p.duplicate(),
            None => {
                proof {
                    assert(false);
                }
                CachePath { root: String::new(), folder: String::new(), file: String::new() }
            },
        }
    }

    /// Reports the outcome of the last action and moves the retrieval on. An
    /// event that does not answer the current action changes nothing.
    pub fn step(self, event: Event) -> (r: FontFetch)
        ensures
            r@ == (FetchView {
                stage: next_stage(self@.font, self@.cache is Some, self@.stage, event@),
                ..self@
            }),
    {
        proof {
            use_type_invariant(&self);
        }
        let cached = self.cache.is_some();
        let FontFetch { font, cache, stage } = self;
        let next = Self::advance(font, cached, stage, event);
        FontFetch { font, cache, stage: next }
    }

    /// The stage after `stage` once `event` is reported.
    fn advance(font: Font, cached: bool, stage: Stage, event: Event) -> (r: Stage)
        ensures
            r@ == next_stage(font, cached, stage@, event@),
    {
        match (stage, event) {
            (Stage::Probing, Event::CacheProbed(exists)) => {
                if exists {
                    Stage::Reading
                } else {
                    Stage::PreparingDir
                }
            },
            (Stage::Reading, Event::CacheRead(Ok(b))) => Stage::Done(Ok(b)),
            (Stage::Reading, Event::CacheRead(Err(m))) => Stage::Done(
                Err(FontError::CacheFile(m)),
            ),
            (Stage::PreparingDir, Event::CacheDirReady(Ok(()))) => Stage::FetchingManifest,
            (Stage::PreparingDir, Event::CacheDirReady(Err(m))) => Stage::Done(
                Err(FontError::CacheFile(m)),
            ),
            (Stage::FetchingManifest, Event::ManifestFetched(Ok(body))) => Stage::Decoding(
                manifest_json(body),
            ),
            (Stage::FetchingManifest, Event::ManifestFetched(Err(m))) => Stage::Done(
                Err(FontError::Network(m)),
            ),
            (Stage::Decoding(_), Event::ManifestDecoded(Ok(urls))) => {
                let position = font.font_file_idx();
                if position < urls.len() {
                    Stage::Downloading(urls[position].clone())
                } else {
                    Stage::Done(Err(FontError::Index { position, available: urls.len() }))
                }
            },
            (Stage::Decoding(_), Event::ManifestDecoded(Err(m))) => Stage::Done(
                Err(FontError::Deserialize(m)),
            ),
            (Stage::Downloading(_), Event::Downloaded(Ok(b))) => {
                if cached {
                    Stage::Writing(b)
                } else {
                    Stage::Done(Ok(b))
                }
            },
            (Stage::Downloading(_), Event::Downloaded(Err(m))) => Stage::Done(
                Err(FontError::Network(m)),
            ),
            (Stage::Writing(b), Event::CacheWritten(Ok(()))) => Stage::Done(Ok(b)),
            (Stage::Writing(_), Event::CacheWritten(Err(m))) => Stage::Done(
                Err(FontError::CacheFile(m)),
            ),
            (stage, _) => stage,
        }
    }

    /// Ends the retrieval: returns its outcome once it is done, `None` before.
    pub fn finish(self) -> (r: Option<Result<Vec<u8>, FontError>>)
        ensures
            match self@.stage {
                StageView::Done(Ok(b)) => r matches Some(Ok(d)) && d@ == b,
                StageView::Done(Err(e)) => r matches Some(Err(x)) && x@ == e,
                _ => r is None,
            },
    {
        match self.stage {
            Stage::Done(outcome) => Some(outcome),
            _ => None,
        }
    }
}

} // verus!

verus! {

/// How far a stage stands along a retrieval.
pub open spec fn stage_rank(s: StageView) -> int {
    match s {
        StageView::Probing => 0,
        StageView::Reading => 1,
        StageView::PreparingDir => 1,
        StageView::FetchingManifest => 2,
        StageView::Decoding(_) => 3,
        StageView::Downloading(_) => 4,
        StageView::Writing(_) => 5,
        StageView::Done(_) => 6,
    }
}

/// The stages that a retrieval passes through from `s` as `events` are
/// reported one by one, starting with `s` itself.
pub open spec fn run(font: Font, cached: bool, s: StageView, events: Seq<EventView>) -> Seq<
    StageView,
>
    decreases events.len(),
{
    if events.len() == 0 {
        seq![s]
    } else {
        seq![s] + run(font, cached, next_stage(font, cached, s, events[0]), events.drop_first())
    }
}

/// Each event either leaves the stage as it is or moves the retrieval forward.
pub proof fn lemma_step_progress(font: Font, cached: bool, s: StageView, e: EventView)
    ensures
        next_stage(font, cached, s, e) == s || stage_rank(next_stage(font, cached, s, e))
            > stage_rank(s),
{
}

/// A run holds one stage more than it has events, and starts where it starts.
pub proof fn lemma_run_shape(font: Font, cached: bool, s: StageView, events: Seq<EventView>)
    ensures
        run(font, cached, s, events).len() == events.len() + 1,
        run(font, cached, s, events)[0] == s,
    decreases events.len(),
{
    if events.len() > 0 {
        lemma_run_shape(font, cached, next_stage(font, cached, s, events[0]), events.drop_first());
    }
}

/// Later stages of a run equal earlier ones or lie further along.
pub proof fn lemma_run_forward(
    font: Font,
    cached: bool,
    s: StageView,
    events: Seq<EventView>,
    i: int,
    j: int,
)
    requires
        0 <= i <= j <= events.len(),
    ensures
        run(font, cached, s, events)[j] == run(font, cached, s, events)[i] || stage_rank(
            run(font, cached, s, events)[j],
        ) > stage_rank(run(font, cached, s, events)[i]),
    decreases events.len(),
{
    lemma_run_shape(font, cached, s, events);
    if j > 0 {
        let n = next_stage(font, cached, s, events[0]);
        let rest = events.drop_first();
        let tail = run(font, cached, n, rest);
        lemma_run_shape(font, cached, n, rest);
        assert(run(font, cached, s, events)[j] == tail[j - 1]);
        if i == 0 {
            lemma_run_forward(font, cached, n, rest, 0, j - 1);
            lemma_step_progress(font, cached, s, events[0]);
        } else {
            assert(run(font, cached, s, events)[i] == tail[i - 1]);
            lemma_run_forward(font, cached, n, rest, i - 1, j - 1);
        }
    }
}

/// One request of each kind per retrieval: where two stages of a run both wait
/// on the manifest, or both wait on a download, every stage between them is
/// that same stage. A retrieval thus fetches the manifest at most once and
/// downloads at most one file, once.
pub proof fn lemma_network_requests_once(
    font: Font,
    cached: bool,
    s: StageView,
    events: Seq<EventView>,
    i: int,
    j: int,
    k: int,
)
    requires
        0 <= i <= j <= k <= events.len(),
        (run(font, cached, s, events)[i] is FetchingManifest && run(
            font,
            cached,
            s,
            events,
        )[k] is FetchingManifest) || (run(font, cached, s, events)[i] is Downloading && run(
            font,
            cached,
            s,
            events,
        )[k] is Downloading),
    ensures
        run(font, cached, s, events)[j] == run(font, cached, s, events)[i],
        run(font, cached, s, events)[k] == run(font, cached, s, events)[i],
{
    lemma_run_forward(font, cached, s, events, i, j);
    lemma_run_forward(font, cached, s, events, j, k);
    lemma_run_forward(font, cached, s, events, i, k);
}

/// From a stage that reads the cache file, or from a finished retrieval, every
/// later stage reads the cache file or is finished.
proof fn lemma_offline_closed(font: Font, cached: bool, s: StageView, events: Seq<EventView>)
    requires
        s is Reading || s is Done,
    ensures
        forall|k: int|
            0 <= k < run(font, cached, s, events).len() ==> (#[trigger] run(
                font,
                cached,
                s,
                events,
            )[k] is Reading || run(font, cached, s, events)[k] is Done),
    decreases events.len(),
{
    if events.len() > 0 {
        let n = next_stage(font, cached, s, events[0]);
        let rest = events.drop_first();
        lemma_offline_closed(font, cached, n, rest);
        let whole = run(font, cached, s, events);
        let tail = run(font, cached, n, rest);
        assert forall|k: int| 0 <= k < whole.len() implies (#[trigger] whole[k] is Reading
            || whole[k] is Done) by {
            if k > 0 {
                assert(whole[k] == tail[k - 1]);
            }
        }
    }
}

/// Cache idempotence: once the probe finds the font's cache file, whatever is
/// reported next, the retrieval never waits on the network. The cache file
/// probed is the one a completed miss writes, so a second retrieval of a font
/// after a first successful one makes no network request.
pub proof fn lemma_cache_hit_offline(
    font: Font,
    root: Seq<char>,
    written: Seq<u8>,
    events: Seq<EventView>,
    k: int,
)
    requires
        0 <= k <= events.len(),
    ensures
        next_stage(font, true, StageView::Probing, EventView::CacheProbed(true))
            == StageView::Reading,
        !is_network_stage(run(font, true, StageView::Reading, events)[k]),
        action_of(FetchView { font, cache: Some(cache_path_of(font, root)), stage: StageView::Probing })
            == Some(ActionView::ProbeCache(cache_path_of(font, root))),
        action_of(
            FetchView {
                font,
                cache: Some(cache_path_of(font, root)),
                stage: StageView::Writing(written),
            },
        ) == Some(ActionView::WriteCache(cache_path_of(font, root), written)),
{
    lemma_run_shape(font, true, StageView::Reading, events);
    lemma_offline_closed(font, true, StageView::Reading, events);
}

/// Missing cache directory: without a cache root, a cached retrieval is done
/// at once with a cache-directory error, stays so whatever is reported, and
/// asks for no action, so it makes no network request.
pub proof fn lemma_missing_cache_root(font: Font, events: Seq<EventView>, k: int)
    requires
        0 <= k <= events.len(),
    ensures
        run(
            font,
            false,
            StageView::Done(Err(ErrorView::CacheDir(missing_cache_dir_message()))),
            events,
        )[k] == StageView::Done(Err(ErrorView::CacheDir(missing_cache_dir_message()))),
        action_of(
            FetchView {
                font,
                cache: None,
                stage: StageView::Done(Err(ErrorView::CacheDir(missing_cache_dir_message()))),
            },
        ) is None,
{
    let s = StageView::Done(Err(ErrorView::CacheDir(missing_cache_dir_message())));
    lemma_run_shape(font, false, s, events);
    lemma_run_forward(font, false, s, events, 0, k);
}

/// Index mismatch: a manifest that lists no more files than the font's
/// position in its family ends the retrieval with an index error that names
/// the position and the number of files, and nothing is downloaded.
pub proof fn lemma_short_manifest(font: Font, cached: bool, json: Seq<u8>, urls: Seq<Seq<char>>)
    requires
        urls.len() <= position_in_family(font),
    ensures
        next_stage(font, cached, StageView::Decoding(json), EventView::ManifestDecoded(Ok(urls)))
            == StageView::Done(
            Err(ErrorView::Index(position_in_family(font), urls.len() as int)),
        ),
{
}

} // verus!
