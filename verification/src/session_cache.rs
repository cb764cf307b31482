//! The cache of discovered sessions, and who may fill it.
//!
//! A scan runs in the background, and between two invalidations at most one is started. Until it
//! ends the cache serves an empty list; from then on it serves what the scan found, until it is
//! invalidated. A scan that was started before the cache was invalidated no longer counts.
use vstd::prelude::*;

#[allow(unused_imports)]
use crate::ranking::views;
use crate::session_scanner::DiscoveredCLIAgentSession;
#[allow(unused_imports)]
use crate::session_scanner::SessionView;

verus! {

/// What a scan is started with and gives back at its end.
#[derive(Clone, Copy, Debug, PartialEq, Eq, Structural)]
pub struct ScanToken {
    pub generation: u64,
}

/// The cache of discovered sessions.
#[derive(Debug)]
pub struct SessionCache {
    /// What the last scan found, if one has ended.
    pub sessions: Option<Vec<DiscoveredCLIAgentSession>>,
    /// Whether a scan that counts is running.
    pub scan_in_progress: bool,
    /// What the token of a scan has to carry for the scan to count.
    pub generation: u64,
}

/// The model of [`SessionCache`].
pub ghost struct CacheView {
    pub sessions: Option<Seq<SessionView>>,
    pub scan_in_progress: bool,
    pub generation: u64,
}

/// What the cache serves.
#[derive(Debug)]
pub struct CachedSessions {
    pub sessions: Vec<DiscoveredCLIAgentSession>,
    /// The token of the scan that the caller has to start, if any.
    pub start_scan: Option<ScanToken>,
}

impl View for SessionCache {
    type V = CacheView;

    open spec fn view(&self) -> CacheView {
        CacheView {
            sessions: match self.sessions {
                Some(sessions) => Some(views(sessions@)),
                None => None,
            },
            scan_in_progress: self.scan_in_progress,
            generation: self.generation,
        }
    }
}

impl CacheView {
    /// A scan has to be started: nothing is cached and no scan that counts is running.
    pub open spec fn needs_scan(self) -> bool {
        self.sessions is None && !self.scan_in_progress
    }

    /// The token of a scan that counts.
    pub open spec fn token(self) -> ScanToken {
        ScanToken { generation: self.generation }
    }

    /// The token of the scan that has to be started, if any.
    pub open spec fn scan_to_start(self) -> Option<ScanToken> {
        if self.needs_scan() {
            Some(self.token())
        } else {
            None
        }
    }

    /// The cache once somebody has been told to start the scan that it needs, if it needs one.
    pub open spec fn scan_ensured(self) -> CacheView {
        CacheView { scan_in_progress: self.scan_in_progress || self.needs_scan(), ..self }
    }

    /// The cache once a scan has ended, which counts if it was started since the cache was last
    /// emptied.
    pub open spec fn scan_finished(self, token: ScanToken, found: Seq<SessionView>) -> CacheView {
        if token == self.token() {
            CacheView { sessions: Some(found), scan_in_progress: false, ..self }
        } else {
            self
        }
    }

    /// The cache once it has been emptied: scans that were started before no longer count.
    pub open spec fn invalidated(self) -> CacheView {
        CacheView {
            sessions: None,
            scan_in_progress: false,
            generation: if self.generation == u64::MAX {
                0
            } else {
                (self.generation + 1) as u64
            },
        }
    }

    /// The cache once it has been emptied `n` times.
    pub open spec fn invalidated_times(self, n: nat) -> CacheView
        decreases n,
    {
        if n == 0 {
            self
        } else {
            self.invalidated_times((n - 1) as nat).invalidated()
        }
    }

    /// What the cache serves: nothing until a scan has ended.
    pub open spec fn served(self) -> Seq<SessionView> {
        match self.sessions {
            Some(sessions) => sessions,
            None => seq![],
        }
    }
}

/// A cache asks for a scan exactly where nothing is cached and none is running that counts, and
/// hands out the token that counts; that a scan has been asked for changes nothing else.
pub proof fn caches_ask_for_the_scan_they_need(cache: CacheView)
    ensures
        cache.needs_scan() <==> cache.sessions is None && !cache.scan_in_progress,
        cache.needs_scan() ==> cache.scan_to_start() == Some(
            ScanToken { generation: cache.generation },
        ),
        !cache.needs_scan() ==> cache.scan_to_start() is None && cache.scan_ensured() == cache,
        cache.needs_scan() ==> cache.scan_ensured().scan_in_progress,
        cache.scan_ensured().sessions == cache.sessions,
        cache.scan_ensured().generation == cache.generation,
        cache.token().generation == cache.generation,
{
}

/// A scan that counts fills the cache and is over; one that does not count leaves the cache alone.
pub proof fn scans_that_count_fill_the_cache(
    cache: CacheView,
    token: ScanToken,
    found: Seq<SessionView>,
)
    ensures
        token.generation == cache.generation ==> {
            &&& cache.scan_finished(token, found).sessions == Some(found)
            &&& !cache.scan_finished(token, found).scan_in_progress
            &&& cache.scan_finished(token, found).generation == cache.generation
        },
        token.generation != cache.generation ==> cache.scan_finished(token, found) == cache,
{
}

/// A cache serves what is cached, and nothing where nothing is.
pub proof fn caches_serve_what_is_cached(cache: CacheView, found: Seq<SessionView>)
    ensures
        cache.sessions == Some(found) ==> cache.served() == found,
        cache.sessions is None ==> cache.served().len() == 0,
{
}

/// A cache is seen as what it holds.
pub proof fn caches_are_seen_whole(cache: SessionCache)
    ensures
        cache@.scan_in_progress == cache.scan_in_progress,
        cache@.generation == cache.generation,
        match cache.sessions {
            Some(sessions) => cache@.sessions == Some(views(sessions@)),
            None => cache@.sessions is None,
        },
{
}

/// However often a scan is asked for, it is started once.
pub proof fn scans_start_once(cache: CacheView)
    ensures
        !cache.scan_ensured().needs_scan(),
        cache.scan_ensured().scan_ensured() == cache.scan_ensured(),
{
}

/// What a scan found is served as it is and is not scanned for again.
pub proof fn finished_scans_are_served(cache: CacheView, found: Seq<SessionView>)
    ensures
        ({
            let finished = cache.scan_ensured().scan_finished(cache.token(), found);
            &&& finished.served() == found
            &&& !finished.needs_scan()
            &&& finished.scan_ensured() == finished
        }),
{
}

/// Emptying the cache counts its generations, which start again behind the last 64-bit number.
proof fn generations_are_counted(cache: CacheView, n: nat)
    ensures
        cache.invalidated_times(n).generation == (cache.generation + n) % 0x1_0000_0000_0000_0000,
    decreases n,
{
    if n > 0 {
        generations_are_counted(cache, (n - 1) as nat);
    }
}

/// A scan that was running when the cache was emptied changes nothing at its end, however often
/// the cache has been emptied since, short of 2^64 times: the emptied cache still needs its scan,
/// and once that has been started it is still running.
pub proof fn stale_scans_change_nothing(cache: CacheView, n: nat, found: Seq<SessionView>)
    requires
        0 < n < 0x1_0000_0000_0000_0000,
    ensures
        ({
            let emptied = cache.invalidated_times(n);
            let ended = emptied.scan_finished(cache.token(), found);
            &&& ended == emptied
            &&& ended.needs_scan()
            &&& ended.served() == Seq::<SessionView>::empty()
            &&& emptied.scan_ensured().scan_finished(cache.token(), found)
                == emptied.scan_ensured()
        }),
{
    generations_are_counted(cache, n);
}

/// An emptied cache serves nothing and asks for a scan, also where one is still running.
pub proof fn invalidated_caches_are_scanned_again(cache: CacheView)
    ensures
        cache.invalidated().served() == Seq::<SessionView>::empty(),
        cache.invalidated().needs_scan(),
{
}

impl SessionCache {
    /// A cache that has not been filled.
    pub fn new() -> (cache: SessionCache)
        ensures
            cache@ == (CacheView { sessions: None, scan_in_progress: false, generation: 0 }),
    {
        SessionCache { sessions: None, scan_in_progress: false, generation: 0 }
    }
}

/// Notes that a scan is running if one is needed, and gives the caller who has to start it the
/// token for it.
pub fn ensure_background_scan(cache: &mut SessionCache) -> (start_scan: Option<ScanToken>)
    ensures
        start_scan == old(cache)@.scan_to_start(),
        final(cache)@ == old(cache)@.scan_ensured(),
{
    if cache.sessions.is_some() || cache.scan_in_progress {
        return None;
    }
    cache.scan_in_progress = true;
    Some(ScanToken { generation: cache.generation })
}

/// A copy of a list of sessions.
pub(crate) fn copy_sessions(sessions: &Vec<DiscoveredCLIAgentSession>) -> (copy: Vec<
    DiscoveredCLIAgentSession,
>)
    ensures
        views(copy@) == views(sessions@),
{
    let mut copy: Vec<DiscoveredCLIAgentSession> = Vec::new();
    let mut i: usize = 0;
    while i < sessions.len()
        invariant
            i <= sessions.len(),
            copy@.len() == i,
            forall|k: int| 0 <= k < i ==> (#[trigger] copy@[k])@ == sessions@[k]@,
        decreases sessions.len() - i,
    {
        copy.push(sessions[i].clone());
        i += 1;
    }
    assert(views(copy@) =~= views(sessions@));
    copy
}

/// The cached sessions. Where no scan has ended yet the list is empty, and a scan has to be
/// started unless one is running.
pub fn scan_cached(cache: &mut SessionCache) -> (served: CachedSessions)
    ensures
        views(served.sessions@) == old(cache)@.served(),
        served.start_scan == old(cache)@.scan_to_start(),
        final(cache)@ == old(cache)@.scan_ensured(),
{
    let start_scan = ensure_background_scan(cache);
    let sessions = match &cache.sessions {
        Some(sessions) => copy_sessions(sessions),
        None => Vec::new(),
    };
    assert(views(sessions@) =~= old(cache)@.served());
    CachedSessions { sessions, start_scan }
}

/// Takes in what the scan with `token` found, unless the cache has been emptied since the scan was
/// started.
pub fn finish_scan(
    cache: &mut SessionCache,
    token: ScanToken,
    sessions: Vec<DiscoveredCLIAgentSession>,
)
    ensures
        final(cache)@ == old(cache)@.scan_finished(token, views(sessions@)),
{
    if token.generation == cache.generation {
        cache.sessions = Some(sessions);
        cache.scan_in_progress = false;
    }
}

/// Empties the cache, so that the next call of [`scan_cached`] asks for a scan.
pub fn invalidate_cache(cache: &mut SessionCache)
    ensures
        final(cache)@ == old(cache)@.invalidated(),
{
    cache.sessions = None;
    cache.scan_in_progress = false;
    cache.generation = if cache.generation == u64::MAX {
        0
    } else {
        cache.generation + 1
    };
}

/// The same as [`scan_cached`], for callers that know it by this name.
pub fn scan_all(cache: &mut SessionCache) -> (served: CachedSessions)
    ensures
        views(served.sessions@) == old(cache)@.served(),
        served.start_scan == old(cache)@.scan_to_start(),
        final(cache)@ == old(cache)@.scan_ensured(),
{
    scan_cached(cache)
}

/// The same as [`scan_cached`], for callers that know it by this name. The limit is that of the
/// scan, whatever is asked for.
pub fn scan_all_with_limit(cache: &mut SessionCache, _limit: usize) -> (served: CachedSessions)
    ensures
        views(served.sessions@) == old(cache)@.served(),
        served.start_scan == old(cache)@.scan_to_start(),
        final(cache)@ == old(cache)@.scan_ensured(),
{
    scan_cached(cache)
}

} // verus!
