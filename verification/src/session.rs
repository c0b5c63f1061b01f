//! Session registry and lifecycle management.
//!
//! Each session represents one browser context with:
//! - a unique ID,
//! - a state machine (Created → Launching → Active → Closed),
//! - a browser handle (when active).
//!
//! The session is generic over the driver's browser handle `B`, mutation observer
//! handle `H` and mutation event receiver `R`; the registry holds sessions in
//! creation order, no two with the same id.

use vstd::prelude::*;
use crate::error::{ErrorCode, ProtocolError, TivanaError};
use crate::protocol::{is_uuid_v4_text, new_uuid};
use crate::proxy::{next_counter, ProxyConfig, ProxyPool};
use crate::text::str_eq;

verus! {

/// Session lifecycle states
#[derive(Debug, Clone, Copy, PartialEq, Eq, Structural)]
pub enum SessionState {
    /// Session created but browser not launched
    Created,
    /// Browser is launching
    Launching,
    /// Browser is active and ready
    Active,
    /// Session is closed
    Closed,
}

/// The name of a state, as its debug text shows it.
pub open spec fn state_name(s: SessionState) -> Seq<char> {
    match s {
        SessionState::Created => "Created"@,
        SessionState::Launching => "Launching"@,
        SessionState::Active => "Active"@,
        SessionState::Closed => "Closed"@,
    }
}

impl SessionState {
    /// The state's name ("Created", "Launching", "Active" or "Closed").
    pub fn name(self) -> (s: String)
        ensures
            s@ == state_name(self),
    {
        match self {
            SessionState::Created => String::from_str("Created"),
            SessionState::Launching => String::from_str("Launching"),
            SessionState::Active => String::from_str("Active"),
            SessionState::Closed => String::from_str("Closed"),
        }
    }

    /// The state's name in lowercase, as responses carry it.
    pub fn wire_name(self) -> (s: String)
        ensures
            s@ == (match self {
                SessionState::Created => "created"@,
                SessionState::Launching => "launching"@,
                SessionState::Active => "active"@,
                SessionState::Closed => "closed"@,
            }),
    {
        match self {
            SessionState::Created => String::from_str("created"),
            SessionState::Launching => String::from_str("launching"),
            SessionState::Active => String::from_str("active"),
            SessionState::Closed => String::from_str("closed"),
        }
    }
}

/// Session configuration
#[derive(Debug)]
pub struct SessionConfig {
    /// Initial URL to navigate to
    pub initial_url: Option<String>,
    /// Run in headless mode
    pub headless: bool,
    /// Viewport width
    pub viewport_width: Option<u32>,
    /// Viewport height
    pub viewport_height: Option<u32>,
    /// Proxy the session's browser goes through
    pub proxy: Option<ProxyConfig>,
}

impl Default for SessionConfig {
    fn default() -> (c: Self)
        ensures
            c.initial_url is None,
            !c.headless,
            c.viewport_width is None,
            c.viewport_height is None,
            c.proxy is None,
    {
        SessionConfig {
            initial_url: None,
            headless: false,
            viewport_width: None,
            viewport_height: None,
            proxy: None,
        }
    }
}

impl SessionConfig {
    /// A copy of the configuration.
    pub fn duplicate(&self) -> (c: Self)
        ensures
            c == *self,
    {
        SessionConfig {
            initial_url: match &self.initial_url {
                Some(u) => Some(u.clone()),
                None => None,
            },
            headless: self.headless,
            viewport_width: self.viewport_width,
            viewport_height: self.viewport_height,
            proxy: match &self.proxy {
                Some(p) => Some(p.duplicate()),
                None => None,
            },
        }
    }
}

/// A browser session
pub struct Session<B, H, R> {
    /// Unique session ID
    pub id: String,
    /// Current state
    pub state: SessionState,
    /// Browser handle (present when Active)
    pub browser: Option<B>,
    /// Creation time, in milliseconds of the driver's monotonic clock
    pub created_at_ms: u64,
    /// Session configuration
    pub config: SessionConfig,
    /// Mutation observer handle (for stopping)
    pub mutation_observer_handle: Option<H>,
    /// Mutation events receiver
    pub mutation_rx: Option<R>,
    /// Proxy currently in use
    pub proxy: Option<ProxyConfig>,
    /// Proxies to rotate through
    pub proxy_pool: Option<ProxyPool>,
}

/// Session info for API responses
#[derive(Debug)]
pub struct SessionInfo {
    pub id: String,
    pub state: SessionState,
    pub age_secs: u64,
}

/// A session's age in whole seconds at `now_ms` (zero if the clock reads earlier).
pub open spec fn age_secs(created_at_ms: u64, now_ms: u64) -> u64 {
    if now_ms >= created_at_ms {
        ((now_ms - created_at_ms) / 1000) as u64
    } else {
        0
    }
}

/// The error of an operation on a session in the wrong state.
pub open spec fn state_error(r: Result<(), TivanaError>, prefix: Seq<char>, s: SessionState) -> bool {
    r matches Err(TivanaError::Session(m)) && m@ == prefix + state_name(s)
}

/// What rotating a session's proxy does: with no pool or an empty pool it fails and
/// changes nothing; else the pool steps once and the proxy it then selects becomes the
/// session's proxy.
pub open spec fn rotation_ok<B, H, R>(
    old: Session<B, H, R>,
    new: Session<B, H, R>,
    r: Result<ProxyConfig, TivanaError>,
) -> bool {
    match old.proxy_pool {
        None => new == old && (r matches Err(TivanaError::Session(m)) && m@
            == "No proxy pool configured for this session"@),
        Some(pool) => if pool.proxies().len() == 0 {
            new == old && (r matches Err(TivanaError::Session(m)) && m@ == "Proxy pool is empty"@)
        } else {
            r matches Ok(c) && new.proxy_pool matches Some(p2) && p2.proxies() == pool.proxies()
                && p2.counter() == next_counter(pool.counter()) && p2.selected() == Some(c)
                && new == (Session { proxy: Some(c), proxy_pool: Some(p2), ..old })
        },
    }
}

impl<B, H, R> Session<B, H, R> {
    /// A fresh session as `new` makes it.
    pub open spec fn fresh(id: Seq<char>, config: SessionConfig, now_ms: u64, s: Self) -> bool {
        &&& s.id@ == id
        &&& s.state == SessionState::Created
        &&& s.browser is None
        &&& s.created_at_ms == now_ms
        &&& s.config == config
        &&& s.mutation_observer_handle is None
        &&& s.mutation_rx is None
        &&& s.proxy is None
        &&& s.proxy_pool is None
    }

    /// Create a new session with the given ID
    pub fn new(id: String, config: SessionConfig, now_ms: u64) -> (s: Self)
        ensures
            Self::fresh(id@, config, now_ms, s),
    {
        Session {
            id,
            state: SessionState::Created,
            browser: None,
            created_at_ms: now_ms,
            config,
            mutation_observer_handle: None,
            mutation_rx: None,
            proxy: None,
            proxy_pool: None,
        }
    }

    /// The session after `start_launch`.
    pub open spec fn launched(self) -> Self {
        Session { state: SessionState::Launching, ..self }
    }

    /// Transition to launching state; only a created session can launch.
    pub fn start_launch(&mut self) -> (r: Result<(), TivanaError>)
        ensures
            old(self).state == SessionState::Created ==> r is Ok && *final(self) == old(
                self,
            ).launched(),
            old(self).state != SessionState::Created ==> state_error(
                r,
                "Cannot launch session in state "@,
                old(self).state,
            ) && *final(self) == *old(self),
    {
        if self.state != SessionState::Created {
            return Err(
                TivanaError::Session(
                    String::from_str("Cannot launch session in state ").concat(
                        self.state.name().as_str(),
                    ),
                ),
            );
        }
        self.state = SessionState::Launching;
        Ok(())
    }

    /// The session after `complete_launch` with a browser.
    pub open spec fn activated(self, browser: B) -> Self {
        Session { state: SessionState::Active, browser: Some(browser), ..self }
    }

    /// Complete launch with browser handle; only a launching session can complete.
    pub fn complete_launch(&mut self, browser: B) -> (r: Result<(), TivanaError>)
        ensures
            old(self).state == SessionState::Launching ==> r is Ok && *final(self) == old(
                self,
            ).activated(browser),
            old(self).state != SessionState::Launching ==> state_error(
                r,
                "Cannot complete launch in state "@,
                old(self).state,
            ) && *final(self) == *old(self),
    {
        if self.state != SessionState::Launching {
            return Err(
                TivanaError::Session(
                    String::from_str("Cannot complete launch in state ").concat(
                        self.state.name().as_str(),
                    ),
                ),
            );
        }
        self.browser = Some(browser);
        self.state = SessionState::Active;
        Ok(())
    }

    /// The session after `close`.
    pub open spec fn closed(self) -> Self {
        Session {
            state: SessionState::Closed,
            browser: None,
            mutation_observer_handle: None,
            mutation_rx: None,
            ..self
        }
    }

    /// Close the session; returns the mutation observer handle, if one was running, for
    /// the driver to stop.
    pub fn close(&mut self) -> (h: Option<H>)
        ensures
            *final(self) == old(self).closed(),
            h == old(self).mutation_observer_handle,
    {
        self.state = SessionState::Closed;
        self.browser = None;
        let h = self.mutation_observer_handle.take();
        self.mutation_rx = None;
        h
    }

    /// Start mutation observation
    pub fn start_mutation_observer(&mut self, rx: R, handle: H)
        ensures
            *final(self) == (Session {
                mutation_rx: Some(rx),
                mutation_observer_handle: Some(handle),
                ..*old(self)
            }),
    {
        self.mutation_rx = Some(rx);
        self.mutation_observer_handle = Some(handle);
    }

    /// Stop mutation observation; returns the observer handle, if one was running, for
    /// the driver to stop.
    pub fn stop_mutation_observer(&mut self) -> (h: Option<H>)
        ensures
            *final(self) == (Session {
                mutation_rx: None,
                mutation_observer_handle: None,
                ..*old(self)
            }),
            h == old(self).mutation_observer_handle,
    {
        let h = self.mutation_observer_handle.take();
        self.mutation_rx = None;
        h
    }

    /// Check if mutation observer is running
    pub fn is_mutation_observer_running(&self) -> (b: bool)
        ensures
            b == (self.mutation_observer_handle is Some),
    {
        self.mutation_observer_handle.is_some()
    }

    /// Take the mutation receiver (for streaming)
    pub fn take_mutation_rx(&mut self) -> (rx: Option<R>)
        ensures
            *final(self) == (Session { mutation_rx: None, ..*old(self) }),
            rx == old(self).mutation_rx,
    {
        self.mutation_rx.take()
    }

    /// Put a mutation receiver back after draining it.
    pub fn restore_mutation_rx(&mut self, rx: R)
        ensures
            *final(self) == (Session { mutation_rx: Some(rx), ..*old(self) }),
    {
        self.mutation_rx = Some(rx);
    }

    /// Use a proxy from now on.
    pub fn set_proxy(&mut self, proxy: ProxyConfig)
        ensures
            *final(self) == (Session { proxy: Some(proxy), ..*old(self) }),
    {
        self.proxy = Some(proxy);
    }

    /// Install a proxy pool; its current proxy, if any, becomes the session's proxy.
    /// Returns that proxy.
    pub fn install_proxy_pool(&mut self, pool: ProxyPool) -> (current: Option<ProxyConfig>)
        ensures
            current == pool.selected(),
            *final(self) == (Session {
                proxy: if current is Some {
                    current
                } else {
                    old(self).proxy
                },
                proxy_pool: Some(pool),
                ..*old(self)
            }),
    {
        let current = match pool.current() {
            Some(p) => Some(p.duplicate()),
            None => None,
        };
        match &current {
            Some(c) => {
                self.proxy = Some(c.duplicate());
            },
            None => {},
        }
        self.proxy_pool = Some(pool);
        current
    }

    /// Rotate to the pool's next proxy and use it.
    pub fn rotate_proxy(&mut self) -> (r: Result<ProxyConfig, TivanaError>)
        ensures
            rotation_ok(*old(self), *final(self), r),
    {
        match self.proxy_pool.take() {
            None => Err(
                TivanaError::Session(
                    String::from_str("No proxy pool configured for this session"),
                ),
            ),
            Some(mut pool) => {
                if pool.is_empty() {
                    self.proxy_pool = Some(pool);
                    return Err(TivanaError::Session(String::from_str("Proxy pool is empty")));
                }
                let next = match pool.next() {
                    Some(p) => p.duplicate(),
                    None => {
                        self.proxy_pool = Some(pool);
                        return Err(TivanaError::Session(String::from_str("Proxy pool is empty")));
                    },
                };
                self.proxy_pool = Some(pool);
                self.proxy = Some(next.duplicate());
                Ok(next)
            },
        }
    }

    /// Check if session is active
    pub fn is_active(&self) -> (b: bool)
        ensures
            b == (self.state == SessionState::Active),
    {
        self.state == SessionState::Active
    }

    /// Get session info for API responses, at the driver's clock reading `now_ms`.
    pub fn info(&self, now_ms: u64) -> (i: SessionInfo)
        ensures
            i.id@ == self.id@,
            i.state == self.state,
            i.age_secs == age_secs(self.created_at_ms, now_ms),
    {
        let age = if now_ms >= self.created_at_ms {
            (now_ms - self.created_at_ms) / 1000
        } else {
            0
        };
        SessionInfo { id: self.id.clone(), state: self.state, age_secs: age }
    }
}

/// No two sessions share an id.
pub open spec fn ids_distinct<B, H, R>(s: Seq<Session<B, H, R>>) -> bool {
    forall|i: int, j: int|
        0 <= i < s.len() && 0 <= j < s.len() && i != j ==> #[trigger] s[i].id@ != #[trigger] s[j].id@
}

/// The sessions by id.
pub open spec fn session_map<B, H, R>(s: Seq<Session<B, H, R>>) -> Map<Seq<char>, Session<B, H, R>>
    decreases s.len(),
{
    if s.len() == 0 {
        Map::empty()
    } else {
        session_map(s.drop_last()).insert(s.last().id@, s.last())
    }
}

/// The number of active sessions.
pub open spec fn count_active<B, H, R>(s: Seq<Session<B, H, R>>) -> nat
    decreases s.len(),
{
    if s.len() == 0 {
        0
    } else {
        count_active(s.drop_last()) + if s.last().state == SessionState::Active {
            1nat
        } else {
            0nat
        }
    }
}

proof fn lemma_map_domain<B, H, R>(s: Seq<Session<B, H, R>>, k: Seq<char>)
    ensures
        session_map(s).dom().contains(k) <==> exists|i: int| 0 <= i < s.len() && #[trigger] s[i].id@ == k,
    decreases s.len(),
{
    if s.len() > 0 {
        lemma_map_domain(s.drop_last(), k);
        if exists|i: int| 0 <= i < s.len() && #[trigger] s[i].id@ == k {
            let i = choose|i: int| 0 <= i < s.len() && #[trigger] s[i].id@ == k;
            if i < s.len() - 1 {
                assert(s.drop_last()[i].id@ == k);
            }
        }
        if exists|i: int| 0 <= i < s.drop_last().len() && #[trigger] s.drop_last()[i].id@ == k {
            let i = choose|i: int| 0 <= i < s.drop_last().len() && #[trigger] s.drop_last()[i].id@ == k;
            assert(s[i].id@ == k);
        }
    }
}

proof fn lemma_map_at<B, H, R>(s: Seq<Session<B, H, R>>, i: int)
    requires
        ids_distinct(s),
        0 <= i < s.len(),
    ensures
        session_map(s).dom().contains(s[i].id@),
        session_map(s)[s[i].id@] == s[i],
    decreases s.len(),
{
    if i < s.len() - 1 {
        let t = s.drop_last();
        assert(t[i] == s[i]);
        assert(ids_distinct(t)) by {
            assert forall|a: int, b: int|
                0 <= a < t.len() && 0 <= b < t.len() && a != b implies #[trigger] t[a].id@
                != #[trigger] t[b].id@ by {
                assert(s[a].id@ != s[b].id@);
            }
        }
        lemma_map_at(t, i);
        assert(s[i].id@ != s.last().id@);
    }
}

proof fn lemma_map_update<B, H, R>(s: Seq<Session<B, H, R>>, i: int, x: Session<B, H, R>)
    requires
        ids_distinct(s),
        0 <= i < s.len(),
        x.id@ == s[i].id@,
    ensures
        session_map(s.update(i, x)) == session_map(s).insert(x.id@, x),
        ids_distinct(s.update(i, x)),
    decreases s.len(),
{
    let u = s.update(i, x);
    assert(ids_distinct(u)) by {
        assert forall|a: int, b: int|
            0 <= a < u.len() && 0 <= b < u.len() && a != b implies #[trigger] u[a].id@
            != #[trigger] u[b].id@ by {
            assert(s[a].id@ != s[b].id@);
        }
    }
    if i == s.len() - 1 {
        assert(u.drop_last() =~= s.drop_last());
        assert(session_map(u) =~= session_map(s).insert(x.id@, x));
    } else {
        let t = s.drop_last();
        assert(ids_distinct(t)) by {
            assert forall|a: int, b: int|
                0 <= a < t.len() && 0 <= b < t.len() && a != b implies #[trigger] t[a].id@
                != #[trigger] t[b].id@ by {
                assert(s[a].id@ != s[b].id@);
            }
        }
        lemma_map_update(t, i, x);
        assert(u.drop_last() =~= t.update(i, x));
        assert(u.last() == s.last());
        assert(s.last().id@ != x.id@) by {
            assert(s[s.len() - 1].id@ != s[i].id@);
        }
        assert(session_map(u) =~= session_map(s).insert(x.id@, x));
    }
}

proof fn lemma_map_push<B, H, R>(s: Seq<Session<B, H, R>>, x: Session<B, H, R>)
    requires
        ids_distinct(s),
        forall|i: int| 0 <= i < s.len() ==> #[trigger] s[i].id@ != x.id@,
    ensures
        session_map(s.push(x)) == session_map(s).insert(x.id@, x),
        ids_distinct(s.push(x)),
{
    assert(s.push(x).drop_last() =~= s);
    let p = s.push(x);
    assert(ids_distinct(p)) by {
        assert forall|a: int, b: int|
            0 <= a < p.len() && 0 <= b < p.len() && a != b implies #[trigger] p[a].id@
            != #[trigger] p[b].id@ by {
            if a < s.len() && b < s.len() {
                assert(s[a].id@ != s[b].id@);
            } else if a < s.len() {
                assert(s[a].id@ != x.id@);
            } else {
                assert(s[b].id@ != x.id@);
            }
        }
    }
}

proof fn lemma_map_remove<B, H, R>(s: Seq<Session<B, H, R>>, i: int)
    requires
        ids_distinct(s),
        0 <= i < s.len(),
    ensures
        session_map(s.remove(i)) == session_map(s).remove(s[i].id@),
        ids_distinct(s.remove(i)),
    decreases s.len(),
{
    let r = s.remove(i);
    assert(ids_distinct(r)) by {
        assert forall|a: int, b: int|
            0 <= a < r.len() && 0 <= b < r.len() && a != b implies #[trigger] r[a].id@
            != #[trigger] r[b].id@ by {
            let a2 = if a < i {
                a
            } else {
                a + 1
            };
            let b2 = if b < i {
                b
            } else {
                b + 1
            };
            assert(r[a] == s[a2]);
            assert(r[b] == s[b2]);
            assert(s[a2].id@ != s[b2].id@);
        }
    }
    let k = s[i].id@;
    if i == s.len() - 1 {
        assert(r =~= s.drop_last());
        let t = s.drop_last();
        assert(!session_map(t).dom().contains(k)) by {
            lemma_map_domain(t, k);
            if exists|j: int| 0 <= j < t.len() && #[trigger] t[j].id@ == k {
                let j = choose|j: int| 0 <= j < t.len() && #[trigger] t[j].id@ == k;
                assert(s[j].id@ != s[i].id@);
            }
        }
        assert(session_map(r) =~= session_map(s).remove(k));
    } else {
        let t = s.drop_last();
        assert(ids_distinct(t)) by {
            assert forall|a: int, b: int|
                0 <= a < t.len() && 0 <= b < t.len() && a != b implies #[trigger] t[a].id@
                != #[trigger] t[b].id@ by {
                assert(s[a].id@ != s[b].id@);
            }
        }
        lemma_map_remove(t, i);
        assert(r.drop_last() =~= t.remove(i));
        assert(r.last() == s.last());
        assert(s.last().id@ != k) by {
            assert(s[s.len() - 1].id@ != s[i].id@);
        }
        assert(session_map(r) =~= session_map(s).remove(k));
    }
}

/// What an operation on one session of the registry does: on a known id the session
/// takes a step and nothing else changes; an unknown id fails and changes nothing.
pub open spec fn session_step<B, H, R, T>(
    before: Map<Seq<char>, Session<B, H, R>>,
    after: Map<Seq<char>, Session<B, H, R>>,
    id: Seq<char>,
    r: Result<T, TivanaError>,
    step: spec_fn(Session<B, H, R>, Session<B, H, R>, Result<T, TivanaError>) -> bool,
) -> bool {
    if before.dom().contains(id) {
        after.dom().contains(id) && after == before.insert(id, after[id]) && step(
            before[id],
            after[id],
            r,
        )
    } else {
        after == before && not_found_error(r, id)
    }
}

/// Session registry: the sessions in creation order, no two with the same id.
pub struct SessionRegistry<B, H, R> {
    sessions: Vec<Session<B, H, R>>,
}

/// The error of an operation on an unknown session.
pub open spec fn not_found_error<T>(r: Result<T, TivanaError>, id: Seq<char>) -> bool {
    r matches Err(TivanaError::Session(m)) && m@ == "Session not found: "@ + id
}

impl<B, H, R> SessionRegistry<B, H, R> {
    /// The sessions in creation order.
    pub closed spec fn sessions(&self) -> Seq<Session<B, H, R>> {
        self.sessions@
    }

    /// The sessions by id.
    pub open spec fn view(&self) -> Map<Seq<char>, Session<B, H, R>> {
        session_map(self.sessions())
    }

    /// The registry's invariant: ids are unique.
    pub open spec fn wf(&self) -> bool {
        ids_distinct(self.sessions())
    }

    /// Create a new empty registry
    pub fn new() -> (r: Self)
        ensures
            r.wf(),
            r.sessions().len() == 0,
            r@ == Map::<Seq<char>, Session<B, H, R>>::empty(),
    {
        SessionRegistry { sessions: Vec::new() }
    }

    /// The position of the session with this id.
    fn position(&self, id: &str) -> (r: Option<usize>)
        ensures
            r matches Some(i) ==> i < self.sessions().len() && self.sessions()[i as int].id@
                == id@,
            r is None ==> forall|i: int|
                0 <= i < self.sessions().len() ==> #[trigger] self.sessions()[i].id@ != id@,
    {
        let mut i: usize = 0;
        while i < self.sessions.len()
            invariant
                i <= self.sessions@.len(),
                forall|k: int| 0 <= k < i ==> #[trigger] self.sessions@[k].id@ != id@,
            decreases self.sessions.len() - i,
        {
            if str_eq(self.sessions[i].id.as_str(), id) {
                return Some(i);
            }
            i = i + 1;
        }
        None
    }

    /// Facts about the view at a position.
    proof fn lemma_view_at(&self, i: int)
        requires
            self.wf(),
            0 <= i < self.sessions().len(),
        ensures
            self@.dom().contains(self.sessions()[i].id@),
            self@[self.sessions()[i].id@] == self.sessions()[i],
    {
        lemma_map_at(self.sessions(), i);
    }

    /// Facts about the view of an absent id.
    proof fn lemma_view_absent(&self, id: Seq<char>)
        requires
            forall|i: int| 0 <= i < self.sessions().len() ==> #[trigger] self.sessions()[i].id@ != id,
        ensures
            !self@.dom().contains(id),
    {
        lemma_map_domain(self.sessions(), id);
    }

    /// Adds a session under a given id (as when reattaching); a session already under
    /// that id is replaced. Returns the id.
    pub fn create_with_id(&mut self, id: String, config: SessionConfig, now_ms: u64) -> (r: String)
        requires
            old(self).wf(),
        ensures
            final(self).wf(),
            r@ == id@,
            final(self)@.dom().contains(id@),
            Session::fresh(id@, config, now_ms, final(self)@[id@]),
            final(self)@ == old(self)@.insert(id@, final(self)@[id@]),
    {
        let key = id.clone();
        let session = Session::new(id, config, now_ms);
        let ghost s = session;
        match self.position(key.as_str()) {
            Some(i) => {
                proof {
                    lemma_map_update(self.sessions@, i as int, s);
                }
                self.sessions.set(i, session);
            },
            None => {
                proof {
                    lemma_map_push(self.sessions@, s);
                }
                self.sessions.push(session);
            },
        }
        proof {
            assert(self@ == old(self)@.insert(id@, s));
        }
        key
    }

    /// Create a new session under a fresh random id and return the id.
    pub fn create(&mut self, config: SessionConfig, now_ms: u64) -> (r: String)
        requires
            old(self).wf(),
        ensures
            final(self).wf(),
            is_uuid_v4_text(r@),
            final(self)@.dom().contains(r@),
            Session::fresh(r@, config, now_ms, final(self)@[r@]),
            final(self)@ == old(self)@.insert(r@, final(self)@[r@]),
    {
        let id = new_uuid();
        self.create_with_id(id, config, now_ms)
    }

    /// Get a session's info by ID
    pub fn get(&self, id: &str, now_ms: u64) -> (r: Option<SessionInfo>)
        requires
            self.wf(),
        ensures
            self@.dom().contains(id@) ==> (r matches Some(info) && info.id@ == id@ && info.state
                == self@[id@].state && info.age_secs == age_secs(
                self@[id@].created_at_ms,
                now_ms,
            )),
            !self@.dom().contains(id@) ==> r is None,
    {
        match self.position(id) {
            Some(i) => {
                proof {
                    self.lemma_view_at(i as int);
                }
                Some(self.sessions[i].info(now_ms))
            },
            None => {
                proof {
                    self.lemma_view_absent(id@);
                }
                None
            },
        }
    }

    /// Check if a session exists
    pub fn session_exists(&self, id: &str) -> (b: bool)
        requires
            self.wf(),
        ensures
            b == self@.dom().contains(id@),
    {
        match self.position(id) {
            Some(i) => {
                proof {
                    self.lemma_view_at(i as int);
                }
                true
            },
            None => {
                proof {
                    self.lemma_view_absent(id@);
                }
                false
            },
        }
    }

    /// List all sessions, in creation order.
    pub fn list(&self, now_ms: u64) -> (r: Vec<SessionInfo>)
        ensures
            r@.len() == self.sessions().len(),
            forall|i: int|
                0 <= i < r@.len() ==> (#[trigger] r@[i]).id@ == self.sessions()[i].id@ && r@[i].state
                    == self.sessions()[i].state && r@[i].age_secs == age_secs(
                    self.sessions()[i].created_at_ms,
                    now_ms,
                ),
    {
        let mut r: Vec<SessionInfo> = Vec::new();
        let mut i: usize = 0;
        while i < self.sessions.len()
            invariant
                i <= self.sessions@.len(),
                r@.len() == i,
                forall|k: int|
                    0 <= k < i ==> (#[trigger] r@[k]).id@ == self.sessions@[k].id@ && r@[k].state
                        == self.sessions@[k].state && r@[k].age_secs == age_secs(
                        self.sessions@[k].created_at_ms,
                        now_ms,
                    ),
            decreases self.sessions.len() - i,
        {
            r.push(self.sessions[i].info(now_ms));
            i = i + 1;
        }
        r
    }

    /// Update session state to launching.
    pub fn start_launch(&mut self, id: &str) -> (r: Result<(), TivanaError>)
        requires
            old(self).wf(),
        ensures
            final(self).wf(),
            !old(self)@.dom().contains(id@) ==> not_found_error(r, id@) && final(self)@ == old(
                self,
            )@,
            old(self)@.dom().contains(id@) && old(self)@[id@].state == SessionState::Created ==> r is Ok
                && final(self)@ == old(self)@.insert(id@, old(self)@[id@].launched()),
            old(self)@.dom().contains(id@) && old(self)@[id@].state != SessionState::Created
                ==> state_error(r, "Cannot launch session in state "@, old(self)@[id@].state)
                && final(self)@ == old(self)@,
    {
        match self.position(id) {
            None => {
                proof {
                    self.lemma_view_absent(id@);
                }
                Err(TivanaError::Session(String::from_str("Session not found: ").concat(id)))
            },
            Some(i) => {
                proof {
                    self.lemma_view_at(i as int);
                }
                let ghost before = self.sessions@[i as int];
                let r = self.sessions[i].start_launch();
                proof {
                    lemma_map_update(old(self).sessions@, i as int, self.sessions@[i as int]);
                    assert(self.sessions@ == old(self).sessions@.update(i as int, self.sessions@[i as int]));
                    if r is Err {
                        assert(self.sessions@ =~= old(self).sessions@);
                    }
                }
                r
            },
        }
    }

    /// Complete session launch with browser handle.
    pub fn complete_launch(&mut self, id: &str, browser: B) -> (r: Result<(), TivanaError>)
        requires
            old(self).wf(),
        ensures
            final(self).wf(),
            !old(self)@.dom().contains(id@) ==> not_found_error(r, id@) && final(self)@ == old(
                self,
            )@,
            old(self)@.dom().contains(id@) && old(self)@[id@].state == SessionState::Launching
                ==> r is Ok && final(self)@ == old(self)@.insert(
                id@,
                old(self)@[id@].activated(browser),
            ),
            old(self)@.dom().contains(id@) && old(self)@[id@].state != SessionState::Launching
                ==> state_error(r, "Cannot complete launch in state "@, old(self)@[id@].state)
                && final(self)@ == old(self)@,
    {
        match self.position(id) {
            None => {
                proof {
                    self.lemma_view_absent(id@);
                }
                Err(TivanaError::Session(String::from_str("Session not found: ").concat(id)))
            },
            Some(i) => {
                proof {
                    self.lemma_view_at(i as int);
                }
                let r = self.sessions[i].complete_launch(browser);
                proof {
                    lemma_map_update(old(self).sessions@, i as int, self.sessions@[i as int]);
                    assert(self.sessions@ == old(self).sessions@.update(i as int, self.sessions@[i as int]));
                    if r is Err {
                        assert(self.sessions@ =~= old(self).sessions@);
                    }
                }
                r
            },
        }
    }

    /// The browser of an active session, for reaching its pages.
    pub fn active_browser(&self, id: &str) -> (r: Result<&B, TivanaError>)
        requires
            self.wf(),
        ensures
            !self@.dom().contains(id@) ==> not_found_error(r, id@),
            self@.dom().contains(id@) && self@[id@].state != SessionState::Active ==> (r matches Err(
                TivanaError::Session(m),
            ) && m@ == "Session "@ + id@ + " is not active (state: "@ + state_name(
                self@[id@].state,
            ) + ")"@),
            self@.dom().contains(id@) && self@[id@].state == SessionState::Active
                && self@[id@].browser is None ==> (r matches Err(TivanaError::Session(m)) && m@
                == "Session has no browser"@),
            self@.dom().contains(id@) && self@[id@].state == SessionState::Active
                && self@[id@].browser is Some ==> r == Ok::<&B, TivanaError>(
                &self@[id@].browser.unwrap(),
            ),
    {
        match self.position(id) {
            None => {
                proof {
                    self.lemma_view_absent(id@);
                }
                Err(TivanaError::Session(String::from_str("Session not found: ").concat(id)))
            },
            Some(i) => {
                proof {
                    self.lemma_view_at(i as int);
                }
                let s = &self.sessions[i];
                if !s.is_active() {
                    return Err(
                        TivanaError::Session(
                            String::from_str("Session ").concat(id).concat(
                                " is not active (state: ",
                            ).concat(s.state.name().as_str()).concat(")"),
                        ),
                    );
                }
                match &s.browser {
                    Some(b) => Ok(b),
                    None => Err(TivanaError::Session(String::from_str("Session has no browser"))),
                }
            },
        }
    }

    /// Close and remove a session; returns its final info (state closed) and its
    /// mutation observer handle, if one was running, for the driver to stop.
    pub fn close(&mut self, id: &str, now_ms: u64) -> (r: Result<(SessionInfo, Option<H>), ProtocolError>)
        requires
            old(self).wf(),
        ensures
            final(self).wf(),
            final(self)@ == old(self)@.remove(id@),
            old(self)@.dom().contains(id@) ==> (r matches Ok((info, h)) && info.id@ == id@
                && info.state == SessionState::Closed && info.age_secs == age_secs(
                old(self)@[id@].created_at_ms,
                now_ms,
            ) && h == old(self)@[id@].mutation_observer_handle),
            !old(self)@.dom().contains(id@) ==> (r matches Err(e) && e.code
                == ErrorCode::SessionNotFound && e.message@ == "Session not found: "@ + id@
                && e.data is None),
    {
        match self.position(id) {
            None => {
                proof {
                    self.lemma_view_absent(id@);
                    assert(old(self)@.remove(id@) =~= old(self)@);
                }
                Err(ProtocolError::session_not_found(id))
            },
            Some(i) => {
                proof {
                    self.lemma_view_at(i as int);
                    lemma_map_remove(self.sessions@, i as int);
                }
                let mut session = self.sessions.remove(i);
                let h = session.close();
                Ok((session.info(now_ms), h))
            },
        }
    }

    /// The error of an unknown session id.
    fn not_found<T>(id: &str) -> (r: Result<T, TivanaError>)
        ensures
            not_found_error(r, id@),
    {
        Err(TivanaError::Session(String::from_str("Session not found: ").concat(id)))
    }

    /// Facts after the session at `i` was replaced in place.
    proof fn lemma_replaced(old_reg: Self, new_reg: Self, i: int)
        requires
            old_reg.wf(),
            0 <= i < old_reg.sessions().len(),
            new_reg.sessions() == old_reg.sessions().update(i, new_reg.sessions()[i]),
            new_reg.sessions()[i].id@ == old_reg.sessions()[i].id@,
        ensures
            new_reg.wf(),
            old_reg@.dom().contains(old_reg.sessions()[i].id@),
            old_reg@[old_reg.sessions()[i].id@] == old_reg.sessions()[i],
            new_reg@.dom().contains(old_reg.sessions()[i].id@),
            new_reg@[old_reg.sessions()[i].id@] == new_reg.sessions()[i],
            new_reg@ == old_reg@.insert(old_reg.sessions()[i].id@, new_reg.sessions()[i]),
    {
        old_reg.lemma_view_at(i);
        lemma_map_update(old_reg.sessions(), i, new_reg.sessions()[i]);
        new_reg.lemma_view_at(i);
    }

    /// Start mutation observation on a session.
    pub fn start_mutation_observer(&mut self, id: &str, rx: R, handle: H) -> (r: Result<(), TivanaError>)
        requires
            old(self).wf(),
        ensures
            final(self).wf(),
            session_step(
                old(self)@,
                final(self)@,
                id@,
                r,
                |o: Session<B, H, R>, n: Session<B, H, R>, r: Result<(), TivanaError>|
                    r is Ok && n == (Session {
                        mutation_rx: Some(rx),
                        mutation_observer_handle: Some(handle),
                        ..o
                    }),
            ),
    {
        match self.position(id) {
            None => {
                proof {
                    self.lemma_view_absent(id@);
                }
                Self::not_found(id)
            },
            Some(i) => {
                self.sessions[i].start_mutation_observer(rx, handle);
                proof {
                    Self::lemma_replaced(*old(self), *self, i as int);
                }
                Ok(())
            },
        }
    }

    /// Stop mutation observation on a session; returns the handle to stop, if any.
    pub fn stop_mutation_observer(&mut self, id: &str) -> (r: Result<Option<H>, TivanaError>)
        requires
            old(self).wf(),
        ensures
            final(self).wf(),
            session_step(
                old(self)@,
                final(self)@,
                id@,
                r,
                |o: Session<B, H, R>, n: Session<B, H, R>, r: Result<Option<H>, TivanaError>|
                    r == Ok::<Option<H>, TivanaError>(o.mutation_observer_handle) && n == (Session {
                        mutation_rx: None,
                        mutation_observer_handle: None,
                        ..o
                    }),
            ),
    {
        match self.position(id) {
            None => {
                proof {
                    self.lemma_view_absent(id@);
                }
                Self::not_found(id)
            },
            Some(i) => {
                let h = self.sessions[i].stop_mutation_observer();
                proof {
                    Self::lemma_replaced(*old(self), *self, i as int);
                }
                Ok(h)
            },
        }
    }

    /// Whether a session's mutation observer is running.
    pub fn is_mutation_observer_running(&self, id: &str) -> (r: Result<bool, TivanaError>)
        requires
            self.wf(),
        ensures
            session_step(
                self@,
                self@,
                id@,
                r,
                |o: Session<B, H, R>, n: Session<B, H, R>, r: Result<bool, TivanaError>|
                    r == Ok::<bool, TivanaError>(o.mutation_observer_handle is Some),
            ),
    {
        match self.position(id) {
            None => {
                proof {
                    self.lemma_view_absent(id@);
                }
                Self::not_found(id)
            },
            Some(i) => {
                proof {
                    self.lemma_view_at(i as int);
                    assert(self@ =~= self@.insert(id@, self@[id@]));
                }
                Ok(self.sessions[i].is_mutation_observer_running())
            },
        }
    }

    /// Take a session's mutation receiver, to drain it.
    pub fn take_mutation_rx(&mut self, id: &str) -> (r: Result<Option<R>, TivanaError>)
        requires
            old(self).wf(),
        ensures
            final(self).wf(),
            session_step(
                old(self)@,
                final(self)@,
                id@,
                r,
                |o: Session<B, H, R>, n: Session<B, H, R>, r: Result<Option<R>, TivanaError>|
                    r == Ok::<Option<R>, TivanaError>(o.mutation_rx) && n == (Session {
                        mutation_rx: None,
                        ..o
                    }),
            ),
    {
        match self.position(id) {
            None => {
                proof {
                    self.lemma_view_absent(id@);
                }
                Self::not_found(id)
            },
            Some(i) => {
                let rx = self.sessions[i].take_mutation_rx();
                proof {
                    Self::lemma_replaced(*old(self), *self, i as int);
                }
                Ok(rx)
            },
        }
    }

    /// Put a session's mutation receiver back after draining it.
    pub fn restore_mutation_rx(&mut self, id: &str, rx: R) -> (r: Result<(), TivanaError>)
        requires
            old(self).wf(),
        ensures
            final(self).wf(),
            session_step(
                old(self)@,
                final(self)@,
                id@,
                r,
                |o: Session<B, H, R>, n: Session<B, H, R>, r: Result<(), TivanaError>|
                    r is Ok && n == (Session { mutation_rx: Some(rx), ..o }),
            ),
    {
        match self.position(id) {
            None => {
                proof {
                    self.lemma_view_absent(id@);
                }
                Self::not_found(id)
            },
            Some(i) => {
                self.sessions[i].restore_mutation_rx(rx);
                proof {
                    Self::lemma_replaced(*old(self), *self, i as int);
                }
                Ok(())
            },
        }
    }

    /// Set a session's proxy.
    pub fn set_proxy(&mut self, id: &str, proxy: ProxyConfig) -> (r: Result<(), TivanaError>)
        requires
            old(self).wf(),
        ensures
            final(self).wf(),
            session_step(
                old(self)@,
                final(self)@,
                id@,
                r,
                |o: Session<B, H, R>, n: Session<B, H, R>, r: Result<(), TivanaError>|
                    r is Ok && n == (Session { proxy: Some(proxy), ..o }),
            ),
    {
        match self.position(id) {
            None => {
                proof {
                    self.lemma_view_absent(id@);
                }
                Self::not_found(id)
            },
            Some(i) => {
                self.sessions[i].set_proxy(proxy);
                proof {
                    Self::lemma_replaced(*old(self), *self, i as int);
                }
                Ok(())
            },
        }
    }

    /// Install a proxy pool on a session; returns the pool's current proxy, which the
    /// session now uses.
    pub fn install_proxy_pool(&mut self, id: &str, pool: ProxyPool) -> (r: Result<
        Option<ProxyConfig>,
        TivanaError,
    >)
        requires
            old(self).wf(),
        ensures
            final(self).wf(),
            session_step(
                old(self)@,
                final(self)@,
                id@,
                r,
                |o: Session<B, H, R>, n: Session<B, H, R>, r: Result<Option<ProxyConfig>, TivanaError>|
                    r == Ok::<Option<ProxyConfig>, TivanaError>(pool.selected()) && n == (Session {
                        proxy: if pool.selected() is Some {
                            pool.selected()
                        } else {
                            o.proxy
                        },
                        proxy_pool: Some(pool),
                        ..o
                    }),
            ),
    {
        match self.position(id) {
            None => {
                proof {
                    self.lemma_view_absent(id@);
                }
                Self::not_found(id)
            },
            Some(i) => {
                let c = self.sessions[i].install_proxy_pool(pool);
                proof {
                    Self::lemma_replaced(*old(self), *self, i as int);
                }
                Ok(c)
            },
        }
    }

    /// Rotate a session's proxy to its pool's next one.
    pub fn rotate_proxy(&mut self, id: &str) -> (r: Result<ProxyConfig, TivanaError>)
        requires
            old(self).wf(),
        ensures
            final(self).wf(),
            session_step(
                old(self)@,
                final(self)@,
                id@,
                r,
                |o: Session<B, H, R>, n: Session<B, H, R>, r: Result<ProxyConfig, TivanaError>|
                    rotation_ok(o, n, r),
            ),
    {
        match self.position(id) {
            None => {
                proof {
                    self.lemma_view_absent(id@);
                }
                Self::not_found(id)
            },
            Some(i) => {
                let r = self.sessions[i].rotate_proxy();
                proof {
                    Self::lemma_replaced(*old(self), *self, i as int);
                }
                r
            },
        }
    }

    /// A session's current proxy.
    pub fn current_proxy(&self, id: &str) -> (r: Result<Option<ProxyConfig>, TivanaError>)
        requires
            self.wf(),
        ensures
            session_step(
                self@,
                self@,
                id@,
                r,
                |o: Session<B, H, R>, n: Session<B, H, R>, r: Result<Option<ProxyConfig>, TivanaError>|
                    r == Ok::<Option<ProxyConfig>, TivanaError>(o.proxy),
            ),
    {
        match self.position(id) {
            None => {
                proof {
                    self.lemma_view_absent(id@);
                }
                Self::not_found(id)
            },
            Some(i) => {
                proof {
                    self.lemma_view_at(i as int);
                    assert(self@ =~= self@.insert(id@, self@[id@]));
                }
                match &self.sessions[i].proxy {
                    Some(p) => Ok(Some(p.duplicate())),
                    None => Ok(None),
                }
            },
        }
    }

    /// Get count of active sessions
    pub fn active_count(&self) -> (n: usize)
        ensures
            n == count_active(self.sessions()),
    {
        let mut n: usize = 0;
        let mut i: usize = 0;
        while i < self.sessions.len()
            invariant
                i <= self.sessions@.len(),
                n == count_active(self.sessions@.subrange(0, i as int)),
                n <= i,
            decreases self.sessions.len() - i,
        {
            assert(self.sessions@.subrange(0, i + 1).drop_last() =~= self.sessions@.subrange(
                0,
                i as int,
            ));
            if self.sessions[i].is_active() {
                n = n + 1;
            }
            i = i + 1;
        }
        assert(self.sessions@.subrange(0, self.sessions@.len() as int) =~= self.sessions@);
        n
    }

    /// Close all sessions and empty the registry; returns the mutation observer
    /// handles that were running, for the driver to stop.
    pub fn close_all(&mut self) -> (handles: Vec<H>)
        ensures
            final(self).wf(),
            final(self).sessions().len() == 0,
            final(self)@ == Map::<Seq<char>, Session<B, H, R>>::empty(),
    {
        let mut handles: Vec<H> = Vec::new();
        while self.sessions.len() > 0
            invariant_except_break
                true,
            ensures
                self.sessions@.len() == 0,
            decreases self.sessions.len(),
        {
            let mut session = self.sessions.pop().unwrap();
            match session.close() {
                Some(h) => handles.push(h),
                None => {},
            }
        }
        proof {
            assert(self.sessions@ =~= Seq::<Session<B, H, R>>::empty());
            assert(self@ =~= Map::<Seq<char>, Session<B, H, R>>::empty());
        }
        handles
    }
}

/// The lifecycle's steps: Created → Launching → Active, and any state → Closed.
pub open spec fn lifecycle_step(from: SessionState, to: SessionState) -> bool {
    ||| (from == SessionState::Created && to == SessionState::Launching)
    ||| (from == SessionState::Launching && to == SessionState::Active)
    ||| to == SessionState::Closed
}

/// An active session has a browser.
pub open spec fn active_has_browser<B, H, R>(s: Session<B, H, R>) -> bool {
    s.state == SessionState::Active ==> s.browser is Some
}

/// Every transition a session makes follows the lifecycle: it launches only when
/// created, becomes active only when launching, and closes from any state.
pub proof fn law_transitions_follow_lifecycle<B, H, R>(s: Session<B, H, R>, browser: B)
    ensures
        s.state == SessionState::Created ==> lifecycle_step(s.state, s.launched().state),
        s.state == SessionState::Launching ==> lifecycle_step(s.state, s.activated(browser).state),
        lifecycle_step(s.state, s.closed().state),
{
}

/// An active session always has a browser: a fresh session has none and is not active,
/// and launching, activating and closing keep it so.
pub proof fn law_active_sessions_have_browsers<B, H, R>(
    id: Seq<char>,
    config: SessionConfig,
    now_ms: u64,
    fresh: Session<B, H, R>,
    s: Session<B, H, R>,
    browser: B,
)
    requires
        Session::fresh(id, config, now_ms, fresh),
        active_has_browser(s),
    ensures
        active_has_browser(fresh),
        s.state == SessionState::Created ==> active_has_browser(s.launched()),
        s.state == SessionState::Launching ==> active_has_browser(s.activated(browser)),
        active_has_browser(s.closed()),
{
}

/// A session created under an id no session has is found under it, created; closing
/// it gives the registry back as it was.
pub proof fn law_create_then_close<B, H, R>(
    before: Map<Seq<char>, Session<B, H, R>>,
    id: Seq<char>,
    s: Session<B, H, R>,
)
    requires
        !before.dom().contains(id),
        s.state == SessionState::Created,
    ensures
        before.insert(id, s).dom().contains(id),
        before.insert(id, s)[id].state == SessionState::Created,
        before.insert(id, s).remove(id) == before,
        !before.insert(id, s).remove(id).dom().contains(id),
{
    assert(before.insert(id, s).remove(id) =~= before);
}

/// No more sessions are active than there are sessions.
pub proof fn law_active_count_bounded<B, H, R>(s: Seq<Session<B, H, R>>)
    ensures
        count_active(s) <= s.len(),
    decreases s.len(),
{
    if s.len() > 0 {
        law_active_count_bounded(s.drop_last());
    }
}

} // verus!
