//! Proxy configuration and IP rotation for browser sessions.
//!
//! Supports HTTP, HTTPS and SOCKS5 proxies with optional authentication.
//! A `ProxyPool` rotates through a fixed list of proxies.

use vstd::prelude::*;

verus! {

/// Proxy protocol type.
#[derive(Debug, Clone, Copy, PartialEq, Eq, Structural)]
pub enum ProxyProtocol {
    Http,
    Https,
    Socks5,
}

/// The scheme name of a protocol, as it appears in a proxy URL.
pub open spec fn protocol_name(p: ProxyProtocol) -> Seq<char> {
    match p {
        ProxyProtocol::Http => "http"@,
        ProxyProtocol::Https => "https"@,
        ProxyProtocol::Socks5 => "socks5"@,
    }
}

impl Default for ProxyProtocol {
    fn default() -> (r: Self)
        ensures
            r == ProxyProtocol::Http,
    {
        ProxyProtocol::Http
    }
}

impl ProxyProtocol {
    /// The scheme name ("http", "https" or "socks5").
    pub fn to_string(&self) -> (s: String)
        ensures
            s@ == protocol_name(*self),
    {
        match self {
            ProxyProtocol::Http => String::from_str("http"),
            ProxyProtocol::Https => String::from_str("https"),
            ProxyProtocol::Socks5 => String::from_str("socks5"),
        }
    }
}

/// Proxy configuration for a browser session.
#[derive(Debug, Clone)]
pub struct ProxyConfig {
    /// Proxy server address (host:port)
    pub server: String,
    /// Proxy protocol
    pub protocol: ProxyProtocol,
    /// Username for authenticated proxies
    pub username: Option<String>,
    /// Password for authenticated proxies
    pub password: Option<String>,
}

/// The Chrome `--proxy-server` flag for a protocol and a server address.
pub open spec fn chrome_proxy_arg(protocol: ProxyProtocol, server: Seq<char>) -> Seq<char> {
    "--proxy-server="@ + protocol_name(protocol) + "://"@ + server
}

impl ProxyConfig {
    /// Build the Chrome --proxy-server flag value.
    pub fn to_chrome_arg(&self) -> (s: String)
        ensures
            s@ == chrome_proxy_arg(self.protocol, self.server@),
    {
        let proto = self.protocol.to_string();
        let s = String::from_str("--proxy-server=");
        let s = s.concat(proto.as_str());
        let s = s.concat("://");
        s.concat(self.server.as_str())
    }

    /// A copy of this configuration.
    pub fn duplicate(&self) -> (c: Self)
        ensures
            c == *self,
    {
        ProxyConfig {
            server: self.server.clone(),
            protocol: self.protocol,
            username: match &self.username {
                Some(u) => Some(u.clone()),
                None => None,
            },
            password: match &self.password {
                Some(p) => Some(p.clone()),
                None => None,
            },
        }
    }

    /// Whether this proxy requires authentication: both a username and a password are set.
    pub fn requires_auth(&self) -> (b: bool)
        ensures
            b == (self.username is Some && self.password is Some),
    {
        self.username.is_some() && self.password.is_some()
    }
}

/// The rotation counter after one step; it wraps around at the top of `usize`.
pub open spec fn next_counter(c: usize) -> usize {
    if c == usize::MAX {
        0
    } else {
        (c + 1) as usize
    }
}

/// One rotation of a non-empty pool: the proxies stay, the counter steps once.
pub open spec fn rotation_step(a: ProxyPool, b: ProxyPool) -> bool {
    &&& a.proxies().len() > 0
    &&& b.proxies() == a.proxies()
    &&& b.counter() == next_counter(a.counter())
}

/// A pool of proxies for rotation.
pub struct ProxyPool {
    proxies: Vec<ProxyConfig>,
    current: usize,
}

impl ProxyPool {
    /// The proxies of the pool, in rotation order.
    pub closed spec fn proxies(&self) -> Seq<ProxyConfig> {
        self.proxies@
    }

    /// The rotation counter.
    pub closed spec fn counter(&self) -> usize {
        self.current
    }

    /// The proxy that the counter selects, if the pool is not empty.
    pub open spec fn selected(&self) -> Option<ProxyConfig> {
        if self.proxies().len() == 0 {
            None
        } else {
            Some(self.proxies()[(self.counter() as nat % self.proxies().len()) as int])
        }
    }

    /// Create a new proxy pool from a list of proxy configs.
    pub fn from_list(proxies: Vec<ProxyConfig>) -> (pool: Self)
        ensures
            pool.proxies() == proxies@,
            pool.counter() == 0,
    {
        ProxyPool { proxies, current: 0 }
    }

    /// Get the current proxy without rotating.
    pub fn current(&self) -> (r: Option<&ProxyConfig>)
        ensures
            r matches Some(p) ==> self.selected() == Some(*p),
            r is None <==> self.selected() is None,
    {
        if self.proxies.len() == 0 {
            return None;
        }
        let idx = self.current % self.proxies.len();
        Some(&self.proxies[idx])
    }

    /// Rotate to the next proxy and return it. An empty pool does not rotate.
    pub fn next(&mut self) -> (r: Option<&ProxyConfig>)
        ensures
            final(self).proxies() == old(self).proxies(),
            old(self).proxies().len() == 0 ==> final(self).counter() == old(self).counter(),
            old(self).proxies().len() > 0 ==> final(self).counter() == next_counter(
                old(self).counter(),
            ),
            r matches Some(p) ==> final(self).selected() == Some(*p),
            r is None <==> old(self).proxies().len() == 0,
            old(self).proxies().len() > 0 ==> rotation_step(*old(self), *final(self)),
    {
        if self.proxies.len() == 0 {
            return None;
        }
        self.current = if self.current == usize::MAX {
            0
        } else {
            self.current + 1
        };
        let idx = self.current % self.proxies.len();
        Some(&self.proxies[idx])
    }

    /// Number of proxies in the pool.
    pub fn len(&self) -> (n: usize)
        ensures
            n == self.proxies().len(),
    {
        self.proxies.len()
    }

    /// Whether the pool is empty.
    pub fn is_empty(&self) -> (b: bool)
        ensures
            b == (self.proxies().len() == 0),
    {
        self.proxies.len() == 0
    }
}

/// The proxy that a rotation counter selects from a non-empty list.
pub open spec fn select_at(proxies: Seq<ProxyConfig>, c: usize) -> ProxyConfig {
    proxies[(c as nat % proxies.len()) as int]
}

/// The rotation counter after `k` rotations.
pub open spec fn rotated(c: usize, k: nat) -> usize
    decreases k,
{
    if k == 0 {
        c
    } else {
        next_counter(rotated(c, (k - 1) as nat))
    }
}

proof fn lemma_rotated_adds(c: usize, k: nat)
    requires
        c + k <= usize::MAX,
    ensures
        rotated(c, k) == c + k,
    decreases k,
{
    if k > 0 {
        lemma_rotated_adds(c, (k - 1) as nat);
    }
}

proof fn lemma_rotation_counts(pools: Seq<ProxyPool>)
    requires
        pools.len() > 0,
        pools[0].counter() == 0,
        pools.len() <= usize::MAX + 1,
        forall|i: int| 0 <= i < pools.len() - 1 ==> #[trigger] rotation_step(pools[i], pools[i + 1]),
    ensures
        forall|k: int|
            #![trigger pools[k]]
            0 <= k < pools.len() ==> pools[k].counter() == k && pools[k].proxies() == pools[0].proxies(),
    decreases pools.len(),
{
    if pools.len() > 1 {
        let t = pools.drop_last();
        assert forall|i: int| 0 <= i < t.len() - 1 implies #[trigger] rotation_step(t[i], t[i + 1]) by {
            assert(rotation_step(pools[i], pools[i + 1]));
        }
        lemma_rotation_counts(t);
        let k = pools.len() - 2;
        assert(rotation_step(pools[k], pools[k + 1]));
        assert(t[k] == pools[k]);
        assert forall|j: int| #![trigger pools[j]] 0 <= j < pools.len() implies pools[j].counter() == j
            && pools[j].proxies() == pools[0].proxies() by {
            if j < t.len() {
                assert(t[j] == pools[j]);
            } else {
                assert(t[k] == pools[k]);
                assert(t[0] == pools[0]);
            }
        }
    }
}

/// The k-th rotation of a pool made from a list selects the list's proxy at `k` modulo
/// its length, and the pool keeps selecting it until the next rotation (`current`
/// never rotates): counting from a fresh pool, before the counter reaches the top of
/// `usize`.
pub proof fn law_kth_rotation_selects(pools: Seq<ProxyPool>)
    requires
        pools.len() > 0,
        pools[0].counter() == 0,
        pools.len() <= usize::MAX + 1,
        forall|i: int| 0 <= i < pools.len() - 1 ==> #[trigger] rotation_step(pools[i], pools[i + 1]),
    ensures
        forall|k: int|
            0 <= k < pools.len() && pools[0].proxies().len() > 0 ==> #[trigger] pools[k].selected()
                == Some(pools[0].proxies()[k % pools[0].proxies().len() as int]),
{
    lemma_rotation_counts(pools);
    assert forall|k: int|
        0 <= k < pools.len() && pools[0].proxies().len() > 0 implies #[trigger] pools[k].selected()
            == Some(pools[0].proxies()[k % pools[0].proxies().len() as int]) by {
        assert(pools[k].counter() == k && pools[k].proxies() == pools[0].proxies());
        assert(pools[k].counter() as nat % pools[k].proxies().len() == k % pools[0].proxies().len() as int);
    }
}

/// Rotation walks the pool in order: one step from any counter selects the proxy that
/// follows the current one, wrapping from the last to the first (while the counter has
/// not reached the top of `usize`).
pub proof fn law_rotation_selects_next(proxies: Seq<ProxyConfig>, c: usize)
    requires
        proxies.len() > 0,
        c < usize::MAX,
    ensures
        select_at(proxies, next_counter(c)) == proxies[((c as nat % proxies.len() + 1) % proxies.len()) as int],
{
    let n = proxies.len() as int;
    assert((c as int + 1) % n == ((c as int % n) + 1) % n) by {
        vstd::arithmetic::div_mod::lemma_add_mod_noop_right(1, c as int, n);
    }
}

/// Rotating a pool as many times as it holds proxies comes back to the same proxy
/// (while the counter does not wrap at the top of `usize`).
pub proof fn law_rotation_cycles(proxies: Seq<ProxyConfig>, c: usize)
    requires
        proxies.len() > 0,
        c + proxies.len() <= usize::MAX,
    ensures
        select_at(proxies, rotated(c, proxies.len())) == select_at(proxies, c),
{
    let n = proxies.len();
    lemma_rotated_adds(c, n);
    assert((n as int + c as int) % (n as int) == (c as int) % (n as int)) by {
        vstd::arithmetic::div_mod::lemma_mod_add_multiples_vanish(c as int, n as int);
    }
}

} // verus!
