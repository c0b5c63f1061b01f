use tivana::proxy::{ProxyConfig, ProxyPool, ProxyProtocol};

fn http(server: &str) -> ProxyConfig {
    ProxyConfig {
        server: server.to_string(),
        protocol: ProxyProtocol::Http,
        username: None,
        password: None,
    }
}

#[test]
fn test_proxy_config_chrome_arg() {
    let config = ProxyConfig {
        server: "proxy.example.com:8080".to_string(),
        protocol: ProxyProtocol::Http,
        username: None,
        password: None,
    };
    assert_eq!(config.to_chrome_arg(), "--proxy-server=http://proxy.example.com:8080");
}

#[test]
fn test_proxy_config_socks5() {
    let config = ProxyConfig {
        server: "socks.example.com:1080".to_string(),
        protocol: ProxyProtocol::Socks5,
        username: Some("user".to_string()),
        password: Some("pass".to_string()),
    };
    assert_eq!(config.to_chrome_arg(), "--proxy-server=socks5://socks.example.com:1080");
    assert!(config.requires_auth());
}

#[test]
fn test_proxy_config_no_auth() {
    let config = ProxyConfig {
        server: "proxy.example.com:8080".to_string(),
        protocol: ProxyProtocol::Http,
        username: None,
        password: None,
    };
    assert!(!config.requires_auth());
}

#[test]
fn test_proxy_pool_rotation() {
    let mut pool = ProxyPool::from_list(vec![http("proxy1:8080"), http("proxy2:8080"), http("proxy3:8080")]);

    assert_eq!(pool.len(), 3);
    assert!(!pool.is_empty());

    // Current should be proxy1 (index 0)
    assert_eq!(pool.current().unwrap().server, "proxy1:8080");

    // Next rotates to proxy2
    assert_eq!(pool.next().unwrap().server, "proxy2:8080");

    // Next rotates to proxy3
    assert_eq!(pool.next().unwrap().server, "proxy3:8080");

    // Next wraps around to proxy1
    assert_eq!(pool.next().unwrap().server, "proxy1:8080");
}

#[test]
fn test_proxy_pool_empty() {
    let mut pool = ProxyPool::from_list(vec![]);
    assert!(pool.is_empty());
    assert!(pool.current().is_none());
    assert!(pool.next().is_none());
}

#[test]
fn test_proxy_protocol_default() {
    assert_eq!(ProxyProtocol::default(), ProxyProtocol::Http);
}

#[test]
fn test_proxy_protocol_display() {
    assert_eq!(ProxyProtocol::Http.to_string(), "http");
    assert_eq!(ProxyProtocol::Https.to_string(), "https");
    assert_eq!(ProxyProtocol::Socks5.to_string(), "socks5");
}

#[test]
fn rotation_cycles_back_after_pool_size_steps() {
    let mut pool = ProxyPool::from_list(vec![http("a:1"), http("b:2")]);
    let start = pool.current().unwrap().server.clone();
    pool.next();
    let back = pool.next().unwrap().server.clone();
    assert_eq!(start, back);
    assert_eq!(pool.current().unwrap().server, "a:1");
}

#[test]
fn single_proxy_pool_always_selects_it() {
    let mut pool = ProxyPool::from_list(vec![http("only:1")]);
    assert_eq!(pool.next().unwrap().server, "only:1");
    assert_eq!(pool.next().unwrap().server, "only:1");
}

#[test]
fn https_proxy_argument_and_partial_credentials() {
    let config = ProxyConfig {
        server: "secure:443".to_string(),
        protocol: ProxyProtocol::Https,
        username: Some("u".to_string()),
        password: None,
    };
    assert_eq!(config.to_chrome_arg(), "--proxy-server=https://secure:443");
    assert!(!config.requires_auth());
    let copy = config.duplicate();
    assert_eq!(copy.server, "secure:443");
    assert_eq!(copy.username, Some("u".to_string()));
}

#[test]
fn the_kth_rotation_selects_k_modulo_the_pool_size() {
    let mut pool = ProxyPool::from_list(vec![http("a:1"), http("b:2"), http("c:3")]);
    let names = ["a:1", "b:2", "c:3"];
    for k in 1..=7usize {
        let got = pool.next().unwrap().server.clone();
        assert_eq!(got, names[k % 3]);
        assert_eq!(pool.current().unwrap().server, names[k % 3]);
        assert_eq!(pool.current().unwrap().server, names[k % 3]);
    }
}
