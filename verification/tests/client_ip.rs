use oauth::middleware::client_ip::{forwarded_for, is_trusted_proxy, parse_entry, resolve, IpAddress};

// std's address parsers live in `std::net`, which these tests cannot use;
// the helpers below accept the same forms for the inputs used here.
fn parse_v4(s: &str) -> Option<[u8; 4]> {
    let parts: Vec<&str> = s.split('.').collect();
    if parts.len() != 4 {
        return None;
    }
    let mut out = [0u8; 4];
    for (i, p) in parts.iter().enumerate() {
        if p.is_empty() || p.len() > 3 || !p.chars().all(|c| c.is_ascii_digit()) {
            return None;
        }
        if p.len() > 1 && p.starts_with('0') {
            return None;
        }
        out[i] = p.parse::<u8>().ok()?;
    }
    Some(out)
}

fn parse_groups(s: &str) -> Option<Vec<u16>> {
    if s.is_empty() {
        return Some(vec![]);
    }
    let mut out = Vec::new();
    for g in s.split(':') {
        if g.is_empty() || g.len() > 4 {
            return None;
        }
        out.push(u16::from_str_radix(g, 16).ok()?);
    }
    Some(out)
}

fn parse_v6(s: &str) -> Option<[u16; 8]> {
    let mut out = [0u16; 8];
    match s.find("::") {
        Some(at) => {
            let head = parse_groups(&s[..at])?;
            let tail = parse_groups(&s[at + 2..])?;
            if head.len() + tail.len() > 7 {
                return None;
            }
            out[..head.len()].copy_from_slice(&head);
            out[8 - tail.len()..].copy_from_slice(&tail);
        }
        None => {
            let all = parse_groups(s)?;
            if all.len() != 8 {
                return None;
            }
            out.copy_from_slice(&all);
        }
    }
    Some(out)
}

fn parse_ip(s: &str) -> Option<IpAddress> {
    match parse_v4(s) {
        Some(o) => Some(IpAddress::V4(o)),
        None => parse_v6(s).map(IpAddress::V6),
    }
}

fn parse_socket_ip(s: &str) -> Option<IpAddress> {
    let (host, port) = s.rsplit_once(':')?;
    port.parse::<u16>().ok()?;
    if let Some(inner) = host.strip_prefix('[').and_then(|h| h.strip_suffix(']')) {
        return parse_v6(inner).map(IpAddress::V6);
    }
    parse_v4(host).map(IpAddress::V4)
}

fn header(value: &str) -> Option<IpAddress> {
    forwarded_for(Some(value), &parse_ip, &parse_socket_ip)
}

fn ip(s: &str) -> IpAddress {
    parse_ip(s).unwrap()
}

#[test]
fn oxirgi_qiymat_olinadi() {
    assert_eq!(header("1.1.1.1, 2.2.2.2, 93.184.216.34"), Some(ip("93.184.216.34")));
}

#[test]
fn bitta_qiymat() {
    assert_eq!(header("93.184.216.34"), Some(ip("93.184.216.34")));
}

#[test]
fn buzuq_qiymatlar_tashlab_ketiladi() {
    assert_eq!(header("1.1.1.1, salom"), Some(ip("1.1.1.1")));
    assert_eq!(header("salom, dunyo"), None);
}

#[test]
fn portli_va_ipv6_yozuvlar() {
    assert_eq!(header("93.184.216.34:443"), Some(ip("93.184.216.34")));
    assert_eq!(header("[2001:db8::1]:443"), Some(ip("2001:db8::1")));
    assert_eq!(header("2001:db8::1"), Some(ip("2001:db8::1")));
}

#[test]
fn ichki_manzillar_ishonchli() {
    for s in ["127.0.0.1", "10.0.0.5", "172.19.0.2", "192.168.1.1", "::1", "fd00::1"] {
        assert!(is_trusted_proxy(ip(s)), "{s} ishonchli bo'lishi kerak");
    }
}

#[test]
fn ommaviy_manzillar_ishonchsiz() {
    for s in ["93.184.216.34", "45.134.39.224", "2001:db8::1"] {
        assert!(!is_trusted_proxy(ip(s)), "{s} ishonchsiz bo'lishi kerak");
    }
}

#[test]
fn bracketed_address_without_port() {
    assert_eq!(parse_entry("[::1]", &parse_ip, &parse_socket_ip), Some(ip("::1")));
    assert_eq!(parse_entry("[", &parse_ip, &parse_socket_ip), None);
    assert_eq!(parse_entry("[]", &parse_ip, &parse_socket_ip), None);
}

#[test]
fn whitespace_around_entries_is_ignored() {
    assert_eq!(header("  10.0.0.1  ,\t 8.8.8.8 \t"), Some(ip("8.8.8.8")));
    assert_eq!(header(""), None);
    assert_eq!(header(",,"), None);
    assert_eq!(header("8.8.8.8,"), Some(ip("8.8.8.8")));
}

#[test]
fn forwarded_absent_header() {
    assert_eq!(forwarded_for(None, &parse_ip, &parse_socket_ip), None);
}

#[test]
fn forged_entries_left_of_the_proxy_entry_are_ignored() {
    assert_eq!(header("6.6.6.6, 93.184.216.34"), Some(ip("93.184.216.34")));
}

#[test]
fn resolve_believes_only_trusted_proxies() {
    let proxy = ip("172.19.0.2");
    let public = ip("45.134.39.224");
    assert_eq!(resolve(Some(proxy), Some("1.1.1.1, 93.184.216.34"), &parse_ip, &parse_socket_ip), ip("93.184.216.34"));
    assert_eq!(resolve(Some(public), Some("93.184.216.34"), &parse_ip, &parse_socket_ip), public);
    assert_eq!(resolve(Some(proxy), Some("salom"), &parse_ip, &parse_socket_ip), proxy);
    assert_eq!(resolve(Some(proxy), None, &parse_ip, &parse_socket_ip), proxy);
    assert_eq!(resolve(None, Some("93.184.216.34"), &parse_ip, &parse_socket_ip), ip("0.0.0.0"));
}

#[test]
fn link_local_addresses_are_trusted() {
    assert!(is_trusted_proxy(ip("169.254.1.1")));
    assert!(is_trusted_proxy(ip("fe80::1")));
    assert!(!is_trusted_proxy(ip("172.32.0.1")));
    assert!(!is_trusted_proxy(ip("::2")));
}
