//! The machine's LAN addresses for the operator console: interfaces are
//! classed by name and address, loopback and virtual ones dropped, Wi-Fi
//! preferred.
use crate::text::{chars_of, contains, contains_chars};
use vstd::prelude::*;
use vstd::string::*;

verus! {

/// An IPv4 address.
#[derive(Clone, Copy, Debug, PartialEq, Eq, Structural)]
pub struct Ipv4 {
    pub a: u8,
    pub b: u8,
    pub c: u8,
    pub d: u8,
}

#[derive(Clone, Copy, Debug, PartialEq, Eq, Structural)]
pub enum InterfaceType {
    WiFi,
    Ethernet,
    Virtual,
    Loopback,
    Other,
}

/// An interface that the console lists.
#[derive(Clone, Debug)]
pub struct NetworkInterface {
    pub name: String,
    /// `address` in dotted decimal.
    pub ip: String,
    pub address: Ipv4,
    pub interface_type: InterfaceType,
}

/// An address that the operating system reports for an interface; `None`
/// for an address that is not IPv4.
pub struct InterfaceAddress {
    pub name: String,
    pub address: Option<Ipv4>,
}

/// What `str::to_lowercase` returns on `s`.
pub uninterp spec fn lower_of(s: Seq<char>) -> Seq<char>;

/// Relies on `str::to_lowercase`: its result depends on the characters alone.
#[verifier::external_body]
fn lowercase(s: &str) -> (r: String)
    ensures
        r@ == lower_of(s@),
{
    s.to_lowercase()
}

pub open spec fn contains_any(s: Seq<char>, words: Seq<Seq<char>>) -> bool {
    exists|i: int| 0 <= i < words.len() && contains(s, #[trigger] words[i])
}

pub open spec fn wifi_words() -> Seq<Seq<char>> {
    seq!["wlan"@, "wlp"@, "wifi"@, "wi-fi"@, "wl"@, "ath"@, "wireless"@, "radio"@]
}

pub open spec fn virtual_words() -> Seq<Seq<char>> {
    seq![
        "docker"@,
        "vmware"@,
        "virtual"@,
        "vbox"@,
        "tun"@,
        "tap"@,
        "br-"@,
        "veth"@,
        "virbr"@,
        "dummy"@,
        "ifb"@,
        "gre"@,
        "sit"@,
    ]
}

pub open spec fn ethernet_words() -> Seq<Seq<char>> {
    seq!["eth"@, "enp"@, "eno"@, "ens"@, "ethernet"@]
}

/// Default address ranges of container and VM host networks.
pub open spec fn is_virtual_range(ip: Ipv4) -> bool {
    (ip.a == 172 && (ip.b == 17 || ip.b == 18)) || (ip.a == 192 && ip.b == 168 && ip.c == 56)
}

/// The class of an interface from its lower-cased name and its address,
/// the first rule that applies winning: loopback, Wi-Fi, virtual by name,
/// virtual by address, Ethernet, other.
pub open spec fn interface_class(lower: Seq<char>, ip: Ipv4) -> InterfaceType {
    if ip.a == 127 || contains(lower, "lo"@) {
        InterfaceType::Loopback
    } else if contains_any(lower, wifi_words()) {
        InterfaceType::WiFi
    } else if contains_any(lower, virtual_words()) || is_virtual_range(ip) {
        InterfaceType::Virtual
    } else if contains_any(lower, ethernet_words()) {
        InterfaceType::Ethernet
    } else {
        InterfaceType::Other
    }
}

fn contains_word_list(s: &Vec<char>, words: &Vec<&str>) -> (r: bool)
    ensures
        r == exists|i: int| 0 <= i < words@.len() && contains(s@, #[trigger] words@[i]@),
{
    let mut i: usize = 0;
    while i < words.len()
        invariant
            i <= words@.len(),
            forall|k: int| 0 <= k < i ==> !contains(s@, #[trigger] words@[k]@),
        decreases words@.len() - i,
    {
        if contains_chars(s, &chars_of(words[i])) {
            return true;
        }
        i = i + 1;
    }
    false
}

/// Whether `s` holds one of `words`, given as a list of literals.
fn contains_one_of(s: &Vec<char>, words: Vec<&str>, spec_words: Ghost<Seq<Seq<char>>>) -> (r: bool)
    requires
        words@.len() == spec_words@.len(),
        forall|i: int| 0 <= i < words@.len() ==> #[trigger] words@[i]@ == spec_words@[i],
    ensures
        r == contains_any(s@, spec_words@),
{
    let r = contains_word_list(s, &words);
    proof {
        if r {
            let i = choose|i: int| 0 <= i < words@.len() && contains(s@, #[trigger] words@[i]@);
            assert(contains(s@, spec_words@[i]));
        }
        if contains_any(s@, spec_words@) {
            let i = choose|i: int| 0 <= i < spec_words@.len() && contains(s@, #[trigger] spec_words@[i]);
            assert(contains(s@, words@[i]@));
        }
    }
    r
}

/// The class of an interface whose lower-cased name is `lower`.
pub fn classify_lowered(lower: &str, ip: &Ipv4) -> (r: InterfaceType)
    ensures
        r == interface_class(lower@, *ip),
{
    let s = chars_of(lower);
    if ip.a == 127 || contains_chars(&s, &chars_of("lo")) {
        return InterfaceType::Loopback;
    }
    if contains_one_of(
        &s,
        vec!["wlan", "wlp", "wifi", "wi-fi", "wl", "ath", "wireless", "radio"],
        Ghost(wifi_words()),
    ) {
        return InterfaceType::WiFi;
    }
    if contains_one_of(
        &s,
        vec![
            "docker",
            "vmware",
            "virtual",
            "vbox",
            "tun",
            "tap",
            "br-",
            "veth",
            "virbr",
            "dummy",
            "ifb",
            "gre",
            "sit",
        ],
        Ghost(virtual_words()),
    ) {
        return InterfaceType::Virtual;
    }
    if (ip.a == 172 && (ip.b == 17 || ip.b == 18)) || (ip.a == 192 && ip.b == 168 && ip.c == 56) {
        return InterfaceType::Virtual;
    }
    if contains_one_of(&s, vec!["eth", "enp", "eno", "ens", "ethernet"], Ghost(ethernet_words())) {
        return InterfaceType::Ethernet;
    }
    InterfaceType::Other
}

/// The class of the interface `name` with address `ip`; the name is
/// compared lower-cased.
pub fn classify_interface(name: &str, ip: &Ipv4) -> (r: InterfaceType)
    ensures
        r == interface_class(lower_of(name@), *ip),
{
    let lower = lowercase(name);
    classify_lowered(lower.as_str(), ip)
}

pub open spec fn digit_char(d: int) -> char {
    if d == 0 {
        '0'
    } else if d == 1 {
        '1'
    } else if d == 2 {
        '2'
    } else if d == 3 {
        '3'
    } else if d == 4 {
        '4'
    } else if d == 5 {
        '5'
    } else if d == 6 {
        '6'
    } else if d == 7 {
        '7'
    } else if d == 8 {
        '8'
    } else {
        '9'
    }
}

/// `n` in decimal, without leading zeros.
pub open spec fn decimal(n: nat) -> Seq<char>
    decreases n,
{
    if n < 10 {
        seq![digit_char(n as int)]
    } else {
        decimal(n / 10).push(digit_char((n % 10) as int))
    }
}

/// `ip` in dotted decimal (`192.168.1.20`).
pub open spec fn ipv4_text(ip: Ipv4) -> Seq<char> {
    decimal(ip.a as nat) + "."@ + decimal(ip.b as nat) + "."@ + decimal(ip.c as nat) + "."@
        + decimal(ip.d as nat)
}

fn digit_text(d: u8) -> (r: &'static str)
    requires
        d < 10,
    ensures
        r@ == seq![digit_char(d as int)],
{
    let r = if d == 0 {
        proof {
            reveal_strlit("0");
        }
        "0"
    } else if d == 1 {
        proof {
            reveal_strlit("1");
        }
        "1"
    } else if d == 2 {
        proof {
            reveal_strlit("2");
        }
        "2"
    } else if d == 3 {
        proof {
            reveal_strlit("3");
        }
        "3"
    } else if d == 4 {
        proof {
            reveal_strlit("4");
        }
        "4"
    } else if d == 5 {
        proof {
            reveal_strlit("5");
        }
        "5"
    } else if d == 6 {
        proof {
            reveal_strlit("6");
        }
        "6"
    } else if d == 7 {
        proof {
            reveal_strlit("7");
        }
        "7"
    } else if d == 8 {
        proof {
            reveal_strlit("8");
        }
        "8"
    } else {
        proof {
            reveal_strlit("9");
        }
        "9"
    };
    assert(r@ =~= seq![digit_char(d as int)]);
    r
}

fn push_decimal(s: &mut String, n: u8)
    ensures
        final(s)@ == old(s)@ + decimal(n as nat),
{
    proof {
        reveal_with_fuel(decimal, 3);
    }
    if n >= 100 {
        s.append(digit_text(n / 100));
    }
    if n >= 10 {
        s.append(digit_text((n / 10) % 10));
    }
    s.append(digit_text(n % 10));
    proof {
        let n0 = n as nat;
        if n >= 100 {
            assert(n0 / 10 >= 10);
            assert((n0 / 10) / 10 == n0 / 100);
            assert(decimal(n0 / 10) =~= seq![digit_char((n0 / 100) as int), digit_char(((n0 / 10) % 10) as int)]);
        }
    }
    assert(s@ =~= old(s)@ + decimal(n as nat));
}

impl Ipv4 {
    /// The address in dotted decimal.
    pub fn to_text(&self) -> (r: String)
        ensures
            r@ == ipv4_text(*self),
    {
        proof {
            reveal_strlit(".");
        }
        let mut s = String::new();
        push_decimal(&mut s, self.a);
        s.append(".");
        push_decimal(&mut s, self.b);
        s.append(".");
        push_decimal(&mut s, self.c);
        s.append(".");
        push_decimal(&mut s, self.d);
        assert(s@ =~= ipv4_text(*self));
        s
    }
}

/// An interface as the console sees it: name, address, class.
pub type InterfaceEntry = (Seq<char>, Ipv4, InterfaceType);

pub open spec fn entry_of(n: NetworkInterface) -> InterfaceEntry {
    (n.name@, n.address, n.interface_type)
}

pub open spec fn entries(s: Seq<NetworkInterface>) -> Seq<InterfaceEntry> {
    s.map_values(|n: NetworkInterface| entry_of(n))
}

/// Every listed interface's `ip` is its address in dotted decimal.
pub open spec fn texts_match(s: Seq<NetworkInterface>) -> bool {
    forall|i: int| 0 <= i < s.len() ==> (#[trigger] s[i]).ip@ == ipv4_text(s[i].address)
}

/// An address that the console lists: IPv4, on neither a loopback nor a
/// virtual interface.
pub open spec fn listed(a: InterfaceAddress) -> bool {
    match a.address {
        Some(ip) => {
            let t = interface_class(lower_of(a.name@), ip);
            t != InterfaceType::Loopback && t != InterfaceType::Virtual
        },
        None => false,
    }
}

/// The listed addresses, in the order reported.
pub open spec fn eligible(s: Seq<InterfaceAddress>) -> Seq<InterfaceEntry>
    decreases s.len(),
{
    if s.len() == 0 {
        Seq::empty()
    } else {
        let r = eligible(s.drop_last());
        let a = s.last();
        if listed(a) {
            r.push((a.name@, a.address->Some_0, interface_class(lower_of(a.name@), a.address->Some_0)))
        } else {
            r
        }
    }
}

/// Rank of a class in the listing: Wi-Fi, then Ethernet, then other.
pub open spec fn priority(t: InterfaceType) -> int {
    match t {
        InterfaceType::WiFi => 0,
        InterfaceType::Ethernet => 1,
        InterfaceType::Other => 2,
        _ => 3,
    }
}

/// The entries of `s` of rank `p`, in their order.
pub open spec fn of_priority(s: Seq<InterfaceEntry>, p: int) -> Seq<InterfaceEntry>
    decreases s.len(),
{
    if s.len() == 0 {
        Seq::empty()
    } else if priority(s.last().2) == p {
        of_priority(s.drop_last(), p).push(s.last())
    } else {
        of_priority(s.drop_last(), p)
    }
}

/// `s` ordered by rank, entries of equal rank keeping their order.
pub open spec fn by_priority(s: Seq<InterfaceEntry>) -> Seq<InterfaceEntry> {
    of_priority(s, 0) + of_priority(s, 1) + of_priority(s, 2) + of_priority(s, 3)
}

/// Some entry of `s` before `k` has the address of entry `k`.
pub open spec fn seen_before(s: Seq<InterfaceEntry>, k: int) -> bool {
    exists|j: int| 0 <= j < k && #[trigger] s[j].1 == s[k].1
}

/// `s` keeping only the first entry of each address.
pub open spec fn first_per_address(s: Seq<InterfaceEntry>) -> Seq<InterfaceEntry>
    decreases s.len(),
{
    if s.len() == 0 {
        Seq::empty()
    } else if seen_before(s, s.len() - 1) {
        first_per_address(s.drop_last())
    } else {
        first_per_address(s.drop_last()).push(s.last())
    }
}

/// The interfaces that the console lists for the reported addresses `s`.
pub open spec fn network_interfaces(s: Seq<InterfaceAddress>) -> Seq<InterfaceEntry> {
    first_per_address(by_priority(eligible(s)))
}

fn copy_interface(n: &NetworkInterface) -> (r: NetworkInterface)
    ensures
        entry_of(r) == entry_of(*n),
        r.ip@ == n.ip@,
{
    NetworkInterface {
        name: n.name.clone(),
        ip: n.ip.clone(),
        address: n.address,
        interface_type: n.interface_type,
    }
}

fn priority_of(t: InterfaceType) -> (r: u8)
    ensures
        r == priority(t),
{
    match t {
        InterfaceType::WiFi => 0,
        InterfaceType::Ethernet => 1,
        InterfaceType::Other => 2,
        _ => 3,
    }
}

fn eligible_interfaces(addrs: &Vec<InterfaceAddress>) -> (r: Vec<NetworkInterface>)
    ensures
        entries(r@) == eligible(addrs@),
        texts_match(r@),
{
    let mut out: Vec<NetworkInterface> = Vec::new();
    let mut i: usize = 0;
    while i < addrs.len()
        invariant
            i <= addrs@.len(),
            entries(out@) == eligible(addrs@.take(i as int)),
            texts_match(out@),
        decreases addrs@.len() - i,
    {
        let a = &addrs[i];
        proof {
            assert(addrs@.take(i + 1).drop_last() =~= addrs@.take(i as int));
        }
        if let Some(ip) = a.address {
            let t = classify_interface(a.name.as_str(), &ip);
            if t != InterfaceType::Loopback && t != InterfaceType::Virtual {
                let n = NetworkInterface {
                    name: a.name.clone(),
                    ip: ip.to_text(),
                    address: ip,
                    interface_type: t,
                };
                let ghost before = out@;
                out.push(n);
                assert(entries(out@) =~= entries(before).push(entry_of(n)));
            }
        }
        i = i + 1;
    }
    assert(addrs@.take(i as int) =~= addrs@);
    out
}

fn order_by_priority(e: &Vec<NetworkInterface>) -> (r: Vec<NetworkInterface>)
    requires
        texts_match(e@),
    ensures
        entries(r@) == by_priority(entries(e@)),
        texts_match(r@),
{
    let ghost es = entries(e@);
    let mut out: Vec<NetworkInterface> = Vec::new();
    let mut p: u8 = 0;
    while p < 4
        invariant
            p <= 4,
            es == entries(e@),
            texts_match(e@),
            texts_match(out@),
            entries(out@) == (if p == 0 {
                Seq::empty()
            } else if p == 1 {
                of_priority(es, 0)
            } else if p == 2 {
                of_priority(es, 0) + of_priority(es, 1)
            } else if p == 3 {
                of_priority(es, 0) + of_priority(es, 1) + of_priority(es, 2)
            } else {
                by_priority(es)
            }),
        decreases 4 - p,
    {
        let ghost start = entries(out@);
        let mut k: usize = 0;
        while k < e.len()
            invariant
                k <= e@.len(),
                es == entries(e@),
                texts_match(e@),
                texts_match(out@),
                entries(out@) == start + of_priority(es.take(k as int), p as int),
            decreases e@.len() - k,
        {
            proof {
                assert(es.take(k + 1).drop_last() =~= es.take(k as int));
                assert(es.take(k + 1).last() == entry_of(e@[k as int]));
            }
            if priority_of(e[k].interface_type) == p {
                let n = copy_interface(&e[k]);
                let ghost before = out@;
                out.push(n);
                assert(entries(out@) =~= entries(before).push(entry_of(n)));
            }
            k = k + 1;
        }
        assert(es.take(k as int) =~= es);
        p = p + 1;
    }
    out
}

/// The interfaces that the console lists, for the addresses that the
/// operating system reports: IPv4 addresses only, loopback and virtual
/// interfaces dropped, Wi-Fi first, then Ethernet, then the others (each in
/// the order reported), and only the first interface of each address.
pub fn get_network_interfaces(addrs: &Vec<InterfaceAddress>) -> (r: Vec<NetworkInterface>)
    ensures
        entries(r@) == network_interfaces(addrs@),
        texts_match(r@),
{
    let ordered = order_by_priority(&eligible_interfaces(addrs));
    let ghost os = entries(ordered@);
    let mut out: Vec<NetworkInterface> = Vec::new();
    let mut k: usize = 0;
    while k < ordered.len()
        invariant
            k <= ordered@.len(),
            os == entries(ordered@),
            texts_match(ordered@),
            texts_match(out@),
            entries(out@) == first_per_address(os.take(k as int)),
        decreases ordered@.len() - k,
    {
        let mut seen = false;
        let mut j: usize = 0;
        while j < k
            invariant
                j <= k < ordered@.len(),
                os == entries(ordered@),
                seen == exists|m: int| 0 <= m < j && #[trigger] os[m].1 == os[k as int].1,
            decreases k - j,
        {
            assert(os[j as int] == entry_of(ordered@[j as int]));
            assert(os[k as int] == entry_of(ordered@[k as int]));
            let x = ordered[j].address;
            let y = ordered[k].address;
            if x.a == y.a && x.b == y.b && x.c == y.c && x.d == y.d {
                assert(os[j as int].1 == os[k as int].1);
                seen = true;
            } else {
                assert(os[j as int].1 != os[k as int].1);
            }
            j = j + 1;
        }
        proof {
            let t = os.take(k + 1);
            assert(t.drop_last() =~= os.take(k as int));
            assert(seen == seen_before(t, k as int)) by {
                if seen {
                    let m = choose|m: int| 0 <= m < k && #[trigger] os[m].1 == os[k as int].1;
                    assert(t[m].1 == t[k as int].1);
                }
                if seen_before(t, k as int) {
                    let m = choose|m: int| 0 <= m < k && #[trigger] t[m].1 == t[k as int].1;
                    assert(os[m].1 == os[k as int].1);
                }
            }
        }
        if !seen {
            let n = copy_interface(&ordered[k]);
            let ghost before = out@;
            out.push(n);
            assert(entries(out@) =~= entries(before).push(entry_of(n)));
        }
        k = k + 1;
    }
    assert(os.take(k as int) =~= os);
    out
}

/// The addresses of the Wi-Fi entries of `s`, in order.
pub open spec fn wifi_addresses(s: Seq<InterfaceEntry>) -> Seq<Ipv4>
    decreases s.len(),
{
    if s.len() == 0 {
        Seq::empty()
    } else if s.last().2 == InterfaceType::WiFi {
        wifi_addresses(s.drop_last()).push(s.last().1)
    } else {
        wifi_addresses(s.drop_last())
    }
}

pub open spec fn texts(v: Seq<String>) -> Seq<Seq<char>> {
    v.map_values(|t: String| t@)
}

/// The addresses that the console offers for the listed interfaces `s`:
/// the Wi-Fi ones if there are any, else all of them, and `0.0.0.0` when
/// nothing is listed.
pub open spec fn local_ips(s: Seq<InterfaceEntry>) -> Seq<Seq<char>> {
    if s.len() == 0 {
        seq!["0.0.0.0"@]
    } else if wifi_addresses(s).len() > 0 {
        wifi_addresses(s).map_values(|ip: Ipv4| ipv4_text(ip))
    } else {
        s.map_values(|e: InterfaceEntry| ipv4_text(e.1))
    }
}

/// The LAN addresses to offer, for the addresses that the operating system
/// reports: those of the Wi-Fi interfaces if there are any, else those of
/// every listed interface, and `0.0.0.0` when none is listed.
pub fn get_local_ips(addrs: &Vec<InterfaceAddress>) -> (r: Vec<String>)
    ensures
        texts(r@) == local_ips(network_interfaces(addrs@)),
{
    let ifs = get_network_interfaces(addrs);
    let ghost es = entries(ifs@);
    if ifs.len() == 0 {
        let v = vec![String::from_str("0.0.0.0")];
        assert(texts(v@) =~= local_ips(es));
        return v;
    }
    let mut wifi: Vec<String> = Vec::new();
    let mut all: Vec<String> = Vec::new();
    let mut k: usize = 0;
    while k < ifs.len()
        invariant
            k <= ifs@.len(),
            es == entries(ifs@),
            texts_match(ifs@),
            texts(wifi@) == wifi_addresses(es.take(k as int)).map_values(|ip: Ipv4| ipv4_text(ip)),
            texts(all@) == es.take(k as int).map_values(|e: InterfaceEntry| ipv4_text(e.1)),
        decreases ifs@.len() - k,
    {
        let ghost t = es.take(k + 1);
        assert(t.drop_last() =~= es.take(k as int));
        assert(t.last() == entry_of(ifs@[k as int]));
        let ghost w0 = wifi@;
        let ghost a0 = all@;
        if ifs[k].interface_type == InterfaceType::WiFi {
            wifi.push(ifs[k].ip.clone());
            assert(texts(wifi@) =~= texts(w0).push(ifs@[k as int].ip@));
            assert(wifi_addresses(t).map_values(|ip: Ipv4| ipv4_text(ip)) =~= wifi_addresses(
                es.take(k as int),
            ).map_values(|ip: Ipv4| ipv4_text(ip)).push(ipv4_text(ifs@[k as int].address)));
        }
        all.push(ifs[k].ip.clone());
        assert(texts(all@) =~= texts(a0).push(ifs@[k as int].ip@));
        assert(t.map_values(|e: InterfaceEntry| ipv4_text(e.1)) =~= es.take(k as int).map_values(
            |e: InterfaceEntry| ipv4_text(e.1),
        ).push(ipv4_text(ifs@[k as int].address)));
        k = k + 1;
    }
    assert(es.take(k as int) =~= es);
    if wifi.len() > 0 {
        wifi
    } else {
        all
    }
}

/// The first listed address that is on a Wi-Fi interface.
pub open spec fn first_wifi(s: Seq<InterfaceEntry>) -> Option<Ipv4> {
    if wifi_addresses(s).len() > 0 {
        Some(wifi_addresses(s)[0])
    } else {
        None
    }
}

proof fn lemma_wifi_prefix(s: Seq<InterfaceEntry>, k: int)
    requires
        0 <= k <= s.len(),
    ensures
        wifi_addresses(s.take(k)).len() > 0 ==> wifi_addresses(s).len() > 0 && wifi_addresses(s)[0]
            == wifi_addresses(s.take(k))[0],
    decreases s.len() - k,
{
    if k < s.len() {
        lemma_wifi_prefix(s, k + 1);
        assert(s.take(k + 1).drop_last() =~= s.take(k));
    } else {
        assert(s.take(k) =~= s);
    }
}

/// The address of the first listed Wi-Fi interface, if any.
pub fn get_wifi_ip(addrs: &Vec<InterfaceAddress>) -> (r: Option<String>)
    ensures
        match first_wifi(network_interfaces(addrs@)) {
            Some(ip) => r is Some && r->Some_0@ == ipv4_text(ip),
            None => r is None,
        },
{
    let ifs = get_network_interfaces(addrs);
    let ghost es = entries(ifs@);
    let mut k: usize = 0;
    while k < ifs.len()
        invariant
            k <= ifs@.len(),
            es == entries(ifs@),
            es == network_interfaces(addrs@),
            texts_match(ifs@),
            wifi_addresses(es.take(k as int)).len() == 0,
        decreases ifs@.len() - k,
    {
        let ghost t = es.take(k + 1);
        assert(t.drop_last() =~= es.take(k as int));
        assert(t.last() == entry_of(ifs@[k as int]));
        if ifs[k].interface_type == InterfaceType::WiFi {
            proof {
                lemma_wifi_prefix(es, k + 1);
                assert(wifi_addresses(t) =~= wifi_addresses(es.take(k as int)).push(
                    ifs@[k as int].address,
                ));
                assert(wifi_addresses(t)[0] == ifs@[k as int].address);
            }
            let ip = ifs[k].ip.clone();
            assert(ip@ == ipv4_text(ifs@[k as int].address));
            return Some(ip);
        }
        k = k + 1;
    }
    assert(es.take(k as int) =~= es);
    None
}

/// A private LAN address: 10.0.0.0/8, 172.16.0.0/12 or 192.168.0.0/16.
pub open spec fn lan_address(ip: Ipv4) -> bool {
    ip.a == 10 || (ip.a == 172 && 16 <= ip.b <= 31) || (ip.a == 192 && ip.b == 168)
}

/// Whether `ip` is a private LAN address.
pub fn is_lan_ip(ip: &Ipv4) -> (r: bool)
    ensures
        r == lan_address(*ip),
{
    ip.a == 10 || (ip.a == 172 && 16 <= ip.b && ip.b <= 31) || (ip.a == 192 && ip.b == 168)
}

} // verus!
