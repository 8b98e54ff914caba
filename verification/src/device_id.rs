//! Device identifiers: which backend an id names, and the parts each backend
//! encodes in it (`ascom:<progid>`, `alpaca:<url>:<type>:<number>`,
//! `indi:<host>:<port>:<device>`, `native:<vendor>:<id>`).
use vstd::prelude::*;

use crate::text::{
    chars_of, concat2, decimal_string, decimal_text, find_char_from, find_from, has_prefix, join_colon,
    lemma_decimal_text_parses, parse_unsigned, parse_unsigned_range, rfind_before, rfind_char_before,
    str_starts_with, substring,
};

verus! {

/// Ids of the simulated devices start with this prefix.
pub open spec fn is_simulator_id_spec(id: Seq<char>) -> bool {
    has_prefix(id, "sim_"@)
}

/// Whether the id names one of the built-in simulated devices.
pub fn is_simulator_id(device_id: &str) -> (r: bool)
    ensures
        r == is_simulator_id_spec(device_id@),
{
    str_starts_with(device_id, "sim_")
}

/// The ASCOM ProgID named by an `ascom:` id.
pub fn ascom_prog_id(device_id: &str) -> (r: Result<String, String>)
    ensures
        match r {
            Ok(p) => has_prefix(device_id@, "ascom:"@) && p@ == device_id@.skip(
                "ascom:"@.len() as int,
            ),
            Err(m) => !has_prefix(device_id@, "ascom:"@) && m@ == "Invalid ASCOM device ID"@,
        },
{
    let prefix = "ascom:";
    if str_starts_with(device_id, prefix) {
        let n = device_id.unicode_len();
        let k = prefix.unicode_len();
        let r = substring(device_id, k, n);
        assert(r@ =~= device_id@.skip(k as int));
        Ok(r)
    } else {
        Err(String::from_str("Invalid ASCOM device ID"))
    }
}

// ---------------------------------------------------------------------------
// Alpaca
// ---------------------------------------------------------------------------

/// What the device manager reads from an Alpaca id: the text after
/// `alpaca:` is cut at its first two colons; the first part is the base URL
/// and the third part, up to the end, the device number.
pub open spec fn alpaca_connection_spec(id: Seq<char>) -> Result<(Seq<char>, nat), Seq<char>> {
    if !has_prefix(id, "alpaca:"@) {
        Err("Invalid Alpaca device ID"@)
    } else {
        let rest = id.skip(7);
        let a = find_from(rest, ':', 0);
        let b = find_from(rest, ':', a + 1);
        if a >= rest.len() || b >= rest.len() {
            Err("Invalid Alpaca device ID format"@)
        } else {
            match parse_unsigned(rest.subrange(b + 1, rest.len() as int), 0xffff_ffff) {
                Some(n) => Ok((rest.subrange(0, a), n)),
                None => Err("Invalid device number"@),
            }
        }
    }
}

/// The base URL and device number of an Alpaca device, as the device manager reads them.
pub fn parse_alpaca_connection_id(device_id: &str) -> (r: Result<(String, u32), String>)
    ensures
        match r {
            Ok((url, n)) => alpaca_connection_spec(device_id@) == Ok::<(Seq<char>, nat), Seq<char>>(
                (url@, n as nat),
            ),
            Err(m) => alpaca_connection_spec(device_id@) == Err::<(Seq<char>, nat), Seq<char>>(m@),
        },
{
    proof {
        reveal_strlit("alpaca:");
    }
    if !str_starts_with(device_id, "alpaca:") {
        return Err(String::from_str("Invalid Alpaca device ID"));
    }
    let s = chars_of(device_id);
    let n = s.len();
    let rest_str = device_id.substring_char(7, n);
    let rest = chars_of(rest_str);
    assert(rest@ =~= device_id@.skip(7));
    let a = find_char_from(&rest, ':', 0);
    if a >= rest.len() {
        return Err(String::from_str("Invalid Alpaca device ID format"));
    }
    let b = find_char_from(&rest, ':', a + 1);
    if b >= rest.len() {
        return Err(String::from_str("Invalid Alpaca device ID format"));
    }
    match parse_unsigned_range(&rest, b + 1, rest.len(), 0xffff_ffff) {
        Some(num) => Ok((substring(rest_str, 0, a), num as u32)),
        None => Err(String::from_str("Invalid device number")),
    }
}

/// What the Alpaca connection table reads from an Alpaca id: the text after
/// `alpaca:` is cut at its last two colons into base URL, device type name
/// and device number (the URL may itself hold colons).
pub open spec fn alpaca_id_spec(id: Seq<char>) -> Option<(Seq<char>, Seq<char>, nat)> {
    if !has_prefix(id, "alpaca:"@) {
        None
    } else {
        let rest = id.skip(7);
        let z = rfind_before(rest, ':', rest.len() as int);
        let y = rfind_before(rest, ':', z);
        if z < 0 || y < 0 {
            None
        } else {
            match parse_unsigned(rest.subrange(z + 1, rest.len() as int), 0xffff_ffff) {
                Some(n) => Some((rest.subrange(0, y), rest.subrange(y + 1, z), n)),
                None => None,
            }
        }
    }
}

/// Lemma: a found last colon lies before the end it was searched to.
proof fn lemma_rfind_bounds(s: Seq<char>, c: char, end: int)
    requires
        0 <= end <= s.len(),
    ensures
        -1 <= rfind_before(s, c, end) < end,
        rfind_before(s, c, end) >= 0 ==> s[rfind_before(s, c, end)] == c,
    decreases end,
{
    if end > 0 && s[end - 1] != c {
        lemma_rfind_bounds(s, c, end - 1);
    }
}

/// The base URL, device type name and device number of an Alpaca device id;
/// the type name is left for the Alpaca driver to interpret.
pub fn parse_alpaca_id(device_id: &str) -> (r: Option<(String, String, u32)>)
    ensures
        match r {
            Some((url, t, n)) => alpaca_id_spec(device_id@) == Some((url@, t@, n as nat)),
            None => alpaca_id_spec(device_id@) is None,
        },
{
    proof {
        reveal_strlit("alpaca:");
    }
    if !str_starts_with(device_id, "alpaca:") {
        return None;
    }
    let n = device_id.unicode_len();
    let rest_str = device_id.substring_char(7, n);
    let rest = chars_of(rest_str);
    assert(rest@ =~= device_id@.skip(7));
    let z = match rfind_char_before(&rest, ':', rest.len()) {
        Some(z) => z,
        None => return None,
    };
    let y = match rfind_char_before(&rest, ':', z) {
        Some(y) => y,
        None => {
            proof {
                lemma_rfind_bounds(rest@, ':', rest@.len() as int);
            }
            return None;
        },
    };
    proof {
        lemma_rfind_bounds(rest@, ':', rest@.len() as int);
        lemma_rfind_bounds(rest@, ':', z as int);
    }
    match parse_unsigned_range(&rest, z + 1, rest.len(), 0xffff_ffff) {
        Some(num) => Some((substring(rest_str, 0, y), substring(rest_str, y + 1, z), num as u32)),
        None => None,
    }
}

// ---------------------------------------------------------------------------
// INDI
// ---------------------------------------------------------------------------

/// The first three colons of an id, and whether there are three.
pub open spec fn colon1(id: Seq<char>) -> int {
    find_from(id, ':', 0)
}

pub open spec fn colon2(id: Seq<char>) -> int {
    find_from(id, ':', colon1(id) + 1)
}

pub open spec fn colon3(id: Seq<char>) -> int {
    find_from(id, ':', colon2(id) + 1)
}

/// Lemma: the searched position lies between the start and the end.
pub proof fn lemma_find_bounds(s: Seq<char>, c: char, start: int)
    requires
        0 <= start,
    ensures
        start <= find_from(s, c, start) || find_from(s, c, start) == s.len(),
        find_from(s, c, start) <= s.len() || start > s.len(),
        find_from(s, c, start) < s.len() ==> s[find_from(s, c, start)] == c,
    decreases s.len() - start,
{
    if start < s.len() && s[start] != c {
        lemma_find_bounds(s, c, start + 1);
    }
}

/// Where an INDI device lives.
#[derive(Debug, Clone)]
pub struct IndiDeviceAddress {
    pub host: String,
    pub port: u16,
    pub device_name: String,
}

/// The message for an INDI id with fewer than four `:`-separated parts.
pub open spec fn indi_format_message() -> Seq<char> {
    "Invalid INDI device ID format. Expected: indi:host:port:device_name"@
}

/// What the device manager reads from an INDI id `indi:host:port:device_name`:
/// host and port are the second and third `:`-separated parts and the device
/// name is everything after the third colon.
pub open spec fn indi_address_spec(id: Seq<char>) -> Result<(Seq<char>, nat, Seq<char>), Seq<char>> {
    if colon1(id) >= id.len() || colon2(id) >= id.len() || colon3(id) >= id.len() {
        Err(indi_format_message())
    } else {
        match parse_unsigned(id.subrange(colon2(id) + 1, colon3(id)), 0xffff) {
            Some(port) => Ok(
                (
                    id.subrange(colon1(id) + 1, colon2(id)),
                    port,
                    id.subrange(colon3(id) + 1, id.len() as int),
                ),
            ),
            None => Err("Invalid port number"@),
        }
    }
}

/// The host, port and device name of an INDI device id.
pub fn parse_indi_device_id(device_id: &str) -> (r: Result<IndiDeviceAddress, String>)
    ensures
        match r {
            Ok(a) => indi_address_spec(device_id@) == Ok::<(Seq<char>, nat, Seq<char>), Seq<char>>(
                (a.host@, a.port as nat, a.device_name@),
            ),
            Err(m) => indi_address_spec(device_id@) == Err::<(Seq<char>, nat, Seq<char>), Seq<char>>(
                m@,
            ),
        },
{
    let s = chars_of(device_id);
    let c1 = find_char_from(&s, ':', 0);
    if c1 >= s.len() {
        return Err(
            String::from_str("Invalid INDI device ID format. Expected: indi:host:port:device_name"),
        );
    }
    let c2 = find_char_from(&s, ':', c1 + 1);
    if c2 >= s.len() {
        return Err(
            String::from_str("Invalid INDI device ID format. Expected: indi:host:port:device_name"),
        );
    }
    let c3 = find_char_from(&s, ':', c2 + 1);
    if c3 >= s.len() {
        return Err(
            String::from_str("Invalid INDI device ID format. Expected: indi:host:port:device_name"),
        );
    }
    match parse_unsigned_range(&s, c2 + 1, c3, 0xffff) {
        Some(port) => Ok(
            IndiDeviceAddress {
                host: substring(device_id, c1 + 1, c2),
                port: port as u16,
                device_name: substring(device_id, c3 + 1, s.len()),
            },
        ),
        None => Err(String::from_str("Invalid port number")),
    }
}

/// The key `host:port` under which the connection to an INDI server is kept.
pub fn indi_server_key(host: &str, port: u16) -> (r: String)
    ensures
        r@ == host@ + seq![':'] + decimal_text(port as nat),
{
    let p = decimal_string(port as u64);
    join_colon(host, p.as_str())
}

/// The server key of an INDI device id, taken from its second and third
/// parts as written; `None` unless the id starts with `indi:` and has four parts.
pub open spec fn indi_client_key_spec(id: Seq<char>) -> Option<Seq<char>> {
    if !has_prefix(id, "indi:"@) || colon1(id) >= id.len() || colon2(id) >= id.len() || colon3(id)
        >= id.len() {
        None
    } else {
        Some(
            id.subrange(colon1(id) + 1, colon2(id)) + seq![':'] + id.subrange(
                colon2(id) + 1,
                colon3(id),
            ),
        )
    }
}

/// The server key under which the INDI client of a device is kept.
pub fn indi_client_key(device_id: &str) -> (r: Option<String>)
    ensures
        match r {
            Some(k) => indi_client_key_spec(device_id@) == Some(k@),
            None => indi_client_key_spec(device_id@) is None,
        },
{
    if !str_starts_with(device_id, "indi:") {
        return None;
    }
    let s = chars_of(device_id);
    let c1 = find_char_from(&s, ':', 0);
    if c1 >= s.len() {
        return None;
    }
    let c2 = find_char_from(&s, ':', c1 + 1);
    if c2 >= s.len() {
        return None;
    }
    let c3 = find_char_from(&s, ':', c2 + 1);
    if c3 >= s.len() {
        return None;
    }
    let host = substring(device_id, c1 + 1, c2);
    let port = substring(device_id, c2 + 1, c3);
    Some(join_colon(host.as_str(), port.as_str()))
}

/// The id of an INDI device: `indi:<host>:<port>:<device name>`.
pub fn indi_device_id(host: &str, port: u16, device_name: &str) -> (r: String)
    ensures
        r@ == indi_id_text(host@, port as nat, device_name@),
{
    let key = indi_server_key(host, port);
    let with_name = join_colon(key.as_str(), device_name);
    let r = concat2("indi:", with_name.as_str());
    assert(r@ =~= "indi:"@ + host@ + seq![':'] + decimal_text(port as nat) + seq![':']
        + device_name@);
    r
}


/// Lemma: the search from `start` stops at `j` when `j` holds `c` and no
/// position from `start` up to `j` does.
pub proof fn lemma_find_at(s: Seq<char>, c: char, start: int, j: int)
    requires
        0 <= start <= j < s.len(),
        s[j] == c,
        forall|i: int| start <= i < j ==> s[i] != c,
    ensures
        find_from(s, c, start) == j,
    decreases j - start,
{
    if start < j {
        lemma_find_at(s, c, start + 1, j);
    }
}

/// Lemma: the backward search from `end` stops at `j` when `j` holds `c` and
/// no position after `j` before `end` does.
proof fn lemma_rfind_at(s: Seq<char>, c: char, end: int, j: int)
    requires
        0 <= j < end <= s.len(),
        s[j] == c,
        forall|i: int| j < i < end ==> s[i] != c,
    ensures
        rfind_before(s, c, end) == j,
    decreases end - j,
{
    if end - 1 > j {
        lemma_rfind_at(s, c, end - 1, j);
    }
}

/// The id of an INDI device: `indi:<host>:<port>:<device_name>`.
pub open spec fn indi_id_text(host: Seq<char>, port: nat, device_name: Seq<char>) -> Seq<char> {
    "indi:"@ + host + seq![':'] + decimal_text(port) + seq![':'] + device_name
}

/// Law: reading an INDI device id built from a host without colons, a port
/// and a device name gives them back (the device name may hold colons), and
/// its server key is `<host>:<port>`.
pub proof fn law_indi_id_roundtrip(host: Seq<char>, port: u16, device_name: Seq<char>)
    requires
        !host.contains(':'),
    ensures
        indi_address_spec(indi_id_text(host, port as nat, device_name)) == Ok::<
            (Seq<char>, nat, Seq<char>),
            Seq<char>,
        >((host, port as nat, device_name)),
        indi_client_key_spec(indi_id_text(host, port as nat, device_name)) == Some(
            host + seq![':'] + decimal_text(port as nat),
        ),
{
    reveal_strlit("indi:");
    let d = decimal_text(port as nat);
    lemma_decimal_text_parses(port as nat, 0xffff);
    let s = indi_id_text(host, port as nat, device_name);
    let h = host.len() as int;
    let dl = d.len() as int;
    assert(s.len() == 7 + h + dl + device_name.len());
    assert(s[4] == ':');
    assert forall|i: int| 0 <= i < 4 implies s[i] != ':' by {}
    lemma_find_at(s, ':', 0, 4);
    assert(s[5 + h] == ':');
    assert forall|i: int| 5 <= i < 5 + h implies s[i] != ':' by {
        assert(s[i] == host[i - 5]);
    }
    lemma_find_at(s, ':', 5, 5 + h);
    assert(s[6 + h + dl] == ':');
    assert forall|i: int| 6 + h <= i < 6 + h + dl implies s[i] != ':' by {
        assert(s[i] == d[i - 6 - h]);
        assert(crate::text::is_digit(d[i - 6 - h]));
    }
    lemma_find_at(s, ':', 6 + h, 6 + h + dl);
    assert(s.subrange(5, 5 + h) =~= host);
    assert(s.subrange(6 + h, 6 + h + dl) =~= d);
    assert(s.subrange(7 + h + dl, s.len() as int) =~= device_name);
    assert(s.subrange(0, 5) =~= "indi:"@);
    assert(s.subrange(5, 5 + h) + seq![':'] + s.subrange(6 + h, 6 + h + dl) =~= host + seq![':']
        + d);
}

/// The id of an Alpaca device: `alpaca:<base_url>:<kind_name>:<number>`.
pub open spec fn alpaca_id_text(base_url: Seq<char>, kind_name: Seq<char>, number: nat) -> Seq<char> {
    "alpaca:"@ + base_url + seq![':'] + kind_name + seq![':'] + decimal_text(number)
}

/// Law: reading an Alpaca device id gives back its base URL (which may hold
/// colons, as `http://host:port` does), its type name (without colons) and
/// its number.
pub proof fn law_alpaca_id_roundtrip(base_url: Seq<char>, kind_name: Seq<char>, number: u32)
    requires
        !kind_name.contains(':'),
    ensures
        alpaca_id_spec(alpaca_id_text(base_url, kind_name, number as nat)) == Some(
            (base_url, kind_name, number as nat),
        ),
{
    reveal_strlit("alpaca:");
    let d = decimal_text(number as nat);
    lemma_decimal_text_parses(number as nat, 0xffff_ffff);
    let s = alpaca_id_text(base_url, kind_name, number as nat);
    assert(has_prefix(s, "alpaca:"@)) by {
        assert(s.subrange(0, 7) =~= "alpaca:"@);
    }
    let rest = s.skip(7);
    let u = base_url.len() as int;
    let t = kind_name.len() as int;
    let dl = d.len() as int;
    assert(rest =~= base_url + seq![':'] + kind_name + seq![':'] + d);
    assert(rest.len() == u + t + dl + 2);
    assert(rest[u + t + 1] == ':');
    assert forall|i: int| u + t + 1 < i < rest.len() implies rest[i] != ':' by {
        assert(rest[i] == d[i - u - t - 2]);
        assert(crate::text::is_digit(d[i - u - t - 2]));
    }
    lemma_rfind_at(rest, ':', rest.len() as int, u + t + 1);
    assert(rest[u] == ':');
    assert forall|i: int| u < i < u + t + 1 implies rest[i] != ':' by {
        assert(rest[i] == kind_name[i - u - 1]);
    }
    lemma_rfind_at(rest, ':', u + t + 1, u);
    assert(rest.subrange(0, u) =~= base_url);
    assert(rest.subrange(u + 1, u + t + 1) =~= kind_name);
    assert(rest.subrange(u + t + 2, rest.len() as int) =~= d);
}

} // verus!
