//! Network streaming types: protocols, stream URLs, bitrates.
use vstd::prelude::*;
use vstd::string::StringExecFns;

use crate::error::AudioEngineError;
use crate::text::{chars_of, has_prefix, lower_of, lowercase, string_of, trim_of, trimmed};

verus! {

/// Network streaming protocol.
#[derive(Debug, Clone, Copy, PartialEq, Eq, Hash, Structural)]
pub enum NetworkProtocol {
    /// Real-time messaging protocol.
    RTMP,
    /// HTTP live streaming (input only).
    HLS,
    /// Real-time transport protocol.
    RTP,
}

/// Port used when a URL names none.
pub open spec fn default_port_of(p: NetworkProtocol) -> u16 {
    match p {
        NetworkProtocol::RTMP => 1935,
        NetworkProtocol::HLS => 80,
        NetworkProtocol::RTP => 5004,
    }
}

impl NetworkProtocol {
    /// Returns the default port.
    pub fn default_port(self) -> (r: u16)
        ensures
            r == default_port_of(self),
    {
        match self {
            NetworkProtocol::RTMP => 1935,
            NetworkProtocol::HLS => 80,
            NetworkProtocol::RTP => 5004,
        }
    }

    /// Returns the URL scheme.
    pub fn scheme(self) -> (r: &'static str)
        ensures
            self is RTMP ==> r@ == "rtmp"@,
            self is HLS ==> r@ == "https"@,
            self is RTP ==> r@ == "rtp"@,
    {
        match self {
            NetworkProtocol::RTMP => "rtmp",
            NetworkProtocol::HLS => "https",
            NetworkProtocol::RTP => "rtp",
        }
    }

    /// Looks up a protocol by its lower-case name.
    pub fn from_lowercase_name(name: &str) -> (r: Option<NetworkProtocol>)
        ensures
            name@ == "rtmp"@ <==> r == Some(NetworkProtocol::RTMP),
            name@ == "hls"@ <==> r == Some(NetworkProtocol::HLS),
            name@ == "rtp"@ <==> r == Some(NetworkProtocol::RTP),
    {
        proof {
            reveal_strlit("rtmp");
            reveal_strlit("hls");
            reveal_strlit("rtp");
            assert("rtmp"@.len() == 4 && "hls"@.len() == 3 && "rtp"@.len() == 3);
            assert("hls"@[0] != "rtp"@[0]);
        }
        let n = String::from_str(name);
        if n == String::from_str("rtmp") {
            Some(NetworkProtocol::RTMP)
        } else if n == String::from_str("hls") {
            Some(NetworkProtocol::HLS)
        } else if n == String::from_str("rtp") {
            Some(NetworkProtocol::RTP)
        } else {
            None
        }
    }

    /// Looks up a protocol by name, ignoring case.
    pub fn from_name(name: &str) -> (r: Result<NetworkProtocol, AudioEngineError>)
        ensures
            lower_of(name@) == "rtmp"@ <==> r == Ok::<NetworkProtocol, AudioEngineError>(
                NetworkProtocol::RTMP,
            ),
            lower_of(name@) == "hls"@ <==> r == Ok::<NetworkProtocol, AudioEngineError>(
                NetworkProtocol::HLS,
            ),
            lower_of(name@) == "rtp"@ <==> r == Ok::<NetworkProtocol, AudioEngineError>(
                NetworkProtocol::RTP,
            ),
            r is Err ==> r->Err_0 is InvalidStreamUrl,
    {
        let lower = lowercase(name);
        match NetworkProtocol::from_lowercase_name(lower.as_str()) {
            Some(p) => Ok(p),
            None => Err(
                AudioEngineError::InvalidStreamUrl {
                    url: String::from_str(name),
                    reason: String::from_str("Unknown protocol"),
                },
            ),
        }
    }
}

impl Default for NetworkProtocol {
    fn default() -> (r: NetworkProtocol)
        ensures
            r == NetworkProtocol::RTMP,
    {
        NetworkProtocol::RTMP
    }
}

// ---------------------------------------------------------------------
// The stream URL grammar, over characters.
// ---------------------------------------------------------------------

/// `i` is the first position in `lo..hi` that holds `c`.
pub open spec fn is_first(s: Seq<char>, lo: int, hi: int, c: char, i: int) -> bool {
    &&& lo <= i < hi
    &&& s[i] == c
    &&& forall|j: int| lo <= j < i ==> s[j] != c
}

/// `i` is the last position in `lo..hi` that holds `c`.
pub open spec fn is_last(s: Seq<char>, lo: int, hi: int, c: char, i: int) -> bool {
    &&& lo <= i < hi
    &&& s[i] == c
    &&& forall|j: int| i < j < hi ==> s[j] != c
}

/// First position of `c` in `lo..hi`, or `hi` when there is none.
pub open spec fn first_in(s: Seq<char>, lo: int, hi: int, c: char) -> int {
    if exists|i: int| is_first(s, lo, hi, c, i) {
        choose|i: int| is_first(s, lo, hi, c, i)
    } else {
        hi
    }
}

/// Last position of `c` in `lo..hi`, or `hi` when there is none.
pub open spec fn last_in(s: Seq<char>, lo: int, hi: int, c: char) -> int {
    if exists|i: int| is_last(s, lo, hi, c, i) {
        choose|i: int| is_last(s, lo, hi, c, i)
    } else {
        hi
    }
}

/// An ASCII decimal digit.
pub open spec fn is_digit(c: char) -> bool {
    48 <= c as u32 <= 57
}

/// The number that a string of decimal digits writes.
pub open spec fn digits_value(d: Seq<char>) -> int
    decreases d.len(),
{
    if d.len() == 0 {
        0
    } else {
        digits_value(d.drop_last()) * 10 + (d.last() as u32 - 48)
    }
}

/// The digits of a port: without one leading `+`.
pub open spec fn port_digits(p: Seq<char>) -> Seq<char> {
    if p.len() > 0 && p[0] == '+' { p.skip(1) } else { p }
}

/// Every character is a decimal digit.
pub open spec fn all_digits(d: Seq<char>) -> bool {
    forall|i: int| 0 <= i < d.len() ==> is_digit(d[i])
}

/// A port number as `u16`'s `FromStr` reads it: an optional `+`, then one or
/// more decimal digits, the value at most 65535.
pub open spec fn parse_port(p: Seq<char>) -> Option<u16> {
    let d = port_digits(p);
    if d.len() > 0 && all_digits(d) && digits_value(d) <= 65535 {
        Some(digits_value(d) as u16)
    } else {
        None
    }
}

/// Scheme prefixes and what they select, in the order they are tried.
pub open spec fn scheme_of(s: Seq<char>) -> Option<(NetworkProtocol, int)> {
    if seq!['r', 't', 'm', 'p', ':', '/', '/'].is_prefix_of(s) {
        Some((NetworkProtocol::RTMP, 7))
    } else if seq!['r', 't', 'm', 'p', 's', ':', '/', '/'].is_prefix_of(s) {
        Some((NetworkProtocol::RTMP, 8))
    } else if seq!['h', 't', 't', 'p', 's', ':', '/', '/'].is_prefix_of(s) {
        Some((NetworkProtocol::HLS, 8))
    } else if seq!['h', 't', 't', 'p', ':', '/', '/'].is_prefix_of(s) {
        Some((NetworkProtocol::HLS, 7))
    } else if seq!['r', 't', 'p', ':', '/', '/'].is_prefix_of(s) {
        Some((NetworkProtocol::RTP, 6))
    } else {
        None
    }
}

/// The parts of a parsed URL: protocol, host, port, path, stream key.
pub type UrlParts = (NetworkProtocol, Seq<char>, u16, Seq<char>, Option<Seq<char>>);

/// Path and stream key from the path segment `s[ps..pe]`: for RTMP the
/// last path component is the stream key.
pub open spec fn path_and_key(s: Seq<char>, ps: int, pe: int, protocol: NetworkProtocol) -> (
    Seq<char>,
    Option<Seq<char>>,
) {
    if protocol is RTMP {
        let k = last_in(s, ps, pe, '/');
        if k < pe {
            (s.subrange(ps, k), Some(s.subrange(k + 1, pe)))
        } else if ps < pe {
            (Seq::empty(), Some(s.subrange(ps, pe)))
        } else {
            (Seq::empty(), None)
        }
    } else {
        (s.subrange(ps, pe), None)
    }
}

/// The stream URL grammar: `scheme://host[:port][/path]`. The result is the
/// URL's parts, or the reason it is refused.
pub open spec fn parse_url(s: Seq<char>) -> Result<UrlParts, Seq<char>> {
    match scheme_of(s) {
        None => Err("Missing or unsupported protocol scheme"@),
        Some((protocol, start)) => {
            let n = s.len() as int;
            let slash = first_in(s, start, n, '/');
            let (ps, pe) = if slash < n { (slash + 1, n) } else { (n, n) };
            let colon = first_in(s, start, slash, ':');
            let host = s.subrange(start, colon);
            let port = if colon < slash {
                parse_port(s.subrange(colon + 1, slash))
            } else {
                Some(default_port_of(protocol))
            };
            if port is None {
                Err("Invalid port: "@ + s.subrange(colon + 1, slash))
            } else if host.len() == 0 {
                Err("Empty Host"@)
            } else {
                let (path, key) = path_and_key(s, ps, pe, protocol);
                Ok((protocol, host, port->0, path, key))
            }
        },
    }
}

/// First position of `c` in `s[lo..hi]`, or `hi`.
fn find_first(s: &[char], lo: usize, hi: usize, c: char) -> (r: usize)
    requires
        lo <= hi <= s@.len(),
    ensures
        r as int == first_in(s@, lo as int, hi as int, c),
        lo <= r <= hi,
{
    let mut i: usize = lo;
    while i < hi
        invariant
            lo <= i <= hi <= s@.len(),
            forall|j: int| lo <= j < i ==> s@[j] != c,
        decreases hi - i,
    {
        if s[i] == c {
            proof {
                assert(is_first(s@, lo as int, hi as int, c, i as int));
                let k = choose|k: int| is_first(s@, lo as int, hi as int, c, k);
                assert(k == i) by {
                    if k < i {
                        assert(s@[k] != c);
                    }
                    if k > i {
                        assert(s@[i as int] != c);
                    }
                }
            }
            return i;
        }
        i += 1;
    }
    proof {
        assert(!exists|k: int| is_first(s@, lo as int, hi as int, c, k));
    }
    hi
}

/// Last position of `c` in `s[lo..hi]`, or `hi`.
fn find_last(s: &[char], lo: usize, hi: usize, c: char) -> (r: usize)
    requires
        lo <= hi <= s@.len(),
    ensures
        r as int == last_in(s@, lo as int, hi as int, c),
        lo <= r <= hi,
{
    let mut i: usize = hi;
    while i > lo
        invariant
            lo <= i <= hi <= s@.len(),
            forall|j: int| i <= j < hi ==> s@[j] != c,
        decreases i - lo,
    {
        if s[i - 1] == c {
            proof {
                let m = i - 1;
                assert(is_last(s@, lo as int, hi as int, c, m as int));
                let k = choose|k: int| is_last(s@, lo as int, hi as int, c, k);
                assert(k == m) by {
                    if k < m {
                        assert(s@[m as int] != c);
                    }
                    if k > m {
                        assert(s@[k] != c);
                    }
                }
            }
            return i - 1;
        }
        i -= 1;
    }
    proof {
        assert(!exists|k: int| is_last(s@, lo as int, hi as int, c, k));
    }
    hi
}

/// `min(min(x, 65536) * 10 + d, 65536) == min(x * 10 + d, 65536)`.
proof fn lemma_saturated_step(x: int, d: int)
    requires
        x >= 0,
        0 <= d <= 9,
    ensures
        ({
            let sx = if x > 65536 { 65536 } else { x };
            let a = sx * 10 + d;
            let b = x * 10 + d;
            (if a > 65536 { 65536 } else { a }) == (if b > 65536 { 65536 } else { b })
        }),
{
    if x > 65536 {
        assert(x * 10 + d > 65536) by (nonlinear_arith)
            requires x > 65536, d >= 0;
    }
}

/// The port written in `s[lo..hi]`, read as `parse_port` says.
fn read_port(s: &[char], lo: usize, hi: usize) -> (r: Option<u16>)
    requires
        lo <= hi <= s@.len(),
    ensures
        r == parse_port(s@.subrange(lo as int, hi as int)),
{
    let ghost p = s@.subrange(lo as int, hi as int);
    let start = if lo < hi && s[lo] == '+' {
        lo + 1
    } else {
        lo
    };
    let ghost d = s@.subrange(start as int, hi as int);
    proof {
        if lo < hi && s@[lo as int] == '+' {
            assert(d =~= p.skip(1));
        } else {
            assert(d =~= p);
        }
    }
    if start == hi {
        return None;
    }
    let mut value: u32 = 0;
    let mut i: usize = start;
    while i < hi
        invariant
            start <= i <= hi <= s@.len(),
            d == s@.subrange(start as int, hi as int),
            p == s@.subrange(lo as int, hi as int),
            port_digits(p) == d,
            forall|j: int| start <= j < i ==> is_digit(s@[j]),
            value as int == if digits_value(s@.subrange(start as int, i as int)) > 65536 {
                65536
            } else {
                digits_value(s@.subrange(start as int, i as int))
            },
            digits_value(s@.subrange(start as int, i as int)) >= 0,
        decreases hi - i,
    {
        let c = s[i];
        if !((c as u32) >= 48 && (c as u32) <= 57) {
            proof {
                assert(d[i - start] == s@[i as int]);
                assert(!is_digit(d[i - start]));
                assert(!all_digits(d));
            }
            return None;
        }
        let digit = (c as u32) - 48;
        let ghost prev = s@.subrange(start as int, i as int);
        let ghost next = s@.subrange(start as int, i as int + 1);
        proof {
            assert(next.drop_last() =~= prev);
            assert(digits_value(next) == digits_value(prev) * 10 + digit);
            lemma_saturated_step(digits_value(prev), digit as int);
        }
        let step = value * 10 + digit;
        value = if step > 65536 {
            65536
        } else {
            step
        };
        i += 1;
    }
    proof {
        assert(s@.subrange(start as int, hi as int) =~= d);
        assert forall|j: int| 0 <= j < d.len() implies is_digit(d[j]) by {
            assert(d[j] == s@[start + j]);
        }
        assert(all_digits(d));
    }
    if value > 65535 {
        None
    } else {
        Some(value as u16)
    }
}

/// A validated stream URL and its parts.
#[derive(Debug, Clone, PartialEq, Eq, Hash)]
pub struct StreamUrl {
    raw: String,
    protocol: NetworkProtocol,
    host: String,
    port: u16,
    path: String,
    stream_key: Option<String>,
}

/// The characters of an optional string.
pub open spec fn opt_view(o: Option<String>) -> Option<Seq<char>> {
    match o {
        Some(s) => Some(s@),
        None => None,
    }
}

impl StreamUrl {
    /// The URL as it was given (trimmed).
    pub closed spec fn spec_raw(&self) -> Seq<char> {
        self.raw@
    }

    /// The parsed parts.
    pub closed spec fn parts(&self) -> UrlParts {
        (self.protocol, self.host@, self.port, self.path@, opt_view(self.stream_key))
    }

    /// Parses a URL that has no surrounding white space.
    pub fn parse_trimmed(url: &str) -> (r: Result<StreamUrl, AudioEngineError>)
        ensures
            parse_url(url@) is Ok <==> r is Ok,
            r is Ok ==> r->Ok_0.parts() == parse_url(url@)->Ok_0 && r->Ok_0.spec_raw() == url@,
            r is Err ==> r->Err_0 is InvalidStreamUrl && r->Err_0->InvalidStreamUrl_url@ == url@
                && r->Err_0->InvalidStreamUrl_reason@ == parse_url(url@)->Err_0,
    {
        let s = chars_of(url);
        let cs = s.as_slice();
        let n = cs.len();
        let rtmp: [char; 7] = ['r', 't', 'm', 'p', ':', '/', '/'];
        let rtmps: [char; 8] = ['r', 't', 'm', 'p', 's', ':', '/', '/'];
        let https: [char; 8] = ['h', 't', 't', 'p', 's', ':', '/', '/'];
        let http: [char; 7] = ['h', 't', 't', 'p', ':', '/', '/'];
        let rtp: [char; 6] = ['r', 't', 'p', ':', '/', '/'];
        proof {
            assert(rtmp@ =~= seq!['r', 't', 'm', 'p', ':', '/', '/']);
            assert(rtmps@ =~= seq!['r', 't', 'm', 'p', 's', ':', '/', '/']);
            assert(https@ =~= seq!['h', 't', 't', 'p', 's', ':', '/', '/']);
            assert(http@ =~= seq!['h', 't', 't', 'p', ':', '/', '/']);
            assert(rtp@ =~= seq!['r', 't', 'p', ':', '/', '/']);
        }
        let (protocol, start): (NetworkProtocol, usize) = if has_prefix(cs, rtmp.as_slice()) {
            (NetworkProtocol::RTMP, 7)
        } else if has_prefix(cs, rtmps.as_slice()) {
            (NetworkProtocol::RTMP, 8)
        } else if has_prefix(cs, https.as_slice()) {
            (NetworkProtocol::HLS, 8)
        } else if has_prefix(cs, http.as_slice()) {
            (NetworkProtocol::HLS, 7)
        } else if has_prefix(cs, rtp.as_slice()) {
            (NetworkProtocol::RTP, 6)
        } else {
            return Err(
                AudioEngineError::InvalidStreamUrl {
                    url: String::from_str(url),
                    reason: String::from_str("Missing or unsupported protocol scheme"),
                },
            );
        };
        proof {
            assert(scheme_of(s@) == Some((protocol, start as int)));
        }
        let slash = find_first(cs, start, n, '/');
        let (ps, pe) = if slash < n {
            (slash + 1, n)
        } else {
            (n, n)
        };
        let colon = find_first(cs, start, slash, ':');
        let port = if colon < slash {
            read_port(cs, colon + 1, slash)
        } else {
            Some(protocol.default_port())
        };
        let port = match port {
            Some(p) => p,
            None => {
                let digits = string_of(vstd::slice::slice_subrange(cs, colon + 1, slash));
                let reason = String::from_str("Invalid port: ").concat(digits.as_str());
                return Err(
                    AudioEngineError::InvalidStreamUrl { url: String::from_str(url), reason },
                );
            },
        };
        if colon == start {
            return Err(
                AudioEngineError::InvalidStreamUrl {
                    url: String::from_str(url),
                    reason: String::from_str("Empty Host"),
                },
            );
        }
        let host = string_of(vstd::slice::slice_subrange(cs, start, colon));
        let (path, stream_key) = match protocol {
            NetworkProtocol::RTMP => {
                let k = find_last(cs, ps, pe, '/');
                if k < pe {
                    (
                        string_of(vstd::slice::slice_subrange(cs, ps, k)),
                        Some(string_of(vstd::slice::slice_subrange(cs, k + 1, pe))),
                    )
                } else if ps < pe {
                    (String::new(), Some(string_of(vstd::slice::slice_subrange(cs, ps, pe))))
                } else {
                    (String::new(), None)
                }
            },
            _ => (string_of(vstd::slice::slice_subrange(cs, ps, pe)), None),
        };
        Ok(StreamUrl { raw: String::from_str(url), protocol, host, port, path, stream_key })
    }

    /// Parses a stream URL, ignoring surrounding white space.
    pub fn parse(url: &str) -> (r: Result<StreamUrl, AudioEngineError>)
        ensures
            parse_url(trim_of(url@)) is Ok <==> r is Ok,
            r is Ok ==> r->Ok_0.parts() == parse_url(trim_of(url@))->Ok_0 && r->Ok_0.spec_raw()
                == trim_of(url@),
            r is Err ==> r->Err_0 is InvalidStreamUrl && r->Err_0->InvalidStreamUrl_url@
                == trim_of(url@) && r->Err_0->InvalidStreamUrl_reason@ == parse_url(
                trim_of(url@),
            )->Err_0,
    {
        StreamUrl::parse_trimmed(trimmed(url))
    }

    /// Returns the URL as given.
    pub fn as_str(&self) -> (r: &str)
        ensures
            r@ == self.spec_raw(),
    {
        self.raw.as_str()
    }

    /// Returns the protocol.
    pub fn protocol(&self) -> (r: NetworkProtocol)
        ensures
            r == self.parts().0,
    {
        self.protocol
    }

    /// Returns the host.
    pub fn host(&self) -> (r: &str)
        ensures
            r@ == self.parts().1,
    {
        self.host.as_str()
    }

    /// Returns the port.
    pub fn port(&self) -> (r: u16)
        ensures
            r == self.parts().2,
    {
        self.port
    }

    /// Returns the path.
    pub fn path(&self) -> (r: &str)
        ensures
            r@ == self.parts().3,
    {
        self.path.as_str()
    }

    /// Returns the stream key (RTMP only).
    pub fn stream_key(&self) -> (r: Option<&str>)
        ensures
            self.parts().4 is None ==> r is None,
            self.parts().4 is Some ==> r is Some && r->0@ == self.parts().4->0,
    {
        match &self.stream_key {
            Some(k) => Some(k.as_str()),
            None => None,
        }
    }
}

/// Stream bitrate in bits per second.
#[derive(Debug, Clone, Copy, PartialEq, Eq, Hash, Structural)]
pub struct StreamBitrate {
    bps: u32,
}

impl StreamBitrate {
    /// The rate in bits per second.
    pub closed spec fn spec_bps(&self) -> u32 {
        self.bps
    }

    /// Creates a bitrate from bits per second.
    pub fn from_bps(bps: u32) -> (r: StreamBitrate)
        ensures
            r.spec_bps() == bps,
    {
        StreamBitrate { bps }
    }

    /// Creates a bitrate from kilobits per second.
    pub fn from_kbps(kbps: u32) -> (r: StreamBitrate)
        requires
            kbps * 1000 <= u32::MAX,
        ensures
            r.spec_bps() == kbps * 1000,
    {
        StreamBitrate { bps: kbps * 1000 }
    }

    /// Returns the bitrate in bits per second.
    pub fn as_bps(self) -> (r: u32)
        ensures
            r == self.spec_bps(),
    {
        self.bps
    }

    /// Returns the bitrate in whole kilobits per second.
    pub fn as_kbps(self) -> (r: u32)
        ensures
            r == self.spec_bps() / 1000,
    {
        self.bps / 1000
    }
}

impl Default for StreamBitrate {
    fn default() -> (r: StreamBitrate)
        ensures
            r.spec_bps() == 192_000,
    {
        StreamBitrate { bps: 192_000 }
    }
}

} // verus!
