use vstd::prelude::*;
use vstd::string::*;

verus! {

/// The port search wraps within the ports below this bound: a port at or
/// above it is reached only as the requested one.
pub const PORT_WINDOW: u16 = 1000;

/// Failed binds after which the port search gives up.
pub const MAX_RETRIES: u8 = 10;

/// The port used when the caller asks for none.
pub const DEFAULT_PORT: u16 = 7748;

/// The decimal digit `d`.
pub open spec fn digit(d: nat) -> char {
    "0123456789"@[d as int]
}

/// `n` written in decimal, without leading zeros.
pub open spec fn decimal(n: nat) -> Seq<char>
    decreases n,
{
    if n < 10 {
        seq![digit(n)]
    } else {
        decimal(n / 10) + seq![digit(n % 10)]
    }
}

fn append_decimal(out: &mut String, n: u16)
    ensures
        final(out)@ == old(out)@ + decimal(n as nat),
    decreases n,
{
    if n >= 10 {
        append_decimal(out, n / 10);
    }
    let d = (n % 10) as usize;
    let digits = "0123456789";
    proof {
        reveal_strlit("0123456789");
    }
    out.append(digits.substring_char(d, d + 1));
    assert(digits@.subrange(d as int, d + 1) =~= seq![digit(d as nat)]);
    assert(out@ =~= old(out)@ + decimal(n as nat));
}

/// An IPv4 socket address: four address bytes and a port.
#[derive(Clone, Copy, Debug)]
pub struct Address {
    pub ip: [u8; 4],
    pub port: u16,
}

/// The URL under which a server bound to `a` is reached: scheme, host and
/// port, no path.
pub open spec fn base_url_of(a: Address) -> Seq<char> {
    "http://"@ + decimal(a.ip@[0] as nat) + "."@ + decimal(a.ip@[1] as nat) + "."@ + decimal(
        a.ip@[2] as nat,
    ) + "."@ + decimal(a.ip@[3] as nat) + ":"@ + decimal(a.port as nat)
}

impl Address {
    /// The loopback address on the default port.
    pub fn local_default() -> (r: Address)
        ensures
            r.ip@ == seq![127u8, 0, 0, 1],
            r.port == DEFAULT_PORT,
    {
        let r = Address { ip: [127, 0, 0, 1], port: DEFAULT_PORT };
        assert(r.ip@ =~= seq![127u8, 0, 0, 1]);
        r
    }

    /// The URL under which a server bound here is reached.
    pub fn base_url(&self) -> (r: String)
        ensures
            r@ == base_url_of(*self),
    {
        let mut out = String::from_str("http://");
        append_decimal(&mut out, self.ip[0] as u16);
        out.append(".");
        append_decimal(&mut out, self.ip[1] as u16);
        out.append(".");
        append_decimal(&mut out, self.ip[2] as u16);
        out.append(".");
        append_decimal(&mut out, self.ip[3] as u16);
        out.append(":");
        append_decimal(&mut out, self.port);
        out
    }
}

/// The port tried after `port`: one up, wrapping within the window.
pub open spec fn next_port(port: u16) -> u16 {
    ((port as int + 1) % (PORT_WINDOW as int)) as u16
}

/// The port tried after `k` failed binds that started at `start`.
pub open spec fn candidate(start: u16, k: nat) -> u16
    decreases k,
{
    if k == 0 {
        start
    } else {
        next_port(candidate(start, (k - 1) as nat))
    }
}

/// A search for a port to bind: the port to try next and the failed binds so
/// far. The caller binds, and reports each failure.
#[derive(Clone, Copy, Debug, PartialEq, Eq, Structural)]
pub struct PortSearch {
    pub port: u16,
    pub failures: u8,
}

impl PortSearch {
    /// The search before any bind, at the requested port.
    pub open spec fn initial(start: u16) -> PortSearch {
        PortSearch { port: start, failures: 0 }
    }

    /// The search has used up its retries.
    pub open spec fn gave_up(self) -> bool {
        self.failures > MAX_RETRIES
    }

    /// The search after one more failed bind.
    pub open spec fn after_failure(self) -> PortSearch {
        if self.failures >= MAX_RETRIES {
            PortSearch { port: self.port, failures: (MAX_RETRIES + 1) as u8 }
        } else {
            PortSearch { port: next_port(self.port), failures: (self.failures + 1) as u8 }
        }
    }

    /// Starts a search at the requested port.
    pub fn new(start: u16) -> (r: PortSearch)
        ensures
            r == PortSearch::initial(start),
    {
        PortSearch { port: start, failures: 0 }
    }

    /// Records that binding `self.port` failed. Gives the port to try next,
    /// or `None` once more than `MAX_RETRIES` binds have failed.
    pub fn record_failure(&mut self) -> (r: Option<u16>)
        ensures
            *final(self) == old(self).after_failure(),
            r == (if final(self).gave_up() {
                None
            } else {
                Some(final(self).port)
            }),
    {
        if self.failures >= MAX_RETRIES {
            self.failures = MAX_RETRIES + 1;
            None
        } else {
            self.port = ((self.port as u32 + 1) % (PORT_WINDOW as u32)) as u16;
            self.failures = self.failures + 1;
            Some(self.port)
        }
    }
}

/// The search after `n` failed binds from `start`.
pub open spec fn searched(start: u16, n: nat) -> PortSearch
    decreases n,
{
    if n == 0 {
        PortSearch::initial(start)
    } else {
        searched(start, (n - 1) as nat).after_failure()
    }
}

/// With at most `MAX_RETRIES` ports in a row unavailable from the requested
/// one, the search goes on and offers the next candidate, so that a bind
/// succeeds on the one after them; with more, it has given up.
pub proof fn lemma_port_search(start: u16, n: nat)
    ensures
        n <= MAX_RETRIES ==> !searched(start, n).gave_up() && searched(start, n).port == candidate(
            start,
            n,
        ) && searched(start, n).failures == n,
        n > MAX_RETRIES ==> searched(start, n).gave_up(),
    decreases n,
{
    if n > 0 {
        lemma_port_search(start, (n - 1) as nat);
    }
}

} // verus!
