use vstd::prelude::*;
use vstd::string::StrSliceExecFns;
use crate::error::{ErrorKind, RagError};

verus! {

/// Where the inference backend listens.
#[derive(Debug, Clone)]
pub struct OllamaSettings {
    pub host: String,
    pub port: u16,
}

/// Which vector store and collection records go to.
#[derive(Debug, Clone)]
pub struct QdrantSettings {
    pub server: String,
    pub collection: String,
}

pub open spec fn is_digit(c: char) -> bool {
    '0' <= c <= '9'
}

/// The number written by decimal digits, most significant first.
pub open spec fn digits_value(s: Seq<char>) -> nat
    decreases s.len(),
{
    if s.len() == 0 {
        0
    } else {
        digits_value(s.drop_last()) * 10 + (s.last() as nat - '0' as nat) as nat
    }
}

/// The digits of a port number, after an optional leading `+`.
pub open spec fn unsigned_digits(s: Seq<char>) -> Seq<char> {
    if s.len() > 0 && s[0] == '+' {
        s.drop_first()
    } else {
        s
    }
}

/// The port number that the text denotes, if it is one: decimal digits with
/// an optional leading `+`, at most 65535.
pub open spec fn port_of(s: Seq<char>) -> Option<u16> {
    let d = unsigned_digits(s);
    if d.len() > 0 && (forall|i: int| 0 <= i < d.len() ==> is_digit(#[trigger] d[i]))
        && digits_value(d) <= 65535 {
        Some(digits_value(d) as u16)
    } else {
        None
    }
}

/// Reads a port number written in decimal.
pub fn parse_port(s: &str) -> (r: Option<u16>)
    ensures
        r == port_of(s@),
{
    let n = s.unicode_len();
    let mut i: usize = 0;
    if n > 0 && s.get_char(0) == '+' {
        i = 1;
    }
    let start = i;
    let ghost d = unsigned_digits(s@);
    assert(d =~= s@.subrange(start as int, n as int));
    if start == n {
        return None;
    }
    let mut value: u32 = 0;
    while i < n
        invariant
            start <= i <= n,
            n == s@.len(),
            d == s@.subrange(start as int, n as int),
            d == unsigned_digits(s@),
            forall|k: int| 0 <= k < i - start ==> is_digit(#[trigger] d[k]),
            value as nat == if digits_value(d.take(i - start)) < 65536 {
                digits_value(d.take(i - start))
            } else {
                65536
            },
        decreases n - i,
    {
        let c = s.get_char(i);
        if c < '0' || c > '9' {
            assert(d[i - start] == c);
            assert(!is_digit(d[i - start]));
            assert(!(forall|k: int| 0 <= k < d.len() ==> is_digit(#[trigger] d[k])));
            return None;
        }
        let digit: u32 = (c as u32) - ('0' as u32);
        let ghost before = digits_value(d.take(i - start));
        assert(d.take(i - start + 1).drop_last() =~= d.take(i - start));
        assert(digits_value(d.take(i - start + 1)) == before * 10 + digit);
        if value >= 65536 {
            assert(before * 10 + digit >= 65536) by (nonlinear_arith)
                requires
                    before >= 65536,
            ;
            value = 65536;
        } else {
            let next = value * 10 + digit;
            value = if next >= 65536 {
                65536
            } else {
                next
            };
        }
        i = i + 1;
    }
    assert(d.take(n - start) =~= d);
    if value > 65535 {
        None
    } else {
        Some(value as u16)
    }
}

fn missing(what: &str) -> (r: RagError)
    ensures
        r.kind == ErrorKind::ConfigurationMissing,
{
    RagError::new(ErrorKind::ConfigurationMissing, what)
}

/// The inference backend's settings, from the configured host and port text.
/// Fails with `ConfigurationMissing` when either is absent or the port is not
/// a port number.
pub fn ollama_settings(host: Option<String>, port: Option<String>) -> (r: Result<
    OllamaSettings,
    RagError,
>)
    ensures
        r is Ok <==> host is Some && port is Some && port_of(port->Some_0@) is Some,
        r is Ok ==> r->Ok_0.host@ == host->Some_0@ && Some(r->Ok_0.port) == port_of(
            port->Some_0@,
        ),
        r is Err ==> r->Err_0.kind == ErrorKind::ConfigurationMissing,
{
    let host = match host {
        Some(h) => h,
        None => return Err(missing("inference host is not set")),
    };
    let port_text = match port {
        Some(p) => p,
        None => return Err(missing("inference port is not set")),
    };
    match parse_port(port_text.as_str()) {
        Some(port) => Ok(OllamaSettings { host, port }),
        None => Err(missing("inference port is not a port number")),
    }
}

/// The vector store's settings. Fails with `ConfigurationMissing` when the
/// server or the collection is absent.
pub fn qdrant_settings(server: Option<String>, collection: Option<String>) -> (r: Result<
    QdrantSettings,
    RagError,
>)
    ensures
        r is Ok <==> server is Some && collection is Some,
        r is Ok ==> r->Ok_0.server@ == server->Some_0@ && r->Ok_0.collection@
            == collection->Some_0@,
        r is Err ==> r->Err_0.kind == ErrorKind::ConfigurationMissing,
{
    let server = match server {
        Some(s) => s,
        None => return Err(missing("vector store server is not set")),
    };
    match collection {
        Some(collection) => Ok(QdrantSettings { server, collection }),
        None => Err(missing("vector store collection is not set")),
    }
}

} // verus!
