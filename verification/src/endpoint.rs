//! The endpoint grammar: `host:port`.
//!
//! A malformed endpoint is the one fatal configuration fault of the
//! process, so what counts as well formed is pinned down here, byte by
//! byte: everything before the last colon is the host and must be
//! nonempty; everything after it is the port, one to five ASCII digits
//! whose value fits a 16-bit port number. The split is at the *last*
//! colon so that hosts which themselves contain colons keep their port.

use vstd::prelude::*;
use crate::errors::ConfigError;

verus! {

/// The byte `:` that separates host from port.
pub const COLON: u8 = 58;

/// Whether a byte is an ASCII decimal digit.
pub open spec fn is_ascii_digit(b: u8) -> bool {
    48 <= b && b <= 57
}

/// Whether every byte of the sequence is an ASCII decimal digit.
pub open spec fn all_ascii_digits(s: Seq<u8>) -> bool {
    forall|i: int| 0 <= i < s.len() ==> is_ascii_digit(s[i])
}

/// The number a sequence of ASCII digits denotes, most significant first.
pub open spec fn digits_val(s: Seq<u8>) -> int
    decreases s.len(),
{
    if s.len() == 0 {
        0
    } else {
        digits_val(s.drop_last()) * 10 + (s.last() - 48)
    }
}

/// The index of the last colon in the sequence, or -1 if there is none.
pub open spec fn last_colon(s: Seq<u8>) -> int
    decreases s.len(),
{
    if s.len() == 0 {
        -1
    } else if s.last() == COLON {
        s.len() - 1
    } else {
        last_colon(s.drop_last())
    }
}

/// The ten-th power, for bounding a run of decimal digits.
pub open spec fn pow10(n: nat) -> int
    decreases n,
{
    if n == 0 {
        1
    } else {
        10 * pow10((n - 1) as nat)
    }
}

/// The port part of an endpoint: everything after the last colon.
pub open spec fn port_part(s: Seq<u8>) -> Seq<u8> {
    s.subrange(last_colon(s) + 1, s.len() as int)
}

/// The host part of an endpoint: everything before the last colon.
pub open spec fn host_part(s: Seq<u8>) -> Seq<u8> {
    s.subrange(0, last_colon(s))
}

/// The endpoint grammar: a nonempty host, the last colon, then one to
/// five ASCII digits denoting at most 65535.
pub open spec fn valid_endpoint(s: Seq<u8>) -> bool {
    &&& last_colon(s) >= 1
    &&& 1 <= port_part(s).len() <= 5
    &&& all_ascii_digits(port_part(s))
    &&& digits_val(port_part(s)) <= 65535
}

/// A parsed endpoint: the host bytes and the port number.
#[derive(Debug)]
pub struct Endpoint {
    /// The host, exactly the bytes before the last colon.
    pub host: Vec<u8>,
    /// The port the digits after the last colon denote.
    pub port: u16,
}

/// A sequence with no colon at or after position `j` keeps its last colon
/// inside its first `j` bytes.
proof fn lemma_last_colon_in_prefix(s: Seq<u8>, j: int)
    requires
        0 <= j <= s.len(),
        forall|k: int| j <= k < s.len() ==> s[k] != COLON,
    ensures
        last_colon(s) == last_colon(s.take(j)),
    decreases s.len() - j,
{
    if j == s.len() {
        assert(s.take(j) =~= s);
    } else {
        assert(s.take(s.len() as int - 1) =~= s.drop_last());
        lemma_last_colon_in_prefix(s.drop_last(), j);
        assert(s.drop_last().take(j) =~= s.take(j));
    }
}

/// A run of digits of bounded length denotes a bounded number.
proof fn lemma_digits_val_bound(s: Seq<u8>)
    requires
        all_ascii_digits(s),
    ensures
        0 <= digits_val(s) < pow10(s.len()),
    decreases s.len(),
{
    if s.len() > 0 {
        lemma_digits_val_bound(s.drop_last());
    }
}

/// Parse an endpoint given as bytes.
///
/// Returns the host and port exactly when the input meets the grammar,
/// and the one configuration error otherwise — this decision is fatal to
/// the caller, never retried.
pub fn parse_endpoint(s: &Vec<u8>) -> (r: Result<Endpoint, ConfigError>)
    ensures
        r is Ok <==> valid_endpoint(s@),
        r matches Ok(e) ==> e.host@ == host_part(s@) && e.port == digits_val(port_part(s@)),
        r is Err ==> r == Err::<Endpoint, ConfigError>(ConfigError::BadEndpoint),
{
    let n = s.len();
    let mut j: usize = n;
    while j > 0 && s[j - 1] != COLON
        invariant
            j <= n,
            n == s@.len(),
            forall|k: int| j <= k < n ==> s@[k] != COLON,
        decreases j,
    {
        j = j - 1;
    }
    if j == 0 {
        proof {
            lemma_last_colon_in_prefix(s@, 0);
            assert(s@.take(0).len() == 0);
        }
        return Err(ConfigError::BadEndpoint);
    }
    let c = j - 1;
    proof {
        lemma_last_colon_in_prefix(s@, c + 1);
        assert(s@.take(c + 1).last() == COLON);
        assert(last_colon(s@) == c);
    }
    if c == 0 {
        return Err(ConfigError::BadEndpoint);
    }
    let plen = n - c - 1;
    if plen == 0 || plen > 5 {
        return Err(ConfigError::BadEndpoint);
    }
    let mut val: u32 = 0;
    let mut k: usize = c + 1;
    while k < n
        invariant
            c + 1 <= k <= n,
            n == s@.len(),
            c + 1 < n,
            n - c - 1 <= 5,
            last_colon(s@) == c,
            all_ascii_digits(s@.subrange(c + 1, k as int)),
            val == digits_val(s@.subrange(c + 1, k as int)),
            val < pow10((k - c - 1) as nat),
        decreases n - k,
    {
        let b = s[k];
        if b < 48 || b > 57 {
            proof {
                assert(port_part(s@)[k - c - 1] == b);
            }
            return Err(ConfigError::BadEndpoint);
        }
        proof {
            let pre = s@.subrange(c + 1, k as int);
            let post = s@.subrange(c + 1, k + 1 as int);
            assert(post.drop_last() =~= pre);
            assert(post.last() == b);
            assert(pow10((k + 1 - c - 1) as nat) == 10 * pow10((k - c - 1) as nat));
            assert(pow10(0) == 1);
            assert(pow10(1) == 10);
            assert(pow10(2) == 100);
            assert(pow10(3) == 1000);
            assert(pow10(4) == 10000);
            assert(k - c - 1 <= 4);
        }
        val = val * 10 + ((b - 48) as u32);
        k = k + 1;
    }
    proof {
        assert(s@.subrange(c + 1, n as int) =~= port_part(s@));
    }
    if val > 65535 {
        return Err(ConfigError::BadEndpoint);
    }
    let mut host: Vec<u8> = Vec::new();
    let mut i: usize = 0;
    while i < c
        invariant
            i <= c,
            c < n,
            n == s@.len(),
            host@ == s@.subrange(0, i as int),
        decreases c - i,
    {
        host.push(s[i]);
        proof {
            assert(s@.subrange(0, i + 1 as int) =~= s@.subrange(0, i as int).push(s@[i as int]));
        }
        i = i + 1;
    }
    proof {
        assert(host@ =~= host_part(s@));
    }
    Ok(Endpoint { host, port: val as u16 })
}

} // verus!
