//! The logic of the HTTP routes: reading node ids from paths and building the answers.
use vstd::prelude::*;
use vstd::string::StrSliceExecFns;
use crate::network::messages::{ConnectNode, DisconnectNode};
use crate::network::GetNode;
use crate::NodeInfo;
use crate::text::{decimal, digit_char};
use super::entities::{
    self, NodeInfoMessage, RaftProtocolResponse, ResponseResult,
    raft_protocol_command_response::Response,
};

verus! {

/// Whether `c` is white space (the Unicode `White_Space` property).
pub open spec fn is_white_space(c: char) -> bool {
    ||| ('\u{9}' <= c && c <= '\u{d}')
    ||| c == ' '
    ||| c == '\u{85}'
    ||| c == '\u{a0}'
    ||| c == '\u{1680}'
    ||| ('\u{2000}' <= c && c <= '\u{200a}')
    ||| c == '\u{2028}'
    ||| c == '\u{2029}'
    ||| c == '\u{202f}'
    ||| c == '\u{205f}'
    ||| c == '\u{3000}'
}

/// `s` without its leading white space.
pub open spec fn trim_start(s: Seq<char>) -> Seq<char>
    decreases s.len(),
{
    if s.len() > 0 && is_white_space(s[0]) {
        trim_start(s.drop_first())
    } else {
        s
    }
}

/// `s` without its trailing white space.
pub open spec fn trim_end(s: Seq<char>) -> Seq<char>
    decreases s.len(),
{
    if s.len() > 0 && is_white_space(s.last()) {
        trim_end(s.drop_last())
    } else {
        s
    }
}

/// `s` without its leading and trailing white space.
pub open spec fn trimmed(s: Seq<char>) -> Seq<char> {
    trim_end(trim_start(s))
}

/// Why a text is not an unsigned integer.
#[derive(Debug, Clone, Copy, PartialEq, Eq, Structural)]
pub enum IntErrorKind {
    /// The text is empty.
    Empty,
    /// The text holds a character that is not a digit.
    InvalidDigit,
    /// The number does not fit in the integer type.
    PosOverflow,
}

/// The error of reading an unsigned integer.
#[derive(Debug, Clone, Copy, PartialEq, Eq, Structural)]
pub struct ParseIntError {
    pub kind: IntErrorKind,
}

/// Whether `c` is an ASCII decimal digit.
pub open spec fn is_digit(c: char) -> bool {
    '0' <= c && c <= '9'
}

/// The value of a decimal digit.
pub open spec fn digit_value(c: char) -> nat {
    (c as nat - '0' as nat) as nat
}

/// Reads the digits of `d` from left to right: the first character that is not a digit, or
/// the first digit that makes the number exceed `u64::MAX`, ends the reading with an error.
pub open spec fn read_digits(d: Seq<char>) -> Result<nat, IntErrorKind>
    decreases d.len(),
{
    if d.len() == 0 {
        Ok(0)
    } else {
        match read_digits(d.drop_last()) {
            Err(e) => Err(e),
            Ok(v) => if !is_digit(d.last()) {
                Err(IntErrorKind::InvalidDigit)
            } else if v * 10 + digit_value(d.last()) > u64::MAX {
                Err(IntErrorKind::PosOverflow)
            } else {
                Ok(v * 10 + digit_value(d.last()))
            },
        }
    }
}

/// The `u64` a text denotes, as `str::parse::<u64>` reads it: an optional leading `+`, then
/// one or more decimal digits.
pub open spec fn parse_u64_spec(s: Seq<char>) -> Result<nat, IntErrorKind> {
    if s.len() == 0 {
        Err(IntErrorKind::Empty)
    } else if (s[0] == '+' || s[0] == '-') && s.len() == 1 {
        Err(IntErrorKind::InvalidDigit)
    } else if s[0] == '+' {
        read_digits(s.drop_first())
    } else {
        read_digits(s)
    }
}

/// Whether `c` is white space (the Unicode `White_Space` property).
pub fn white_space(c: char) -> (r: bool)
    ensures
        r == is_white_space(c),
{
    ('\u{9}' <= c && c <= '\u{d}') || c == ' ' || c == '\u{85}' || c == '\u{a0}' || c == '\u{1680}'
        || ('\u{2000}' <= c && c <= '\u{200a}') || c == '\u{2028}' || c == '\u{2029}' || c
        == '\u{202f}' || c == '\u{205f}' || c == '\u{3000}'
}

proof fn lemma_trim_start_step(s: Seq<char>, a: int)
    requires
        0 <= a < s.len(),
        is_white_space(s[a]),
    ensures
        trim_start(s.subrange(a, s.len() as int)) == trim_start(s.subrange(a + 1, s.len() as int)),
{
    let t = s.subrange(a, s.len() as int);
    assert(t.drop_first() == s.subrange(a + 1, s.len() as int));
}

proof fn lemma_trim_end_step(s: Seq<char>, a: int, b: int)
    requires
        0 <= a < b <= s.len(),
        is_white_space(s[b - 1]),
    ensures
        trim_end(s.subrange(a, b)) == trim_end(s.subrange(a, b - 1)),
{
    let t = s.subrange(a, b);
    assert(t.drop_last() == s.subrange(a, b - 1));
}

/// `s` without its leading and trailing white space.
pub fn trim(s: &str) -> (r: String)
    ensures
        r@ == trimmed(s@),
{
    let n = s.unicode_len();
    let mut a: usize = 0;
    assert(s@.subrange(0, n as int) == s@);
    while a < n && white_space(s.get_char(a))
        invariant
            n == s@.len(),
            a <= n,
            trim_start(s@) == trim_start(s@.subrange(a as int, n as int)),
        decreases n - a,
    {
        proof {
            lemma_trim_start_step(s@, a as int);
        }
        a = a + 1;
    }
    assert(trim_start(s@.subrange(a as int, n as int)) == s@.subrange(a as int, n as int));
    let mut b: usize = n;
    while b > a && white_space(s.get_char(b - 1))
        invariant
            n == s@.len(),
            a <= b <= n,
            trim_end(s@.subrange(a as int, n as int)) == trim_end(s@.subrange(a as int, b as int)),
        decreases b - a,
    {
        proof {
            lemma_trim_end_step(s@, a as int, b as int);
        }
        b = b - 1;
    }
    assert(trim_end(s@.subrange(a as int, b as int)) == s@.subrange(a as int, b as int));
    s.substring_char(a, b).to_owned()
}

/// Reads a `u64` as `str::parse::<u64>` does: an optional leading `+`, then one or more
/// decimal digits that fit.
pub fn parse_u64(s: &str) -> (r: Result<u64, ParseIntError>)
    ensures
        match parse_u64_spec(s@) {
            Ok(v) => r == Ok::<u64, ParseIntError>(v as u64),
            Err(k) => r == Err::<u64, ParseIntError>(ParseIntError { kind: k }),
        },
{
    let n = s.unicode_len();
    if n == 0 {
        return Err(ParseIntError { kind: IntErrorKind::Empty });
    }
    let c0 = s.get_char(0);
    if (c0 == '+' || c0 == '-') && n == 1 {
        return Err(ParseIntError { kind: IntErrorKind::InvalidDigit });
    }
    let start: usize = if c0 == '+' {
        1
    } else {
        0
    };
    let ghost d = s@.subrange(start as int, n as int);
    assert(c0 == '+' ==> d == s@.drop_first());
    assert(c0 != '+' ==> d == s@);
    assert(parse_u64_spec(s@) == read_digits(d));
    let mut acc: u64 = 0;
    let mut i: usize = start;
    while i < n
        invariant
            start <= i <= n,
            n == s@.len(),
            d == s@.subrange(start as int, n as int),
            parse_u64_spec(s@) == read_digits(d),
            read_digits(d.take(i - start)) == Ok::<nat, IntErrorKind>(acc as nat),
        decreases n - i,
    {
        let c = s.get_char(i);
        proof {
            let t = d.take(i - start + 1);
            assert(t.drop_last() == d.take(i - start));
            assert(t.last() == c);
        }
        if !('0' <= c && c <= '9') {
            proof {
                lemma_read_digits_error_sticks(d, (i - start + 1) as int);
                assert(read_digits(d) == Err::<nat, IntErrorKind>(IntErrorKind::InvalidDigit));
            }
            return Err(ParseIntError { kind: IntErrorKind::InvalidDigit });
        }
        let v: u128 = (acc as u128) * 10 + ((c as u32) - 48) as u128;
        if v > u64::MAX as u128 {
            proof {
                lemma_read_digits_error_sticks(d, (i - start + 1) as int);
                assert(read_digits(d) == Err::<nat, IntErrorKind>(IntErrorKind::PosOverflow));
            }
            return Err(ParseIntError { kind: IntErrorKind::PosOverflow });
        }
        acc = v as u64;
        i = i + 1;
    }
    assert(d.take(n - start) == d);
    Ok(acc)
}

/// Once reading a prefix fails, reading the whole fails the same way.
proof fn lemma_read_digits_error_sticks(d: Seq<char>, k: int)
    requires
        0 <= k <= d.len(),
        read_digits(d.take(k)) is Err,
    ensures
        read_digits(d) == read_digits(d.take(k)),
    decreases d.len() - k,
{
    if k < d.len() {
        let t = d.take(k + 1);
        assert(t.drop_last() == d.take(k));
        lemma_read_digits_error_sticks(d, k + 1);
    } else {
        assert(d.take(k) == d);
    }
}

/// The node id of a route's `uid` segment: the segment, or nothing, trimmed and read as a
/// `u64`.
pub fn node_id_from_path(uid: Option<&str>) -> (r: Result<u64, ParseIntError>)
    ensures
        match parse_u64_spec(
            trimmed(
                match uid {
                    Some(u) => u@,
                    None => Seq::<char>::empty(),
                },
            ),
        ) {
            Ok(v) => r == Ok::<u64, ParseIntError>(v as u64),
            Err(k) => r == Err::<u64, ParseIntError>(ParseIntError { kind: k }),
        },
{
    let raw: &str = match uid {
        Some(u) => u,
        None => "",
    };
    proof {
        reveal_strlit("");
    }
    let t = trim(raw);
    parse_u64(t.as_str())
}

/// The command that connects the node a registration names to the network.
pub fn connect_command(body: NodeInfoMessage) -> (r: ConnectNode)
    requires
        body.node_id is Some,
        body.node_info is Some,
    ensures
        r.id == body.node_id->0.id,
        r.info.name == body.node_info->0.name,
        r.info.cluster_address == body.node_info->0.cluster_address,
        r.info.app_address == body.node_info->0.app_address,
        r.info.public_address == body.node_info->0.public_address,
{
    let id = match body.node_id {
        Some(n) => n.id,
        None => 0,
    };
    let info = match body.node_info {
        Some(i) => i.into_info(),
        None => NodeInfo::default(),
    };
    ConnectNode { id, info }
}

/// The answer to a registration of node `nid` once the network acknowledged it: a
/// connection acknowledgement naming the node.
pub fn connect_response(nid: u64) -> (r: RaftProtocolResponse)
    ensures
        (r.response matches Some(Response::Result(res)) && res == (
        ResponseResult::ConnectionAcknowledged {
            node_id: Some((entities::NodeId { id: nid })),
        })),
{
    RaftProtocolResponse {
        response: Some(
            Response::Result(
                ResponseResult::ConnectionAcknowledged {
                    node_id: Some(entities::NodeId { id: nid }),
                },
            ),
        ),
    }
}

/// The command that disconnects node `nid` from the network.
pub fn disconnect_command(nid: u64) -> (r: DisconnectNode)
    ensures
        r == DisconnectNode(nid),
{
    DisconnectNode(nid)
}

/// The request for node `nid`'s info.
pub fn node_query(nid: u64) -> (r: GetNode)
    ensures
        r.node_id == Some(nid),
        r.cluster_address is None,
{
    GetNode::for_id(nid)
}

/// The body answering a request for a node: its id and, if known, its wire info.
pub fn node_body(node_id: u64, info: Option<NodeInfo>) -> (r: (u64, Option<entities::NodeInfo>))
    ensures
        r.0 == node_id,
        r.1 is Some <==> info is Some,
        (r.1 matches Some(w) ==> (info matches Some(i) && w.name == i.name && w.cluster_address
            == i.cluster_address && w.app_address == i.app_address && w.public_address
            == i.public_address)),
{
    let wire = match info {
        Some(i) => Some(entities::NodeInfo::from_info(i)),
        None => None,
    };
    (node_id, wire)
}

/// Every character of a decimal rendering is a digit.
proof fn lemma_decimal_digits(n: nat)
    ensures
        decimal(n).len() > 0,
        forall|i: int| 0 <= i < decimal(n).len() ==> is_digit(#[trigger] decimal(n)[i]),
    decreases n,
{
    if n >= 10 {
        lemma_decimal_digits(n / 10);
        assert(is_digit(digit_char(n % 10)));
    } else {
        assert(is_digit(digit_char(n)));
    }
}

/// Reading back the decimal rendering of a number gives the number.
proof fn lemma_read_decimal(n: nat)
    requires
        n <= u64::MAX,
    ensures
        read_digits(decimal(n)) == Ok::<nat, IntErrorKind>(n),
    decreases n,
{
    let d = decimal(n);
    if n < 10 {
        assert(d.drop_last() =~= Seq::<char>::empty());
        assert(read_digits(d.drop_last()) == Ok::<nat, IntErrorKind>(0));
        assert(d.last() == digit_char(n));
        assert(is_digit(digit_char(n)));
        assert(digit_value(digit_char(n)) == n);
    } else {
        lemma_read_decimal(n / 10);
        assert(d.drop_last() == decimal(n / 10));
        assert(d.last() == digit_char(n % 10));
        assert(is_digit(digit_char(n % 10)));
        assert(digit_value(digit_char(n % 10)) == n % 10);
        assert((n / 10) * 10 + n % 10 == n);
    }
}

/// The node id a route reads from a path segment is the id the segment was written from:
/// the decimal rendering of a `u64`, trimmed and read, gives it back.
pub proof fn law_node_path_round_trip(n: u64)
    ensures
        trimmed(decimal(n as nat)) == decimal(n as nat),
        parse_u64_spec(trimmed(decimal(n as nat))) == Ok::<nat, IntErrorKind>(n as nat),
{
    let d = decimal(n as nat);
    lemma_decimal_digits(n as nat);
    assert(is_digit(d[0]));
    assert(is_digit(d.last()));
    assert(!is_white_space(d[0]));
    assert(trim_start(d) == d);
    assert(trim_end(d) == d);
    lemma_read_decimal(n as nat);
}

} // verus!
