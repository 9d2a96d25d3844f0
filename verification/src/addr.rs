//! Parsing and printing of the listener addresses the triggers bind, in
//! the dotted-quad `a.b.c.d:port` form the engines configure.

use vstd::prelude::*;

use crate::text::{split_on, split_str};

verus! {

/// A decimal digit.
pub open spec fn is_digit(c: char) -> bool {
    '0' <= c <= '9'
}

/// The numeric value of a digit character.
pub open spec fn digit_val(c: char) -> nat {
    (c as int - '0' as int) as nat
}

/// A nonempty, all-digit character sequence.
pub open spec fn all_digits(s: Seq<char>) -> bool {
    s.len() > 0 && forall|i: int| 0 <= i < s.len() ==> is_digit(#[trigger] s[i])
}

/// The value of a digit sequence read in base ten.
pub open spec fn dec_value(s: Seq<char>) -> nat
    decreases s.len(),
{
    if s.len() == 0 {
        0
    } else {
        10 * dec_value(s.drop_last()) + digit_val(s.last())
    }
}

proof fn lemma_dec_value_prefix(s: Seq<char>, i: int)
    requires
        0 <= i <= s.len(),
    ensures
        dec_value(s.subrange(0, i)) <= dec_value(s),
    decreases s.len() - i,
{
    if i == s.len() {
        assert(s.subrange(0, i) =~= s);
    } else {
        assert(s.subrange(0, i + 1).drop_last() =~= s.subrange(0, i));
        assert(dec_value(s.subrange(0, i)) <= dec_value(s.subrange(0, i + 1)));
        lemma_dec_value_prefix(s, i + 1);
    }
}

/// Reads a bounded decimal number: `Some` exactly when `s` is nonempty,
/// all digits, and its value is at most `max`.
pub fn parse_dec(s: &str, max: u32) -> (r: Option<u32>)
    ensures
        r matches Some(v) ==> all_digits(s@) && v == dec_value(s@) && v <= max,
        r is None ==> !all_digits(s@) || dec_value(s@) > max,
{
    let n = s.unicode_len();
    if n == 0 {
        return None;
    }
    let mut acc: u32 = 0;
    let mut i: usize = 0;
    proof {
        assert(s@.subrange(0, 0) =~= Seq::<char>::empty());
    }
    while i < n
        invariant
            i <= n,
            n == s@.len(),
            acc <= max,
            acc == dec_value(s@.subrange(0, i as int)),
            forall|j: int| 0 <= j < i ==> is_digit(#[trigger] s@[j]),
        decreases n - i,
    {
        let c = s.get_char(i);
        if !(c >= '0' && c <= '9') {
            assert(!all_digits(s@)) by {
                assert(!is_digit(s@[i as int]));
            }
            return None;
        }
        let d: u32 = (c as u32) - ('0' as u32);
        let next: u64 = (acc as u64) * 10 + (d as u64);
        proof {
            assert(s@.subrange(0, i + 1).drop_last() =~= s@.subrange(0, i as int));
            assert(s@.subrange(0, i + 1).last() == s@[i as int]);
            assert(d == digit_val(s@[i as int]));
            assert(next == dec_value(s@.subrange(0, i + 1)));
        }
        if next > max as u64 {
            proof {
                lemma_dec_value_prefix(s@, i + 1);
                assert(dec_value(s@) > max);
            }
            return None;
        }
        acc = next as u32;
        i = i + 1;
    }
    proof {
        assert(s@.subrange(0, n as int) =~= s@);
    }
    Some(acc)
}

/// An IPv4 address as four octets.
#[derive(Clone, Copy, PartialEq, Eq, Structural, Debug)]
pub struct Ipv4Address {
    pub a: u8,
    pub b: u8,
    pub c: u8,
    pub d: u8,
}

/// A listener address: an IPv4 address and a port.
#[derive(Clone, Copy, PartialEq, Eq, Structural, Debug)]
pub struct SocketAddress {
    pub ip: Ipv4Address,
    pub port: u16,
}

impl SocketAddress {
    /// The port the address names.
    pub fn port(&self) -> (r: u16)
        ensures
            r == self.port,
    {
        self.port
    }

    /// The IPv4 address part.
    pub fn ip(&self) -> (r: Ipv4Address)
        ensures
            r == self.ip,
    {
        self.ip
    }
}

/// The character for one digit value.
pub open spec fn digit_char(d: nat) -> char {
    if d == 0 {
        '0'
    } else if d == 1 {
        '1'
    } else if d == 2 {
        '2'
    } else if d == 3 {
        '3'
    } else if d == 4 {
        '4'
    } else if d == 5 {
        '5'
    } else if d == 6 {
        '6'
    } else if d == 7 {
        '7'
    } else if d == 8 {
        '8'
    } else {
        '9'
    }
}

/// The shortest decimal spelling of `n`.
pub open spec fn dec_str(n: nat) -> Seq<char>
    decreases n,
{
    if n < 10 {
        seq![digit_char(n)]
    } else {
        dec_str(n / 10).push(digit_char(n % 10))
    }
}

fn digit_str(d: u8) -> (r: &'static str)
    requires
        d < 10,
    ensures
        r@ == seq![digit_char(d as nat)],
{
    proof {
        reveal_strlit("0");
        reveal_strlit("1");
        reveal_strlit("2");
        reveal_strlit("3");
        reveal_strlit("4");
        reveal_strlit("5");
        reveal_strlit("6");
        reveal_strlit("7");
        reveal_strlit("8");
        reveal_strlit("9");
        assert("0"@ =~= seq![digit_char(0)]);
        assert("1"@ =~= seq![digit_char(1)]);
        assert("2"@ =~= seq![digit_char(2)]);
        assert("3"@ =~= seq![digit_char(3)]);
        assert("4"@ =~= seq![digit_char(4)]);
        assert("5"@ =~= seq![digit_char(5)]);
        assert("6"@ =~= seq![digit_char(6)]);
        assert("7"@ =~= seq![digit_char(7)]);
        assert("8"@ =~= seq![digit_char(8)]);
        assert("9"@ =~= seq![digit_char(9)]);
    }
    match d {
        0 => "0",
        1 => "1",
        2 => "2",
        3 => "3",
        4 => "4",
        5 => "5",
        6 => "6",
        7 => "7",
        8 => "8",
        _ => "9",
    }
}

/// Spells one octet in decimal.
pub fn u8_dec_string(n: u8) -> (r: String)
    ensures
        r@ == dec_str(n as nat),
{
    if n < 10 {
        digit_str(n).to_owned()
    } else if n < 100 {
        let mut s = digit_str(n / 10).to_owned();
        s.append(digit_str(n % 10));
        proof {
            reveal_with_fuel(dec_str, 3);
            assert(s@ =~= dec_str(n as nat));
        }
        s
    } else {
        let q = n / 10;
        let mut s = digit_str(q / 10).to_owned();
        s.append(digit_str(q % 10));
        s.append(digit_str(n % 10));
        proof {
            reveal_with_fuel(dec_str, 4);
            assert(q >= 10);
            assert(dec_str(q as nat) == dec_str((q / 10) as nat).push(digit_char((q % 10) as nat)));
            assert(s@ =~= dec_str(n as nat));
        }
        s
    }
}

/// Law: the decimal spelling is faithful — reading `dec_str(n)` back in
/// base ten yields `n` again, and the spelling is all digits.
pub proof fn lemma_dec_str_faithful(n: nat)
    ensures
        all_digits(dec_str(n)),
        dec_value(dec_str(n)) == n,
    decreases n,
{
    if n < 10 {
        let s = dec_str(n);
        assert(s.drop_last() =~= Seq::<char>::empty());
        assert(dec_value(s) == 10 * dec_value(Seq::<char>::empty()) + digit_val(s.last()));
    } else {
        lemma_dec_str_faithful(n / 10);
        let s = dec_str(n);
        assert(s.drop_last() =~= dec_str(n / 10));
        assert(dec_value(s) == 10 * (n / 10) + digit_val(digit_char(n % 10)));
        assert forall|i: int| 0 <= i < s.len() implies is_digit(#[trigger] s[i]) by {
            if i < s.len() - 1 {
                assert(s[i] == dec_str(n / 10)[i]);
            }
        }
    }
}

/// The dotted-quad spelling of an IPv4 address.
pub open spec fn ipv4_str(ip: Ipv4Address) -> Seq<char> {
    dec_str(ip.a as nat) + seq!['.'] + dec_str(ip.b as nat) + seq!['.'] + dec_str(ip.c as nat)
        + seq!['.'] + dec_str(ip.d as nat)
}

impl Ipv4Address {
    /// Spells the address as `a.b.c.d`.
    pub fn to_string(&self) -> (r: String)
        ensures
            r@ == ipv4_str(*self),
    {
        let mut s = u8_dec_string(self.a);
        s.append(".");
        let sb = u8_dec_string(self.b);
        s.append(sb.as_str());
        s.append(".");
        let sc = u8_dec_string(self.c);
        s.append(sc.as_str());
        s.append(".");
        let sd = u8_dec_string(self.d);
        s.append(sd.as_str());
        proof {
            reveal_strlit(".");
            assert("."@ =~= seq!['.']);
            assert(s@ =~= ipv4_str(*self));
        }
        s
    }
}

/// What `parse_addr` accepts: exactly a four-octet dotted quad, a colon,
/// and a port, each field a decimal number within range.
pub open spec fn parse_addr_spec(s: Seq<char>) -> Option<SocketAddress> {
    let parts = split_on(s, ':');
    if parts.len() != 2 {
        None
    } else {
        let octs = split_on(parts[0], '.');
        if octs.len() != 4 {
            None
        } else if !(all_digits(octs[0]) && dec_value(octs[0]) <= 255 && all_digits(octs[1])
            && dec_value(octs[1]) <= 255 && all_digits(octs[2]) && dec_value(octs[2]) <= 255
            && all_digits(octs[3]) && dec_value(octs[3]) <= 255 && all_digits(parts[1])
            && dec_value(parts[1]) <= 65535) {
            None
        } else {
            Some(
                SocketAddress {
                    ip: Ipv4Address {
                        a: dec_value(octs[0]) as u8,
                        b: dec_value(octs[1]) as u8,
                        c: dec_value(octs[2]) as u8,
                        d: dec_value(octs[3]) as u8,
                    },
                    port: dec_value(parts[1]) as u16,
                },
            )
        }
    }
}

/// Law: the engines' configured HTTP address parses to every interface on
/// port 80, so the listener the dispatcher binds is exactly the
/// configured one.
pub proof fn lemma_spin_addr_parses()
    ensures
        parse_addr_spec("0.0.0.0:80"@) == Some(
            SocketAddress { ip: Ipv4Address { a: 0, b: 0, c: 0, d: 0 }, port: 80 },
        ),
{
    reveal_strlit("0.0.0.0:80");
    reveal_with_fuel(split_on, 6);
    reveal_with_fuel(dec_value, 3);
    let s = "0.0.0.0:80"@;
    assert(s.len() == 10);
    assert forall|j: int| 0 <= j < 7 implies s[j] != ':' by {
        if j == 0 {
            assert(s[0] == '0');
        } else if j == 1 {
            assert(s[1] == '.');
        } else if j == 2 {
            assert(s[2] == '0');
        } else if j == 3 {
            assert(s[3] == '.');
        } else if j == 4 {
            assert(s[4] == '0');
        } else if j == 5 {
            assert(s[5] == '.');
        } else {
            assert(s[6] == '0');
        }
    }
    assert(s[7] == ':');
    crate::text::lemma_first_index_is(s, ':', 7);
    let host = s.subrange(0, 7);
    let port = s.subrange(8, 10);
    assert forall|j: int| 0 <= j < port.len() implies port[j] != ':' by {
        if j == 0 {
            assert(port[0] == s[8] && s[8] == '8');
        } else {
            assert(port[1] == s[9] && s[9] == '0');
        }
    }
    crate::text::lemma_first_index_is(port, ':', 2);
    let parts = split_on(s, ':');
    assert(parts =~= seq![host, port]);

    // The host splits into four zero octets.
    let zero = seq!['0'];
    assert forall|j: int| 0 <= j < 7 implies host[j] == s[j] by {}
    assert(host[0] != '.' && host[1] == '.');
    crate::text::lemma_first_index_is(host, '.', 1);
    let h2 = host.subrange(2, 7);
    assert(h2[0] != '.' && h2[1] == '.') by {
        assert(h2[0] == host[2] && h2[1] == host[3]);
    }
    crate::text::lemma_first_index_is(h2, '.', 1);
    let h3 = h2.subrange(2, 5);
    assert(h3[0] != '.' && h3[1] == '.') by {
        assert(h3[0] == h2[2] && h3[1] == h2[3]);
    }
    crate::text::lemma_first_index_is(h3, '.', 1);
    let h4 = h3.subrange(2, 3);
    assert(h4[0] != '.') by {
        assert(h4[0] == h3[2]);
    }
    crate::text::lemma_first_index_is(h4, '.', 1);
    let octs = split_on(host, '.');
    assert(host.subrange(0, 1) =~= zero);
    assert(h2.subrange(0, 1) =~= zero) by {
        assert(h2[0] == host[2] && host[2] == '0');
    }
    assert(h3.subrange(0, 1) =~= zero) by {
        assert(h3[0] == h2[2]);
        assert(h2[2] == host[4]);
        assert(host[4] == '0');
    }
    assert(h4 =~= zero) by {
        assert(h4[0] == h3[2]);
        assert(h3[2] == h2[4]);
        assert(h2[4] == host[6]);
        assert(host[6] == '0');
    }
    assert(h2 =~= host.subrange(2, 7));
    assert(h3 =~= h2.subrange(2, h2.len() as int));
    assert(h4 =~= h3.subrange(2, h3.len() as int));
    assert(octs =~= seq![zero, zero, zero, zero]);

    // Each field reads back as its number.
    assert(zero.drop_last() =~= Seq::<char>::empty());
    assert(dec_value(zero) == 0 && all_digits(zero));
    let eight = seq!['8'];
    assert(port.drop_last() =~= eight) by {
        assert(port.drop_last()[0] == port[0] && port[0] == s[8]);
    }
    assert(eight.drop_last() =~= Seq::<char>::empty());
    assert(dec_value(eight) == 8);
    assert(port.last() == s[9] && s[9] == '0');
    assert(dec_value(port) == 80);
    assert(all_digits(port)) by {
        assert(is_digit(port[0]) && is_digit(port[1]));
    }
}

/// Parses a listener address of the form `a.b.c.d:port`.
pub fn parse_addr(addr: &str) -> (r: Option<SocketAddress>)
    ensures
        r == parse_addr_spec(addr@),
{
    let parts = split_str(addr, ':');
    if parts.len() != 2 {
        return None;
    }
    let octs = split_str(parts[0].as_str(), '.');
    if octs.len() != 4 {
        return None;
    }
    let a = parse_dec(octs[0].as_str(), 255);
    let b = parse_dec(octs[1].as_str(), 255);
    let c = parse_dec(octs[2].as_str(), 255);
    let d = parse_dec(octs[3].as_str(), 255);
    let p = parse_dec(parts[1].as_str(), 65535);
    match (a, b, c, d, p) {
        (Some(av), Some(bv), Some(cv), Some(dv), Some(pv)) => Some(
            SocketAddress {
                ip: Ipv4Address { a: av as u8, b: bv as u8, c: cv as u8, d: dv as u8 },
                port: pv as u16,
            },
        ),
        _ => None,
    }
}

} // verus!
