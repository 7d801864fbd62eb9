//! IPv4 addresses in dotted-decimal text.
use crate::text::{
    all_digits, append_decimal, decimal, digits_value, free_of, is_digit, join_on, lemma_decimal,
    lemma_split_join, parse_u64, split_fields, split_on,
};
use vstd::prelude::*;
use vstd::string::*;

verus! {

/// An IPv4 address as its four octets, most significant first.
#[derive(Debug, Clone, Copy, PartialEq, Eq, Structural)]
pub struct Ipv4 {
    pub a: u8,
    pub b: u8,
    pub c: u8,
    pub d: u8,
}

/// An octet written in canonical decimal: one to three digits, no leading
/// zero, at most 255.
pub open spec fn is_octet_text(t: Seq<char>) -> bool {
    &&& 1 <= t.len() <= 3
    &&& all_digits(t)
    &&& (t.len() == 1 || t[0] != '0')
    &&& digits_value(t) <= 255
}

pub open spec fn ipv4_pieces(ip: Ipv4) -> Seq<Seq<char>> {
    seq![
        decimal(ip.a as nat),
        decimal(ip.b as nat),
        decimal(ip.c as nat),
        decimal(ip.d as nat),
    ]
}

/// The dotted-decimal text of an address, such as `192.168.42.1`.
pub open spec fn ipv4_text(ip: Ipv4) -> Seq<char> {
    join_on(ipv4_pieces(ip), '.')
}

/// The address that a dotted-decimal text denotes, if it is one.
pub open spec fn parse_ipv4_spec(s: Seq<char>) -> Option<Ipv4> {
    let p = split_on(s, '.');
    if p.len() == 4 && is_octet_text(p[0]) && is_octet_text(p[1]) && is_octet_text(p[2])
        && is_octet_text(p[3]) {
        Some(
            Ipv4 {
                a: digits_value(p[0]) as u8,
                b: digits_value(p[1]) as u8,
                c: digits_value(p[2]) as u8,
                d: digits_value(p[3]) as u8,
            },
        )
    } else {
        None
    }
}

proof fn lemma_octet_text(n: u8)
    ensures
        is_octet_text(decimal(n as nat)),
        digits_value(decimal(n as nat)) == n,
        free_of(decimal(n as nat), '.'),
{
    lemma_decimal(n as nat);
    let t = decimal(n as nat);
    assert forall|i: int| 0 <= i < t.len() implies #[trigger] t[i] != '.' by {
        assert(is_digit(t[i]));
    }
}

/// Reading the text of an address gives the address back.
pub proof fn lemma_ipv4_round_trip(ip: Ipv4)
    ensures
        parse_ipv4_spec(ipv4_text(ip)) == Some(ip),
        free_of(ipv4_text(ip), '|'),
{
    let p = ipv4_pieces(ip);
    lemma_octet_text(ip.a);
    lemma_octet_text(ip.b);
    lemma_octet_text(ip.c);
    lemma_octet_text(ip.d);
    assert forall|i: int| 0 <= i < p.len() implies free_of(#[trigger] p[i], '.') by {}
    lemma_split_join(p, '.');
    lemma_join_free(p, '.', '|');
}

/// Joined pieces hold a character only if a piece does, or it is the separator.
pub proof fn lemma_join_free(parts: Seq<Seq<char>>, sep: char, c: char)
    requires
        sep != c,
        forall|i: int| 0 <= i < parts.len() ==> free_of(#[trigger] parts[i], c),
    ensures
        free_of(join_on(parts, sep), c),
    decreases parts.len(),
{
    if parts.len() > 1 {
        let init = parts.drop_last();
        assert forall|i: int| 0 <= i < init.len() implies free_of(#[trigger] init[i], c) by {
            assert(init[i] == parts[i]);
        }
        lemma_join_free(init, sep, c);
        let j = join_on(init, sep).push(sep);
        let last = parts.last();
        assert(free_of(last, c)) by {
            assert(last == parts[parts.len() - 1]);
        }
        let all = j + last;
        assert forall|i: int| 0 <= i < all.len() implies #[trigger] all[i] != c by {
            if i < j.len() - 1 {
                assert(all[i] == join_on(init, sep)[i]);
            } else if i >= j.len() {
                assert(all[i] == last[i - j.len()]);
            }
        }
    } else if parts.len() == 1 {
        assert(parts[0] == parts[0]);
    }
}

/// Reads one octet in canonical decimal.
fn parse_octet(t: &str) -> (r: Option<u8>)
    ensures
        r == (if is_octet_text(t@) {
            Some(digits_value(t@) as u8)
        } else {
            None
        }),
{
    let n = t.unicode_len();
    if n < 1 || n > 3 {
        return None;
    }
    if n > 1 && t.get_char(0) == '0' {
        return None;
    }
    match parse_u64(t) {
        Some(v) => {
            if v <= 255 {
                Some(v as u8)
            } else {
                None
            }
        },
        None => None,
    }
}

impl Ipv4 {
    pub fn new(a: u8, b: u8, c: u8, d: u8) -> (r: Ipv4)
        ensures
            r == (Ipv4 { a, b, c, d }),
    {
        Ipv4 { a, b, c, d }
    }

    /// Reads an address in dotted-decimal text.
    pub fn parse(s: &str) -> (r: Option<Ipv4>)
        ensures
            r == parse_ipv4_spec(s@),
    {
        let p = split_fields(s, '.');
        if p.len() != 4 {
            return None;
        }
        let a = parse_octet(p[0].as_str());
        let b = parse_octet(p[1].as_str());
        let c = parse_octet(p[2].as_str());
        let d = parse_octet(p[3].as_str());
        match (a, b, c, d) {
            (Some(a), Some(b), Some(c), Some(d)) => Some(Ipv4 { a, b, c, d }),
            _ => None,
        }
    }

    /// Appends the dotted-decimal text of the address.
    pub fn append_text(&self, out: &mut String)
        ensures
            final(out)@ == old(out)@ + ipv4_text(*self),
    {
        append_decimal(out, self.a as u64);
        out.append(".");
        append_decimal(out, self.b as u64);
        out.append(".");
        append_decimal(out, self.c as u64);
        out.append(".");
        append_decimal(out, self.d as u64);
        proof {
            reveal_strlit(".");
            let p = ipv4_pieces(*self);
            reveal_with_fuel(join_on, 4);
            assert(p.drop_last().drop_last().drop_last() =~= seq![p[0]]);
            assert(p.drop_last().drop_last() =~= seq![p[0], p[1]]);
            assert(p.drop_last() =~= seq![p[0], p[1], p[2]]);
            assert(final(out)@ =~= old(out)@ + ipv4_text(*self));
        }
    }

    /// The dotted-decimal text of the address.
    pub fn to_text(&self) -> (r: String)
        ensures
            r@ == ipv4_text(*self),
    {
        let mut out = String::new();
        self.append_text(&mut out);
        assert(out@ =~= ipv4_text(*self));
        out
    }
}

} // verus!
