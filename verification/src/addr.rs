//! IPv4 socket addresses of decoders: octets, their 32-bit number, and their
//! text form.

use vstd::prelude::*;

use crate::text::{decimal, decimal_value, is_digit, push_char, push_decimal};

verus! {

/// The number of an IPv4 address: its octets read big-endian.
pub open spec fn ip_number(ip: [u8; 4]) -> int {
    ip[0] * 16777216 + ip[1] * 65536 + ip[2] * 256 + ip[3]
}

/// The octets of the IPv4 address with the given number, most significant
/// first.
pub open spec fn ip_octets(n: u32) -> [u8; 4] {
    [(n / 16777216) as u8, ((n / 65536) % 256) as u8, ((n / 256) % 256) as u8, (n % 256) as u8]
}

/// Dotted-decimal text of an IPv4 address, such as `192.168.1.10`.
pub open spec fn ip_text(ip: [u8; 4]) -> Seq<char> {
    decimal(ip[0] as nat) + seq!['.'] + decimal(ip[1] as nat) + seq!['.'] + decimal(ip[2] as nat)
        + seq!['.'] + decimal(ip[3] as nat)
}

/// The number of an IPv4 address, as `u32::from(Ipv4Addr)` gives it.
pub fn ip_to_u32(ip: [u8; 4]) -> (n: u32)
    ensures
        n as int == ip_number(ip),
{
    let a: u32 = ip[0] as u32;
    let b: u32 = ip[1] as u32;
    let c: u32 = ip[2] as u32;
    let d: u32 = ip[3] as u32;
    a * 16777216 + b * 65536 + c * 256 + d
}

/// The octets of the IPv4 address with number `n`, as `Ipv4Addr::from(n)`
/// gives them.
pub fn u32_to_ip(n: u32) -> (ip: [u8; 4])
    ensures
        ip == ip_octets(n),
{
    let a: u8 = (n / 16777216) as u8;
    let b: u8 = ((n / 65536) % 256) as u8;
    let c: u8 = ((n / 256) % 256) as u8;
    let d: u8 = (n % 256) as u8;
    let ip: [u8; 4] = [a, b, c, d];
    proof {
        assert(ip =~= ip_octets(n));
    }
    ip
}

/// Reading the octets of an address as a number and back gives the same
/// octets.
pub proof fn lemma_octets_of_number(ip: [u8; 4])
    ensures
        0 <= ip_number(ip) <= u32::MAX,
        ip_octets(ip_number(ip) as u32) =~= ip,
{
    let a = ip[0] as int;
    let b = ip[1] as int;
    let c = ip[2] as int;
    let d = ip[3] as int;
    let n = a * 16777216 + b * 65536 + c * 256 + d;
    assert(n / 16777216 == a) by (nonlinear_arith)
        requires
            n == a * 16777216 + b * 65536 + c * 256 + d,
            0 <= a < 256,
            0 <= b < 256,
            0 <= c < 256,
            0 <= d < 256,
    ;
    assert((n / 65536) % 256 == b) by (nonlinear_arith)
        requires
            n == a * 16777216 + b * 65536 + c * 256 + d,
            0 <= a < 256,
            0 <= b < 256,
            0 <= c < 256,
            0 <= d < 256,
    ;
    assert((n / 256) % 256 == c) by (nonlinear_arith)
        requires
            n == a * 16777216 + b * 65536 + c * 256 + d,
            0 <= a < 256,
            0 <= b < 256,
            0 <= c < 256,
            0 <= d < 256,
    ;
    assert(n % 256 == d) by (nonlinear_arith)
        requires
            n == a * 16777216 + b * 65536 + c * 256 + d,
            0 <= a < 256,
            0 <= b < 256,
            0 <= c < 256,
            0 <= d < 256,
    ;
}

/// Splitting a number into octets and reading them back gives the same
/// number.
pub proof fn lemma_number_of_octets(n: u32)
    ensures
        ip_number(ip_octets(n)) == n,
{
    let x = n as int;
    assert(x == (x / 16777216) * 16777216 + ((x / 65536) % 256) * 65536 + ((x / 256) % 256) * 256
        + x % 256) by (nonlinear_arith)
        requires
            0 <= x,
    ;
}

/// Addresses that share their first three octets are numbered as far apart
/// as their last octets: the number grows with the last octet, one by one.
pub proof fn lemma_ip_number_last_octet(a: [u8; 4], b: [u8; 4])
    requires
        a[0] == b[0],
        a[1] == b[1],
        a[2] == b[2],
    ensures
        ip_number(b) - ip_number(a) == b[3] - a[3],
{
}

/// The number of an IPv4 address is its octets read big-endian, base 256.
pub proof fn lemma_ip_number_big_endian(ip: [u8; 4])
    ensures
        ip_number(ip) == ((ip[0] * 256 + ip[1]) * 256 + ip[2]) * 256 + ip[3],
        0 <= ip_number(ip) < 4294967296,
{
}

/// Counting `j` addresses up from `a.b.c.x`, without leaving the `a.b.c`
/// block, reaches `a.b.c.(x + j)`.
pub proof fn lemma_ip_octets_step(ip: [u8; 4], j: int)
    requires
        0 <= j,
        ip[3] + j < 256,
    ensures
        ip_octets((ip_number(ip) + j) as u32) =~= [ip[0], ip[1], ip[2], (ip[3] + j) as u8],
{
    let next: [u8; 4] = [ip[0], ip[1], ip[2], (ip[3] + j) as u8];
    lemma_ip_number_last_octet(ip, next);
    lemma_octets_of_number(next);
}

/// The text of an address splits at its three dots and its colon into five
/// non-empty fields of decimal digits.
pub open spec fn text_fields_denote(
    text: Seq<char>,
    fields: (Seq<char>, Seq<char>, Seq<char>, Seq<char>, Seq<char>),
    ip: [u8; 4],
    port: u16,
) -> bool {
    let (f0, f1, f2, f3, f4) = fields;
    &&& text == f0 + seq!['.'] + f1 + seq!['.'] + f2 + seq!['.'] + f3 + seq![':'] + f4
    &&& f0.len() > 0 && f1.len() > 0 && f2.len() > 0 && f3.len() > 0 && f4.len() > 0
    &&& forall|i: int| 0 <= i < f0.len() ==> is_digit(#[trigger] f0[i])
    &&& forall|i: int| 0 <= i < f1.len() ==> is_digit(#[trigger] f1[i])
    &&& forall|i: int| 0 <= i < f2.len() ==> is_digit(#[trigger] f2[i])
    &&& forall|i: int| 0 <= i < f3.len() ==> is_digit(#[trigger] f3[i])
    &&& forall|i: int| 0 <= i < f4.len() ==> is_digit(#[trigger] f4[i])
    &&& decimal_value(f0) == ip[0]
    &&& decimal_value(f1) == ip[1]
    &&& decimal_value(f2) == ip[2]
    &&& decimal_value(f3) == ip[3]
    &&& decimal_value(f4) == port
}

/// The address of a decoder: an IPv4 address and a TCP port.
#[derive(Debug, Clone, Copy)]
pub struct Address {
    ip: [u8; 4],
    port: u16,
}

impl Address {
    /// The IPv4 octets of the address.
    pub closed spec fn spec_ip(self) -> [u8; 4] {
        self.ip
    }

    /// The port of the address.
    pub closed spec fn spec_port(self) -> u16 {
        self.port
    }

    /// `a.b.c.d:port`, the text of the address.
    pub open spec fn text(self) -> Seq<char> {
        ip_text(self.spec_ip()) + seq![':'] + decimal(self.spec_port() as nat)
    }

    /// The text of an address reads back as the address: split at its dots
    /// and colon, its digit fields denote the four octets and the port.
    pub proof fn lemma_text_reads_back(self)
        ensures
            exists|fields: (Seq<char>, Seq<char>, Seq<char>, Seq<char>, Seq<char>)|
                #[trigger] text_fields_denote(self.text(), fields, self.spec_ip(), self.spec_port()),
    {
        let ip = self.spec_ip();
        crate::text::lemma_decimal_round_trip(ip[0] as nat);
        crate::text::lemma_decimal_round_trip(ip[1] as nat);
        crate::text::lemma_decimal_round_trip(ip[2] as nat);
        crate::text::lemma_decimal_round_trip(ip[3] as nat);
        crate::text::lemma_decimal_round_trip(self.spec_port() as nat);
        let fields = (
            decimal(ip[0] as nat),
            decimal(ip[1] as nat),
            decimal(ip[2] as nat),
            decimal(ip[3] as nat),
            decimal(self.spec_port() as nat),
        );
        assert(self.text() =~= fields.0 + seq!['.'] + fields.1 + seq!['.'] + fields.2 + seq!['.']
            + fields.3 + seq![':'] + fields.4);
        assert(text_fields_denote(self.text(), fields, ip, self.spec_port()));
    }

    /// The address with the given octets and port.
    pub fn new(ip: [u8; 4], port: u16) -> (addr: Address)
        ensures
            addr.spec_ip() == ip,
            addr.spec_port() == port,
    {
        Address { ip, port }
    }

    /// The IPv4 octets of the address.
    pub fn ip(&self) -> (ip: [u8; 4])
        ensures
            ip == self.spec_ip(),
    {
        self.ip
    }

    /// The port of the address.
    pub fn port(&self) -> (port: u16)
        ensures
            port == self.spec_port(),
    {
        self.port
    }

    /// Appends `a.b.c.d:port` to `s`.
    pub fn push_text(&self, s: &mut String)
        ensures
            final(s)@ == old(s)@ + self.text(),
    {
        push_decimal(s, self.ip[0] as u32);
        push_char(s, '.');
        push_decimal(s, self.ip[1] as u32);
        push_char(s, '.');
        push_decimal(s, self.ip[2] as u32);
        push_char(s, '.');
        push_decimal(s, self.ip[3] as u32);
        push_char(s, ':');
        push_decimal(s, self.port as u32);
        proof {
            assert(final(s)@ =~= old(s)@ + self.text());
        }
    }

    /// `a.b.c.d:port`, the text of the address.
    pub fn to_string(&self) -> (text: String)
        ensures
            text@ == self.text(),
    {
        let mut s = String::new();
        self.push_text(&mut s);
        proof {
            assert(s@ =~= self.text());
        }
        s
    }

    /// `a.b.c.d`, the dotted-decimal text of the IPv4 address.
    pub fn ip_string(&self) -> (text: String)
        ensures
            text@ == ip_text(self.spec_ip()),
    {
        let mut s = String::new();
        push_decimal(&mut s, self.ip[0] as u32);
        push_char(&mut s, '.');
        push_decimal(&mut s, self.ip[1] as u32);
        push_char(&mut s, '.');
        push_decimal(&mut s, self.ip[2] as u32);
        push_char(&mut s, '.');
        push_decimal(&mut s, self.ip[3] as u32);
        proof {
            assert(s@ =~= ip_text(self.spec_ip()));
        }
        s
    }
}

} // verus!
