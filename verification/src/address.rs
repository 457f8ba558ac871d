//! Target addresses: a host paired with a TCP port, and their textual form.

use vstd::prelude::*;

verus! {

/// The TCP port of the game service; every resolved target is paired with it.
pub const SERVICE_PORT: u16 = 25565;

/// The character that stands for a decimal digit `d` (`'0'` for anything above 9).
pub open spec fn digit_char(d: nat) -> char {
    if d == 1 {
        '1'
    } else if d == 2 {
        '2'
    } else if d == 3 {
        '3'
    } else if d == 4 {
        '4'
    } else if d == 5 {
        '5'
    } else if d == 6 {
        '6'
    } else if d == 7 {
        '7'
    } else if d == 8 {
        '8'
    } else if d == 9 {
        '9'
    } else {
        '0'
    }
}

/// The decimal numeral of `n`, most significant digit first, without leading zeros.
pub open spec fn decimal_text(n: nat) -> Seq<char>
    decreases n,
{
    if n < 10 {
        seq![digit_char(n)]
    } else {
        decimal_text(n / 10).push(digit_char(n % 10))
    }
}

/// A host name with a single trailing `'.'` (the DNS root label) removed, if it has one.
pub open spec fn strip_root_dot(host: Seq<char>) -> Seq<char> {
    if host.len() > 0 && host.last() == '.' {
        host.drop_last()
    } else {
        host
    }
}

/// Mathematical value of a [`TargetAddress`].
pub struct TargetAddressView {
    pub host: Seq<char>,
    pub port: u16,
}

impl TargetAddressView {
    /// The form `host:port`, the port in decimal.
    pub open spec fn text(self) -> Seq<char> {
        self.host + seq![':'] + decimal_text(self.port as nat)
    }
}

/// The address to dial for one connection: a host (name or literal address) and a port.
#[derive(Debug, PartialEq, Eq)]
pub struct TargetAddress {
    pub host: String,
    pub port: u16,
}

impl View for TargetAddress {
    type V = TargetAddressView;

    open spec fn view(&self) -> TargetAddressView {
        TargetAddressView { host: self.host@, port: self.port }
    }
}

impl Clone for TargetAddress {
    fn clone(&self) -> (copy: Self)
        ensures
            copy@ == self@,
    {
        TargetAddress { host: self.host.clone(), port: self.port }
    }
}

fn digit_str(d: u16) -> (s: &'static str)
    requires
        d < 10,
    ensures
        s@ == seq![digit_char(d as nat)],
{
    proof {
        reveal_strlit("0");
        reveal_strlit("1");
        reveal_strlit("2");
        reveal_strlit("3");
        reveal_strlit("4");
        reveal_strlit("5");
        reveal_strlit("6");
        reveal_strlit("7");
        reveal_strlit("8");
        reveal_strlit("9");
    }
    let s = match d {
        1 => "1",
        2 => "2",
        3 => "3",
        4 => "4",
        5 => "5",
        6 => "6",
        7 => "7",
        8 => "8",
        9 => "9",
        _ => "0",
    };
    assert(s@ =~= seq![digit_char(d as nat)]);
    s
}

fn append_decimal(out: &mut String, n: u16)
    ensures
        final(out)@ == old(out)@ + decimal_text(n as nat),
    decreases n,
{
    if n >= 10 {
        append_decimal(out, n / 10);
    }
    out.append(digit_str(n % 10));
    assert(final(out)@ =~= old(out)@ + decimal_text(n as nat));
}

/// The decimal numeral of a port number.
pub fn port_text(port: u16) -> (s: String)
    ensures
        s@ == decimal_text(port as nat),
{
    let mut s = String::new();
    append_decimal(&mut s, port);
    assert(s@ =~= decimal_text(port as nat));
    s
}

/// Removes the root label from a host name: one trailing `'.'`, where there is one.
pub fn without_root_dot(host: &str) -> (stripped: String)
    ensures
        stripped@ == strip_root_dot(host@),
{
    let n: usize = host.unicode_len();
    if n > 0 && host.get_char(n - 1) == '.' {
        String::from_str(host.substring_char(0, n - 1))
    } else {
        String::from_str(host)
    }
}

impl TargetAddress {
    /// Pairs a host with a port.
    pub fn new(host: String, port: u16) -> (target: Self)
        ensures
            target@ == (TargetAddressView { host: host@, port }),
    {
        TargetAddress { host, port }
    }

    /// Pairs a host with the port of the game service.
    pub fn service(host: String) -> (target: Self)
        ensures
            target@ == (TargetAddressView { host: host@, port: SERVICE_PORT }),
    {
        TargetAddress { host, port: SERVICE_PORT }
    }

    /// The address as `host:port`, the form a SOCKS5 client takes.
    pub fn text(&self) -> (s: String)
        ensures
            s@ == self@.text(),
    {
        let mut s = self.host.clone();
        s.append(":");
        append_decimal(&mut s, self.port);
        proof {
            reveal_strlit(":");
            assert(":"@ =~= seq![':']);
        }
        s
    }
}

/// The text of an address on the service port ends in `:25565`.
pub proof fn lemma_service_text(host: Seq<char>)
    ensures
        (TargetAddressView { host, port: SERVICE_PORT }).text() == host + ":25565"@,
{
    reveal_strlit(":25565");
    reveal_with_fuel(decimal_text, 6);
    assert(decimal_text(25565) =~= seq!['2', '5', '5', '6', '5']);
    assert(host + seq![':'] + decimal_text(25565) =~= host + ":25565"@);
}

} // verus!
