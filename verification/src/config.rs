//! The listener configuration: the host string and port the acceptor
//! binds to, and the `host:port` rendering handed to the socket layer.
//! Reading the configuration file itself is the collaborator's job; this
//! module only holds the resulting pair.

use vstd::prelude::*;
use vstd::string::StringExecFns;

verus! {

/// The character for the decimal digit `d`.
pub open spec fn digit_char(d: int) -> char {
    if d == 0 {
        '0'
    } else if d == 1 {
        '1'
    } else if d == 2 {
        '2'
    } else if d == 3 {
        '3'
    } else if d == 4 {
        '4'
    } else if d == 5 {
        '5'
    } else if d == 6 {
        '6'
    } else if d == 7 {
        '7'
    } else if d == 8 {
        '8'
    } else {
        '9'
    }
}

/// The decimal digits of `n`, most significant first, with no leading
/// zeros (a single `'0'` for zero).
pub open spec fn dec_of(n: nat) -> Seq<char>
    decreases n,
{
    if n < 10 {
        seq![digit_char(n as int)]
    } else {
        dec_of(n / 10) + seq![digit_char((n % 10) as int)]
    }
}

/// The decimal form of an integer, with a leading minus sign when it is
/// negative.
pub open spec fn int_dec(n: int) -> Seq<char> {
    if n < 0 {
        seq!['-'] + dec_of((-n) as nat)
    } else {
        dec_of(n as nat)
    }
}

/// The `host:port` form: the host's characters, a colon, and the port in
/// decimal.
pub open spec fn host_port_chars(host: Seq<char>, port: int) -> Seq<char> {
    host + seq![':'] + int_dec(port)
}

/// Appends the character of one decimal digit.
fn push_digit(s: &mut String, d: u8)
    requires
        d < 10,
    ensures
        final(s)@ == old(s)@ + seq![digit_char(d as int)],
{
    let t: &str = match d {
        0 => "0",
        1 => "1",
        2 => "2",
        3 => "3",
        4 => "4",
        5 => "5",
        6 => "6",
        7 => "7",
        8 => "8",
        _ => "9",
    };
    proof {
        reveal_strlit("0");
        reveal_strlit("1");
        reveal_strlit("2");
        reveal_strlit("3");
        reveal_strlit("4");
        reveal_strlit("5");
        reveal_strlit("6");
        reveal_strlit("7");
        reveal_strlit("8");
        reveal_strlit("9");
    }
    s.append(t);
    proof {
        assert(s@ =~= old(s)@ + seq![digit_char(d as int)]);
    }
}

/// Appends the decimal digits of `n`, most significant first.
fn append_dec(s: &mut String, n: u64)
    ensures
        final(s)@ == old(s)@ + dec_of(n as nat),
    decreases n,
{
    if n >= 10 {
        append_dec(s, n / 10);
        push_digit(s, (n % 10) as u8);
        proof {
            assert(s@ =~= old(s)@ + dec_of(n as nat));
        }
    } else {
        push_digit(s, n as u8);
    }
}

/// The pair the listener binds to: a host string and a port. The values
/// come from the configuration collaborator (or its defaults) before the
/// core starts.
#[derive(Debug)]
pub struct Config {
    host: String,
    port: i32,
}

impl Config {
    /// The configured host's characters.
    pub closed spec fn spec_host(&self) -> Seq<char> {
        self.host@
    }

    /// The configured port value.
    pub closed spec fn spec_port(&self) -> int {
        self.port as int
    }

    /// A configuration holding exactly the given host and port.
    pub fn new(host: String, port: i32) -> (c: Config)
        ensures
            c.spec_host() == host@,
            c.spec_port() == port as int,
    {
        Config { host, port }
    }

    /// The `host:port` string the listener binds to.
    pub fn get_host_str(&mut self) -> (r: String)
        ensures
            r@ == host_port_chars(old(self).spec_host(), old(self).spec_port()),
            final(self).spec_host() == old(self).spec_host(),
            final(self).spec_port() == old(self).spec_port(),
    {
        let mut s = self.host.clone();
        s.append(":");
        proof {
            reveal_strlit(":");
            assert(s@ =~= old(self).spec_host() + seq![':']);
        }
        if self.port < 0 {
            s.append("-");
            proof {
                reveal_strlit("-");
                assert(s@ =~= old(self).spec_host() + seq![':'] + seq!['-']);
            }
            let mag: u64 = (-(self.port as i64)) as u64;
            proof {
                assert(mag as nat == (-(old(self).spec_port())) as nat);
            }
            append_dec(&mut s, mag);
            proof {
                assert(s@ =~= host_port_chars(old(self).spec_host(), old(self).spec_port()));
            }
        } else {
            append_dec(&mut s, self.port as u64);
            proof {
                assert(s@ =~= host_port_chars(old(self).spec_host(), old(self).spec_port()));
            }
        }
        s
    }
}

} // verus!
