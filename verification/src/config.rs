//! The server configuration model. Loading it from a file is the shell's
//! business; the library only holds the values and renders the bind address.

use vstd::prelude::*;

verus! {

use crate::json::{chars_vec, string_from_chars};

/// Key material for token signing and verification.
#[derive(Debug, Clone, PartialEq)]
pub struct AuthConfig {
    pub sk: String,
    pub pk: String,
}

/// Where the server listens and where it keeps its data.
#[derive(Debug, Clone, PartialEq)]
pub struct ServerConfig {
    pub host: String,
    pub port: u16,
    pub db_url: String,
    pub upload_base_dir: String,
}

/// The whole configuration.
#[derive(Debug, Clone, PartialEq)]
pub struct AppConfig {
    pub server: ServerConfig,
    pub auth: AuthConfig,
}

/// The decimal digits of `n`, most significant first.
pub open spec fn spec_decimal(n: int) -> Seq<char>
    decreases n,
{
    if n < 0 {
        Seq::empty()
    } else if n < 10 {
        seq![digit_char(n)]
    } else {
        spec_decimal(n / 10) + seq![digit_char(n % 10)]
    }
}

/// The character of one decimal digit.
pub open spec fn digit_char(d: int) -> char {
    ((48 + d) as u8) as char
}

/// Appends the decimal digits of `n`.
fn push_decimal_u16(n: u16, out: &mut Vec<char>)
    ensures
        final(out)@ == old(out)@ + spec_decimal(n as int),
    decreases n,
{
    if n >= 10 {
        push_decimal_u16(n / 10, out);
        out.push((48 + (n % 10) as u8) as char);
        proof {
            assert(final(out)@ =~= old(out)@ + spec_decimal(n as int));
        }
    } else {
        out.push((48 + n as u8) as char);
        proof {
            assert(final(out)@ =~= old(out)@ + spec_decimal(n as int));
        }
    }
}

impl ServerConfig {
    /// The address the server binds: `host:port`.
    pub fn local_addr(&self) -> (r: String)
        ensures
            r@ == self.host@ + seq![':'] + spec_decimal(self.port as int),
    {
        let mut out = chars_vec(self.host.as_str());
        out.push(':');
        proof {
            assert(out@ =~= self.host@ + seq![':']);
        }
        push_decimal_u16(self.port, &mut out);
        string_from_chars(&out)
    }
}

} // verus!
