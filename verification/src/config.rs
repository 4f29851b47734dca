//! Application configuration.
//!
//! The values themselves are read from the process environment by the
//! caller; this module holds the configuration record and the derived
//! server address, with the port rendered in decimal by verified code.

use vstd::prelude::*;
use vstd::string::*;

verus! {

/// Configuration assembled at process start.
#[derive(Debug)]
pub struct AppConfig {
    pub database_url: String,
    pub jwt_secret: String,
    pub host: String,
    pub port: u16,
    pub intelligence_service_url: String,
    pub intelligence_api_key: Option<String>,
    pub intelligence_timeout_secs: u64,
    pub intelligence_max_retries: u32,
}

/// The ASCII digit character of a value below ten.
pub open spec fn spec_digit_char(d: int) -> char {
    ((48 + d) as u8) as char
}

/// The decimal rendering of a non-negative number, most significant
/// digit first.
pub open spec fn spec_dec_seq(n: int) -> Seq<char>
    decreases n,
{
    if n < 10 {
        seq![spec_digit_char(n)]
    } else {
        spec_dec_seq(n / 10) + seq![spec_digit_char(n % 10)]
    }
}

/// The digit characters of a digit buffer, read back to front.
pub open spec fn spec_rev_chars(ds: Seq<u8>) -> Seq<char> {
    Seq::new(ds.len(), |i: int| spec_digit_char(ds[ds.len() - 1 - i] as int))
}

/// The one-character string of a decimal digit.
fn digit_str(d: u8) -> (r: &'static str)
    requires
        d < 10,
    ensures
        r@ =~= seq![spec_digit_char(d as int)],
{
    let r: &'static str = match d {
        0 => "0",
        1 => "1",
        2 => "2",
        3 => "3",
        4 => "4",
        5 => "5",
        6 => "6",
        7 => "7",
        8 => "8",
        _ => "9",
    };
    proof {
        reveal_strlit("0");
        reveal_strlit("1");
        reveal_strlit("2");
        reveal_strlit("3");
        reveal_strlit("4");
        reveal_strlit("5");
        reveal_strlit("6");
        reveal_strlit("7");
        reveal_strlit("8");
        reveal_strlit("9");
    }
    r
}

/// Renders a port number in decimal.
pub fn u16_to_dec(n: u16) -> (r: String)
    ensures
        r@ == spec_dec_seq(n as int),
{
    let mut digits: Vec<u8> = Vec::new();
    let mut m: u16 = n;
    loop
        invariant_except_break
            spec_dec_seq(n as int) =~= spec_dec_seq(m as int) + spec_rev_chars(digits@),
        invariant
            forall|j: int| 0 <= j < digits@.len() ==> digits@[j] < 10,
        ensures
            spec_dec_seq(n as int) =~= spec_rev_chars(digits@),
        decreases m,
    {
        let d: u8 = (m % 10) as u8;
        let ghost before = digits@;
        digits.push(d);
        proof {
            assert(spec_rev_chars(digits@) =~= seq![spec_digit_char(d as int)] + spec_rev_chars(
                before,
            ));
        }
        if m < 10 {
            proof {
                assert(spec_dec_seq(m as int) =~= seq![spec_digit_char(d as int)]);
                assert(spec_dec_seq(n as int) =~= spec_rev_chars(digits@));
            }
            break ;
        }
        m = m / 10;
    }
    let k = digits.len();
    let mut out = String::new();
    let mut i: usize = 0;
    while i < k
        invariant
            0 <= i <= k,
            k == digits@.len(),
            forall|j: int| 0 <= j < digits@.len() ==> digits@[j] < 10,
            spec_dec_seq(n as int) =~= spec_rev_chars(digits@),
            out@ =~= spec_rev_chars(digits@).subrange(0, i as int),
        decreases k - i,
    {
        let piece = digit_str(digits[k - 1 - i]);
        out.append(piece);
        proof {
            assert(out@ =~= spec_rev_chars(digits@).subrange(0, i + 1));
        }
        i = i + 1;
    }
    proof {
        assert(out@ =~= spec_dec_seq(n as int));
    }
    out
}

impl AppConfig {
    /// The `host:port` address the server binds to.
    pub fn server_addr(&self) -> (r: String)
        ensures
            r@ == self.host@ + ":"@ + spec_dec_seq(self.port as int),
    {
        let port_str = u16_to_dec(self.port);
        let joined = self.host.clone().concat(":").concat(port_str.as_str());
        joined
    }
}

} // verus!
