use vstd::prelude::*;
use vstd::string::*;

verus! {

/// The port on which a privileged process serves the challenges itself.
pub const PRIVILEGED_PORT: u32 = 80;

/// Which ACME directory an order is placed with.
#[derive(Clone, Copy, Debug, PartialEq, Eq, Structural)]
pub enum Directory {
    /// Test directory with a high rate limit; its certificates are not trusted.
    Staging,
    /// The production directory.
    Production,
}

/// Why no challenge port could be taken from the operator's answer.
#[derive(Clone, Copy, Debug, PartialEq, Eq, Structural)]
pub enum PortError {
    /// A privileged process was told that port 80 is not forwarded to it.
    NotForwarded,
    /// The answer was not a port number.
    NotANumber,
}

/// Everything needed to drive one order for a renewal target.
pub struct SigningPlan {
    /// Account name, `application@domain`.
    pub account: String,
    /// Primary domain of the certificate.
    pub domain: String,
    /// Further names on the certificate, in order.
    pub subdomains: Vec<String>,
    /// Directory the order goes to.
    pub directory: Directory,
    /// Local port of the challenge server.
    pub port: u32,
}

pub open spec fn is_digit(c: char) -> bool {
    '0' <= c && c <= '9'
}

pub open spec fn digit_value(c: char) -> int {
    c as int - '0' as int
}

/// Value of a string of decimal digits, most significant first.
pub open spec fn digits_value(s: Seq<char>) -> int
    decreases s.len(),
{
    if s.len() == 0 {
        0
    } else {
        digits_value(s.drop_last()) * 10 + digit_value(s.last())
    }
}

/// The digits of a number, after an optional leading `+`.
pub open spec fn unsigned_digits(s: Seq<char>) -> Seq<char> {
    if s.len() > 0 && s[0] == '+' {
        s.drop_first()
    } else {
        s
    }
}

/// `s` is the decimal form of a `u32`, as `str::parse::<u32>` accepts it.
pub open spec fn is_u32_text(s: Seq<char>) -> bool {
    let d = unsigned_digits(s);
    &&& d.len() > 0
    &&& forall|i: int| 0 <= i < d.len() ==> is_digit(#[trigger] d[i])
    &&& digits_value(d) <= u32::MAX
}

/// The port chosen by the operator's answer: a privileged process uses port
/// 80 once told (`y`) that it is forwarded; any other process is given the
/// port number itself.
pub open spec fn answer_port(am_root: bool, answer: Seq<char>) -> Result<u32, PortError> {
    if am_root {
        if answer == seq!['y'] {
            Ok(PRIVILEGED_PORT)
        } else {
            Err(PortError::NotForwarded)
        }
    } else if is_u32_text(answer) {
        Ok(digits_value(unsigned_digits(answer)) as u32)
    } else {
        Err(PortError::NotANumber)
    }
}

proof fn lemma_digits_value_step(s: Seq<char>, i: int)
    requires
        0 <= i < s.len(),
    ensures
        digits_value(s.take(i + 1)) == digits_value(s.take(i)) * 10 + digit_value(s[i]),
{
    assert(s.take(i + 1).drop_last() =~= s.take(i));
}

/// Parses a decimal `u32` with an optional leading `+`, as
/// `str::parse::<u32>` does.
pub fn parse_u32(s: &str) -> (r: Option<u32>)
    ensures
        r == (if is_u32_text(s@) {
            Some(digits_value(unsigned_digits(s@)) as u32)
        } else {
            None
        }),
{
    let n = s.unicode_len();
    let mut start: usize = 0;
    if n > 0 && s.get_char(0) == '+' {
        start = 1;
    }
    let ghost d = unsigned_digits(s@);
    assert(d =~= s@.subrange(start as int, n as int));
    let mut i: usize = start;
    let mut value: u64 = 0;
    let mut digits_only = true;
    let mut too_large = false;
    while i < n
        invariant
            start <= i <= n,
            n == s@.len(),
            d =~= s@.subrange(start as int, n as int),
            digits_only == (forall|j: int| 0 <= j < i - start ==> is_digit(#[trigger] d[j])),
            digits_only && !too_large ==> value as int == digits_value(d.take(i - start)),
            digits_only && !too_large ==> value <= u32::MAX,
            digits_only && too_large ==> digits_value(d.take(i - start)) > u32::MAX,
            digits_only ==> digits_value(d.take(i - start)) >= 0,
        decreases n - i,
    {
        let c = s.get_char(i);
        let ghost k = (i - start) as int;
        assert(d[k] == c);
        proof {
            lemma_digits_value_step(d, k);
        }
        if '0' <= c && c <= '9' {
            if digits_only {
                let dv = (c as u32 - '0' as u32) as u64;
                if !too_large {
                    let next = value * 10 + dv;
                    if next > u32::MAX as u64 {
                        too_large = true;
                    } else {
                        value = next;
                    }
                } else {
                    assert(digits_value(d.take(k + 1)) > u32::MAX) by (nonlinear_arith)
                        requires
                            digits_value(d.take(k + 1)) == digits_value(d.take(k)) * 10
                                + digit_value(c),
                            digits_value(d.take(k)) > u32::MAX,
                            digit_value(c) >= 0,
                    ;
                }
            }
        } else {
            digits_only = false;
        }
        i = i + 1;
    }
    assert(d.take(n - start) =~= d);
    if digits_only && !too_large && n > start {
        Some(value as u32)
    } else {
        None
    }
}

/// The port chosen by the operator's answer, as `answer_port` states it.
pub fn port_from_answer(am_root: bool, answer: &str) -> (r: Result<u32, PortError>)
    ensures
        r == answer_port(am_root, answer@),
{
    if am_root {
        if answer.unicode_len() == 1 && answer.get_char(0) == 'y' {
            assert(answer@ =~= seq!['y']);
            Ok(PRIVILEGED_PORT)
        } else {
            Err(PortError::NotForwarded)
        }
    } else {
        match parse_u32(answer) {
            Some(p) => Ok(p),
            None => Err(PortError::NotANumber),
        }
    }
}

/// Account name under which certificates of `domain` are kept:
/// `application@domain`.
pub fn account_name(application: &str, domain: &str) -> (r: String)
    ensures
        r@ == application@ + "@"@ + domain@,
{
    String::from_str(application).concat("@").concat(domain)
}

/// The plan for one order: account `application@domain`, the domain with
/// its `www.` name, the directory and the challenge port.
pub fn signing_plan(application: &str, domain: &str, staging: bool, port: u32) -> (r: SigningPlan)
    ensures
        r.account@ == application@ + "@"@ + domain@,
        r.domain@ == domain@,
        r.subdomains@.len() == 1,
        r.subdomains@[0]@ == "www."@ + domain@,
        r.directory == (if staging {
            Directory::Staging
        } else {
            Directory::Production
        }),
        r.port == port,
{
    let account = account_name(application, domain);
    let www = String::from_str("www.").concat(domain);
    let mut subdomains: Vec<String> = Vec::new();
    subdomains.push(www);
    let directory = if staging {
        Directory::Staging
    } else {
        Directory::Production
    };
    SigningPlan { account, domain: String::from_str(domain), subdomains, directory, port }
}

/// Characters with the Unicode `White_Space` property.
pub open spec fn is_white_space(c: char) -> bool {
    ('\u{9}' <= c && c <= '\u{d}') || c == ' ' || c == '\u{85}' || c == '\u{a0}' || c
        == '\u{1680}' || ('\u{2000}' <= c && c <= '\u{200a}') || c == '\u{2028}' || c
        == '\u{2029}' || c == '\u{202f}' || c == '\u{205f}' || c == '\u{3000}'
}

/// `s` without its leading white space.
pub open spec fn trim_start(s: Seq<char>) -> Seq<char>
    decreases s.len(),
{
    if s.len() > 0 && is_white_space(s[0]) {
        trim_start(s.drop_first())
    } else {
        s
    }
}

/// `s` without its trailing white space.
pub open spec fn trim_end(s: Seq<char>) -> Seq<char>
    decreases s.len(),
{
    if s.len() > 0 && is_white_space(s.last()) {
        trim_end(s.drop_last())
    } else {
        s
    }
}

/// `s` without leading and trailing white space.
pub open spec fn trimmed(s: Seq<char>) -> Seq<char> {
    trim_end(trim_start(s))
}

/// Relies on `str::trim`: drops the leading and trailing characters that
/// have the Unicode `White_Space` property.
#[verifier::external_body]
fn trim(s: &str) -> (r: &str)
    ensures
        r@ == trimmed(s@),
{
    s.trim()
}

/// The plan for an order whose challenge port comes from the operator's
/// answer to the port question (`am_root`: the process runs as root).
pub fn generate_and_sign_keys_guided(
    application: &str,
    domain: &str,
    staging: bool,
    am_root: bool,
    answer: &str,
) -> (r: Result<SigningPlan, PortError>)
    ensures
        match answer_port(am_root, trimmed(answer@)) {
            Ok(port) => r matches Ok(plan) && plan.port == port && plan.account@ == application@
                + "@"@ + domain@ && plan.domain@ == domain@ && plan.subdomains@.len() == 1
                && plan.subdomains@[0]@ == "www."@ + domain@ && plan.directory == (if staging {
                Directory::Staging
            } else {
                Directory::Production
            }),
            Err(e) => r matches Err(e2) && e2 == e,
        },
{
    let t = trim(answer);
    match port_from_answer(am_root, t) {
        Ok(port) => Ok(signing_plan(application, domain, staging, port)),
        Err(e) => Err(e),
    }
}

} // verus!
