//! The server's configuration, read from the environment.
use vstd::prelude::*;
use vstd::string::StringExecFns;
use crate::text::{decimal, is_digit_char, lemma_parse_decimal_roundtrip, parse_usize, spec_parse_usize};

verus! {

/// Where the server listens.
#[derive(Debug)]
pub struct Env {
    /// `HOST`: the address to bind.
    pub host: String,
    /// `PORT`: the port to bind.
    pub port: usize,
}

/// The address bound when `HOST` is not set.
pub const DEFAULT_HOST: &'static str = "127.0.0.1";
/// The port bound when `PORT` is not set.
pub const DEFAULT_PORT: usize = 8080;

/// Why the configuration could not be read.
#[derive(Debug, Clone, Copy, PartialEq, Eq, Structural)]
pub enum EnvError {
    /// `PORT` is set but its text is not a decimal `usize`.
    InvalidPort,
}

/// The configuration read from the variables' texts: `HOST` as it is
/// (`127.0.0.1` when not set), `PORT` as a decimal `usize` (8080 when not
/// set), so that the server serves on `127.0.0.1:8080` by default.
pub open spec fn env_spec(host: Option<Seq<char>>, port: Option<Seq<char>>) -> Result<(Seq<char>, usize), EnvError> {
    let h = match host {
        Some(h) => h,
        None => DEFAULT_HOST@,
    };
    match port {
        None => Ok((h, DEFAULT_PORT)),
        Some(p) => match spec_parse_usize(p) {
            None => Err(EnvError::InvalidPort),
            Some(n) => Ok((h, n)),
        },
    }
}

/// The model of a text that may be missing.
pub open spec fn opt_view(o: Option<String>) -> Option<Seq<char>> {
    match o {
        Some(s) => Some(s@),
        None => None,
    }
}

impl Env {
    /// The configuration from the texts of `HOST` and `PORT` (`None` when a
    /// variable is not set); unset variables take their defaults.
    pub fn env_init(host: Option<String>, port: Option<String>) -> (r: Result<Env, EnvError>)
        ensures
            match r {
                Ok(env) => env_spec(opt_view(host), opt_view(port)) == Ok::<(Seq<char>, usize), EnvError>((env.host@, env.port)),
                Err(e) => env_spec(opt_view(host), opt_view(port)) == Err::<(Seq<char>, usize), EnvError>(e),
            },
    {
        let host = match host {
            Some(h) => h,
            None => String::from_str(DEFAULT_HOST),
        };
        match port {
            None => Ok(Env { host, port: DEFAULT_PORT }),
            Some(p) => match parse_usize(p.as_str()) {
                Some(n) => Ok(Env { host, port: n }),
                None => Err(EnvError::InvalidPort),
            },
        }
    }
}

/// A port written in decimal is read back: the configuration holds the
/// host and the port as they were set; an unset host is `127.0.0.1` and an
/// unset port 8080; a port text that is empty, or that holds a character
/// other than a digit (but for a leading `+`), is refused.
#[verifier::spinoff_prover]
#[verifier::rlimit(60)]
pub proof fn law_serve_address(host: Seq<char>, port: usize, text: Seq<char>)
    ensures
        env_spec(Some(host), Some(decimal(port as nat))) == Ok::<(Seq<char>, usize), EnvError>((host, port)),
        env_spec(None, None) == Ok::<(Seq<char>, usize), EnvError>(("127.0.0.1"@, 8080)),
        env_spec(Some(host), None) == Ok::<(Seq<char>, usize), EnvError>((host, 8080)),
        env_spec(Some(host), Some(Seq::empty())) == Err::<(Seq<char>, usize), EnvError>(EnvError::InvalidPort),
        (exists|i: int| 0 <= i < text.len() && !is_digit_char(#[trigger] text[i]) && !(i == 0 && text[i] == '+'))
            ==> env_spec(Some(host), Some(text)) == Err::<(Seq<char>, usize), EnvError>(EnvError::InvalidPort),
{
    lemma_parse_decimal_roundtrip(port);
    if exists|i: int| 0 <= i < text.len() && !is_digit_char(#[trigger] text[i]) && !(i == 0 && text[i] == '+') {
        let i = choose|i: int| 0 <= i < text.len() && !is_digit_char(#[trigger] text[i]) && !(i == 0 && text[i] == '+');
        if text.len() > 0 && text[0] == '+' {
            assert(text.drop_first()[i - 1] == text[i]);
        }
    }
}

} // verus!
