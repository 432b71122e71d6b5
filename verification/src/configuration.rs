//! What the user has configured: who they are and how to reach the network.

use vstd::prelude::*;

verus! {

/// Why a configuration cannot be used to start a connection.
#[derive(Clone, Copy, Debug, PartialEq, Eq, Structural)]
pub enum ConfigurationError {
    /// There is no secret, or it is empty.
    InvalidSecret,
    /// There is no port.
    InvalidPort,
}

impl ConfigurationError {
    /// The error in words, for the user.
    pub fn message(&self) -> (message: String)
        ensures
            message@ == match *self {
                ConfigurationError::InvalidSecret => "Invalid secret provided"@,
                ConfigurationError::InvalidPort => "Invalid port provided"@,
            },
    {
        match self {
            ConfigurationError::InvalidSecret => "Invalid secret provided".to_owned(),
            ConfigurationError::InvalidPort => "Invalid port provided".to_owned(),
        }
    }
}

/// The secret from which the user's address derives, the router through
/// which to find the network, and the port to listen on.
#[derive(Clone, Debug, PartialEq, Eq)]
pub struct Configuration {
    secret: Option<String>,
    router: Option<String>,
    port: Option<u16>,
}

/// What a `Configuration` holds.
pub struct ConfigurationModel {
    pub secret: Option<Seq<char>>,
    pub router: Option<Seq<char>>,
    pub port: Option<u16>,
}

/// The number that the decimal digits stand for.
pub open spec fn decimal_value(digits: Seq<char>) -> nat
    decreases digits.len(),
{
    if digits.len() == 0 {
        0
    } else {
        decimal_value(digits.drop_last()) * 10 + (digits.last() as nat - 48) as nat
    }
}

/// Whether all of `digits` are decimal digits, and there is at least one.
pub open spec fn is_decimal(digits: Seq<char>) -> bool {
    &&& digits.len() > 0
    &&& forall|i: int| 0 <= i < digits.len() ==> '0' <= #[trigger] digits[i] <= '9'
}

/// The digits of a number in writing: all of it but a plus sign in front.
pub open spec fn unsigned(text: Seq<char>) -> Seq<char> {
    if text.len() > 0 && text[0] == '+' {
        text.drop_first()
    } else {
        text
    }
}

/// The port that `text` names: a decimal number of at most 65535, before
/// which a plus sign may stand. Anything else names no port.
pub open spec fn port_of_text(text: Seq<char>) -> Option<u16> {
    let digits = unsigned(text);
    if is_decimal(digits) && decimal_value(digits) <= u16::MAX {
        Some(decimal_value(digits) as u16)
    } else {
        None
    }
}

/// A number in writing is not smaller than what its first digits stand for.
pub proof fn lemma_decimal_value_grows(digits: Seq<char>, n: int)
    requires
        0 <= n <= digits.len(),
        forall|i: int| 0 <= i < digits.len() ==> '0' <= #[trigger] digits[i] <= '9',
    ensures
        decimal_value(digits.take(n)) <= decimal_value(digits),
    decreases digits.len() - n,
{
    if n == digits.len() {
        assert(digits.take(n) =~= digits);
    } else {
        lemma_decimal_value_grows(digits, n + 1);
        assert(digits.take(n + 1).drop_last() =~= digits.take(n));
    }
}

/// What an optional string holds.
pub open spec fn text_of(text: Option<String>) -> Option<Seq<char>> {
    match text {
        Some(text) => Some(text@),
        None => None,
    }
}

impl ConfigurationModel {
    /// What keeps a connection from being started with this configuration,
    /// if anything does. The secret is looked at first.
    pub open spec fn problem(self) -> Option<ConfigurationError> {
        if self.secret is None || self.secret->0.len() == 0 {
            Some(ConfigurationError::InvalidSecret)
        } else if self.port is None {
            Some(ConfigurationError::InvalidPort)
        } else {
            None
        }
    }
}

impl View for Configuration {
    type V = ConfigurationModel;

    closed spec fn view(&self) -> ConfigurationModel {
        ConfigurationModel {
            secret: text_of(self.secret),
            router: text_of(self.router),
            port: self.port,
        }
    }
}

impl Configuration {
    /// The configuration in which nothing is set.
    pub fn empty() -> (configuration: Configuration)
        ensures
            configuration@ == (ConfigurationModel { secret: None, router: None, port: None }),
    {
        Configuration { secret: None, router: None, port: None }
    }

    /// Replaces all three settings at once.
    pub fn update(&mut self, secret: Option<String>, router: Option<String>, port: Option<u16>)
        ensures
            final(self)@ == (ConfigurationModel {
                secret: text_of(secret),
                router: text_of(router),
                port,
            }),
    {
        self.secret = secret;
        self.router = router;
        self.port = port;
    }

    pub fn secret(&self) -> (secret: &Option<String>)
        ensures
            text_of(*secret) == self@.secret,
    {
        &self.secret
    }

    pub fn router(&self) -> (router: &Option<String>)
        ensures
            text_of(*router) == self@.router,
    {
        &self.router
    }

    pub fn port(&self) -> (port: &Option<u16>)
        ensures
            *port == self@.port,
    {
        &self.port
    }

    /// Reads a port from what the user has typed: a decimal number of at
    /// most 65535, before which a plus sign may stand.
    pub fn port_from_text(text: &str) -> (port: Option<u16>)
        ensures
            port == port_of_text(text@),
    {
        if !text.is_ascii() {
            proof {
                let i = choose|i: int|
                    0 <= i < text@.len() && !('\0' <= #[trigger] text@[i] <= '\u{7f}');
                let digits = unsigned(text@);
                if text@[0] != '+' {
                    assert(digits[i] == text@[i]);
                } else if i > 0 {
                    assert(digits[i - 1] == text@[i]);
                }
            }
            return None;
        }
        let bytes = text.as_bytes();
        proof {
            vstd::string::is_ascii_spec_bytes(text);
            assert forall|k: int| 0 <= k < bytes@.len() implies bytes@[k] == text@[k] as u8 by {}
        }
        let n = bytes.len();
        let start: usize = if n > 0 && bytes[0] == 43 {
            1
        } else {
            0
        };
        proof {
            if n > 0 {
                lemma_code(text@[0]);
            }
        }
        if start == n {
            return None;
        }
        let ghost digits = unsigned(text@);
        let mut value: u32 = 0;
        let mut i: usize = start;
        while i < n
            invariant
                start <= i <= n,
                start < n,
                n == bytes@.len(),
                bytes@.len() == text@.len(),
                digits == unsigned(text@),
                digits == text@.skip(start as int),
                forall|k: int| 0 <= k < bytes@.len() ==> bytes@[k] == text@[k] as u8,
                forall|k: int| 0 <= k < text@.len() ==> (#[trigger] text@[k]) <= '\u{7f}',
                forall|k: int| 0 <= k < i - start ==> '0' <= #[trigger] digits[k] <= '9',
                value == decimal_value(digits.take(i - start)),
                value <= u16::MAX,
            decreases n - i,
        {
            let byte = bytes[i];
            proof {
                lemma_code(text@[i as int]);
                assert(digits[i - start] == text@[i as int]);
                assert(digits.take(i - start + 1).drop_last() =~= digits.take(i - start));
            }
            if byte < 48 || byte > 57 {
                return None;
            }
            let next = value * 10 + (byte - 48) as u32;
            if next > 65535 {
                proof {
                    if is_decimal(digits) {
                        lemma_decimal_value_grows(digits, i - start + 1);
                    }
                }
                return None;
            }
            value = next;
            i = i + 1;
        }
        assert(digits.take(n - start) =~= digits);
        Some(value as u16)
    }

    /// Replaces all three settings by what the user has typed. The port is
    /// set only if what was typed for it names one.
    pub fn update_from_text(
        &mut self,
        secret: Option<String>,
        router: Option<String>,
        port: Option<String>,
    )
        ensures
            final(self)@ == (ConfigurationModel {
                secret: text_of(secret),
                router: text_of(router),
                port: match port {
                    Some(port) => port_of_text(port@),
                    None => None,
                },
            }),
    {
        let port = match &port {
            Some(port) => Self::port_from_text(port.as_str()),
            None => None,
        };
        self.update(secret, router, port);
    }

    /// Tells whether a connection can be started with this configuration,
    /// and if not, why.
    pub fn check(&self) -> (result: Result<(), ConfigurationError>)
        ensures
            result == match self@.problem() {
                Some(error) => Err::<(), ConfigurationError>(error),
                None => Ok(()),
            },
    {
        match &self.secret {
            None => {
                return Err(ConfigurationError::InvalidSecret);
            },
            Some(secret) => {
                if secret.as_str().is_empty() {
                    return Err(ConfigurationError::InvalidSecret);
                }
            },
        }
        if self.port.is_none() {
            return Err(ConfigurationError::InvalidPort);
        }
        Ok(())
    }
}

/// A character of the first 128 is known by its code.
proof fn lemma_code(c: char)
    requires
        c <= '\u{7f}',
    ensures
        (c as u8) < 128,
        (c as u8) as char == c,
        (c as u8) as nat == c as nat,
{
}

} // verus!
