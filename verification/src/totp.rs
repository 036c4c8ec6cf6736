//! Time-based one-time passwords: the token of a secret at a moment.

use crate::clock::{unix_time, ClockError};
use crate::counter::{
    be_bytes, counter_message, lemma_be_bytes_injective, lemma_window_of_interval, window_counter,
};
use crate::decimal::{
    decimal_value, format_padded, is_decimal_digit, lemma_padded_decimal_value,
    lemma_pow10_increases, lemma_pow10_limits, padded_decimal, pow10, pow10_u64,
};
use crate::mac::{hmac_sha1, hmac_sha1_code};
use crate::truncate::{code31, dynamic_truncate, lemma_code31_bound, DIGEST_LEN};
use vstd::arithmetic::div_mod::{lemma_mod_bound, lemma_small_mod};
use vstd::prelude::*;

verus! {

/// The largest number of digits a token can have: ten to this power is the
/// largest power of ten that fits in 64 bits.
pub const MAX_DIGITS: usize = 19;

/// Why a pair of parameters cannot make a generator.
#[derive(Debug, Clone, Copy, PartialEq, Eq, Structural)]
pub enum ConfigError {
    /// The timestep is zero: no moment falls in a window of no seconds.
    ZeroTimestep,
    /// The number of digits is zero.
    ZeroDigits,
    /// The number of digits is above [`MAX_DIGITS`].
    TooManyDigits,
}

impl ConfigError {
    /// The text of [`ConfigError::message`].
    pub open spec fn message_text(self) -> Seq<char> {
        match self {
            ConfigError::ZeroTimestep => "the timestep must be at least one second"@,
            ConfigError::ZeroDigits => "a token must have at least one digit"@,
            ConfigError::TooManyDigits => "a token can have at most 19 digits"@,
        }
    }

    /// A sentence that says what is wrong with the parameters.
    pub fn message(&self) -> (text: &'static str)
        ensures
            text@ == self.message_text(),
    {
        match self {
            ConfigError::ZeroTimestep => "the timestep must be at least one second",
            ConfigError::ZeroDigits => "a token must have at least one digit",
            ConfigError::TooManyDigits => "a token can have at most 19 digits",
        }
    }
}

/// Whether a generator can be made of these parameters: the windows are not
/// empty, and a token has between one and [`MAX_DIGITS`] digits.
pub open spec fn valid_parameters(digits: usize, timestep: u64) -> bool {
    &&& timestep > 0
    &&& 1 <= digits <= MAX_DIGITS
}

/// What is wrong with a pair of parameters, if anything. A zero timestep is
/// reported before a fault of the digits.
pub open spec fn parameter_fault(digits: usize, timestep: u64) -> Option<ConfigError> {
    if timestep == 0 {
        Some(ConfigError::ZeroTimestep)
    } else if digits == 0 {
        Some(ConfigError::ZeroDigits)
    } else if digits > MAX_DIGITS {
        Some(ConfigError::TooManyDigits)
    } else {
        None
    }
}

/// Checks the parameters of a generator before one is made of them.
pub fn check_parameters(digits: usize, timestep: u64) -> (result: Result<(), ConfigError>)
    ensures
        result is Ok <==> valid_parameters(digits, timestep),
        result matches Err(error) ==> parameter_fault(digits, timestep) == Some(error),
{
    if timestep == 0 {
        Err(ConfigError::ZeroTimestep)
    } else if digits == 0 {
        Err(ConfigError::ZeroDigits)
    } else if digits > MAX_DIGITS {
        Err(ConfigError::TooManyDigits)
    } else {
        Ok(())
    }
}

/// The digest that stands for the window of `time`: the HMAC-SHA1 code, under
/// `secret`, of the window's counter as eight big-endian bytes.
pub open spec fn signature(secret: Seq<u8>, timestep: u64, time: u64) -> Seq<u8>
    recommends
        timestep > 0,
{
    hmac_sha1(secret, be_bytes(window_counter(time, timestep)))
}

/// The token that a digest yields: its 31-bit code modulo ten to the power
/// `digits`, written in decimal and padded with zeros to `digits` characters.
pub open spec fn token_of_digest(digest: Seq<u8>, digits: nat) -> Seq<char> {
    padded_decimal(code31(digest) as nat % pow10(digits), digits)
}

/// The token of `secret` at `time`, for windows of `timestep` seconds and
/// tokens of `digits` digits.
pub open spec fn token(secret: Seq<u8>, digits: nat, timestep: u64, time: u64) -> Seq<char>
    recommends
        timestep > 0,
{
    token_of_digest(signature(secret, timestep, time), digits)
}

/// A token has exactly `digits` characters, each of them a decimal digit,
/// whatever the secret, the timestep and the time.
pub proof fn lemma_token_width(secret: Seq<u8>, digits: nat, timestep: u64, time: u64)
    ensures
        token(secret, digits, timestep, time).len() == digits,
        forall|i: int|
            0 <= i < digits ==> is_decimal_digit(
                #[trigger] token(secret, digits, timestep, time)[i],
            ),
{
}

/// The number that a token spells is the 31-bit code of the digest modulo
/// ten to the power `digits`.
pub proof fn lemma_token_value(digest: Seq<u8>, digits: nat)
    ensures
        decimal_value(token_of_digest(digest, digits)) == code31(digest) as nat % pow10(digits),
{
    let value = code31(digest) as nat % pow10(digits);
    lemma_pow10_increases(0, digits);
    lemma_mod_bound(code31(digest) as int, pow10(digits) as int);
    lemma_padded_decimal_value(value, digits);
}

/// From ten digits on the modulus is above every 31-bit code, so the token
/// spells the code itself, with zeros before it.
pub proof fn lemma_wide_token_spells_code(digest: Seq<u8>, digits: nat)
    requires
        digits >= 10,
    ensures
        token_of_digest(digest, digits) == padded_decimal(code31(digest) as nat, digits),
        decimal_value(token_of_digest(digest, digits)) == code31(digest),
{
    lemma_code31_bound(digest);
    lemma_pow10_limits();
    lemma_pow10_increases(10, digits);
    lemma_small_mod(code31(digest) as nat, pow10(digits));
    lemma_token_value(digest, digits);
}

/// Two moments with the same counter have the same token.
pub proof fn lemma_window_stability(
    secret: Seq<u8>,
    digits: nat,
    timestep: u64,
    time1: u64,
    time2: u64,
)
    requires
        timestep > 0,
        window_counter(time1, timestep) == window_counter(time2, timestep),
    ensures
        token(secret, digits, timestep, time1) == token(secret, digits, timestep, time2),
{
}

/// Two moments between the same two consecutive multiples of `timestep`
/// have the same token.
pub proof fn lemma_same_interval_same_token(
    secret: Seq<u8>,
    digits: nat,
    timestep: u64,
    k: nat,
    time1: u64,
    time2: u64,
)
    requires
        timestep > 0,
        k * timestep <= time1 < (k + 1) * timestep,
        k * timestep <= time2 < (k + 1) * timestep,
    ensures
        token(secret, digits, timestep, time1) == token(secret, digits, timestep, time2),
{
    lemma_window_of_interval(time1, timestep, k);
    lemma_window_of_interval(time2, timestep, k);
}

/// Two moments with different counters have different messages signed.
/// Whether their tokens differ then rests on the keyed hash, of which nothing
/// is claimed here.
pub proof fn lemma_window_change_changes_message(timestep: u64, time1: u64, time2: u64)
    requires
        timestep > 0,
        window_counter(time1, timestep) != window_counter(time2, timestep),
    ensures
        be_bytes(window_counter(time1, timestep)) != be_bytes(window_counter(time2, timestep)),
{
    if be_bytes(window_counter(time1, timestep)) == be_bytes(window_counter(time2, timestep)) {
        lemma_be_bytes_injective(
            window_counter(time1, timestep),
            window_counter(time2, timestep),
        );
    }
}

/// Turns a 20-byte digest into a token of `digits` digits.
pub fn token_from_digest(digest: &[u8], digits: usize) -> (token: String)
    requires
        digest@.len() == DIGEST_LEN,
        1 <= digits <= MAX_DIGITS,
    ensures
        token@ == token_of_digest(digest@, digits as nat),
        token@.len() == digits,
{
    let code: u32 = dynamic_truncate(digest);
    let modulus: u64 = pow10_u64(digits);
    let value: u64 = (code as u64) % modulus;
    format_padded(value, digits)
}

/// A generator of time-based one-time passwords.
pub struct TOTP<'a> {
    /// The shared secret, the key of the HMAC.
    pub secret: &'a [u8],
    /// The number of decimal digits of a token.
    pub digits: usize,
    /// The width of a time window, in seconds.
    pub timestep: u64,
}

impl<'a> TOTP<'a> {
    /// A generator is valid when its windows are not empty and its tokens
    /// have between one and [`MAX_DIGITS`] digits.
    pub open spec fn valid(&self) -> bool {
        valid_parameters(self.digits, self.timestep)
    }

    /// The token of this generator at `time`.
    pub open spec fn token_at(&self, time: u64) -> Seq<char> {
        token(self.secret@, self.digits as nat, self.timestep, time)
    }

    /// The token depends on the bytes of the secret, the digits, the timestep
    /// and the time, and on nothing else: two generators that agree on these
    /// give the same token, wherever their secrets are kept.
    pub proof fn lemma_token_determined(self, other: Self, time: u64)
        requires
            self.secret@ == other.secret@,
            self.digits == other.digits,
            self.timestep == other.timestep,
        ensures
            self.token_at(time) == other.token_at(time),
    {
    }

    /// Makes a generator from parameters that are known to be valid.
    pub fn new(secret: &'a [u8], digits: usize, timestep: u64) -> (totp: Self)
        requires
            timestep > 0,
            1 <= digits <= MAX_DIGITS,
        ensures
            totp.secret@ == secret@,
            totp.digits == digits,
            totp.timestep == timestep,
            totp.valid(),
    {
        Self { secret, digits, timestep }
    }

    /// Makes a generator from parameters of any origin: checks them first,
    /// and says what is wrong where they are not valid.
    pub fn try_new(
        secret: &'a [u8],
        digits: usize,
        timestep: u64,
    ) -> (result: Result<Self, ConfigError>)
        ensures
            result is Ok <==> valid_parameters(digits, timestep),
            result matches Ok(totp) ==> {
                &&& totp.secret@ == secret@
                &&& totp.digits == digits
                &&& totp.timestep == timestep
            },
            result matches Err(error) ==> parameter_fault(digits, timestep) == Some(error),
    {
        match check_parameters(digits, timestep) {
            Ok(()) => Ok(Self::new(secret, digits, timestep)),
            Err(error) => Err(error),
        }
    }

    /// Signs the window of `time` with the secret.
    pub fn sign(&self, time: u64) -> (digest: Vec<u8>)
        requires
            self.timestep > 0,
        ensures
            digest@ == signature(self.secret@, self.timestep, time),
            digest@.len() == DIGEST_LEN,
    {
        let message: Vec<u8> = counter_message(time / self.timestep);
        hmac_sha1_code(self.secret, message.as_slice())
    }

    /// Generates the token for the given time, in seconds since the Unix
    /// epoch.
    pub fn generate_token_at_time(&self, time: u64) -> (token: String)
        requires
            self.valid(),
        ensures
            token@ == self.token_at(time),
            token@.len() == self.digits,
    {
        let digest: Vec<u8> = self.sign(time);
        token_from_digest(digest.as_slice(), self.digits)
    }

    /// Generates the token for the current time of the system clock.
    ///
    /// Which moment the clock shows is not known in advance, so the contract
    /// speaks of every outcome: a token that comes back is the token of this
    /// generator at some moment, and has its number of digits. The error is
    /// that of a clock that cannot be read as a time since the epoch.
    pub fn generate_token(&self) -> (result: Result<String, ClockError>)
        requires
            self.valid(),
        ensures
            result matches Ok(token) ==> {
                &&& token@.len() == self.digits
                &&& exists|time: u64| token@ == #[trigger] self.token_at(time)
            },
    {
        let reading: Result<u64, ClockError> = unix_time();
        self.generate_token_at_reading(reading)
    }

    /// What this generator makes of a reading of the clock: the token at the
    /// time that was read, or the error of the reading.
    pub open spec fn token_at_reading(
        &self,
        reading: Result<u64, ClockError>,
    ) -> Result<Seq<char>, ClockError> {
        match reading {
            Ok(time) => Ok(self.token_at(time)),
            Err(error) => Err(error),
        }
    }

    /// Generates the token for a reading of the clock: the token at the time
    /// that was read, and for a clock that could not be read, its error.
    pub fn generate_token_at_reading(
        &self,
        reading: Result<u64, ClockError>,
    ) -> (result: Result<String, ClockError>)
        requires
            self.valid(),
        ensures
            match result {
                Ok(token) => self.token_at_reading(reading) == Ok::<Seq<char>, ClockError>(token@),
                Err(error) => self.token_at_reading(reading) == Err::<Seq<char>, ClockError>(error),
            },
    {
        match reading {
            Ok(time) => Ok(self.generate_token_at_time(time)),
            Err(error) => Err(error),
        }
    }
}

} // verus!
