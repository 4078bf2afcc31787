//! Fresh identifiers and the identity record that bundles them.

pub mod constants;

use crate::clock::{clamp_seconds, Timestamp, MAX_TIMESTAMP_SECONDS, SECONDS_PER_DAY};
use crate::error::AugmentError;
use crate::text::{
    concat3, digit_char, hex_char, hex_digits, is_hex_char, is_hex_text,
    lemma_decimal_digits_nonempty,
    lemma_hex_digits_shape, push_hex, push_signed_decimal, signed_decimal,
};
use rand::RngCore;
use vstd::prelude::*;
use vstd::string::*;

verus! {

/// A freshly generated identity: identifiers, an e-mail address and a trial
/// window that starts when the identity is made.
#[derive(Debug, Clone)]
pub struct AugmentConfig {
    pub device_id: String,
    pub user_id: String,
    pub email: String,
    pub session_id: String,
    pub trial_start_date: Timestamp,
    pub trial_end_date: Timestamp,
    pub trial_count: u32,
    pub reset_history: Vec<Timestamp>,
}

/// The generator of identifiers.
pub struct IdGenerator;

/// `rand::RngCore::try_fill_bytes` on `rand::rngs::OsRng`, for eight bytes
/// that are read as one number: the number drawn, or nothing where the
/// system gives no randomness. Nothing is stated of the number drawn.
#[verifier::external_body]
fn random_u64() -> (drawn: Option<u64>) {
    let mut bytes = [0u8; 8];
    rand::rngs::OsRng.try_fill_bytes(&mut bytes).ok().map(|_| u64::from_le_bytes(bytes))
}

/// The hexadecimal digits that the numbers drawn stand for, one for each:
/// the digit whose value is the number modulo 16.
pub open spec fn hex_text_from(draws: Seq<u64>, uppercase: bool) -> Seq<char> {
    Seq::new(draws.len(), |i: int| digit_char((draws[i] % 16) as int, uppercase))
}

/// The token that six numbers drawn stand for: the letter whose place in
/// the alphabet is the first number modulo 26, and a hexadecimal digit for
/// each of the others.
pub open spec fn email_token_from(draws: Seq<u64>) -> Seq<char> {
    seq![((97 + draws[0] % 26) as int) as char] + hex_text_from(draws.skip(1), false)
}

/// Whether a text is an identifier as the generator makes it: `length`
/// lower-case hexadecimal digits, or, where the system gave no randomness,
/// the tag followed by the seconds of the clock.
pub open spec fn is_identifier(text: Seq<char>, length: nat, tag: Seq<char>) -> bool {
    ||| is_hex_text(text, length, false)
    ||| is_fallback(text, tag)
}

/// Whether a text is a tag followed by seconds that the clock can read.
pub open spec fn is_fallback(text: Seq<char>, tag: Seq<char>) -> bool {
    exists|seconds: int|
        0 <= seconds <= MAX_TIMESTAMP_SECONDS && text == #[trigger] fallback_text(tag, seconds)
}

/// Whether a text is an e-mail address as the generator makes it: built on
/// a token, or, where the system gave no randomness, on `fallback_`
/// followed by the seconds of the clock.
pub open spec fn is_generated_email(text: Seq<char>) -> bool {
    ||| exists|token: Seq<char>| is_email_token(token) && text == #[trigger] email_text(token)
    ||| exists|local: Seq<char>|
        is_fallback(local, "fallback_"@) && text == #[trigger] email_text(local)
}

/// Whether a text is a token for the local part of an e-mail address: a
/// lower-case letter followed by five lower-case hexadecimal digits.
pub open spec fn is_email_token(text: Seq<char>) -> bool {
    &&& text.len() == constants::EMAIL_TOKEN_LENGTH
    &&& 'a' <= text[0] <= 'z'
    &&& forall|i: int| 1 <= i < text.len() ==> is_hex_char(#[trigger] text[i], false)
}

/// The text of a universally unique identifier whose five groups hold the
/// lowest hexadecimal digits of the five numbers.
pub open spec fn uuid_text(a: nat, b: nat, c: nat, d: nat, e: nat) -> Seq<char> {
    hex_digits(a, 8) + seq!['-'] + hex_digits(b, 4) + seq!['-'] + hex_digits(c, 4) + seq!['-']
        + hex_digits(d, 4) + seq!['-'] + hex_digits(e, 12)
}

/// Whether a text has the shape of a universally unique identifier: groups of
/// 8, 4, 4, 4 and 12 lower-case hexadecimal digits with hyphens between them.
pub open spec fn is_uuid_text(text: Seq<char>) -> bool {
    &&& text.len() == 36
    &&& forall|i: int|
        0 <= i < 36 ==> if i == 8 || i == 13 || i == 18 || i == 23 {
            #[trigger] text[i] == '-'
        } else {
            is_hex_char(text[i], false)
        }
}

/// The identifier that stands in for one that could not be generated: a tag
/// followed by a number of seconds.
pub open spec fn fallback_text(tag: Seq<char>, timestamp: int) -> Seq<char> {
    tag + signed_decimal(timestamp)
}

/// The e-mail address built on a local part.
pub open spec fn email_text(local: Seq<char>) -> Seq<char> {
    "user_"@ + local + "@example.com"@
}

/// Every text of five groups of hexadecimal digits has the shape of a
/// universally unique identifier.
pub proof fn lemma_uuid_text_shape(a: nat, b: nat, c: nat, d: nat, e: nat)
    ensures
        is_uuid_text(uuid_text(a, b, c, d, e)),
{
    lemma_hex_digits_shape(a, 8);
    lemma_hex_digits_shape(b, 4);
    lemma_hex_digits_shape(c, 4);
    lemma_hex_digits_shape(d, 4);
    lemma_hex_digits_shape(e, 12);
    let text = uuid_text(a, b, c, d, e);
    assert(text.len() == 36);
    assert forall|i: int| 0 <= i < 36 implies if i == 8 || i == 13 || i == 18 || i == 23 {
        #[trigger] text[i] == '-'
    } else {
        is_hex_char(text[i], false)
    } by {
        if i < 8 {
            assert(text[i] == hex_digits(a, 8)[i]);
        } else if i == 8 {
        } else if i < 13 {
            assert(text[i] == hex_digits(b, 4)[i - 9]);
        } else if i == 13 {
        } else if i < 18 {
            assert(text[i] == hex_digits(c, 4)[i - 14]);
        } else if i == 18 {
        } else if i < 23 {
            assert(text[i] == hex_digits(d, 4)[i - 19]);
        } else if i == 23 {
        } else {
            assert(text[i] == hex_digits(e, 12)[i - 24]);
        }
    }
}

/// The identifier to use for the outcome of a generation: the generated one,
/// or, if there is none, `tag` followed by `timestamp` in decimal. A fallback
/// is never empty.
pub fn resolve_id(outcome: Result<String, AugmentError>, tag: &str, timestamp: i64) -> (id: String)
    ensures
        match outcome {
            Ok(generated) => id == generated,
            Err(_) => id@ == fallback_text(tag@, timestamp as int) && id@.len() > 0,
        },
{
    match outcome {
        Ok(generated) => generated,
        Err(_) => {
            let mut id = tag.to_owned();
            push_signed_decimal(&mut id, timestamp);
            proof {
                if timestamp < 0 {
                    lemma_decimal_digits_nonempty((-timestamp) as nat);
                } else {
                    lemma_decimal_digits_nonempty(timestamp as nat);
                }
            }
            id
        },
    }
}

/// The e-mail address for the outcome of generating a token: built on the
/// token, or, if there is none, on `fallback_` followed by `timestamp` in decimal.
pub fn resolve_email(outcome: Result<String, AugmentError>, timestamp: i64) -> (email: String)
    ensures
        match outcome {
            Ok(token) => email@ == email_text(token@),
            Err(_) => email@ == email_text(fallback_text("fallback_"@, timestamp as int)),
        },
{
    let local = resolve_id(outcome, "fallback_", timestamp);
    concat3("user_", local.as_str(), "@example.com")
}

/// The text of a universally unique identifier whose groups hold the lowest 8,
/// 4, 4, 4 and 12 hexadecimal digits of the five numbers.
pub fn format_uuid(a: u64, b: u64, c: u64, d: u64, e: u64) -> (text: String)
    ensures
        text@ == uuid_text(a as nat, b as nat, c as nat, d as nat, e as nat),
        is_uuid_text(text@),
{
    let mut text = String::new();
    push_hex(&mut text, a, 8);
    text.push('-');
    push_hex(&mut text, b, 4);
    text.push('-');
    push_hex(&mut text, c, 4);
    text.push('-');
    push_hex(&mut text, d, 4);
    text.push('-');
    push_hex(&mut text, e, 12);
    proof {
        lemma_uuid_text_shape(a as nat, b as nat, c as nat, d as nat, e as nat);
        assert(text@ =~= uuid_text(a as nat, b as nat, c as nat, d as nat, e as nat));
    }
    text
}

/// As many numbers drawn as asked for, or nothing where the system gives
/// no randomness.
pub fn draw_numbers(count: usize) -> (drawn: Option<Vec<u64>>)
    ensures
        drawn matches Some(draws) ==> draws@.len() == count,
{
    let mut draws: Vec<u64> = Vec::new();
    let mut i: usize = 0;
    while i < count
        invariant
            i <= count,
            draws@.len() == i,
        decreases count - i,
    {
        match random_u64() {
            Some(drawn) => {
                draws.push(drawn);
            },
            None => {
                return None;
            },
        }
        i += 1;
    }
    Some(draws)
}

/// The hexadecimal digits that the numbers drawn stand for, one for each.
pub fn hex_text_of(draws: &Vec<u64>, uppercase: bool) -> (text: String)
    ensures
        text@ == hex_text_from(draws@, uppercase),
        is_hex_text(text@, draws@.len(), uppercase),
{
    let mut text = String::new();
    let mut i: usize = 0;
    while i < draws.len()
        invariant
            i <= draws.len(),
            text@ == hex_text_from(draws@.take(i as int), uppercase),
            is_hex_text(text@, i as nat, uppercase),
        decreases draws.len() - i,
    {
        let ghost before = text@;
        text.push(hex_char((draws[i] % 16) as u8, uppercase));
        assert(text@ =~= hex_text_from(draws@.take(i + 1), uppercase));
        i += 1;
    }
    assert(draws@.take(i as int) == draws@);
    text
}

/// The token for the local part of an e-mail address that six numbers
/// drawn stand for.
pub fn email_token_of(draws: &Vec<u64>) -> (token: Option<String>)
    ensures
        match token {
            Some(text) => draws@.len() == 6 && text@ == email_token_from(draws@)
                && is_email_token(text@),
            None => draws@.len() != 6,
        },
{
    if draws.len() != 6 {
        return None;
    }
    let mut token = String::new();
    let letter: u8 = 97u8 + (draws[0] % 26) as u8;
    token.push(letter as char);
    let mut i: usize = 1;
    while i < 6
        invariant
            1 <= i <= 6,
            draws@.len() == 6,
            token@.len() == i,
            token@[0] == ((97 + draws@[0] % 26) as int) as char,
            'a' <= token@[0] <= 'z',
            forall|k: int|
                1 <= k < i ==> #[trigger] token@[k] == digit_char((draws@[k] % 16) as int, false)
                    && is_hex_char(token@[k], false),
        decreases 6 - i,
    {
        token.push(hex_char((draws[i] % 16) as u8, false));
        i += 1;
    }
    assert(token@ =~= email_token_from(draws@));
    Some(token)
}

/// A random text in the shape of a universally unique identifier. Where
/// the system gives no randomness, the last group holds the seconds of the
/// clock and the others are zero.
pub fn generate_uuid() -> (text: String)
    ensures
        is_uuid_text(text@),
{
    match draw_numbers(5) {
        Some(draws) => format_uuid(draws[0], draws[1], draws[2], draws[3], draws[4]),
        None => format_uuid(0, 0, 0, 0, Timestamp::now().timestamp() as u64),
    }
}

impl IdGenerator {
    /// A token for the local part of an e-mail address: a random lower-case
    /// letter followed by five random lower-case hexadecimal digits. It is
    /// an internal failure if the system gives no randomness.
    pub fn generate_random_prefix() -> (outcome: Result<String, AugmentError>)
        ensures
            match outcome {
                Ok(token) => is_email_token(token@),
                Err(error) => error is Internal,
            },
    {
        let token = match draw_numbers(6) {
            Some(draws) => email_token_of(&draws),
            None => None,
        };
        match token {
            Some(token) => Ok(token),
            None => Err(AugmentError::internal("the system gave no randomness")),
        }
    }

    /// `length` random hexadecimal digits, in upper case if `uppercase` is set
    /// and in lower case if not. It is an internal failure if the system
    /// gives no randomness.
    pub fn generate_secure_random_string(length: usize, uppercase: bool) -> (outcome: Result<
        String,
        AugmentError,
    >)
        ensures
            match outcome {
                Ok(text) => is_hex_text(text@, length as nat, uppercase),
                Err(error) => error is Internal,
            },
    {
        match draw_numbers(length) {
            Some(draws) => Ok(hex_text_of(&draws, uppercase)),
            None => Err(AugmentError::internal("the system gave no randomness")),
        }
    }

    /// An identifier of `length` lower-case hexadecimal digits, or, where
    /// none can be generated, the tag followed by the seconds of the clock.
    /// It is never empty.
    fn generate_or_fall_back(length: usize, tag: &str) -> (id: String)
        ensures
            is_identifier(id@, length as nat, tag@),
            length > 0 ==> id@.len() > 0,
    {
        let generated = Self::generate_secure_random_string(length, false);
        let timestamp = Self::fallback_seconds(&generated);
        let id = resolve_id(generated, tag, timestamp);
        proof {
            if generated is Err {
                assert(id@ == fallback_text(tag@, timestamp as int));
                assert(is_fallback(id@, tag@));
            }
        }
        id
    }

    /// A fresh device identifier: 64 lower-case hexadecimal digits, or
    /// `fallback_device_` and the seconds of the clock where the system
    /// gives no randomness. It never fails and is never empty.
    pub fn generate_device_id() -> (outcome: Result<String, AugmentError>)
        ensures
            outcome matches Ok(id) && id@.len() > 0 && is_identifier(
                id@,
                constants::DEVICE_ID_LENGTH as nat,
                "fallback_device_"@,
            ),
    {
        Ok(Self::generate_or_fall_back(constants::DEVICE_ID_LENGTH, "fallback_device_"))
    }

    /// A fresh user identifier: 32 lower-case hexadecimal digits, or
    /// `fallback_user_` and the seconds of the clock where the system gives
    /// no randomness. It never fails and is never empty.
    pub fn generate_user_id() -> (outcome: Result<String, AugmentError>)
        ensures
            outcome matches Ok(id) && id@.len() > 0 && is_identifier(
                id@,
                constants::USER_ID_LENGTH as nat,
                "fallback_user_"@,
            ),
    {
        Ok(Self::generate_or_fall_back(constants::USER_ID_LENGTH, "fallback_user_"))
    }

    /// A fresh session identifier: 32 lower-case hexadecimal digits, or
    /// `fallback_session_` and the seconds of the clock where the system
    /// gives no randomness. It never fails and is never empty.
    pub fn generate_session_id() -> (outcome: Result<String, AugmentError>)
        ensures
            outcome matches Ok(id) && id@.len() > 0 && is_identifier(
                id@,
                constants::SESSION_ID_LENGTH as nat,
                "fallback_session_"@,
            ),
    {
        Ok(Self::generate_or_fall_back(constants::SESSION_ID_LENGTH, "fallback_session_"))
    }

    /// A fresh e-mail address: `user_`, a random token and `@example.com`;
    /// where the system gives no randomness, `fallback_` and the seconds
    /// of the clock stand for the token. It never fails.
    pub fn generate_email() -> (outcome: Result<String, AugmentError>)
        ensures
            outcome matches Ok(email) && is_generated_email(email@),
    {
        let generated = Self::generate_random_prefix();
        let timestamp = Self::fallback_seconds(&generated);
        let email = resolve_email(generated, timestamp);
        proof {
            if generated is Ok {
                let token = generated->Ok_0@;
                assert(is_email_token(token) && email@ == email_text(token));
            } else {
                let local = fallback_text("fallback_"@, timestamp as int);
                assert(is_fallback(local, "fallback_"@));
                assert(email@ == email_text(local));
            }
        }
        Ok(email)
    }

    /// A fresh identity: identifiers and an e-mail address as the other
    /// functions make them, a trial of fourteen days that starts now and has
    /// never been reset before, and a history that holds the start alone.
    pub fn generate_account_config() -> (outcome: Result<AugmentConfig, AugmentError>)
        ensures
            outcome matches Ok(config) && Self::is_fresh_identity(config),
    {
        let now = Timestamp::now();
        let device_id = match Self::generate_device_id() {
            Ok(id) => id,
            Err(e) => {
                return Err(e);
            },
        };
        let user_id = match Self::generate_user_id() {
            Ok(id) => id,
            Err(e) => {
                return Err(e);
            },
        };
        let email = match Self::generate_email() {
            Ok(email) => email,
            Err(e) => {
                return Err(e);
            },
        };
        let session_id = match Self::generate_session_id() {
            Ok(id) => id,
            Err(e) => {
                return Err(e);
            },
        };
        let mut reset_history: Vec<Timestamp> = Vec::new();
        reset_history.push(now);
        Ok(
            AugmentConfig {
                device_id,
                user_id,
                email,
                session_id,
                trial_start_date: now,
                trial_end_date: now.plus_days(constants::TRIAL_DURATION_DAYS),
                trial_count: 0,
                reset_history,
            },
        )
    }

    /// What holds of every identity that `generate_account_config` makes.
    pub open spec fn is_fresh_identity(config: AugmentConfig) -> bool {
        &&& is_identifier(
            config.device_id@,
            constants::DEVICE_ID_LENGTH as nat,
            "fallback_device_"@,
        )
        &&& is_identifier(config.user_id@, constants::USER_ID_LENGTH as nat, "fallback_user_"@)
        &&& is_identifier(
            config.session_id@,
            constants::SESSION_ID_LENGTH as nat,
            "fallback_session_"@,
        )
        &&& config.device_id@.len() > 0
        &&& config.user_id@.len() > 0
        &&& config.session_id@.len() > 0
        &&& is_generated_email(config.email@)
        &&& config.trial_end_date.secs() == clamp_seconds(
            config.trial_start_date.secs() + constants::TRIAL_DURATION_DAYS * SECONDS_PER_DAY,
        )
        &&& config.trial_end_date.subsec() == config.trial_start_date.subsec()
        &&& config.trial_count == 0
        &&& config.reset_history@ == seq![config.trial_start_date]
    }

    /// The seconds to build a fallback on: the current time where the
    /// generation failed, and zero, which is then not used, where it did not.
    /// The clock is read only where the generation failed; its seconds lie
    /// in the supported range.
    fn fallback_seconds(outcome: &Result<String, AugmentError>) -> (seconds: i64)
        ensures
            match outcome {
                Ok(_) => seconds == 0,
                Err(_) => 0 <= seconds <= MAX_TIMESTAMP_SECONDS,
            },
    {
        match outcome {
            Ok(_) => 0,
            Err(_) => Timestamp::now().timestamp(),
        }
    }
}

} // verus!
