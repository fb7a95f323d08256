//! The settings that the service reads from its environment, with the
//! values that stand in for what is not set.
//!
//! Nothing here reads the environment: a caller looks a variable up and
//! hands over what it found.

use vstd::prelude::*;
use vstd::string::{StrSliceExecFns, StringExecFns};
use crate::configs::{environment_named, Environment};

verus! {

/// The port on which the service listens where none is set.
pub const DEFAULT_PORT: u16 = 3000;

/// The size of the connection pool where none is set.
pub const DEFAULT_MAX_CONN_POOL: u32 = 100;

/// Why a variable gave no value.
#[derive(Clone, Copy, Debug, PartialEq, Eq, Structural)]
pub enum VarError {
    /// The variable is not set.
    NotPresent,
    /// The variable is set to the empty text.
    Empty,
    /// The text of the variable is not a value of the wanted type.
    Invalid,
}

/// The value of a decimal digit.
pub open spec fn digit_value(c: char) -> nat
    recommends
        is_digit(c),
{
    (c as u32 - '0' as u32) as nat
}

/// A decimal digit.
pub open spec fn is_digit(c: char) -> bool {
    '0' <= c && c <= '9'
}

/// Every character is a decimal digit.
pub open spec fn all_digits(s: Seq<char>) -> bool {
    forall|i: int| 0 <= i < s.len() ==> is_digit(#[trigger] s[i])
}

/// The number that a run of decimal digits stands for.
pub open spec fn digits_value(s: Seq<char>) -> nat
    decreases s.len(),
{
    if s.len() == 0 {
        0
    } else {
        digits_value(s.drop_last()) * 10 + digit_value(s.last())
    }
}

/// The digits of a numeral: what follows its plus sign, if it has one.
pub open spec fn numeral_digits(s: Seq<char>) -> Seq<char> {
    if s.len() > 0 && s[0] == '+' {
        s.drop_first()
    } else {
        s
    }
}

/// The number that a text stands for, if it is a numeral for a number up to
/// `max`: an optional plus sign and one or more decimal digits.
pub open spec fn number_in(s: Seq<char>, max: nat) -> Option<nat> {
    let digits = numeral_digits(s);
    if digits.len() > 0 && all_digits(digits) && digits_value(digits) <= max {
        Some(digits_value(digits))
    } else {
        None
    }
}

/// A longer run of digits stands for no smaller a number.
proof fn lemma_digits_value_grows(s: Seq<char>, k: int)
    requires
        0 <= k <= s.len(),
    ensures
        digits_value(s.take(k)) <= digits_value(s),
    decreases s.len() - k,
{
    if k < s.len() {
        lemma_digits_value_grows(s, k + 1);
        assert(s.take(k + 1).drop_last() =~= s.take(k));
    } else {
        assert(s.take(k) =~= s);
    }
}

/// Reads a numeral for a number up to `max`.
pub fn parse_number(text: &str, max: u32) -> (r: Option<u32>)
    ensures
        r is Some <==> number_in(text@, max as nat) is Some,
        r is Some ==> r->0 as nat == number_in(text@, max as nat)->0,
{
    let len = text.unicode_len();
    let start: usize = if len > 0 && text.get_char(0) == '+' {
        1
    } else {
        0
    };
    let ghost digits = numeral_digits(text@);
    proof {
        assert(digits =~= text@.skip(start as int));
    }
    if start == len {
        return None;
    }
    let mut value: u64 = 0;
    let mut i: usize = start;
    while i < len
        invariant
            start <= i <= len,
            len == text@.len(),
            digits == text@.skip(start as int),
            digits == numeral_digits(text@),
            all_digits(digits.take(i - start)),
            value == digits_value(digits.take(i - start)),
            value <= max,
        decreases len - i,
    {
        let c = text.get_char(i);
        let ghost next = digits.take(i - start + 1);
        proof {
            assert(next.drop_last() =~= digits.take(i - start));
            assert(next.last() == c);
        }
        if !('0' <= c && c <= '9') {
            proof {
                assert(!is_digit(digits[i - start]));
            }
            return None;
        }
        let d = c as u32 - '0' as u32;
        let grown = value * 10 + d as u64;
        if grown > max as u64 {
            proof {
                lemma_digits_value_grows(digits, i - start + 1);
            }
            return None;
        }
        value = grown;
        proof {
            assert forall|j: int| 0 <= j < next.len() implies is_digit(#[trigger] next[j]) by {
                if j < next.len() - 1 {
                    assert(next[j] == digits.take(i - start)[j]);
                }
            }
        }
        i = i + 1;
    }
    proof {
        assert(digits.take(i - start) =~= digits);
    }
    Some(value as u32)
}

/// A type whose values can be read from the text of a variable.
pub trait FromVar: Sized {
    /// The value that a text stands for, if it stands for one.
    spec fn parsed(text: Seq<char>) -> Option<Self>;

    /// Reads a value from a text.
    fn parse(text: &str) -> (r: Option<Self>)
        ensures
            r == Self::parsed(text@),
    ;
}

impl FromVar for u16 {
    open spec fn parsed(text: Seq<char>) -> Option<u16> {
        match number_in(text, u16::MAX as nat) {
            Some(n) => Some(n as u16),
            None => None,
        }
    }

    fn parse(text: &str) -> (r: Option<u16>) {
        match parse_number(text, 65535) {
            Some(n) => Some(n as u16),
            None => None,
        }
    }
}

impl FromVar for u32 {
    open spec fn parsed(text: Seq<char>) -> Option<u32> {
        match number_in(text, u32::MAX as nat) {
            Some(n) => Some(n as u32),
            None => None,
        }
    }

    fn parse(text: &str) -> (r: Option<u32>) {
        parse_number(text, 4294967295)
    }
}

impl FromVar for Environment {
    open spec fn parsed(text: Seq<char>) -> Option<Environment> {
        environment_named(text)
    }

    fn parse(text: &str) -> (r: Option<Environment>) {
        match Environment::from_str(text) {
            Ok(env) => Some(env),
            Err(_) => None,
        }
    }
}

/// What a variable gives: the value that its text stands for, or the reason
/// why there is none.
pub open spec fn var_value<T: FromVar>(found: Option<Seq<char>>) -> Result<T, VarError> {
    match found {
        None => Err(VarError::NotPresent),
        Some(text) => if text.len() == 0 {
            Err(VarError::Empty)
        } else {
            match T::parsed(text) {
                Some(value) => Ok(value),
                None => Err(VarError::Invalid),
            }
        },
    }
}

/// What was found for a variable, as contracts see it.
pub open spec fn found_text(found: Option<&str>) -> Option<Seq<char>> {
    match found {
        Some(text) => Some(text@),
        None => None,
    }
}

/// Reads the value of a variable from what was found for it. A variable
/// that is not set, one that is empty and one whose text is no value of the
/// wanted type each give their own error.
pub fn owned_var_try<T: FromVar>(found: Option<&str>) -> (r: Result<T, VarError>)
    ensures
        r == var_value::<T>(found_text(found)),
{
    match found {
        None => Err(VarError::NotPresent),
        Some(text) => {
            if text.unicode_len() == 0 {
                Err(VarError::Empty)
            } else {
                match T::parse(text) {
                    Some(value) => Ok(value),
                    None => Err(VarError::Invalid),
                }
            }
        },
    }
}

/// Reads the value of a variable that must be there.
#[must_use]
pub fn owned_var<T: FromVar>(found: Option<&str>) -> (r: T)
    requires
        var_value::<T>(found_text(found)) is Ok,
    ensures
        Ok::<T, VarError>(r) == var_value::<T>(found_text(found)),
{
    match owned_var_try(found) {
        Ok(value) => value,
        Err(_) => vstd::pervasive::unreached(),
    }
}

/// Reads the value of a variable, or gives `default` where it has none.
pub fn owned_var_or<T: FromVar>(found: Option<&str>, default: T) -> (r: T)
    ensures
        r == (match var_value::<T>(found_text(found)) {
            Ok(value) => value,
            Err(_) => default,
        }),
{
    match owned_var_try(found) {
        Ok(value) => value,
        Err(_) => default,
    }
}

/// Reads the value of a variable, or asks `default` for one where it has
/// none. `default` is not called where the variable has a value.
pub fn owned_var_or_else<T: FromVar, V: FnOnce() -> T>(found: Option<&str>, default: V) -> (r: T)
    requires
        var_value::<T>(found_text(found)) is Err ==> default.requires(()),
    ensures
        var_value::<T>(found_text(found)) is Ok ==> Ok::<T, VarError>(r) == var_value::<T>(
            found_text(found),
        ),
        var_value::<T>(found_text(found)) is Err ==> default.ensures((), r),
{
    match owned_var_try(found) {
        Ok(value) => value,
        Err(_) => default(),
    }
}

/// The text of a variable, or the reason why it has none.
pub open spec fn text_value(found: Option<Seq<char>>) -> Result<Seq<char>, VarError> {
    match found {
        None => Err(VarError::NotPresent),
        Some(text) => if text.len() == 0 {
            Err(VarError::Empty)
        } else {
            Ok(text)
        },
    }
}

/// Reads a variable whose value is its text. A variable that is not set and
/// one that is empty each give their own error.
pub fn owned_text_try(found: Option<&str>) -> (r: Result<String, VarError>)
    ensures
        r is Ok <==> text_value(found_text(found)) is Ok,
        r is Ok ==> Ok::<Seq<char>, VarError>(r->Ok_0@) == text_value(found_text(found)),
        r is Err ==> Err::<Seq<char>, VarError>(r->Err_0) == text_value(found_text(found)),
{
    match found {
        None => Err(VarError::NotPresent),
        Some(text) => {
            if text.unicode_len() == 0 {
                Err(VarError::Empty)
            } else {
                Ok(text.to_owned())
            }
        },
    }
}

/// Reads a variable whose value is its text, or gives `default` where it
/// has none.
pub fn owned_text_or(found: Option<&str>, default: &str) -> (r: String)
    ensures
        r@ == (match text_value(found_text(found)) {
            Ok(text) => text,
            Err(_) => default@,
        }),
{
    match owned_text_try(found) {
        Ok(text) => text,
        Err(_) => default.to_owned(),
    }
}

/// What is said of a variable that gave no value.
pub open spec fn var_error_text(error: VarError, name: Seq<char>) -> Seq<char> {
    match error {
        VarError::NotPresent => "environment variable not found"@,
        VarError::Empty => "Empty environment variable "@ + name + "!"@,
        VarError::Invalid => "Couldn't parse env variable "@ + name,
    }
}

impl VarError {
    /// Says why the variable `name` gave no value.
    pub fn message(self, name: &str) -> (text: String)
        ensures
            text@ == var_error_text(self, name@),
    {
        match self {
            VarError::NotPresent => "environment variable not found".to_owned(),
            VarError::Empty => "Empty environment variable ".to_owned().concat(name).concat("!"),
            VarError::Invalid => "Couldn't parse env variable ".to_owned().concat(name),
        }
    }
}

/// Calls `Box::leak`: the value stays where it is for as long as the
/// process runs, and the reference reads it.
#[verifier::external_body]
fn leak<T: 'static>(value: Box<T>) -> (r: &'static T)
    ensures
        *r == *value,
{
    Box::leak(value)
}

/// Calls `String::into_boxed_str`: the same text in a box.
#[verifier::external_body]
fn boxed_text(text: String) -> (r: Box<str>)
    ensures
        r@ == text@,
{
    text.into_boxed_str()
}

/// Calls `Box::leak` on a boxed text: the text stays where it is for as
/// long as the process runs, and the reference reads it.
#[verifier::external_body]
fn leak_text(text: Box<str>) -> (r: &'static str)
    ensures
        r@ == text@,
{
    Box::leak(text)
}

/// Reads a variable whose value is its text, as [`owned_text_try`] does,
/// and keeps the text for as long as the process runs. A failure keeps
/// nothing.
pub fn text_try(found: Option<&str>) -> (r: Result<&'static str, VarError>)
    ensures
        r is Ok <==> text_value(found_text(found)) is Ok,
        r is Ok ==> Ok::<Seq<char>, VarError>(r->Ok_0@) == text_value(found_text(found)),
        r is Err ==> Err::<Seq<char>, VarError>(r->Err_0) == text_value(found_text(found)),
{
    match owned_text_try(found) {
        Ok(text) => Ok(leak_text(boxed_text(text))),
        Err(error) => Err(error),
    }
}

/// Reads a variable whose value is its text and keeps the text for as long
/// as the process runs, or gives `default` where the variable has none.
pub fn text_or(found: Option<&str>, default: &'static str) -> (r: &'static str)
    ensures
        r@ == (match text_value(found_text(found)) {
            Ok(text) => text,
            Err(_) => default@,
        }),
{
    match owned_text_try(found) {
        Ok(text) => leak_text(boxed_text(text)),
        Err(_) => default,
    }
}

/// Reads the value of a variable as [`owned_var_try`] does and keeps it for
/// as long as the process runs. A failure keeps nothing.
pub fn var_try<T: FromVar + 'static>(found: Option<&str>) -> (r: Result<&'static T, VarError>)
    ensures
        r is Ok <==> var_value::<T>(found_text(found)) is Ok,
        r is Ok ==> Ok::<T, VarError>(*r->Ok_0) == var_value::<T>(found_text(found)),
        r is Err ==> Err::<T, VarError>(r->Err_0) == var_value::<T>(found_text(found)),
{
    match owned_var_try(found) {
        Ok(value) => Ok(leak(Box::new(value))),
        Err(error) => Err(error),
    }
}

/// Reads the value of a variable that must be there and keeps it for as
/// long as the process runs.
#[must_use]
pub fn var<T: FromVar + 'static>(found: Option<&str>) -> (r: &'static T)
    requires
        var_value::<T>(found_text(found)) is Ok,
    ensures
        Ok::<T, VarError>(*r) == var_value::<T>(found_text(found)),
{
    leak(Box::new(owned_var(found)))
}

/// Reads the value of a variable and keeps it for as long as the process
/// runs, or gives `default` where the variable has none.
pub fn var_or<T: FromVar + 'static>(found: Option<&str>, default: &'static T) -> (r: &'static T)
    ensures
        *r == (match var_value::<T>(found_text(found)) {
            Ok(value) => value,
            Err(_) => *default,
        }),
{
    match owned_var_try(found) {
        Ok(value) => leak(Box::new(value)),
        Err(_) => default,
    }
}

/// Reads the value of a variable, or asks `default` for one where it has
/// none, and keeps either for as long as the process runs. `default` is
/// not called where the variable has a value.
pub fn var_or_else<T: FromVar + 'static, V: FnOnce() -> T>(found: Option<&str>, default: V) -> (r:
    &'static T)
    requires
        var_value::<T>(found_text(found)) is Err ==> default.requires(()),
    ensures
        var_value::<T>(found_text(found)) is Ok ==> Ok::<T, VarError>(*r) == var_value::<T>(
            found_text(found),
        ),
        var_value::<T>(found_text(found)) is Err ==> default.ensures((), *r),
{
    leak(Box::new(owned_var_or_else(found, default)))
}

/// The settings of the service.
#[derive(Clone, Copy, Debug, PartialEq, Eq, Structural)]
pub struct Settings {
    /// The port on which the service listens.
    pub port: u16,
    /// The greatest number of connections in the pool.
    pub max_conn_pool: u32,
    /// Where the service runs.
    pub env: Environment,
}

impl Settings {
    /// The settings from what was found for the port, the size of the pool
    /// and the environment. A variable that is not set, is empty or does not
    /// parse gives way to its default: port 3000, a pool of 100, production.
    pub fn new(port: Option<&str>, max_conn_pool: Option<&str>, env: Option<&str>) -> (r: Settings)
        ensures
            r.port == (match var_value::<u16>(found_text(port)) {
                Ok(value) => value,
                Err(_) => DEFAULT_PORT,
            }),
            r.max_conn_pool == (match var_value::<u32>(found_text(max_conn_pool)) {
                Ok(value) => value,
                Err(_) => DEFAULT_MAX_CONN_POOL,
            }),
            r.env == (match var_value::<Environment>(found_text(env)) {
                Ok(value) => value,
                Err(_) => Environment::PROD,
            }),
    {
        Settings {
            port: owned_var_or(port, DEFAULT_PORT),
            max_conn_pool: owned_var_or(max_conn_pool, DEFAULT_MAX_CONN_POOL),
            env: owned_var_or(env, Environment::PROD),
        }
    }
}

} // verus!
