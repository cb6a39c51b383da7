//! Flag types: `FlagName`, `Flag` and `FlagChange`.
use vstd::prelude::*;

use crate::error::FlagError;
use crate::text::{append_decimal, decimal, TextValue};

verus! {

broadcast use vstd::string::group_string_axioms;

/// A lowercase ASCII letter `a-z`.
pub open spec fn is_name_start(c: char) -> bool {
    'a' <= c && c <= 'z'
}

/// A character allowed after the first one: `a-z`, `0-9` or `_`.
pub open spec fn is_name_char(c: char) -> bool {
    is_name_start(c) || ('0' <= c && c <= '9') || c == '_'
}

/// `s` matches `^[a-z][a-z0-9_]*$`.
pub open spec fn is_valid_flag_name(s: Seq<char>) -> bool {
    &&& s.len() > 0
    &&& is_name_start(s[0])
    &&& forall|i: int| 1 <= i < s.len() ==> #[trigger] is_name_char(s[i])
}

/// Reason given for an empty name.
pub open spec fn reason_empty() -> Seq<char> {
    "flag name must not be empty"@
}

/// Reason given for a name whose first character is not `a-z`.
pub open spec fn reason_start() -> Seq<char> {
    "must start with lowercase letter a-z"@
}

/// Reason given for a name with a character outside `a-z0-9_` after the first.
pub open spec fn reason_pattern() -> Seq<char> {
    "must match ^[a-z][a-z0-9_]*$ (lowercase snake_case)"@
}

/// The reason with which an invalid name is rejected.
pub open spec fn name_rejection_reason(s: Seq<char>) -> Seq<char> {
    if s.len() == 0 {
        reason_empty()
    } else if !is_name_start(s[0]) {
        reason_start()
    } else {
        reason_pattern()
    }
}

/// `e` is the error with which the name `s` is rejected.
pub open spec fn is_name_rejection(e: FlagError, s: Seq<char>) -> bool {
    e matches FlagError::InvalidName { name, reason } && name@ == s && reason@
        == name_rejection_reason(s)
}

/// A validated flag name.
///
/// Must match `^[a-z][a-z0-9_]*$` (snake_case, starting with a lowercase letter).
#[derive(Debug, Clone, PartialEq, Eq, Hash, PartialOrd, Ord)]
pub struct FlagName(String);

impl View for FlagName {
    type V = Seq<char>;

    closed spec fn view(&self) -> Seq<char> {
        self.0@
    }
}

impl FlagName {
    /// Validates and creates a new `FlagName`.
    ///
    /// # Errors
    /// Returns `FlagError::InvalidName` if the name does not match
    /// `^[a-z][a-z0-9_]*$`.
    pub fn new<T: TextValue>(name: T) -> (r: Result<FlagName, FlagError>)
        ensures
            r is Ok <==> is_valid_flag_name(name.text()),
            r matches Ok(n) ==> n@ == name.text(),
            r matches Err(e) ==> is_name_rejection(e, name.text()),
    {
        let s = name.into_string();
        match Self::validate(s.as_str()) {
            Ok(()) => Ok(FlagName(s)),
            Err(e) => Err(e),
        }
    }

    /// Creates a `FlagName` without validation.
    ///
    /// Intended for internal/test use only.
    pub fn new_unchecked<T: TextValue>(name: T) -> (n: FlagName)
        ensures
            n@ == name.text(),
    {
        FlagName(name.into_string())
    }

    /// Returns the inner string slice.
    pub fn as_str(&self) -> (s: &str)
        ensures
            s@ == self@,
    {
        self.0.as_str()
    }

    /// Consumes self and returns the inner `String`.
    pub fn into_inner(self) -> (s: String)
        ensures
            s@ == self@,
    {
        self.0
    }

    /// Returns the name as an owned `String` (what `Display` would print).
    pub fn to_string(&self) -> (s: String)
        ensures
            s@ == self@,
    {
        self.0.clone()
    }

    /// Returns a copy of this name.
    pub fn duplicate(&self) -> (n: FlagName)
        ensures
            n@ == self@,
    {
        FlagName(self.0.clone())
    }

    /// Checks a candidate name against `^[a-z][a-z0-9_]*$`.
    fn validate(s: &str) -> (r: Result<(), FlagError>)
        ensures
            r is Ok <==> is_valid_flag_name(s@),
            r matches Err(e) ==> is_name_rejection(e, s@),
    {
        if s.is_empty() {
            return Err(FlagError::invalid_name(s, "flag name must not be empty"));
        }
        let mut first = true;
        for c in it: s.chars()
            invariant
                it.seq() == s@,
                first <==> it.index() == 0,
                s@.len() > 0,
                it.index() > 0 ==> is_name_start(s@[0]),
                forall|i: int| 1 <= i < it.index() ==> #[trigger] is_name_char(s@[i]),
        {
            if first {
                if !('a' <= c && c <= 'z') {
                    return Err(FlagError::invalid_name(s, "must start with lowercase letter a-z"));
                }
                first = false;
            } else if !(('a' <= c && c <= 'z') || ('0' <= c && c <= '9') || c == '_') {
                assert(!is_name_char(s@[it.index() as int]));
                return Err(
                    FlagError::invalid_name(
                        s,
                        "must match ^[a-z][a-z0-9_]*$ (lowercase snake_case)",
                    ),
                );
            }
        }
        Ok(())
    }
}

} // verus!

verus! {

/// The message of the error for a percentage `p` outside `0..=100`.
pub open spec fn percentage_error_text(p: u8) -> Seq<char> {
    "percentage must be 0..=100, got "@ + decimal(p as nat)
}

/// `e` is the error with which the percentage `p` is refused.
pub open spec fn is_percentage_rejection(e: FlagError, p: u8) -> bool {
    e matches FlagError::Storage(m) && m@ == percentage_error_text(p)
}

/// Builds the error for a percentage outside `0..=100`.
pub(crate) fn percentage_error(p: u8) -> (e: FlagError)
    ensures
        is_percentage_rejection(e, p),
{
    let mut msg = String::from_str("percentage must be 0..=100, got ");
    append_decimal(&mut msg, p);
    FlagError::Storage(msg)
}

/// The abstract content of a [`Flag`].
pub struct FlagView {
    pub name: Seq<char>,
    pub enabled: bool,
    pub percentage: u8,
    pub created_at: Option<i64>,
}

/// A feature flag definition.
///
/// `percentage` controls deterministic rollout: `0` means never enabled for
/// rollout evaluation, `100` means enabled for all users when `enabled` is
/// true. The constructors refuse values above `100`.
#[derive(Debug, Clone, PartialEq, Eq)]
pub struct Flag {
    /// Flag name.
    pub name: FlagName,
    /// Global on/off switch. If `false`, the flag is disabled regardless of rollout.
    pub enabled: bool,
    /// Rollout percentage `0..=100`.
    pub percentage: u8,
    /// When the flag was created (unix timestamp seconds).
    pub created_at: Option<i64>,
}

impl View for Flag {
    type V = FlagView;

    open spec fn view(&self) -> FlagView {
        FlagView {
            name: self.name@,
            enabled: self.enabled,
            percentage: self.percentage,
            created_at: self.created_at,
        }
    }
}

impl Flag {
    /// Creates a new flag, validating that `percentage` is `0..=100`.
    ///
    /// # Errors
    /// Returns `FlagError::Storage` if the percentage is out of range.
    pub fn new(name: FlagName, enabled: bool, percentage: u8) -> (r: Result<Flag, FlagError>)
        ensures
            r is Ok <==> percentage <= 100,
            r matches Ok(f) ==> f@ == (FlagView {
                name: name@,
                enabled,
                percentage,
                created_at: None,
            }),
            r matches Err(e) ==> is_percentage_rejection(e, percentage),
    {
        if percentage > 100 {
            return Err(percentage_error(percentage));
        }
        Ok(Flag { name, enabled, percentage, created_at: None })
    }

    /// Creates a new flag with a creation timestamp (unix seconds).
    pub fn with_created_at(name: FlagName, enabled: bool, percentage: u8, created_at: i64) -> (r:
        Result<Flag, FlagError>)
        ensures
            r is Ok <==> percentage <= 100,
            r matches Ok(f) ==> f@ == (FlagView {
                name: name@,
                enabled,
                percentage,
                created_at: Some(created_at),
            }),
            r matches Err(e) ==> is_percentage_rejection(e, percentage),
    {
        let mut flag = Self::new(name, enabled, percentage)?;
        flag.created_at = Some(created_at);
        Ok(flag)
    }

    /// Sets the percentage, refusing values above `100`.
    ///
    /// A refused value leaves the flag unchanged.
    pub fn set_percentage(&mut self, pct: u8) -> (r: Result<(), FlagError>)
        ensures
            r is Ok <==> pct <= 100,
            r is Ok ==> final(self)@ == (FlagView { percentage: pct, ..old(self)@ }),
            r matches Err(e) ==> is_percentage_rejection(e, pct) && final(self)@ == old(self)@,
    {
        if pct > 100 {
            return Err(percentage_error(pct));
        }
        self.percentage = pct;
        Ok(())
    }

    /// Returns `true` if the flag is globally enabled (ignoring rollout).
    pub fn is_enabled(&self) -> (b: bool)
        ensures
            b == self.enabled,
    {
        self.enabled
    }

    /// Returns a copy of this flag.
    pub fn duplicate(&self) -> (f: Flag)
        ensures
            f@ == self@,
    {
        Flag {
            name: self.name.duplicate(),
            enabled: self.enabled,
            percentage: self.percentage,
            created_at: self.created_at,
        }
    }
}

/// The abstract content of a [`FlagChange`].
pub struct FlagChangeView {
    pub name: Seq<char>,
    pub old: bool,
    pub new: bool,
    pub who: Seq<char>,
    pub when: i64,
}

/// An audit record for a flag change.
#[derive(Debug, Clone, PartialEq, Eq)]
pub struct FlagChange {
    /// Flag name that changed.
    pub name: FlagName,
    /// Previous enabled state.
    pub old: bool,
    /// New enabled state.
    pub new: bool,
    /// Who made the change.
    pub who: String,
    /// When, in unix timestamp seconds.
    pub when: i64,
}

impl View for FlagChange {
    type V = FlagChangeView;

    open spec fn view(&self) -> FlagChangeView {
        FlagChangeView {
            name: self.name@,
            old: self.old,
            new: self.new,
            who: self.who@,
            when: self.when,
        }
    }
}

/// The current time in unix seconds, read from the system clock.
///
/// Wraps `chrono::Utc::now().timestamp()`. The value depends on the clock, so
/// nothing is stated of it.
#[verifier::external_body]
fn unix_now() -> (t: i64) {
    chrono::Utc::now().timestamp()
}

impl FlagChange {
    /// Creates a new `FlagChange` record.
    pub fn new<W: TextValue>(name: FlagName, old: bool, new: bool, who: W, when: i64) -> (c:
        FlagChange)
        ensures
            c@ == (FlagChangeView { name: name@, old, new, who: who.text(), when }),
    {
        FlagChange { name, old, new, who: who.into_string(), when }
    }

    /// Creates a new change stamped with the current time.
    pub fn now<W: TextValue>(name: FlagName, old: bool, new: bool, who: W) -> (c: FlagChange)
        ensures
            c@ == (FlagChangeView { name: name@, old, new, who: who.text(), when: c.when }),
    {
        let when = unix_now();
        Self::new(name, old, new, who, when)
    }

    /// Returns `true` if this change enabled the flag.
    pub fn enabled(&self) -> (b: bool)
        ensures
            b == (!self.old && self.new),
    {
        !self.old && self.new
    }

    /// Returns `true` if this change disabled the flag.
    pub fn disabled(&self) -> (b: bool)
        ensures
            b == (self.old && !self.new),
    {
        self.old && !self.new
    }
}

/// A change never both enables and disables its flag, and it does one of
/// the two exactly when the old and new states differ.
pub proof fn lemma_change_direction(c: FlagChangeView)
    ensures
        !((!c.old && c.new) && (c.old && !c.new)),
        ((!c.old && c.new) || (c.old && !c.new)) <==> c.old != c.new,
{
}

} // verus!

verus! {

impl core::str::FromStr for FlagName {
    type Err = FlagError;

    fn from_str(s: &str) -> (r: Result<FlagName, FlagError>)
        ensures
            r is Ok <==> is_valid_flag_name(s@),
            r matches Ok(n) ==> n@ == s@,
            r matches Err(e) ==> is_name_rejection(e, s@),
    {
        FlagName::new(s)
    }
}

impl TryFrom<String> for FlagName {
    type Error = FlagError;

    fn try_from(s: String) -> (r: Result<FlagName, FlagError>)
        ensures
            r is Ok <==> is_valid_flag_name(s@),
            r matches Ok(n) ==> n@ == s@,
            r matches Err(e) ==> is_name_rejection(e, s@),
    {
        FlagName::new(s)
    }
}

/// The trait-level specification is not used: `try_from` states its result
/// in its own `ensures`, as `FlagName::new` does.
impl vstd::std_specs::convert::TryFromSpecImpl<String> for FlagName {
    open spec fn obeys_try_from_spec() -> bool {
        false
    }

    open spec fn try_from_spec(v: String) -> Result<FlagName, FlagError> {
        arbitrary()
    }
}

impl<'a> TryFrom<&'a str> for FlagName {
    type Error = FlagError;

    fn try_from(s: &'a str) -> (r: Result<FlagName, FlagError>)
        ensures
            r is Ok <==> is_valid_flag_name(s@),
            r matches Ok(n) ==> n@ == s@,
            r matches Err(e) ==> is_name_rejection(e, s@),
    {
        FlagName::new(s)
    }
}

/// The trait-level specification is not used: `try_from` states its result
/// in its own `ensures`, as `FlagName::new` does.
impl<'a> vstd::std_specs::convert::TryFromSpecImpl<&'a str> for FlagName {
    open spec fn obeys_try_from_spec() -> bool {
        false
    }

    open spec fn try_from_spec(v: &'a str) -> Result<FlagName, FlagError> {
        arbitrary()
    }
}

impl AsRef<str> for FlagName {
    fn as_ref(&self) -> (s: &str)
        ensures
            s@ == self@,
    {
        self.as_str()
    }
}

impl core::ops::Deref for FlagName {
    type Target = str;

    fn deref(&self) -> (s: &str)
        ensures
            s@ == self@,
    {
        self.as_str()
    }
}

} // verus!
