//! Validated Discord identity types.
use vstd::prelude::*;

verus! {

/// Holds when `c` is one of the ASCII decimal digits `0` to `9`.
pub open spec fn is_decimal_digit(c: char) -> bool {
    '0' <= c && c <= '9'
}

/// Holds when `text` is a Discord snowflake in canonical decimal form: one to twenty
/// decimal digits, not all of them zero.
pub open spec fn is_snowflake_text(text: Seq<char>) -> bool {
    &&& 1 <= text.len() <= 20
    &&& forall|i: int| 0 <= i < text.len() ==> is_decimal_digit(#[trigger] text[i])
    &&& exists|i: int| 0 <= i < text.len() && #[trigger] text[i] != '0'
}

/// A validated non-zero decimal Discord snowflake identifier.
#[derive(Debug, PartialEq, Eq, Hash)]
pub struct DiscordSnowflake(String);

impl View for DiscordSnowflake {
    type V = Seq<char>;

    closed spec fn view(&self) -> Seq<char> {
        self.0@
    }
}

impl DiscordSnowflake {
    /// Every snowflake holds canonical snowflake text.
    #[verifier::type_invariant]
    closed spec fn holds_snowflake_text(self) -> bool {
        is_snowflake_text(self.0@)
    }

    /// Validates and creates a Discord snowflake from a decimal identifier.
    ///
    /// Returns an error when the identifier is empty, longer than Discord's current 20-digit
    /// representation, non-decimal, or zero.
    pub fn new(value: &str) -> (result: Result<Self, DiscordSnowflakeError>)
        ensures
            result is Ok <==> is_snowflake_text(value@),
            result matches Ok(snowflake) ==> snowflake@ == value@,
    {
        let length = value.unicode_len();
        if length == 0 || length > 20 {
            return Err(DiscordSnowflakeError);
        }
        let mut index: usize = 0;
        let mut nonzero = false;
        while index < length
            invariant
                length == value@.len(),
                index <= length,
                forall|j: int| 0 <= j < index ==> is_decimal_digit(#[trigger] value@[j]),
                nonzero <==> exists|j: int| 0 <= j < index && #[trigger] value@[j] != '0',
            decreases length - index,
        {
            let c = value.get_char(index);
            if !('0' <= c && c <= '9') {
                return Err(DiscordSnowflakeError);
            }
            if c != '0' {
                nonzero = true;
            }
            index = index + 1;
        }
        if !nonzero {
            return Err(DiscordSnowflakeError);
        }
        Ok(DiscordSnowflake(String::from_str(value)))
    }

    /// Returns the canonical decimal representation used by Discord APIs.
    pub fn as_str(&self) -> (text: &str)
        ensures
            text@ == self@,
            is_snowflake_text(text@),
    {
        proof {
            use_type_invariant(self);
        }
        self.0.as_str()
    }

    /// Returns the snowflake's canonical decimal representation as an owned string, as
    /// displaying the snowflake writes it.
    pub fn to_string(&self) -> (text: String)
        ensures
            text@ == self@,
    {
        String::from_str(self.as_str())
    }
}

impl Clone for DiscordSnowflake {
    /// Copies the snowflake's text.
    fn clone(&self) -> (copy: Self)
        ensures
            copy@ == self@,
    {
        proof {
            use_type_invariant(self);
        }
        DiscordSnowflake(self.0.clone())
    }
}

/// Explains why a value cannot represent a Discord snowflake.
#[derive(Debug, Clone, Copy, PartialEq, Eq)]
pub struct DiscordSnowflakeError;

impl DiscordSnowflakeError {
    /// Returns the actionable explanation of a snowflake-validation failure.
    pub fn to_string(&self) -> (message: String)
        ensures
            message@ == "Discord snowflake must be a non-zero decimal identifier"@,
    {
        String::from_str("Discord snowflake must be a non-zero decimal identifier")
    }
}

} // verus!
