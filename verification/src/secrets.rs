//! Required string fields of JSON-encoded application secrets.
use vstd::prelude::*;

use crate::text::{join_text, is_blank, is_blank_text};

verus! {

/// Lets verified code hold an AWS Secrets Manager client.
#[verifier::external_type_specification]
#[verifier::external_body]
pub struct ExSecretsManagerClient(aws_sdk_secretsmanager::Client);

/// Copies a client handle; the copy shares the original's configuration and connections.
/// Nothing is stated of the copy, which is opaque here.
pub assume_specification[ <aws_sdk_secretsmanager::Client as core::clone::Clone>::clone ](
    client: &aws_sdk_secretsmanager::Client,
) -> aws_sdk_secretsmanager::Client;

/// A member value of a JSON object secret: its JSON kind, and its contents when it is a boolean
/// or a string.
#[derive(Debug)]
pub enum JsonMember {
    /// `null`
    Null,
    /// A boolean.
    Bool(bool),
    /// A number.
    Number,
    /// A string, with its text.
    Text(String),
    /// An array.
    Array,
    /// An object.
    Object,
}

/// The abstract content of a JSON member value.
pub enum JsonMemberView {
    /// `null`
    Null,
    /// A boolean.
    Bool(bool),
    /// A number.
    Number,
    /// A string, with its text.
    Text(Seq<char>),
    /// An array.
    Array,
    /// An object.
    Object,
}

impl View for JsonMember {
    type V = JsonMemberView;

    open spec fn view(&self) -> JsonMemberView {
        match self {
            JsonMember::Null => JsonMemberView::Null,
            JsonMember::Bool(value) => JsonMemberView::Bool(*value),
            JsonMember::Number => JsonMemberView::Number,
            JsonMember::Text(text) => JsonMemberView::Text(text@),
            JsonMember::Array => JsonMemberView::Array,
            JsonMember::Object => JsonMemberView::Object,
        }
    }
}

/// A parsed JSON secret: whether it parsed, its top-level JSON kind, the text of a string and,
/// for an object, each member's name with its value.
#[derive(Debug)]
pub enum JsonSecret {
    /// The secret is not JSON.
    Unparsable,
    /// `null`
    Null,
    /// A boolean.
    Bool(bool),
    /// A number.
    Number,
    /// A string, with its text (a double-encoded secret).
    Text(String),
    /// An array.
    Array,
    /// An object, with its members.
    Object(Vec<(String, JsonMember)>),
}

/// The abstract content of a parsed JSON secret.
pub enum JsonSecretView {
    /// The secret is not JSON.
    Unparsable,
    /// `null`
    Null,
    /// A boolean.
    Bool(bool),
    /// A number.
    Number,
    /// A string, with its text.
    Text(Seq<char>),
    /// An array.
    Array,
    /// An object: each member's name with its value.
    Object(Seq<(Seq<char>, JsonMemberView)>),
}

impl View for JsonSecret {
    type V = JsonSecretView;

    open spec fn view(&self) -> JsonSecretView {
        match self {
            JsonSecret::Unparsable => JsonSecretView::Unparsable,
            JsonSecret::Null => JsonSecretView::Null,
            JsonSecret::Bool(value) => JsonSecretView::Bool(*value),
            JsonSecret::Number => JsonSecretView::Number,
            JsonSecret::Text(text) => JsonSecretView::Text(text@),
            JsonSecret::Array => JsonSecretView::Array,
            JsonSecret::Object(members) => JsonSecretView::Object(
                members@.map_values(|member: (String, JsonMember)| (member.0@, member.1@)),
            ),
        }
    }
}

/// Holds when no two members share a name, as in a JSON object read into a map.
pub open spec fn distinct_member_names(members: Seq<(Seq<char>, JsonMemberView)>) -> bool {
    forall|i: int, j: int|
        0 <= i < j < members.len() ==> #[trigger] members[i].0 != #[trigger] members[j].0
}

/// What `serde_json` reads from the text of a secret: whether it is JSON, its top-level kind,
/// and for an object its members in the order its map keeps them.
pub uninterp spec fn parsed_json_secret(text: Seq<char>) -> JsonSecretView;

/// Converts one JSON member value, one arm per JSON kind.
///
/// Trusted: moves the boolean or the string out of a `serde_json::Value`; it states nothing
/// by itself and only serves `parse_json_secret`.
#[verifier::external_body]
fn json_member(value: serde_json::Value) -> JsonMember {
    match value {
        serde_json::Value::Null => JsonMember::Null,
        serde_json::Value::Bool(value) => JsonMember::Bool(value),
        serde_json::Value::Number(_) => JsonMember::Number,
        serde_json::Value::String(text) => JsonMember::Text(text),
        serde_json::Value::Array(_) => JsonMember::Array,
        serde_json::Value::Object(_) => JsonMember::Object,
    }
}

/// Parses the text of a secret as JSON, one arm per JSON kind.
///
/// Trusted: calls `serde_json::from_str::<serde_json::Value>`, whose result depends on the text
/// alone; an object's members come from its map, so no two share a name. No panic is possible
/// there.
#[verifier::external_body]
fn parse_json_secret(text: &str) -> (parsed: JsonSecret)
    ensures
        parsed@ == parsed_json_secret(text@),
        parsed@ matches JsonSecretView::Object(members) ==> distinct_member_names(members),
{
    match serde_json::from_str::<serde_json::Value>(text) {
        Err(_) => JsonSecret::Unparsable,
        Ok(serde_json::Value::Null) => JsonSecret::Null,
        Ok(serde_json::Value::Bool(value)) => JsonSecret::Bool(value),
        Ok(serde_json::Value::Number(_)) => JsonSecret::Number,
        Ok(serde_json::Value::String(text)) => JsonSecret::Text(text),
        Ok(serde_json::Value::Array(_)) => JsonSecret::Array,
        Ok(serde_json::Value::Object(map)) => JsonSecret::Object(
            map.into_iter().map(|(name, value)| (name, json_member(value))).collect(),
        ),
    }
}

/// The value of the first member named `field`, if any.
pub open spec fn member_value(
    members: Seq<(Seq<char>, JsonMemberView)>,
    field: Seq<char>,
) -> Option<JsonMemberView>
    decreases members.len(),
{
    if members.len() == 0 {
        None
    } else if members[0].0 == field {
        Some(members[0].1)
    } else {
        member_value(members.drop_first(), field)
    }
}

/// Looking a field up finds its member wherever it stands: when the members have distinct
/// names and the member at position `k` is named `field`, the lookup gives that member's value.
pub proof fn lemma_member_value_at_any_position(
    members: Seq<(Seq<char>, JsonMemberView)>,
    field: Seq<char>,
    k: int,
)
    requires
        distinct_member_names(members),
        0 <= k < members.len(),
        members[k].0 == field,
    ensures
        member_value(members, field) == Some(members[k].1),
    decreases members.len(),
{
    if k > 0 {
        assert(members[0].0 != members[k].0);
        let rest = members.drop_first();
        assert forall|i: int, j: int| 0 <= i < j < rest.len() implies #[trigger] rest[i].0
            != #[trigger] rest[j].0 by {
            assert(rest[i] == members[i + 1]);
            assert(rest[j] == members[j + 1]);
        }
        assert(rest[k - 1] == members[k]);
        lemma_member_value_at_any_position(rest, field, k - 1);
    }
}

/// Looking up a field that no member is named finds nothing.
pub proof fn lemma_member_value_absent(members: Seq<(Seq<char>, JsonMemberView)>, field: Seq<char>)
    requires
        forall|k: int| 0 <= k < members.len() ==> #[trigger] members[k].0 != field,
    ensures
        member_value(members, field) is None,
    decreases members.len(),
{
    if members.len() > 0 {
        let rest = members.drop_first();
        assert forall|k: int| 0 <= k < rest.len() implies #[trigger] rest[k].0 != field by {
            assert(rest[k] == members[k + 1]);
        }
        lemma_member_value_absent(rest, field);
    }
}

/// A required field is read wherever it stands in the object: when the members have distinct
/// names and the member at position `k` is named `field` and holds non-blank text, that text
/// is the field's required value; a field no member is named has none.
pub proof fn lemma_required_text_at_any_position(
    members: Seq<(Seq<char>, JsonMemberView)>,
    field: Seq<char>,
    k: int,
    text: Seq<char>,
)
    requires
        distinct_member_names(members),
        0 <= k < members.len(),
        members[k] == (field, JsonMemberView::Text(text)),
        !is_blank_text(text),
    ensures
        required_member_text(members, field) == Some(text),
{
    lemma_member_value_at_any_position(members, field, k);
}

/// The required text of member `field`: present when the member exists, is a JSON string and
/// is not blank.
pub open spec fn required_member_text(
    members: Seq<(Seq<char>, JsonMemberView)>,
    field: Seq<char>,
) -> Option<Seq<char>> {
    match member_value(members, field) {
        Some(JsonMemberView::Text(text)) => if is_blank_text(text) {
            None
        } else {
            Some(text)
        },
        _ => None,
    }
}

/// Holds when `value` is what reading required field `field` from the parsed secret `secret`
/// gives: its non-blank string text, `NotJsonObject` when the secret is not a JSON object, and
/// otherwise `MissingRequiredField` naming `field`.
pub open spec fn reads_required_field(
    secret: JsonSecretView,
    field: Seq<char>,
    value: Result<String, SecretFieldError>,
) -> bool {
    match secret {
        JsonSecretView::Object(members) => match required_member_text(members, field) {
            Some(text) => value matches Ok(found) && found@ == text,
            None => value matches Err(SecretFieldError::MissingRequiredField(name)) && name@
                == field,
        },
        _ => value matches Err(SecretFieldError::NotJsonObject),
    }
}

/// Explains why a secret does not yield a required field.
#[derive(Debug, Clone)]
pub enum SecretFieldError {
    /// The secret has no string value at all.
    NoStringValue,
    /// The secret is not a JSON object.
    NotJsonObject,
    /// The named field is missing, not a string, or blank.
    MissingRequiredField(String),
}

impl SecretFieldError {
    /// Returns the human-readable explanation of the error.
    pub fn to_string(&self) -> (message: String)
        ensures
            message@ == match self {
                SecretFieldError::NoStringValue => "Secret has no string value"@,
                SecretFieldError::NotJsonObject => "Secret must be a JSON object"@,
                SecretFieldError::MissingRequiredField(field) => "Secret is missing required non-blank "@
                    + field@ + " field"@,
            },
    {
        match self {
            SecretFieldError::NoStringValue => String::from_str("Secret has no string value"),
            SecretFieldError::NotJsonObject => String::from_str("Secret must be a JSON object"),
            SecretFieldError::MissingRequiredField(field) => {
                let mut message = join_text(
                    "Secret is missing required non-blank ",
                    field.as_str(),
                );
                message.append(" field");
                message
            },
        }
    }
}

/// Reads a required non-blank string field from a parsed secret.
///
/// Fails with `NotJsonObject` unless the secret is a JSON object, and with
/// `MissingRequiredField` naming `field` when the field is absent, not a string, or blank.
/// The returned text is the field's value as stored, not trimmed.
pub fn required_string_field(secret: &JsonSecret, field: &str) -> (value: Result<
    String,
    SecretFieldError,
>)
    ensures
        match secret@ {
            JsonSecretView::Object(members) => match required_member_text(members, field@) {
                Some(text) => value matches Ok(found) && found@ == text,
                None => value matches Err(SecretFieldError::MissingRequiredField(name)) && name@
                    == field@,
            },
            _ => value matches Err(SecretFieldError::NotJsonObject),
        },
{
    let members = match secret {
        JsonSecret::Object(members) => members,
        _ => {
            return Err(SecretFieldError::NotJsonObject);
        },
    };
    let ghost view = secret@->Object_0;
    let wanted = String::from_str(field);
    let mut index: usize = 0;
    assert(view.skip(0) =~= view);
    while index < members.len()
        invariant
            secret@ == JsonSecretView::Object(view),
            view == members@.map_values(|member: (String, JsonMember)| (member.0@, member.1@)),
            wanted@ == field@,
            index <= members.len(),
            member_value(view.skip(index as int), field@) == member_value(view, field@),
        decreases members.len() - index,
    {
        assert(view.skip(index as int)[0] == view[index as int]);
        assert(view[index as int] == (members@[index as int].0@, members@[index as int].1@));
        if members[index].0 == wanted {
            match &members[index].1 {
                JsonMember::Text(text) => {
                    if is_blank(text.as_str()) {
                        return Err(SecretFieldError::MissingRequiredField(wanted));
                    }
                    return Ok(text.clone());
                },
                _ => {
                    return Err(SecretFieldError::MissingRequiredField(wanted));
                },
            }
        }
        assert(view.skip(index as int).drop_first() =~= view.skip(index + 1));
        index = index + 1;
    }
    Err(SecretFieldError::MissingRequiredField(wanted))
}

/// Reads one required non-blank string field from a JSON object secret, such as
/// `{ "token": "value" }`. Double-encoded JSON strings are rejected, so deployed credential
/// formats remain explicit.
pub fn required_json_string_field(secret: &str, field: &str) -> (value: Result<
    String,
    SecretFieldError,
>)
    ensures
        match parsed_json_secret(secret@) {
            JsonSecretView::Object(members) => match required_member_text(members, field@) {
                Some(text) => value matches Ok(found) && found@ == text,
                None => value matches Err(SecretFieldError::MissingRequiredField(name)) && name@
                    == field@,
            },
            _ => value matches Err(SecretFieldError::NotJsonObject),
        },
{
    let parsed = parse_json_secret(secret);
    required_string_field(&parsed, field)
}

/// Reads one required non-blank string field from a retrieved secret, which may have no string
/// value at all; fails with `NoStringValue` then, and otherwise as `required_json_string_field`.
pub fn required_secret_string_field(secret: Option<&str>, field: &str) -> (value: Result<
    String,
    SecretFieldError,
>)
    ensures
        match secret {
            Some(text) => reads_required_field(parsed_json_secret(text@), field@, value),
            None => value matches Err(SecretFieldError::NoStringValue),
        },
{
    match secret {
        Some(text) => required_json_string_field(text, field),
        None => Err(SecretFieldError::NoStringValue),
    }
}

/// Retrieves required string fields from JSON-encoded AWS Secrets Manager values.
#[derive(Clone)]
pub struct JsonSecretReader {
    /// AWS client used to retrieve secret values.
    client: aws_sdk_secretsmanager::Client,
}

impl JsonSecretReader {
    /// The AWS client that this reader retrieves secret values with.
    pub closed spec fn aws_client(&self) -> aws_sdk_secretsmanager::Client {
        self.client
    }

    /// Creates a reader backed by the supplied AWS Secrets Manager client.
    pub fn new(client: aws_sdk_secretsmanager::Client) -> (reader: Self)
        ensures
            reader.aws_client() == client,
    {
        JsonSecretReader { client }
    }

    /// Returns the AWS client that retrieves secret values: the one the reader was built with.
    pub fn client(&self) -> (client: &aws_sdk_secretsmanager::Client)
        ensures
            *client == self.aws_client(),
    {
        &self.client
    }
}

} // verus!
