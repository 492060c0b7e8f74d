//! The profile of the signed-in user, and how a reply to the profile
//! request is read.

use vstd::prelude::*;
use vstd::string::*;
use crate::http::{is_success, HttpReply};
use crate::json::{find_member, json_object, lists, member, parse_object, JsonShape, JsonValue};

verus! {

/// The provider's "current user" endpoint.
pub const PROFILE_ENDPOINT: &'static str = "https://discord.com/api/users/@me";

/// A field of the profile.
#[derive(Clone, Copy, Debug, PartialEq, Eq, Structural)]
pub enum ProfileField {
    Id,
    Username,
    Discriminator,
    Avatar,
}

impl ProfileField {
    /// The member of the reply that holds the field.
    pub open spec fn name(self) -> Seq<char> {
        match self {
            ProfileField::Id => "id"@,
            ProfileField::Username => "username"@,
            ProfileField::Discriminator => "discriminator"@,
            ProfileField::Avatar => "avatar"@,
        }
    }

    /// The member of the reply that holds the field.
    pub fn as_str(&self) -> (name: &'static str)
        ensures
            name@ == self.name(),
    {
        match self {
            ProfileField::Id => "id",
            ProfileField::Username => "username",
            ProfileField::Discriminator => "discriminator",
            ProfileField::Avatar => "avatar",
        }
    }
}

/// Why the body of a reply is no profile.
#[derive(Clone, Copy, Debug, PartialEq, Eq, Structural)]
pub enum ShapeFault {
    /// The body is no JSON object.
    NotAnObject,
    /// A required field is absent.
    Missing(ProfileField),
    /// The field is there, but holds something other than a text.
    NotText(ProfileField),
}

/// Why no profile could be fetched.
#[derive(Clone, Debug, PartialEq, Eq)]
pub enum ProfileFetchError {
    /// The request did not get a response. The text says why.
    Transport(String),
    /// Status 401: the token is invalid or has expired.
    Unauthorized,
    /// Status 403.
    Forbidden,
    /// Status 429.
    RateLimited,
    /// Another status outside the success class.
    Status(u16),
    /// The response was a success, but its body is no profile.
    Malformed(ShapeFault),
}

/// A snapshot of the user's profile. Only `id` is stable across logins.
#[derive(Clone, Debug, PartialEq, Eq)]
pub struct DiscordUser {
    id: String,
    username: String,
    discriminator: String,
    avatar: Option<String>,
}

/// What a profile holds.
pub struct DiscordUserView {
    pub id: Seq<char>,
    pub username: Seq<char>,
    pub discriminator: Seq<char>,
    pub avatar: Option<Seq<char>>,
}

impl View for DiscordUser {
    type V = DiscordUserView;

    closed spec fn view(&self) -> DiscordUserView {
        DiscordUserView {
            id: self.id@,
            username: self.username@,
            discriminator: self.discriminator@,
            avatar: match self.avatar {
                Some(text) => Some(text@),
                None => None,
            },
        }
    }
}

impl DiscordUser {
    /// Puts a profile together from its fields.
    pub fn new(id: String, username: String, discriminator: String, avatar: Option<String>) -> (user:
        DiscordUser)
        ensures
            user@ == (DiscordUserView {
                id: id@,
                username: username@,
                discriminator: discriminator@,
                avatar: match avatar {
                    Some(text) => Some(text@),
                    None => None,
                },
            }),
    {
        DiscordUser { id, username, discriminator, avatar }
    }

    /// The identifier that the provider assigned to the user.
    pub fn id(&self) -> (text: &str)
        ensures
            text@ == self@.id,
    {
        self.id.as_str()
    }

    /// The display name.
    pub fn username(&self) -> (text: &str)
        ensures
            text@ == self@.username,
    {
        self.username.as_str()
    }

    /// The tag that tells users of one display name apart.
    pub fn discriminator(&self) -> (text: &str)
        ensures
            text@ == self@.discriminator,
    {
        self.discriminator.as_str()
    }

    /// The reference to the avatar, if the user has one.
    pub fn avatar(&self) -> (text: Option<&str>)
        ensures
            match self@.avatar {
                Some(reference) => text matches Some(t) && t@ == reference,
                None => text is None,
            },
    {
        match &self.avatar {
            Some(text) => Some(text.as_str()),
            None => None,
        }
    }
}

/// The error for a status outside the success class.
pub open spec fn status_error(status: u16) -> ProfileFetchError {
    if status == 401 {
        ProfileFetchError::Unauthorized
    } else if status == 403 {
        ProfileFetchError::Forbidden
    } else if status == 429 {
        ProfileFetchError::RateLimited
    } else {
        ProfileFetchError::Status(status)
    }
}

/// A field that must be there and hold a text.
pub open spec fn required_text(members: Map<Seq<char>, JsonShape>, field: ProfileField) -> Result<
    Seq<char>,
    ShapeFault,
> {
    match member(members, field.name()) {
        None => Err(ShapeFault::Missing(field)),
        Some(JsonShape::Text(text)) => Ok(text),
        Some(_) => Err(ShapeFault::NotText(field)),
    }
}

/// A field that may be absent or null, and holds a text otherwise.
pub open spec fn optional_text(members: Map<Seq<char>, JsonShape>, field: ProfileField) -> Result<
    Option<Seq<char>>,
    ShapeFault,
> {
    match member(members, field.name()) {
        None => Ok(None),
        Some(JsonShape::Null) => Ok(None),
        Some(JsonShape::Text(text)) => Ok(Some(text)),
        Some(_) => Err(ShapeFault::NotText(field)),
    }
}

/// The profile that an object's members describe, or the first fault in
/// the order id, username, discriminator, avatar.
pub open spec fn profile_of_members(members: Map<Seq<char>, JsonShape>) -> Result<
    DiscordUserView,
    ShapeFault,
> {
    match required_text(members, ProfileField::Id) {
        Err(fault) => Err(fault),
        Ok(id) => match required_text(members, ProfileField::Username) {
            Err(fault) => Err(fault),
            Ok(username) => match required_text(members, ProfileField::Discriminator) {
                Err(fault) => Err(fault),
                Ok(discriminator) => match optional_text(members, ProfileField::Avatar) {
                    Err(fault) => Err(fault),
                    Ok(avatar) => Ok(DiscordUserView { id, username, discriminator, avatar }),
                },
            },
        },
    }
}

/// The profile that a response body describes.
pub open spec fn profile_of(body: Seq<u8>) -> Result<DiscordUserView, ShapeFault> {
    match json_object(body) {
        None => Err(ShapeFault::NotAnObject),
        Some(members) => profile_of_members(members),
    }
}

fn read_required(
    entries: &Vec<(String, JsonValue)>,
    field: ProfileField,
    Ghost(members): Ghost<Map<Seq<char>, JsonShape>>,
) -> (read: Result<String, ShapeFault>)
    requires
        lists(entries@, members),
    ensures
        match required_text(members, field) {
            Ok(text) => read matches Ok(owned) && owned@ == text,
            Err(fault) => read == Err::<String, ShapeFault>(fault),
        },
{
    match find_member(entries, field.as_str(), Ghost(members)) {
        None => Err(ShapeFault::Missing(field)),
        Some(JsonValue::Text(text)) => Ok(text.clone()),
        Some(_) => Err(ShapeFault::NotText(field)),
    }
}

fn read_optional(
    entries: &Vec<(String, JsonValue)>,
    field: ProfileField,
    Ghost(members): Ghost<Map<Seq<char>, JsonShape>>,
) -> (read: Result<Option<String>, ShapeFault>)
    requires
        lists(entries@, members),
    ensures
        match optional_text(members, field) {
            Ok(Some(text)) => read matches Ok(Some(owned)) && owned@ == text,
            Ok(None) => read == Ok::<Option<String>, ShapeFault>(None),
            Err(fault) => read == Err::<Option<String>, ShapeFault>(fault),
        },
{
    match find_member(entries, field.as_str(), Ghost(members)) {
        None => Ok(None),
        Some(JsonValue::Null) => Ok(None),
        Some(JsonValue::Text(text)) => Ok(Some(text.clone())),
        Some(_) => Err(ShapeFault::NotText(field)),
    }
}

/// Reads a response body as a profile.
pub fn parse_profile(body: &[u8]) -> (parsed: Result<DiscordUser, ShapeFault>)
    ensures
        match profile_of(body@) {
            Ok(profile) => parsed matches Ok(user) && user@ == profile,
            Err(fault) => parsed == Err::<DiscordUser, ShapeFault>(fault),
        },
{
    let entries = match parse_object(body) {
        None => return Err(ShapeFault::NotAnObject),
        Some(entries) => entries,
    };
    let ghost members = json_object(body@)->0;
    let id = match read_required(&entries, ProfileField::Id, Ghost(members)) {
        Err(fault) => return Err(fault),
        Ok(text) => text,
    };
    let username = match read_required(&entries, ProfileField::Username, Ghost(members)) {
        Err(fault) => return Err(fault),
        Ok(text) => text,
    };
    let discriminator = match read_required(&entries, ProfileField::Discriminator, Ghost(members)) {
        Err(fault) => return Err(fault),
        Ok(text) => text,
    };
    let avatar = match read_optional(&entries, ProfileField::Avatar, Ghost(members)) {
        Err(fault) => return Err(fault),
        Ok(text) => text,
    };
    Ok(DiscordUser { id, username, discriminator, avatar })
}

/// The profile that a reply to the profile request carries, or the reason
/// why it carries none.
pub open spec fn user_of_reply(reply: HttpReply) -> Result<DiscordUserView, ProfileFetchError> {
    match reply {
        HttpReply::Failed(detail) => Err(ProfileFetchError::Transport(detail)),
        HttpReply::Response { status, body } => if !is_success(status) {
            Err(status_error(status))
        } else {
            match profile_of(body@) {
                Ok(profile) => Ok(profile),
                Err(fault) => Err(ProfileFetchError::Malformed(fault)),
            }
        },
    }
}

/// A reply with status 401 is an unauthorized failure, whatever its body
/// holds: no transport failure, and never a profile.
pub proof fn lemma_unauthorized_reply(body: Vec<u8>)
    ensures
        user_of_reply(HttpReply::Response { status: 401, body }) == Err::<
            DiscordUserView,
            ProfileFetchError,
        >(ProfileFetchError::Unauthorized),
{
}

/// A successful reply whose body is an object without an `id` member is
/// malformed: no profile is made up for it.
pub proof fn lemma_missing_id_is_malformed(status: u16, body: Vec<u8>)
    ensures
        is_success(status) && (json_object(body@) matches Some(members) && !members.contains_key(
            "id"@,
        )) ==> user_of_reply(HttpReply::Response { status, body }) == Err::<
            DiscordUserView,
            ProfileFetchError,
        >(ProfileFetchError::Malformed(ShapeFault::Missing(ProfileField::Id))),
{
}

/// Every field of a profile is the text of the member of that name in the
/// body; only the avatar may stand for a member that is null or absent.
pub proof fn lemma_profile_fields_are_the_members(body: Seq<u8>)
    ensures
        profile_of(body) matches Ok(profile) ==> json_object(body) matches Some(members) && {
            &&& member(members, "id"@) == Some(JsonShape::Text(profile.id))
            &&& member(members, "username"@) == Some(JsonShape::Text(profile.username))
            &&& member(members, "discriminator"@) == Some(JsonShape::Text(profile.discriminator))
            &&& match profile.avatar {
                Some(reference) => member(members, "avatar"@) == Some(JsonShape::Text(reference)),
                None => member(members, "avatar"@) is None || member(members, "avatar"@) == Some(
                    JsonShape::Null,
                ),
            }
        },
{
}

/// Reads the reply to the profile request.
pub fn get_user(reply: HttpReply) -> (fetched: Result<DiscordUser, ProfileFetchError>)
    ensures
        match user_of_reply(reply) {
            Ok(profile) => fetched matches Ok(user) && user@ == profile,
            Err(error) => fetched == Err::<DiscordUser, ProfileFetchError>(error),
        },
{
    match reply {
        HttpReply::Failed(detail) => Err(ProfileFetchError::Transport(detail)),
        HttpReply::Response { status, body } => {
            if status == 401 {
                Err(ProfileFetchError::Unauthorized)
            } else if status == 403 {
                Err(ProfileFetchError::Forbidden)
            } else if status == 429 {
                Err(ProfileFetchError::RateLimited)
            } else if status < 200 || status >= 300 {
                Err(ProfileFetchError::Status(status))
            } else {
                match parse_profile(body.as_slice()) {
                    Ok(user) => Ok(user),
                    Err(fault) => Err(ProfileFetchError::Malformed(fault)),
                }
            }
        },
    }
}

/// The value of the `Authorization` header that presents `token` as a
/// bearer credential.
pub fn authorization_header(token: &str) -> (value: String)
    ensures
        value@ == "Bearer "@ + token@,
{
    let mut value = String::from_str("Bearer ");
    value.append(token);
    value
}

} // verus!
