//! Identities: the owner of a recording, the identifier of a session, and the
//! name of the audio artifact that belongs to an identifier.

use vstd::prelude::*;
use vstd::string::*;

verus! {

/// Numeric identifier of an owner.
pub type OwnerId = i64;

/// The verified identity of the user on whose behalf a request is made.
#[derive(Debug, Clone, Copy, PartialEq, Eq, Hash, Structural)]
pub struct UserId(pub OwnerId);

/// Identifier of a session and of the recognition job for its audio: the
/// 128 bits of a UUID, most significant byte first.
pub type SessionId = u128;

/// The hyphenated lower-case text of the UUID whose big-endian value is `id`.
pub uninterp spec fn uuid_text(id: u128) -> Seq<char>;

/// Extension of the audio container file.
pub open spec fn audio_extension() -> Seq<char> {
    seq!['.', 'o', 'g', 'g']
}

/// The file name of the audio artifact of `id`.
pub open spec fn audio_file_name_spec(id: SessionId) -> Seq<char> {
    uuid_text(id) + audio_extension()
}

/// Formats a UUID with `uuid::Uuid`'s `Display`, after `Uuid::from_u128`.
/// Trusted: the text is the one the `uuid` crate prints for these 128 bits.
#[verifier::external_body]
fn uuid_to_text(id: u128) -> (text: String)
    ensures
        text@ == uuid_text(id),
{
    uuid::Uuid::from_u128(id).to_string()
}

/// Whether `id` has the form of a random UUID: version 4 in the high
/// half of its seventh byte, and the two variant bits `10` at the top of
/// its ninth byte.
pub open spec fn is_random_uuid(id: u128) -> bool {
    id & 0x0000_0000_0000_f000_c000_0000_0000_0000 == 0x0000_0000_0000_4000_8000_0000_0000_0000
}

/// Draws a random version-4 UUID with `uuid::Uuid::new_v4` and returns its
/// big-endian value. Trusted: whatever is drawn has the version and the
/// variant that the crate sets; nothing else is claimed of a random value.
#[verifier::external_body]
fn random_uuid() -> (id: u128)
    ensures
        is_random_uuid(id),
{
    uuid::Uuid::new_v4().as_u128()
}

/// A fresh session identifier: a random UUID.
pub fn fresh_session_id() -> (id: SessionId)
    ensures
        is_random_uuid(id),
{
    random_uuid()
}

/// The file name under which the audio of session `id` is kept inside the
/// configured directory: the identifier's text followed by `.ogg`.
pub fn audio_file_name(id: SessionId) -> (name: String)
    ensures
        name@ == audio_file_name_spec(id),
{
    let text = uuid_to_text(id);
    proof {
        reveal_strlit(".ogg");
        assert(".ogg"@ =~= audio_extension());
    }
    text.concat(".ogg")
}

} // verus!
