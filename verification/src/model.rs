use vstd::prelude::*;

verus! {

use vstd::string::StringExecFns;

/// The user who invoked a command: platform id, display name, and
/// avatar image URL. Read-only to this library.
#[derive(Debug)]
pub struct Invoker {
    pub id: u64,
    pub name: String,
    pub face: String,
}

/// The kinds of guild channel this library distinguishes. Only `Stage`
/// matters to the space command; every other platform kind maps to one
/// of the remaining variants.
#[derive(Clone, Copy, Debug, PartialEq, Eq, Structural)]
pub enum ChannelKind {
    Text,
    Voice,
    Stage,
    Category,
    Other,
}

/// One channel of the guild's live channel list, as this library reads
/// it: its platform id, resolved name, and kind.
#[derive(Debug)]
pub struct Channel {
    pub id: u64,
    pub name: String,
    pub kind: ChannelKind,
}

/// The two colors a status embed can carry: red marks a warning, blue
/// marks success.
#[derive(Clone, Copy, Debug, PartialEq, Eq, Structural)]
pub enum ReplyColor {
    Red,
    Blue,
}

/// A status reply embed: author metadata taken from the invoker, a
/// title string, and a color.
#[derive(Debug)]
pub struct Embed {
    pub author_name: String,
    pub author_icon_url: String,
    pub title: String,
    pub color: ReplyColor,
}

/// A per-user permission override granted on a created channel:
/// allow and deny bit masks and the member they apply to.
#[derive(Clone, Copy, Debug, PartialEq, Eq, Structural)]
pub struct PermissionOverwrite {
    pub allow: u64,
    pub deny: u64,
    pub member_id: u64,
}

/// A create-channel request as the space command issues it: the
/// channel's name, kind, permission overwrites, and parent category.
#[derive(Debug)]
pub struct CreateChannelRequest {
    pub name: String,
    pub kind: ChannelKind,
    pub overwrites: Vec<PermissionOverwrite>,
    pub parent_id: u64,
}

/// Holds when embed `e` is the status embed for `invoker` with the
/// given title and color: the author fields are the invoker's display
/// name and avatar URL.
pub open spec fn embed_spec(invoker: Invoker, title: Seq<char>, color: ReplyColor, e: Embed) -> bool {
    &&& e.author_name@ == invoker.name@
    &&& e.author_icon_url@ == invoker.face@
    &&& e.title@ == title
    &&& e.color == color
}

/// Builds the status embed for `invoker` with the given title and
/// color.
pub fn make_embed(invoker: &Invoker, title: &str, color: ReplyColor) -> (e: Embed)
    ensures
        embed_spec(*invoker, title@, color, e),
{
    Embed {
        author_name: invoker.name.clone(),
        author_icon_url: invoker.face.clone(),
        title: String::from_str(title),
        color,
    }
}

} // verus!
