use vstd::prelude::*;

use crate::model::{
    Channel, ChannelKind, CreateChannelRequest, Embed, Invoker, PermissionOverwrite, ReplyColor,
};

verus! {

use vstd::string::StringExecFns;
use crate::model::embed_spec;

/// Permission bit granting the right to request to speak in a stage
/// channel.
pub const PERMISSION_REQUEST_TO_SPEAK: u64 = 0x100000000;

/// Permission bit granting channel management.
pub const PERMISSION_MANAGE_CHANNELS: u64 = 0x10;

/// Permission bit granting the right to move members between voice
/// channels.
pub const PERMISSION_MOVE_MEMBERS: u64 = 0x1000000;

/// Permission bit granting the right to mute members.
pub const PERMISSION_MUTE_MEMBERS: u64 = 0x400000;

/// Permission bit for sending text-to-speech messages; denied in every
/// entry of the moderator template.
pub const PERMISSION_SEND_TTS_MESSAGES: u64 = 0x1000;

/// The sub-command of the space command: open a space channel or close
/// it. A closed, two-variant choice; no other selector exists.
#[derive(Clone, Copy, Debug, PartialEq, Eq, Structural)]
pub enum SpaceCommandType {
    Open,
    Close,
}

/// The suffix appended to an invoker's display name to form the name
/// of that invoker's space channel.
pub open spec fn space_suffix() -> Seq<char> {
    "のスペース"@
}

/// The name of the space channel belonging to an invoker with display
/// name `name`: the display name followed by the fixed suffix.
pub open spec fn target_name_spec(name: Seq<char>) -> Seq<char> {
    name + space_suffix()
}

/// Computes the space-channel name for a display name.
pub fn target_name(name: &str) -> (r: String)
    ensures
        r@ == target_name_spec(name@),
{
    let mut s = String::from_str(name);
    s.append("のスペース");
    s
}

/// The space-channel name is a function of the display name alone: two
/// calls on equal names yield equal channel names.
pub proof fn lemma_target_name_deterministic(a: Seq<char>, b: Seq<char>)
    ensures
        a == b ==> target_name_spec(a) == target_name_spec(b),
{
}

/// Holds when channel `c` is the space channel of the invoker with
/// display name `name`.
pub open spec fn is_space_channel(c: Channel, name: Seq<char>) -> bool {
    c.name@ == target_name_spec(name)
}

/// Holds when the guild's channel list holds a space channel for the
/// invoker with display name `name`.
pub open spec fn has_space_channel(channels: Seq<Channel>, name: Seq<char>) -> bool {
    exists|i: int| 0 <= i < channels.len() && is_space_channel(#[trigger] channels[i], name)
}

/// Linear scan of the guild's channel list for the space channel of
/// the invoker with display name `name`: returns the index of the
/// first match, or `None` when no channel carries the target name.
pub fn find_space_channel(channels: &Vec<Channel>, name: &str) -> (r: Option<usize>)
    ensures
        match r {
            Some(i) => i < channels@.len() && is_space_channel(channels@[i as int], name@)
                && (forall|j: int| 0 <= j < i ==> !is_space_channel(channels@[j], name@)),
            None => !has_space_channel(channels@, name@),
        },
{
    let target = target_name(name);
    let n = channels.len();
    let mut i: usize = 0;
    while i < n
        invariant
            n == channels@.len(),
            i <= n,
            target@ == target_name_spec(name@),
            forall|j: int| 0 <= j < i ==> !is_space_channel(channels@[j], name@),
        decreases n - i,
    {
        if channels[i].name == target {
            return Some(i);
        }
        i = i + 1;
    }
    None
}

/// The fixed four-entry moderator permission template, parameterized
/// by the invoker's id: request-to-speak, manage-channels,
/// move-members and mute-members are each allowed, and text-to-speech
/// messaging is denied, all for the invoking member.
pub open spec fn perm_template_spec(user_id: u64) -> Seq<PermissionOverwrite> {
    seq![
        PermissionOverwrite {
            allow: PERMISSION_REQUEST_TO_SPEAK,
            deny: PERMISSION_SEND_TTS_MESSAGES,
            member_id: user_id,
        },
        PermissionOverwrite {
            allow: PERMISSION_MANAGE_CHANNELS,
            deny: PERMISSION_SEND_TTS_MESSAGES,
            member_id: user_id,
        },
        PermissionOverwrite {
            allow: PERMISSION_MOVE_MEMBERS,
            deny: PERMISSION_SEND_TTS_MESSAGES,
            member_id: user_id,
        },
        PermissionOverwrite {
            allow: PERMISSION_MUTE_MEMBERS,
            deny: PERMISSION_SEND_TTS_MESSAGES,
            member_id: user_id,
        },
    ]
}

/// Builds the four-entry pseudo-moderator permission template for the
/// invoking member.
pub fn generate_pseudo_stage_moderator_permission(user_id: u64) -> (v: Vec<PermissionOverwrite>)
    ensures
        v@ =~= perm_template_spec(user_id),
{
    let mut v: Vec<PermissionOverwrite> = Vec::new();
    v.push(PermissionOverwrite {
        allow: PERMISSION_REQUEST_TO_SPEAK,
        deny: PERMISSION_SEND_TTS_MESSAGES,
        member_id: user_id,
    });
    v.push(PermissionOverwrite {
        allow: PERMISSION_MANAGE_CHANNELS,
        deny: PERMISSION_SEND_TTS_MESSAGES,
        member_id: user_id,
    });
    v.push(PermissionOverwrite {
        allow: PERMISSION_MOVE_MEMBERS,
        deny: PERMISSION_SEND_TTS_MESSAGES,
        member_id: user_id,
    });
    v.push(PermissionOverwrite {
        allow: PERMISSION_MUTE_MEMBERS,
        deny: PERMISSION_SEND_TTS_MESSAGES,
        member_id: user_id,
    });
    v
}

/// Holds when `req` is the create-channel request the Open branch owes
/// for `invoker` under parent category `category_id`: the target name,
/// the stage kind, the four-entry permission template, and the given
/// parent.
pub open spec fn create_request_spec(invoker: Invoker, category_id: u64, req: CreateChannelRequest) -> bool {
    &&& req.name@ == target_name_spec(invoker.name@)
    &&& req.kind == ChannelKind::Stage
    &&& req.overwrites@ == perm_template_spec(invoker.id)
    &&& req.parent_id == category_id
}

/// What the Open branch decides before any platform call is issued:
/// either the space channel already exists and only a warning embed is
/// sent, or a create-channel request is to be issued.
pub enum OpenPlan {
    AlreadyOpen(Embed),
    Create(CreateChannelRequest),
}

/// The Open branch of the space command, up to the platform call.
///
/// When the guild already holds a channel named after the invoker, no
/// create request is issued and the "already open" warning embed is
/// the whole outcome; otherwise exactly the owed create-channel
/// request is returned for the caller to issue.
pub fn open_space(invoker: &Invoker, channels: &Vec<Channel>, category_id: u64) -> (p: OpenPlan)
    ensures
        has_space_channel(channels@, invoker.name@) ==> (p matches OpenPlan::AlreadyOpen(e)
            && embed_spec(*invoker, "もう既に開いてるっす。"@, ReplyColor::Red, e)),
        !has_space_channel(channels@, invoker.name@) ==> (p matches OpenPlan::Create(req)
            && create_request_spec(*invoker, category_id, req)),
{
    match find_space_channel(channels, invoker.name.as_str()) {
        Some(_) => {
            let e = crate::model::make_embed(invoker, "もう既に開いてるっす。", ReplyColor::Red);
            OpenPlan::AlreadyOpen(e)
        },
        None => {
            let req = CreateChannelRequest {
                name: target_name(invoker.name.as_str()),
                kind: ChannelKind::Stage,
                overwrites: generate_pseudo_stage_moderator_permission(invoker.id),
                parent_id: category_id,
            };
            OpenPlan::Create(req)
        },
    }
}

/// The reply owed after the create-channel request completed: the
/// "created" confirmation in blue only when creation succeeded, and a
/// failure warning in red otherwise. A false "created" confirmation is
/// never produced.
pub fn open_space_outcome(invoker: &Invoker, created: bool) -> (e: Embed)
    ensures
        created ==> embed_spec(*invoker, "スペースを作ったっすよ"@, ReplyColor::Blue, e),
        !created ==> embed_spec(*invoker, "スペースを作れなかったっす"@, ReplyColor::Red, e),
{
    if created {
        crate::model::make_embed(invoker, "スペースを作ったっすよ", ReplyColor::Blue)
    } else {
        crate::model::make_embed(invoker, "スペースを作れなかったっす", ReplyColor::Red)
    }
}

/// What the Close branch decides before any platform call is issued:
/// either the invoker's space channel was found and a delete request
/// for its id is to be issued, or nothing is open and only a warning
/// embed is sent.
pub enum ClosePlan {
    NothingOpen(Embed),
    Delete(u64),
}

/// The Close branch of the space command, up to the platform call.
///
/// When the guild holds a channel named after the invoker, exactly one
/// delete request, for the first such channel's id, is returned for
/// the caller to issue; otherwise no delete request is issued and the
/// "nothing open" warning embed is the whole outcome.
pub fn close_space(invoker: &Invoker, channels: &Vec<Channel>) -> (p: ClosePlan)
    ensures
        has_space_channel(channels@, invoker.name@) ==> (p matches ClosePlan::Delete(id)
            && (exists|i: int| 0 <= i < channels@.len()
                && is_space_channel(#[trigger] channels@[i], invoker.name@)
                && channels@[i].id == id
                && (forall|j: int| 0 <= j < i ==> !is_space_channel(channels@[j], invoker.name@)))),
        !has_space_channel(channels@, invoker.name@) ==> (p matches ClosePlan::NothingOpen(e)
            && embed_spec(*invoker, "あなたはスペース開いてないっす"@, ReplyColor::Red, e)),
{
    match find_space_channel(channels, invoker.name.as_str()) {
        Some(i) => {
            ClosePlan::Delete(channels[i].id)
        },
        None => {
            let e = crate::model::make_embed(invoker, "あなたはスペース開いてないっす", ReplyColor::Red);
            ClosePlan::NothingOpen(e)
        },
    }
}

/// The errors the space command surfaces to its caller as a command
/// failure.
#[derive(Clone, Copy, Debug, PartialEq, Eq, Structural)]
pub enum SpaceError {
    /// Deleting the invoker's space channel failed on the platform
    /// side.
    DeleteFailed,
}

/// The outcome owed after the delete-channel request completed: the
/// "closed" confirmation in blue when deletion succeeded; when it
/// failed, the error is surfaced to the caller, never swallowed.
pub fn close_space_outcome(invoker: &Invoker, deleted: bool) -> (r: Result<Embed, SpaceError>)
    ensures
        deleted ==> (r matches Ok(e)
            && embed_spec(*invoker, "スペースを閉じたっす"@, ReplyColor::Blue, e)),
        !deleted ==> (r matches Err(err) && err == SpaceError::DeleteFailed),
{
    if deleted {
        Ok(crate::model::make_embed(invoker, "スペースを閉じたっす", ReplyColor::Blue))
    } else {
        Err(SpaceError::DeleteFailed)
    }
}

/// The first step of the whole space command: either an immediate
/// reply embed, or the one platform request (create or delete) that
/// the chosen sub-command owes.
pub enum SpacePlan {
    Reply(Embed),
    Create(CreateChannelRequest),
    Delete(u64),
}

/// The space command's decision on an invocation, before any platform
/// call: dispatches on the sub-command over the guild's live channel
/// list. Invoked outside a guild, it owes only a warning that a server
/// context is required.
pub fn space(invoker: &Invoker, channels: Option<&Vec<Channel>>, sub_command: SpaceCommandType, category_id: u64) -> (p: SpacePlan)
    ensures
        channels is None ==> (p matches SpacePlan::Reply(e)
            && embed_spec(*invoker, "this command requires a server context"@, ReplyColor::Red, e)),
        channels matches Some(cs) ==> ({
            &&& (sub_command == SpaceCommandType::Open && has_space_channel(cs@, invoker.name@))
                ==> (p matches SpacePlan::Reply(e)
                    && embed_spec(*invoker, "もう既に開いてるっす。"@, ReplyColor::Red, e))
            &&& (sub_command == SpaceCommandType::Open && !has_space_channel(cs@, invoker.name@))
                ==> (p matches SpacePlan::Create(req)
                    && create_request_spec(*invoker, category_id, req))
            &&& (sub_command == SpaceCommandType::Close && has_space_channel(cs@, invoker.name@))
                ==> (p matches SpacePlan::Delete(id)
                    && (exists|i: int| 0 <= i < cs@.len()
                        && is_space_channel(#[trigger] cs@[i], invoker.name@)
                        && cs@[i].id == id
                        && (forall|j: int| 0 <= j < i ==> !is_space_channel(cs@[j], invoker.name@))))
            &&& (sub_command == SpaceCommandType::Close && !has_space_channel(cs@, invoker.name@))
                ==> (p matches SpacePlan::Reply(e)
                    && embed_spec(*invoker, "あなたはスペース開いてないっす"@, ReplyColor::Red, e))
        }),
{
    match channels {
        None => {
            let e = crate::model::make_embed(invoker, "this command requires a server context", ReplyColor::Red);
            SpacePlan::Reply(e)
        },
        Some(cs) => {
            match sub_command {
                SpaceCommandType::Open => {
                    match open_space(invoker, cs, category_id) {
                        OpenPlan::AlreadyOpen(e) => SpacePlan::Reply(e),
                        OpenPlan::Create(req) => SpacePlan::Create(req),
                    }
                },
                SpaceCommandType::Close => {
                    match close_space(invoker, cs) {
                        ClosePlan::NothingOpen(e) => SpacePlan::Reply(e),
                        ClosePlan::Delete(id) => SpacePlan::Delete(id),
                    }
                },
            }
        },
    }
}

} // verus!
