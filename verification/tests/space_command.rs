use space_bot::model::{Channel, ChannelKind, Invoker, ReplyColor};
use space_bot::space::{
    close_space, close_space_outcome, find_space_channel, generate_pseudo_stage_moderator_permission,
    open_space, open_space_outcome, space, target_name, ClosePlan, OpenPlan, SpaceCommandType,
    SpaceError, SpacePlan,
};

const CATEGORY_ID: u64 = 1124968492991524864;

fn invoker(id: u64, name: &str) -> Invoker {
    Invoker {
        id,
        name: String::from(name),
        face: format!("https://cdn.example/avatars/{}.png", id),
    }
}

fn channel(id: u64, name: &str, kind: ChannelKind) -> Channel {
    Channel {
        id,
        name: String::from(name),
        kind,
    }
}

#[test]
fn target_name_appends_suffix() {
    assert_eq!(target_name("Alice"), "Aliceのスペース");
    assert_eq!(target_name(""), "のスペース");
}

#[test]
fn target_name_is_stable_across_calls() {
    assert_eq!(target_name("Alice"), target_name("Alice"));
    assert_eq!(target_name("鈴木"), target_name("鈴木"));
}

#[test]
fn permission_template_has_exactly_four_entries() {
    let v = generate_pseudo_stage_moderator_permission(42);
    assert_eq!(v.len(), 4);
    let allows: Vec<u64> = v.iter().map(|o| o.allow).collect();
    assert_eq!(allows, vec![1u64 << 32, 1u64 << 4, 1u64 << 24, 1u64 << 22]);
    for o in &v {
        assert_eq!(o.deny, 1u64 << 12);
        assert_eq!(o.member_id, 42);
    }
}

#[test]
fn open_with_no_existing_channel_issues_create() {
    let alice = invoker(1, "Alice");
    let channels = vec![channel(10, "general", ChannelKind::Text)];
    match open_space(&alice, &channels, CATEGORY_ID) {
        OpenPlan::Create(req) => {
            assert_eq!(req.name, "Aliceのスペース");
            assert_eq!(req.kind, ChannelKind::Stage);
            assert_eq!(req.parent_id, CATEGORY_ID);
            assert_eq!(req.overwrites, generate_pseudo_stage_moderator_permission(1));
        }
        OpenPlan::AlreadyOpen(_) => panic!("no channel existed, a create request was owed"),
    }
    let e = open_space_outcome(&alice, true);
    assert_eq!(e.title, "スペースを作ったっすよ");
    assert_eq!(e.color, ReplyColor::Blue);
    assert_eq!(e.author_name, "Alice");
    assert_eq!(e.author_icon_url, alice.face);
}

#[test]
fn open_failure_is_not_reported_as_success() {
    let alice = invoker(1, "Alice");
    let e = open_space_outcome(&alice, false);
    assert_eq!(e.title, "スペースを作れなかったっす");
    assert_eq!(e.color, ReplyColor::Red);
}

#[test]
fn open_with_existing_channel_issues_no_create() {
    let alice = invoker(1, "Alice");
    let channels = vec![
        channel(10, "general", ChannelKind::Text),
        channel(11, "Aliceのスペース", ChannelKind::Stage),
    ];
    match open_space(&alice, &channels, CATEGORY_ID) {
        OpenPlan::AlreadyOpen(e) => {
            assert_eq!(e.title, "もう既に開いてるっす。");
            assert_eq!(e.color, ReplyColor::Red);
            assert_eq!(e.author_name, "Alice");
        }
        OpenPlan::Create(_) => panic!("the channel existed, no create request may be issued"),
    }
}

#[test]
fn close_with_existing_channel_issues_delete_for_first_match() {
    let alice = invoker(1, "Alice");
    let channels = vec![
        channel(10, "general", ChannelKind::Text),
        channel(11, "Aliceのスペース", ChannelKind::Stage),
        channel(12, "Aliceのスペース", ChannelKind::Stage),
    ];
    match close_space(&alice, &channels) {
        ClosePlan::Delete(id) => assert_eq!(id, 11),
        ClosePlan::NothingOpen(_) => panic!("the channel existed, a delete request was owed"),
    }
    let e = close_space_outcome(&alice, true).expect("deletion succeeded");
    assert_eq!(e.title, "スペースを閉じたっす");
    assert_eq!(e.color, ReplyColor::Blue);
}

#[test]
fn close_failure_surfaces_the_error() {
    let alice = invoker(1, "Alice");
    match close_space_outcome(&alice, false) {
        Err(err) => assert_eq!(err, SpaceError::DeleteFailed),
        Ok(_) => panic!("a failed deletion must surface as an error, not a reply"),
    }
}

#[test]
fn close_with_no_matching_channel_issues_no_delete() {
    let bob = invoker(2, "Bob");
    let channels = vec![
        channel(10, "general", ChannelKind::Text),
        channel(11, "Aliceのスペース", ChannelKind::Stage),
    ];
    match close_space(&bob, &channels) {
        ClosePlan::NothingOpen(e) => {
            assert_eq!(e.title, "あなたはスペース開いてないっす");
            assert_eq!(e.color, ReplyColor::Red);
            assert_eq!(e.author_name, "Bob");
        }
        ClosePlan::Delete(_) => panic!("no channel matched, no delete request may be issued"),
    }
}

#[test]
fn find_space_channel_matches_only_the_target_name() {
    let channels = vec![
        channel(10, "Aliceのスペース extra", ChannelKind::Stage),
        channel(11, "Bobのスペース", ChannelKind::Stage),
        channel(12, "Aliceのスペース", ChannelKind::Stage),
    ];
    assert_eq!(find_space_channel(&channels, "Alice"), Some(2));
    assert_eq!(find_space_channel(&channels, "Bob"), Some(1));
    assert_eq!(find_space_channel(&channels, "Carol"), None);
}

#[test]
fn space_dispatches_open_scenario() {
    let alice = invoker(1, "Alice");
    let channels: Vec<Channel> = Vec::new();
    match space(&alice, Some(&channels), SpaceCommandType::Open, CATEGORY_ID) {
        SpacePlan::Create(req) => {
            assert_eq!(req.name, "Aliceのスペース");
            assert_eq!(req.kind, ChannelKind::Stage);
            assert_eq!(req.parent_id, CATEGORY_ID);
        }
        _ => panic!("an open with no existing channel owes a create request"),
    }
}

#[test]
fn space_dispatches_close_scenario() {
    let bob = invoker(2, "Bob");
    let channels: Vec<Channel> = Vec::new();
    match space(&bob, Some(&channels), SpaceCommandType::Close, CATEGORY_ID) {
        SpacePlan::Reply(e) => {
            assert_eq!(e.title, "あなたはスペース開いてないっす");
            assert_eq!(e.color, ReplyColor::Red);
        }
        _ => panic!("a close with no existing channel owes only a warning reply"),
    }
}

#[test]
fn space_outside_a_guild_owes_a_warning() {
    let alice = invoker(1, "Alice");
    match space(&alice, None, SpaceCommandType::Open, CATEGORY_ID) {
        SpacePlan::Reply(e) => {
            assert_eq!(e.title, "this command requires a server context");
            assert_eq!(e.color, ReplyColor::Red);
        }
        _ => panic!("outside a guild no platform request may be issued"),
    }
}
