use vstd::prelude::*;

verus! {

use vstd::string::StringExecFns;
use vstd::string::StrSliceExecFns;

/// The commands the bot answers, one per handler.
#[derive(Clone, Copy, Debug, PartialEq, Eq, Structural)]
pub enum Command {
    Register,
    Hello,
    Mori,
    Suzuki,
    Space,
}

/// The handler owed to a command name: each of the five names maps to
/// its handler, and every other name to none.
pub open spec fn route_spec(name: Seq<char>) -> Option<Command> {
    if name == "register"@ {
        Some(Command::Register)
    } else if name == "hello"@ {
        Some(Command::Hello)
    } else if name == "mori"@ {
        Some(Command::Mori)
    } else if name == "suzuki"@ {
        Some(Command::Suzuki)
    } else if name == "space"@ {
        Some(Command::Space)
    } else {
        None
    }
}

/// String equality by character content.
fn str_eq(a: &str, b: &str) -> (r: bool)
    ensures
        r == (a@ == b@),
{
    let sa = String::from_str(a);
    let sb = String::from_str(b);
    sa == sb
}

/// Resolves a bare command name to its handler.
pub fn route(name: &str) -> (r: Option<Command>)
    ensures
        r == route_spec(name@),
{
    if str_eq(name, "register") {
        Some(Command::Register)
    } else if str_eq(name, "hello") {
        Some(Command::Hello)
    } else if str_eq(name, "mori") {
        Some(Command::Mori)
    } else if str_eq(name, "suzuki") {
        Some(Command::Suzuki)
    } else if str_eq(name, "space") {
        Some(Command::Space)
    } else {
        None
    }
}

/// The fixed text-command prefix.
pub open spec fn command_prefix() -> Seq<char> {
    "+!"@
}

/// The handler owed to a prefixed text message: when the message
/// starts with the fixed prefix, what `route_spec` owes to the rest;
/// otherwise none.
pub open spec fn parse_prefixed_spec(msg: Seq<char>) -> Option<Command> {
    if msg.len() >= 2 && msg.subrange(0, 2) == command_prefix() {
        route_spec(msg.skip(2))
    } else {
        None
    }
}

/// Resolves a prefixed text message, such as one whose text is the
/// prefix followed by a command name, to its handler.
pub fn parse_prefixed(msg: &str) -> (r: Option<Command>)
    ensures
        r == parse_prefixed_spec(msg@),
{
    proof {
        reveal_strlit("+!");
    }
    let n = msg.unicode_len();
    if n < 2 {
        return None;
    }
    let c0 = msg.get_char(0);
    let c1 = msg.get_char(1);
    if c0 == '+' && c1 == '!' {
        proof {
            assert(msg@.subrange(0, 2) =~= command_prefix());
        }
        let rest = msg.substring_char(2, n);
        proof {
            assert(rest@ =~= msg@.skip(2));
        }
        route(rest)
    } else {
        proof {
            assert(msg@.subrange(0, 2)[0] == msg@[0]);
            assert(msg@.subrange(0, 2)[1] == msg@[1]);
            assert(msg@.subrange(0, 2) != command_prefix());
        }
        None
    }
}

/// The fixed reply of the mori text command.
pub fn mori() -> (r: String)
    ensures
        r@ == "「デコイのフリします」そう言い残すと、彼は味方に背を向け走りだした。敵はいない。彼は顔を赤らめ、いそいそと味方の元へ戻るのだった。俺は大森星。"@,
{
    String::from_str("「デコイのフリします」そう言い残すと、彼は味方に背を向け走りだした。敵はいない。彼は顔を赤らめ、いそいそと味方の元へ戻るのだった。俺は大森星。")
}

/// The fixed reply of the suzuki text command.
pub fn suzuki() -> (r: String)
    ensures
        r@ == "「やっぱ普通の方法じゃ勝てないな──」そう言うと彼はアストラルフォームに入った。ラウンドが始まると同時に現れる星。Cロングはまるで天の川のようだった。「星がないよォ！」俺は鈴木。"@,
{
    String::from_str("「やっぱ普通の方法じゃ勝てないな──」そう言うと彼はアストラルフォームに入った。ラウンドが始まると同時に現れる星。Cロングはまるで天の川のようだった。「星がないよォ！」俺は鈴木。")
}

} // verus!
