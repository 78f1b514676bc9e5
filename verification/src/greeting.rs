use vstd::prelude::*;

verus! {

use vstd::string::StringExecFns;

/// Relies on rand::random: a fresh draw from the thread-local
/// generator. Nothing can be promised of the value, so no contract is
/// stated; every caller is verified for every value it may take.
#[verifier::external_body]
fn random_u64() -> u64 {
    rand::random::<u64>()
}

/// The fixed list of canned greeting phrases, in order.
pub open spec fn greetings_spec() -> Seq<Seq<char>> {
    seq![
        "なんすか"@,
        "なんか用すか"@,
        "はいはい、こんにちは"@,
        "元気だけはあるっすね"@,
        "なんかばかみたいっすね"@,
        "なんかそういうデータあるんですか？"@,
        "うそはうそであると見抜ける人でないと難しい"@,
        "レターパックで現金送れ"@,
    ]
}

/// Holds when `s` is one of the canned greeting phrases.
pub open spec fn is_greeting(s: Seq<char>) -> bool {
    exists|i: int| 0 <= i < greetings_spec().len() && #[trigger] greetings_spec()[i] == s
}

/// Builds the fixed greeting phrase list.
pub fn greetings() -> (v: Vec<String>)
    ensures
        v@.len() == greetings_spec().len(),
        forall|i: int| 0 <= i < v@.len() ==> #[trigger] v@[i]@ == greetings_spec()[i],
{
    let mut v: Vec<String> = Vec::new();
    v.push(String::from_str("なんすか"));
    v.push(String::from_str("なんか用すか"));
    v.push(String::from_str("はいはい、こんにちは"));
    v.push(String::from_str("元気だけはあるっすね"));
    v.push(String::from_str("なんかばかみたいっすね"));
    v.push(String::from_str("なんかそういうデータあるんですか？"));
    v.push(String::from_str("うそはうそであると見抜ける人でないと難しい"));
    v.push(String::from_str("レターパックで現金送れ"));
    v
}

/// Picks the phrase selected by reducing `draw` modulo the list
/// length: for every value of the draw, the result is a member of the
/// list.
pub fn choose_phrase(phrases: &Vec<String>, draw: u64) -> (r: String)
    requires
        phrases@.len() > 0,
    ensures
        exists|i: int| 0 <= i < phrases@.len() && r@ == #[trigger] phrases@[i]@,
        r@ == phrases@[draw as int % phrases@.len() as int]@,
{
    let i = (draw % (phrases.len() as u64)) as usize;
    let r = phrases[i].clone();
    proof {
        assert(r@ == phrases@[i as int]@);
    }
    r
}

/// The greeting command: replies with one phrase drawn at random from
/// the fixed list. Whatever the draw, the reply is a member of the
/// list.
pub fn hello() -> (r: String)
    ensures
        is_greeting(r@),
{
    let phrases = greetings();
    let draw: u64 = random_u64();
    choose_phrase(&phrases, draw)
}

} // verus!
