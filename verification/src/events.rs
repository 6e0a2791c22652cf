//! The sandbox's sources of chance and time, and the naming of its agents.

use vstd::prelude::*;
use vstd::string::StringExecFns;
use crate::model::DeedKind;

verus! {

/// Calls `rand::Rng::gen_range` on the thread-local generator with the range
/// `lo..hi`. The range must not be empty, or the call panics. Of the value
/// drawn only its range is known.
#[verifier::external_body]
pub(crate) fn random_in_range(lo: i64, hi: i64) -> (r: i64)
    requires
        lo < hi,
    ensures
        lo <= r < hi,
{
    rand::Rng::gen_range(&mut rand::thread_rng(), lo..hi)
}

/// Calls `chrono::Utc::now` and returns its `timestamp`, the seconds since
/// the epoch. Nothing is known of the value.
#[verifier::external_body]
pub fn current_timestamp() -> u64 {
    chrono::Utc::now().timestamp() as u64
}

/// The event kinds of the sandbox, in the order in which they are drawn.
pub open spec fn event_kinds() -> Seq<DeedKind> {
    seq![
        DeedKind::EcologicalSharing,
        DeedKind::ResourceAid,
        DeedKind::MinorDisturbance,
        DeedKind::MathScienceEducation,
    ]
}

/// The event kind at position `idx` of the sandbox's list.
pub fn event_kind_at(idx: usize) -> (kind: DeedKind)
    requires
        idx < 4,
    ensures
        kind == event_kinds()[idx as int],
{
    if idx == 0 {
        DeedKind::EcologicalSharing
    } else if idx == 1 {
        DeedKind::ResourceAid
    } else if idx == 2 {
        DeedKind::MinorDisturbance
    } else {
        DeedKind::MathScienceEducation
    }
}

/// Draws the kind of the next ecological event: one of the sandbox's four
/// kinds, by chance.
pub fn generate_ecological_event() -> (kind: DeedKind)
    ensures
        event_kinds().contains(kind),
{
    let idx: i64 = random_in_range(0, 4);
    let kind = event_kind_at(idx as usize);
    assert(event_kinds()[idx as int] == kind);
    kind
}

/// The character of a decimal digit.
pub open spec fn digit_char(d: nat) -> char {
    seq!['0', '1', '2', '3', '4', '5', '6', '7', '8', '9'][d as int]
}

/// The decimal numeral of `n`, without leading zeros.
pub open spec fn decimal_digits(n: nat) -> Seq<char>
    decreases n,
{
    if n < 10 {
        seq![digit_char(n)]
    } else {
        decimal_digits(n / 10).push(digit_char(n % 10))
    }
}

/// The name of the agent at position `index`: `agent_` and the decimal
/// numeral of the index.
pub open spec fn agent_name(index: nat) -> Seq<char> {
    "agent_"@ + decimal_digits(index)
}

fn digit_text(d: usize) -> (s: &'static str)
    requires
        d < 10,
    ensures
        s@ == seq![digit_char(d as nat)],
{
    proof {
        reveal_strlit("0");
        reveal_strlit("1");
        reveal_strlit("2");
        reveal_strlit("3");
        reveal_strlit("4");
        reveal_strlit("5");
        reveal_strlit("6");
        reveal_strlit("7");
        reveal_strlit("8");
        reveal_strlit("9");
    }
    let s = if d == 0 {
        "0"
    } else if d == 1 {
        "1"
    } else if d == 2 {
        "2"
    } else if d == 3 {
        "3"
    } else if d == 4 {
        "4"
    } else if d == 5 {
        "5"
    } else if d == 6 {
        "6"
    } else if d == 7 {
        "7"
    } else if d == 8 {
        "8"
    } else {
        "9"
    };
    assert(s@ =~= seq![digit_char(d as nat)]);
    s
}

/// Writes `n` as a decimal numeral.
pub fn decimal_string(n: usize) -> (s: String)
    ensures
        s@ == decimal_digits(n as nat),
    decreases n,
{
    if n < 10 {
        digit_text(n).to_owned()
    } else {
        let mut s = decimal_string(n / 10);
        s.append(digit_text(n % 10));
        assert(s@ =~= decimal_digits(n as nat));
        s
    }
}

/// Names the agent at position `index`.
pub fn name_agent(index: usize) -> (name: String)
    ensures
        name@ == agent_name(index as nat),
{
    let mut name = "agent_".to_owned();
    let digits = decimal_string(index);
    name.append(digits.as_str());
    name
}

} // verus!
