//! From the values of the command line to the settings of a run: the role,
//! the domain, the quality of service asked of the middleware, and the
//! options that are turned down.

use crate::role::Role;
use vstd::prelude::*;
use vstd::string::StrSliceExecFns;

verus! {

/// Whether delivery is retried.
#[derive(Debug, PartialEq, Eq, Clone, Copy, Structural)]
pub enum Reliability {
    BestEffort,
    Reliable,
}

/// How long the middleware keeps what was published.
#[derive(Debug, PartialEq, Eq, Clone, Copy, Structural)]
pub enum Durability {
    Volatile,
    TransientLocal,
    Transient,
    Persistent,
}

/// How many samples of one key are kept.
#[derive(Debug, PartialEq, Eq, Clone, Copy, Structural)]
pub enum History {
    KeepAll,
    KeepLast { depth: i32 },
}

/// The quality of service of a run, apart from its deadline.
#[derive(Debug, PartialEq, Eq, Clone, Copy, Structural)]
pub struct QosPlan {
    pub reliability: Reliability,
    pub durability: Durability,
    pub history: History,
}

/// An option that can be asked for and is not served.
#[derive(Debug, PartialEq, Eq, Clone, Copy, Structural)]
pub enum Unsupported {
    Partition,
    TimeBasedFilter,
    OwnershipStrength,
}

/// The number that `str::parse::<i32>` reads from a text, if it reads one.
pub uninterp spec fn parsed_i32(text: Seq<char>) -> Option<i32>;

/// The number that `str::parse::<u16>` reads from a text, if it reads one.
pub uninterp spec fn parsed_u16(text: Seq<char>) -> Option<u16>;

/// `str::parse::<i32>`, with the error dropped: the result depends on the
/// characters of the text alone.
#[verifier::external_body]
fn parse_i32(text: &str) -> (number: Option<i32>)
    ensures
        number == parsed_i32(text@),
{
    text.parse::<i32>().ok()
}

/// `str::parse::<u16>`, with the error dropped: the result depends on the
/// characters of the text alone.
#[verifier::external_body]
fn parse_u16(text: &str) -> (number: Option<u16>)
    ensures
        number == parsed_u16(text@),
{
    text.parse::<u16>().ok()
}

/// The role that the two role flags select: the publisher if it was asked
/// for, else the subscriber if that was asked for, else none.
pub open spec fn role_of_flags(publisher: bool, subscriber: bool) -> Option<Role> {
    if publisher {
        Some(Role::Publisher)
    } else if subscriber {
        Some(Role::Subscriber)
    } else {
        None
    }
}

/// Reliable delivery if asked for, best effort otherwise.
pub open spec fn reliability_of(reliable: bool) -> Reliability {
    if reliable {
        Reliability::Reliable
    } else {
        Reliability::BestEffort
    }
}

/// The durability that a letter stands for: `l`, `t` and `p` for the three
/// lasting kinds, volatile for `v`, for anything else and for no letter.
pub open spec fn durability_of(letter: Option<Seq<char>>) -> Durability {
    match letter {
        Some(text) => if text == seq!['l'] {
            Durability::TransientLocal
        } else if text == seq!['t'] {
            Durability::Transient
        } else if text == seq!['p'] {
            Durability::Persistent
        } else {
            Durability::Volatile
        },
        None => Durability::Volatile,
    }
}

/// The history for a depth option that was read: the last `depth` samples
/// for a depth that is a number and not negative, everything otherwise.
/// The outer option says whether a depth was given, the inner whether it
/// was a number.
pub open spec fn history_of(depth: Option<Option<i32>>) -> History {
    match depth {
        Some(Some(d)) => if d < 0 {
            History::KeepAll
        } else {
            History::KeepLast { depth: d }
        },
        _ => History::KeepAll,
    }
}

/// The domain for a domain option that was read: the number given, or
/// domain 0 where none was given or what was given is no such number.
pub open spec fn domain_of(id: Option<Option<u16>>) -> u16 {
    match id {
        Some(Some(d)) => d,
        _ => 0,
    }
}

/// The first option, in the order partition, time based filter, ownership
/// strength, that was asked for though it is not served.
pub open spec fn first_unsupported_of(partition: bool, interval: bool, ownership_strength: bool)
    -> Option<Unsupported> {
    if partition {
        Some(Unsupported::Partition)
    } else if interval {
        Some(Unsupported::TimeBasedFilter)
    } else if ownership_strength {
        Some(Unsupported::OwnershipStrength)
    } else {
        None
    }
}

/// What is said when an option is turned down.
pub open spec fn refusal_of(option: Unsupported) -> Seq<char> {
    match option {
        Unsupported::Partition => "QoS policy Partition is not yet implemented."@,
        Unsupported::TimeBasedFilter => "QoS policy Time Based Filter is not yet implemented."@,
        Unsupported::OwnershipStrength => "QoS policy Ownership Strength is not yet implemented."@,
    }
}

/// A depth option as it is read: absent, or what `str::parse::<i32>` makes
/// of its text.
pub open spec fn depth_read(text: Option<Seq<char>>) -> Option<Option<i32>> {
    match text {
        Some(t) => Some(parsed_i32(t)),
        None => None,
    }
}

/// A domain option as it is read: absent, or what `str::parse::<u16>` makes
/// of its text.
pub open spec fn domain_read(text: Option<Seq<char>>) -> Option<Option<u16>> {
    match text {
        Some(t) => Some(parsed_u16(t)),
        None => None,
    }
}

/// Mathematical value of an optional text.
pub open spec fn str_view(text: Option<&str>) -> Option<Seq<char>> {
    match text {
        Some(t) => Some(t@),
        None => None,
    }
}

/// The role that the flags of the command line select.
pub fn role_for(publisher: bool, subscriber: bool) -> (role: Option<Role>)
    ensures
        role == role_of_flags(publisher, subscriber),
{
    if publisher {
        Some(Role::Publisher)
    } else if subscriber {
        Some(Role::Subscriber)
    } else {
        None
    }
}

/// The reliability that the flag selects.
pub fn reliability_for(reliable: bool) -> (reliability: Reliability)
    ensures
        reliability == reliability_of(reliable),
{
    if reliable {
        Reliability::Reliable
    } else {
        Reliability::BestEffort
    }
}

/// Whether `text` is the single character `letter`.
fn is_letter(text: &str, letter: char) -> (same: bool)
    ensures
        same == (text@ == seq![letter]),
{
    if text.unicode_len() == 1 {
        let found = text.get_char(0);
        if found == letter {
            assert(text@ =~= seq![letter]);
            true
        } else {
            assert(seq![letter][0] == letter);
            false
        }
    } else {
        assert(seq![letter].len() == 1);
        false
    }
}

/// The durability that the letter of the command line selects.
pub fn durability_for(letter: Option<&str>) -> (durability: Durability)
    ensures
        durability == durability_of(str_view(letter)),
{
    match letter {
        Some(text) => {
            if is_letter(text, 'l') {
                Durability::TransientLocal
            } else if is_letter(text, 't') {
                Durability::Transient
            } else if is_letter(text, 'p') {
                Durability::Persistent
            } else {
                Durability::Volatile
            }
        },
        None => Durability::Volatile,
    }
}

/// The history for a depth that was read already.
pub fn history_for(depth: Option<Option<i32>>) -> (history: History)
    ensures
        history == history_of(depth),
{
    match depth {
        Some(Some(d)) => {
            if d < 0 {
                History::KeepAll
            } else {
                History::KeepLast { depth: d }
            }
        },
        _ => History::KeepAll,
    }
}

/// The history that the depth text of the command line selects.
pub fn history_from_text(depth: Option<&str>) -> (history: History)
    ensures
        history == history_of(depth_read(str_view(depth))),
{
    match depth {
        Some(text) => history_for(Some(parse_i32(text))),
        None => history_for(None),
    }
}

/// The domain for an id that was read already.
pub fn domain_id_for(id: Option<Option<u16>>) -> (domain: u16)
    ensures
        domain == domain_of(id),
{
    match id {
        Some(Some(d)) => d,
        _ => 0,
    }
}

/// The domain that the id text of the command line selects.
pub fn domain_id_from_text(id: Option<&str>) -> (domain: u16)
    ensures
        domain == domain_of(domain_read(str_view(id))),
{
    match id {
        Some(text) => domain_id_for(Some(parse_u16(text))),
        None => domain_id_for(None),
    }
}

/// The quality of service that the command line asks for.
pub fn qos_plan(reliable: bool, durability: Option<&str>, history_depth: Option<&str>) -> (plan:
    QosPlan)
    ensures
        plan.reliability == reliability_of(reliable),
        plan.durability == durability_of(str_view(durability)),
        plan.history == history_of(depth_read(str_view(history_depth))),
{
    QosPlan {
        reliability: reliability_for(reliable),
        durability: durability_for(durability),
        history: history_from_text(history_depth),
    }
}

/// The first option that was asked for and is not served, if there is one.
/// A run must not start with such an option.
pub fn first_unsupported(partition: bool, interval: bool, ownership_strength: bool) -> (found:
    Option<Unsupported>)
    ensures
        found == first_unsupported_of(partition, interval, ownership_strength),
        found is None <==> !partition && !interval && !ownership_strength,
{
    if partition {
        Some(Unsupported::Partition)
    } else if interval {
        Some(Unsupported::TimeBasedFilter)
    } else if ownership_strength {
        Some(Unsupported::OwnershipStrength)
    } else {
        None
    }
}

impl Unsupported {
    /// What to say when this option is turned down.
    pub fn refusal(&self) -> (text: &'static str)
        ensures
            text@ == refusal_of(*self),
    {
        match self {
            Unsupported::Partition => "QoS policy Partition is not yet implemented.",
            Unsupported::TimeBasedFilter => "QoS policy Time Based Filter is not yet implemented.",
            Unsupported::OwnershipStrength => {
                "QoS policy Ownership Strength is not yet implemented."
            },
        }
    }
}

} // verus!
