//! Topics: their configuration and what follows from it.

use vstd::prelude::*;
use vstd::string::*;

use crate::properties::Properties;

verus! {

/// The topic attribute that names the clean-up policy.
pub const CLEANUP_POLICY_ATTRIBUTE: &'static str = "cleanup.policy";

/// The topic attribute that names the kind of consume queue.
pub const QUEUE_TYPE_ATTRIBUTE: &'static str = "queue.type";

/// Topics that begin so hold the messages a consumer group is to retry.
pub const RETRY_GROUP_TOPIC_PREFIX: &'static str = "%RETRY%";

/// The topic that holds delayed messages.
pub const RMQ_SYS_SCHEDULE_TOPIC: &'static str = "SCHEDULE_TOPIC_XXXX";

/// How the tags of a message are filtered.
#[derive(Debug, Clone, Copy, PartialEq, Eq, Structural)]
pub enum TopicFilterType {
    SingleTag,
    MultiTag,
}

/// What becomes of old messages.
#[derive(Debug, Clone, Copy, PartialEq, Eq, Structural)]
pub enum CleanupPolicy {
    Delete,
    Compaction,
}

/// What is set for a topic.
#[derive(Debug)]
pub struct TopicConfig {
    pub write_queue_nums: u32,
    pub topic_filter_type: TopicFilterType,
    pub attributes: Properties,
}

/// The capital letter of an ASCII letter; any other character as it is.
pub open spec fn ascii_capital(c: char) -> char {
    if 'a' <= c <= 'z' {
        (c as int - 0x20) as char
    } else {
        c
    }
}

/// The capital letter of an ASCII letter or of the dotless i; any other character as it is.
pub open spec fn capital(c: char) -> char {
    if c == '\u{131}' {
        'I'
    } else {
        ascii_capital(c)
    }
}

/// `s` is `word`, which is written in capital letters, whatever the case of its letters.
pub open spec fn spells(s: Seq<char>, word: Seq<char>) -> bool {
    s.map_values(|c: char| capital(c)) == word
}

/// As [`spells`], for ASCII letters only.
pub open spec fn ascii_spells(s: Seq<char>, word: Seq<char>) -> bool {
    s.map_values(|c: char| ascii_capital(c)) == word
}

/// The clean-up policy of a topic is one that is known, or is left out.
pub open spec fn policy_known(attributes: Map<Seq<char>, Seq<char>>) -> bool {
    let name = CLEANUP_POLICY_ATTRIBUTE@;
    attributes.contains_key(name) ==> spells(attributes[name], "DELETE"@) || spells(
        attributes[name],
        "COMPACTION"@,
    )
}

/// The topic is compacted.
pub open spec fn compacted(attributes: Map<Seq<char>, Seq<char>>) -> bool {
    let name = CLEANUP_POLICY_ATTRIBUTE@;
    attributes.contains_key(name) && spells(attributes[name], "COMPACTION"@)
}

/// The topic is consumed batch by batch.
pub open spec fn consumed_in_batches(attributes: Map<Seq<char>, Seq<char>>) -> bool {
    let name = QUEUE_TYPE_ATTRIBUTE@;
    attributes.contains_key(name) && ascii_spells(attributes[name], "BATCHCQ"@)
}

/// `i` in 32 bits, two's complement.
pub open spec fn wrap_i32(i: int) -> int {
    let low = i % 0x1_0000_0000;
    if low >= 0x8000_0000 {
        low - 0x1_0000_0000
    } else {
        low
    }
}

/// The code of the tags of a message: each character added to 31 times the code of those before
/// it, in 32 bits.
pub open spec fn tags_code(tags: Seq<char>) -> int
    decreases tags.len(),
{
    if tags.len() == 0 {
        0
    } else {
        wrap_i32(31 * tags_code(tags.drop_last()) + tags.last() as int)
    }
}

/// `rocketmq_common::CleanupPolicyUtils::get_delete_policy` on a topic with these attributes:
/// compaction where the attribute spells it in letters of any case, deletion where it spells
/// that or is left out. It panics on any other attribute.
#[verifier::external_body]
pub(crate) fn get_delete_policy(attributes: &Properties) -> (r: CleanupPolicy)
    requires
        policy_known(attributes@),
    ensures
        r == (if compacted(attributes@) {
            CleanupPolicy::Compaction
        } else {
            CleanupPolicy::Delete
        }),
{
    let config = rocketmq_common::common::config::TopicConfig {
        attributes: attributes.entries().iter().cloned().collect(),
        ..Default::default()
    };
    match rocketmq_common::CleanupPolicyUtils::get_delete_policy(Some(&config)) {
        rocketmq_common::common::attribute::cleanup_policy::CleanupPolicy::DELETE =>
            CleanupPolicy::Delete,
        rocketmq_common::common::attribute::cleanup_policy::CleanupPolicy::COMPACTION =>
            CleanupPolicy::Compaction,
    }
}

/// `rocketmq_common::utils::queue_type_utils::QueueTypeUtils::is_batch_cq` on a topic with these
/// attributes: whether the attribute spells `BatchCQ` in ASCII letters of any case.
#[verifier::external_body]
pub(crate) fn is_batch_cq(attributes: &Properties) -> (r: bool)
    ensures
        r == consumed_in_batches(attributes@),
{
    let config = rocketmq_common::common::config::TopicConfig {
        attributes: attributes.entries().iter().cloned().collect(),
        ..Default::default()
    };
    rocketmq_common::utils::queue_type_utils::QueueTypeUtils::is_batch_cq(&Some(config))
}

/// `rocketmq_common` `MessageExtBrokerInner::tags_string2tags_code`: the code of the tags, and
/// zero without tags. The filter type does not bear on it.
#[verifier::external_body]
pub(crate) fn tags_string2tags_code(filter: TopicFilterType, tags: &str) -> (r: i64)
    ensures
        r == tags_code(tags@),
{
    let filter = match filter {
        TopicFilterType::SingleTag => rocketmq_common::common::TopicFilterType::SingleTag,
        TopicFilterType::MultiTag => rocketmq_common::common::TopicFilterType::MultiTag,
    };
    rocketmq_common::common::message::message_single::MessageExtBrokerInner::tags_string2tags_code(
        &filter, tags)
}

/// Whether `s` is `word`, which is written in capital letters, whatever the case of its letters.
fn spells_word(s: &str, word: &str) -> (r: bool)
    ensures
        r == spells(s@, word@),
{
    let ghost letters = s@.map_values(|c: char| capital(c));
    let n: usize = s.unicode_len();
    if word.unicode_len() != n {
        assert(letters.len() == n);
        return false;
    }
    let mut i: usize = 0;
    while i < n
        invariant
            i <= n,
            n == s@.len(),
            n == word@.len(),
            letters == s@.map_values(|c: char| capital(c)),
            forall|j: int| 0 <= j < i ==> capital(s@[j]) == word@[j],
        decreases n - i,
    {
        let c = s.get_char(i);
        let letter: u32 = if c == '\u{131}' {
            0x49
        } else if 'a' <= c && c <= 'z' {
            c as u32 - 0x20
        } else {
            c as u32
        };
        assert(letters[i as int] == capital(c));
        if letter != word.get_char(i) as u32 {
            return false;
        }
        i += 1;
    }
    assert(letters =~= word@);
    true
}

/// Whether the clean-up policy of a topic is one that is known, or is left out.
pub fn is_policy_known(attributes: &Properties) -> (r: bool)
    ensures
        r == policy_known(attributes@),
{
    match attributes.get(CLEANUP_POLICY_ATTRIBUTE) {
        Some(value) => spells_word(value.as_str(), "DELETE") || spells_word(
            value.as_str(),
            "COMPACTION",
        ),
        None => true,
    }
}

} // verus!
