//! What holds of every send request.

use vstd::prelude::*;

use crate::command;
use crate::command::{RemotingCommand, SUCCESS, UNDECIDED};
use crate::message;
use crate::message::{
    INNER_BATCH_FLAG, MULTI_TAGS_FLAG, NEED_UNWRAP_FLAG, PROPERTY_CLUSTER, PROPERTY_INNER_NUM,
    PROPERTY_UNIQ_CLIENT_MESSAGE_ID_KEYIDX,
};
use crate::processor;
use crate::properties;
use crate::property_laws;
use crate::session;
use crate::session::{Action, Event, Session, Stage};
use crate::store;
use crate::store::{PutMessageResult, PutMessageStatus, StoreInput};
use crate::text;
use crate::topic;
use crate::topic::{TopicConfig, TopicFilterType};

verus! {

/// The response that a session keeps.
pub open spec fn kept_response(stage: Stage) -> Option<command::CommandView> {
    match stage {
        Stage::Selecting { response, .. } => Some(response@),
        Stage::Drawing { response, .. } => Some(response@),
        Stage::Counting { response, .. } => Some(response@),
        Stage::Storing { response, .. } => Some(response@),
        _ => None,
    }
}

/// A response that a session keeps has not been refused.
pub open spec fn unrefused(stage: Stage) -> bool {
    kept_response(stage) matches Some(response) ==> response.code == UNDECIDED
}

/// Only a request that was not refused reaches the store: no step makes a session keep a refused
/// response, and a message goes to the store with an unrefused one.
pub proof fn only_unrefused_requests_are_stored(
    config: crate::config::ConfigView,
    host: Seq<char>,
    s: Session,
    event: Event,
    stage: Stage,
    action: Action,
)
    requires
        unrefused(s.stage),
        session::step(config, host, s, event, stage, action),
    ensures
        unrefused(stage),
        action is Put ==> (kept_response(s.stage) matches Some(response) && response.code
            == UNDECIDED && kept_response(stage) == Some(response)),
{
}

/// A request that the check refused is answered with the response of the check and ends there.
pub proof fn a_refused_request_is_answered_as_checked(
    config: crate::config::ConfigView,
    host: Seq<char>,
    s: Session,
    response: RemotingCommand,
    stage: Stage,
    action: Action,
)
    requires
        s.stage is Checking,
        response.code != UNDECIDED,
        session::step(config, host, s, Event::Checked { response }, stage, action),
    ensures
        session::ends_with(stage, action, Some(response@)),
{
}

/// How many steps a session has in front of it at most.
pub open spec fn steps_left(stage: Stage) -> nat {
    match stage {
        Stage::Received => 9,
        Stage::Rewriting => 8,
        Stage::Hooking => 7,
        Stage::Timing { .. } => 6,
        Stage::Checking { .. } => 5,
        Stage::Selecting { .. } => 4,
        Stage::Drawing { .. } => 3,
        Stage::Counting { .. } => 2,
        Stage::Storing { .. } => 1,
        Stage::Finished => 0,
    }
}

/// Every step brings a session nearer to its end, and it ends exactly where the request is
/// answered, left unanswered, taken back or given up.
pub proof fn every_session_ends(
    config: crate::config::ConfigView,
    host: Seq<char>,
    s: Session,
    event: Event,
    stage: Stage,
    action: Action,
)
    requires
        session::step(config, host, s, event, stage, action),
    ensures
        steps_left(stage) < steps_left(s.stage),
        stage is Finished <==> action is Reply || action is TakeBack || action is Abort,
{
}

/// A message is stored at most once: the session that has it stored waits for the reply of the
/// store, and does nothing after that but end.
pub proof fn a_message_is_stored_at_most_once(
    config: crate::config::ConfigView,
    host: Seq<char>,
    s: Session,
    event: Event,
    stage: Stage,
    action: Action,
)
    requires
        session::step(config, host, s, event, stage, action),
    ensures
        action is Put <==> stage is Storing,
        s.stage is Storing ==> stage is Finished,
{
}

/// A response that a session keeps has the number of the request.
pub open spec fn numbered(s: Session, stage: Stage) -> bool {
    kept_response(stage) matches Some(response) ==> response.opaque == s.request.opaque
}

/// What the host reports has the number of the request where it is a response.
pub open spec fn event_numbered(s: Session, event: Event) -> bool {
    match event {
        Event::Rewritten { reply: Some(reply), .. } => reply.opaque == s.request.opaque,
        Event::Checked { response } => response.opaque == s.request.opaque,
        _ => true,
    }
}

/// Every answer has the number of the request, as long as the host keeps it in the responses it
/// reports.
pub proof fn every_answer_has_the_number_of_its_request(
    config: crate::config::ConfigView,
    host: Seq<char>,
    s: Session,
    event: Event,
    stage: Stage,
    action: Action,
)
    requires
        numbered(s, s.stage),
        event_numbered(s, event),
        session::step(config, host, s, event, stage, action),
    ensures
        numbered(s, stage),
        action matches Action::Check { response } ==> response.opaque == s.request.opaque,
        action matches Action::Reply { reply: Some(reply) } ==> reply.opaque == s.request.opaque,
{
}

/// A run of a session: the stages it goes through from its arrival on, with the event and the
/// action between any two.
pub open spec fn is_run(
    config: crate::config::ConfigView,
    host: Seq<char>,
    s: Session,
    stages: Seq<Stage>,
    events: Seq<Event>,
    actions: Seq<Action>,
) -> bool {
    &&& stages.len() == actions.len() + 1
    &&& events.len() == actions.len()
    &&& stages[0] is Received
    &&& forall|i: int|
        0 <= i < actions.len() ==> session::step(
            config,
            host,
            Session { stage: stages[i], ..s },
            #[trigger] events[i],
            stages[i + 1],
            actions[i],
        )
}

/// Along a run the steps left become fewer, and no refused response is kept.
proof fn lemma_run(
    config: crate::config::ConfigView,
    host: Seq<char>,
    s: Session,
    stages: Seq<Stage>,
    events: Seq<Event>,
    actions: Seq<Action>,
    from: int,
    to: int,
)
    requires
        is_run(config, host, s, stages, events, actions),
        0 <= from <= to < stages.len(),
    ensures
        steps_left(stages[to]) + (to - from) <= steps_left(stages[from]),
        unrefused(stages[from]) ==> unrefused(stages[to]),
    decreases to - from,
{
    if from < to {
        lemma_run(config, host, s, stages, events, actions, from, to - 1);
        let before = Session { stage: stages[to - 1], ..s };
        assert(session::step(config, host, before, events[to - 1], stages[to], actions[to - 1]));
        every_session_ends(config, host, before, events[to - 1], stages[to], actions[to - 1]);
        if unrefused(stages[to - 1]) {
            only_unrefused_requests_are_stored(
                config,
                host,
                before,
                events[to - 1],
                stages[to],
                actions[to - 1],
            );
        }
    }
}

/// In every run of a session there are at most nine steps, at most one message is stored, that
/// message only with an unrefused response, and nothing follows an answer.
pub proof fn every_run_stores_at_most_once(
    config: crate::config::ConfigView,
    host: Seq<char>,
    s: Session,
    stages: Seq<Stage>,
    events: Seq<Event>,
    actions: Seq<Action>,
)
    requires
        is_run(config, host, s, stages, events, actions),
    ensures
        actions.len() <= 9,
        forall|i: int, j: int|
            0 <= i < j < actions.len() ==> !(#[trigger] actions[i] is Put
                && #[trigger] actions[j] is Put),
        forall|i: int| 0 <= i < stages.len() ==> unrefused(#[trigger] stages[i]),
        forall|i: int|
            0 <= i < actions.len() && (#[trigger] actions[i] is Reply) ==> i == actions.len() - 1,
{
    lemma_run(config, host, s, stages, events, actions, 0, actions.len() as int);
    assert forall|i: int| 0 <= i < stages.len() implies unrefused(#[trigger] stages[i]) by {
        lemma_run(config, host, s, stages, events, actions, 0, i);
    }
    assert forall|i: int, j: int| 0 <= i < j < actions.len() implies !(
    #[trigger] actions[i] is Put && #[trigger] actions[j] is Put) by {
        let first = Session { stage: stages[i], ..s };
        let second = Session { stage: stages[j], ..s };
        assert(session::step(config, host, first, events[i], stages[i + 1], actions[i]));
        assert(session::step(config, host, second, events[j], stages[j + 1], actions[j]));
        a_message_is_stored_at_most_once(
            config,
            host,
            first,
            events[i],
            stages[i + 1],
            actions[i],
        );
        a_message_is_stored_at_most_once(
            config,
            host,
            second,
            events[j],
            stages[j + 1],
            actions[j],
        );
        lemma_run(config, host, s, stages, events, actions, i + 1, j + 1);
    }
    assert forall|i: int| 0 <= i < actions.len() && (#[trigger] actions[i] is Reply) implies i
        == actions.len() - 1 by {
        let last = Session { stage: stages[i], ..s };
        assert(session::step(config, host, last, events[i], stages[i + 1], actions[i]));
        every_session_ends(config, host, last, events[i], stages[i + 1], actions[i]);
        lemma_run(config, host, s, stages, events, actions, i + 1, actions.len() as int);
    }
}

/// The report of the clock at `i` is not too early.
pub open spec fn in_time(config: crate::config::ConfigView, events: Seq<Event>, i: int) -> bool {
    events[i] matches Event::Clock { now } && !processor::too_early(config, now)
}

/// The report of the check at `i` is no refusal.
pub open spec fn passed(events: Seq<Event>, i: int) -> bool {
    events[i] matches Event::Checked { response } && response.code == UNDECIDED
}

/// A session has the clock behind it.
pub open spec fn is_timed(stage: Stage) -> bool {
    stage is Checking || is_checked(stage)
}

/// A session has the check behind it.
pub open spec fn is_checked(stage: Stage) -> bool {
    stage is Selecting || stage is Drawing || stage is Counting || stage is Storing
}

/// A run that has the clock or the check behind it was in time and passed the check.
proof fn lemma_checked(
    config: crate::config::ConfigView,
    host: Seq<char>,
    s: Session,
    stages: Seq<Stage>,
    events: Seq<Event>,
    actions: Seq<Action>,
    to: int,
)
    requires
        is_run(config, host, s, stages, events, actions),
        0 <= to < stages.len(),
    ensures
        is_timed(stages[to]) ==> exists|i: int| 0 <= i < to && #[trigger] in_time(config, events, i),
        is_checked(stages[to]) ==> exists|i: int| 0 <= i < to && #[trigger] passed(events, i),
    decreases to,
{
    if to > 0 {
        lemma_checked(config, host, s, stages, events, actions, to - 1);
        let before = Session { stage: stages[to - 1], ..s };
        assert(session::step(config, host, before, events[to - 1], stages[to], actions[to - 1]));
        if is_timed(stages[to]) && !is_timed(stages[to - 1]) {
            assert(in_time(config, events, to - 1));
        }
        if is_checked(stages[to]) && !is_checked(stages[to - 1]) {
            assert(passed(events, to - 1));
        }
    }
}

/// No message is stored before the broker accepts messages, nor without having passed the check.
pub proof fn every_stored_message_was_checked(
    config: crate::config::ConfigView,
    host: Seq<char>,
    s: Session,
    stages: Seq<Stage>,
    events: Seq<Event>,
    actions: Seq<Action>,
    at: int,
)
    requires
        is_run(config, host, s, stages, events, actions),
        0 <= at < actions.len(),
        actions[at] is Put,
    ensures
        exists|i: int| 0 <= i < at && #[trigger] in_time(config, events, i),
        exists|i: int| 0 <= i < at && #[trigger] passed(events, i),
{
    let before = Session { stage: stages[at], ..s };
    assert(session::step(config, host, before, events[at], stages[at + 1], actions[at]));
    lemma_checked(config, host, s, stages, events, actions, at);
}

/// The topic that is known when a session decides.
pub open spec fn known_topic(stage: Stage, event: Event) -> Option<TopicConfig> {
    match (stage, event) {
        (_, Event::TopicSelected { topic_config, .. }) => Some(topic_config),
        (Stage::Drawing { topic_config, .. }, _) => Some(topic_config),
        (Stage::Counting { topic_config, .. }, _) => Some(topic_config),
        _ => None,
    }
}

/// What the broker forbids is never stored: a batch under a long topic or under one of messages
/// to be retried, a message with blank keys under a compacted topic, and a transaction where
/// transactions are rejected.
pub proof fn nothing_forbidden_is_stored(
    config: crate::config::ConfigView,
    host: Seq<char>,
    s: Session,
    event: Event,
    stage: Stage,
    action: Action,
)
    requires
        session::step(config, host, s, event, stage, action),
        action is Put,
    ensures
        ({
            &&& kept_header(s.stage) matches Some(header)
            &&& known_topic(s.stage, event) matches Some(topic_config)
            &&& if session::is_batch(header) {
                &&& vstd::utf8::encode_utf8(header.topic).len() <= processor::MAX_BATCH_TOPIC_LEN
                &&& !text::has_prefix(header.topic, topic::RETRY_GROUP_TOPIC_PREFIX@)
            } else {
                &&& !(topic::compacted(topic_config.attributes@) && processor::blank_keys(header))
                &&& !(config.reject_transactions && processor::opens_transaction(config, header))
            }
        }),
{
}

/// Once a message is stored, the answer names the queue that the message went to, and the id of
/// a batch that went there as one message.
pub proof fn the_answer_fits_the_stored_message(
    config: crate::config::ConfigView,
    host: Seq<char>,
    s: Session,
    event: Event,
    storing: Stage,
    input: StoreInput,
    in_background: bool,
    result: PutMessageResult,
    stage: Stage,
    reply: RemotingCommand,
)
    requires
        session::step(config, host, s, event, storing, Action::Put { input, in_background }),
        session::step(
            config,
            host,
            Session { stage: storing, ..s },
            Event::Stored { result },
            stage,
            Action::Reply { reply: Some(reply) },
        ),
    ensures
        reply@.command_custom_header matches Some(answer) && {
            let message = stored_message(input);
            &&& answer.queue_id == message.queue_id
            &&& result.append_message_result matches Some(appended)
            &&& answer.msg_id == appended.msg_id@
            &&& answer.queue_offset == appended.logics_offset
            &&& kept_header(s.stage) matches Some(header)
            &&& session::is_batch(header) && input is Message ==> answer.batch_uniq_id
                == message::property(
                message.properties,
                PROPERTY_UNIQ_CLIENT_MESSAGE_ID_KEYIDX@,
            )
            &&& !(session::is_batch(header) && input is Message) ==> answer.batch_uniq_id is None
        },
{
    lemma_broker_names();
}

/// The code of tags fits in 32 bits.
pub proof fn tags_code_fits(tags: Seq<char>)
    ensures
        i32::MIN <= topic::tags_code(tags) <= i32::MAX,
{
}

/// The header that a checked session keeps.
pub open spec fn kept_header(stage: Stage) -> Option<command::RequestHeaderView> {
    match stage {
        Stage::Selecting { header, .. } => Some(header@),
        Stage::Drawing { header, .. } => Some(header@),
        Stage::Counting { header, .. } => Some(header@),
        _ => None,
    }
}

/// The message that goes to the store, alone or as a batch.
pub open spec fn stored_message(input: StoreInput) -> message::MessageView {
    match input {
        StoreInput::Message(message) => message@,
        StoreInput::Batch(batch) => batch.message_ext_broker_inner@,
    }
}

/// The names of the properties that the broker sets are apart from one another, and can be
/// written.
proof fn lemma_broker_names()
    ensures
        property_laws::writable_name(PROPERTY_CLUSTER@),
        property_laws::writable_name(PROPERTY_INNER_NUM@),
        PROPERTY_CLUSTER@ != PROPERTY_INNER_NUM@,
        PROPERTY_CLUSTER@ != PROPERTY_UNIQ_CLIENT_MESSAGE_ID_KEYIDX@,
        PROPERTY_INNER_NUM@ != PROPERTY_UNIQ_CLIENT_MESSAGE_ID_KEYIDX@,
{
    reveal_strlit("CLUSTER");
    reveal_strlit("INNER_NUM");
    reveal_strlit("UNIQ_KEY");
    assert(PROPERTY_CLUSTER@[0] == 'C');
    assert(PROPERTY_INNER_NUM@[0] == 'I');
    assert(PROPERTY_UNIQ_CLIENT_MESSAGE_ID_KEYIDX@[0] == 'U');
}

/// The properties of a single message, or of a batch that is stored as one message, can be read
/// back from the text that is stored with it, provided that the name of the cluster can.
pub proof fn stored_properties_read_back(
    config: crate::config::ConfigView,
    host: Seq<char>,
    s: Session,
    event: Event,
    stage: Stage,
    action: Action,
)
    requires
        property_laws::writable_value(config.cluster_name),
        session::step(config, host, s, event, stage, action),
    ensures
        action matches Action::Put { input: StoreInput::Message(message), .. }
            ==> properties::decoded(Some(message@.properties_string)) == message@.properties,
{
    if let Action::Put { input: StoreInput::Message(message), .. } = action {
        let header = kept_header(s.stage)->0;
        lemma_broker_names();
        property_laws::decoded_table_is_writable(header.properties);
        let read = properties::decoded(header.properties);
        let base = processor::stored_properties(config, header);
        let count = match event {
            Event::InnerCounted { inner_num } => inner_num as nat,
            _ => 0,
        };
        text::lemma_decimal_all_digits(count);
        assert(property_laws::writable_value(text::decimal(count)));
        assert(property_laws::writable(base)) by {
            assert forall|name: Seq<char>| #[trigger] base.contains_key(name) implies
                property_laws::writable_name(name) && property_laws::writable_value(base[name]) by {
                if name != PROPERTY_CLUSTER@ {
                    assert(read.contains_key(name));
                }
            }
        }
        assert(property_laws::writable(message@.properties)) by {
            assert forall|name: Seq<char>| #[trigger]
                message@.properties.contains_key(name) implies property_laws::writable_name(name)
                && property_laws::writable_value(message@.properties[name]) by {
                if name != PROPERTY_INNER_NUM@ {
                    assert(base.contains_key(name));
                } else if !(message@.properties =~= base) {
                    assert(message@.properties[name] == text::decimal(count));
                }
            }
        }
        property_laws::properties_text_reads_back(
            message@.properties,
            message@.properties_string,
        );
    }
}

/// Every message that goes to the store carries the cluster of the broker, and the topic, flag,
/// body and birth time that its producer gave it.
pub proof fn every_message_carries_its_cluster(
    config: crate::config::ConfigView,
    host: Seq<char>,
    s: Session,
    event: Event,
    stage: Stage,
    action: Action,
)
    requires
        session::step(config, host, s, event, stage, action),
    ensures
        action matches Action::Put { input, .. } ==> {
            let message = stored_message(input);
            &&& kept_header(s.stage) matches Some(header)
            &&& message.properties.contains_key(PROPERTY_CLUSTER@)
            &&& message.properties[PROPERTY_CLUSTER@] == config.cluster_name
            &&& message.topic == header.topic
            &&& message.flag == header.flag
            &&& message.body == s.request@.body
            &&& message.born_timestamp == header.born_timestamp
            &&& message.store_host == host
        },
{
    lemma_broker_names();
}

/// A message is never stored under a queue below zero, as long as the drawn queue is not beyond
/// the range of queues.
pub proof fn chosen_queue_is_not_negative(queue_id: Option<i32>, drawn: u32)
    requires
        drawn <= i32::MAX,
    ensures
        processor::chosen_queue(queue_id, drawn) >= 0,
        queue_id matches Some(id) ==> id >= 0 ==> processor::chosen_queue(queue_id, drawn) == id,
        processor::draws_queue(queue_id) ==> processor::chosen_queue(queue_id, drawn) == drawn,
{
}

/// A batch keeps the flags that its producer set.
pub proof fn a_batch_keeps_its_flags(
    header: command::RequestHeaderView,
    filter: TopicFilterType,
    batch: message::MessageView,
    inner_num: u32,
    properties_string: Seq<char>,
)
    requires
        batch.sys_flag == processor::batch_flags(header, filter),
    ensures
        batch.sys_flag & header.sys_flag == header.sys_flag,
        filter == TopicFilterType::MultiTag ==> batch.sys_flag & MULTI_TAGS_FLAG
            == MULTI_TAGS_FLAG,
        ({
            let flags = processor::inner_batch_message(batch, inner_num, properties_string).sys_flag;
            &&& flags & batch.sys_flag == batch.sys_flag
            &&& flags & NEED_UNWRAP_FLAG == NEED_UNWRAP_FLAG
            &&& flags & INNER_BATCH_FLAG == INNER_BATCH_FLAG
        }),
{
    let given = header.sys_flag;
    let flags = batch.sys_flag;
    assert((given | 0x2i32) & given == given) by (bit_vector);
    assert(given & given == given) by (bit_vector);
    assert((given | 0x2i32) & 0x2i32 == 0x2i32) by (bit_vector);
    assert((flags | 0x40i32 | 0x80i32) & flags == flags) by (bit_vector);
    assert((flags | 0x40i32 | 0x80i32) & 0x40i32 == 0x40i32) by (bit_vector);
    assert((flags | 0x40i32 | 0x80i32) & 0x80i32 == 0x80i32) by (bit_vector);
}

/// The id that the producer gave a message is never empty where it is set, so that the broker
/// never has to make one up.
pub proof fn uniq_id_is_never_empty(text: Option<Seq<char>>)
    ensures
        properties::decoded(text).contains_key(PROPERTY_UNIQ_CLIENT_MESSAGE_ID_KEYIDX@)
            ==> properties::decoded(text)[PROPERTY_UNIQ_CLIENT_MESSAGE_ID_KEYIDX@].len() > 0,
{
    property_laws::decoded_table_is_writable(text);
}

/// The answer to a stored request names the message, its queue and its place there, and keeps
/// the id of a batch.
pub proof fn the_answer_names_the_message(
    result: PutMessageResult,
    response: command::CommandView,
    queue_id: i32,
    header: command::ResponseHeaderView,
)
    requires
        result.append_message_result is Some,
    ensures
        ({
            let answer = processor::stored_answer(result, response, queue_id, header);
            let appended = result.append_message_result->0;
            &&& answer.ext_fields matches Some(fields)
            &&& fields.contains_key("msgId"@) && fields["msgId"@] == appended.msg_id@
            &&& fields.contains_key("queueId"@) && fields["queueId"@] == text::signed_decimal(
                queue_id as int,
            )
            &&& fields.contains_key("queueOffset"@) && fields["queueOffset"@]
                == text::signed_decimal(appended.logics_offset as int)
            &&& header.batch_uniq_id matches Some(id) ==> fields.contains_key("batchUniqId"@)
                && fields["batchUniqId"@] == id
            &&& answer.code == store::status_code(result.put_message_status)
        }),
{
    reveal_strlit("msgId");
    reveal_strlit("queueId");
    reveal_strlit("queueOffset");
    reveal_strlit("transactionId");
    reveal_strlit("batchUniqId");
    assert("msgId"@.len() == 5);
    assert("queueId"@.len() == 7);
    assert("queueOffset"@.len() == 11);
    assert("transactionId"@.len() == 13);
    assert("batchUniqId"@.len() == 11);
    assert("batchUniqId"@[0] == 'b');
    assert("queueOffset"@[0] == 'q');
}

/// A message is answered with success exactly where the store says that all went well, and the
/// answer bears a remark exactly where the message is not stored.
pub proof fn success_means_stored(status: PutMessageStatus)
    ensures
        store::status_code(status) == SUCCESS <==> status == PutMessageStatus::PutOk,
        store::status_remark(status) is None <==> store::stored(status),
{
}

/// What is left of a header after [`session::cleared`] stays when that is done a second time.
pub proof fn clearing_is_idempotent(header: command::RequestHeaderView)
    ensures
        session::cleared(session::cleared(header)) == session::cleared(header),
{
    if let Some(text) = header.properties {
        property_laws::delete_property_is_idempotent(text, message::PROPERTY_POP_CK@);
    }
}

} // verus!
