//! What holds of the results of single functions, told from their arguments.

use std::sync::Arc;

use vstd::prelude::*;

use crate::command;
use crate::command::{RemotingCommand, SendMessageRequestHeader, SendMessageResponseHeader};
use crate::config::BrokerConfig;
use crate::dispatcher::CommitLogDispatcherBuildConsumeQueue;
use crate::message;
use crate::message::Message;
use crate::processor;
use crate::processor::{SendMessageProcessor, SendOutcome};
use crate::properties;
use crate::properties::Properties;
use crate::session;
use crate::session::{Action, Event, Session, Stage};
use crate::step_laws;
use crate::store;
use crate::store::{PutMessageResult, PutMessageStatus};
use crate::text;
use crate::topic;
use crate::topic::TopicConfig;

verus! {

/// A new processor has the given settings, for itself and in the shared part, the given managers,
/// a copy of the given store, no hooks, and the address that host and port of the settings give.
pub proof fn a_new_processor_has_what_it_was_given<MS: Clone, QM, TC, HK>(
    queue_mapping: Arc<QM>,
    topics: TC,
    broker_config: Arc<BrokerConfig>,
    message_store: MS,
    r: SendMessageProcessor<MS, QM, TC, HK>,
)
    requires
        call_ensures(
            SendMessageProcessor::<MS, QM, TC, HK>::new,
            (queue_mapping, topics, broker_config, &message_store),
            r,
        ),
    ensures
        r.config().cluster_name == broker_config.broker_identity.broker_cluster_name@,
        r.config().ip == broker_config.broker_ip1@,
        r.config().port == broker_config.listen_port,
        r.config().region == broker_config.region_id@,
        r.config().trace_on == broker_config.trace_on,
        r.config().async_send == broker_config.async_send_enable,
        r.config().reject_transactions == broker_config.reject_transaction_message,
        r.config().start_millis == broker_config.start_accept_send_request_time_stamp,
        r.shared_config() == broker_config,
        r.host() == broker_config.broker_ip1@ + seq![':'] + text::decimal(
            broker_config.listen_port as nat,
        ),
        r.hooks() == Seq::<HK>::empty(),
        r.queue_mapping() == *queue_mapping,
        r.topics() == topics,
        cloned(message_store, r.store()),
{
    reveal_strlit(":");
    assert(":"@ =~= seq![':']);
}

/// A copy of a processor behaves as the processor does.
pub proof fn a_copy_is_like_its_processor<MS: Clone, QM, TC: Clone, HK>(
    p: SendMessageProcessor<MS, QM, TC, HK>,
    r: SendMessageProcessor<MS, QM, TC, HK>,
)
    requires
        cloned(p, r),
    ensures
        r.config() == p.config(),
        r.shared_config() == p.shared_config(),
        r.host() == p.host(),
        r.hooks() == p.hooks(),
        r.queue_mapping() == p.queue_mapping(),
        cloned(p.topics(), r.topics()),
        cloned(p.store(), r.store()),
{
}

/// What a processor gives out is what it holds, and it reports hooks as missing exactly where the
/// list is empty.
pub proof fn a_processor_gives_out_what_it_holds<MS: Clone, QM, TC, HK>(
    p: SendMessageProcessor<MS, QM, TC, HK>,
    broker_config: BrokerConfig,
    message_store: MS,
    queue_mapping: QM,
    hooks_missing: bool,
)
    requires
        call_ensures(SendMessageProcessor::<MS, QM, TC, HK>::broker_config, (&p,), &broker_config),
        call_ensures(SendMessageProcessor::<MS, QM, TC, HK>::message_store, (&p,), &message_store),
        call_ensures(
            SendMessageProcessor::<MS, QM, TC, HK>::topic_queue_mapping_manager,
            (&p,),
            &queue_mapping,
        ),
        call_ensures(
            SendMessageProcessor::<MS, QM, TC, HK>::has_send_message_hook,
            (&p,),
            hooks_missing,
        ),
    ensures
        broker_config.broker_identity.broker_cluster_name@ == p.config().cluster_name,
        broker_config.broker_ip1@ == p.config().ip,
        broker_config.listen_port == p.config().port,
        broker_config.region_id@ == p.config().region,
        broker_config.trace_on == p.config().trace_on,
        broker_config.async_send_enable == p.config().async_send,
        broker_config.reject_transaction_message == p.config().reject_transactions,
        broker_config.start_accept_send_request_time_stamp == p.config().start_millis,
        message_store == p.store(),
        queue_mapping == p.queue_mapping(),
        hooks_missing <==> p.hooks() =~= Seq::<HK>::empty(),
{
}

/// A processor gives out its address as it is.
pub proof fn a_processor_gives_out_its_address<MS: Clone, QM, TC, HK>(
    p: SendMessageProcessor<MS, QM, TC, HK>,
    r: &str,
)
    requires
        call_ensures(SendMessageProcessor::<MS, QM, TC, HK>::store_host, (&p,), r),
    ensures
        r@ == p.host(),
{
}

/// The response before the check: empty, with the number of the request, and undecided from the
/// moment on that is set; before that moment it is a refusal that names it.
pub proof fn the_response_before_the_check<MS: Clone, QM, TC, HK>(
    p: SendMessageProcessor<MS, QM, TC, HK>,
    request: RemotingCommand,
    now: u64,
    r: RemotingCommand,
)
    requires
        call_ensures(SendMessageProcessor::<MS, QM, TC, HK>::pre_send, (&p, &request, now), r),
    ensures
        step_laws::is_blank_response(r, request.opaque),
        step_laws::is_open(p.config().start_millis, now) ==> r.code == -1 && r.remark is None,
        !step_laws::is_open(p.config().start_millis, now) ==> r.code == 1 && (
        r.remark matches Some(remark) && remark@ == "broker unable to service, until "@
            + processor::human_time(p.config().start_millis)),
{
}

/// It is too early exactly before the moment that is set.
pub proof fn too_early_is_before_the_start<MS: Clone, QM, TC, HK>(
    p: SendMessageProcessor<MS, QM, TC, HK>,
    now: u64,
    r: bool,
)
    requires
        call_ensures(SendMessageProcessor::<MS, QM, TC, HK>::is_too_early, (&p, now), r),
    ensures
        r == !step_laws::is_open(p.config().start_millis, now),
{
}

/// Once a processor accepts messages it goes on accepting them.
pub proof fn a_processor_stays_open<MS: Clone, QM, TC, HK>(
    p: SendMessageProcessor<MS, QM, TC, HK>,
    now: u64,
    later: u64,
    early_now: bool,
    early_later: bool,
)
    requires
        call_ensures(SendMessageProcessor::<MS, QM, TC, HK>::is_too_early, (&p, now), early_now),
        call_ensures(
            SendMessageProcessor::<MS, QM, TC, HK>::is_too_early,
            (&p, later),
            early_later,
        ),
        now <= later,
        !early_now,
    ensures
        !early_later,
{
}

/// A refusal before the start names the moment it is given and keeps the rest of the response.
pub proof fn an_early_refusal_names_the_moment(
    response: RemotingCommand,
    until: &str,
    r: RemotingCommand,
)
    requires
        call_ensures(processor::refuse_until, (response, until), r),
    ensures
        step_laws::refuses(r, response, 1, "broker unable to service, until "@ + until@),
{
}

/// A queue has to be drawn exactly where none is named or one below zero.
pub proof fn a_queue_is_drawn_where_none_is_named(queue_id: Option<i32>, r: bool)
    requires
        call_ensures(processor::needs_queue_draw, (queue_id,), r),
    ensures
        !r <==> (queue_id matches Some(id) && id >= 0),
{
}

/// The header with this mark of a batch.
pub open spec fn marked_batch(
    header: SendMessageRequestHeader,
    batch: bool,
) -> SendMessageRequestHeader {
    SendMessageRequestHeader { batch: Some(batch), ..header }
}

/// What is kept of a plan for the answer.
pub open spec fn keeps_for_the_answer(
    plan: processor::PutPlan,
    header: SendMessageRequestHeader,
    response: RemotingCommand,
    batch_uniq_id: Option<Seq<char>>,
) -> bool {
    &&& plan.topic@ == header.topic@
    &&& plan.queue_id == step_laws::message_in(plan.input).message_ext_inner.queue_id
    &&& step_laws::same_response(plan.response, response)
    &&& plan.response_header.msg_id@ == Seq::<char>::empty()
    &&& plan.response_header.queue_id == 0
    &&& plan.response_header.queue_offset == 0
    &&& plan.response_header.transaction_id is None
    &&& step_laws::same_as(plan.response_header.batch_uniq_id, batch_uniq_id)
}

/// A single message whose response is a refusal keeps it. One with blank keys under a compacted
/// topic is refused, and so is a transaction where those are rejected. Any other is stored as its
/// producer sent it.
pub proof fn a_single_message_is_refused_or_stored_as_sent<MS: Clone, QM, TC, HK>(
    p: SendMessageProcessor<MS, QM, TC, HK>,
    request: RemotingCommand,
    header: SendMessageRequestHeader,
    response: RemotingCommand,
    topic_config: TopicConfig,
    drawn: u32,
    born_host: String,
    r: SendOutcome,
)
    requires
        call_ensures(
            SendMessageProcessor::<MS, QM, TC, HK>::send_message,
            (&p, &request, &header, response, &topic_config, drawn, born_host),
            r,
        ),
    ensures
        ({
            let blank = topic::compacted(topic_config.attributes@) && step_laws::sent_blank_keys(
                header,
            );
            let forbidden = step_laws::sent_transaction(header)
                && p.config().reject_transactions;
            match r {
                SendOutcome::Refused(answer) => if response.code != -1 {
                    step_laws::same_response(answer, response)
                } else if blank {
                    step_laws::refuses(
                        answer,
                        response,
                        13,
                        "Required message key is missing"@,
                    )
                } else {
                    forbidden && step_laws::refuses(
                        answer,
                        response,
                        16,
                        "the broker["@ + p.config().ip
                            + "] sending transaction message is forbidden"@,
                    )
                },
                SendOutcome::Put(plan) => {
                    &&& response.code == -1 && !blank && !forbidden
                    &&& step_laws::stores_what_was_sent(
                        p.config(),
                        p.host(),
                        marked_batch(header, false),
                        request.body,
                        topic_config,
                        born_host,
                        drawn,
                        None,
                        plan.input,
                        plan.in_background,
                    )
                    &&& keeps_for_the_answer(plan, header, response, None)
                },
            }
        }),
{
    step_laws::lemma_names();
    let single = marked_batch(header, false);
    assert(step_laws::sent_properties(single) == step_laws::sent_properties(header));
    if let SendOutcome::Put(plan) = r {
        let own = step_laws::message_in(plan.input).message_ext_inner.message.properties@;
        crate::laws::tags_code_fits(
            message::property_or_empty(step_laws::sent_properties(header), "TAGS"@),
        );
        crate::laws::tags_code_fits(own["TAGS"@]);
        assert(topic::tags_code(Seq::<char>::empty()) == 0);
    }
}

/// A batch whose response is a refusal keeps it. One under a topic of more than 127 bytes, or
/// under one of messages to be retried, is refused. Any other is stored as its producer sent it.
pub proof fn a_batch_is_refused_or_stored_as_sent<MS: Clone, QM, TC, HK>(
    p: SendMessageProcessor<MS, QM, TC, HK>,
    request: RemotingCommand,
    header: SendMessageRequestHeader,
    response: RemotingCommand,
    topic_config: TopicConfig,
    drawn: u32,
    born_host: String,
    inner_num: u32,
    r: SendOutcome,
)
    requires
        call_ensures(
            SendMessageProcessor::<MS, QM, TC, HK>::send_batch_message,
            (&p, &request, &header, response, &topic_config, drawn, born_host, inner_num),
            r,
        ),
    ensures
        ({
            let len = vstd::utf8::encode_utf8(header.topic@).len();
            let retried = header.topic@.len() >= 7 && header.topic@.take(7) == "%RETRY%"@;
            match r {
                SendOutcome::Refused(answer) => if response.code != -1 {
                    step_laws::same_response(answer, response)
                } else if len > 127 {
                    step_laws::refuses(
                        answer,
                        response,
                        13,
                        "message topic length too long "@ + text::decimal(len),
                    )
                } else {
                    retried && step_laws::refuses(
                        answer,
                        response,
                        13,
                        "batch request does not support retry group  "@ + header.topic@,
                    )
                },
                SendOutcome::Put(plan) => {
                    let id = if plan.input is Message {
                        Some(step_laws::sent_properties(header)["UNIQ_KEY"@])
                    } else {
                        None
                    };
                    &&& response.code == -1 && len <= 127 && !retried
                    &&& step_laws::stores_what_was_sent(
                        p.config(),
                        p.host(),
                        marked_batch(header, true),
                        request.body,
                        topic_config,
                        born_host,
                        drawn,
                        Some(inner_num),
                        plan.input,
                        plan.in_background,
                    )
                    &&& keeps_for_the_answer(plan, header, response, id)
                },
            }
        }),
{
    step_laws::lemma_names();
    let batch = marked_batch(header, true);
    assert(step_laws::sent_properties(batch) == step_laws::sent_properties(header));
}

/// An answer says how the message was stored and where, and keeps the number, the flag, the
/// remark, the body and the other fields of the response.
pub proof fn an_answer_keeps_its_response<MS: Clone, QM, TC, HK>(
    p: SendMessageProcessor<MS, QM, TC, HK>,
    result: PutMessageResult,
    response: RemotingCommand,
    topic: &str,
    queue_id: i32,
    header: SendMessageResponseHeader,
    r: Option<RemotingCommand>,
)
    requires
        call_ensures(
            SendMessageProcessor::<MS, QM, TC, HK>::handle_put_message_result,
            (&p, result, response, topic, queue_id, header),
            r,
        ),
        step_laws::is_stored(result.put_message_status),
        result.append_message_result is Some,
    ensures
        ({
            let appended = result.append_message_result->0;
            &&& r matches Some(answer)
            &&& answer.code == step_laws::code_of_stored(result.put_message_status)
            &&& answer.opaque == response.opaque
            &&& answer.flag == response.flag
            &&& step_laws::same_text(answer.remark, response.remark)
            &&& step_laws::same_bytes(answer.body, response.body)
            &&& answer.command_custom_header matches Some(set)
            &&& set.msg_id@ == appended.msg_id@
            &&& set.queue_id == queue_id
            &&& set.queue_offset == appended.logics_offset
            &&& step_laws::same_text(set.transaction_id, header.transaction_id)
            &&& step_laws::same_text(set.batch_uniq_id, header.batch_uniq_id)
            &&& step_laws::fields_of_answer(response.ext_fields, set, answer.ext_fields)
        }),
{
    step_laws::lemma_field_names();
}

/// A reply of the store can be answered exactly where the store has the message, not under the
/// topic of delayed messages, and says where.
pub proof fn only_stored_messages_are_answered<MS: Clone, QM, TC, HK>(
    result: PutMessageResult,
    topic: &str,
    r: bool,
)
    requires
        call_ensures(
            SendMessageProcessor::<MS, QM, TC, HK>::is_answerable,
            (&result, topic),
            r,
        ),
    ensures
        r <==> step_laws::is_stored(result.put_message_status) && topic@
            != "SCHEDULE_TOPIC_XXXX"@ && result.append_message_result is Some,
{
}

/// What is stored as one message, and what cannot be stored in the background, follows from what
/// the producer sent and from the topic.
pub proof fn what_is_asked_of_a_message_follows_from_it<MS: Clone, QM, TC, HK>(
    p: SendMessageProcessor<MS, QM, TC, HK>,
    header: SendMessageRequestHeader,
    topic_config: TopicConfig,
    as_one: bool,
    background: bool,
)
    requires
        call_ensures(
            SendMessageProcessor::<MS, QM, TC, HK>::is_stored_as_one,
            (&p, &header, &topic_config),
            as_one,
        ),
        call_ensures(
            SendMessageProcessor::<MS, QM, TC, HK>::is_background_transaction,
            (&p, &header, &topic_config),
            background,
        ),
    ensures
        as_one == step_laws::goes_as_one(header, topic_config),
        background <==> {
            &&& p.config().async_send
            &&& !p.config().reject_transactions
            &&& step_laws::sent_transaction(header)
            &&& !(topic::compacted(topic_config.attributes@) && step_laws::sent_blank_keys(header))
        },
{
    step_laws::lemma_names();
}

/// Processing a request takes its session one step on, and keeps the request.
pub proof fn processing_is_a_step<MS: Clone, QM, TC, HK>(
    p: SendMessageProcessor<MS, QM, TC, HK>,
    s: Session,
    event: Event,
    r: (Session, Action),
)
    requires
        call_ensures(
            SendMessageProcessor::<MS, QM, TC, HK>::process_request,
            (&p, s, event),
            r,
        ),
    ensures
        r.0.request_code == s.request_code,
        r.0.request == s.request,
        session::step(p.config(), p.host(), s, event, r.0.stage, r.1),
{
}

/// A request whose header could be read goes to be rewritten with it; any other is not answered.
pub proof fn a_read_header_goes_to_be_rewritten(
    header: Option<SendMessageRequestHeader>,
    r: (Stage, Action),
)
    requires
        call_ensures(session::begin, (header,), r),
    ensures
        header matches Some(given) ==> r.0 is Rewriting && (r.1 matches Action::Rewrite {
            header: next,
        } && step_laws::same_header(given, next)),
        header is None ==> r.0 is Finished && r.1 == (Action::Reply { reply: None }),
{
}

/// The header that is read is what the fields say, and its queue is left out where fields with
/// full names name none.
pub proof fn a_header_is_what_the_fields_say(
    code: i32,
    ext_fields: Option<Properties>,
    r: Option<SendMessageRequestHeader>,
)
    requires
        call_ensures(command::read_request_header, (code, &ext_fields), r),
    ensures
        r is Some <==> ext_fields is Some,
        r matches Some(header) ==> {
            let fields = ext_fields->0@;
            &&& command::parsed_request_header(code, Some(fields)) matches Some(parsed)
            &&& header@ == (command::RequestHeaderView { queue_id: header.queue_id, ..parsed })
            &&& if code == 310 || code == 320 {
                header.queue_id == parsed.queue_id
            } else if fields.contains_key("queueId"@) {
                header.queue_id == text::parsed_i32(fields["queueId"@])
            } else {
                header.queue_id is None
            }
        },
{
}

/// Each change of a command changes what it is named for and nothing else.
pub proof fn a_command_changes_as_asked(
    before: RemotingCommand,
    opaque: i32,
    code: i32,
    remark: Option<String>,
    created: RemotingCommand,
    coded: RemotingCommand,
    remarked: RemotingCommand,
)
    requires
        call_ensures(RemotingCommand::create_response_command, (opaque,), created),
        call_ensures(RemotingCommand::set_code, (before, code), coded),
        call_ensures(RemotingCommand::set_remark, (before, remark), remarked),
    ensures
        created.code == 0 && created.remark is None,
        step_laws::is_blank_response(created, opaque),
        coded.code == code,
        step_laws::same_but_verdict(coded, before),
        step_laws::same_text(coded.remark, before.remark),
        remarked.code == before.code,
        step_laws::same_but_verdict(remarked, before),
        step_laws::same_text(remarked.remark, remark),
{
}

/// A field is set in a command that has a table of fields; in another nothing changes.
pub proof fn a_field_is_set_where_there_is_a_table(
    before: RemotingCommand,
    name: String,
    value: String,
    r: RemotingCommand,
)
    requires
        call_ensures(RemotingCommand::add_ext_field, (before, name, value), r),
    ensures
        r.code == before.code,
        r.opaque == before.opaque,
        r.flag == before.flag,
        step_laws::same_text(r.remark, before.remark),
        step_laws::same_bytes(r.body, before.body),
        step_laws::same_answer_header(r.command_custom_header, before.command_custom_header),
        before.ext_fields is None ==> r.ext_fields is None,
        before.ext_fields matches Some(table) ==> (r.ext_fields matches Some(fields) && {
            &&& fields@.contains_key(name@) && fields@[name@] == value@
            &&& forall|other: Seq<char>|
                other != name@ ==> (#[trigger] fields@.contains_key(other) <==> table@.contains_key(
                    other,
                )) && (fields@.contains_key(other) ==> fields@[other] == table@[other])
        }),
{
}

/// A header that is set is held by the command, and its fields join those of the command.
pub proof fn a_header_is_set_with_its_fields(
    before: RemotingCommand,
    header: SendMessageResponseHeader,
    r: RemotingCommand,
)
    requires
        call_ensures(RemotingCommand::set_command_custom_header, (before, header), r),
    ensures
        r.code == before.code,
        r.opaque == before.opaque,
        r.flag == before.flag,
        step_laws::same_text(r.remark, before.remark),
        step_laws::same_bytes(r.body, before.body),
        step_laws::same_answer_header(r.command_custom_header, Some(header)),
        step_laws::fields_of_answer(before.ext_fields, header, r.ext_fields),
{
    step_laws::lemma_field_names();
}

/// A status of the store is answered with its code. Where the store has the message nothing else
/// of the response changes; else the remark of the status is added.
pub proof fn every_status_has_its_answer(
    status: PutMessageStatus,
    response: RemotingCommand,
    r: (bool, RemotingCommand),
)
    requires
        call_ensures(store::answer_status, (status, response), r),
    ensures
        r.0 == step_laws::is_stored(status),
        r.0 ==> r.1.code == step_laws::code_of_stored(status) && step_laws::same_text(
            r.1.remark,
            response.remark,
        ) && step_laws::same_but_verdict(r.1, response),
        status == PutMessageStatus::ServiceNotAvailable ==> step_laws::refuses(
            r.1,
            response,
            14,
            "service not available now. It may be caused by one of the following reasons: the broker's disk is full %s, messages are put to the slave, message store has been shut down, etc."@,
        ),
        status == PutMessageStatus::CreateMappedFileFailed ==> step_laws::refuses(
            r.1,
            response,
            1,
            "create mapped file failed, server is busy or broken."@,
        ),
        status == PutMessageStatus::MessageIllegal || status
            == PutMessageStatus::PropertiesSizeExceeded ==> step_laws::refuses(
            r.1,
            response,
            13,
            "the message is illegal, maybe msg body or properties length not matched. msg body length limit B, msg properties length limit 32KB."@,
        ),
        status == PutMessageStatus::OsPageCacheBusy ==> step_laws::refuses(
            r.1,
            response,
            1,
            "[PC_SYNCHRONIZED]broker busy, start flow control for a while"@,
        ),
        status == PutMessageStatus::UnknownError ==> step_laws::refuses(
            r.1,
            response,
            1,
            "UNKNOWN_ERROR"@,
        ),
        status == PutMessageStatus::InSyncReplicasNotEnough ==> step_laws::refuses(
            r.1,
            response,
            1,
            "in-sync replicas not enough"@,
        ),
        status == PutMessageStatus::LmqConsumeQueueNumExceeded ==> step_laws::refuses(
            r.1,
            response,
            1,
            "[LMQ_CONSUME_QUEUE_NUM_EXCEEDED]broker config enableLmq and enableMultiDispatch, lmq consumeQueue num exceed maxLmqConsumeQueueNum config num, default limit 2w."@,
        ),
        status == PutMessageStatus::WheelTimerFlowControl ==> step_laws::refuses(
            r.1,
            response,
            1,
            "timer message is under flow control, max num limit is %d or the current value is greater than %d and less than %d, trigger random flow control"@,
        ),
        status == PutMessageStatus::WheelTimerMsgIllegal ==> step_laws::refuses(
            r.1,
            response,
            13,
            "timer message illegal, the delay time should not be bigger than the max delay %dms; or if set del msg, the delay time should be bigger than the current time"@,
        ),
        status == PutMessageStatus::WheelTimerNotEnable ==> step_laws::refuses(
            r.1,
            response,
            1,
            "accurate timer message is not enabled, timerWheelEnable is %s"@,
        ),
        status == PutMessageStatus::Other ==> step_laws::refuses(
            r.1,
            response,
            1,
            "UNKNOWN_ERROR DEFAULT"@,
        ),
{
}

/// A property is read from the table of the message: tags and id under their names, the delay
/// level as a number, which is zero where it is missing or no number.
pub proof fn properties_are_read_from_the_table(
    message: Message,
    table: Properties,
    tags: Option<String>,
    id: Option<String>,
    level: i32,
)
    requires
        call_ensures(Message::get_tags, (&message,), tags),
        call_ensures(message::get_uniq_id, (&message,), id),
        call_ensures(message::get_delay_time_level, (&table,), level),
    ensures
        tags is Some <==> message.properties@.contains_key("TAGS"@),
        tags matches Some(value) ==> value@ == message.properties@["TAGS"@],
        id is Some <==> message.properties@.contains_key("UNIQ_KEY"@),
        id matches Some(value) ==> value@ == message.properties@["UNIQ_KEY"@],
        table@.contains_key("DELAY"@) && text::parsed_i32(table@["DELAY"@]) is Some ==> Some(level)
            == text::parsed_i32(table@["DELAY"@]),
        !table@.contains_key("DELAY"@) || text::parsed_i32(table@["DELAY"@]) is None ==> level == 0,
{
}

/// Of the entries of a list, the last one of a name gives its value, and nothing else is in the
/// table that is made of it.
pub proof fn the_last_entry_of_a_name_prevails(
    entries: Vec<(String, String)>,
    r: Properties,
    at: int,
)
    requires
        call_ensures(Properties::from_entries, (entries,), r),
        0 <= at < entries@.len(),
        forall|j: int| at < j < entries@.len() ==> #[trigger] entries@[j].0@ != entries@[at].0@,
    ensures
        r@.contains_key(entries@[at].0@),
        r@[entries@[at].0@] == entries@[at].1@,
        forall|name: Seq<char>| #[trigger]
            r@.contains_key(name) ==> exists|i: int|
                0 <= i < entries@.len() && (#[trigger] entries@[i]).0@ == name,
{
    lemma_entries_map(entries@, at);
    assert forall|name: Seq<char>| #[trigger] r@.contains_key(name) implies exists|i: int|
        0 <= i < entries@.len() && (#[trigger] entries@[i]).0@ == name by {
        lemma_entries_domain(entries@, name);
    }
}

/// The last entry of a name gives its value.
proof fn lemma_entries_map(entries: Seq<(String, String)>, at: int)
    requires
        0 <= at < entries.len(),
        forall|j: int| at < j < entries.len() ==> #[trigger] entries[j].0@ != entries[at].0@,
    ensures
        properties::entries_map(entries).contains_key(entries[at].0@),
        properties::entries_map(entries)[entries[at].0@] == entries[at].1@,
    decreases entries.len(),
{
    if at < entries.len() - 1 {
        let head = entries.drop_last();
        assert forall|j: int| at < j < head.len() implies #[trigger] head[j].0@ != head[at].0@ by {
            assert(entries[j].0@ != entries[at].0@);
        }
        lemma_entries_map(head, at);
        assert(entries[entries.len() - 1].0@ != entries[at].0@);
    }
}

/// Every name of a table comes from an entry.
proof fn lemma_entries_domain(entries: Seq<(String, String)>, name: Seq<char>)
    requires
        properties::entries_map(entries).contains_key(name),
    ensures
        exists|i: int| 0 <= i < entries.len() && (#[trigger] entries[i]).0@ == name,
    decreases entries.len(),
{
    if entries.len() > 0 && entries.last().0@ != name {
        let head = entries.drop_last();
        lemma_entries_domain(head, name);
        let i = choose|i: int| 0 <= i < head.len() && (#[trigger] head[i]).0@ == name;
        assert(entries[i].0@ == name);
    } else if entries.len() > 0 {
        assert(entries[entries.len() - 1].0@ == name);
    }
}

/// A table gives out the value of a name exactly where it has one, and all its entries; a copy
/// holds the same, and a new table is empty.
pub proof fn a_table_gives_out_what_it_holds(
    table: Properties,
    name: &str,
    value: Option<&String>,
    fresh: Properties,
    copy: Properties,
    entries: &Vec<(String, String)>,
)
    requires
        call_ensures(Properties::get, (&table, name), value),
        call_ensures(Properties::new, (), fresh),
        cloned(table, copy),
        call_ensures(Properties::entries, (&table,), entries),
    ensures
        value is Some <==> table@.contains_key(name@),
        value matches Some(text) ==> text@ == table@[name@],
        forall|any: Seq<char>| !(#[trigger] fresh@.contains_key(any)),
        copy@ == table@,
        forall|i: int|
            0 <= i < entries@.len() ==> table@.contains_key((#[trigger] entries@[i]).0@)
                && table@[entries@[i].0@] == entries@[i].1@,
        forall|any: Seq<char>| #[trigger]
            table@.contains_key(any) ==> exists|i: int|
                0 <= i < entries@.len() && (#[trigger] entries@[i]).0@ == any,
{
    assert forall|i: int| 0 <= i < entries@.len() implies table@.contains_key(
        (#[trigger] entries@[i]).0@,
    ) && table@[entries@[i].0@] == entries@[i].1@ by {
        assert forall|j: int| i < j < entries@.len() implies #[trigger] entries@[j].0@
            != entries@[i].0@ by {
            assert(entries@[i].0@ != entries@[j].0@);
        }
        lemma_entries_map(entries@, i);
    }
    assert forall|any: Seq<char>| #[trigger] table@.contains_key(any) implies exists|i: int|
        0 <= i < entries@.len() && (#[trigger] entries@[i]).0@ == any by {
        lemma_entries_domain(entries@, any);
    }
}

/// A text is blank exactly where each of its characters is white space, and begins with another
/// exactly where it is that text followed by some text.
pub proof fn texts_are_told_apart_by_their_characters(
    s: &str,
    t: &str,
    blank: bool,
    begins: bool,
    same: bool,
)
    requires
        call_ensures(text::is_blank, (s,), blank),
        call_ensures(text::starts_with, (s, t), begins),
        call_ensures(text::same_text, (s, t), same),
    ensures
        blank <==> (forall|i: int| 0 <= i < s@.len() ==> text::is_white_space(#[trigger] s@[i])),
        begins <==> (exists|rest: Seq<char>| s@ == #[trigger] (t@ + rest)),
        same <==> s@ =~= t@,
{
    if begins {
        let rest = s@.skip(t@.len() as int);
        assert(s@ =~= t@ + rest);
    }
    if exists|rest: Seq<char>| s@ == #[trigger] (t@ + rest) {
        let rest = choose|rest: Seq<char>| s@ == #[trigger] (t@ + rest);
        assert(s@.take(t@.len() as int) =~= t@);
    }
}

/// `s` is `word` but for the case of its letters; the dotless i counts as one.
pub open spec fn reads(s: Seq<char>, word: Seq<char>) -> bool {
    &&& s.len() == word.len()
    &&& forall|i: int|
        0 <= i < s.len() ==> {
            ||| #[trigger] s[i] == word[i]
            ||| s[i] as int == word[i] as int + 0x20
            ||| s[i] as int == 0x131 && word[i] == 'I'
        }
}

/// A policy is known where it is left out, and where it reads as one of the two that there are.
pub proof fn two_policies_are_known(attributes: Properties, r: bool)
    requires
        call_ensures(topic::is_policy_known, (&attributes,), r),
    ensures
        !attributes@.contains_key("cleanup.policy"@) ==> r,
        attributes@.contains_key("cleanup.policy"@) ==> (r <==> reads(
            attributes@["cleanup.policy"@],
            "DELETE"@,
        ) || reads(attributes@["cleanup.policy"@], "COMPACTION"@)),
{
    reveal_strlit("DELETE");
    reveal_strlit("COMPACTION");
    let value = attributes@["cleanup.policy"@];
    lemma_reads(value, "DELETE"@);
    lemma_reads(value, "COMPACTION"@);
}

/// For a word in capital letters, reading as it is the same as spelling it.
proof fn lemma_reads(s: Seq<char>, word: Seq<char>)
    requires
        forall|i: int| 0 <= i < word.len() ==> 'A' <= #[trigger] word[i] <= 'Z',
    ensures
        reads(s, word) == topic::spells(s, word),
{
    let letters = s.map_values(|c: char| topic::capital(c));
    if topic::spells(s, word) {
        assert forall|i: int| 0 <= i < s.len() implies {
            ||| #[trigger] s[i] == word[i]
            ||| s[i] as int == word[i] as int + 0x20
            ||| s[i] as int == 0x131 && word[i] == 'I'
        } by {
            assert(letters[i] == topic::capital(s[i]));
        }
    }
    if reads(s, word) {
        assert forall|i: int| 0 <= i < s.len() implies letters[i] == word[i] by {
            assert('A' <= word[i] <= 'Z');
            assert(letters[i] == topic::capital(s[i]));
        }
        assert(letters =~= word);
    }
}

/// A processor gives out its store to be changed, and changes nothing else.
pub proof fn only_the_store_is_given_out_to_be_changed<MS: Clone, QM, TC, HK>(
    p: &mut SendMessageProcessor<MS, QM, TC, HK>,
    r: &mut MS,
)
    requires
        call_ensures(SendMessageProcessor::<MS, QM, TC, HK>::message_store_mut, (p,), r),
    ensures
        *old(r) == old(p).store(),
        final(p).store() == *final(r),
        final(p).config() == old(p).config(),
        final(p).host() == old(p).host(),
        final(p).shared_config() == old(p).shared_config(),
        final(p).hooks() == old(p).hooks(),
        final(p).topics() == old(p).topics(),
        final(p).queue_mapping() == old(p).queue_mapping(),
{
}

/// A copy of the shared part holds the same settings and hooks, and a copy of the topics.
pub proof fn a_copy_of_the_shared_part_is_like_it<TC: Clone, HK>(
    inner: processor::SendMessageProcessorInner<TC, HK>,
    r: processor::SendMessageProcessorInner<TC, HK>,
)
    requires
        cloned(inner, r),
    ensures
        r.broker_config == inner.broker_config,
        r.send_message_hook_vec == inner.send_message_hook_vec,
        cloned(inner.topic_config_manager, r.topic_config_manager),
{
}

/// A new header of an answer says nothing yet; a text is read as the properties it describes; and
/// a property of a message is the one in its table.
pub proof fn parts_of_messages_are_what_they_say(
    header: SendMessageResponseHeader,
    text: Option<String>,
    table: Properties,
    message: Message,
    name: &str,
    value: Option<String>,
)
    requires
        call_ensures(SendMessageResponseHeader::default, (), header),
        call_ensures(properties::string_to_message_properties, (&text,), table),
        call_ensures(Message::get_property, (&message, name), value),
    ensures
        header.msg_id@ == Seq::<char>::empty(),
        header.queue_id == 0 && header.queue_offset == 0,
        header.transaction_id is None && header.batch_uniq_id is None,
        text matches Some(given) ==> table@ == properties::decoded(Some(given@)),
        text is None ==> (forall|any: Seq<char>| !(#[trigger] table@.contains_key(any))),
        value is Some <==> message.properties@.contains_key(name@),
        value matches Some(found) ==> found@ == message.properties@[name@],
{
}

/// Only what the deletion of the pop check point leaves of the text of the properties is left in
/// a header; everything else stays.
pub proof fn only_the_text_of_the_properties_is_cleared<MS: Clone, QM, TC, HK>(
    header: &mut SendMessageRequestHeader,
)
    requires
        call_ensures(
            SendMessageProcessor::<MS, QM, TC, HK>::clear_reserved_properties,
            (header,),
            (),
        ),
    ensures
        step_laws::carried(*old(header), *final(header)),
{
}

/// Setting a value changes the value of its name and no other.
pub proof fn a_table_changes_at_one_name(table: &mut Properties, name: String, value: String)
    requires
        call_ensures(Properties::insert, (table, name, value), ()),
    ensures
        final(table)@.contains_key(name@),
        final(table)@[name@] == value@,
        forall|other: Seq<char>|
            other != name@ ==> (#[trigger] final(table)@.contains_key(other) <==> old(
                table,
            )@.contains_key(other)) && (final(table)@.contains_key(other) ==> final(table)@[other]
                == old(table)@[other]),
{
}

/// A dispatcher keeps the store that it was made for.
pub proof fn a_dispatcher_keeps_its_store<CQ>(
    queues: Arc<CQ>,
    r: CommitLogDispatcherBuildConsumeQueue<CQ>,
    given: &Arc<CQ>,
)
    requires
        call_ensures(CommitLogDispatcherBuildConsumeQueue::<CQ>::new, (queues,), r),
        call_ensures(
            CommitLogDispatcherBuildConsumeQueue::<CQ>::consume_queue_store,
            (&r,),
            given,
        ),
    ensures
        **given == *queues,
{
}

/// Two messages of which the store is handed the same tags have the same code of tags, whatever
/// else their requests say.
pub proof fn the_code_of_tags_follows_from_the_tags<MS: Clone, QM, TC, HK>(
    p: SendMessageProcessor<MS, QM, TC, HK>,
    request: RemotingCommand,
    header: SendMessageRequestHeader,
    response: RemotingCommand,
    topic_config: TopicConfig,
    drawn: u32,
    born_host: String,
    plan: processor::PutPlan,
    other: processor::PutPlan,
    request2: RemotingCommand,
    header2: SendMessageRequestHeader,
    response2: RemotingCommand,
    topic_config2: TopicConfig,
    drawn2: u32,
    born_host2: String,
)
    requires
        call_ensures(
            SendMessageProcessor::<MS, QM, TC, HK>::send_message,
            (&p, &request, &header, response, &topic_config, drawn, born_host),
            SendOutcome::Put(plan),
        ),
        call_ensures(
            SendMessageProcessor::<MS, QM, TC, HK>::send_message,
            (&p, &request2, &header2, response2, &topic_config2, drawn2, born_host2),
            SendOutcome::Put(other),
        ),
        ({
            let one = step_laws::message_in(plan.input).message_ext_inner.message.properties@;
            let two = step_laws::message_in(other.input).message_ext_inner.message.properties@;
            &&& one.contains_key("TAGS"@) == two.contains_key("TAGS"@)
            &&& one.contains_key("TAGS"@) ==> one["TAGS"@] == two["TAGS"@]
        }),
    ensures
        step_laws::message_in(plan.input).tags_code == step_laws::message_in(other.input).tags_code,
{
    a_single_message_is_refused_or_stored_as_sent(
        p,
        request,
        header,
        response,
        topic_config,
        drawn,
        born_host,
        SendOutcome::Put(plan),
    );
    a_single_message_is_refused_or_stored_as_sent(
        p,
        request2,
        header2,
        response2,
        topic_config2,
        drawn2,
        born_host2,
        SendOutcome::Put(other),
    );
}

/// The value of a field.
pub open spec fn value_of(fields: Map<Seq<char>, Seq<char>>, name: Seq<char>) -> Option<
    Seq<char>,
> {
    if fields.contains_key(name) {
        Some(fields[name])
    } else {
        None
    }
}

/// A text is the value of a field, and empty where that is missing.
pub open spec fn is_text_in(
    text: String,
    fields: Map<Seq<char>, Seq<char>>,
    name: Seq<char>,
) -> bool {
    text@ == (match value_of(fields, name) {
        Some(value) => value,
        None => Seq::empty(),
    })
}

/// A number is the one that a field writes, and zero where it writes none.
pub open spec fn is_number_in(
    number: i32,
    fields: Map<Seq<char>, Seq<char>>,
    name: Seq<char>,
) -> bool {
    number == (match may_hold_number(fields, name) {
        Some(value) => value,
        None => 0,
    })
}

/// The number that a field writes, where it writes one.
pub open spec fn may_hold_number(fields: Map<Seq<char>, Seq<char>>, name: Seq<char>) -> Option<
    i32,
> {
    match value_of(fields, name) {
        Some(value) => text::parsed_i32(value),
        None => None,
    }
}

/// The truth value that a field writes, where it writes one.
pub open spec fn may_hold_bool(fields: Map<Seq<char>, Seq<char>>, name: Seq<char>) -> Option<bool> {
    match value_of(fields, name) {
        Some(value) => if value == "true"@ {
            Some(true)
        } else if value == "false"@ {
            Some(false)
        } else {
            None
        },
        None => None,
    }
}

/// Each part of a header is read from the field of its own name: the full name, or one letter in
/// the later format and in batches.
pub proof fn each_part_of_a_header_has_its_own_field(
    code: i32,
    ext_fields: Option<Properties>,
    header: SendMessageRequestHeader,
)
    requires
        call_ensures(command::read_request_header, (code, &ext_fields), Some(header)),
    ensures
        ({
            let fields = ext_fields->0@;
            let short = code == 310 || code == 320;
            let name = |long: Seq<char>, letter: Seq<char>|
                if short {
                    letter
                } else {
                    long
                };
            let moment = value_of(fields, name("bornTimestamp"@, "g"@));
            &&& step_laws::same_as(header.ns, value_of(fields, "ns"@))
            &&& header.nsd == may_hold_bool(fields, "nsd"@)
            &&& step_laws::same_as(header.bname, value_of(fields, name("bname"@, "n"@)))
            &&& header.oway == may_hold_bool(fields, "oway"@)
            &&& header.lo == may_hold_bool(fields, "lo"@)
            &&& is_text_in(header.producer_group, fields, name("producerGroup"@, "a"@))
            &&& is_text_in(header.topic, fields, name("topic"@, "b"@))
            &&& is_text_in(header.default_topic, fields, name("defaultTopic"@, "c"@))
            &&& is_number_in(
                header.default_topic_queue_nums,
                fields,
                name("defaultTopicQueueNums"@, "d"@),
            )
            &&& !short ==> header.queue_id == may_hold_number(fields, "queueId"@)
            &&& short ==> (header.queue_id matches Some(id) && is_number_in(id, fields, "e"@))
            &&& is_number_in(header.sys_flag, fields, name("sysFlag"@, "f"@))
            &&& header.born_timestamp == (match moment {
                Some(value) => match text::parsed_i64(value) {
                    Some(millis) => millis,
                    None => 0,
                },
                None => 0,
            })
            &&& is_number_in(header.flag, fields, name("flag"@, "h"@))
            &&& step_laws::same_as(header.properties, value_of(fields, name("properties"@, "i"@)))
            &&& header.reconsume_times == may_hold_number(fields, name("reconsumeTimes"@, "j"@))
            &&& header.unit_mode == may_hold_bool(fields, name("unitMode"@, "k"@))
            &&& header.batch == may_hold_bool(fields, name("batch"@, "m"@))
            &&& header.max_reconsume_times == may_hold_number(
                fields,
                name("maxReconsumeTimes"@, "l"@),
            )
        }),
{
}

/// The decimal writing of a number of 32 bits reads as that number.
pub proof fn numbers_are_read_as_written(i: i32)
    ensures
        text::parsed_i32(text::signed_decimal(i as int)) == Some(i),
{
    let magnitude = if i < 0 {
        (-i) as nat
    } else {
        i as nat
    };
    let digits = text::decimal(magnitude);
    text::lemma_decimal_all_digits(magnitude);
    assert('0' <= digits[0] <= '9');
    if i < 0 {
        assert((seq!['-'] + digits).skip(1) =~= digits);
    }
}

/// The decimal writing of a natural number begins with zero only where the number is zero.
pub proof fn numbers_are_written_without_leading_zeros(n: nat)
    ensures
        text::all_digits(text::decimal(n)),
        text::digits_value(text::decimal(n)) == n,
        text::decimal(n)[0] == '0' ==> n == 0 && text::decimal(n).len() == 1,
    decreases n,
{
    text::lemma_decimal_all_digits(n);
    if n >= 10 {
        numbers_are_written_without_leading_zeros(n / 10);
        text::lemma_decimal_all_digits(n / 10);
        assert(text::decimal(n)[0] == text::decimal(n / 10)[0]);
    }
}

/// The code of tags grows by one character at a time: it is 31 times the code before, plus the
/// character, up to multiples of the 32 bits that it fits in.
pub proof fn the_code_of_tags_grows_with_them(tags: Seq<char>, c: char)
    ensures
        topic::tags_code(Seq::<char>::empty()) == 0,
        (topic::tags_code(tags.push(c)) - (31 * topic::tags_code(tags) + c as int))
            % 0x1_0000_0000 == 0,
        -0x8000_0000 <= topic::tags_code(tags.push(c)) < 0x8000_0000,
{
    assert(tags.push(c).drop_last() =~= tags);
}

} // verus!
