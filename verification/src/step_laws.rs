//! What each step of a session does, told from what the host reports and what it is asked to do.

use vstd::prelude::*;

use crate::command::{RemotingCommand, SendMessageRequestHeader, SendMessageResponseHeader};
use crate::config;
use crate::message::MessageExtBrokerInner;
use crate::processor;
use crate::properties;
use crate::properties::Properties;
use crate::session;
use crate::session::{Action, Event, Session, Stage};
use crate::store::{PutMessageResult, PutMessageStatus, StoreInput};
use crate::text;
use crate::topic;
use crate::topic::{TopicConfig, TopicFilterType};

verus! {

/// Two optional texts are both missing or hold the same characters.
pub open spec fn same_text(a: Option<String>, b: Option<String>) -> bool {
    match (a, b) {
        (Some(x), Some(y)) => x@ == y@,
        (None, None) => true,
        _ => false,
    }
}

/// Two optional tables are both missing or hold the same entries.
pub open spec fn same_table(a: Option<Properties>, b: Option<Properties>) -> bool {
    match (a, b) {
        (Some(x), Some(y)) => x@ == y@,
        (None, None) => true,
        _ => false,
    }
}

/// Two optional bodies are both missing or hold the same bytes.
pub open spec fn same_bytes(a: Option<Vec<u8>>, b: Option<Vec<u8>>) -> bool {
    match (a, b) {
        (Some(x), Some(y)) => x@ == y@,
        (None, None) => true,
        _ => false,
    }
}

/// Two response headers hold the same.
pub open spec fn same_answer_header(
    a: Option<SendMessageResponseHeader>,
    b: Option<SendMessageResponseHeader>,
) -> bool {
    match (a, b) {
        (Some(x), Some(y)) => {
            &&& x.msg_id@ == y.msg_id@
            &&& x.queue_id == y.queue_id
            &&& x.queue_offset == y.queue_offset
            &&& same_text(x.transaction_id, y.transaction_id)
            &&& same_text(x.batch_uniq_id, y.batch_uniq_id)
        },
        (None, None) => true,
        _ => false,
    }
}

/// Two request headers agree in everything but the text of their properties.
pub open spec fn same_but_properties(
    a: SendMessageRequestHeader,
    b: SendMessageRequestHeader,
) -> bool {
    &&& same_text(a.ns, b.ns)
    &&& a.nsd == b.nsd
    &&& same_text(a.bname, b.bname)
    &&& a.oway == b.oway
    &&& a.lo == b.lo
    &&& a.producer_group@ == b.producer_group@
    &&& a.topic@ == b.topic@
    &&& a.default_topic@ == b.default_topic@
    &&& a.default_topic_queue_nums == b.default_topic_queue_nums
    &&& a.queue_id == b.queue_id
    &&& a.sys_flag == b.sys_flag
    &&& a.born_timestamp == b.born_timestamp
    &&& a.flag == b.flag
    &&& a.reconsume_times == b.reconsume_times
    &&& a.unit_mode == b.unit_mode
    &&& a.batch == b.batch
    &&& a.max_reconsume_times == b.max_reconsume_times
}

/// Two request headers hold the same.
pub open spec fn same_header(a: SendMessageRequestHeader, b: SendMessageRequestHeader) -> bool {
    same_but_properties(a, b) && same_text(a.properties, b.properties)
}

/// Two responses agree in everything but their code and remark.
pub open spec fn same_but_verdict(a: RemotingCommand, b: RemotingCommand) -> bool {
    &&& a.opaque == b.opaque
    &&& a.flag == b.flag
    &&& same_table(a.ext_fields, b.ext_fields)
    &&& same_bytes(a.body, b.body)
    &&& same_answer_header(a.command_custom_header, b.command_custom_header)
}

/// Two responses hold the same.
pub open spec fn same_response(a: RemotingCommand, b: RemotingCommand) -> bool {
    same_but_verdict(a, b) && a.code == b.code && same_text(a.remark, b.remark)
}

/// A response has this code and this remark, and everything else from `before`.
pub open spec fn refuses(
    a: RemotingCommand,
    before: RemotingCommand,
    code: i32,
    remark: Seq<char>,
) -> bool {
    &&& same_but_verdict(a, before)
    &&& a.code == code
    &&& a.remark matches Some(text)
    &&& text@ == remark
}

/// The session ends with an answer.
pub open spec fn answers(stage: Stage, action: Action) -> bool {
    stage is Finished && action matches Action::Reply { reply: Some(_) }
}

/// The answer that a session ends with.
pub open spec fn answer_of(action: Action) -> RemotingCommand {
    action->Reply_reply->0
}

/// A request that gives a message back is taken back; one without fields is left unanswered; the
/// header of any other is read from its fields and goes to be rewritten. Its queue is left out
/// where fields with full names name none.
pub proof fn a_request_is_read_from_its_fields(
    config: config::ConfigView,
    host: Seq<char>,
    s: Session,
    event: Event,
    stage: Stage,
    action: Action,
)
    requires
        s.stage is Received,
        session::step(config, host, s, event, stage, action),
    ensures
        s.request_code == 36 <==> action is TakeBack,
        s.request_code == 36 ==> stage is Finished,
        s.request_code != 36 && s.request.ext_fields is None ==> stage is Finished && action
            == (Action::Reply { reply: None }),
        s.request_code != 36 && s.request.ext_fields is Some ==> {
            let fields = s.request.ext_fields->0@;
            let short = s.request_code == 310 || s.request_code == 320;
            let read = crate::command::parsed_request_header(s.request_code, Some(fields));
            &&& stage is Rewriting
            &&& action matches Action::Rewrite { header }
            &&& read matches Some(parsed)
            &&& header@ == (crate::command::RequestHeaderView {
                queue_id: header.queue_id,
                ..parsed
            })
            &&& header.topic@ == parsed.topic
            &&& header.born_timestamp == parsed.born_timestamp
            &&& header.sys_flag == parsed.sys_flag
            &&& header.flag == parsed.flag
            &&& header.batch == parsed.batch
            &&& header.reconsume_times == parsed.reconsume_times
            &&& same_as(header.properties, parsed.properties)
            &&& if short {
                header.queue_id == parsed.queue_id
            } else if fields.contains_key("queueId"@) {
                header.queue_id == text::parsed_i32(fields["queueId"@])
            } else {
                header.queue_id is None
            }
        },
{
}

/// An optional text holds these characters, or both are missing.
pub open spec fn same_as(a: Option<String>, b: Option<Seq<char>>) -> bool {
    match (a, b) {
        (Some(x), Some(y)) => x@ == y,
        (None, None) => true,
        _ => false,
    }
}

/// An answer of the rewriting is handed on as it is; without one the rewritten header goes to the
/// hooks as it is.
pub proof fn rewriting_is_handed_on(
    config: config::ConfigView,
    host: Seq<char>,
    s: Session,
    header: SendMessageRequestHeader,
    reply: Option<RemotingCommand>,
    stage: Stage,
    action: Action,
)
    requires
        s.stage is Rewriting,
        session::step(config, host, s, Event::Rewritten { header, reply }, stage, action),
    ensures
        reply matches Some(given) ==> answers(stage, action) && same_response(
            answer_of(action),
            given,
        ),
        reply is None ==> (stage is Hooking && (action matches Action::RunHooks { header: hooked }
            && same_header(hooked, header))),
{
}

/// Behind the hooks only the text of the properties changes, and the clock is read.
pub proof fn hooks_are_followed_by_the_clock(
    config: config::ConfigView,
    host: Seq<char>,
    s: Session,
    header: SendMessageRequestHeader,
    stage: Stage,
    action: Action,
)
    requires
        s.stage is Hooking,
        session::step(config, host, s, Event::HooksRun { header }, stage, action),
    ensures
        action is ReadClock,
        stage matches Stage::Timing { header: next } && carried(header, next),
{
}

/// What is kept of a header that the hooks reported: everything, but of the text of the
/// properties only what the deletion of the pop check point leaves.
pub open spec fn carried(
    reported: SendMessageRequestHeader,
    kept: SendMessageRequestHeader,
) -> bool {
    &&& same_but_properties(reported, kept)
    &&& match reported.properties {
        Some(text) => kept.properties matches Some(rest) && rest@ == properties::deleted(
            text@,
            "POP_CK"@,
        ),
        None => kept.properties is None,
    }
}

/// The moment from which on messages are accepted is reached. A moment below zero counts as the
/// unsigned number with the same bits.
pub open spec fn is_open(start: i64, now: u64) -> bool {
    if start >= 0 {
        now >= start
    } else {
        now >= start + 0x1_0000_0000_0000_0000
    }
}

/// Before the broker accepts messages a request is refused with the moment from which on it
/// does, or given up where that moment has no date. From then on the message goes to be checked,
/// its header as it is, with an empty response that has the number of the request.
pub proof fn the_clock_opens_the_broker(
    config: config::ConfigView,
    host: Seq<char>,
    s: Session,
    header: SendMessageRequestHeader,
    now: u64,
    stage: Stage,
    action: Action,
)
    requires
        s.stage == (Stage::Timing { header }),
        session::step(config, host, s, Event::Clock { now }, stage, action),
    ensures
        is_open(config.start_millis, now) ==> {
            &&& stage matches Stage::Checking { header: next }
            &&& same_header(header, next)
            &&& action matches Action::Check { response }
            &&& response.code == -1
            &&& response.remark is None
            &&& is_blank_response(response, s.request.opaque)
        },
        !is_open(config.start_millis, now) && -8334601228800000 <= config.start_millis
            <= 8210266876799999 ==> {
            &&& answers(stage, action)
            &&& answer_of(action).code == 1
            &&& answer_of(action).remark matches Some(remark)
            &&& remark@ == "broker unable to service, until "@ + processor::human_time(
                config.start_millis,
            )
            &&& is_blank_response(answer_of(action), s.request.opaque)
        },
        !is_open(config.start_millis, now) && !(-8334601228800000 <= config.start_millis
            <= 8210266876799999) ==> stage is Finished && action is Abort,
{
}

/// A response to the request with this number that holds no fields, no body and no header.
pub open spec fn is_blank_response(response: RemotingCommand, opaque: i32) -> bool {
    &&& response.opaque == opaque
    &&& response.flag == 1
    &&& response.ext_fields is None
    &&& response.body is None
    &&& response.command_custom_header is None
}

/// A refusal of the check is the answer. Else the topic is looked up, and header and response are
/// kept as they are.
pub proof fn the_check_decides(
    config: config::ConfigView,
    host: Seq<char>,
    s: Session,
    header: SendMessageRequestHeader,
    response: RemotingCommand,
    stage: Stage,
    action: Action,
)
    requires
        s.stage == (Stage::Checking { header }),
        session::step(config, host, s, Event::Checked { response }, stage, action),
    ensures
        response.code != -1 ==> answers(stage, action) && same_response(
            answer_of(action),
            response,
        ),
        response.code == -1 ==> {
            &&& stage matches Stage::Selecting { header: next, response: kept }
            &&& same_header(header, next)
            &&& same_response(response, kept)
            &&& action is SelectTopic
        },
{
}

/// A queue is drawn exactly where the header names none or one below zero, among as many as the
/// topic has for writing; header, response, topic and producer are kept as they are.
pub proof fn a_queue_is_drawn_among_those_of_the_topic(
    config: config::ConfigView,
    host: Seq<char>,
    s: Session,
    header: SendMessageRequestHeader,
    response: RemotingCommand,
    topic_config: TopicConfig,
    born_host: String,
    stage: Stage,
    action: Action,
)
    requires
        s.stage == (Stage::Selecting { header, response }),
        session::step(
            config,
            host,
            s,
            Event::TopicSelected { topic_config, born_host },
            stage,
            action,
        ),
    ensures
        action is DrawQueue <==> (header.queue_id matches Some(id) ==> id < 0),
        action matches Action::DrawQueue { write_queue_nums } ==> {
            &&& write_queue_nums == topic_config.write_queue_nums
            &&& stage == Stage::Drawing { header, response, topic_config, born_host }
        },
{
}

/// A session decides on this header, with this response, topic and producer, after `drawn` was
/// drawn where a queue had to be drawn and `counted` was counted where that was asked for.
pub open spec fn decides(
    stage: Stage,
    event: Event,
    header: SendMessageRequestHeader,
    response: RemotingCommand,
    topic_config: TopicConfig,
    born_host: String,
    drawn: u32,
    counted: Option<u32>,
) -> bool {
    match (stage, event) {
        (
            Stage::Selecting { header: h, response: r },
            Event::TopicSelected { topic_config: t, born_host: b },
        ) => {
            &&& h == header && r == response && t == topic_config && b == born_host
            &&& header.queue_id matches Some(id) && id >= 0
            &&& drawn == 0
            &&& counted is None
        },
        (
            Stage::Drawing { header: h, response: r, topic_config: t, born_host: b },
            Event::QueueDrawn { queue_id },
        ) => {
            &&& h == header && r == response && t == topic_config && b == born_host
            &&& drawn == queue_id
            &&& counted is None
        },
        (
            Stage::Counting {
                header: h,
                response: r,
                topic_config: t,
                drawn_queue,
                born_host: b,
            },
            Event::InnerCounted { inner_num },
        ) => {
            &&& h == header && r == response && t == topic_config && b == born_host
            &&& drawn == drawn_queue
            &&& counted == Some(inner_num)
        },
        _ => false,
    }
}

/// The properties that the text of a header describes.
pub open spec fn sent_properties(header: SendMessageRequestHeader) -> Map<Seq<char>, Seq<char>> {
    properties::decoded(
        match header.properties {
            Some(text) => Some(text@),
            None => None,
        },
    )
}

/// The producer sent keys, and every character of them is white space.
pub open spec fn sent_blank_keys(header: SendMessageRequestHeader) -> bool {
    let sent = sent_properties(header);
    sent.contains_key("KEYS"@) && forall|i: int|
        0 <= i < sent["KEYS"@].len() ==> text::is_white_space(#[trigger] sent["KEYS"@][i])
}

/// The producer marked the message as a transaction, and it is not both consumed before and
/// delayed.
pub open spec fn sent_transaction(header: SendMessageRequestHeader) -> bool {
    let sent = sent_properties(header);
    let consumed = header.reconsume_times matches Some(times) && times > 0;
    let delayed = sent.contains_key("DELAY"@) && (text::parsed_i32(sent["DELAY"@]) matches Some(
        level,
    ) && level > 0);
    sent.contains_key("TRAN_MSG"@) && sent["TRAN_MSG"@] == "true"@ && !(consumed && delayed)
}

/// The batch goes to the store as one message: its topic is consumed batch by batch, and the
/// producer gave it an id.
pub open spec fn goes_as_one(header: SendMessageRequestHeader, topic_config: TopicConfig) -> bool {
    topic::consumed_in_batches(topic_config.attributes@) && sent_properties(header).contains_key(
        "UNIQ_KEY"@,
    )
}

/// The names that decisions turn on are apart from the name that the broker sets.
pub proof fn lemma_names()
    ensures
        "CLUSTER"@ != "DELAY"@,
        "CLUSTER"@ != "UNIQ_KEY"@,
        "CLUSTER"@ != "TAGS"@,
        "CLUSTER"@ != "INNER_NUM"@,
        "UNIQ_KEY"@ != "INNER_NUM"@,
        "%RETRY%"@.len() == 7,
{
    reveal_strlit("CLUSTER");
    reveal_strlit("DELAY");
    reveal_strlit("UNIQ_KEY");
    reveal_strlit("TAGS");
    reveal_strlit("INNER_NUM");
    reveal_strlit("%RETRY%");
    assert("CLUSTER"@[0] == 'C' && "DELAY"@[0] == 'D' && "UNIQ_KEY"@[0] == 'U');
    assert("TAGS"@[0] == 'T' && "INNER_NUM"@[0] == 'I');
}

/// What becomes of a decided request. A refusal stays. A batch is refused for a topic of more
/// than 127 bytes and for one of messages to be retried, and has its messages counted before it
/// goes to the store as one message. A single message is refused for blank keys under a compacted
/// topic and for a transaction where those are rejected; it is given up where the policy of the
/// topic is not known, and for a transaction in the background. Everything else is stored.
pub proof fn a_decision_refuses_counts_gives_up_or_stores(
    config: config::ConfigView,
    host: Seq<char>,
    s: Session,
    event: Event,
    stage: Stage,
    action: Action,
    header: SendMessageRequestHeader,
    response: RemotingCommand,
    topic_config: TopicConfig,
    born_host: String,
    drawn: u32,
    counted: Option<u32>,
)
    requires
        session::step(config, host, s, event, stage, action),
        decides(
            s.stage,
            event,
            header,
            response,
            topic_config,
            born_host,
            drawn,
            counted,
        ),
    ensures
        ({
            let len = vstd::utf8::encode_utf8(header.topic@).len();
            let attributes = topic_config.attributes@;
            let answer = answer_of(action);
            if response.code != -1 {
                answers(stage, action) && same_response(answer, response)
            } else if header.batch == Some(true) {
                if len > 127 {
                    answers(stage, action) && refuses(
                        answer,
                        response,
                        13,
                        "message topic length too long "@ + text::decimal(len),
                    )
                } else if header.topic@.len() >= 7 && header.topic@.take(7) == "%RETRY%"@ {
                    answers(stage, action) && refuses(
                        answer,
                        response,
                        13,
                        "batch request does not support retry group  "@ + header.topic@,
                    )
                } else if goes_as_one(header, topic_config) && counted is None {
                    &&& action matches Action::CountInner { body }
                    &&& same_bytes(body, s.request.body)
                    &&& stage matches Stage::Counting {
                        header: h,
                        response: r,
                        topic_config: t,
                        drawn_queue,
                        born_host: b,
                    }
                    &&& same_header(h, header)
                    &&& same_response(r, response)
                    &&& t == topic_config
                    &&& drawn_queue == drawn
                    &&& b@ == born_host@
                } else {
                    action is Put
                }
            } else if !topic::policy_known(attributes) {
                stage is Finished && action is Abort
            } else if topic::compacted(attributes) && sent_blank_keys(header) {
                answers(stage, action) && refuses(
                    answer,
                    response,
                    13,
                    "Required message key is missing"@,
                )
            } else if sent_transaction(header) && config.reject_transactions {
                answers(stage, action) && refuses(
                    answer,
                    response,
                    16,
                    "the broker["@ + config.ip + "] sending transaction message is forbidden"@,
                )
            } else if sent_transaction(header) && config.async_send {
                stage is Finished && action is Abort
            } else {
                action is Put
            }
        }),
{
    lemma_names();
    let sent = sent_properties(header);
    let stored = sent.insert("CLUSTER"@, config.cluster_name);
    assert(stored.contains_key("DELAY"@) == sent.contains_key("DELAY"@));
}

/// The message inside what goes to the store.
pub open spec fn message_in(input: StoreInput) -> MessageExtBrokerInner {
    match input {
        StoreInput::Message(message) => message,
        StoreInput::Batch(batch) => batch.message_ext_broker_inner,
    }
}

/// A queue that was drawn, in the 32 bits with a sign that the store takes.
pub open spec fn as_queue(drawn: u32) -> int {
    if drawn < 0x8000_0000 {
        drawn as int
    } else {
        drawn - 0x1_0000_0000
    }
}

/// What goes to the store where the producer, whose address is `born_host`, sent this header
/// with this body: the queue is the one that the header names, or the drawn one where it names
/// none or one below zero; the message is that of the producer, with the cluster and the address
/// of the broker; its tags have their code, and the text of its properties is that of the
/// properties it has.
pub open spec fn stores_what_was_sent(
    config: config::ConfigView,
    host: Seq<char>,
    header: SendMessageRequestHeader,
    body: Option<Vec<u8>>,
    topic_config: TopicConfig,
    born_host: String,
    drawn: u32,
    counted: Option<u32>,
    input: StoreInput,
    in_background: bool,
) -> bool {
    let message = message_in(input);
    let ext = message.message_ext_inner;
    let own = ext.message.properties@;
    let batch = header.batch == Some(true);
    let with_cluster = sent_properties(header).insert("CLUSTER"@, config.cluster_name);
    let given_flags = if topic_config.topic_filter_type == TopicFilterType::MultiTag {
        header.sys_flag | 0x2
    } else {
        header.sys_flag
    };
    &&& in_background == config.async_send
    &&& match header.queue_id {
        Some(id) => if id >= 0 {
            ext.queue_id == id
        } else {
            ext.queue_id == as_queue(drawn)
        },
        None => ext.queue_id == as_queue(drawn),
    }
    &&& ext.message.topic@ == header.topic@
    &&& ext.message.flag == header.flag
    &&& same_bytes(ext.message.body, body)
    &&& ext.born_timestamp == header.born_timestamp
    &&& ext.born_host@ == born_host@
    &&& ext.store_host@ == host
    &&& header.reconsume_times matches Some(times) ==> ext.reconsume_times == times
    &&& header.reconsume_times is None ==> ext.reconsume_times == 0
    &&& input is Batch <==> batch && !goes_as_one(header, topic_config)
    &&& input matches StoreInput::Batch(given) ==> !given.is_inner_batch
    &&& if !batch {
        &&& own == with_cluster
        &&& ext.sys_flag == 0
        &&& properties::is_text_of(message.properties_string@, own)
        &&& own.contains_key("TAGS"@) ==> message.tags_code == topic::tags_code(own["TAGS"@])
        &&& !own.contains_key("TAGS"@) ==> message.tags_code == 0
    } else if input is Batch {
        &&& own == with_cluster
        &&& ext.sys_flag == given_flags
        &&& message.properties_string@ == Seq::<char>::empty()
        &&& message.tags_code == 0
    } else {
        &&& counted matches Some(inner_num)
        &&& own == with_cluster.insert("INNER_NUM"@, text::decimal(inner_num as nat))
        &&& ext.sys_flag == given_flags | 0x40 | 0x80
        &&& properties::is_text_of(message.properties_string@, own)
        &&& message.tags_code == 0
    }
}

/// Every step that hands the store a message or a batch hands it what the producer sent, keeps
/// the response as it is, and keeps for the answer the topic, the queue of the message and, of a
/// batch that goes as one message, its id.
pub proof fn a_step_stores_what_was_sent(
    config: config::ConfigView,
    host: Seq<char>,
    s: Session,
    event: Event,
    stage: Stage,
    input: StoreInput,
    in_background: bool,
    header: SendMessageRequestHeader,
    response: RemotingCommand,
    topic_config: TopicConfig,
    born_host: String,
    drawn: u32,
    counted: Option<u32>,
)
    requires
        session::step(config, host, s, event, stage, Action::Put { input, in_background }),
        decides(
            s.stage,
            event,
            header,
            response,
            topic_config,
            born_host,
            drawn,
            counted,
        ),
    ensures
        stores_what_was_sent(
            config,
            host,
            header,
            s.request.body,
            topic_config,
            born_host,
            drawn,
            counted,
            input,
            in_background,
        ),
        ({
            let ext = message_in(input).message_ext_inner;
            let own = ext.message.properties@;
            &&& stage matches Stage::Storing {
                topic,
                queue_id,
                response: kept,
                response_header,
            }
            &&& topic@ == header.topic@
            &&& queue_id == ext.queue_id
            &&& same_response(kept, response)
            &&& response_header.msg_id@ == Seq::<char>::empty()
            &&& response_header.transaction_id is None
            &&& if header.batch == Some(true) && input is Message {
                &&& own.contains_key("UNIQ_KEY"@)
                &&& response_header.batch_uniq_id matches Some(id)
                &&& id@ == own["UNIQ_KEY"@]
            } else {
                response_header.batch_uniq_id is None
            }
        }),
{
    lemma_names();
    let own = message_in(input).message_ext_inner.message.properties@;
    crate::laws::tags_code_fits(
        crate::message::property_or_empty(sent_properties(header), "TAGS"@),
    );
    crate::laws::tags_code_fits(own["TAGS"@]);
    if header.batch != Some(true) {
        assert(topic::tags_code(Seq::<char>::empty()) == 0);
    }
}

/// The store has the message.
pub open spec fn is_stored(status: PutMessageStatus) -> bool {
    match status {
        PutMessageStatus::PutOk => true,
        PutMessageStatus::FlushDiskTimeout => true,
        PutMessageStatus::FlushSlaveTimeout => true,
        PutMessageStatus::SlaveNotAvailable => true,
        _ => false,
    }
}

/// The code that a stored message is answered with.
pub open spec fn code_of_stored(status: PutMessageStatus) -> i32 {
    match status {
        PutMessageStatus::PutOk => 0,
        PutMessageStatus::FlushDiskTimeout => 10,
        PutMessageStatus::SlaveNotAvailable => 11,
        _ => 12,
    }
}

/// The fields of an answer: the message, its queue and its place there, the ids of a transaction
/// and of a batch where they are set, and any other field that the response had before.
pub open spec fn fields_of_answer(
    before: Option<Properties>,
    header: SendMessageResponseHeader,
    after: Option<Properties>,
) -> bool {
    &&& after matches Some(fields)
    &&& fields@.contains_key("msgId"@) && fields@["msgId"@] == header.msg_id@
    &&& fields@.contains_key("queueId"@) && fields@["queueId"@] == text::signed_decimal(
        header.queue_id as int,
    )
    &&& fields@.contains_key("queueOffset"@) && fields@["queueOffset"@] == text::signed_decimal(
        header.queue_offset as int,
    )
    &&& header.transaction_id matches Some(id) ==> fields@.contains_key("transactionId"@)
        && fields@["transactionId"@] == id@
    &&& header.batch_uniq_id matches Some(id) ==> fields@.contains_key("batchUniqId"@)
        && fields@["batchUniqId"@] == id@
    &&& forall|name: Seq<char>|
        name != "msgId"@ && name != "queueId"@ && name != "queueOffset"@ && !(name
            == "transactionId"@ && header.transaction_id is Some) && !(name == "batchUniqId"@
            && header.batch_uniq_id is Some) ==> (#[trigger] fields@.contains_key(name) <==> (
        before matches Some(table) && table@.contains_key(name) && table@[name] == fields@[name]))
}

/// The names of the fields of an answer are apart.
pub proof fn lemma_field_names()
    ensures
        "msgId"@ != "queueId"@,
        "msgId"@ != "queueOffset"@,
        "msgId"@ != "transactionId"@,
        "msgId"@ != "batchUniqId"@,
        "queueId"@ != "queueOffset"@,
        "queueId"@ != "transactionId"@,
        "queueId"@ != "batchUniqId"@,
        "queueOffset"@ != "transactionId"@,
        "queueOffset"@ != "batchUniqId"@,
        "transactionId"@ != "batchUniqId"@,
{
    reveal_strlit("msgId");
    reveal_strlit("queueId");
    reveal_strlit("queueOffset");
    reveal_strlit("transactionId");
    reveal_strlit("batchUniqId");
    assert("msgId"@.len() == 5 && "queueId"@.len() == 7 && "queueOffset"@.len() == 11);
    assert("transactionId"@.len() == 13 && "batchUniqId"@.len() == 11);
    assert("batchUniqId"@[0] == 'b' && "queueOffset"@[0] == 'q');
}

/// Once the store has the message, under a topic other than that of delayed messages, the answer
/// says how it was stored and where. It keeps the number, the flag, the remark and the body of
/// the response. Any other reply of the store is given up.
pub proof fn a_reply_of_the_store_is_answered(
    config: config::ConfigView,
    host: Seq<char>,
    s: Session,
    topic: String,
    queue_id: i32,
    response: RemotingCommand,
    response_header: SendMessageResponseHeader,
    result: PutMessageResult,
    stage: Stage,
    action: Action,
)
    requires
        s.stage == (Stage::Storing { topic, queue_id, response, response_header }),
        session::step(config, host, s, Event::Stored { result }, stage, action),
    ensures
        if is_stored(result.put_message_status) && topic@ != "SCHEDULE_TOPIC_XXXX"@
            && result.append_message_result is Some {
            let appended = result.append_message_result->0;
            let answer = answer_of(action);
            &&& answers(stage, action)
            &&& answer.code == code_of_stored(result.put_message_status)
            &&& answer.opaque == response.opaque
            &&& answer.flag == response.flag
            &&& same_text(answer.remark, response.remark)
            &&& same_bytes(answer.body, response.body)
            &&& answer.command_custom_header matches Some(header)
            &&& header.msg_id@ == appended.msg_id@
            &&& header.queue_id == queue_id
            &&& header.queue_offset == appended.logics_offset
            &&& same_text(header.transaction_id, response_header.transaction_id)
            &&& same_text(header.batch_uniq_id, response_header.batch_uniq_id)
            &&& fields_of_answer(response.ext_fields, header, answer.ext_fields)
        } else {
            stage is Finished && action is Abort
        },
{
    lemma_field_names();
}

} // verus!
