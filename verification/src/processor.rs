//! The processor of send requests.

use std::sync::Arc;

use vstd::prelude::*;
use vstd::slice::slice_to_vec;
use vstd::string::*;

use crate::command::{
    RemotingCommand, SendMessageRequestHeader, SendMessageResponseHeader, MESSAGE_ILLEGAL,
    NO_PERMISSION, SYSTEM_ERROR, UNDECIDED,
};
use crate::config::BrokerConfig;
use crate::message::{
    get_delay_time_level, get_uniq_id, Message, MessageExt, MessageExtBatch,
    MessageExtBrokerInner, INNER_BATCH_FLAG, MULTI_TAGS_FLAG, NEED_UNWRAP_FLAG, PROPERTY_CLUSTER,
    PROPERTY_INNER_NUM, PROPERTY_KEYS, PROPERTY_MSG_REGION, PROPERTY_POP_CK,
    PROPERTY_TRACE_SWITCH, PROPERTY_TRANSACTION_PREPARED,
};
use crate::properties::{
    delete_property, message_properties_to_string, string_to_message_properties, Properties,
};
use crate::store::{answer_status, PutMessageResult, StoreInput};
use crate::text::{is_blank, same_text, starts_with, u64_to_string};
use crate::topic::{
    get_delete_policy, is_batch_cq, tags_string2tags_code, CleanupPolicy, TopicConfig,
    TopicFilterType, RETRY_GROUP_TOPIC_PREFIX, RMQ_SYS_SCHEDULE_TOPIC,
};

verus! {

pub const UNABLE_TO_SERVICE: &'static str = "broker unable to service, until ";

pub const KEY_MISSING: &'static str = "Required message key is missing";

pub const TOPIC_TOO_LONG: &'static str = "message topic length too long ";

pub const NO_RETRY_BATCH: &'static str = "batch request does not support retry group  ";

/// The longest topic of a batch, in bytes.
pub const MAX_BATCH_TOPIC_LEN: usize = 127;

/// The earliest and the latest time, in milliseconds since 1970, that can be written as a date.
pub const MIN_DATE_MILLIS: i64 = -8334601228800000;

pub const MAX_DATE_MILLIS: i64 = 8210266876799999;

/// The date and time of a moment, in words.
pub uninterp spec fn human_time(millis: i64) -> Seq<char>;

/// A moment that can be written as a date.
pub open spec fn has_date(millis: i64) -> bool {
    MIN_DATE_MILLIS <= millis <= MAX_DATE_MILLIS
}

/// `rocketmq_common::utils::util_all::time_millis_to_human_string2`: the date and time of the
/// moment in UTC, which depends on the moment alone. It panics on a moment outside the range of
/// dates.
#[verifier::external_body]
fn time_millis_to_human_string2(millis: i64) -> (r: String)
    requires
        has_date(millis),
    ensures
        r@ == human_time(millis),
{
    rocketmq_common::utils::util_all::time_millis_to_human_string2(millis)
}

/// The text of `a` followed by that of `b`.
fn concat(a: &str, b: &str) -> (r: String)
    ensures
        r@ == a@ + b@,
{
    let mut text = a.to_owned();
    text.append(b);
    text
}

/// A copy of a body.
pub(crate) fn copy_body(body: &Option<Vec<u8>>) -> (r: Option<Vec<u8>>)
    ensures
        crate::message::opt_bytes(r) == crate::message::opt_bytes(*body),
{
    match body {
        Some(bytes) => Some(slice_to_vec(bytes.as_slice())),
        None => None,
    }
}

/// The parts of the processor that are shared with other processors of the broker.
pub struct SendMessageProcessorInner<TC, HK> {
    pub broker_config: Arc<BrokerConfig>,
    pub topic_config_manager: TC,
    pub send_message_hook_vec: Arc<Vec<HK>>,
}

impl<TC: Clone, HK> Clone for SendMessageProcessorInner<TC, HK> {
    fn clone(&self) -> (r: Self)
        ensures
            r.broker_config == self.broker_config,
            cloned(self.topic_config_manager, r.topic_config_manager),
            r.send_message_hook_vec == self.send_message_hook_vec,
    {
        SendMessageProcessorInner {
            broker_config: self.broker_config.clone(),
            topic_config_manager: self.topic_config_manager.clone(),
            send_message_hook_vec: self.send_message_hook_vec.clone(),
        }
    }
}

/// The processor of send requests: a message store `MS`, the manager `QM` that maps the queues of
/// static topics, the manager `TC` of the topics, and the hooks `HK` around sending.
pub struct SendMessageProcessor<MS, QM, TC, HK> where MS: Clone {
    pub inner: SendMessageProcessorInner<TC, HK>,
    topic_queue_mapping_manager: Arc<QM>,
    broker_config: Arc<BrokerConfig>,
    message_store: MS,
    store_host: String,
}

impl<MS: Clone, QM, TC: Clone, HK> Clone for SendMessageProcessor<MS, QM, TC, HK> {
    fn clone(&self) -> (r: Self)
        ensures
            r.config() == self.config(),
            r.shared_config() == self.shared_config(),
            r.host() == self.host(),
            r.hooks() == self.hooks(),
            r.queue_mapping() == self.queue_mapping(),
            cloned(self.topics(), r.topics()),
            cloned(self.store(), r.store()),
    {
        SendMessageProcessor {
            inner: self.inner.clone(),
            topic_queue_mapping_manager: self.topic_queue_mapping_manager.clone(),
            broker_config: self.broker_config.clone(),
            message_store: self.message_store.clone(),
            store_host: self.store_host.clone(),
        }
    }
}

impl<MS: Clone, QM, TC, HK> SendMessageProcessor<MS, QM, TC, HK> {
    /// The settings of the broker.
    pub closed spec fn config(&self) -> crate::config::ConfigView {
        self.broker_config@
    }

    /// The address of the broker, in text.
    pub closed spec fn host(&self) -> Seq<char> {
        self.store_host@
    }

    /// The part that is shared with other processors of the broker.
    pub closed spec fn shared(&self) -> SendMessageProcessorInner<TC, HK> {
        self.inner
    }

    /// The settings of the broker in the shared part.
    pub open spec fn shared_config(&self) -> Arc<BrokerConfig> {
        self.shared().broker_config
    }

    /// The hooks around sending.
    pub open spec fn hooks(&self) -> Seq<HK> {
        self.shared().send_message_hook_vec@
    }

    /// The manager that maps the queues of static topics.
    pub closed spec fn queue_mapping(&self) -> QM {
        *self.topic_queue_mapping_manager
    }

    /// The manager of the topics.
    pub open spec fn topics(&self) -> TC {
        self.shared().topic_config_manager
    }

    /// The message store.
    pub closed spec fn store(&self) -> MS {
        self.message_store
    }

    /// A processor without hooks, whose address is that of the settings, which has to be a socket
    /// address.
    pub fn new(
        topic_queue_mapping_manager: Arc<QM>,
        topic_config_manager: TC,
        broker_config: Arc<BrokerConfig>,
        message_store: &MS,
    ) -> (r: Self)
        requires
            crate::address::is_socket_address(broker_config@.address()),
        ensures
            r.config() == broker_config@,
            r.shared_config() == broker_config,
            r.host() == broker_config@.address(),
            r.hooks() == Seq::<HK>::empty(),
            r.queue_mapping() == *topic_queue_mapping_manager,
            r.topics() == topic_config_manager,
            cloned(*message_store, r.store()),
    {
        let mut store_host = concat(broker_config.broker_ip1.as_str(), ":");
        store_host.append(u64_to_string(broker_config.listen_port as u64).as_str());
        SendMessageProcessor {
            inner: SendMessageProcessorInner {
                broker_config: broker_config.clone(),
                topic_config_manager,
                send_message_hook_vec: Arc::new(Vec::new()),
            },
            topic_queue_mapping_manager,
            broker_config,
            message_store: message_store.clone(),
            store_host,
        }
    }

    /// The settings of the broker.
    pub fn broker_config(&self) -> (r: &BrokerConfig)
        ensures
            r@ == self.config(),
    {
        &self.broker_config
    }

    /// The message store.
    pub fn message_store(&self) -> (r: &MS)
        ensures
            *r == self.store(),
    {
        &self.message_store
    }

    /// The message store, to store messages in.
    pub fn message_store_mut(&mut self) -> (r: &mut MS)
        ensures
            *r == old(self).store(),
            final(self).store() == *final(r),
            final(self).config() == old(self).config(),
            final(self).shared() == old(self).shared(),
            final(self).host() == old(self).host(),
            final(self).queue_mapping() == old(self).queue_mapping(),
    {
        &mut self.message_store
    }

    /// The manager that maps the queues of static topics.
    pub fn topic_queue_mapping_manager(&self) -> (r: &QM)
        ensures
            *r == self.queue_mapping(),
    {
        &self.topic_queue_mapping_manager
    }

    /// The address of the broker, in text.
    pub fn store_host(&self) -> (r: &str)
        ensures
            r@ == self.host(),
    {
        self.store_host.as_str()
    }

    /// Whether the list of hooks is empty.
    pub fn has_send_message_hook(&self) -> (r: bool)
        ensures
            r == (self.hooks().len() == 0),
    {
        self.inner.send_message_hook_vec.len() == 0
    }
}

/// `i` in 64 bits, without a sign.
pub open spec fn unsigned(i: i64) -> int {
    if i < 0 {
        i + 0x1_0000_0000_0000_0000
    } else {
        i as int
    }
}

/// The broker does not accept messages yet.
pub open spec fn too_early(config: crate::config::ConfigView, now: u64) -> bool {
    now < unsigned(config.start_millis)
}

/// The refusal of a message before the broker accepts messages, given the moment in words from
/// which on it does.
pub open spec fn refused_until(
    response: crate::command::CommandView,
    until: Seq<char>,
) -> crate::command::CommandView {
    response.with_verdict(SYSTEM_ERROR, UNABLE_TO_SERVICE@ + until)
}

/// The response before the message is checked: a refusal where the broker does not accept
/// messages yet, else undecided.
pub open spec fn early_response(
    config: crate::config::ConfigView,
    opaque: i32,
    now: u64,
) -> crate::command::CommandView {
    let response = crate::command::empty_response(opaque);
    if too_early(config, now) {
        refused_until(response, human_time(config.start_millis))
    } else {
        response.with_code(UNDECIDED)
    }
}

/// The queue of a message: the one that the producer names, or the drawn one where it names none
/// or one below zero.
pub open spec fn chosen_queue(queue_id: Option<i32>, drawn: u32) -> i32 {
    match queue_id {
        Some(id) => if id < 0 {
            crate::topic::wrap_i32(drawn as int) as i32
        } else {
            id
        },
        None => crate::topic::wrap_i32(drawn as int) as i32,
    }
}

/// A queue has to be drawn.
pub open spec fn draws_queue(queue_id: Option<i32>) -> bool {
    match queue_id {
        Some(id) => id < 0,
        None => true,
    }
}

/// The properties of a message for the store, before anything that only some messages get.
pub open spec fn stored_properties(
    config: crate::config::ConfigView,
    header: crate::command::RequestHeaderView,
) -> Map<Seq<char>, Seq<char>> {
    crate::properties::decoded(header.properties).insert(PROPERTY_CLUSTER@, config.cluster_name)
}

/// How often the message was consumed before.
pub open spec fn reconsumed(header: crate::command::RequestHeaderView) -> i32 {
    match header.reconsume_times {
        Some(times) => times,
        None => 0,
    }
}

/// The message opens a transaction: it is marked so, and is not a delayed message on its way
/// back to a consumer.
pub open spec fn opens_transaction(
    config: crate::config::ConfigView,
    header: crate::command::RequestHeaderView,
) -> bool {
    &&& crate::message::property(
        crate::properties::decoded(header.properties),
        PROPERTY_TRANSACTION_PREPARED@,
    ) == Some("true"@)
    &&& !(reconsumed(header) > 0 && crate::message::delay_time_level(
        stored_properties(config, header),
    ) > 0)
}

/// The message has keys, and they are blank.
pub open spec fn blank_keys(header: crate::command::RequestHeaderView) -> bool {
    let properties = crate::properties::decoded(header.properties);
    properties.contains_key(PROPERTY_KEYS@) && crate::text::blank(properties[PROPERTY_KEYS@])
}

/// The refusal of a transaction by the broker with this address.
pub open spec fn transaction_refusal(ip: Seq<char>) -> Seq<char> {
    "the broker["@ + ip + "] sending transaction message is forbidden"@
}

/// How a single message is refused, where it is: a response that is a refusal already stays.
pub open spec fn single_refusal(
    config: crate::config::ConfigView,
    header: crate::command::RequestHeaderView,
    attributes: Map<Seq<char>, Seq<char>>,
    response: crate::command::CommandView,
) -> Option<crate::command::CommandView> {
    if response.code != UNDECIDED {
        Some(response)
    } else if crate::topic::compacted(attributes) && blank_keys(header) {
        Some(response.with_verdict(MESSAGE_ILLEGAL, KEY_MISSING@))
    } else if opens_transaction(config, header) && config.reject_transactions {
        Some(response.with_verdict(NO_PERMISSION, transaction_refusal(config.ip)))
    } else {
        None
    }
}

/// The message opens a transaction that would have to be stored in the background, which is not
/// provided for.
pub open spec fn background_transaction(
    config: crate::config::ConfigView,
    header: crate::command::RequestHeaderView,
    attributes: Map<Seq<char>, Seq<char>>,
) -> bool {
    &&& config.async_send
    &&& opens_transaction(config, header)
    &&& !config.reject_transactions
    &&& !(crate::topic::compacted(attributes) && blank_keys(header))
}

/// A single message as it goes to the store, but for the text of its properties.
pub open spec fn single_message(
    config: crate::config::ConfigView,
    host: Seq<char>,
    header: crate::command::RequestHeaderView,
    body: Option<Seq<u8>>,
    queue_id: i32,
    born_host: Seq<char>,
    properties_string: Seq<char>,
) -> crate::message::MessageView {
    crate::message::MessageView {
        topic: header.topic,
        flag: header.flag,
        properties: stored_properties(config, header),
        body,
        queue_id,
        sys_flag: 0,
        born_timestamp: header.born_timestamp,
        born_host,
        store_host: host,
        reconsume_times: reconsumed(header),
        properties_string,
        tags_code: crate::topic::tags_code(
            crate::message::property_or_empty(
                crate::properties::decoded(header.properties),
                crate::message::PROPERTY_TAGS@,
            ),
        ) as i64,
    }
}

/// What the store is handed for an accepted request, and what is kept for its answer.
#[derive(Debug)]
pub struct PutPlan {
    pub input: StoreInput,
    pub in_background: bool,
    pub topic: String,
    pub queue_id: i32,
    pub response: RemotingCommand,
    pub response_header: SendMessageResponseHeader,
}

/// What becomes of a checked request: it is refused with a response, or goes to the store.
#[derive(Debug)]
pub enum SendOutcome {
    Refused(RemotingCommand),
    Put(PutPlan),
}

/// `plan` stores a single message.
pub open spec fn plans_single(
    config: crate::config::ConfigView,
    host: Seq<char>,
    header: crate::command::RequestHeaderView,
    body: Option<Seq<u8>>,
    queue_id: i32,
    born_host: Seq<char>,
    response: crate::command::CommandView,
    plan: PutPlan,
) -> bool {
    &&& plan.input matches StoreInput::Message(message)
    &&& message@ == single_message(
        config,
        host,
        header,
        body,
        queue_id,
        born_host,
        message@.properties_string,
    )
    &&& crate::properties::is_text_of(message@.properties_string, message@.properties)
    &&& plan.in_background == config.async_send
    &&& plan.topic@ == header.topic
    &&& plan.queue_id == queue_id
    &&& plan.response@ == response
    &&& plan.response_header@ == crate::command::empty_response_header()
}

/// Refuses a message before the broker accepts messages, given the moment in words from which on
/// it does.
pub fn refuse_until(response: RemotingCommand, until: &str) -> (r: RemotingCommand)
    ensures
        r@ == refused_until(response@, until@),
{
    response.set_code(SYSTEM_ERROR).set_remark(Some(concat(UNABLE_TO_SERVICE, until)))
}

/// Whether a queue has to be drawn for a message.
pub fn needs_queue_draw(queue_id: Option<i32>) -> (r: bool)
    ensures
        r == draws_queue(queue_id),
{
    match queue_id {
        Some(id) => id < 0,
        None => true,
    }
}

/// The queue of a message.
fn choose_queue(queue_id: Option<i32>, drawn: u32) -> (r: i32)
    ensures
        r == chosen_queue(queue_id, drawn),
{
    match queue_id {
        Some(id) if id >= 0 => id,
        _ => if drawn <= 0x7fff_ffff {
            drawn as i32
        } else {
            (drawn as i64 - 0x1_0000_0000) as i32
        },
    }
}

impl<MS: Clone, QM, TC, HK> SendMessageProcessor<MS, QM, TC, HK> {
    /// Leaves of the text of the properties, where the name of the pop check point occurs in it,
    /// only the pieces that begin with that name; any other text stays as it is.
    pub fn clear_reserved_properties(request_header: &mut SendMessageRequestHeader)
        ensures
            final(request_header)@ == (crate::command::RequestHeaderView {
                properties: match old(request_header)@.properties {
                    Some(text) => Some(crate::properties::deleted(text, PROPERTY_POP_CK@)),
                    None => None,
                },
                ..old(request_header)@
            }),
    {
        let cleared = match &request_header.properties {
            Some(value) => Some(delete_property(value.as_str(), PROPERTY_POP_CK)),
            None => None,
        };
        request_header.properties = cleared;
    }

    /// The response before the message is checked. The region and the trace switch are set as
    /// fields, which has no effect: a new response has no table of fields.
    pub fn pre_send(&self, request: &RemotingCommand, now: u64) -> (r: RemotingCommand)
        requires
            too_early(self.config(), now) ==> has_date(self.config().start_millis),
        ensures
            r@ == early_response(self.config(), request.opaque, now),
    {
        let trace_on = if self.broker_config.trace_on {
            "true"
        } else {
            "false"
        };
        let response = RemotingCommand::create_response_command(request.opaque).add_ext_field(
            PROPERTY_MSG_REGION.to_owned(),
            self.broker_config.region_id.clone(),
        ).add_ext_field(PROPERTY_TRACE_SWITCH.to_owned(), trace_on.to_owned());
        if self.is_too_early(now) {
            let start: i64 = self.broker_config.start_accept_send_request_time_stamp;
            let until = time_millis_to_human_string2(start);
            refuse_until(response, until.as_str())
        } else {
            response.set_code(UNDECIDED)
        }
    }

    /// Whether the broker does not accept messages yet.
    pub fn is_too_early(&self, now: u64) -> (r: bool)
        ensures
            r == too_early(self.config(), now),
    {
        let start: i64 = self.broker_config.start_accept_send_request_time_stamp;
        if start < 0 {
            now < (start as i128 + 0x1_0000_0000_0000_0000) as u64
        } else {
            now < start as u64
        }
    }

    /// Whether a message that is to be retried or has failed for good goes on to the store.
    fn handle_retry_and_dlq(
        &self,
        _request_header: &SendMessageRequestHeader,
        _topic_config: &TopicConfig,
        _properties: &Properties,
    ) -> (r: bool)
        ensures
            r,
    {
        true
    }

    /// Whether the message opens a transaction, given its mark and its properties as stored.
    pub(crate) fn is_transaction(
        &self,
        request_header: &SendMessageRequestHeader,
        mark: Option<String>,
        properties: &Properties,
    ) -> (r: bool)
        requires
            crate::text::opt_text(mark) == crate::message::property(
                crate::properties::decoded(request_header@.properties),
                PROPERTY_TRANSACTION_PREPARED@,
            ),
            properties@ == stored_properties(self.config(), request_header@),
        ensures
            r == opens_transaction(self.config(), request_header@),
    {
        let marked = match mark {
            Some(mark) => same_text(mark.as_str(), "true"),
            None => false,
        };
        let times: i32 = match request_header.reconsume_times {
            Some(times) => times,
            None => 0,
        };
        marked && !(times > 0 && get_delay_time_level(properties) > 0)
    }

    /// Decides on a single message, given the response of the check.
    pub fn send_message(
        &self,
        request: &RemotingCommand,
        request_header: &SendMessageRequestHeader,
        response: RemotingCommand,
        topic_config: &TopicConfig,
        drawn_queue: u32,
        born_host: String,
    ) -> (r: SendOutcome)
        requires
            response.code == UNDECIDED ==> crate::topic::policy_known(topic_config.attributes@)
                && !background_transaction(
                self.config(),
                request_header@,
                topic_config.attributes@,
            ),
        ensures
            match r {
                SendOutcome::Refused(refusal) => single_refusal(
                    self.config(),
                    request_header@,
                    topic_config.attributes@,
                    response@,
                ) == Some(refusal@),
                SendOutcome::Put(plan) => single_refusal(
                    self.config(),
                    request_header@,
                    topic_config.attributes@,
                    response@,
                ) is None && plans_single(
                    self.config(),
                    self.host(),
                    request_header@,
                    request@.body,
                    chosen_queue(request_header.queue_id, drawn_queue),
                    born_host@,
                    response@,
                    plan,
                ),
            },
    {
        if response.code != UNDECIDED {
            return SendOutcome::Refused(response);
        }
        let queue_id: i32 = choose_queue(request_header.queue_id, drawn_queue);
        let mut properties = string_to_message_properties(&request_header.properties);
        if !self.handle_retry_and_dlq(request_header, topic_config, &properties) {
            return SendOutcome::Refused(response);
        }
        let mark = match properties.get(PROPERTY_TRANSACTION_PREPARED) {
            Some(mark) => Some(mark.clone()),
            None => None,
        };
        if get_delete_policy(&topic_config.attributes) == CleanupPolicy::Compaction {
            if let Some(keys) = properties.get(PROPERTY_KEYS) {
                if is_blank(keys.as_str()) {
                    return SendOutcome::Refused(
                        response.set_code(MESSAGE_ILLEGAL).set_remark(Some(KEY_MISSING.to_owned())),
                    );
                }
            }
        }
        let mut message = Message {
            topic: request_header.topic.clone(),
            flag: request_header.flag,
            properties,
            body: copy_body(&request.body),
        };
        let tags = match message.get_tags() {
            Some(tags) => tags,
            None => String::new(),
        };
        let tags_code: i64 = tags_string2tags_code(topic_config.topic_filter_type, tags.as_str());
        message.properties.insert(
            PROPERTY_CLUSTER.to_owned(),
            self.broker_config.broker_identity.broker_cluster_name.clone(),
        );
        let properties_string = message_properties_to_string(&message.properties);
        if self.is_transaction(request_header, mark, &message.properties) {
            if self.broker_config.reject_transaction_message {
                let mut remark = concat("the broker[", self.broker_config.broker_ip1.as_str());
                remark.append("] sending transaction message is forbidden");
                return SendOutcome::Refused(
                    response.set_code(NO_PERMISSION).set_remark(Some(remark)),
                );
            }
        }
        let input = MessageExtBrokerInner {
            message_ext_inner: MessageExt {
                message,
                queue_id,
                sys_flag: 0,
                born_timestamp: request_header.born_timestamp,
                born_host,
                store_host: self.store_host.clone(),
                reconsume_times: match request_header.reconsume_times {
                    Some(times) => times,
                    None => 0,
                },
            },
            properties_string,
            tags_code,
        };
        SendOutcome::Put(
            PutPlan {
                input: StoreInput::Message(input),
                in_background: self.broker_config.async_send_enable,
                topic: request_header.topic.clone(),
                queue_id,
                response,
                response_header: SendMessageResponseHeader::default(),
            },
        )
    }
}

/// How a batch is refused, where it is: a response that is a refusal already stays.
pub open spec fn batch_refusal(
    header: crate::command::RequestHeaderView,
    response: crate::command::CommandView,
) -> Option<crate::command::CommandView> {
    let len = vstd::utf8::encode_utf8(header.topic).len();
    if response.code != UNDECIDED {
        Some(response)
    } else if len > MAX_BATCH_TOPIC_LEN {
        Some(
            response.with_verdict(MESSAGE_ILLEGAL, TOPIC_TOO_LONG@ + crate::text::decimal(len)),
        )
    } else if crate::text::has_prefix(header.topic, RETRY_GROUP_TOPIC_PREFIX@) {
        Some(response.with_verdict(MESSAGE_ILLEGAL, NO_RETRY_BATCH@ + header.topic))
    } else {
        None
    }
}

/// The flags of a batch.
pub open spec fn batch_flags(
    header: crate::command::RequestHeaderView,
    filter: TopicFilterType,
) -> i32 {
    if filter == TopicFilterType::MultiTag {
        header.sys_flag | MULTI_TAGS_FLAG
    } else {
        header.sys_flag
    }
}

/// The batch is stored as one message: its topic is consumed batch by batch, and it has an id.
pub open spec fn stored_as_one(
    config: crate::config::ConfigView,
    header: crate::command::RequestHeaderView,
    attributes: Map<Seq<char>, Seq<char>>,
) -> bool {
    crate::topic::consumed_in_batches(attributes) && stored_properties(
        config,
        header,
    ).contains_key(crate::message::PROPERTY_UNIQ_CLIENT_MESSAGE_ID_KEYIDX@)
}

/// A batch as it goes to the store when the store takes it apart.
pub open spec fn batch_message(
    config: crate::config::ConfigView,
    host: Seq<char>,
    header: crate::command::RequestHeaderView,
    filter: TopicFilterType,
    body: Option<Seq<u8>>,
    queue_id: i32,
    born_host: Seq<char>,
) -> crate::message::MessageView {
    crate::message::MessageView {
        topic: header.topic,
        flag: header.flag,
        properties: stored_properties(config, header),
        body,
        queue_id,
        sys_flag: batch_flags(header, filter),
        born_timestamp: header.born_timestamp,
        born_host,
        store_host: host,
        reconsume_times: reconsumed(header),
        properties_string: Seq::empty(),
        tags_code: 0,
    }
}

/// A batch of `inner_num` messages as it goes to the store as one message.
pub open spec fn inner_batch_message(
    batch: crate::message::MessageView,
    inner_num: u32,
    properties_string: Seq<char>,
) -> crate::message::MessageView {
    crate::message::MessageView {
        sys_flag: batch.sys_flag | NEED_UNWRAP_FLAG | INNER_BATCH_FLAG,
        properties: batch.properties.insert(
            PROPERTY_INNER_NUM@,
            crate::text::decimal(inner_num as nat),
        ),
        properties_string,
        ..batch
    }
}

/// `plan` stores a batch of `inner_num` messages.
pub open spec fn plans_batch(
    config: crate::config::ConfigView,
    host: Seq<char>,
    header: crate::command::RequestHeaderView,
    filter: TopicFilterType,
    attributes: Map<Seq<char>, Seq<char>>,
    body: Option<Seq<u8>>,
    queue_id: i32,
    born_host: Seq<char>,
    inner_num: u32,
    response: crate::command::CommandView,
    plan: PutPlan,
) -> bool {
    let batch = batch_message(config, host, header, filter, body, queue_id, born_host);
    &&& if stored_as_one(config, header, attributes) {
        &&& plan.input matches StoreInput::Message(message)
        &&& message@ == inner_batch_message(batch, inner_num, message@.properties_string)
        &&& crate::properties::is_text_of(message@.properties_string, message@.properties)
        &&& plan.response_header@ == (crate::command::ResponseHeaderView {
            batch_uniq_id: Some(
                batch.properties[crate::message::PROPERTY_UNIQ_CLIENT_MESSAGE_ID_KEYIDX@],
            ),
            ..crate::command::empty_response_header()
        })
    } else {
        &&& plan.input matches StoreInput::Batch(input)
        &&& input.message_ext_broker_inner@ == batch
        &&& !input.is_inner_batch
        &&& plan.response_header@ == crate::command::empty_response_header()
    }
    &&& plan.in_background == config.async_send
    &&& plan.topic@ == header.topic
    &&& plan.queue_id == queue_id
    &&& plan.response@ == response
}

/// The answer to a request whose message is stored.
pub open spec fn stored_answer(
    result: PutMessageResult,
    response: crate::command::CommandView,
    queue_id: i32,
    header: crate::command::ResponseHeaderView,
) -> crate::command::CommandView
    recommends
        result.append_message_result is Some,
{
    let appended = result.append_message_result->0;
    crate::store::status_response(result.put_message_status, response).with_header(
        crate::command::ResponseHeaderView {
            msg_id: appended.msg_id@,
            queue_id,
            queue_offset: appended.logics_offset,
            ..header
        },
    )
}

/// The reply of the store can be answered: the message is stored, not under the topic of delayed
/// messages, and it is known where.
pub open spec fn answerable(result: PutMessageResult, topic: Seq<char>) -> bool {
    &&& crate::store::stored(result.put_message_status)
    &&& topic != RMQ_SYS_SCHEDULE_TOPIC@
    &&& result.append_message_result is Some
}

impl<MS: Clone, QM, TC, HK> SendMessageProcessor<MS, QM, TC, HK> {
    /// The refusal of a batch, or its response unchanged where it is not refused.
    pub(crate) fn check_batch(
        request_header: &SendMessageRequestHeader,
        response: RemotingCommand,
    ) -> (r: Result<RemotingCommand, RemotingCommand>)
        ensures
            match r {
                Ok(response_back) => batch_refusal(request_header@, response@) is None
                    && response_back == response,
                Err(refusal) => batch_refusal(request_header@, response@) == Some(refusal@),
            },
    {
        if response.code != UNDECIDED {
            return Err(response);
        }
        let topic = request_header.topic.as_str();
        let len: usize = topic.as_bytes().len();
        if len > MAX_BATCH_TOPIC_LEN {
            let remark = concat(TOPIC_TOO_LONG, u64_to_string(len as u64).as_str());
            return Err(response.set_code(MESSAGE_ILLEGAL).set_remark(Some(remark)));
        }
        if starts_with(topic, RETRY_GROUP_TOPIC_PREFIX) {
            let remark = concat(NO_RETRY_BATCH, topic);
            return Err(response.set_code(MESSAGE_ILLEGAL).set_remark(Some(remark)));
        }
        Ok(response)
    }

    /// Decides on a batch, given the response of the check and how many messages its body holds.
    pub fn send_batch_message(
        &self,
        request: &RemotingCommand,
        request_header: &SendMessageRequestHeader,
        response: RemotingCommand,
        topic_config: &TopicConfig,
        drawn_queue: u32,
        born_host: String,
        inner_num: u32,
    ) -> (r: SendOutcome)
        ensures
            match r {
                SendOutcome::Refused(refusal) => batch_refusal(request_header@, response@) == Some(
                    refusal@,
                ),
                SendOutcome::Put(plan) => batch_refusal(request_header@, response@) is None
                    && plans_batch(
                    self.config(),
                    self.host(),
                    request_header@,
                    topic_config.topic_filter_type,
                    topic_config.attributes@,
                    request@.body,
                    chosen_queue(request_header.queue_id, drawn_queue),
                    born_host@,
                    inner_num,
                    response@,
                    plan,
                ),
            },
    {
        let queue_id: i32 = choose_queue(request_header.queue_id, drawn_queue);
        let response = match Self::check_batch(request_header, response) {
            Ok(response) => response,
            Err(refusal) => {
                return SendOutcome::Refused(refusal);
            },
        };
        let mut sys_flag: i32 = request_header.sys_flag;
        if topic_config.topic_filter_type == TopicFilterType::MultiTag {
            sys_flag = sys_flag | MULTI_TAGS_FLAG;
        }
        let mut message = Message {
            topic: request_header.topic.clone(),
            flag: request_header.flag,
            properties: string_to_message_properties(&request_header.properties),
            body: copy_body(&request.body),
        };
        message.properties.insert(
            PROPERTY_CLUSTER.to_owned(),
            self.broker_config.broker_identity.broker_cluster_name.clone(),
        );
        let mut response_header = SendMessageResponseHeader::default();
        let mut properties_string = String::new();
        let mut is_inner_batch = false;
        let batch_uniq_id = get_uniq_id(&message);
        if is_batch_cq(&topic_config.attributes) && batch_uniq_id.is_some() {
            sys_flag = sys_flag | NEED_UNWRAP_FLAG | INNER_BATCH_FLAG;
            message.properties.insert(
                PROPERTY_INNER_NUM.to_owned(),
                u64_to_string(inner_num as u64),
            );
            properties_string = message_properties_to_string(&message.properties);
            response_header.batch_uniq_id = batch_uniq_id;
            is_inner_batch = true;
        }
        let input = MessageExtBrokerInner {
            message_ext_inner: MessageExt {
                message,
                queue_id,
                sys_flag,
                born_timestamp: request_header.born_timestamp,
                born_host,
                store_host: self.store_host.clone(),
                reconsume_times: match request_header.reconsume_times {
                    Some(times) => times,
                    None => 0,
                },
            },
            properties_string,
            tags_code: 0,
        };
        SendOutcome::Put(
            PutPlan {
                input: if is_inner_batch {
                    StoreInput::Message(input)
                } else {
                    StoreInput::Batch(
                        MessageExtBatch { message_ext_broker_inner: input, is_inner_batch },
                    )
                },
                in_background: self.broker_config.async_send_enable,
                topic: request_header.topic.clone(),
                queue_id,
                response,
                response_header,
            },
        )
    }

    /// Answers a request once its message is stored.
    pub fn handle_put_message_result(
        &self,
        put_message_result: PutMessageResult,
        response: RemotingCommand,
        topic: &str,
        queue_id_int: i32,
        response_header: SendMessageResponseHeader,
    ) -> (r: Option<RemotingCommand>)
        requires
            answerable(put_message_result, topic@),
        ensures
            r matches Some(answer) && answer@ == stored_answer(
                put_message_result,
                response@,
                queue_id_int,
                response_header@,
            ),
    {
        let (_, response) = answer_status(put_message_result.put_message_status, response);
        let mut response_header = response_header;
        if let Some(appended) = put_message_result.append_message_result {
            response_header.msg_id = appended.msg_id;
            response_header.queue_offset = appended.logics_offset;
        }
        response_header.queue_id = queue_id_int;
        Some(response.set_command_custom_header(response_header))
    }

    /// Whether the reply of the store can be answered.
    pub fn is_answerable(result: &PutMessageResult, topic: &str) -> (r: bool)
        ensures
            r == answerable(*result, topic@),
    {
        let stored = match result.put_message_status {
            crate::store::PutMessageStatus::PutOk => true,
            crate::store::PutMessageStatus::FlushDiskTimeout => true,
            crate::store::PutMessageStatus::FlushSlaveTimeout => true,
            crate::store::PutMessageStatus::SlaveNotAvailable => true,
            _ => false,
        };
        stored && !same_text(topic, RMQ_SYS_SCHEDULE_TOPIC) && result.append_message_result.is_some()
    }
}

} // verus!
