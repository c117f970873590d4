//! The way of one send request through the broker. The broker and its host take turns: the
//! session says what is to be done next, the host does it and reports what came of it.

use vstd::prelude::*;

use crate::command::{
    read_request_header, RemotingCommand, SendMessageRequestHeader, SendMessageResponseHeader,
    CONSUMER_SEND_MSG_BACK, UNDECIDED,
};
use crate::message::{
    PROPERTY_CLUSTER, PROPERTY_KEYS, PROPERTY_TRANSACTION_PREPARED,
    PROPERTY_UNIQ_CLIENT_MESSAGE_ID_KEYIDX,
};
use crate::processor::{
    copy_body, needs_queue_draw, PutPlan, SendMessageProcessor, SendOutcome, MAX_DATE_MILLIS, MIN_DATE_MILLIS,
};
use crate::properties::string_to_message_properties;
use crate::store::{PutMessageResult, StoreInput};
use crate::text::is_blank;
use crate::topic::{get_delete_policy, is_batch_cq, is_policy_known, CleanupPolicy, TopicConfig};

verus! {

/// How far a request has come: what the session waits for, and what it keeps meanwhile.
#[derive(Debug)]
pub enum Stage {
    /// The request has arrived.
    Received,
    /// The host rewrites the header for a static topic.
    Rewriting,
    /// The host runs the hooks in front of sending.
    Hooking,
    /// The host reads the clock of the store.
    Timing { header: SendMessageRequestHeader },
    /// The host checks the message.
    Checking { header: SendMessageRequestHeader },
    /// The host looks the topic up.
    Selecting { header: SendMessageRequestHeader, response: RemotingCommand },
    /// The host draws a queue.
    Drawing {
        header: SendMessageRequestHeader,
        response: RemotingCommand,
        topic_config: TopicConfig,
        born_host: String,
    },
    /// The host counts the messages inside a batch.
    Counting {
        header: SendMessageRequestHeader,
        response: RemotingCommand,
        topic_config: TopicConfig,
        drawn_queue: u32,
        born_host: String,
    },
    /// The host stores the message.
    Storing {
        topic: String,
        queue_id: i32,
        response: RemotingCommand,
        response_header: SendMessageResponseHeader,
    },
    /// Nothing is left to do.
    Finished,
}

/// A request on its way.
#[derive(Debug)]
pub struct Session {
    pub request_code: i32,
    pub request: RemotingCommand,
    pub stage: Stage,
}

/// What the host reports.
#[derive(Debug)]
pub enum Event {
    /// The request is to be processed.
    Start,
    /// The header after it was rewritten, and the answer where the rewriting gave one.
    Rewritten { header: SendMessageRequestHeader, reply: Option<RemotingCommand> },
    /// The header after the hooks have run.
    HooksRun { header: SendMessageRequestHeader },
    /// The time of the store, in milliseconds since 1970.
    Clock { now: u64 },
    /// The response after the message was checked.
    Checked { response: RemotingCommand },
    /// The topic, and the address of the producer.
    TopicSelected { topic_config: TopicConfig, born_host: String },
    /// The drawn queue.
    QueueDrawn { queue_id: u32 },
    /// The number of messages inside the batch.
    InnerCounted { inner_num: u32 },
    /// The reply of the store.
    Stored { result: PutMessageResult },
}

/// What the host is to do.
#[derive(Debug)]
pub enum Action {
    /// Take the message back from its consumer and answer with what comes of it.
    TakeBack,
    /// Rewrite the header for a static topic.
    Rewrite { header: SendMessageRequestHeader },
    /// Run the hooks in front of sending.
    RunHooks { header: SendMessageRequestHeader },
    /// Read the clock of the store.
    ReadClock,
    /// Check the message and note a refusal in the response.
    Check { response: RemotingCommand },
    /// Look the topic of the header up.
    SelectTopic,
    /// Draw one of so many queues.
    DrawQueue { write_queue_nums: u32 },
    /// Count the messages that the body of a batch holds.
    CountInner { body: Option<Vec<u8>> },
    /// Store the message, in the background where that is asked for.
    Put { input: StoreInput, in_background: bool },
    /// Answer the producer, or leave the request unanswered.
    Reply { reply: Option<RemotingCommand> },
    /// Give up: the request asks for what is not provided for.
    Abort,
}

/// The event is the one that the session waits for.
pub open spec fn expects(stage: Stage, event: Event) -> bool {
    match stage {
        Stage::Received => event is Start,
        Stage::Rewriting => event is Rewritten,
        Stage::Hooking => event is HooksRun,
        Stage::Timing { .. } => event is Clock,
        Stage::Checking { .. } => event is Checked,
        Stage::Selecting { .. } => event is TopicSelected,
        Stage::Drawing { .. } => event is QueueDrawn,
        Stage::Counting { .. } => event is InnerCounted,
        Stage::Storing { .. } => event is Stored,
        Stage::Finished => false,
    }
}

/// The plan that a session follows when it has a message stored.
pub open spec fn plan_of(stage: Stage, action: Action) -> Option<PutPlan> {
    match (stage, action) {
        (
            Stage::Storing { topic, queue_id, response, response_header },
            Action::Put { input, in_background },
        ) => Some(PutPlan { input, in_background, topic, queue_id, response, response_header }),
        _ => None,
    }
}

/// The session ends with this answer.
pub open spec fn ends_with(
    stage: Stage,
    action: Action,
    answer: Option<crate::command::CommandView>,
) -> bool {
    &&& stage is Finished
    &&& action matches Action::Reply { reply }
    &&& match reply {
        Some(command) => answer == Some(command@),
        None => answer is None,
    }
}

/// The session gives up.
pub open spec fn gives_up(stage: Stage, action: Action) -> bool {
    stage is Finished && action is Abort
}

/// The producer sends a batch.
pub open spec fn is_batch(header: crate::command::RequestHeaderView) -> bool {
    header.batch == Some(true)
}

/// The session has the messages inside a batch counted.
pub open spec fn counts(
    body: Option<Seq<u8>>,
    header: crate::command::RequestHeaderView,
    response: crate::command::CommandView,
    topic_config: TopicConfig,
    drawn: u32,
    born_host: Seq<char>,
    stage: Stage,
    action: Action,
) -> bool {
    &&& stage matches Stage::Counting {
        header: next,
        response: kept,
        topic_config: topic,
        drawn_queue,
        born_host: host,
    }
    &&& next@ == header
    &&& kept@ == response
    &&& topic == topic_config
    &&& drawn_queue == drawn
    &&& host@ == born_host
    &&& action matches Action::CountInner { body: counted }
    &&& crate::message::opt_bytes(counted) == body
}

/// What follows once the topic and the queue of a checked request are known. The messages inside
/// a batch have to be counted where it is stored as one message.
pub open spec fn decided(
    config: crate::config::ConfigView,
    host: Seq<char>,
    body: Option<Seq<u8>>,
    header: crate::command::RequestHeaderView,
    response: crate::command::CommandView,
    topic_config: TopicConfig,
    drawn: u32,
    born_host: Seq<char>,
    counted: Option<u32>,
    stage: Stage,
    action: Action,
) -> bool {
    let attributes = topic_config.attributes@;
    let queue_id = crate::processor::chosen_queue(header.queue_id, drawn);
    if is_batch(header) {
        match crate::processor::batch_refusal(header, response) {
            Some(refusal) => ends_with(stage, action, Some(refusal)),
            None => if crate::processor::stored_as_one(config, header, attributes)
                && counted is None {
                counts(body, header, response, topic_config, drawn, born_host, stage, action)
            } else {
                &&& plan_of(stage, action) matches Some(plan)
                &&& crate::processor::plans_batch(
                    config,
                    host,
                    header,
                    topic_config.topic_filter_type,
                    attributes,
                    body,
                    queue_id,
                    born_host,
                    match counted {
                        Some(inner_num) => inner_num,
                        None => 0,
                    },
                    response,
                    plan,
                )
            },
        }
    } else if response.code == UNDECIDED && (!crate::topic::policy_known(attributes)
        || crate::processor::background_transaction(config, header, attributes)) {
        gives_up(stage, action)
    } else {
        match crate::processor::single_refusal(config, header, attributes, response) {
            Some(refusal) => ends_with(stage, action, Some(refusal)),
            None => {
                &&& plan_of(stage, action) matches Some(plan)
                &&& crate::processor::plans_single(
                    config,
                    host,
                    header,
                    body,
                    queue_id,
                    born_host,
                    response,
                    plan,
                )
            },
        }
    }
}

/// What follows the arrival of a request, given its header.
pub open spec fn begun(
    header: Option<crate::command::RequestHeaderView>,
    stage: Stage,
    action: Action,
) -> bool {
    match header {
        Some(parsed) => {
            &&& stage is Rewriting
            &&& action matches Action::Rewrite { header }
            &&& header@ == parsed
        },
        None => ends_with(stage, action, None),
    }
}

/// The header with what is left of the text of its properties: all of it where the name of the
/// pop check point does not occur in it, else the pieces that begin with that name.
pub open spec fn cleared(
    header: crate::command::RequestHeaderView,
) -> crate::command::RequestHeaderView {
    crate::command::RequestHeaderView {
        properties: match header.properties {
            Some(text) => Some(
                crate::properties::deleted(text, crate::message::PROPERTY_POP_CK@),
            ),
            None => None,
        },
        ..header
    }
}

/// One step of a session: from `s`, on `event`, to the stage `stage` with the action `action`.
pub open spec fn step(
    config: crate::config::ConfigView,
    host: Seq<char>,
    s: Session,
    event: Event,
    stage: Stage,
    action: Action,
) -> bool {
    match (s.stage, event) {
        (Stage::Received, Event::Start) => if s.request_code == CONSUMER_SEND_MSG_BACK {
            stage is Finished && action is TakeBack
        } else {
            begun(
                crate::command::request_header(s.request_code, s.request@.ext_fields),
                stage,
                action,
            )
        },
        (Stage::Rewriting, Event::Rewritten { header, reply }) => match reply {
            Some(reply) => ends_with(stage, action, Some(reply@)),
            None => {
                &&& stage is Hooking
                &&& action matches Action::RunHooks { header: hooked }
                &&& hooked@ == header@
            },
        },
        (Stage::Hooking, Event::HooksRun { header }) => {
            &&& stage matches Stage::Timing { header: next }
            &&& next@ == cleared(header@)
            &&& action is ReadClock
        },
        (Stage::Timing { header }, Event::Clock { now }) => {
            let response = crate::processor::early_response(config, s.request.opaque, now);
            if !crate::processor::too_early(config, now) {
                &&& stage matches Stage::Checking { header: next }
                &&& next@ == header@
                &&& action matches Action::Check { response: asked }
                &&& asked@ == response
            } else if crate::processor::has_date(config.start_millis) {
                ends_with(stage, action, Some(response))
            } else {
                gives_up(stage, action)
            }
        },
        (Stage::Checking { header }, Event::Checked { response }) => if response.code
            == UNDECIDED {
            &&& stage matches Stage::Selecting { header: next, response: kept }
            &&& next@ == header@
            &&& kept@ == response@
            &&& action is SelectTopic
        } else {
            ends_with(stage, action, Some(response@))
        },
        (
            Stage::Selecting { header, response },
            Event::TopicSelected { topic_config, born_host },
        ) => if crate::processor::draws_queue(header.queue_id) {
            &&& stage == Stage::Drawing { header, response, topic_config, born_host }
            &&& action == Action::DrawQueue { write_queue_nums: topic_config.write_queue_nums }
        } else {
            decided(
                config,
                host,
                s.request@.body,
                header@,
                response@,
                topic_config,
                0,
                born_host@,
                None,
                stage,
                action,
            )
        },
        (
            Stage::Drawing { header, response, topic_config, born_host },
            Event::QueueDrawn { queue_id },
        ) => decided(
            config,
            host,
            s.request@.body,
            header@,
            response@,
            topic_config,
            queue_id,
            born_host@,
            None,
            stage,
            action,
        ),
        (
            Stage::Counting { header, response, topic_config, drawn_queue, born_host },
            Event::InnerCounted { inner_num },
        ) => decided(
            config,
            host,
            s.request@.body,
            header@,
            response@,
            topic_config,
            drawn_queue,
            born_host@,
            Some(inner_num),
            stage,
            action,
        ),
        (
            Stage::Storing { topic, queue_id, response, response_header },
            Event::Stored { result },
        ) => if crate::processor::answerable(result, topic@) {
            ends_with(
                stage,
                action,
                Some(
                    crate::processor::stored_answer(
                        result,
                        response@,
                        queue_id,
                        response_header@,
                    ),
                ),
            )
        } else {
            gives_up(stage, action)
        },
        _ => false,
    }
}

/// A session with its answer.
fn finish(reply: Option<RemotingCommand>) -> (r: (Stage, Action))
    ensures
        ends_with(
            r.0,
            r.1,
            match reply {
                Some(command) => Some(command@),
                None => None,
            },
        ),
{
    (Stage::Finished, Action::Reply { reply })
}

/// What follows the arrival of a request, given its header.
pub fn begin(header: Option<SendMessageRequestHeader>) -> (r: (Stage, Action))
    ensures
        begun(crate::command::opt_header(header), r.0, r.1),
{
    match header {
        Some(header) => (Stage::Rewriting, Action::Rewrite { header }),
        None => finish(None),
    }
}

impl<MS: Clone, QM, TC, HK> SendMessageProcessor<MS, QM, TC, HK> {
    /// Whether the message opens a transaction that would have to be stored in the background.
    pub fn is_background_transaction(
        &self,
        request_header: &SendMessageRequestHeader,
        topic_config: &TopicConfig,
    ) -> (r: bool)
        requires
            crate::topic::policy_known(topic_config.attributes@),
        ensures
            r == crate::processor::background_transaction(
                self.config(),
                request_header@,
                topic_config.attributes@,
            ),
    {
        if !self.broker_config().async_send_enable
            || self.broker_config().reject_transaction_message {
            return false;
        }
        let mut properties = string_to_message_properties(&request_header.properties);
        if get_delete_policy(&topic_config.attributes) == CleanupPolicy::Compaction {
            if let Some(keys) = properties.get(PROPERTY_KEYS) {
                if is_blank(keys.as_str()) {
                    return false;
                }
            }
        }
        let mark = match properties.get(PROPERTY_TRANSACTION_PREPARED) {
            Some(mark) => Some(mark.clone()),
            None => None,
        };
        properties.insert(
            PROPERTY_CLUSTER.to_owned(),
            self.broker_config().broker_identity.broker_cluster_name.clone(),
        );
        self.is_transaction(request_header, mark, &properties)
    }

    /// Whether the batch is stored as one message.
    pub fn is_stored_as_one(
        &self,
        request_header: &SendMessageRequestHeader,
        topic_config: &TopicConfig,
    ) -> (r: bool)
        ensures
            r == crate::processor::stored_as_one(
                self.config(),
                request_header@,
                topic_config.attributes@,
            ),
    {
        if !is_batch_cq(&topic_config.attributes) {
            return false;
        }
        let mut properties = string_to_message_properties(&request_header.properties);
        properties.insert(
            PROPERTY_CLUSTER.to_owned(),
            self.broker_config().broker_identity.broker_cluster_name.clone(),
        );
        properties.get(PROPERTY_UNIQ_CLIENT_MESSAGE_ID_KEYIDX).is_some()
    }

    /// Decides on a checked request whose topic and queue are known.
    fn decide(
        &self,
        request: &RemotingCommand,
        header: SendMessageRequestHeader,
        response: RemotingCommand,
        topic_config: TopicConfig,
        drawn: u32,
        born_host: String,
        counted: Option<u32>,
    ) -> (r: (Stage, Action))
        ensures
            decided(
                self.config(),
                self.host(),
                request@.body,
                header@,
                response@,
                topic_config,
                drawn,
                born_host@,
                counted,
                r.0,
                r.1,
            ),
    {
        let batch = match header.batch {
            Some(batch) => batch,
            None => false,
        };
        let outcome = if batch {
            let response = match Self::check_batch(&header, response) {
                Ok(response) => response,
                Err(refusal) => {
                    return finish(Some(refusal));
                },
            };
            let inner_num: u32 = match counted {
                Some(inner_num) => inner_num,
                None => {
                    if self.is_stored_as_one(&header, &topic_config) {
                        return (
                            Stage::Counting {
                                header,
                                response,
                                topic_config,
                                drawn_queue: drawn,
                                born_host,
                            },
                            Action::CountInner { body: copy_body(&request.body) },
                        );
                    }
                    0
                },
            };
            self.send_batch_message(
                request,
                &header,
                response,
                &topic_config,
                drawn,
                born_host,
                inner_num,
            )
        } else {
            if response.code == UNDECIDED && (!is_policy_known(&topic_config.attributes)
                || self.is_background_transaction(&header, &topic_config)) {
                return (Stage::Finished, Action::Abort);
            }
            self.send_message(request, &header, response, &topic_config, drawn, born_host)
        };
        match outcome {
            SendOutcome::Refused(refusal) => finish(Some(refusal)),
            SendOutcome::Put(plan) => (
                Stage::Storing {
                    topic: plan.topic,
                    queue_id: plan.queue_id,
                    response: plan.response,
                    response_header: plan.response_header,
                },
                Action::Put { input: plan.input, in_background: plan.in_background },
            ),
        }
    }

    /// Takes a request one step further: given what the host reports, says what it is to do.
    pub fn process_request(&self, session: Session, event: Event) -> (r: (Session, Action))
        requires
            expects(session.stage, event),
        ensures
            r.0.request_code == session.request_code,
            r.0.request == session.request,
            step(self.config(), self.host(), session, event, r.0.stage, r.1),
    {
        let request_code: i32 = session.request_code;
        let request = session.request;
        let (stage, action) = match (session.stage, event) {
            (Stage::Received, Event::Start) => if request_code == CONSUMER_SEND_MSG_BACK {
                (Stage::Finished, Action::TakeBack)
            } else {
                begin(read_request_header(request_code, &request.ext_fields))
            },
            (Stage::Rewriting, Event::Rewritten { header, reply }) => match reply {
                Some(reply) => finish(Some(reply)),
                None => (Stage::Hooking, Action::RunHooks { header }),
            },
            (Stage::Hooking, Event::HooksRun { header }) => {
                let mut header = header;
                Self::clear_reserved_properties(&mut header);
                (Stage::Timing { header }, Action::ReadClock)
            },
            (Stage::Timing { header }, Event::Clock { now }) => {
                let start: i64 = self.broker_config().start_accept_send_request_time_stamp;
                if !self.is_too_early(now) {
                    let response = self.pre_send(&request, now);
                    (Stage::Checking { header }, Action::Check { response })
                } else if MIN_DATE_MILLIS <= start && start <= MAX_DATE_MILLIS {
                    finish(Some(self.pre_send(&request, now)))
                } else {
                    (Stage::Finished, Action::Abort)
                }
            },
            (Stage::Checking { header }, Event::Checked { response }) => if response.code
                == UNDECIDED {
                (Stage::Selecting { header, response }, Action::SelectTopic)
            } else {
                finish(Some(response))
            },
            (
                Stage::Selecting { header, response },
                Event::TopicSelected { topic_config, born_host },
            ) => if needs_queue_draw(header.queue_id) {
                let write_queue_nums: u32 = topic_config.write_queue_nums;
                (
                    Stage::Drawing { header, response, topic_config, born_host },
                    Action::DrawQueue { write_queue_nums },
                )
            } else {
                self.decide(&request, header, response, topic_config, 0, born_host, None)
            },
            (
                Stage::Drawing { header, response, topic_config, born_host },
                Event::QueueDrawn { queue_id },
            ) => self.decide(&request, header, response, topic_config, queue_id, born_host, None),
            (
                Stage::Counting { header, response, topic_config, drawn_queue, born_host },
                Event::InnerCounted { inner_num },
            ) => self.decide(
                &request,
                header,
                response,
                topic_config,
                drawn_queue,
                born_host,
                Some(inner_num),
            ),
            (
                Stage::Storing { topic, queue_id, response, response_header },
                Event::Stored { result },
            ) => if Self::is_answerable(&result, topic.as_str()) {
                finish(
                    self.handle_put_message_result(
                        result,
                        response,
                        topic.as_str(),
                        queue_id,
                        response_header,
                    ),
                )
            } else {
                (Stage::Finished, Action::Abort)
            },
            _ => (Stage::Finished, Action::Abort),
        };
        (Session { request_code, request, stage }, action)
    }
}

} // verus!
