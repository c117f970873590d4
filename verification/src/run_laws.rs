//! What holds of a session from the arrival of its request to its end.

use vstd::prelude::*;

use crate::command::{RemotingCommand, SendMessageRequestHeader};
use crate::config;
use crate::laws;
use crate::session;
use crate::session::{Action, Event, Session, Stage};
use crate::step_laws;
use crate::store::PutMessageResult;
use crate::text;
use crate::topic::TopicConfig;

verus! {

/// The stages of a run follow one another in one order, and each waits for its own report.
pub proof fn every_run_keeps_the_order(
    config: config::ConfigView,
    host: Seq<char>,
    s: Session,
    stages: Seq<Stage>,
    events: Seq<Event>,
    actions: Seq<Action>,
)
    requires
        laws::is_run(config, host, s, stages, events, actions),
    ensures
        actions.len() > 0 ==> events[0] is Start,
        actions.len() > 1 ==> stages[1] is Rewriting && events[1] is Rewritten && actions[0]
            is Rewrite,
        actions.len() > 2 ==> stages[2] is Hooking && events[2] is HooksRun && actions[1]
            is RunHooks,
        actions.len() > 3 ==> stages[3] is Timing && events[3] is Clock && actions[2] is ReadClock,
        actions.len() > 4 ==> stages[4] is Checking && events[4] is Checked && actions[3] is Check,
        actions.len() > 5 ==> stages[5] is Selecting && events[5] is TopicSelected && actions[4]
            is SelectTopic,
        forall|i: int|
            0 <= i < actions.len() ==> session::step(
                config,
                host,
                Session { stage: stages[i], ..s },
                #[trigger] events[i],
                stages[i + 1],
                actions[i],
            ),
{
    let n = actions.len() as int;
    if n > 0 {
        let a = Session { stage: stages[0], ..s };
        assert(session::step(config, host, a, events[0], stages[1], actions[0]));
    }
    if n > 1 {
        let a = Session { stage: stages[1], ..s };
        assert(session::step(config, host, a, events[1], stages[2], actions[1]));
    }
    if n > 2 {
        let a = Session { stage: stages[2], ..s };
        assert(session::step(config, host, a, events[2], stages[3], actions[2]));
    }
    if n > 3 {
        let a = Session { stage: stages[3], ..s };
        assert(session::step(config, host, a, events[3], stages[4], actions[3]));
    }
    if n > 4 {
        let a = Session { stage: stages[4], ..s };
        assert(session::step(config, host, a, events[4], stages[5], actions[4]));
    }
    if n > 5 {
        let a = Session { stage: stages[5], ..s };
        assert(session::step(config, host, a, events[5], stages[6], actions[5]));
    }
}

/// The queue that was drawn in a run: the host was asked for one of as many as the topic has for
/// writing, and reported this one.
pub open spec fn was_drawn(
    events: Seq<Event>,
    actions: Seq<Action>,
    topic_config: TopicConfig,
    drawn: u32,
) -> bool {
    &&& actions.len() > 6
    &&& actions[5] == (Action::DrawQueue { write_queue_nums: topic_config.write_queue_nums })
    &&& events[6] == (Event::QueueDrawn { queue_id: drawn })
}

/// The messages inside a batch were counted in a run right before `at`: the host was handed the
/// body of the request, and reported this number.
pub open spec fn was_counted(
    s: Session,
    events: Seq<Event>,
    actions: Seq<Action>,
    at: int,
    inner_num: u32,
) -> bool {
    &&& actions[at - 1] matches Action::CountInner { body }
    &&& step_laws::same_bytes(body, s.request.body)
    &&& events[at] == (Event::InnerCounted { inner_num })
}

/// What a run stores at `at` is what the producer sent: `kept` is what was kept of the header
/// that the hooks reported.
pub open spec fn run_stores(
    config: config::ConfigView,
    host: Seq<char>,
    s: Session,
    events: Seq<Event>,
    actions: Seq<Action>,
    at: int,
    reported: SendMessageRequestHeader,
    kept: SendMessageRequestHeader,
    topic_config: TopicConfig,
    born_host: String,
    drawn: u32,
    counted: Option<u32>,
) -> bool {
    &&& actions[at] matches Action::Put { input, in_background }
    &&& step_laws::carried(reported, kept)
    &&& step_laws::stores_what_was_sent(
        config,
        host,
        kept,
        s.request.body,
        topic_config,
        born_host,
        drawn,
        counted,
        input,
        in_background,
    )
    &&& (reported.queue_id matches Some(id) ==> id < 0) ==> was_drawn(
        events,
        actions,
        topic_config,
        drawn,
    )
    &&& counted matches Some(inner_num) ==> was_counted(s, events, actions, at, inner_num)
}

/// The run up to the place where the topic is known, and what is kept there.
proof fn lemma_until_topic(
    config: config::ConfigView,
    host: Seq<char>,
    s: Session,
    stages: Seq<Stage>,
    events: Seq<Event>,
    actions: Seq<Action>,
)
    requires
        laws::is_run(config, host, s, stages, events, actions),
        actions.len() > 5,
    ensures
        events[2] is HooksRun,
        events[3] matches Event::Clock { now } && step_laws::is_open(config.start_millis, now),
        events[4] matches Event::Checked { response } && response.code == -1,
        stages[5] is Selecting,
        step_laws::carried(events[2]->HooksRun_header, stages[5]->Selecting_header),
        step_laws::same_response(events[4]->Checked_response, stages[5]->Selecting_response),
{
    every_run_keeps_the_order(config, host, s, stages, events, actions);
    let a2 = Session { stage: stages[2], ..s };
    let a3 = Session { stage: stages[3], ..s };
    let a4 = Session { stage: stages[4], ..s };
    assert(session::step(config, host, a2, events[2], stages[3], actions[2]));
    assert(session::step(config, host, a3, events[3], stages[4], actions[3]));
    assert(session::step(config, host, a4, events[4], stages[5], actions[4]));
    step_laws::hooks_are_followed_by_the_clock(
        config,
        host,
        a2,
        events[2]->HooksRun_header,
        stages[3],
        actions[2],
    );
    step_laws::the_clock_opens_the_broker(
        config,
        host,
        a3,
        stages[3]->Timing_header,
        events[3]->now,
        stages[4],
        actions[3],
    );
    step_laws::the_check_decides(
        config,
        host,
        a4,
        stages[4]->Checking_header,
        events[4]->Checked_response,
        stages[5],
        actions[4],
    );
}

/// Whatever a run stores, it stores in time and unrefused, and it is what the producer sent: from
/// the hooks to the store only the text of the properties changes, the queue is the one that the
/// header names or the one that was drawn among those of the topic, and the address of the
/// producer is the one that was reported with the topic.
pub proof fn a_run_stores_what_was_sent(
    config: config::ConfigView,
    host: Seq<char>,
    s: Session,
    stages: Seq<Stage>,
    events: Seq<Event>,
    actions: Seq<Action>,
    at: int,
)
    requires
        laws::is_run(config, host, s, stages, events, actions),
        0 <= at < actions.len(),
        actions[at] is Put,
    ensures
        at >= 5,
        events[3] matches Event::Clock { now } && step_laws::is_open(config.start_millis, now),
        events[4] matches Event::Checked { response } && response.code == -1,
        ({
            &&& events[2] matches Event::HooksRun { header: reported }
            &&& events[4] matches Event::Checked { response }
            &&& events[5] matches Event::TopicSelected { topic_config, born_host }
            &&& exists|kept: SendMessageRequestHeader, drawn: u32, counted: Option<u32>|
                #[trigger] run_stores(
                    config,
                    host,
                    s,
                    events,
                    actions,
                    at,
                    reported,
                    kept,
                    topic_config,
                    born_host,
                    drawn,
                    counted,
                )
            &&& stages[at + 1] matches Stage::Storing {
                topic,
                queue_id,
                response: kept_response,
                response_header,
            }
            &&& topic@ == reported.topic@
            &&& queue_id == step_laws::message_in(actions[at]->input).message_ext_inner.queue_id
            &&& step_laws::same_response(response, kept_response)
        }),
{
    every_run_keeps_the_order(config, host, s, stages, events, actions);
    let before = Session { stage: stages[at], ..s };
    assert(session::step(config, host, before, events[at], stages[at + 1], actions[at]));
    laws::every_run_stores_at_most_once(config, host, s, stages, events, actions);
    assert(at >= 5) by {
        if at < 5 {
            assert(at == 0 || at == 1 || at == 2 || at == 3 || at == 4);
        }
    }
    lemma_until_topic(config, host, s, stages, events, actions);
    let reported = events[2]->HooksRun_header;
    let response = events[4]->Checked_response;
    let header5 = stages[5]->Selecting_header;
    let response5 = stages[5]->Selecting_response;
    let topic_config = events[5]->TopicSelected_topic_config;
    let born_host = events[5]->TopicSelected_born_host;
    let a5 = Session { stage: stages[5], ..s };
    let input = actions[at]->input;
    let in_background = actions[at]->in_background;
    assert(session::step(config, host, a5, events[5], stages[6], actions[5]));
    step_laws::a_queue_is_drawn_among_those_of_the_topic(
        config,
        host,
        a5,
        header5,
        response5,
        topic_config,
        born_host,
        stages[6],
        actions[5],
    );
    if actions[5] is DrawQueue {
        assert(at >= 6);
        let a6 = Session { stage: stages[6], ..s };
        assert(session::step(config, host, a6, events[6], stages[7], actions[6]));
        let drawn = events[6]->QueueDrawn_queue_id;
        if at == 6 {
            step_laws::a_step_stores_what_was_sent(
                config,
                host,
                a6,
                events[6],
                stages[7],
                input,
                in_background,
                header5,
                response5,
                topic_config,
                born_host,
                drawn,
                None,
            );
            assert(run_stores(
                config,
                host,
                s,
                events,
                actions,
                at,
                reported,
                header5,
                topic_config,
                born_host,
                drawn,
                None,
            ));
        } else {
            step_laws::a_decision_refuses_counts_gives_up_or_stores(
                config,
                host,
                a6,
                events[6],
                stages[7],
                actions[6],
                header5,
                response5,
                topic_config,
                born_host,
                drawn,
                None,
            );
            let a7 = Session { stage: stages[7], ..s };
            assert(session::step(config, host, a7, events[7], stages[8], actions[7]));
            lemma_counted(
                config,
                host,
                s,
                stages,
                events,
                actions,
                7,
                reported,
                response,
                topic_config,
                born_host,
                drawn,
            );
            assert(at == 7) by {
                if at > 7 {
                    let a8 = Session { stage: stages[8], ..s };
                    assert(session::step(config, host, a8, events[8], stages[9], actions[8]));
                }
            }
        }
    } else {
        if at == 5 {
            step_laws::a_step_stores_what_was_sent(
                config,
                host,
                a5,
                events[5],
                stages[6],
                input,
                in_background,
                header5,
                response5,
                topic_config,
                born_host,
                0,
                None,
            );
            assert(run_stores(
                config,
                host,
                s,
                events,
                actions,
                at,
                reported,
                header5,
                topic_config,
                born_host,
                0,
                None,
            ));
        } else {
            step_laws::a_decision_refuses_counts_gives_up_or_stores(
                config,
                host,
                a5,
                events[5],
                stages[6],
                actions[5],
                header5,
                response5,
                topic_config,
                born_host,
                0,
                None,
            );
            let a6 = Session { stage: stages[6], ..s };
            assert(session::step(config, host, a6, events[6], stages[7], actions[6]));
            lemma_counted(
                config,
                host,
                s,
                stages,
                events,
                actions,
                6,
                reported,
                response,
                topic_config,
                born_host,
                0,
            );
            assert(at == 6) by {
                if at > 6 {
                    let a7 = Session { stage: stages[7], ..s };
                    assert(session::step(config, host, a7, events[7], stages[8], actions[7]));
                }
            }
        }
    }
}

/// A batch that was counted at `at` either goes to the store there, or ends its session.
proof fn lemma_counted(
    config: config::ConfigView,
    host: Seq<char>,
    s: Session,
    stages: Seq<Stage>,
    events: Seq<Event>,
    actions: Seq<Action>,
    at: int,
    reported: SendMessageRequestHeader,
    response: RemotingCommand,
    topic_config: TopicConfig,
    born_host: String,
    drawn: u32,
)
    requires
        1 <= at < actions.len(),
        session::step(
            config,
            host,
            Session { stage: stages[at], ..s },
            events[at],
            stages[at + 1],
            actions[at],
        ),
        stages[at] is Counting,
        step_laws::carried(reported, stages[at]->Counting_header),
        step_laws::same_response(stages[at]->Counting_response, response),
        response.code == -1,
        stages[at]->Counting_topic_config == topic_config,
        stages[at]->drawn_queue == drawn,
        stages[at]->Counting_born_host@ == born_host@,
        actions[at - 1] matches Action::CountInner { body } && step_laws::same_bytes(
            body,
            s.request.body,
        ),
        (reported.queue_id matches Some(id) ==> id < 0) ==> was_drawn(
            events,
            actions,
            topic_config,
            drawn,
        ),
    ensures
        stages[at + 1] is Storing || stages[at + 1] is Finished,
        actions[at] is Put ==> {
            &&& exists|kept: SendMessageRequestHeader, counted: Option<u32>| #[trigger]
                run_stores(
                    config,
                    host,
                    s,
                    events,
                    actions,
                    at,
                    reported,
                    kept,
                    topic_config,
                    born_host,
                    drawn,
                    counted,
                )
            &&& stages[at + 1] matches Stage::Storing {
                topic,
                queue_id,
                response: kept_response,
                response_header,
            }
            &&& topic@ == reported.topic@
            &&& queue_id == step_laws::message_in(actions[at]->input).message_ext_inner.queue_id
            &&& step_laws::same_response(response, kept_response)
        },
{
    let before = Session { stage: stages[at], ..s };
    let header = stages[at]->Counting_header;
    let counted = Some(events[at]->inner_num);
    let kept_host = stages[at]->Counting_born_host;
    let kept_response = stages[at]->Counting_response;
    step_laws::a_decision_refuses_counts_gives_up_or_stores(
        config,
        host,
        before,
        events[at],
        stages[at + 1],
        actions[at],
        header,
        kept_response,
        topic_config,
        kept_host,
        drawn,
        counted,
    );
    if actions[at] is Put {
        step_laws::a_step_stores_what_was_sent(
            config,
            host,
            before,
            events[at],
            stages[at + 1],
            actions[at]->input,
            actions[at]->in_background,
            header,
            kept_response,
            topic_config,
            kept_host,
            drawn,
            counted,
        );
        assert(run_stores(
            config,
            host,
            s,
            events,
            actions,
            at,
            reported,
            header,
            topic_config,
            born_host,
            drawn,
            counted,
        ));
    }
}

/// The message that a run stores has the topic, the flag, the birth time and the number of
/// consumptions of the header that the hooks reported, the body of the request and, where it is a
/// batch that the store takes apart, no flags taken away; it goes to the queue that the header
/// names. Where the header names none, and the host draws below what it is asked for, it goes to
/// one of the queues that the topic has for writing.
pub proof fn a_run_keeps_the_producers_data(
    config: config::ConfigView,
    host: Seq<char>,
    s: Session,
    stages: Seq<Stage>,
    events: Seq<Event>,
    actions: Seq<Action>,
    at: int,
)
    requires
        laws::is_run(config, host, s, stages, events, actions),
        0 <= at < actions.len(),
        actions[at] is Put,
    ensures
        ({
            let ext = step_laws::message_in(actions[at]->input).message_ext_inner;
            &&& events[2] matches Event::HooksRun { header: reported }
            &&& events[5] matches Event::TopicSelected { topic_config, born_host }
            &&& ext.message.topic@ == reported.topic@
            &&& ext.message.flag == reported.flag
            &&& ext.born_timestamp == reported.born_timestamp
            &&& ext.reconsume_times == (match reported.reconsume_times {
                Some(times) => times,
                None => 0,
            })
            &&& ext.born_host@ == born_host@
            &&& ext.store_host@ == host
            &&& step_laws::same_bytes(ext.message.body, s.request.body)
            &&& reported.batch == Some(true) ==> ext.sys_flag & reported.sys_flag
                == reported.sys_flag
            &&& reported.batch != Some(true) ==> ext.sys_flag == 0
            &&& match reported.queue_id {
                Some(id) => id >= 0 ==> ext.queue_id == id,
                None => true,
            }
            &&& (reported.queue_id matches Some(id) ==> id < 0) ==> {
                &&& actions[5] matches Action::DrawQueue { write_queue_nums }
                &&& write_queue_nums == topic_config.write_queue_nums
                &&& events[6] matches Event::QueueDrawn { queue_id: drawn }
                &&& ext.queue_id == step_laws::as_queue(drawn)
                &&& drawn < write_queue_nums <= i32::MAX ==> 0 <= ext.queue_id
                    < topic_config.write_queue_nums
            }
        }),
{
    a_run_stores_what_was_sent(config, host, s, stages, events, actions, at);
    let reported = events[2]->HooksRun_header;
    let topic_config = events[5]->TopicSelected_topic_config;
    let born_host = events[5]->TopicSelected_born_host;
    let (kept, drawn, counted) = choose|
        kept: SendMessageRequestHeader,
        drawn: u32,
        counted: Option<u32>,
    | #[trigger]
        run_stores(
            config,
            host,
            s,
            events,
            actions,
            at,
            reported,
            kept,
            topic_config,
            born_host,
            drawn,
            counted,
        );
    let given = reported.sys_flag;
    assert(given & given == given) by (bit_vector);
    assert((given | 0x2i32) & given == given) by (bit_vector);
    assert((given | 0x40i32 | 0x80i32) & given == given) by (bit_vector);
    assert((given | 0x2i32 | 0x40i32 | 0x80i32) & given == given) by (bit_vector);
}

/// The answer to a stored request goes back to its request as a response: it has the number, the
/// flag, the remark and the body of the response that the check reported, the code that the reply
/// of the store has, and names the message, its place and the queue that the message went to.
pub proof fn a_run_answers_what_was_stored(
    config: config::ConfigView,
    host: Seq<char>,
    s: Session,
    stages: Seq<Stage>,
    events: Seq<Event>,
    actions: Seq<Action>,
    at: int,
)
    requires
        laws::is_run(config, host, s, stages, events, actions),
        0 <= at < actions.len() - 1,
        actions[at] is Put,
    ensures
        actions.len() == at + 2,
        ({
            let ext = step_laws::message_in(actions[at]->input).message_ext_inner;
            &&& events[4] matches Event::Checked { response }
            &&& events[at + 1] matches Event::Stored { result }
            &&& step_laws::answers(stages[at + 2], actions[at + 1]) <==> {
                &&& step_laws::is_stored(result.put_message_status)
                &&& ext.message.topic@ != "SCHEDULE_TOPIC_XXXX"@
                &&& result.append_message_result is Some
            }
            &&& !step_laws::answers(stages[at + 2], actions[at + 1]) ==> actions[at + 1] is Abort
            &&& step_laws::answers(stages[at + 2], actions[at + 1]) ==> run_answers(
                response,
                ext.queue_id,
                result,
                step_laws::answer_of(actions[at + 1]),
            )
        }),
{
    a_run_stores_what_was_sent(config, host, s, stages, events, actions, at);
    a_run_keeps_the_producers_data(config, host, s, stages, events, actions, at);
    let before = Session { stage: stages[at + 1], ..s };
    assert(session::step(config, host, before, events[at + 1], stages[at + 2], actions[at + 1]));
    if let Stage::Storing { topic, queue_id, response, response_header } = stages[at + 1] {
        step_laws::a_reply_of_the_store_is_answered(
            config,
            host,
            before,
            topic,
            queue_id,
            response,
            response_header,
            events[at + 1]->result,
            stages[at + 2],
            actions[at + 1],
        );
    }
    step_laws::lemma_field_names();
    if actions.len() > at + 2 {
        let after = Session { stage: stages[at + 2], ..s };
        assert(session::step(config, host, after, events[at + 2], stages[at + 3], actions[at + 2]));
    }
}

/// An answer fits the response that it was made from, the queue of the message and the reply of
/// the store.
pub open spec fn run_answers(
    response: RemotingCommand,
    queue_id: i32,
    result: PutMessageResult,
    answer: RemotingCommand,
) -> bool {
    let appended = result.append_message_result->0;
    &&& answer.opaque == response.opaque
    &&& answer.flag == response.flag
    &&& answer.code == step_laws::code_of_stored(result.put_message_status)
    &&& step_laws::same_text(answer.remark, response.remark)
    &&& step_laws::same_bytes(answer.body, response.body)
    &&& answer.command_custom_header matches Some(header)
    &&& header.msg_id@ == appended.msg_id@
    &&& header.queue_id == queue_id
    &&& header.queue_offset == appended.logics_offset
    &&& answer.ext_fields matches Some(fields)
    &&& fields@.contains_key("msgId"@) && fields@["msgId"@] == appended.msg_id@
    &&& fields@.contains_key("queueId"@) && fields@["queueId"@] == text::signed_decimal(
        queue_id as int,
    )
    &&& fields@.contains_key("queueOffset"@) && fields@["queueOffset"@] == text::signed_decimal(
        appended.logics_offset as int,
    )
}

} // verus!
