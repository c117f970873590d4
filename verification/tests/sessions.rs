use std::sync::Arc;

use rocketmq_remoting::code::request_code::RequestCode;

use rocketmq_send::command::{
    RemotingCommand, SendMessageRequestHeader, SEND_BATCH_MESSAGE, SEND_MESSAGE_V2,
};
use rocketmq_send::config::{BrokerConfig, BrokerIdentity};
use rocketmq_send::processor::SendMessageProcessor;
use rocketmq_send::properties::Properties;
use rocketmq_send::session::{begin, Action, Event, Session, Stage};
use rocketmq_send::store::{AppendMessageResult, PutMessageResult, PutMessageStatus, StoreInput};
use rocketmq_send::topic::{TopicConfig, TopicFilterType};

fn config() -> BrokerConfig {
    BrokerConfig {
        broker_identity: BrokerIdentity { broker_cluster_name: "DefaultCluster".to_string() },
        broker_ip1: "127.0.0.1".to_string(),
        listen_port: 10911,
        region_id: "DefaultRegion".to_string(),
        trace_on: false,
        async_send_enable: false,
        reject_transaction_message: false,
        start_accept_send_request_time_stamp: 100,
    }
}

fn processor(config: BrokerConfig) -> SendMessageProcessor<u8, u8, u8, u8> {
    SendMessageProcessor::new(Arc::new(1), 2, Arc::new(config), &3)
}

fn session(code: i32, fields: Option<&[(&str, &str)]>, body: Option<Vec<u8>>) -> Session {
    Session {
        request_code: code,
        request: RemotingCommand {
            code,
            opaque: 41,
            flag: 0,
            remark: None,
            ext_fields: fields.map(|entries| {
                Properties::from_entries(
                    entries.iter().map(|(n, v)| (n.to_string(), v.to_string())).collect(),
                )
            }),
            body,
            command_custom_header: None,
        },
        stage: Stage::Received,
    }
}

fn topic(attributes: &[(&str, &str)]) -> TopicConfig {
    let mut table = Properties::new();
    for (name, value) in attributes {
        table.insert(name.to_string(), value.to_string());
    }
    TopicConfig {
        write_queue_nums: 8,
        topic_filter_type: TopicFilterType::SingleTag,
        attributes: table,
    }
}

fn parsed(code: i32, fields: &[(&str, &str)]) -> SendMessageRequestHeader {
    let p = processor(config());
    match p.process_request(session(code, Some(fields), None), Event::Start).1 {
        Action::Rewrite { header } => header,
        other => panic!("{:?}", other),
    }
}

/// Takes a session to the point where the topic is to be looked up.
fn selecting(
    p: &SendMessageProcessor<u8, u8, u8, u8>,
    code: i32,
    fields: &[(&str, &str)],
    body: Option<Vec<u8>>,
) -> Session {
    let (s, action) = p.process_request(session(code, Some(fields), body), Event::Start);
    let header = match action {
        Action::Rewrite { header } => header,
        other => panic!("{:?}", other),
    };
    let (s, action) = p.process_request(s, Event::Rewritten { header, reply: None });
    let header = match action {
        Action::RunHooks { header } => header,
        other => panic!("{:?}", other),
    };
    let (s, action) = p.process_request(s, Event::HooksRun { header });
    assert!(matches!(action, Action::ReadClock));
    let (s, action) = p.process_request(s, Event::Clock { now: 100 });
    let response = match action {
        Action::Check { response } => response,
        other => panic!("{:?}", other),
    };
    assert_eq!(response.code, -1);
    assert_eq!(response.opaque, 41);
    let (s, action) = p.process_request(s, Event::Checked { response });
    assert!(matches!(action, Action::SelectTopic));
    s
}

fn selected(topic_config: TopicConfig) -> Event {
    Event::TopicSelected { topic_config, born_host: "10.0.0.1:5".to_string() }
}

fn stored(status: PutMessageStatus) -> Event {
    Event::Stored {
        result: PutMessageResult {
            put_message_status: status,
            append_message_result: Some(AppendMessageResult {
                msg_id: "7F00".to_string(),
                logics_offset: 12,
            }),
        },
    }
}

fn answer(action: Action) -> RemotingCommand {
    match action {
        Action::Reply { reply } => reply.unwrap(),
        other => panic!("{:?}", other),
    }
}

#[test]
fn codes_of_short_headers() {
    assert_eq!(SEND_MESSAGE_V2, RequestCode::SendMessageV2.to_i32());
    assert_eq!(SEND_BATCH_MESSAGE, RequestCode::SendBatchMessage.to_i32());
}

#[test]
fn long_headers_are_read() {
    let header = parsed(
        10,
        &[
            ("ns", "space"),
            ("nsd", "true"),
            ("bname", "broker"),
            ("oway", "false"),
            ("lo", "True"),
            ("producerGroup", "group"),
            ("topic", "t"),
            ("defaultTopic", "d"),
            ("defaultTopicQueueNums", "4"),
            ("queueId", "-3"),
            ("sysFlag", "+5"),
            ("bornTimestamp", "9223372036854775807"),
            ("flag", "2147483648"),
            ("properties", "p"),
            ("reconsumeTimes", "2"),
            ("unitMode", "false"),
            ("batch", "true"),
            ("maxReconsumeTimes", "x"),
        ],
    );
    assert_eq!(header.ns, Some("space".to_string()));
    assert_eq!(header.nsd, Some(true));
    assert_eq!(header.bname, Some("broker".to_string()));
    assert_eq!(header.oway, Some(false));
    assert_eq!(header.lo, None);
    assert_eq!(header.producer_group, "group");
    assert_eq!(header.topic, "t");
    assert_eq!(header.default_topic, "d");
    assert_eq!(header.default_topic_queue_nums, 4);
    assert_eq!(header.queue_id, Some(-3));
    assert_eq!(header.sys_flag, 5);
    assert_eq!(header.born_timestamp, i64::MAX);
    assert_eq!(header.flag, 0);
    assert_eq!(header.properties, Some("p".to_string()));
    assert_eq!(header.reconsume_times, Some(2));
    assert_eq!(header.unit_mode, Some(false));
    assert_eq!(header.batch, Some(true));
    assert_eq!(header.max_reconsume_times, None);
}

#[test]
fn short_headers_are_read() {
    for code in [310, 320] {
        let header = parsed(
            code,
            &[
                ("ns", "space"),
                ("nsd", "true"),
                ("bname", "ignored"),
                ("oway", "false"),
                ("lo", "true"),
                ("a", "group"),
                ("b", "t"),
                ("c", "d"),
                ("d", "4"),
                ("e", "1"),
                ("f", "5"),
                ("g", "77"),
                ("h", "6"),
                ("i", "p"),
                ("j", "2"),
                ("k", "true"),
                ("l", "16"),
                ("m", "true"),
                ("n", "broker"),
                ("topic", "ignored"),
            ],
        );
        assert_eq!(header.ns, Some("space".to_string()));
        assert_eq!(header.nsd, Some(true));
        assert_eq!(header.bname, Some("broker".to_string()));
        assert_eq!(header.oway, Some(false));
        assert_eq!(header.lo, Some(true));
        assert_eq!(header.producer_group, "group");
        assert_eq!(header.topic, "t");
        assert_eq!(header.default_topic, "d");
        assert_eq!(header.default_topic_queue_nums, 4);
        assert_eq!(header.queue_id, Some(1));
        assert_eq!(header.sys_flag, 5);
        assert_eq!(header.born_timestamp, 77);
        assert_eq!(header.flag, 6);
        assert_eq!(header.properties, Some("p".to_string()));
        assert_eq!(header.reconsume_times, Some(2));
        assert_eq!(header.unit_mode, Some(true));
        assert_eq!(header.max_reconsume_times, Some(16));
        assert_eq!(header.batch, Some(true));
    }
}

#[test]
fn missing_fields_are_empty_or_zero() {
    for (code, queue_id) in [(10, None), (310, Some(0)), (320, Some(0))] {
        let header = parsed(code, &[]);
        assert_eq!(header.topic, "");
        assert_eq!(header.queue_id, queue_id);
        assert_eq!(header.born_timestamp, 0);
        assert_eq!(header.properties, None);
        assert_eq!(header.batch, None);
    }
    assert_eq!(parsed(10, &[("queueId", "x")]).queue_id, None);
    assert_eq!(parsed(10, &[("queueId", "0")]).queue_id, Some(0));
}

#[test]
fn a_queue_is_drawn_for_a_request_that_names_none() {
    let p = processor(config());
    let s = selecting(&p, 10, &[("topic", "t")], None);
    let (s, action) = p.process_request(s, selected(topic(&[])));
    assert!(matches!(action, Action::DrawQueue { write_queue_nums: 8 }));
    let (_, action) = p.process_request(s, Event::QueueDrawn { queue_id: 5 });
    match action {
        Action::Put { input: StoreInput::Message(message), .. } => {
            assert_eq!(message.message_ext_inner.queue_id, 5);
        }
        other => panic!("{:?}", other),
    }
}

#[test]
fn requests_without_fields_are_not_answered() {
    let p = processor(config());
    let (s, action) = p.process_request(session(10, None, None), Event::Start);
    assert!(matches!(action, Action::Reply { reply: None }));
    assert!(matches!(s.stage, Stage::Finished));
    assert!(matches!(begin(None).1, Action::Reply { reply: None }));
}

#[test]
fn messages_are_taken_back() {
    let p = processor(config());
    let (s, action) = p.process_request(session(36, None, None), Event::Start);
    assert!(matches!(action, Action::TakeBack));
    assert!(matches!(s.stage, Stage::Finished));
}

#[test]
fn rewriting_may_answer() {
    let p = processor(config());
    let (s, action) = p.process_request(session(10, Some(&[]), None), Event::Start);
    let header = match action {
        Action::Rewrite { header } => header,
        other => panic!("{:?}", other),
    };
    let reply = RemotingCommand::create_response_command(7).set_code(501);
    let (s, action) = p.process_request(s, Event::Rewritten { header, reply: Some(reply) });
    let reply = answer(action);
    assert_eq!(reply.code, 501);
    assert_eq!(reply.opaque, 7);
    assert!(matches!(s.stage, Stage::Finished));
}

#[test]
fn too_early_ends_the_session() {
    let p = processor(config());
    let header = parsed(10, &[]);
    let mut s = session(10, Some(&[]), None);
    s.stage = Stage::Timing { header };
    let (s, action) = p.process_request(s, Event::Clock { now: 99 });
    let reply = answer(action);
    assert_eq!(reply.code, 1);
    assert_eq!(
        reply.remark,
        Some("broker unable to service, until 1970-01-01 00:00:00,100".to_string())
    );
    assert!(matches!(s.stage, Stage::Finished));
}

#[test]
fn a_start_without_a_date_is_given_up() {
    for start in [i64::MIN, i64::MAX, -8334601228800001, 8210266876800000] {
        let mut c = config();
        c.start_accept_send_request_time_stamp = start;
        let p = processor(c);
        let mut s = session(10, Some(&[]), None);
        s.stage = Stage::Timing { header: parsed(10, &[]) };
        let (s, action) = p.process_request(s, Event::Clock { now: 0 });
        assert!(matches!(action, Action::Abort));
        assert!(matches!(s.stage, Stage::Finished));
    }
}

#[test]
fn a_failed_check_ends_the_session() {
    let p = processor(config());
    let mut s = session(10, Some(&[]), None);
    s.stage = Stage::Checking { header: parsed(10, &[]) };
    let response = RemotingCommand::create_response_command(41).set_code(17);
    let (_, action) = p.process_request(s, Event::Checked { response });
    assert_eq!(answer(action).code, 17);
}

#[test]
fn a_message_is_sent() {
    let p = processor(config());
    let fields =
        [("topic", "t"), ("queueId", "3"), ("properties", "POP_CK\u{1}x\u{2}a\u{1}b"), ("batch", "false")];
    let s = selecting(&p, 10, &fields, Some(vec![1]));
    let (s, action) = p.process_request(s, selected(topic(&[])));
    let message = match action {
        Action::Put { input: StoreInput::Message(message), in_background: false } => message,
        other => panic!("{:?}", other),
    };
    assert_eq!(message.message_ext_inner.queue_id, 3);
    assert_eq!(message.message_ext_inner.message.topic, "t");
    assert_eq!(
        message.message_ext_inner.message.properties.get("POP_CK"),
        Some(&"x".to_string())
    );
    assert_eq!(message.message_ext_inner.message.properties.get("a"), None);
    let (s, action) = p.process_request(s, stored(PutMessageStatus::PutOk));
    let reply = answer(action);
    assert_eq!(reply.code, 0);
    assert_eq!(reply.opaque, 41);
    assert_eq!(reply.ext_fields.unwrap().get("queueId"), Some(&"3".to_string()));
    assert!(matches!(s.stage, Stage::Finished));
    assert_eq!(s.request_code, 10);
}

#[test]
fn a_queue_is_drawn() {
    let p = processor(config());
    let s = selecting(&p, 310, &[("b", "t"), ("e", "-1")], None);
    let (s, action) = p.process_request(s, selected(topic(&[])));
    assert!(matches!(action, Action::DrawQueue { write_queue_nums: 8 }));
    let (s, action) = p.process_request(s, Event::QueueDrawn { queue_id: 6 });
    match action {
        Action::Put { input: StoreInput::Message(message), .. } => {
            assert_eq!(message.message_ext_inner.queue_id, 6);
            assert_eq!(message.message_ext_inner.message.body, None);
        }
        other => panic!("{:?}", other),
    }
    let (_, action) = p.process_request(s, stored(PutMessageStatus::SlaveNotAvailable));
    let reply = answer(action);
    assert_eq!(reply.code, 11);
    assert_eq!(reply.ext_fields.unwrap().get("queueId"), Some(&"6".to_string()));
}

#[test]
fn a_batch_is_sent() {
    let mut c = config();
    c.async_send_enable = true;
    let p = processor(c);
    let body = vec![0, 0, 0, 4, 0, 0, 0, 4, 0, 0, 0, 4];
    let fields = [("b", "t"), ("m", "true"), ("i", "UNIQ_KEY\u{1}id")];
    let s = selecting(&p, 320, &fields, Some(body.clone()));
    let (s, action) = p.process_request(s, selected(topic(&[("queue.type", "BatchCQ")])));
    match action {
        Action::CountInner { body: Some(counted) } => assert_eq!(counted, body),
        other => panic!("{:?}", other),
    }
    let (s, action) = p.process_request(s, Event::InnerCounted { inner_num: 3 });
    match action {
        Action::Put { input: StoreInput::Message(message), in_background: true } => {
            assert_eq!(
                message.message_ext_inner.message.properties.get("INNER_NUM"),
                Some(&"3".to_string())
            );
        }
        other => panic!("{:?}", other),
    }
    let (_, action) = p.process_request(s, stored(PutMessageStatus::PutOk));
    let reply = answer(action);
    assert_eq!(reply.ext_fields.unwrap().get("batchUniqId"), Some(&"id".to_string()));

    let s = selecting(&p, 320, &fields, Some(vec![9]));
    let (_, action) = p.process_request(s, selected(topic(&[])));
    assert!(matches!(
        action,
        Action::Put { input: StoreInput::Batch(_), in_background: true }
    ));
}

#[test]
fn a_batch_is_counted_in_the_queue_that_was_drawn() {
    let p = processor(config());
    let fields = [("b", "t"), ("e", "-1"), ("m", "true"), ("i", "UNIQ_KEY\u{1}id")];
    let s = selecting(&p, 320, &fields, None);
    let (s, action) = p.process_request(s, selected(topic(&[("queue.type", "BatchCQ")])));
    assert!(matches!(action, Action::DrawQueue { .. }));
    let (s, action) = p.process_request(s, Event::QueueDrawn { queue_id: 6 });
    assert!(matches!(action, Action::CountInner { body: None }));
    let (s, action) = p.process_request(s, Event::InnerCounted { inner_num: 0 });
    match action {
        Action::Put { input: StoreInput::Message(message), in_background: false } => {
            assert_eq!(message.message_ext_inner.queue_id, 6);
            assert_eq!(
                message.message_ext_inner.message.properties.get("INNER_NUM"),
                Some(&"0".to_string())
            );
        }
        other => panic!("{:?}", other),
    }
    let (s, action) = p.process_request(s, stored(PutMessageStatus::PutOk));
    assert_eq!(answer(action).ext_fields.unwrap().get("queueId"), Some(&"6".to_string()));
    assert!(matches!(s.stage, Stage::Finished));
}

#[test]
fn refusals_end_the_session() {
    let p = processor(config());
    let s = selecting(&p, 320, &[("b", "%RETRY%g"), ("m", "true")], None);
    let (s, action) = p.process_request(s, selected(topic(&[])));
    assert_eq!(
        answer(action).remark,
        Some("batch request does not support retry group  %RETRY%g".to_string())
    );
    assert!(matches!(s.stage, Stage::Finished));
    let s = selecting(&p, 310, &[("b", "t"), ("i", "KEYS\u{1} ")], None);
    let (_, action) = p.process_request(s, selected(topic(&[("cleanup.policy", "compaction")])));
    assert_eq!(answer(action).code, 13);
    let s = selecting(&p, 310, &[("b", "%RETRY%g")], None);
    let (_, action) = p.process_request(s, selected(topic(&[])));
    assert!(matches!(action, Action::Put { .. }));
}

#[test]
fn what_is_not_provided_for_is_given_up() {
    let p = processor(config());
    let s = selecting(&p, 310, &[("b", "t")], None);
    let (s, action) = p.process_request(s, selected(topic(&[("cleanup.policy", "keep")])));
    assert!(matches!(action, Action::Abort));
    assert!(matches!(s.stage, Stage::Finished));

    for (topic_name, status) in [
        ("t", PutMessageStatus::MessageIllegal),
        ("t", PutMessageStatus::Other),
        ("SCHEDULE_TOPIC_XXXX", PutMessageStatus::PutOk),
    ] {
        let s = selecting(&p, 310, &[("b", topic_name)], None);
        let (s, _) = p.process_request(s, selected(topic(&[])));
        let (_, action) = p.process_request(s, stored(status));
        assert!(matches!(action, Action::Abort));
    }

    let s = selecting(&p, 310, &[("b", "t")], None);
    let (s, _) = p.process_request(s, selected(topic(&[])));
    let result = PutMessageResult {
        put_message_status: PutMessageStatus::PutOk,
        append_message_result: None,
    };
    let (_, action) = p.process_request(s, Event::Stored { result });
    assert!(matches!(action, Action::Abort));
}

#[test]
fn transactions_in_the_background_are_given_up() {
    let mut c = config();
    c.async_send_enable = true;
    let p = processor(c);
    let s = selecting(&p, 310, &[("b", "t"), ("i", "TRAN_MSG\u{1}true")], None);
    let (_, action) = p.process_request(s, selected(topic(&[])));
    assert!(matches!(action, Action::Abort));
    let s = selecting(&p, 310, &[("b", "t"), ("i", "TRAN_MSG\u{1}true\u{2}KEYS\u{1} ")], None);
    let (_, action) = p.process_request(s, selected(topic(&[("cleanup.policy", "COMPACTION")])));
    assert_eq!(answer(action).code, 13);
    let mut c = config();
    c.async_send_enable = true;
    c.reject_transaction_message = true;
    let p = processor(c);
    let s = selecting(&p, 310, &[("b", "t"), ("i", "TRAN_MSG\u{1}true")], None);
    let (_, action) = p.process_request(s, selected(topic(&[])));
    assert_eq!(answer(action).code, 16);
    let p = processor(config());
    let s = selecting(&p, 310, &[("b", "t"), ("i", "TRAN_MSG\u{1}true")], None);
    let (_, action) = p.process_request(s, selected(topic(&[])));
    assert!(matches!(action, Action::Put { in_background: false, .. }));
}
