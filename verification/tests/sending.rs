use std::sync::Arc;

use rocketmq_send::command::{RemotingCommand, SendMessageRequestHeader, SendMessageResponseHeader};
use rocketmq_send::config::{BrokerConfig, BrokerIdentity};
use rocketmq_send::message::MessageExtBrokerInner;
use rocketmq_send::processor::{
    needs_queue_draw, refuse_until, PutPlan, SendMessageProcessor, SendOutcome, MAX_DATE_MILLIS, MIN_DATE_MILLIS,
};
use rocketmq_send::properties::Properties;
use rocketmq_send::store::{AppendMessageResult, PutMessageResult, PutMessageStatus, StoreInput};
use rocketmq_send::topic::{TopicConfig, TopicFilterType};

fn config() -> BrokerConfig {
    BrokerConfig {
        broker_identity: BrokerIdentity { broker_cluster_name: "DefaultCluster".to_string() },
        broker_ip1: "127.0.0.1".to_string(),
        listen_port: 10911,
        region_id: "DefaultRegion".to_string(),
        trace_on: true,
        async_send_enable: false,
        reject_transaction_message: false,
        start_accept_send_request_time_stamp: 0,
    }
}

fn processor(config: BrokerConfig) -> SendMessageProcessor<u8, u8, u8, u8> {
    SendMessageProcessor::new(Arc::new(1), 2, Arc::new(config), &3)
}

fn header(topic: &str, properties: Option<&str>) -> SendMessageRequestHeader {
    SendMessageRequestHeader {
        ns: None,
        nsd: None,
        bname: None,
        oway: None,
        lo: None,
        producer_group: "group".to_string(),
        topic: topic.to_string(),
        default_topic: "TBW102".to_string(),
        default_topic_queue_nums: 4,
        queue_id: Some(2),
        sys_flag: 5,
        born_timestamp: 77,
        flag: 6,
        properties: properties.map(|s| s.to_string()),
        reconsume_times: None,
        unit_mode: None,
        batch: None,
        max_reconsume_times: None,
    }
}

fn request(body: Option<Vec<u8>>) -> RemotingCommand {
    RemotingCommand {
        code: 10,
        opaque: 41,
        flag: 0,
        remark: None,
        ext_fields: None,
        body,
        command_custom_header: None,
    }
}

fn undecided() -> RemotingCommand {
    RemotingCommand::create_response_command(41).set_code(-1)
}

fn topic(attributes: &[(&str, &str)], filter: TopicFilterType) -> TopicConfig {
    let mut table = Properties::new();
    for (name, value) in attributes {
        table.insert(name.to_string(), value.to_string());
    }
    TopicConfig { write_queue_nums: 8, topic_filter_type: filter, attributes: table }
}

fn send(
    config: BrokerConfig,
    header: &SendMessageRequestHeader,
    topic_config: &TopicConfig,
    drawn: u32,
) -> SendOutcome {
    processor(config).send_message(
        &request(Some(vec![1, 2, 3])),
        header,
        undecided(),
        topic_config,
        drawn,
        "10.0.0.1:5".to_string(),
    )
}

fn send_batch(
    header: &SendMessageRequestHeader,
    body: Option<Vec<u8>>,
    topic_config: &TopicConfig,
) -> SendOutcome {
    send_counted_batch(header, body, topic_config, 0)
}

fn send_counted_batch(
    header: &SendMessageRequestHeader,
    body: Option<Vec<u8>>,
    topic_config: &TopicConfig,
    inner_num: u32,
) -> SendOutcome {
    processor(config()).send_batch_message(
        &request(body),
        header,
        undecided(),
        topic_config,
        0,
        "10.0.0.1:5".to_string(),
        inner_num,
    )
}

fn refused(outcome: SendOutcome) -> RemotingCommand {
    match outcome {
        SendOutcome::Refused(response) => response,
        SendOutcome::Put(_) => panic!("not refused"),
    }
}

fn put(outcome: SendOutcome) -> PutPlan {
    match outcome {
        SendOutcome::Refused(response) => panic!("refused: {:?}", response),
        SendOutcome::Put(plan) => plan,
    }
}

fn single(input: StoreInput) -> MessageExtBrokerInner {
    match input {
        StoreInput::Message(message) => message,
        StoreInput::Batch(_) => panic!("a batch"),
    }
}

fn pieces(text: &str) -> Vec<String> {
    let mut pieces: Vec<String> = text.split('\u{2}').map(|s| s.to_string()).collect();
    pieces.sort();
    pieces
}

#[test]
fn a_new_processor_has_its_address_and_no_hooks() {
    let p = processor(config());
    assert_eq!(p.store_host(), "127.0.0.1:10911");
    assert!(p.has_send_message_hook());
    assert_eq!(*p.message_store(), 3);
    assert_eq!(*p.topic_queue_mapping_manager(), 1);
    assert_eq!(p.inner.topic_config_manager, 2);
    assert!(p.inner.send_message_hook_vec.is_empty());
    assert_eq!(p.inner.broker_config.broker_ip1, "127.0.0.1");
    assert_eq!(p.broker_config().broker_ip1, "127.0.0.1");
    let given = Arc::new(config());
    let p: SendMessageProcessor<u8, u8, u8, u8> =
        SendMessageProcessor::new(Arc::new(1), 2, given.clone(), &3);
    assert!(Arc::ptr_eq(&p.inner.broker_config, &given));
    assert!(Arc::ptr_eq(&p.clone().inner.broker_config, &given));
    let mut small = config();
    small.listen_port = 0;
    assert_eq!(processor(small).store_host(), "127.0.0.1:0");
    let mut p = p;
    *p.message_store_mut() = 9;
    assert_eq!(*p.message_store(), 9);
}

#[test]
fn hooks_are_noticed() {
    let mut p = processor(config());
    p.inner.send_message_hook_vec = Arc::new(vec![9]);
    assert!(!p.has_send_message_hook());
    let copy = p.clone();
    assert!(!copy.has_send_message_hook());
    assert_eq!(copy.store_host(), p.store_host());
    assert_eq!(*copy.message_store(), 3);
    assert_eq!(copy.broker_config().broker_ip1, "127.0.0.1");
}

#[test]
fn a_moment_in_words_is_named_in_the_refusal() {
    let response = refuse_until(undecided(), "noon");
    assert_eq!(response.code, 1);
    assert_eq!(response.opaque, 41);
    assert_eq!(response.remark, Some("broker unable to service, until noon".to_string()));
}

#[test]
fn too_early_is_refused_with_the_date() {
    let mut c = config();
    c.start_accept_send_request_time_stamp = 1704067200123;
    let p = processor(c);
    assert!(p.is_too_early(1704067200122));
    let response = p.pre_send(&request(None), 1704067200122);
    assert_eq!(response.code, 1);
    assert_eq!(response.opaque, 41);
    assert_eq!(
        response.remark,
        Some("broker unable to service, until 2024-01-01 00:00:00,123".to_string())
    );
    assert!(!p.is_too_early(1704067200123));
    let response = p.pre_send(&request(None), 1704067200123);
    assert_eq!(response.code, -1);
    assert_eq!(response.opaque, 41);
    assert_eq!(response.flag, 1);
    assert_eq!(response.remark, None);
    assert!(response.ext_fields.is_none());
}

#[test]
fn a_start_below_zero_is_far_in_the_future() {
    let mut c = config();
    c.start_accept_send_request_time_stamp = -1;
    let p = processor(c);
    let response = p.pre_send(&request(None), 5);
    assert_eq!(
        response.remark,
        Some("broker unable to service, until 1969-12-31 23:59:59,999".to_string())
    );
    assert_eq!(p.pre_send(&request(None), u64::MAX).code, -1);
}

#[test]
fn the_first_and_the_last_date_can_be_written() {
    for start in [MIN_DATE_MILLIS, MAX_DATE_MILLIS] {
        let mut c = config();
        c.start_accept_send_request_time_stamp = start;
        let response = processor(c).pre_send(&request(None), 0);
        assert_eq!(response.code, 1);
        assert!(response.remark.is_some());
    }
}

#[test]
fn only_pieces_of_the_check_point_are_left() {
    let mut h = header("t", Some("a\u{1}b\u{2}POP_CK\u{1}x\u{2}c\u{1}d"));
    SendMessageProcessor::<u8, u8, u8, u8>::clear_reserved_properties(&mut h);
    assert_eq!(h.properties, Some("POP_CK\u{1}x".to_string()));
    SendMessageProcessor::<u8, u8, u8, u8>::clear_reserved_properties(&mut h);
    assert_eq!(h.properties, Some("POP_CK\u{1}x".to_string()));
    let mut h = header("t", Some("a\u{1}b\u{2}"));
    SendMessageProcessor::<u8, u8, u8, u8>::clear_reserved_properties(&mut h);
    assert_eq!(h.properties, Some("a\u{1}b\u{2}".to_string()));
    let mut h = header("t", Some("a\u{1}POP_CK\u{2}POP_CK1\u{1}x\u{2}POP_CK\u{1}y"));
    SendMessageProcessor::<u8, u8, u8, u8>::clear_reserved_properties(&mut h);
    assert_eq!(h.properties, Some("POP_CK1\u{1}x\u{2}POP_CK\u{1}y".to_string()));
    let mut h = header("t", Some("a\u{1}POP_CK"));
    SendMessageProcessor::<u8, u8, u8, u8>::clear_reserved_properties(&mut h);
    assert_eq!(h.properties, Some("".to_string()));
    let mut h = header("t", None);
    SendMessageProcessor::<u8, u8, u8, u8>::clear_reserved_properties(&mut h);
    assert_eq!(h.properties, None);
}

#[test]
fn a_single_message_goes_to_the_store() {
    let text = "TAGS\u{1}hello world\u{2}bad\u{2}\u{1}x\u{2}empty\u{1}\u{2}a\u{1}1\u{2}a\u{1}2\u{1}3";
    let mut h = header("topic", Some(text));
    h.reconsume_times = Some(3);
    let plan = put(send(config(), &h, &topic(&[], TopicFilterType::MultiTag), 0));
    assert!(!plan.in_background);
    assert_eq!(plan.topic, "topic");
    assert_eq!(plan.queue_id, 2);
    assert_eq!(plan.response.code, -1);
    assert_eq!(plan.response_header.msg_id, "");
    assert_eq!(plan.response_header.batch_uniq_id, None);
    let message = single(plan.input);
    assert_eq!(message.tags_code, 1794106052);
    assert_eq!(
        pieces(message.properties_string.as_str()),
        vec!["", "CLUSTER\u{1}DefaultCluster", "TAGS\u{1}hello world", "a\u{1}2\u{1}3"]
    );
    let ext = message.message_ext_inner;
    assert_eq!(ext.queue_id, 2);
    assert_eq!(ext.sys_flag, 0);
    assert_eq!(ext.born_timestamp, 77);
    assert_eq!(ext.born_host, "10.0.0.1:5");
    assert_eq!(ext.store_host, "127.0.0.1:10911");
    assert_eq!(ext.reconsume_times, 3);
    assert_eq!(ext.message.topic, "topic");
    assert_eq!(ext.message.flag, 6);
    assert_eq!(ext.message.body, Some(vec![1, 2, 3]));
    assert_eq!(ext.message.properties.entries().len(), 3);
    assert_eq!(ext.message.properties.get("a"), Some(&"2\u{1}3".to_string()));
    assert_eq!(ext.message.properties.get("CLUSTER"), Some(&"DefaultCluster".to_string()));
}

#[test]
fn stored_properties_can_be_read_back() {
    let h = header("topic", Some("a\u{1}1\u{2}b\u{1}2\u{2}KEYS\u{1}k"));
    let plan = put(send(config(), &h, &topic(&[], TopicFilterType::SingleTag), 0));
    let message = single(plan.input);
    let again = header("topic", Some(message.properties_string.as_str()));
    let plan = put(send(config(), &again, &topic(&[], TopicFilterType::SingleTag), 0));
    let copy = single(plan.input).message_ext_inner.message.properties;
    for (name, value) in message.message_ext_inner.message.properties.entries() {
        assert_eq!(copy.get(name.as_str()), Some(value));
    }
    assert_eq!(copy.entries().len(), 4);
}

#[test]
fn an_empty_cluster_name_is_not_read_back() {
    let mut c = config();
    c.broker_identity.broker_cluster_name = "".to_string();
    let plan = put(send(c, &header("t", None), &topic(&[], TopicFilterType::SingleTag), 0));
    assert_eq!(single(plan.input).properties_string, "CLUSTER\u{1}\u{2}");
}

#[test]
fn tags_codes() {
    for (tags, code) in [("a", 97), ("ab", 3105), ("\u{1f600}", 128512), ("zzzzzz", -685785664)] {
        let h = header("t", Some(format!("TAGS\u{1}{}", tags).as_str()));
        let plan = put(send(config(), &h, &topic(&[], TopicFilterType::SingleTag), 0));
        assert_eq!(single(plan.input).tags_code, code);
    }
    let plan = put(send(config(), &header("t", None), &topic(&[], TopicFilterType::SingleTag), 0));
    assert_eq!(single(plan.input).tags_code, 0);
}

#[test]
fn queues_are_drawn_where_none_is_named() {
    let t = topic(&[], TopicFilterType::SingleTag);
    for (queue_id, drawn, expected) in
        [(None, 7, 7), (Some(-1), 7, 7), (Some(0), 7, 0), (Some(4), 7, 4), (None, u32::MAX, -1)]
    {
        let mut h = header("t", None);
        h.queue_id = queue_id;
        assert_eq!(needs_queue_draw(queue_id), queue_id.map_or(true, |id| id < 0));
        let plan = put(send(config(), &h, &t, drawn));
        assert_eq!(plan.queue_id, expected);
        assert_eq!(single(plan.input).message_ext_inner.queue_id, expected);
    }
}

#[test]
fn compacted_topics_refuse_blank_keys() {
    for policy in ["COMPACTION", "compaction", "Compact\u{131}on"] {
        let t = topic(&[("cleanup.policy", policy)], TopicFilterType::SingleTag);
        let response = refused(send(config(), &header("t", Some("KEYS\u{1} \t")), &t, 0));
        assert_eq!(response.code, 13);
        assert_eq!(response.remark, Some("Required message key is missing".to_string()));
        put(send(config(), &header("t", Some("KEYS\u{1} k")), &t, 0));
        put(send(config(), &header("t", None), &t, 0));
    }
    let t = topic(&[("cleanup.policy", "delete")], TopicFilterType::SingleTag);
    put(send(config(), &header("t", Some("KEYS\u{1} \t")), &t, 0));
}

#[test]
fn transactions_can_be_forbidden() {
    let t = topic(&[], TopicFilterType::SingleTag);
    let mut c = config();
    c.reject_transaction_message = true;
    let response = refused(send(c, &header("t", Some("TRAN_MSG\u{1}true")), &t, 0));
    assert_eq!(response.code, 16);
    assert_eq!(
        response.remark,
        Some("the broker[127.0.0.1] sending transaction message is forbidden".to_string())
    );
    for text in ["TRAN_MSG\u{1}True", "TRAN_MSG\u{1}false", "TRAN_MSG\u{1}true "] {
        let mut c = config();
        c.reject_transaction_message = true;
        put(send(c, &header("t", Some(text)), &t, 0));
    }
    let mut c = config();
    c.reject_transaction_message = true;
    let mut h = header("t", Some("TRAN_MSG\u{1}true\u{2}DELAY\u{1}1"));
    h.reconsume_times = Some(1);
    put(send(c, &h, &t, 0));
    h.reconsume_times = Some(0);
    let mut c = config();
    c.reject_transaction_message = true;
    assert_eq!(refused(send(c, &h, &t, 0)).code, 16);
    put(send(config(), &h, &t, 0));
}

#[test]
fn messages_are_stored_in_the_background_where_asked_for() {
    let mut c = config();
    c.async_send_enable = true;
    let t = topic(&[], TopicFilterType::SingleTag);
    assert!(put(send(c, &header("t", None), &t, 0)).in_background);
}

#[test]
fn a_refusal_stays() {
    let refusal = || RemotingCommand::create_response_command(7).set_code(17);
    let p = processor(config());
    let body = Some(vec![1]);
    let t = topic(&[("cleanup.policy", "keep")], TopicFilterType::SingleTag);
    let h = header("%RETRY%g", Some("KEYS\u{1} "));
    let host = "10.0.0.1:5".to_string();
    let response =
        refused(p.send_message(&request(body.clone()), &h, refusal(), &t, 0, host.clone()));
    assert_eq!(response.code, 17);
    assert_eq!(response.opaque, 7);
    assert_eq!(response.remark, None);
    let response = refused(p.send_batch_message(&request(body), &h, refusal(), &t, 0, host, 1));
    assert_eq!(response.code, 17);
    assert_eq!(response.opaque, 7);
    assert_eq!(response.remark, None);
}

#[test]
fn batches_with_bad_topics_are_refused() {
    let t = topic(&[], TopicFilterType::SingleTag);
    let long = "x".repeat(128);
    let response = refused(send_batch(&header(long.as_str(), None), None, &t));
    assert_eq!(response.code, 13);
    assert_eq!(response.remark, Some("message topic length too long 128".to_string()));
    let wide = "\u{e9}".repeat(64);
    let response = refused(send_batch(&header(wide.as_str(), None), None, &t));
    assert_eq!(response.remark, Some("message topic length too long 128".to_string()));
    put(send_batch(&header("x".repeat(127).as_str(), None), None, &t));
    let response = refused(send_batch(&header("%RETRY%g", None), None, &t));
    assert_eq!(response.code, 13);
    assert_eq!(
        response.remark,
        Some("batch request does not support retry group  %RETRY%g".to_string())
    );
    put(send_batch(&header("", None), None, &t));
}

#[test]
fn a_batch_is_taken_apart_by_the_store() {
    let h = header("topic", Some("UNIQ_KEY\u{1}id\u{2}TAGS\u{1}x"));
    let plan = put(send_batch(&h, Some(vec![9]), &topic(&[], TopicFilterType::MultiTag)));
    assert_eq!(plan.response_header.batch_uniq_id, None);
    let batch = match plan.input {
        StoreInput::Batch(batch) => batch,
        StoreInput::Message(_) => panic!("one message"),
    };
    assert!(!batch.is_inner_batch);
    let message = batch.message_ext_broker_inner;
    assert_eq!(message.properties_string, "");
    assert_eq!(message.tags_code, 0);
    let ext = message.message_ext_inner;
    assert_eq!(ext.sys_flag, 7);
    assert_eq!(ext.message.body, Some(vec![9]));
    assert_eq!(ext.message.properties.get("CLUSTER"), Some(&"DefaultCluster".to_string()));
    assert_eq!(ext.message.properties.get("INNER_NUM"), None);
}

#[test]
fn a_batch_is_stored_as_one_message() {
    let body = vec![0, 0, 0, 5, 1, 0, 0, 0, 4];
    for kind in ["BatchCQ", "batchcq"] {
        let t = topic(&[("queue.type", kind)], TopicFilterType::SingleTag);
        let h = header("topic", Some("UNIQ_KEY\u{1}id"));
        assert!(processor(config()).is_stored_as_one(&h, &t));
        let plan = put(send_counted_batch(&h, Some(body.clone()), &t, 2));
        assert_eq!(plan.response_header.batch_uniq_id, Some("id".to_string()));
        let message = single(plan.input);
        assert_eq!(message.message_ext_inner.sys_flag, 5 | 64 | 128);
        assert_eq!(
            pieces(message.properties_string.as_str()),
            vec!["", "CLUSTER\u{1}DefaultCluster", "INNER_NUM\u{1}2", "UNIQ_KEY\u{1}id"]
        );
    }
    let t = topic(&[("queue.type", "BatchCQ")], TopicFilterType::SingleTag);
    let plan = put(send_batch(&header("topic", None), Some(vec![0]), &t));
    assert!(matches!(plan.input, StoreInput::Batch(_)));
    let t = topic(&[("queue.type", "SimpleCQ")], TopicFilterType::SingleTag);
    let plan = put(send_batch(&header("topic", Some("UNIQ_KEY\u{1}id")), Some(vec![0]), &t));
    assert!(matches!(plan.input, StoreInput::Batch(_)));
}

#[test]
fn a_stored_message_is_answered() {
    let p = processor(config());
    let result = PutMessageResult {
        put_message_status: PutMessageStatus::FlushDiskTimeout,
        append_message_result: Some(AppendMessageResult {
            msg_id: "7F00".to_string(),
            logics_offset: 12,
        }),
    };
    assert!(SendMessageProcessor::<u8, u8, u8, u8>::is_answerable(&result, "t"));
    assert!(!SendMessageProcessor::<u8, u8, u8, u8>::is_answerable(&result, "SCHEDULE_TOPIC_XXXX"));
    let mut response_header = SendMessageResponseHeader::default();
    response_header.batch_uniq_id = Some("b".to_string());
    let answer = p.handle_put_message_result(result, undecided(), "t", 4, response_header).unwrap();
    assert_eq!(answer.code, 10);
    assert_eq!(answer.opaque, 41);
    let fields = answer.ext_fields.unwrap();
    assert_eq!(fields.entries().len(), 4);
    assert_eq!(fields.get("msgId"), Some(&"7F00".to_string()));
    assert_eq!(fields.get("queueId"), Some(&"4".to_string()));
    assert_eq!(fields.get("queueOffset"), Some(&"12".to_string()));
    assert_eq!(fields.get("batchUniqId"), Some(&"b".to_string()));
    let header = answer.command_custom_header.unwrap();
    assert_eq!(header.queue_id, 4);
    assert_eq!(header.queue_offset, 12);
}
