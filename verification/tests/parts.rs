use std::sync::Arc;

use rocketmq_common::common::message::MessageConst;
use rocketmq_common::common::mix_all;
use rocketmq_common::common::sys_flag::message_sys_flag::MessageSysFlag;
use rocketmq_common::common::topic::TopicValidator;
use rocketmq_common::TopicAttributes;
use rocketmq_remoting::code::request_code::RequestCode;
use rocketmq_remoting::code::response_code::{RemotingSysResponseCode, ResponseCode};

use rocketmq_send::command::{
    RemotingCommand, SendMessageResponseHeader, CONSUMER_SEND_MSG_BACK, FLUSH_DISK_TIMEOUT,
    FLUSH_SLAVE_TIMEOUT, MESSAGE_ILLEGAL, NO_PERMISSION, RESPONSE_FLAG, SERVICE_NOT_AVAILABLE,
    SLAVE_NOT_AVAILABLE, SUCCESS, SYSTEM_ERROR,
};
use rocketmq_send::dispatcher::CommitLogDispatcherBuildConsumeQueue;
use rocketmq_send::message::{
    get_delay_time_level, get_uniq_id, Message, INNER_BATCH_FLAG, MULTI_TAGS_FLAG, NEED_UNWRAP_FLAG, PROPERTY_CLUSTER,
    PROPERTY_DELAY_TIME_LEVEL, PROPERTY_INNER_NUM, PROPERTY_KEYS, PROPERTY_MSG_REGION,
    PROPERTY_POP_CK, PROPERTY_TAGS, PROPERTY_TRACE_SWITCH, PROPERTY_TRANSACTION_PREPARED,
    PROPERTY_UNIQ_CLIENT_MESSAGE_ID_KEYIDX,
};
use rocketmq_send::properties::{
    string_to_message_properties, Properties, NAME_VALUE_SEPARATOR, PROPERTY_SEPARATOR,
};
use rocketmq_send::store::{answer_status, PutMessageStatus};
use rocketmq_send::text::{is_blank, same_text, starts_with};
use rocketmq_send::topic::{
    is_policy_known, CLEANUP_POLICY_ATTRIBUTE, QUEUE_TYPE_ATTRIBUTE, RETRY_GROUP_TOPIC_PREFIX,
    RMQ_SYS_SCHEDULE_TOPIC,
};

fn table(entries: &[(&str, &str)]) -> Properties {
    let mut table = Properties::new();
    for (name, value) in entries {
        table.insert(name.to_string(), value.to_string());
    }
    table
}

#[test]
fn blank_texts() {
    assert!(is_blank(""));
    assert!(is_blank(" \t\r\n\u{b}\u{c}"));
    assert!(is_blank("\u{85}\u{a0}\u{1680}\u{2000}\u{200a}\u{2028}\u{2029}\u{202f}\u{205f}\u{3000}"));
    assert!(!is_blank("\u{200b}"));
    assert!(!is_blank("\u{180e}"));
    assert!(!is_blank(" k "));
    for c in '\u{0}'..='\u{ffff}' {
        let text = c.to_string();
        assert_eq!(is_blank(text.as_str()), c.is_whitespace());
    }
}

#[test]
fn prefixes() {
    assert!(starts_with("%RETRY%group", "%RETRY%"));
    assert!(starts_with("%RETRY%", "%RETRY%"));
    assert!(!starts_with("%RETRY", "%RETRY%"));
    assert!(!starts_with("%retry%group", "%RETRY%"));
    assert!(starts_with("", ""));
    assert!(starts_with("\u{e9}t\u{e9}", "\u{e9}"));
    assert!(same_text("a", "a"));
    assert!(!same_text("a", "b"));
}

#[test]
fn later_value_prevails() {
    let mut t = table(&[("a", "1"), ("b", "2")]);
    t.insert("a".to_string(), "3".to_string());
    assert_eq!(t.get("a"), Some(&"3".to_string()));
    assert_eq!(t.get("b"), Some(&"2".to_string()));
    assert_eq!(t.get("c"), None);
    assert_eq!(t.entries().len(), 2);
    let copy = t.clone();
    assert_eq!(copy.entries(), t.entries());
    let listed = Properties::from_entries(vec![
        ("a".to_string(), "1".to_string()),
        ("a".to_string(), "2".to_string()),
    ]);
    assert_eq!(listed.get("a"), Some(&"2".to_string()));
    assert_eq!(listed.entries().len(), 1);
}

#[test]
fn texts_of_properties_are_read() {
    let text = "a\u{1}1\u{2}\u{1}x\u{2}b\u{1}\u{2}c\u{2}\u{2}a\u{1}2\u{1}3\u{2}\u{e9}\u{1}\u{e8}";
    let t = string_to_message_properties(&Some(text.to_string()));
    assert_eq!(t.entries().len(), 2);
    assert_eq!(t.get("a"), Some(&"2\u{1}3".to_string()));
    assert_eq!(t.get("\u{e9}"), Some(&"\u{e8}".to_string()));
    assert!(string_to_message_properties(&None).entries().is_empty());
    assert!(string_to_message_properties(&Some("".to_string())).entries().is_empty());
}

#[test]
fn delay_levels() {
    assert_eq!(get_delay_time_level(&table(&[])), 0);
    assert_eq!(get_delay_time_level(&table(&[("DELAY", "3")])), 3);
    assert_eq!(get_delay_time_level(&table(&[("DELAY", "+4")])), 4);
    assert_eq!(get_delay_time_level(&table(&[("DELAY", "-5")])), -5);
    assert_eq!(get_delay_time_level(&table(&[("DELAY", "007")])), 7);
    assert_eq!(get_delay_time_level(&table(&[("DELAY", " 3")])), 0);
    assert_eq!(get_delay_time_level(&table(&[("DELAY", "-")])), 0);
    assert_eq!(get_delay_time_level(&table(&[("DELAY", "")])), 0);
    assert_eq!(get_delay_time_level(&table(&[("DELAY", "1_0")])), 0);
    assert_eq!(get_delay_time_level(&table(&[("DELAY", "2147483647")])), i32::MAX);
    assert_eq!(get_delay_time_level(&table(&[("DELAY", "2147483648")])), 0);
    assert_eq!(get_delay_time_level(&table(&[("DELAY", "-2147483648")])), i32::MIN);
    assert_eq!(get_delay_time_level(&table(&[("DELAY", "-2147483649")])), 0);
}

#[test]
fn uniq_ids_and_tags() {
    let message = Message {
        topic: "t".to_string(),
        flag: 0,
        properties: table(&[("UNIQ_KEY", "id"), ("TAGS", "x")]),
        body: None,
    };
    assert_eq!(get_uniq_id(&message), Some("id".to_string()));
    assert_eq!(message.get_tags(), Some("x".to_string()));
    assert_eq!(message.get_property("KEYS"), None);
}

#[test]
fn known_policies() {
    assert!(is_policy_known(&table(&[])));
    assert!(is_policy_known(&table(&[("cleanup.policy", "DELETE")])));
    assert!(is_policy_known(&table(&[("cleanup.policy", "delete")])));
    assert!(is_policy_known(&table(&[("cleanup.policy", "Compaction")])));
    assert!(is_policy_known(&table(&[("cleanup.policy", "compact\u{131}on")])));
    assert!(!is_policy_known(&table(&[("cleanup.policy", "")])));
    assert!(!is_policy_known(&table(&[("cleanup.policy", "compact")])));
    assert!(!is_policy_known(&table(&[("cleanup.policy", "DELETE ")])));
}

#[test]
fn every_capital_that_spells_a_policy() {
    for c in '\u{0}'..=char::MAX {
        for word in ["DELETE", "COMPACTION"] {
            for at in 0..word.len() {
                let mut text = word.to_string();
                text.replace_range(at..at + 1, c.to_string().as_str());
                if text.to_uppercase() == word {
                    assert!(is_policy_known(&table(&[("cleanup.policy", text.as_str())])));
                }
            }
        }
    }
}

#[test]
fn statuses_are_answered() {
    let cases = [
        (PutMessageStatus::PutOk, true, 0, None),
        (PutMessageStatus::FlushDiskTimeout, true, 10, None),
        (PutMessageStatus::FlushSlaveTimeout, true, 12, None),
        (PutMessageStatus::SlaveNotAvailable, true, 11, None),
        (PutMessageStatus::ServiceNotAvailable, false, 14, Some("service not available now. It may be caused by one of the following reasons: the broker's disk is full %s, messages are put to the slave, message store has been shut down, etc.")),
        (PutMessageStatus::CreateMappedFileFailed, false, 1, Some("create mapped file failed, server is busy or broken.")),
        (PutMessageStatus::MessageIllegal, false, 13, Some("the message is illegal, maybe msg body or properties length not matched. msg body length limit B, msg properties length limit 32KB.")),
        (PutMessageStatus::PropertiesSizeExceeded, false, 13, Some("the message is illegal, maybe msg body or properties length not matched. msg body length limit B, msg properties length limit 32KB.")),
        (PutMessageStatus::OsPageCacheBusy, false, 1, Some("[PC_SYNCHRONIZED]broker busy, start flow control for a while")),
        (PutMessageStatus::UnknownError, false, 1, Some("UNKNOWN_ERROR")),
        (PutMessageStatus::InSyncReplicasNotEnough, false, 1, Some("in-sync replicas not enough")),
        (PutMessageStatus::LmqConsumeQueueNumExceeded, false, 1, Some("[LMQ_CONSUME_QUEUE_NUM_EXCEEDED]broker config enableLmq and enableMultiDispatch, lmq consumeQueue num exceed maxLmqConsumeQueueNum config num, default limit 2w.")),
        (PutMessageStatus::WheelTimerFlowControl, false, 1, Some("timer message is under flow control, max num limit is %d or the current value is greater than %d and less than %d, trigger random flow control")),
        (PutMessageStatus::WheelTimerMsgIllegal, false, 13, Some("timer message illegal, the delay time should not be bigger than the max delay %dms; or if set del msg, the delay time should be bigger than the current time")),
        (PutMessageStatus::WheelTimerNotEnable, false, 1, Some("accurate timer message is not enabled, timerWheelEnable is %s")),
        (PutMessageStatus::Other, false, 1, Some("UNKNOWN_ERROR DEFAULT")),
    ];
    for (status, stored, code, remark) in cases {
        let (ok, response) = answer_status(status, RemotingCommand::create_response_command(3));
        assert_eq!(ok, stored);
        assert_eq!(response.code, code);
        assert_eq!(response.opaque, 3);
        assert_eq!(response.remark, remark.map(|s: &str| s.to_string()));
    }
}

#[test]
fn commands_are_filled() {
    let response = RemotingCommand::create_response_command(9);
    assert_eq!(response.code, 0);
    assert_eq!(response.flag, 1);
    let response = response.add_ext_field("a".to_string(), "b".to_string());
    assert!(response.ext_fields.is_none());
    let mut response = response.set_code(5).set_remark(Some("r".to_string()));
    response.ext_fields = Some(table(&[("queueId", "old"), ("x", "y")]));
    let response = response.add_ext_field("a".to_string(), "b".to_string());
    let header = SendMessageResponseHeader {
        msg_id: "id".to_string(),
        queue_id: -2,
        queue_offset: i64::MIN,
        transaction_id: Some("tx".to_string()),
        batch_uniq_id: None,
    };
    let response = response.set_command_custom_header(header);
    let fields = response.ext_fields.unwrap();
    assert_eq!(fields.get("a"), Some(&"b".to_string()));
    assert_eq!(fields.get("x"), Some(&"y".to_string()));
    assert_eq!(fields.get("msgId"), Some(&"id".to_string()));
    assert_eq!(fields.get("queueId"), Some(&"-2".to_string()));
    assert_eq!(fields.get("queueOffset"), Some(&"-9223372036854775808".to_string()));
    assert_eq!(fields.get("transactionId"), Some(&"tx".to_string()));
    assert_eq!(fields.get("batchUniqId"), None);
    assert_eq!(fields.entries().len(), 6);
    assert_eq!(response.code, 5);
    assert_eq!(response.remark, Some("r".to_string()));
    assert_eq!(response.command_custom_header.unwrap().msg_id, "id");
}

#[test]
fn names_and_codes_are_those_of_the_protocol() {
    assert_eq!(PROPERTY_KEYS, MessageConst::PROPERTY_KEYS);
    assert_eq!(PROPERTY_TAGS, MessageConst::PROPERTY_TAGS);
    assert_eq!(PROPERTY_DELAY_TIME_LEVEL, MessageConst::PROPERTY_DELAY_TIME_LEVEL);
    assert_eq!(PROPERTY_TRANSACTION_PREPARED, MessageConst::PROPERTY_TRANSACTION_PREPARED);
    assert_eq!(
        PROPERTY_UNIQ_CLIENT_MESSAGE_ID_KEYIDX,
        MessageConst::PROPERTY_UNIQ_CLIENT_MESSAGE_ID_KEYIDX
    );
    assert_eq!(PROPERTY_INNER_NUM, MessageConst::PROPERTY_INNER_NUM);
    assert_eq!(PROPERTY_CLUSTER, MessageConst::PROPERTY_CLUSTER);
    assert_eq!(PROPERTY_POP_CK, MessageConst::PROPERTY_POP_CK);
    assert_eq!(PROPERTY_MSG_REGION, MessageConst::PROPERTY_MSG_REGION);
    assert_eq!(PROPERTY_TRACE_SWITCH, MessageConst::PROPERTY_TRACE_SWITCH);
    assert_eq!(MULTI_TAGS_FLAG, MessageSysFlag::MULTI_TAGS_FLAG);
    assert_eq!(NEED_UNWRAP_FLAG, MessageSysFlag::NEED_UNWRAP_FLAG);
    assert_eq!(INNER_BATCH_FLAG, MessageSysFlag::INNER_BATCH_FLAG);
    assert_eq!(NAME_VALUE_SEPARATOR, rocketmq_common::MessageDecoder::NAME_VALUE_SEPARATOR);
    assert_eq!(PROPERTY_SEPARATOR, rocketmq_common::MessageDecoder::PROPERTY_SEPARATOR);
    assert_eq!(RETRY_GROUP_TOPIC_PREFIX, mix_all::RETRY_GROUP_TOPIC_PREFIX);
    assert_eq!(RMQ_SYS_SCHEDULE_TOPIC, TopicValidator::RMQ_SYS_SCHEDULE_TOPIC);
    assert_eq!(CLEANUP_POLICY_ATTRIBUTE, TopicAttributes::CLEANUP_POLICY_ATTRIBUTE.get_name());
    assert_eq!(QUEUE_TYPE_ATTRIBUTE, TopicAttributes::QUEUE_TYPE_ATTRIBUTE.get_name());
    assert_eq!(CONSUMER_SEND_MSG_BACK, RequestCode::ConsumerSendMsgBack.to_i32());
    assert_eq!(SUCCESS, RemotingSysResponseCode::Success as i32);
    assert_eq!(SYSTEM_ERROR, RemotingSysResponseCode::SystemError as i32);
    assert_eq!(FLUSH_DISK_TIMEOUT, ResponseCode::FlushDiskTimeout as i32);
    assert_eq!(SLAVE_NOT_AVAILABLE, ResponseCode::SlaveNotAvailable as i32);
    assert_eq!(FLUSH_SLAVE_TIMEOUT, ResponseCode::FlushSlaveTimeout as i32);
    assert_eq!(MESSAGE_ILLEGAL, ResponseCode::MessageIllegal as i32);
    assert_eq!(SERVICE_NOT_AVAILABLE, ResponseCode::ServiceNotAvailable as i32);
    assert_eq!(NO_PERMISSION, ResponseCode::NoPermission as i32);
    let response =
        rocketmq_remoting::protocol::remoting_command::RemotingCommand::create_response_command();
    assert_eq!(RESPONSE_FLAG, response.flag());
    assert_eq!(SUCCESS, response.code());
}

#[test]
fn dispatcher_keeps_its_store() {
    let store = Arc::new(7u8);
    let dispatcher = CommitLogDispatcherBuildConsumeQueue::new(store.clone());
    assert!(Arc::ptr_eq(dispatcher.consume_queue_store(), &store));
}
