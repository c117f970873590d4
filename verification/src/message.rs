//! Messages as the broker hands them to its store.

use vstd::prelude::*;

use crate::properties::Properties;
use crate::text::parse_i32;

verus! {

/// The property that holds the keys of a message.
pub const PROPERTY_KEYS: &'static str = "KEYS";

/// The property that holds the tags of a message.
pub const PROPERTY_TAGS: &'static str = "TAGS";

/// The property that holds the delay level of a message.
pub const PROPERTY_DELAY_TIME_LEVEL: &'static str = "DELAY";

/// The property that marks a message as the first half of a transaction.
pub const PROPERTY_TRANSACTION_PREPARED: &'static str = "TRAN_MSG";

/// The property that holds the id the producer gave a message.
pub const PROPERTY_UNIQ_CLIENT_MESSAGE_ID_KEYIDX: &'static str = "UNIQ_KEY";

/// The property that holds the number of messages inside a batch.
pub const PROPERTY_INNER_NUM: &'static str = "INNER_NUM";

/// The property that holds the cluster a message was sent to.
pub const PROPERTY_CLUSTER: &'static str = "CLUSTER";

/// The property of the pop check point.
pub const PROPERTY_POP_CK: &'static str = "POP_CK";

/// The response field that holds the region of the broker.
pub const PROPERTY_MSG_REGION: &'static str = "MSG_REGION";

/// The response field that says whether tracing is on.
pub const PROPERTY_TRACE_SWITCH: &'static str = "TRACE_ON";

/// The flag of a message with several tags.
pub const MULTI_TAGS_FLAG: i32 = 0x2;

/// The flag of a message whose body is to be unwrapped.
pub const NEED_UNWRAP_FLAG: i32 = 0x40;

/// The flag of a message that holds a batch.
pub const INNER_BATCH_FLAG: i32 = 0x80;

/// A message as its producer wrote it.
#[derive(Debug)]
pub struct Message {
    pub topic: String,
    pub flag: i32,
    pub properties: Properties,
    pub body: Option<Vec<u8>>,
}

/// A message with what the broker knows of its way. The hosts are socket addresses in text.
#[derive(Debug)]
pub struct MessageExt {
    pub message: Message,
    pub queue_id: i32,
    pub sys_flag: i32,
    pub born_timestamp: i64,
    pub born_host: String,
    pub store_host: String,
    pub reconsume_times: i32,
}

/// A message as it goes to the store.
#[derive(Debug)]
pub struct MessageExtBrokerInner {
    pub message_ext_inner: MessageExt,
    pub properties_string: String,
    pub tags_code: i64,
}

/// A batch of messages as it goes to the store.
#[derive(Debug)]
pub struct MessageExtBatch {
    pub message_ext_broker_inner: MessageExtBrokerInner,
    pub is_inner_batch: bool,
}

/// What a message for the store holds.
pub struct MessageView {
    pub topic: Seq<char>,
    pub flag: i32,
    pub properties: Map<Seq<char>, Seq<char>>,
    pub body: Option<Seq<u8>>,
    pub queue_id: i32,
    pub sys_flag: i32,
    pub born_timestamp: i64,
    pub born_host: Seq<char>,
    pub store_host: Seq<char>,
    pub reconsume_times: i32,
    pub properties_string: Seq<char>,
    pub tags_code: i64,
}

/// The bytes an optional body holds.
pub open spec fn opt_bytes(body: Option<Vec<u8>>) -> Option<Seq<u8>> {
    match body {
        Some(bytes) => Some(bytes@),
        None => None,
    }
}

impl View for MessageExtBrokerInner {
    type V = MessageView;

    open spec fn view(&self) -> MessageView {
        let ext = self.message_ext_inner;
        MessageView {
            topic: ext.message.topic@,
            flag: ext.message.flag,
            properties: ext.message.properties@,
            body: opt_bytes(ext.message.body),
            queue_id: ext.queue_id,
            sys_flag: ext.sys_flag,
            born_timestamp: ext.born_timestamp,
            born_host: ext.born_host@,
            store_host: ext.store_host@,
            reconsume_times: ext.reconsume_times,
            properties_string: self.properties_string@,
            tags_code: self.tags_code,
        }
    }
}

/// The value of a property, or the empty text where it is not set.
pub open spec fn property_or_empty(
    properties: Map<Seq<char>, Seq<char>>,
    name: Seq<char>,
) -> Seq<char> {
    if properties.contains_key(name) {
        properties[name]
    } else {
        Seq::empty()
    }
}

/// The value of a property where it is set.
pub open spec fn property(
    properties: Map<Seq<char>, Seq<char>>,
    name: Seq<char>,
) -> Option<Seq<char>> {
    if properties.contains_key(name) {
        Some(properties[name])
    } else {
        None
    }
}

/// The delay level that the properties ask for; zero where it is left out or is no number.
pub open spec fn delay_time_level(properties: Map<Seq<char>, Seq<char>>) -> i32 {
    let name = PROPERTY_DELAY_TIME_LEVEL@;
    if properties.contains_key(name) {
        match crate::text::parsed_i32(properties[name]) {
            Some(level) => level,
            None => 0,
        }
    } else {
        0
    }
}

impl Message {
    /// The value of a property.
    pub fn get_property(&self, name: &str) -> (r: Option<String>)
        ensures
            crate::text::opt_text(r) == property(self.properties@, name@),
    {
        match self.properties.get(name) {
            Some(value) => Some(value.clone()),
            None => None,
        }
    }

    /// The tags of the message.
    pub fn get_tags(&self) -> (r: Option<String>)
        ensures
            crate::text::opt_text(r) == property(self.properties@, PROPERTY_TAGS@),
    {
        self.get_property(PROPERTY_TAGS)
    }
}

/// The delay level that the properties ask for.
pub fn get_delay_time_level(properties: &Properties) -> (r: i32)
    ensures
        r == delay_time_level(properties@),
{
    match properties.get(PROPERTY_DELAY_TIME_LEVEL) {
        Some(level) => match parse_i32(level.as_str()) {
            Some(level) => level,
            None => 0,
        },
        None => 0,
    }
}

/// The id that the producer gave the message.
pub fn get_uniq_id(message: &Message) -> (r: Option<String>)
    ensures
        crate::text::opt_text(r) == property(
            message.properties@,
            PROPERTY_UNIQ_CLIENT_MESSAGE_ID_KEYIDX@,
        ),
{
    message.get_property(PROPERTY_UNIQ_CLIENT_MESSAGE_ID_KEYIDX)
}

} // verus!
