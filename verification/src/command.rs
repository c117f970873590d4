//! Commands on the wire: requests, responses and the headers they carry.

use vstd::prelude::*;

use rocketmq_remoting::protocol::command_custom_header::CommandCustomHeader;
use rocketmq_remoting::protocol::header::message_operation_header::send_message_request_header::{
    self, SendMessageRequestHeader as WireRequestHeader,
};
use rocketmq_remoting::protocol::header::message_operation_header::send_message_response_header::SendMessageResponseHeader as WireResponseHeader;
use rocketmq_remoting::protocol::remoting_command::RemotingCommand as WireCommand;

use crate::properties::Properties;
use crate::text::parse_i32;

verus! {

/// The code of a request that gives a message back to be consumed again.
pub const CONSUMER_SEND_MSG_BACK: i32 = 36;

/// The code of a request that sends a message, its fields under short names.
pub const SEND_MESSAGE_V2: i32 = 310;

/// The code of a request that sends a batch.
pub const SEND_BATCH_MESSAGE: i32 = 320;

/// The codes of responses.
pub const SUCCESS: i32 = 0;

pub const SYSTEM_ERROR: i32 = 1;

pub const FLUSH_DISK_TIMEOUT: i32 = 10;

pub const SLAVE_NOT_AVAILABLE: i32 = 11;

pub const FLUSH_SLAVE_TIMEOUT: i32 = 12;

pub const MESSAGE_ILLEGAL: i32 = 13;

pub const SERVICE_NOT_AVAILABLE: i32 = 14;

pub const NO_PERMISSION: i32 = 16;

/// The code of a response that has not been refused yet.
pub const UNDECIDED: i32 = -1;

/// The flag of a response.
pub const RESPONSE_FLAG: i32 = 1;

/// What a producer says of the message it sends.
#[derive(Debug)]
pub struct SendMessageRequestHeader {
    pub ns: Option<String>,
    pub nsd: Option<bool>,
    pub bname: Option<String>,
    pub oway: Option<bool>,
    pub lo: Option<bool>,
    pub producer_group: String,
    pub topic: String,
    pub default_topic: String,
    pub default_topic_queue_nums: i32,
    pub queue_id: Option<i32>,
    pub sys_flag: i32,
    pub born_timestamp: i64,
    pub flag: i32,
    pub properties: Option<String>,
    pub reconsume_times: Option<i32>,
    pub unit_mode: Option<bool>,
    pub batch: Option<bool>,
    pub max_reconsume_times: Option<i32>,
}

/// What a [`SendMessageRequestHeader`] holds.
pub struct RequestHeaderView {
    pub ns: Option<Seq<char>>,
    pub nsd: Option<bool>,
    pub bname: Option<Seq<char>>,
    pub oway: Option<bool>,
    pub lo: Option<bool>,
    pub producer_group: Seq<char>,
    pub topic: Seq<char>,
    pub default_topic: Seq<char>,
    pub default_topic_queue_nums: i32,
    pub queue_id: Option<i32>,
    pub sys_flag: i32,
    pub born_timestamp: i64,
    pub flag: i32,
    pub properties: Option<Seq<char>>,
    pub reconsume_times: Option<i32>,
    pub unit_mode: Option<bool>,
    pub batch: Option<bool>,
    pub max_reconsume_times: Option<i32>,
}

impl View for SendMessageRequestHeader {
    type V = RequestHeaderView;

    open spec fn view(&self) -> RequestHeaderView {
        RequestHeaderView {
            ns: crate::text::opt_text(self.ns),
            nsd: self.nsd,
            bname: crate::text::opt_text(self.bname),
            oway: self.oway,
            lo: self.lo,
            producer_group: self.producer_group@,
            topic: self.topic@,
            default_topic: self.default_topic@,
            default_topic_queue_nums: self.default_topic_queue_nums,
            queue_id: self.queue_id,
            sys_flag: self.sys_flag,
            born_timestamp: self.born_timestamp,
            flag: self.flag,
            properties: crate::text::opt_text(self.properties),
            reconsume_times: self.reconsume_times,
            unit_mode: self.unit_mode,
            batch: self.batch,
            max_reconsume_times: self.max_reconsume_times,
        }
    }
}

/// What the broker says of a message it has stored.
#[derive(Debug)]
pub struct SendMessageResponseHeader {
    pub msg_id: String,
    pub queue_id: i32,
    pub queue_offset: i64,
    pub transaction_id: Option<String>,
    pub batch_uniq_id: Option<String>,
}

/// What a [`SendMessageResponseHeader`] holds.
pub struct ResponseHeaderView {
    pub msg_id: Seq<char>,
    pub queue_id: i32,
    pub queue_offset: i64,
    pub transaction_id: Option<Seq<char>>,
    pub batch_uniq_id: Option<Seq<char>>,
}

impl View for SendMessageResponseHeader {
    type V = ResponseHeaderView;

    open spec fn view(&self) -> ResponseHeaderView {
        ResponseHeaderView {
            msg_id: self.msg_id@,
            queue_id: self.queue_id,
            queue_offset: self.queue_offset,
            transaction_id: crate::text::opt_text(self.transaction_id),
            batch_uniq_id: crate::text::opt_text(self.batch_uniq_id),
        }
    }
}

/// The header of a response before anything is known of the message.
pub open spec fn empty_response_header() -> ResponseHeaderView {
    ResponseHeaderView {
        msg_id: Seq::empty(),
        queue_id: 0,
        queue_offset: 0,
        transaction_id: None,
        batch_uniq_id: None,
    }
}

impl Default for SendMessageResponseHeader {
    fn default() -> (r: SendMessageResponseHeader)
        ensures
            r@ == empty_response_header(),
    {
        SendMessageResponseHeader {
            msg_id: String::new(),
            queue_id: 0,
            queue_offset: 0,
            transaction_id: None,
            batch_uniq_id: None,
        }
    }
}

/// A table with one more entry where there is a value.
pub open spec fn insert_opt(
    table: Map<Seq<char>, Seq<char>>,
    name: Seq<char>,
    value: Option<Seq<char>>,
) -> Map<Seq<char>, Seq<char>> {
    match value {
        Some(value) => table.insert(name, value),
        None => table,
    }
}

/// The fields that a response header adds to a command.
pub open spec fn header_fields(header: ResponseHeaderView) -> Map<Seq<char>, Seq<char>> {
    let fields = Map::<Seq<char>, Seq<char>>::empty().insert("msgId"@, header.msg_id).insert(
        "queueId"@,
        crate::text::signed_decimal(header.queue_id as int),
    ).insert("queueOffset"@, crate::text::signed_decimal(header.queue_offset as int));
    let fields = insert_opt(fields, "transactionId"@, header.transaction_id);
    insert_opt(fields, "batchUniqId"@, header.batch_uniq_id)
}

/// A field of a request, where it has one of this name.
pub open spec fn opt_field(fields: Map<Seq<char>, Seq<char>>, name: Seq<char>) -> Option<
    Seq<char>,
> {
    if fields.contains_key(name) {
        Some(fields[name])
    } else {
        None
    }
}

/// A field of text, empty where it is missing.
pub open spec fn text_field(fields: Map<Seq<char>, Seq<char>>, name: Seq<char>) -> Seq<char> {
    match opt_field(fields, name) {
        Some(text) => text,
        None => Seq::empty(),
    }
}

/// A field that may hold a number, which is none where the field is missing or no number.
pub open spec fn opt_number_field(
    fields: Map<Seq<char>, Seq<char>>,
    name: Seq<char>,
) -> Option<i32> {
    match opt_field(fields, name) {
        Some(text) => crate::text::parsed_i32(text),
        None => None,
    }
}

/// A field that holds a number, which is zero where the field is missing or no number.
pub open spec fn number_field(fields: Map<Seq<char>, Seq<char>>, name: Seq<char>) -> i32 {
    match opt_number_field(fields, name) {
        Some(number) => number,
        None => 0,
    }
}

/// A field that holds a moment, which is zero where the field is missing or no number.
pub open spec fn moment_field(fields: Map<Seq<char>, Seq<char>>, name: Seq<char>) -> i64 {
    match opt_field(fields, name) {
        Some(text) => match crate::text::parsed_i64(text) {
            Some(moment) => moment,
            None => 0,
        },
        None => 0,
    }
}

/// A field that may hold a truth value.
pub open spec fn opt_bool_field(
    fields: Map<Seq<char>, Seq<char>>,
    name: Seq<char>,
) -> Option<bool> {
    match opt_field(fields, name) {
        Some(text) => crate::text::parsed_bool(text),
        None => None,
    }
}

/// The header in fields with full names.
pub open spec fn long_header(fields: Map<Seq<char>, Seq<char>>) -> RequestHeaderView {
    RequestHeaderView {
        ns: opt_field(fields, "ns"@),
        nsd: opt_bool_field(fields, "nsd"@),
        bname: opt_field(fields, "bname"@),
        oway: opt_bool_field(fields, "oway"@),
        lo: opt_bool_field(fields, "lo"@),
        producer_group: text_field(fields, "producerGroup"@),
        topic: text_field(fields, "topic"@),
        default_topic: text_field(fields, "defaultTopic"@),
        default_topic_queue_nums: number_field(fields, "defaultTopicQueueNums"@),
        queue_id: Some(number_field(fields, "queueId"@)),
        sys_flag: number_field(fields, "sysFlag"@),
        born_timestamp: moment_field(fields, "bornTimestamp"@),
        flag: number_field(fields, "flag"@),
        properties: opt_field(fields, "properties"@),
        reconsume_times: opt_number_field(fields, "reconsumeTimes"@),
        unit_mode: opt_bool_field(fields, "unitMode"@),
        batch: opt_bool_field(fields, "batch"@),
        max_reconsume_times: opt_number_field(fields, "maxReconsumeTimes"@),
    }
}

/// The header in fields whose names are cut down to a letter.
pub open spec fn short_header(fields: Map<Seq<char>, Seq<char>>) -> RequestHeaderView {
    RequestHeaderView {
        ns: opt_field(fields, "ns"@),
        nsd: opt_bool_field(fields, "nsd"@),
        bname: opt_field(fields, "n"@),
        oway: opt_bool_field(fields, "oway"@),
        lo: opt_bool_field(fields, "lo"@),
        producer_group: text_field(fields, "a"@),
        topic: text_field(fields, "b"@),
        default_topic: text_field(fields, "c"@),
        default_topic_queue_nums: number_field(fields, "d"@),
        queue_id: Some(number_field(fields, "e"@)),
        sys_flag: number_field(fields, "f"@),
        born_timestamp: moment_field(fields, "g"@),
        flag: number_field(fields, "h"@),
        properties: opt_field(fields, "i"@),
        reconsume_times: opt_number_field(fields, "j"@),
        unit_mode: opt_bool_field(fields, "k"@),
        batch: opt_bool_field(fields, "m"@),
        max_reconsume_times: opt_number_field(fields, "l"@),
    }
}

/// The fields of a request with this code have short names.
pub open spec fn has_short_names(code: i32) -> bool {
    code == SEND_MESSAGE_V2 || code == SEND_BATCH_MESSAGE
}

/// What is read from the fields of a request with this code: messages of the later format and
/// batches cut the names of their fields down.
pub open spec fn parsed_request_header(
    code: i32,
    ext_fields: Option<Map<Seq<char>, Seq<char>>>,
) -> Option<RequestHeaderView> {
    match ext_fields {
        Some(fields) => if has_short_names(code) {
            Some(short_header(fields))
        } else {
            Some(long_header(fields))
        },
        None => None,
    }
}

/// The entries of an optional table.
pub open spec fn opt_table(table: Option<Properties>) -> Option<Map<Seq<char>, Seq<char>>> {
    match table {
        Some(table) => Some(table@),
        None => None,
    }
}

/// The table of an optional list of entries.
pub open spec fn opt_entries(entries: Option<Vec<(String, String)>>) -> Option<
    Map<Seq<char>, Seq<char>>,
> {
    match entries {
        Some(entries) => Some(crate::properties::entries_map(entries@)),
        None => None,
    }
}

/// A request header where there is one.
pub open spec fn opt_header(header: Option<SendMessageRequestHeader>) -> Option<RequestHeaderView> {
    match header {
        Some(header) => Some(header@),
        None => None,
    }
}

/// The header of a request. Its queue is the one that the request names; fields with full names
/// may leave it out.
pub open spec fn request_header(
    code: i32,
    ext_fields: Option<Map<Seq<char>, Seq<char>>>,
) -> Option<RequestHeaderView> {
    match ext_fields {
        Some(fields) => if has_short_names(code) {
            Some(short_header(fields))
        } else {
            Some(
                RequestHeaderView {
                    queue_id: opt_number_field(fields, "queueId"@),
                    ..long_header(fields)
                },
            )
        },
        None => None,
    }
}

/// `rocketmq_remoting` `parse_request_header` on a command with this code and these fields: each
/// part of the header is read from the field of its name, under the short names where the code is
/// `SendMessageV2` or `SendBatchMessage`. A part that is missing or cannot be read is none where
/// it is optional, else empty or zero; so the queue is zero where it is missing. There is no
/// header where there are no fields.
#[verifier::external_body]
fn parse_request_header(code: i32, ext_fields: &Option<Properties>) -> (r: Option<
    SendMessageRequestHeader,
>)
    ensures
        opt_header(r) == parsed_request_header(code, opt_table(*ext_fields)),
{
    let command = WireCommand::create_remoting_command(code);
    let command = match ext_fields {
        Some(fields) => command.set_ext_fields(fields.entries().iter().cloned().collect()),
        None => command,
    };
    send_message_request_header::parse_request_header(&command).map(|WireRequestHeader {
        ns, nsd, bname, oway, lo, producer_group, topic, default_topic, default_topic_queue_nums,
        queue_id, sys_flag, born_timestamp, flag, properties, reconsume_times, unit_mode, batch,
        max_reconsume_times,
    }| SendMessageRequestHeader {
        ns, nsd, bname, oway, lo, producer_group, topic, default_topic, default_topic_queue_nums,
        queue_id: Some(queue_id), sys_flag, born_timestamp, flag, properties, reconsume_times,
        unit_mode, batch, max_reconsume_times,
    })
}

/// Reads the header of a request.
pub fn read_request_header(code: i32, ext_fields: &Option<Properties>) -> (r: Option<
    SendMessageRequestHeader,
>)
    ensures
        opt_header(r) == request_header(code, opt_table(*ext_fields)),
{
    match (parse_request_header(code, ext_fields), ext_fields) {
        (Some(header), Some(fields)) => {
            let mut header = header;
            if code != SEND_MESSAGE_V2 && code != SEND_BATCH_MESSAGE {
                header.queue_id = match fields.get("queueId") {
                    Some(text) => parse_i32(text.as_str()),
                    None => None,
                };
            }
            Some(header)
        },
        _ => None,
    }
}

/// `rocketmq_remoting` `SendMessageResponseHeader::to_map`: each field of the header under its
/// name in camel case, numbers in decimal, an optional field only where it is set. There always
/// is a table; its entries come in an order that is left open.
#[verifier::external_body]
fn response_header_to_map(header: &SendMessageResponseHeader) -> (r: Option<Vec<(String, String)>>)
    ensures
        opt_entries(r) == Some(header_fields(header@)),
{
    WireResponseHeader::new(
        header.msg_id.clone(),
        header.queue_id,
        header.queue_offset,
        header.transaction_id.clone(),
        header.batch_uniq_id.clone(),
    ).to_map().map(|fields| fields.into_iter().collect())
}

/// A request, or the response to one.
#[derive(Debug)]
pub struct RemotingCommand {
    pub code: i32,
    pub opaque: i32,
    pub flag: i32,
    pub remark: Option<String>,
    pub ext_fields: Option<Properties>,
    pub body: Option<Vec<u8>>,
    pub command_custom_header: Option<SendMessageResponseHeader>,
}

/// What a [`RemotingCommand`] holds.
pub struct CommandView {
    pub code: i32,
    pub opaque: i32,
    pub flag: i32,
    pub remark: Option<Seq<char>>,
    pub ext_fields: Option<Map<Seq<char>, Seq<char>>>,
    pub body: Option<Seq<u8>>,
    pub command_custom_header: Option<ResponseHeaderView>,
}

impl View for RemotingCommand {
    type V = CommandView;

    open spec fn view(&self) -> CommandView {
        CommandView {
            code: self.code,
            opaque: self.opaque,
            flag: self.flag,
            remark: crate::text::opt_text(self.remark),
            ext_fields: opt_table(self.ext_fields),
            body: crate::message::opt_bytes(self.body),
            command_custom_header: match self.command_custom_header {
                Some(header) => Some(header@),
                None => None,
            },
        }
    }
}

impl CommandView {
    /// The command with another code.
    pub open spec fn with_code(self, code: i32) -> CommandView {
        CommandView { code, ..self }
    }

    /// The command with another code and remark.
    pub open spec fn with_verdict(self, code: i32, remark: Seq<char>) -> CommandView {
        CommandView { code, remark: Some(remark), ..self }
    }

    /// The command with a header, whose fields join and override those it has.
    pub open spec fn with_header(self, header: ResponseHeaderView) -> CommandView {
        let fields = header_fields(header);
        CommandView {
            command_custom_header: Some(header),
            ext_fields: match self.ext_fields {
                Some(present) => Some(present.union_prefer_right(fields)),
                None => Some(fields),
            },
            ..self
        }
    }
}

/// A response with nothing in it yet: its code says success.
pub open spec fn empty_response(opaque: i32) -> CommandView {
    CommandView {
        code: SUCCESS,
        opaque,
        flag: RESPONSE_FLAG,
        remark: None,
        ext_fields: None,
        body: None,
        command_custom_header: None,
    }
}

impl RemotingCommand {
    /// An empty response to the request with this number.
    pub fn create_response_command(opaque: i32) -> (r: RemotingCommand)
        ensures
            r@ == empty_response(opaque),
    {
        RemotingCommand {
            code: SUCCESS,
            opaque,
            flag: RESPONSE_FLAG,
            remark: None,
            ext_fields: None,
            body: None,
            command_custom_header: None,
        }
    }

    /// Sets the code.
    pub fn set_code(self, code: i32) -> (r: RemotingCommand)
        ensures
            r@ == self@.with_code(code),
    {
        let mut command = self;
        command.code = code;
        command
    }

    /// Sets the remark.
    pub fn set_remark(self, remark: Option<String>) -> (r: RemotingCommand)
        ensures
            r@ == (CommandView { remark: crate::text::opt_text(remark), ..self@ }),
    {
        let mut command = self;
        command.remark = remark;
        command
    }

    /// Sets a field, in a command that has a table of fields; in another it changes nothing.
    pub fn add_ext_field(self, name: String, value: String) -> (r: RemotingCommand)
        ensures
            r@ == (CommandView {
                ext_fields: match self@.ext_fields {
                    Some(fields) => Some(fields.insert(name@, value@)),
                    None => None,
                },
                ..self@
            }),
    {
        let mut command = self;
        command.ext_fields = match command.ext_fields {
            Some(fields) => {
                let mut fields = fields;
                fields.insert(name, value);
                Some(fields)
            },
            None => None,
        };
        command
    }

    /// Sets the header, and with it its fields.
    pub fn set_command_custom_header(self, header: SendMessageResponseHeader) -> (r:
        RemotingCommand)
        ensures
            r@ == self@.with_header(header@),
    {
        let mut command = self;
        let fields = response_header_to_map(&header);
        command.ext_fields = match command.ext_fields {
            Some(present) => match fields {
                Some(fields) => Some(merge(present, &fields)),
                None => Some(present),
            },
            None => match fields {
                Some(fields) => Some(Properties::from_entries(fields)),
                None => None,
            },
        };
        command.command_custom_header = Some(header);
        command
    }
}

/// A table and a list of entries together, the list prevailing.
fn merge(present: Properties, entries: &Vec<(String, String)>) -> (r: Properties)
    ensures
        r@ == present@.union_prefer_right(crate::properties::entries_map(entries@)),
{
    let mut table = present;
    let mut i: usize = 0;
    proof {
        let none = crate::properties::entries_map(entries@.take(0));
        assert(table@ =~= present@.union_prefer_right(none));
    }
    while i < entries.len()
        invariant
            i <= entries@.len(),
            table@ == present@.union_prefer_right(
                crate::properties::entries_map(entries@.take(i as int)),
            ),
        decreases entries@.len() - i,
    {
        let ghost head = crate::properties::entries_map(entries@.take(i as int));
        let ghost before = table@;
        table.insert(entries[i].0.clone(), entries[i].1.clone());
        i += 1;
        proof {
            let name = entries@[i - 1].0@;
            let value = entries@[i - 1].1@;
            assert(entries@.take(i as int).drop_last() =~= entries@.take(i - 1));
            assert(present@.union_prefer_right(head.insert(name, value)) =~= before.insert(
                name,
                value,
            ));
        }
    }
    assert(entries@.take(i as int) =~= entries@);
    table
}

} // verus!
