//! The message store: what it is handed, what it replies, and what the reply means for the
//! producer.

use vstd::prelude::*;

use crate::command::{
    RemotingCommand, FLUSH_DISK_TIMEOUT, FLUSH_SLAVE_TIMEOUT, MESSAGE_ILLEGAL,
    SERVICE_NOT_AVAILABLE, SLAVE_NOT_AVAILABLE, SUCCESS, SYSTEM_ERROR,
};
use crate::message::{MessageExtBatch, MessageExtBrokerInner};

verus! {

/// How storing a message ended.
#[derive(Debug, Clone, Copy, PartialEq, Eq, Structural)]
pub enum PutMessageStatus {
    PutOk,
    FlushDiskTimeout,
    FlushSlaveTimeout,
    SlaveNotAvailable,
    ServiceNotAvailable,
    CreateMappedFileFailed,
    MessageIllegal,
    PropertiesSizeExceeded,
    OsPageCacheBusy,
    UnknownError,
    InSyncReplicasNotEnough,
    LmqConsumeQueueNumExceeded,
    WheelTimerFlowControl,
    WheelTimerMsgIllegal,
    WheelTimerNotEnable,
    Other,
}

/// Where a message was appended.
#[derive(Debug)]
pub struct AppendMessageResult {
    pub msg_id: String,
    pub logics_offset: i64,
}

/// The reply of the store.
#[derive(Debug)]
pub struct PutMessageResult {
    pub put_message_status: PutMessageStatus,
    pub append_message_result: Option<AppendMessageResult>,
}

/// What the store is handed: one message, or a batch that it takes apart.
#[derive(Debug)]
pub enum StoreInput {
    Message(MessageExtBrokerInner),
    Batch(MessageExtBatch),
}

pub const SERVICE_NOT_AVAILABLE_REMARK: &'static str = "service not available now. It may be caused by one of the following reasons: the broker's disk is full %s, messages are put to the slave, message store has been shut down, etc.";

pub const CREATE_MAPPED_FILE_FAILED_REMARK: &'static str = "create mapped file failed, server is busy or broken.";

pub const MESSAGE_ILLEGAL_REMARK: &'static str = "the message is illegal, maybe msg body or properties length not matched. msg body length limit B, msg properties length limit 32KB.";

pub const PAGE_CACHE_BUSY_REMARK: &'static str = "[PC_SYNCHRONIZED]broker busy, start flow control for a while";

pub const UNKNOWN_ERROR_REMARK: &'static str = "UNKNOWN_ERROR";

pub const IN_SYNC_REPLICAS_REMARK: &'static str = "in-sync replicas not enough";

pub const LMQ_NUM_EXCEEDED_REMARK: &'static str = "[LMQ_CONSUME_QUEUE_NUM_EXCEEDED]broker config enableLmq and enableMultiDispatch, lmq consumeQueue num exceed maxLmqConsumeQueueNum config num, default limit 2w.";

pub const TIMER_FLOW_CONTROL_REMARK: &'static str = "timer message is under flow control, max num limit is %d or the current value is greater than %d and less than %d, trigger random flow control";

pub const TIMER_ILLEGAL_REMARK: &'static str = "timer message illegal, the delay time should not be bigger than the max delay %dms; or if set del msg, the delay time should be bigger than the current time";

pub const TIMER_NOT_ENABLED_REMARK: &'static str = "accurate timer message is not enabled, timerWheelEnable is %s";

pub const UNKNOWN_ERROR_DEFAULT_REMARK: &'static str = "UNKNOWN_ERROR DEFAULT";

/// The message is in the store, though it may not have reached the disk or the slave yet.
pub open spec fn stored(status: PutMessageStatus) -> bool {
    ||| status == PutMessageStatus::PutOk
    ||| status == PutMessageStatus::FlushDiskTimeout
    ||| status == PutMessageStatus::FlushSlaveTimeout
    ||| status == PutMessageStatus::SlaveNotAvailable
}

/// The code that a status is answered with.
pub open spec fn status_code(status: PutMessageStatus) -> i32 {
    match status {
        PutMessageStatus::PutOk => SUCCESS,
        PutMessageStatus::FlushDiskTimeout => FLUSH_DISK_TIMEOUT,
        PutMessageStatus::FlushSlaveTimeout => FLUSH_SLAVE_TIMEOUT,
        PutMessageStatus::SlaveNotAvailable => SLAVE_NOT_AVAILABLE,
        PutMessageStatus::ServiceNotAvailable => SERVICE_NOT_AVAILABLE,
        PutMessageStatus::MessageIllegal => MESSAGE_ILLEGAL,
        PutMessageStatus::PropertiesSizeExceeded => MESSAGE_ILLEGAL,
        PutMessageStatus::WheelTimerMsgIllegal => MESSAGE_ILLEGAL,
        _ => SYSTEM_ERROR,
    }
}

/// The remark that a status is answered with; none where the message is stored.
pub open spec fn status_remark(status: PutMessageStatus) -> Option<Seq<char>> {
    match status {
        PutMessageStatus::PutOk => None,
        PutMessageStatus::FlushDiskTimeout => None,
        PutMessageStatus::FlushSlaveTimeout => None,
        PutMessageStatus::SlaveNotAvailable => None,
        PutMessageStatus::ServiceNotAvailable => Some(SERVICE_NOT_AVAILABLE_REMARK@),
        PutMessageStatus::CreateMappedFileFailed => Some(CREATE_MAPPED_FILE_FAILED_REMARK@),
        PutMessageStatus::MessageIllegal => Some(MESSAGE_ILLEGAL_REMARK@),
        PutMessageStatus::PropertiesSizeExceeded => Some(MESSAGE_ILLEGAL_REMARK@),
        PutMessageStatus::OsPageCacheBusy => Some(PAGE_CACHE_BUSY_REMARK@),
        PutMessageStatus::UnknownError => Some(UNKNOWN_ERROR_REMARK@),
        PutMessageStatus::InSyncReplicasNotEnough => Some(IN_SYNC_REPLICAS_REMARK@),
        PutMessageStatus::LmqConsumeQueueNumExceeded => Some(LMQ_NUM_EXCEEDED_REMARK@),
        PutMessageStatus::WheelTimerFlowControl => Some(TIMER_FLOW_CONTROL_REMARK@),
        PutMessageStatus::WheelTimerMsgIllegal => Some(TIMER_ILLEGAL_REMARK@),
        PutMessageStatus::WheelTimerNotEnable => Some(TIMER_NOT_ENABLED_REMARK@),
        PutMessageStatus::Other => Some(UNKNOWN_ERROR_DEFAULT_REMARK@),
    }
}

/// The response with the code of a status, and with its remark where it has one.
pub open spec fn status_response(
    status: PutMessageStatus,
    response: crate::command::CommandView,
) -> crate::command::CommandView {
    match status_remark(status) {
        Some(remark) => response.with_verdict(status_code(status), remark),
        None => response.with_code(status_code(status)),
    }
}

/// Words the reply of the store for the producer, and says whether the message is stored.
pub fn answer_status(status: PutMessageStatus, response: RemotingCommand) -> (r: (
    bool,
    RemotingCommand,
))
    ensures
        r.0 == stored(status),
        r.1@ == status_response(status, response@),
{
    let (code, remark): (i32, &str) = match status {
        PutMessageStatus::PutOk => {
            return (true, response.set_code(SUCCESS));
        },
        PutMessageStatus::FlushDiskTimeout => {
            return (true, response.set_code(FLUSH_DISK_TIMEOUT));
        },
        PutMessageStatus::FlushSlaveTimeout => {
            return (true, response.set_code(FLUSH_SLAVE_TIMEOUT));
        },
        PutMessageStatus::SlaveNotAvailable => {
            return (true, response.set_code(SLAVE_NOT_AVAILABLE));
        },
        PutMessageStatus::ServiceNotAvailable => (
            SERVICE_NOT_AVAILABLE,
            SERVICE_NOT_AVAILABLE_REMARK,
        ),
        PutMessageStatus::CreateMappedFileFailed => (
            SYSTEM_ERROR,
            CREATE_MAPPED_FILE_FAILED_REMARK,
        ),
        PutMessageStatus::MessageIllegal | PutMessageStatus::PropertiesSizeExceeded => (
            MESSAGE_ILLEGAL,
            MESSAGE_ILLEGAL_REMARK,
        ),
        PutMessageStatus::OsPageCacheBusy => (SYSTEM_ERROR, PAGE_CACHE_BUSY_REMARK),
        PutMessageStatus::UnknownError => (SYSTEM_ERROR, UNKNOWN_ERROR_REMARK),
        PutMessageStatus::InSyncReplicasNotEnough => (SYSTEM_ERROR, IN_SYNC_REPLICAS_REMARK),
        PutMessageStatus::LmqConsumeQueueNumExceeded => (SYSTEM_ERROR, LMQ_NUM_EXCEEDED_REMARK),
        PutMessageStatus::WheelTimerFlowControl => (SYSTEM_ERROR, TIMER_FLOW_CONTROL_REMARK),
        PutMessageStatus::WheelTimerMsgIllegal => (MESSAGE_ILLEGAL, TIMER_ILLEGAL_REMARK),
        PutMessageStatus::WheelTimerNotEnable => (SYSTEM_ERROR, TIMER_NOT_ENABLED_REMARK),
        PutMessageStatus::Other => (SYSTEM_ERROR, UNKNOWN_ERROR_DEFAULT_REMARK),
    };
    (false, response.set_code(code).set_remark(Some(remark.to_owned())))
}

} // verus!
