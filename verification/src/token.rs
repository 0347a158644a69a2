//! The completion data of an asynchronous operation.

use vstd::prelude::*;

use crate::errors::{error_message, error_message_text, error_of_rc, error_of_rc_msg, Error};
use crate::server_response::{RequestResponseView, ServerResponse, ServerResponseView};
use crate::message::Message;
use crate::reason_code::ReasonCode;

verus! {

/// The result data for a token: what the client engine reports when an
/// asynchronous operation completes.
#[derive(Debug)]
pub struct TokenData {
    /// Whether the async action has completed
    pub complete: bool,
    /// The MQTT Message ID
    pub msg_id: i16,
    /// The return/error code for the action (zero is success)
    pub ret_code: i32,
    /// Additional detail error message (if any)
    pub err_msg: Option<String>,
    /// The server response (dependent on the request type)
    pub srvr_rsp: ServerResponse,
}

/// The server response of fresh token data: empty.
pub open spec fn empty_response() -> ServerResponseView {
    ServerResponseView {
        rsp: RequestResponseView::NoResponse,
        props: Seq::empty(),
        reason_code: ReasonCode::Success,
    }
}

impl TokenData {
    /// Creates token data for a specific message
    pub fn from_message_id(msg_id: i16) -> (r: TokenData)
        ensures
            !r.complete,
            r.msg_id == msg_id,
            r.ret_code == 0,
            r.err_msg is None,
            r.srvr_rsp@ == empty_response(),
    {
        TokenData {
            complete: false,
            msg_id,
            ret_code: 0,
            err_msg: None,
            srvr_rsp: ServerResponse::new(),
        }
    }

    /// Creates token data that tracks the delivery of a message: its
    /// message id is the one in the message's C struct.
    pub fn from_message(msg: &Message) -> (r: TokenData)
        ensures
            !r.complete,
            r.msg_id == msg.cmsg.msgid as i16,
            r.ret_code == 0,
            r.err_msg is None,
            r.srvr_rsp@ == empty_response(),
    {
        Self::from_message_id(msg.cmsg.msgid as i16)
    }

    /// Creates token data that is already complete with a return code; a
    /// failure code comes with its error message.
    pub fn from_error(rc: i32) -> (r: TokenData)
        ensures
            r.complete,
            r.msg_id == 0,
            r.ret_code == rc,
            rc != 0 ==> (r.err_msg matches Some(m) && m@ == error_message_text(rc)),
            rc == 0 ==> r.err_msg is None,
            r.srvr_rsp@ == empty_response(),
    {
        let err_msg = if rc != 0 {
            Some(String::from_str(error_message(rc)))
        } else {
            None
        };
        TokenData { complete: true, msg_id: 0, ret_code: rc, err_msg, srvr_rsp: ServerResponse::new() }
    }
}

impl Default for TokenData {
    /// Token data for an operation that has not completed.
    fn default() -> (r: Self)
        ensures
            !r.complete,
            r.msg_id == 0,
            r.ret_code == 0,
            r.err_msg is None,
            r.srvr_rsp@ == empty_response(),
    {
        Self::from_message_id(0)
    }
}


/// The error that a failed operation reports: the one for its return code
/// and, when there is one, its description.
pub open spec fn completion_error(d: TokenData) -> Error {
    match d.err_msg {
        Some(m) => error_of_rc_msg(d.ret_code, m@),
        None => error_of_rc(d.ret_code),
    }
}

/// What waiting on a token whose data is `d` gives: nothing while the
/// operation is in progress; once it completed, the server response on
/// success (a zero return code) or the operation's error.
pub open spec fn token_outcome(d: TokenData, r: Option<Result<ServerResponse, Error>>) -> bool {
    if !d.complete {
        r is None
    } else if d.ret_code == 0 {
        r matches Some(Ok(rsp)) && rsp@ == d.srvr_rsp@
    } else {
        r matches Some(Err(e)) && e == completion_error(d)
    }
}

/// What waiting on a delivery token whose data is `d` gives: nothing while
/// the publish is in progress; once it completed, success for a zero return
/// code or the operation's error.
pub open spec fn delivery_outcome(d: TokenData, r: Option<Result<(), Error>>) -> bool {
    if !d.complete {
        r is None
    } else if d.ret_code == 0 {
        r matches Some(Ok(_))
    } else {
        r matches Some(Err(e)) && e == completion_error(d)
    }
}

/// The return code that a failure report with the code gives an operation:
/// the code itself, or -1 (a general failure) when the report carries 0.
pub open spec fn failure_code(code: i32) -> i32 {
    if code == 0 {
        -1i32
    } else {
        code
    }
}

/// The return code that a failure report with the code gives an operation:
/// the code itself, or -1 (a general failure) when the report carries 0.
pub fn failure_return_code(code: i32) -> (rc: i32)
    ensures
        rc == failure_code(code),
{
    if code == 0 {
        -1
    } else {
        code
    }
}

impl TokenData {
    /// Records the completion of the operation: its return code, the
    /// description of a failure, if any, and the server response, if one
    /// came; without one the response held so far stays.
    pub fn on_complete(&mut self, rc: i32, err_msg: Option<String>, srvr_rsp: Option<ServerResponse>)
        ensures
            final(self).complete,
            final(self).msg_id == old(self).msg_id,
            final(self).ret_code == rc,
            final(self).err_msg == err_msg,
            final(self).srvr_rsp == (match srvr_rsp {
                Some(rsp) => rsp,
                None => old(self).srvr_rsp,
            }),
    {
        self.complete = true;
        self.ret_code = rc;
        self.err_msg = err_msg;
        if let Some(rsp) = srvr_rsp {
            self.srvr_rsp = rsp;
        }
    }

    /// Non-blocking check of the operation's result: `None` while it is in
    /// progress; otherwise the response from the server on success, or
    /// the error made from the return code and its description.
    pub fn result(&self) -> (r: Option<Result<ServerResponse, Error>>)
        ensures
            token_outcome(*self, r),
    {
        if !self.complete {
            None
        } else if self.ret_code == 0 {
            Some(Ok(self.srvr_rsp.clone()))
        } else {
            Some(Err(self.error()))
        }
    }

    /// Non-blocking check of a publish operation's result: `None` while it
    /// is in progress; otherwise success, or the error made from the return
    /// code and its description.
    pub fn delivery_result(&self) -> (r: Option<Result<(), Error>>)
        ensures
            delivery_outcome(*self, r),
    {
        if !self.complete {
            None
        } else if self.ret_code == 0 {
            Some(Ok(()))
        } else {
            Some(Err(self.error()))
        }
    }

    /// The error of the return code and the description.
    fn error(&self) -> (e: Error)
        ensures
            e == completion_error(*self),
    {
        let msg = match &self.err_msg {
            Some(m) => Some(m.clone()),
            None => None,
        };
        Error::from_rc_opt(self.ret_code, msg)
    }
}

/// An operation that the library reports as failed never resolves as a
/// success: waiting on it gives an error.
pub proof fn lemma_failure_resolves_to_error(
    d: TokenData,
    code: i32,
    r: Option<Result<ServerResponse, Error>>,
)
    requires
        d.complete,
        d.ret_code == failure_code(code),
        token_outcome(d, r),
    ensures
        r matches Some(Err(e)) && e == completion_error(d),
{
}

} // verus!
