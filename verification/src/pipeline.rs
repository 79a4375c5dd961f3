//! The stages of the indexer that hand data to each other over channels.
use vstd::prelude::*;
use std::sync::mpsc::{Receiver, Sender};
use crate::input::JsonSite;
use crate::records::RustStash;

verus! {

#[verifier::external_type_specification]
#[verifier::external_body]
#[verifier::reject_recursive_types(T)]
pub struct ExReceiver<T>(Receiver<T>);

#[verifier::external_type_specification]
#[verifier::external_body]
#[verifier::reject_recursive_types(T)]
pub struct ExSender<T>(Sender<T>);

/// The message that ends the logger.
pub const STOP_MESSAGE: &'static str = "stop";

/// The logger stage: it prints the messages of the other stages.
pub struct Logger {
    pub receive: Receiver<String>,
}

/// What the logger does with what it received.
pub enum LogAction {
    /// Print the message.
    Print(String),
    /// Report that receiving failed.
    ReportError,
    /// Stop logging.
    Stop,
}

impl Logger {
    pub fn new(recv: Receiver<String>) -> (l: Logger)
        ensures
            l.receive == recv,
    {
        Logger { receive: recv }
    }

    /// What to do with a message, `None` where receiving failed: stop at
    /// `stop`, print anything else.
    pub fn action(msg: Option<String>) -> (a: LogAction)
        ensures
            match msg {
                None => a is ReportError,
                Some(m) => if m@ == STOP_MESSAGE@ {
                    a is Stop
                } else {
                    a matches LogAction::Print(p) && p@ == m@
                },
            },
    {
        match msg {
            None => LogAction::ReportError,
            Some(m) => if crate::text::same_text(m.as_str(), STOP_MESSAGE) {
                LogAction::Stop
            } else {
                LogAction::Print(m)
            },
        }
    }
}

/// The parser stage: it turns pages into stash tabs for the database writer
/// and reports the tabs it cannot parse to the logger.
pub struct Parser {
    pub receive_from_deser: Receiver<JsonSite>,
    pub send_to_dbwriter: Sender<RustStash>,
    pub to_logger: Sender<String>,
}

impl Parser {
    pub fn new(send: Sender<RustStash>, recv: Receiver<JsonSite>, to_logger: Sender<String>) -> (p:
        Parser)
        ensures
            p.send_to_dbwriter == send,
            p.receive_from_deser == recv,
            p.to_logger == to_logger,
    {
        Parser { to_logger, receive_from_deser: recv, send_to_dbwriter: send }
    }
}

} // verus!
