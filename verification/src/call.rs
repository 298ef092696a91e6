//! Call data: the bytes a contract receives, a selector followed by the
//! encoded arguments.

use vstd::prelude::*;
use crate::error::Error;
use crate::{InkConstructor, InkMessage};

verus! {

/// The bytes handed to a contract: the selector, then the arguments.
pub open spec fn call_data(selector: [u8; 4], args: Seq<u8>) -> Seq<u8> {
    selector@ + args
}

/// Puts a selector before already encoded arguments.
pub fn with_selector(selector: [u8; 4], args: Vec<u8>) -> (out: Vec<u8>)
    ensures
        out@ == call_data(selector, args@),
{
    let mut out: Vec<u8> = Vec::new();
    out.push(selector[0]);
    out.push(selector[1]);
    out.push(selector[2]);
    out.push(selector[3]);
    let mut rest = args;
    out.append(&mut rest);
    out
}

/// The call data of a constructor, or `Error::Encoding` where its arguments
/// cannot be encoded.
pub fn encode_constructor<C: InkConstructor>(constructor: &C) -> (out: Result<Vec<u8>, Error>)
    ensures
        match out {
            Ok(bytes) => constructor.encodable() && bytes@ == call_data(
                C::SELECTOR,
                constructor.args(),
            ),
            Err(e) => !constructor.encodable() && e == Error::Encoding,
        },
{
    match constructor.encode() {
        Ok(args) => Ok(with_selector(C::SELECTOR, args)),
        Err(_) => Err(Error::Encoding),
    }
}

/// The call data of one message call, ready to be sent to a contract.
#[derive(Debug)]
pub struct EncodedMessage(pub Vec<u8>);

impl View for EncodedMessage {
    type V = Seq<u8>;

    open spec fn view(&self) -> Seq<u8> {
        self.0@
    }
}

impl EncodedMessage {
    /// The call data of a message, or `Error::Encoding` where its arguments
    /// cannot be encoded.
    pub fn new<M: InkMessage>(call: &M) -> (out: Result<EncodedMessage, Error>)
        ensures
            match out {
                Ok(message) => call.encodable() && message@ == call_data(M::SELECTOR, call.args()),
                Err(e) => !call.encodable() && e == Error::Encoding,
            },
    {
        match call.encode() {
            Ok(args) => Ok(EncodedMessage(with_selector(M::SELECTOR, args))),
            Err(_) => Err(Error::Encoding),
        }
    }

    /// A copy of the message.
    pub fn duplicate(&self) -> (out: EncodedMessage)
        ensures
            out@ == self@,
    {
        let data = self.0.clone();
        EncodedMessage(data)
    }
}

/// A source of message calls, asked once for every call that is dispatched.
/// An implementation may hand out the same message every time or a fresh one.
pub trait CallProducer {
    /// The message that the producer hands out on every call, where it is
    /// one and the same; `None` for a producer whose messages may differ or
    /// that may fail. A producer that says nothing of itself is taken to be
    /// of the second kind.
    open spec fn steady(&self) -> Option<Seq<u8>> {
        None
    }

    /// The next message to send. A steady producer hands out its message
    /// and stays steady; of any other producer nothing is promised.
    fn next(&mut self) -> (out: Result<EncodedMessage, Error>)
        ensures
            old(self).steady() is Some ==> out is Ok && out->Ok_0@ == old(self).steady()->Some_0
                && final(self).steady() == old(self).steady(),
    ;
}

/// A producer that hands out the same message on every call.
pub struct FixedMessage {
    pub message: EncodedMessage,
}

impl FixedMessage {
    /// A producer of `call`, or `Error::Encoding` where `call` cannot be encoded.
    pub fn new<M: InkMessage>(call: &M) -> (out: Result<FixedMessage, Error>)
        ensures
            match out {
                Ok(producer) => call.encodable() && producer.message@ == call_data(
                    M::SELECTOR,
                    call.args(),
                ),
                Err(e) => !call.encodable() && e == Error::Encoding,
            },
    {
        match EncodedMessage::new(call) {
            Ok(message) => Ok(FixedMessage { message }),
            Err(e) => Err(e),
        }
    }
}

impl CallProducer for FixedMessage {
    open spec fn steady(&self) -> Option<Seq<u8>> {
        Some(self.message@)
    }

    fn next(&mut self) -> (out: Result<EncodedMessage, Error>)
        ensures
            *final(self) == *old(self),
            out is Ok,
            out->Ok_0@ == old(self).message@,
    {
        Ok(self.message.duplicate())
    }
}

} // verus!
