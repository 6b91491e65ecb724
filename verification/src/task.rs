//! The decisions of the task that receives Jetstream events: what to do with
//! each thing the WebSocket connection hands over. The caller reads the
//! connection, parses JSON and delivers events; this module says which of
//! these comes next and when the task ends.
use vstd::prelude::*;

use crate::error::JetstreamEventError;

verus! {

/// The stage at which zstd decompression of a message failed.
#[derive(Clone, Copy, Debug, PartialEq, Eq, Structural)]
pub enum DecompressionStage {
    /// Setting the decoder up with the dictionary.
    Dictionary,
    /// Decoding the message into text.
    Decoder,
}

/// What decompressing `frame` with the zstd `dictionary` and reading the result
/// as UTF-8 text gives: the text, or the stage that failed.
pub uninterp spec fn zstd_text(frame: Seq<u8>, dictionary: Seq<u8>) -> Result<
    Seq<char>,
    DecompressionStage,
>;

/// Calls `zstd::stream::read::Decoder::with_dictionary` on the frame and the
/// dictionary and reads the decoder to its end with `Read::read_to_string`.
/// Trusted: the outcome is named by [`zstd_text`]; a failure to set the
/// decoder up comes back as `CompressionDictionaryError`, one while reading
/// (bad frame, text not UTF-8) as `CompressionDecoderError`. The `io::Error`
/// that each carries is not stated.
#[verifier::external_body]
fn decompress_text(frame: &[u8], dictionary: &[u8]) -> (text: Result<String, JetstreamEventError>)
    ensures
        match zstd_text(frame@, dictionary@) {
            Ok(t) => text matches Ok(s) && s@ == t,
            Err(DecompressionStage::Dictionary) => text matches Err(
                JetstreamEventError::CompressionDictionaryError(_),
            ),
            Err(DecompressionStage::Decoder) => text matches Err(
                JetstreamEventError::CompressionDecoderError(_),
            ),
        },
{
    let mut decoder = match zstd::stream::read::Decoder::with_dictionary(frame, dictionary) {
        Ok(decoder) => decoder,
        Err(e) => return Err(JetstreamEventError::CompressionDictionaryError(e)),
    };
    let mut text = String::new();
    match std::io::Read::read_to_string(&mut decoder, &mut text) {
        Ok(_) => Ok(text),
        Err(e) => Err(JetstreamEventError::CompressionDecoderError(e)),
    }
}

/// A message read from the WebSocket connection.
#[derive(Clone, Debug, PartialEq, Eq)]
pub enum WebSocketMessage {
    /// A text message: an event as JSON.
    Text(String),
    /// A binary message: an event as zstd-compressed JSON.
    Binary(Vec<u8>),
    /// A ping, pong, close or raw frame.
    Other,
}

/// What happened since the last action.
#[derive(Debug)]
pub enum TaskEvent {
    /// The connection gave a message.
    Received(WebSocketMessage),
    /// The connection gave an error.
    ReadFailed,
    /// The connection has no more messages.
    StreamEnded,
    /// The JSON was parsed into an event, or why it was not.
    Parsed(Result<(), serde_json::Error>),
    /// The event was handed to the receivers (`true`), or every receiver was
    /// gone (`false`).
    Delivered(bool),
}

/// What the task does next.
#[derive(Debug)]
pub enum TaskAction {
    /// Read the next message of the connection.
    ReadNext,
    /// Parse this JSON text into an event.
    ParseJson(String),
    /// Hand the parsed event to the receivers.
    Deliver,
    /// End the task with this result.
    Stop(Result<(), JetstreamEventError>),
}

/// The next action of the receiving task after `event`, where `dictionary` is
/// the zstd dictionary of compressed messages.
pub fn step(event: TaskEvent, dictionary: &[u8]) -> (next: TaskAction)
    ensures
        match event {
            TaskEvent::Received(WebSocketMessage::Text(json)) => next matches TaskAction::ParseJson(t)
                && t@ == json@,
            TaskEvent::Received(WebSocketMessage::Binary(frame)) => match zstd_text(
                frame@,
                dictionary@,
            ) {
                Ok(json) => next matches TaskAction::ParseJson(t) && t@ == json,
                Err(DecompressionStage::Dictionary) => next matches TaskAction::Stop(
                    Err(JetstreamEventError::CompressionDictionaryError(_)),
                ),
                Err(DecompressionStage::Decoder) => next matches TaskAction::Stop(
                    Err(JetstreamEventError::CompressionDecoderError(_)),
                ),
            },
            TaskEvent::Received(WebSocketMessage::Other) => next is ReadNext,
            TaskEvent::ReadFailed => next matches TaskAction::Stop(Ok(())),
            TaskEvent::StreamEnded => next matches TaskAction::Stop(Ok(())),
            TaskEvent::Parsed(Ok(())) => next is Deliver,
            TaskEvent::Parsed(Err(e)) => next matches TaskAction::Stop(
                Err(JetstreamEventError::ReceivedMalformedJSON(f)),
            ) && f == e,
            TaskEvent::Delivered(sent) => if sent {
                next is ReadNext
            } else {
                next matches TaskAction::Stop(Ok(()))
            },
        },
        next matches TaskAction::Stop(Err(e)) ==> e is ReceivedMalformedJSON
            || e is CompressionDictionaryError || e is CompressionDecoderError,
{
    match event {
        TaskEvent::Received(WebSocketMessage::Text(json)) => TaskAction::ParseJson(json),
        TaskEvent::Received(WebSocketMessage::Binary(frame)) => {
            match decompress_text(frame.as_slice(), dictionary) {
                Ok(json) => TaskAction::ParseJson(json),
                Err(e) => TaskAction::Stop(Err(e)),
            }
        },
        TaskEvent::Received(WebSocketMessage::Other) => TaskAction::ReadNext,
        TaskEvent::ReadFailed => TaskAction::Stop(Ok(())),
        TaskEvent::StreamEnded => TaskAction::Stop(Ok(())),
        TaskEvent::Parsed(Ok(())) => TaskAction::Deliver,
        TaskEvent::Parsed(Err(e)) => TaskAction::Stop(
            Err(JetstreamEventError::ReceivedMalformedJSON(e)),
        ),
        TaskEvent::Delivered(sent) => {
            if sent {
                TaskAction::ReadNext
            } else {
                TaskAction::Stop(Ok(()))
            }
        },
    }
}

} // verus!
