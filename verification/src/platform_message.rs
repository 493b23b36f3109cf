//! Platform messages: a channel name, a payload of bytes, and for a message
//! that wants an answer the handle through which the answer goes back.

use vstd::prelude::*;
use vstd::slice::slice_to_vec;
use vstd::utf8::{decode_utf8, encode_utf8, valid_utf8};

verus! {

/// The text that `String::from_utf8_lossy` makes of `bytes`.
pub uninterp spec fn lossy_text(bytes: Seq<u8>) -> Seq<char>;

/// Calls `String::from_utf8_lossy` of the standard library, which decodes
/// UTF-8 and puts the replacement character in place of what is not UTF-8.
/// Bytes that are UTF-8 throughout come out as the text they encode.
#[verifier::external_body]
fn decode_lossy(bytes: &Vec<u8>) -> (text: String)
    ensures
        text@ == lossy_text(bytes@),
        valid_utf8(bytes@) ==> text@ == decode_utf8(bytes@),
{
    String::from_utf8_lossy(bytes).into_owned()
}

/// The right to answer one platform message, once. The handle names what
/// the engine keeps for the answer; sending the answer, or handing the
/// handle over to the engine, uses it up. A handle that is let go while it
/// still names something leaves the engine waiting for good.
#[derive(Debug, PartialEq, Eq)]
pub struct PlatformMessageResponseHandle {
    handle: usize,
}

impl PlatformMessageResponseHandle {
    /// The address that the engine knows the answer by; zero for none.
    pub closed spec fn raw(&self) -> usize {
        self.handle
    }

    /// Whether an answer is still owed: the handle names something.
    pub open spec fn is_unanswered(&self) -> bool {
        self.raw() != 0
    }

    /// The handle for what the engine keeps at `handle`.
    pub fn from_raw(handle: usize) -> (owned: PlatformMessageResponseHandle)
        ensures
            owned.raw() == handle,
    {
        PlatformMessageResponseHandle { handle }
    }

    /// Gives the handle up and returns the address it named. The answer is
    /// now owed by whoever takes the address.
    pub fn into_raw(self) -> (handle: usize)
        ensures
            handle == self.raw(),
    {
        self.handle
    }

    /// Executable form of [`PlatformMessageResponseHandle::is_unanswered`].
    /// Whoever lets a handle go asks this first, to report an answer that
    /// was never sent.
    pub fn unanswered(&self) -> (owed: bool)
        ensures
            owed == self.is_unanswered(),
    {
        self.handle != 0
    }
}

/// What is kept for an answer that is awaited: the callback that takes it.
pub struct PendingResponse<F> {
    callback: F,
}

impl<F: FnOnce(&[u8])> PendingResponse<F> {
    pub closed spec fn spec_callback(self) -> F {
        self.callback
    }

    /// Keeps `callback` for the answer.
    pub fn new(callback: F) -> (pending: PendingResponse<F>)
        ensures
            pending.spec_callback() == callback,
    {
        PendingResponse { callback }
    }

    /// The answer has come. The callback is called with `message`, and what
    /// was kept is used up: there is no second call.
    pub fn respond(self, message: &[u8])
        requires
            call_requires(self.spec_callback(), (message,)),
        ensures
            call_ensures(self.spec_callback(), (message,), ()),
    {
        (self.callback)(message)
    }
}

/// A platform message.
#[derive(Debug, PartialEq, Eq)]
pub struct PlatformMessage {
    pub channel: String,
    pub message: Vec<u8>,
    pub response_handle: Option<PlatformMessageResponseHandle>,
}

/// A platform message as the engine takes and gives it: the channel name as
/// the bytes of a C string, without the zero byte that ends it, and the
/// address of the response handle, zero for none.
#[derive(Clone, Debug, PartialEq, Eq)]
pub struct FlutterPlatformMessage {
    pub channel: Vec<u8>,
    pub message: Vec<u8>,
    pub response_handle: usize,
}

/// Whether `bytes` can stand in a C string: none of them is zero.
pub open spec fn has_no_zero_byte(bytes: Seq<u8>) -> bool {
    forall|i: int| 0 <= i < bytes.len() ==> bytes[i] != 0
}

/// The address that stands for `handle` in a native message.
pub open spec fn handle_address(handle: Option<PlatformMessageResponseHandle>) -> usize {
    match handle {
        Some(handle) => handle.raw(),
        None => 0,
    }
}

impl PlatformMessage {
    /// Whether the message can be given to the engine: its channel name has
    /// no zero byte in it.
    pub open spec fn is_sendable(&self) -> bool {
        has_no_zero_byte(encode_utf8(self.channel@))
    }

    /// Executable form of [`PlatformMessage::is_sendable`].
    pub fn sendable(&self) -> (yes: bool)
        ensures
            yes == self.is_sendable(),
    {
        let bytes = self.channel.as_str().as_bytes();
        let mut index: usize = 0;
        while index < bytes.len()
            invariant
                index <= bytes@.len(),
                bytes@ == encode_utf8(self.channel@),
                forall|i: int| 0 <= i < index ==> bytes@[i] != 0,
            decreases bytes@.len() - index,
        {
            if bytes[index] == 0 {
                return false;
            }
            index += 1;
        }
        true
    }

    /// The message as the engine takes it. The response handle, if there is
    /// one, is given up to the engine.
    pub fn into_native(self) -> (native: FlutterPlatformMessage)
        requires
            self.is_sendable(),
        ensures
            native.channel@ == encode_utf8(self.channel@),
            native.message@ == self.message@,
            native.response_handle == handle_address(self.response_handle),
    {
        let channel = slice_to_vec(self.channel.as_str().as_bytes());
        let response_handle = match self.response_handle {
            Some(handle) => handle.into_raw(),
            None => 0,
        };
        FlutterPlatformMessage { channel, message: self.message, response_handle }
    }

    /// The message that the engine has given. The channel name is decoded
    /// leniently; a response handle is there exactly if the address is not
    /// zero.
    pub fn from_native(native: FlutterPlatformMessage) -> (message: PlatformMessage)
        ensures
            message.channel@ == lossy_text(native.channel@),
            valid_utf8(native.channel@) ==> message.channel@ == decode_utf8(native.channel@),
            message.message@ == native.message@,
            native.response_handle == 0 ==> message.response_handle is None,
            native.response_handle != 0 ==> message.response_handle is Some
                && message.response_handle->0.raw() == native.response_handle,
    {
        let channel = decode_lossy(&native.channel);
        let response_handle = if native.response_handle == 0 {
            None
        } else {
            Some(PlatformMessageResponseHandle::from_raw(native.response_handle))
        };
        PlatformMessage { channel, message: native.message, response_handle }
    }
}

/// A channel name survives the way to the engine and back: its bytes are
/// UTF-8, and decoding them gives the name again.
pub proof fn lemma_channel_round_trip(channel: Seq<char>)
    ensures
        valid_utf8(encode_utf8(channel)),
        decode_utf8(encode_utf8(channel)) == channel,
{
    vstd::utf8::encode_utf8_valid_utf8(channel);
    vstd::utf8::encode_utf8_decode_utf8(channel);
}

/// A response handle survives the way to the engine and back: the address
/// that stands for it is zero exactly if no answer is owed.
pub proof fn lemma_handle_round_trip(handle: Option<PlatformMessageResponseHandle>)
    ensures
        handle_address(handle) != 0 <==> (handle is Some && handle->0.is_unanswered()),
{
}

} // verus!
