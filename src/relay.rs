//! The decisions of the relay between the remote chat and the facade: which
//! inbound messages reach the shell, and how outbound chunks become text.
use vstd::prelude::*;
use vstd::utf8::{decode_utf8, valid_utf8};

verus! {

/// The text that a byte chunk decodes to, each invalid sequence replaced by
/// U+FFFD.
pub uninterp spec fn lossy_text(bytes: Seq<u8>) -> Seq<char>;

/// Relies on String::from_utf8_lossy: the text depends on the bytes alone,
/// and valid UTF-8 decodes to the characters it encodes.
#[verifier::external_body]
fn decode_lossy(bytes: &[u8]) -> (r: String)
    ensures
        r@ == lossy_text(bytes@),
        valid_utf8(bytes@) ==> r@ == decode_utf8(bytes@),
{
    String::from_utf8_lossy(bytes).into_owned()
}

/// The text sent to the remote user for one outbound chunk.
pub fn chunk_text(chunk: &[u8]) -> (r: String)
    ensures
        r@ == lossy_text(chunk@),
        valid_utf8(chunk@) ==> r@ == decode_utf8(chunk@),
{
    decode_lossy(chunk)
}

/// Why an inbound message was not passed on to the shell.
#[derive(Clone, Copy, Debug, PartialEq, Eq, Structural)]
pub enum Delivery {
    /// It came from a chat other than the one the bridge serves.
    UnknownChat,
    /// It held no text.
    NotText,
}

/// Decides what an inbound message sends to the shell: its text, unchanged,
/// when it comes from the served chat and holds text; nothing otherwise.
pub fn route_inbound(served_chat: i64, from_chat: i64, text: Option<&str>) -> (r: Result<
    String,
    Delivery,
>)
    ensures
        (r is Ok) == (from_chat == served_chat && text is Some),
        r is Ok ==> r->Ok_0@ == text->Some_0@,
        from_chat != served_chat ==> r == Err::<String, Delivery>(Delivery::UnknownChat),
        from_chat == served_chat && text is None ==> r == Err::<String, Delivery>(
            Delivery::NotText,
        ),
{
    if from_chat != served_chat {
        return Err(Delivery::UnknownChat);
    }
    match text {
        Some(t) => Ok(t.to_owned()),
        None => Err(Delivery::NotText),
    }
}

} // verus!
