//! Errors of transports.
use vstd::prelude::*;
use vstd::string::*;

verus! {

#[derive(Debug)]
pub enum TransportError {
    AudioWrite(String),
    VideoWrite(String),
    MessageSend(String),
    ChannelClosed(String),
    NotStarted,
}

impl TransportError {
    /// What the error says.
    pub open spec fn text(self) -> Seq<char> {
        match self {
            TransportError::AudioWrite(why) => "audio write failed: "@ + why@,
            TransportError::VideoWrite(why) => "video write failed: "@ + why@,
            TransportError::MessageSend(why) => "message send failed: "@ + why@,
            TransportError::ChannelClosed(why) => "internal channel closed: "@ + why@,
            TransportError::NotStarted => "transport not started"@,
        }
    }

    /// The error in words.
    pub fn message(&self) -> (r: String)
        ensures
            r@ == self.text(),
    {
        match self {
            TransportError::AudioWrite(why) => "audio write failed: ".to_owned().concat(
                why.as_str(),
            ),
            TransportError::VideoWrite(why) => "video write failed: ".to_owned().concat(
                why.as_str(),
            ),
            TransportError::MessageSend(why) => "message send failed: ".to_owned().concat(
                why.as_str(),
            ),
            TransportError::ChannelClosed(why) => "internal channel closed: ".to_owned().concat(
                why.as_str(),
            ),
            TransportError::NotStarted => "transport not started".to_owned(),
        }
    }
}

} // verus!
