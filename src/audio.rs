use std::sync::Arc;
use vstd::prelude::*;

verus! {

/// The notification sound, loaded once and shared read-only by every
/// playback.
#[derive(Debug, Clone)]
pub struct Sound(Arc<Vec<u8>>);

impl View for Sound {
    type V = Seq<u8>;

    closed spec fn view(&self) -> Seq<u8> {
        self.0@
    }
}

impl Sound {
    /// A sound made of the encoded bytes of an audio file.
    pub fn from_bytes(bytes: Vec<u8>) -> (r: Sound)
        ensures
            r@ == bytes@,
    {
        Sound(Arc::new(bytes))
    }

    /// The encoded bytes of the sound.
    pub fn as_bytes(&self) -> (r: &[u8])
        ensures
            r@ == self@,
    {
        self.0.as_slice()
    }
}

} // verus!
