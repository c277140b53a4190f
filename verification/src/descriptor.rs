use vstd::prelude::*;
use crate::encoder::Rav1eEncoder;
use crate::config::default_settings;
use crate::error::EncoderError;

verus! {

/// What a codec says of itself.
#[derive(Clone, Copy, Debug, PartialEq, Eq)]
pub struct Descr {
    /// The codec's identifier.
    pub codec: &'static str,
    /// The implementation's name.
    pub name: &'static str,
    /// A description for people.
    pub desc: &'static str,
    /// The MIME type of the coded stream.
    pub mime: &'static str,
}

/// The registration record of the AV1 encoder.
#[derive(Clone, Copy, Debug, PartialEq, Eq)]
pub struct Des {
    descr: Descr,
}

/// Gives the registration record of the AV1 encoder.
pub fn av1_descr() -> (des: Des)
    ensures
        des.description().codec@ == "av1"@,
        des.description().name@ == "rav1e"@,
        des.description().desc@ == "rav1e AV1 encoder"@,
        des.description().mime@ == "video/AV1"@,
{
    Des { descr: Descr { codec: "av1", name: "rav1e", desc: "rav1e AV1 encoder", mime: "video/AV1" } }
}

impl Des {
    /// The record's description.
    pub closed spec fn description(&self) -> Descr {
        self.descr
    }

    /// Makes a fresh encoder: the default configuration, and a session
    /// already opened on it, which has taken no picture and has not been
    /// told of the end of the stream. An encoder always comes back.
    pub fn create(&self) -> (r: Result<Rav1eEncoder, EncoderError>)
        ensures
            r matches Ok(encoder) && encoder.settings() == default_settings()
                && encoder.committed() == default_settings() && !encoder.flushed()
                && encoder.taken().len() == 0,
    {
        Rav1eEncoder::new()
    }

    /// Gives the description.
    pub fn describe(&self) -> (descr: &Descr)
        ensures
            *descr == self.description(),
    {
        &self.descr
    }
}

} // verus!
