//! The transducers and the settings they are drawn with.

pub(crate) mod setting;
mod sound_source;

pub use setting::is_wave_length;
pub use setting::lemma_wave_length_is;
pub use setting::wave_length_spec;
pub use setting::SoundSourceSettings;
pub use setting::SPEED_OF_SOUND;
pub use sound_source::SoundSource;
