//! The two views and the window loop that drives them.

pub mod acoustic_field_slice_viewer;
mod setting;
pub mod sound_source_viewer;
pub mod window;

pub use acoustic_field_slice_viewer::AcousticFiledSliceViewer;
pub use setting::ViewerSettings;
pub use sound_source_viewer::SoundSourceViewer;
pub use window::UpdateHandler;
pub use window::ViewWindow;
