//! The screens, each a state machine of its own.

pub mod common;
pub mod criminal_image_find;
pub mod criminal_registry;
pub mod criminal_video_find;
pub mod criminal_webcam_find;
pub mod main_menu;

pub use criminal_image_find::ImageFindPage;
pub use criminal_registry::RegistryPage;
pub use criminal_video_find::VideoFindPage;
pub use criminal_webcam_find::WebcamFindPage;
pub use main_menu::MainMenu;
