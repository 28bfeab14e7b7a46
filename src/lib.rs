pub mod alert;
pub mod capture;
pub mod compose;
pub mod geometry;
pub mod image_widget;
pub mod raster;
pub mod resizable_box;
pub mod selection;
pub mod shortcut_keys;
pub mod zstack;
