//! The stock widgets' routing and state logic.

pub mod accordion;
pub mod button_group;
pub mod collapsible;
pub mod data_table;
pub mod field;
pub mod input_group;
pub mod input_otp;
pub mod menubar;
pub mod number_scrubber;
pub mod numeric_input;
pub mod popover;
pub mod radio;
pub mod resizable;
pub mod resize_handle;
pub mod select;
pub mod sheet;
pub mod sidebar;
pub mod slider;
pub mod table;
