//! Button events and the screens that they drive.

pub mod buttons;
pub mod cursor;
pub mod hscroller;
pub mod menu;
pub mod message_scroller;
pub mod message_validator;
pub mod single_message;
pub mod source;
pub mod validator;
pub mod widget;

pub use buttons::{get_button_event, ButtonsState, Event};
pub use hscroller::HScroller;
pub use menu::Menu;
pub use message_scroller::{MessageScroller, CHAR_N};
pub use message_validator::MessageValidator;
pub use single_message::{popup, SingleMessage};
pub use source::{get_event, next_action, receive, Delivery, SourceAction};
pub use validator::Validator;
pub use widget::{play, Reaction, Widget};
