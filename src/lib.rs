//! A modal terminal text editor: the text buffer, the cursor and viewport,
//! the modal key dispatcher and the screen composer, each with its contract.

mod text;

pub mod document;
pub mod state;
pub mod editor;
pub mod screen;

pub use document::Row;
pub use document::Document;
pub use editor::Editor;
pub use screen::compose_status;
pub use state::Action;
pub use state::Key;
pub use state::Mode;
pub use state::Position;
pub use state::Size;
pub use state::Status;
