//! A one-screen pandemic statistics dashboard: the layout of the screen, the
//! content of each widget, and the input loop that redraws or quits.

pub mod dashboard;
pub mod layout;
pub mod render_loop;
pub mod snapshot;
pub mod text;
