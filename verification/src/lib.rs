//! A small weather client's verified core: the screen state machine, the
//! lookup request URL, the response-record validation, and the formatter
//! that renders a record as display text. The rendering layer and the
//! network round trip sit outside, driving these transitions.

pub mod text;
pub mod state;
pub mod weather;
