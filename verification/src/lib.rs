//! A verified client model for the Pushcut push-notification service: the
//! payload data model with its canonical JSON encoding (lower-camel-case
//! keys, absent fields omitted at every nesting level, untagged sound and
//! image unions, the action kind flattened to a sibling field), the URL and
//! header construction for both credential variants, and the interpretation
//! of the service's response. The single HTTP exchange itself is left to the
//! embedding program.
pub mod encode;
pub mod laws;
pub mod model;
pub mod transport;
pub mod wire;

