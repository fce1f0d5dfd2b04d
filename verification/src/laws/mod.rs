//! What holds of the server as a whole.
//!
//! What the server is asked, and how it takes it:
//!
//! * [`command_line`]: which arguments ask for what.
//! * [`numbers`]: how a text becomes a number.
//! * [`reading`]: what a client's message is taken for.
//!
//! What it does then:
//!
//! * [`answers`]: who is answered, how often and with what.
//! * [`calls`]: what each call and each answer of the client brings about.
//! * [`record`]: what is written to the call log.
//! * [`starts`]: what the request to start a turn brings about.
//! * [`store`]: a restarted server goes on where the last one was.
//! * [`turns`]: how turns begin and end.
//!
//! What the client gets to see of it:
//!
//! * [`documents`]: what each message of the server says.
//! * [`views`]: that the mathematical forms say what the values hold.
//! * [`wire`]: what goes over the wire.
pub mod answers;
pub mod calls;
pub mod command_line;
pub mod documents;
pub mod numbers;
pub mod reading;
pub mod record;
pub mod starts;
pub mod store;
pub mod turns;
pub mod views;
pub mod wire;
