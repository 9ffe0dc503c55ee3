//! A small verified library around a web-event dispatcher: a closed tagged
//! union of five event shapes, a total `describe` operation that renders each
//! event as exactly one line of text, and a few arithmetic and record helpers.

pub mod decimal;
pub mod event;
pub mod numbers;
pub mod user;
