//! Replay of NASDAQ ITCH 5.0 market data into level-3 order books.
//!
//! `itch` decodes messages; `orderbook` keeps each symbol's orders and price
//! levels (with what its operations keep and undo proved in `book_laws`);
//! `processor` applies events to a book and takes a snapshot row after each,
//! held in the arrow columns of `columns`; `handler` routes raw messages to
//! the processor of their symbol.
pub mod common;
pub mod text;
pub mod itch;
pub mod itch_laws;
pub mod orderbook;
pub mod book_laws;
pub mod columns;
pub mod processor;
pub mod handler;
pub mod event_laws;
