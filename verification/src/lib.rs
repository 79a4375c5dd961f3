//! An indexer for the public stash tabs of Path of Exile: it reads the pages
//! of the public stash tab service and turns each stash tab and item into a
//! record with its kind, price, sockets, properties, modifiers and totals.

pub mod crawler;
pub mod input;
pub mod item;
pub mod item_type;
pub mod laws;
pub mod mods;
pub mod pattern;
pub mod pipeline;
pub mod price;
pub mod props;
pub mod records;
pub mod requirements;
pub mod sockets;
pub mod stash;
pub mod storage;
pub mod text;
