//! The client side of RRC, a chat protocol over Reticulum links.
//!
//! The library decides and the caller acts. [`client`] checks requests and drafts what they
//! send, [`actor`] and [`report`] keep the sessions with the hubs and say, effect by effect,
//! what is to be done, and [`wait`] says when a wait is over. [`laws`] and [`soundness`] state
//! what holds across calls.
pub mod actor;
pub mod client;
pub mod command;
pub mod delivery;
pub mod directory;
pub mod effect;
pub mod inbound;
pub mod laws;
pub mod link;
pub mod notice;
pub mod order;
pub mod ordered_map;
pub mod queue;
pub mod replica;
pub mod report;
pub mod request;
pub mod resource;
pub mod sequence;
pub mod session;
pub mod soundness;
pub mod text;
pub mod types;
pub mod wait;

pub use client::RrcClient;
pub use types::{
    Envelope, Error, Event, Hub, Message, MessageKind, Resource, RoomInfo, RoomMode, UserInfo,
};
