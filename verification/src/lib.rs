//! Decoders for the Bluetooth Host Controller Interface (HCI) byte protocol.
//!
//! A raw transport buffer is classified by [`packet::HCIPacket::from_buf`]
//! into Command, ACL-Data, Event or Unknown packets; an Event packet's
//! payload is decoded by [`event::HCIEvent::from_packet`], which recurses
//! into LE-Meta-Event subevent dispatch and hands out lazy iterators over
//! advertising reports and the type-length-value advertising-data entries
//! nested inside them. Every decoded value borrows from the caller's buffer;
//! nothing is copied. All reads go through the bounds-checked [`reader::Reader`]
//! cursor, so no input, however malformed, can make a decoder panic or read
//! outside the buffer.

pub mod event;
pub mod gap;
pub mod packet;
pub mod reader;
pub mod writer;
pub mod wire;
