//! Session and protocol engine of a live classroom screen broadcast.
//!
//! - `message`: the messages exchanged between teacher and students.
//! - `codec`: length-prefixed framing with a payload cap.
//! - `registry`: the connected students, their outbound queues and fan-out.
//! - `server`: the teacher's broadcast state machine and connection handling.
//! - `student`: the student's reactions to the teacher's messages.
//! - `transfer`: file transfer sessions on either side.
//! - `capture`, `media`: capture pipeline state, frame packaging, pixels and audio.
//! - `console`: the console command language of both sides.
//! - `config`, `text`, `net`, `video`: settings, string helpers, transport
//!   binding and the render thread handle.

pub mod capture;
pub mod codec;
pub mod config;
pub mod console;
pub mod media;
pub mod message;
pub mod net;
pub mod registry;
pub mod server;
pub mod student;
pub mod text;
pub mod transfer;
pub mod video;
