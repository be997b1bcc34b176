//! Ultidesk's platform-independent logic: projection and KVM state machines, input
//! loop prevention, key translation and forwarding, identities and pairing codes,
//! pinned peers and their permissions, the IPC session gate and relay routing, the
//! audio stream format, configuration and runtime paths, and saved audio routes.

pub mod protocol;
pub mod ids;
pub mod input_guard;
pub mod keymap;
pub mod kvm;
pub mod projection;
pub mod paths;
pub mod error;
pub mod scroll;
pub mod audio;
mod text;
pub mod hex;
pub mod crypto;
pub mod bytes;
pub mod key;
pub mod sas;
pub mod peers;
pub mod store;
pub mod ipc;
pub mod session;
pub mod forward;
pub mod endpoint;
pub mod answer;
pub mod file;
pub mod settings;
pub mod relay;
pub mod handoff;
pub mod sink;
