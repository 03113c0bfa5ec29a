pub mod logger;
pub mod packet;
pub mod protocol;

pub use logger::Logger;
pub use packet::{Boundary, PacketModel, PacketView, RawPacket, SafePacket};
pub use protocol::{ChannelEvent, PluginMode, PollDecision, PollEvent, PollState};
