//! A local tool-invocation service: a JSON-RPC tool protocol over newline-delimited
//! frames, a registry of composable tools, a singleton lock record, and the client side.

use vstd::prelude::*;

pub mod cli;
pub mod client;
pub mod decimal;
pub mod host;
pub mod json;
pub mod lock;
pub mod memes;
pub mod protocol;
pub mod router;
pub mod server;
pub mod syscmd;
pub mod tools;

pub use memes::{
    category_emoji, category_name, filter_memes, get_memes, AnyMeme, EncryptedState, Meme, MemeCategory,
    MemeLoader, MemeLoaderError, MemeSource, StaticMemeSource,
};
pub use server::EchoServerTool;
pub use syscmd::{
    BinSystemCommand, DiskUsageInfo, DiskUsageOutput, KillProcessInput, ListPortsOutput, LibSystemCommand,
    MemoryUsageOutput, PortConnection,
};
pub use tools::{EchoInput, TimeInput, WeatherInput};

verus! {

} // verus!
