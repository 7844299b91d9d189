mod candidates;
mod error;
mod paths;
mod socket;

pub use candidates::decimal_string;
pub use candidates::default_candidates;
pub use error::SocketError;
pub use paths::build_paths;
pub use paths::xdg_runtime_dir;
pub use socket::WaylandSocket;
