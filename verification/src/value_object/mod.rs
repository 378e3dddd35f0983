pub mod email;
pub mod id;
mod marker;
pub mod password;
pub mod role;
pub mod timestamp;
pub mod username;

pub use email::Email;
pub use id::Id;
pub use password::Password;
pub use role::Role;
pub use timestamp::Timestamp;
pub use username::UserName;
