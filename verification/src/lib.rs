//! The logic of a multi-user chat service: how uploaded files are named,
//! stored and referred to, which chats and messages are accepted, how users
//! register and sign in, how requests are authenticated, and which users a
//! change is pushed to. Everything that talks to the network, the database
//! or the file system stays outside this crate and hands it plain values.

pub mod text;
pub mod error;
pub mod file;
pub mod models;
pub mod chat;
pub mod messages;
pub mod user;
pub mod jwt;
pub mod config;
pub mod middleware;
pub mod handlers;

pub use chat::{ChatStep, CreateChat, UpdateChat};
pub use config::{AppConfig, AuthConfig, ConfigSource, ServerConfig};
pub use error::{AppError, ErrorKind, ErrorOutput};
pub use file::ChatFile;
pub use handlers::AuthOutput;
pub use jwt::{DecodingKey, EncodingKey, TokenPolicy};
pub use messages::{CreateMessage, ListMessages, MessageStep};
pub use middleware::{Params, Rejection};
pub use models::{AppEvent, Chat, ChatType, ChatUser, Message, Notification, NotifyChannel, User, Workspace};
pub use user::{CreateUser, SignInUser, SignupProgress, SignupStep};
