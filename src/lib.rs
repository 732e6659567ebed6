pub mod error;
pub mod github;
pub mod server;

pub use error::GHAPIError;
pub use github::{GithubAPI, Repository};
