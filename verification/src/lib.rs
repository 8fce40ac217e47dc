//! Read-only introspection of a SQL Server instance through a fixed catalog of
//! tools: statement construction, the read-only guard, session decisions and
//! the projection of result sets to text.

pub mod connection;
pub mod error;
pub mod json;
pub mod server;
pub mod text;
pub mod tools;

pub use connection::Args;
