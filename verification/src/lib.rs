pub mod date;
pub mod errors;
pub mod feed;
pub mod parser;
pub mod pipeline;
pub mod post;
pub mod resolver;
pub mod writer;
