//! SEO check domains, one module per concern. Each module's `run` returns
//! its checks in order.

pub mod content;
pub mod images;
pub mod keywords;
pub mod links;
pub mod meta;
pub mod readability;
pub mod slug;
pub mod title;
