pub mod chars;
pub mod cmark;
pub mod events;
pub mod fences;
pub mod ids;
pub mod links;
pub mod pipeline;
pub mod quotes;
