//! Loading of a document configuration (a title and its authors) from JSON
//! text, with a typed error for each way in which loading can fail, and the
//! front-matter block that heads a new garden page.

pub mod json;
pub mod config;
pub mod error;
pub mod load;
pub mod frontmatter;
