//! Static start-page generator: a configuration model and a renderer that
//! turns it into an HTML document and a stylesheet.
//!
//! - [`config`] holds the configuration and its defaults,
//! - [`font`] derives format, file name and `@font-face` block of a custom font,
//! - [`escape`] and [`markup`] say what the document is and write it,
//! - [`page`] is the renderer,
//! - [`resources`] holds the style texts that ship with the library,
//! - [`markup_content`], [`markup_sections`] and [`occurrence`] prove what
//!   the document shows and what it leaves out.

pub mod config;
pub mod escape;
pub mod font;
pub mod markup;
pub mod markup_content;
pub mod markup_sections;
pub mod occurrence;
pub mod page;
pub mod resources;
