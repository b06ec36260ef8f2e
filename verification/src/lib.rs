//! Discovery and retrieval of installed system fonts.
//!
//! The crate models a platform-independent font descriptor ([`props::FontProperty`])
//! together with its builder, and a query engine that enumerates or best-matches
//! installed fonts through the native font-matching service (fontconfig).
//! Enumeration results are normalized to a deduplicated, ascending list of
//! family names, whatever order the native service reports them in.

mod backend;

pub mod names;
pub mod order;
pub mod pattern;
pub mod props;
pub mod system_fonts;
