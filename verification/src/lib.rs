//! A canonicalizing serializer for an in-memory model of CSS stylesheets
//! and HTML documents.
//!
//! The crate holds two independent entity families, each with a pure
//! "render to text" operation: the CSS model (declarations, selectors,
//! rules, media queries, rule sets) in [`css`], and the HTML model
//! (attributes and nodes) in [`html`]. Rendering is total and
//! referentially transparent: the same value always yields the same
//! string, and the exact character sequence is the contract callers
//! depend on.

pub mod css;
pub mod html;
