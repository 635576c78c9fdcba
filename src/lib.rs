//! Response and error presentation for an HTTP server: the error taxonomy and
//! its status codes, template-render fallback, validated form extraction,
//! static asset fallbacks, page metadata and the shutdown race.

pub mod reply;
pub mod page;
pub mod error;
pub mod form;
pub mod assets;
pub mod shutdown;
pub mod referer;
