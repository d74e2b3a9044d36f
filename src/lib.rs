//! A terminal browser for a paged feed of torrent listings: the state of a
//! browsing session, how keys move it, and the viewed watermark kept between
//! sessions. Fetching, drawing, opening addresses and the watermark file are
//! left to the caller, which the session tells what to do after each key.

pub mod marker;
pub mod params;
pub mod results;
pub mod session;
pub mod text;
