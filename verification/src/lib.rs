//! A sampling-and-mapping utility for driving indicator channels from a
//! scalar speed value.
//!
//! The library holds the pure core of a periodic control loop: parsing a
//! speed reading from raw text ([`reader`]), mapping it through a fixed band
//! table to duty-cycle commands for three channels ([`mapper`] for the
//! independent-channel variant, [`levels`] for the single-active-channel
//! variant), and rendering the commands as text ([`writer`]). The I/O around
//! it — polling the source, writing each channel's sink, sleeping between
//! cycles — lives outside the library.

pub mod control;
pub mod levels;
pub mod mapper;
pub mod reader;
pub mod writer;
