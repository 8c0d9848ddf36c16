//! Inspection of Trim Area (TA) images: fixed-size vendor partition dumps
//! holding device configuration, boot logs, identification fields and an
//! embedded database.
//!
//! The library validates an image's size and magic header and copies the
//! known fixed-offset fields out of it. All file handling lives outside:
//! callers hand the image in as bytes and write the extracted bytes out.

pub mod error;
pub mod extract;
pub mod image;
pub mod platform;
