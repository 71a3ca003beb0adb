pub mod goldsrc;
pub mod lumptype;
pub mod quake;
pub mod vbsp;
