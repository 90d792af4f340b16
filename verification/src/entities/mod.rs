//! The records of the library: raws (camera files) and photos rendered from them.
pub mod photo_record;
pub mod pipeline_parameters;
pub mod raw_record;
