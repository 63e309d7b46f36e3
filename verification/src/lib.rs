//! The import logic of TETR.IO PLUS content: deciding what each file of an import is,
//! partitioning content packs into decisions, settling weak guesses, collating import
//! tasks and storing their results in a TPSE.

pub mod text;
pub mod paths;
pub mod pattern;
pub mod glob;

pub mod import_types;
pub mod filekey;
pub mod names;
pub mod guess;
pub mod radiance;
pub mod decide;

pub mod inter_stage;
pub mod path_order;
pub mod explore;
pub mod packjson;
pub mod partition;
pub mod decision;
pub mod reduce;

pub mod tpse;
pub mod mime;
pub mod execute;
pub mod sfx;

pub mod accel;
pub mod assets;
pub mod context;
pub mod splicer;
pub mod skin_maps;
