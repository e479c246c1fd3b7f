//! Camera Trap Data Package tables: typed records for deployments, media and
//! observations, and their verified mapping to and from CSV.

pub mod codec;
pub mod count;
pub mod datetime;
pub mod decimal;
pub mod deployment;
pub mod exif;
pub mod medium;
pub mod observation;
pub mod record;
pub mod text;
pub mod value;
pub mod vocabulary;
pub mod wire;

pub use crate::codec::{Column, Field, TableFault};
pub use crate::datetime::DateTime;
pub use crate::decimal::Decimal;
pub use crate::deployment::Deployment;
pub use crate::exif::ExifData;
pub use crate::medium::Medium;
pub use crate::observation::Observation;
pub use crate::record::{ReadDataPackageCsv, Record, WriteDataPackageCsv};
pub use crate::value::{CellFault, Kind, Value};
pub use crate::vocabulary::{
    CameraSetupType, CaptureMethod, ClassificationMethod, FeatureType, LifeStage,
    ObservationLevel, ObservationType, Sex,
};
pub use crate::wire::{DecodeError, EncodeError};
