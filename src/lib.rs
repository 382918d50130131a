//! Generates a source file declaring a data structure from a model name and
//! compact field descriptors of the form `name:type[:visibility]`.
//!
//! - [`field`]: the descriptor language, its visibility tokens and errors.
//! - [`model`]: model names, assembly from descriptors, and rendering.
//! - [`generation`]: the decision of whether and where a model is written.
//! - [`text`]: character-level helpers the others build on.

pub mod field;
pub mod generation;
pub mod model;
pub mod text;

pub use field::{
    FieldDefinition, FieldDefinitionError, FieldDefinitionErrorKind, FieldModel, FieldVisibility,
    FieldVisibilityError,
};
pub use generation::{
    ConfigView, GenerationAction, GenerationConfig, GenerationEvent, Step, DEFAULT_MODEL_DIR,
    SOURCE_EXTENSION,
};
pub use model::{ModelData, ModelDefinition, ModelError, ModelView};
