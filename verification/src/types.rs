pub mod field;
pub mod fields;
pub mod fields_source;
pub mod mini_field;

pub use field::{clone_chars, fields_view_of, Field, FieldModel};
pub use fields::{Fields, FieldsModel};
pub use fields_source::{FieldsSource, FieldsSourceModel};
pub use mini_field::{MiniField, MiniFieldModel};
