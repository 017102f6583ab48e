//! Source-code synthesis from an interface description: capability
//! analysis of declared types, and the text of account types, instruction
//! unions, argument structs, handler stubs and context structs.

pub mod account;
pub mod capability;
pub mod casing;
pub mod collect;
pub mod error;
pub mod fields;
pub mod ident;
pub mod instruction;
pub mod opts;
pub mod schema;
pub mod state;
pub mod text;
pub mod tokens;
pub mod type_mapper;

pub use crate::account::generate_account_fields;
pub use crate::capability::get_field_list_properties;
pub use crate::capability::get_type_properties;
pub use crate::capability::FieldListProperties;
pub use crate::error::ErrorKind;
pub use crate::error::GenError;
pub use crate::fields::generate_fields;
pub use crate::instruction::format_ix_name;
pub use crate::instruction::generate_ix_deser_structs;
pub use crate::instruction::generate_ix_handler;
pub use crate::instruction::generate_ix_handlers;
pub use crate::instruction::generate_ix_structs;
pub use crate::instruction::ResultConvention;
pub use crate::opts::Representation;
pub use crate::opts::StructOpts;
pub use crate::opts::StructOptsTable;
pub use crate::opts::ZeroCopy;
pub use crate::schema::AccountItem;
pub use crate::schema::EnumVariant;
pub use crate::schema::FieldDef;
pub use crate::schema::Instruction;
pub use crate::schema::Primitive;
pub use crate::schema::TypeDef;
pub use crate::schema::TypeDefKind;
pub use crate::schema::TypeRef;
pub use crate::state::generate_account;
pub use crate::state::generate_accounts;
pub use crate::type_mapper::ty_to_rust_type;
