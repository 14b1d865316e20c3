//! The commands that the plugin offers to the shell.

pub mod count;
pub mod current_coll_names;
pub mod delete_many;
pub mod delete_one;
pub mod drop;
pub mod estimated;
pub mod find;
pub mod find_one;
pub mod list;
pub mod list_collections;
pub mod list_indexes;
pub mod mongoc;
pub mod open;
pub mod remove;
pub mod round_trip;
pub mod select_handle;
pub mod val_converter;

pub use count::Count;
pub use current_coll_names::offers_collections;
pub use delete_many::DeleteMany;
pub use delete_one::DeleteOne;
pub use drop::Drop;
pub use estimated::Estimated;
pub use find::Find;
pub use find_one::FindOne;
pub use list::List;
pub use list_collections::ListCollectionNames;
pub use list_indexes::ListIndexes;
pub use mongoc::MongoCmd;
pub use open::Open;
pub use remove::Remove;
pub use select_handle::Select;
pub use val_converter::{bson_to_value, doc_to_value, to_bson, value_to_doc, ConversionError};
