//! A small key-value inventory store with an append-only change log.
//!
//! The store maps integer item identifiers to inventory records and keeps a
//! chronological list of human-readable audit entries, one per mutation.

pub mod inventory;
pub mod text;

pub use inventory::InventoryItem;
pub use inventory::ItemModel;
pub use inventory::StoreModel;
pub use inventory::SupermarketManager;
