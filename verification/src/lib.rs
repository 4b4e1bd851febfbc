//! A provenance ledger for raw material units moving through a supply chain.
//!
//! Every unit carries three histories (owner, custodian, location) of
//! time-bounded, access-controlled records. Orders and shipments drive the
//! transfers of ownership and custody, and every actor's inventory follows
//! the ledger's notion of the current owner.
//!
//! - `access`, `record`, `history`, `unit`: the records, the histories made
//!   of them, and the unit that keeps three of them.
//! - `inventory`, `actor`, `material`, `order`: what the parties hold, the
//!   parties, the catalogue, and orders with their manifests.
//! - `ledger`: the stores, and what holds of them between operations.
//! - `registry`, `workflow`, `queries`: the operations.
//! - `transitions`: what each operation of the workflow does, as a function
//!   on what the ledger holds.
//! - `laws`: what holds of the ledger whatever is done with it.
//! - `audit`: whether a ledger that came from elsewhere is sound.

pub mod access;
pub mod actor;
pub mod audit;
pub mod event;
pub mod history;
pub mod inventory;
pub mod laws;
pub mod ledger;
pub mod listing;
pub mod material;
pub mod order;
pub mod queries;
pub mod record;
pub mod registry;
pub mod transitions;
pub mod types;
pub mod unit;
pub mod workflow;

pub use access::{AccessLevel, ProprietaryData};
pub use actor::{Actor, HasActor, Manufacturer, ShippingAgent, Supplier};
pub use event::{Error, Event};
pub use inventory::{HasOrders, OwnsRawMaterials};
pub use ledger::Pallet;
pub use material::{RawMaterial, RawMaterialShipping};
pub use order::{Order, OrderStatus, ShippingManifest};
pub use record::{
    Custodian, HasProprietaryData, Location, Owner, ProprietaryDataInput, ProprietaryDataResult,
};
pub use types::{AccountId, Coordinates, UniqueId};
pub use unit::RawMaterialUnit;
