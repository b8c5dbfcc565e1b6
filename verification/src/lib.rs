//! Master data of an enterprise resource planning system, with its rules
//! stated as contracts and proved: business partners, cost accounting
//! objects, materials with their stock, and the organizational units.
//! A second part holds the routing tables of the finance gRPC services.

pub mod time;
pub mod validation;
pub mod extensions;
pub mod primitives;
pub mod organizational_units;
pub mod cost_center;
pub mod material;
pub mod business_partner;
pub mod grpc;
