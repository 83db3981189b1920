//! Architecture models in the DoD Architecture Framework: operational,
//! system and capability views, security markings and traceability.
pub mod security;
pub mod capability;
pub mod operational;
pub mod cv1;
pub mod cv2;
pub mod ov5;
pub mod ov1;
pub mod ov2;
pub mod ov3;
pub mod ov6;
pub mod sv1;
pub mod sv2;
pub mod sv4;
pub mod services;
pub mod resource_flows;
pub mod performers;
pub mod traceability;
