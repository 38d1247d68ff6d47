//! The signatures of the providers: what each leaves in a vendor file and in
//! the reply of its metadata server.

pub mod alibaba;
pub mod azure;
pub mod digitalocean;
pub mod gcp;
pub mod oci;
