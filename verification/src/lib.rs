//! Assembles a container image from a base image and a local directory, and
//! describes the registry exchanges that publish it.
//!
//! The crate performs no I/O. It computes digests and layers, keeps the
//! image under construction consistent, builds the HTTP requests of the
//! OCI distribution protocol and interprets their responses. A driver
//! sends the requests and feeds the responses back.
//!
//! - [`digest`]: content digests and hashing.
//! - [`image`]: descriptors, manifest, index and configuration.
//! - [`archive`]: the order in which a directory is archived.
//! - [`app_layer`]: the layer that is built from a directory's archive.
//! - [`kitchen`]: the image under construction.
//! - [`push`]: the push of the finished image, as a machine driven by
//!   events; [`push_laws`] states what holds of every push.
//! - [`registry_client`]: the handshake and the operations of a session
//!   with a registry, over the plain requests and responses of [`http`].
//! - [`challenge`] and [`urls`]: the token challenge and addresses.
//! - [`recipe`]: what a build is asked to do.

pub mod app_layer;
pub mod archive;
pub mod challenge;
pub mod digest;
pub mod http;
pub mod image;
pub mod kitchen;
pub mod push;
pub mod push_laws;
pub mod recipe;
pub mod registry_client;
pub mod text;
pub mod urls;
