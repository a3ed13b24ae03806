//! A minimal concurrent HTTP/1.1 server core.
//!
//! The library holds the verified logic of the server: the worker-pool
//! coordination model, the request-line parser and router, the response
//! model with its canonical wire serialization, and the header-block
//! accumulation rule — together with the pure helper routines of the
//! accompanying LED-matrix and sensor demos.
//!
//! The unverifiable edges (socket accept loop, thread spawning, file
//! access) live in the surrounding application, which hands this library
//! plain values and takes plain values back.

pub mod handler;
pub mod pool;
pub mod processor;
pub mod response;
pub mod sensor;
pub mod spiral;
pub mod text;
