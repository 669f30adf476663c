//! Which descriptors are files.
//!
//! Only a file has an offset of its own to splice at, so a transfer is set up
//! differently for files and for streams. The two marker traits keep the one
//! from being used for the other at compile time.

use vstd::prelude::*;

verus! {

/// Marker trait: indicates a file.
///
/// Implement it for a wrapper type over a file.
pub trait IsFile {

}

impl<T: IsFile> IsFile for &mut T {

}

impl<T: IsFile> IsFile for core::pin::Pin<&mut T> {

}

/// Marker trait: indicates something other than a file.
///
/// Implement it for a wrapper type over a stream.
pub trait IsNotFile {

}

impl<T: IsNotFile> IsNotFile for &mut T {

}

impl<T: IsNotFile> IsNotFile for core::pin::Pin<&mut T> {

}

/// `core::pin::Pin`, a pointer to something that stays in place. Nothing is
/// claimed of it.
#[verifier::external_type_specification]
#[verifier::external_body]
#[verifier::reject_recursive_types(Ptr)]
pub struct ExPin<Ptr>(core::pin::Pin<Ptr>);

/// `tokio::net::TcpStream`, a TCP connection. Nothing is claimed of it.
#[verifier::external_type_specification]
#[verifier::external_body]
pub struct ExTcpStream(tokio::net::TcpStream);

/// `tokio::net::UnixStream`, a connection over a Unix socket. Nothing is
/// claimed of it.
#[verifier::external_type_specification]
#[verifier::external_body]
pub struct ExUnixStream(tokio::net::UnixStream);

/// `tokio::fs::File`, an open file. Nothing is claimed of it.
#[verifier::external_type_specification]
#[verifier::external_body]
pub struct ExFile(tokio::fs::File);

impl IsNotFile for tokio::net::TcpStream {

}

impl IsNotFile for tokio::net::UnixStream {

}

impl IsFile for tokio::fs::File {

}

} // verus!
