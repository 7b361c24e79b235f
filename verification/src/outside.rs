//! Outside types that values of this library carry through unread.

use vstd::prelude::*;

verus! {

/// `std::io::Error`, carried inside the library's error values.
#[verifier::external_type_specification]
#[verifier::external_body]
pub struct ExIoError(std::io::Error);

/// `prost::DecodeError`, the error of decoding a protobuf message.
#[verifier::external_type_specification]
#[verifier::external_body]
pub struct ExDecodeError(prost::DecodeError);

/// `prost::EncodeError`, the error of encoding a protobuf message.
#[verifier::external_type_specification]
#[verifier::external_body]
pub struct ExEncodeError(prost::EncodeError);

} // verus!

verus! {

/// `tokio::net::tcp::OwnedReadHalf`, the reading half of a TCP stream.
#[verifier::external_type_specification]
#[verifier::external_body]
pub struct ExOwnedReadHalf(tokio::net::tcp::OwnedReadHalf);

/// `tokio::net::tcp::OwnedWriteHalf`, the writing half of a TCP stream.
#[verifier::external_type_specification]
#[verifier::external_body]
pub struct ExOwnedWriteHalf(tokio::net::tcp::OwnedWriteHalf);

/// `tokio::io::BufReader`, a buffering reader.
#[verifier::external_type_specification]
#[verifier::external_body]
#[verifier::reject_recursive_types(R)]
pub struct ExBufReader<R>(tokio::io::BufReader<R>);

/// `tokio::io::BufWriter`, a buffering writer.
#[verifier::external_type_specification]
#[verifier::external_body]
#[verifier::reject_recursive_types(W)]
pub struct ExBufWriter<W>(tokio::io::BufWriter<W>);

/// `tokio::io::ReadHalf`, the reading half of a split stream.
#[verifier::external_type_specification]
#[verifier::external_body]
#[verifier::reject_recursive_types(T)]
pub struct ExReadHalf<T>(tokio::io::ReadHalf<T>);

/// `tokio::io::WriteHalf`, the writing half of a split stream.
#[verifier::external_type_specification]
#[verifier::external_body]
#[verifier::reject_recursive_types(T)]
pub struct ExWriteHalf<T>(tokio::io::WriteHalf<T>);

/// `tokio::net::TcpStream`, a TCP connection.
#[verifier::external_type_specification]
#[verifier::external_body]
pub struct ExTcpStream(tokio::net::TcpStream);

/// `tokio_rustls::server::TlsStream`, the server end of a TLS session.
#[verifier::external_type_specification]
#[verifier::external_body]
#[verifier::reject_recursive_types(IO)]
pub struct ExServerTlsStream<IO>(tokio_rustls::server::TlsStream<IO>);

} // verus!

verus! {

/// `dashmap::DashMap`, a concurrent hash map.
#[verifier::external_type_specification]
#[verifier::external_body]
#[verifier::reject_recursive_types(K)]
#[verifier::reject_recursive_types(V)]
#[verifier::reject_recursive_types(S)]
pub struct ExDashMap<K, V, S>(dashmap::DashMap<K, V, S>);

} // verus!
