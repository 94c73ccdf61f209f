//! SO-101 arm support that carries no floating-point data: the USB identity of an
//! arm and the parsing of its hexadecimal ids.

pub mod resolver;
