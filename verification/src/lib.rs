//! Access control, credential tokens and team formation for a festival
//! registration service.
//!
//! Every function here is a pure decision over plain values: the caller
//! performs the storage lookups, clock reads and network traffic, hands the
//! outcomes in, and carries out what the function returns.

pub mod authz;
pub mod book;
pub mod failure;
pub mod password;
pub mod photo;
pub mod role;
pub mod rows;
pub mod seqs;
pub mod session;
pub mod signup;
pub mod team;
pub mod text;
pub mod token;
pub mod user;
