//! A verified substrate for chess programs: the squares of the board and
//! sets of them packed into 64 bits.
//!
//! Every function of the library carries a contract, and each contract is
//! proved of the code beneath it. What is taken on trust is named where it
//! stands.
pub mod repr;
