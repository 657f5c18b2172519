//! Quadratic-funding rounds on a ledger of accounts.
//!
//! Donors fill the fund of a round, contributors vote for projects with
//! tokens, and when the round is over each project is paid its votes and a
//! share of the fund in proportion to its area: the square of the sum of the
//! square roots of what each contributor gave it.
//!
//! The program keeps three kinds of record, each in an account of its own
//! ([`state`]), and changes them by eight instructions ([`instruction`]).
//! [`processor`] holds the rules of each instruction. It reads the accounts
//! that the host presents ([`account`]), refuses what breaks a rule, and
//! otherwise rewrites the records and returns the calls of other programs
//! that the host is to make ([`invocation`]): the program moves no tokens
//! itself. [`tally`] holds the arithmetic of votes and payouts,
//! [`invariants`] what every instruction keeps.
//!
//! The functions come with contracts, and Verus proves the contracts. What
//! is taken on trust is named where it stands: the product and the quotient
//! of wide numbers and the square root and the power of fixed-precision
//! numbers, which are `spl_math`'s ([`uint`], [`precise`]); the derivation
//! of addresses, which is `solana_program`'s ([`pubkey`]); and the
//! instructions to the token programs and the system program, which their
//! own libraries make ([`invocation`]).

pub mod account;
pub mod bytes;
pub mod error;
pub mod instruction;
pub mod invariants;
pub mod invocation;
pub mod precise;
pub mod processor;
pub mod pubkey;
pub mod state;
pub mod tally;
pub mod uint;
