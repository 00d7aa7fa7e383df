//! Work with Steam identifiers easily and safely.
//!
//! A Steam identifier names one account and travels in three shapes: a packed
//! 64-bit integer, the classic `STEAM_X:Y:Z` text, and the newer `U:1:N`
//! text. This crate decodes the packed form into its bit fields, converts
//! between the three shapes, and proves that the conversions agree with the
//! documented bit layout: `universe` (8 bits), `account type` (4 bits),
//! `instance` (20 bits), `account` (31 bits) and the authentication-server
//! flag (1 bit), most significant first.
//!
//! Where observed real-world behaviour deviates from the published layout
//! (the universe digit of the `STEAM_` form), this crate follows the observed
//! behaviour; the deviations are spelled out in the conversion contracts.

/// An iterator over bits.
pub mod bit_iterator;
/// Decimal text: parsing and rendering of unsigned numbers.
pub mod decimal;
/// The errors used in this crate.
pub mod error;
/// The steam ID implementation.
pub mod id;
/// The services the crate can work with regarding the steam id information.
pub mod services;
