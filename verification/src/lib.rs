pub mod cli;
pub mod crypto;
pub mod errors;
pub mod hexcode;
pub mod otp;
pub mod strutil;
