//! Verified trap/reply protocol between a kernel and an unprivileged broker of
//! foreign AArch64 tasks.
//!
//! [`foreign`] holds the protocol: the exit/reply frame, the atomic-wait
//! request, and the register-state record that every frame carries. Each
//! record has a byte-exact model of its wire form, and the encoders, decoders
//! and validators are proved against that model.
pub mod foreign;
