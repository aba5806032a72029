//! Logic of a small administration tool with two halves: a *cage*, which
//! restricts or restores a named user's elevated-privilege rights by
//! overwriting a per-user policy file under `/etc/sudoers.d`, and a *mantra*
//! directory manager, which creates a per-user directory under a configurable
//! root, hands it to that user, and reports its presence.
//!
//! Every operation performs at most one filesystem change. This crate decides
//! that change — which file to write with which contents, or which directory
//! to create for which owner, and which status line to print — and proves the
//! decision correct; a thin unverified front end carries it out.

pub mod cage;
pub mod mantra;
