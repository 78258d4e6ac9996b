//! Verification-and-commit core of a multi-party trusted-setup ceremony.
//!
//! A [`BatchTranscript`] holds several independently sized transcripts that
//! advance together: a contribution is checked slot by slot against a
//! pluggable [`Engine`], and only when every slot is accepted is it folded in,
//! together with the participant's identity and signature.
pub mod batch_transcript;
pub mod engine;
pub mod error;
pub mod group;
pub mod signature;
pub mod transcript;

pub use batch_transcript::{BatchContribution, BatchTranscript};
pub use engine::{agree, Both, Engine};
pub use error::{CeremoniesError, CeremonyError};
pub use group::{G1, G2};
pub use signature::{EcdsaSignature, Identity};
pub use transcript::{Contribution, Powers, Transcript, Witness};
