//! Leave-one-out comparison structure of an exemplar classifier.
//!
//! A [`Dataset`] keeps its observations in a fixed order. For each
//! observation (the stimulus) a prediction is made from the stimulus and
//! every other observation (the exemplars), never from the stimulus itself.
//! The per-stimulus computation is supplied by the caller; this crate fixes
//! which observations it sees and where its result lands.

mod dataset;
mod exemplars;

pub use dataset::{returned_for, Dataset};
pub use exemplars::{
    exemplar_index, index_after_removal, lemma_deletion_drops_only_that_row, lemma_stimulus_excluded, others,
};
