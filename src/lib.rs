//! The state of a query page: a form that collects a question, the
//! validation and request building of a submission, and the answer area
//! that each reply settles.
pub mod answer;
pub mod form;
pub mod pipeline;
pub mod text;
