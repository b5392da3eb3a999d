//! Effects that post-process the sample stream.

pub mod low_pass_filter;
