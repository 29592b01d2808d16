//! Configuration values consumed by the media core.

use vstd::prelude::*;

verus! {

/// One URI rewrite rule: a pattern to match and its replacement.
pub struct RewriteRule {
    pub pattern: String,
    pub rewrite: String,
}

} // verus!
