//! Saved snippets: fragments of context files kept in the user's library.

use vstd::prelude::*;

verus! {

/// One saved fragment of a context file.
#[derive(Debug, Clone, PartialEq, Eq)]
pub struct Snippet {
    /// Title shown in the snippet lists.
    pub title: String,
    /// The saved text.
    pub content: String,
    /// Where the text was taken from.
    pub source: String,
}

/// The user's snippet library, in the order the snippets were saved.
#[derive(Debug, Clone, PartialEq, Eq)]
pub struct SnippetLibrary {
    /// The saved snippets.
    pub snippets: Vec<Snippet>,
}

impl Default for SnippetLibrary {
    fn default() -> (r: Self)
        ensures
            r.snippets@.len() == 0,
    {
        SnippetLibrary { snippets: Vec::new() }
    }
}

} // verus!
