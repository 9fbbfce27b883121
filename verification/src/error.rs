//! A structured error: an ordered stack of context messages over a root cause.
//!
//! The dispatcher introduces no error kinds of its own; it only wraps a
//! collaborator's failure in one more descriptive layer. [`Error`] keeps
//! that chain inspectable: the context messages in order, outermost first,
//! terminated by the root cause. A renderer outside this crate is expected
//! to show the outermost context first and the root cause last.

use vstd::prelude::*;

verus! {

/// An error chain: context layers, outermost first, over a root cause.
#[derive(Debug, PartialEq, Eq, Clone)]
pub struct Error {
    contexts: Vec<String>,
    root: String,
}

/// Mathematical model of [`Error`].
pub struct ErrorView {
    /// The context messages, outermost first.
    pub contexts: Seq<Seq<char>>,
    /// The root cause produced by a collaborator.
    pub root: Seq<char>,
}

impl View for Error {
    type V = ErrorView;

    closed spec fn view(&self) -> ErrorView {
        ErrorView { contexts: self.contexts.deep_view(), root: self.root@ }
    }
}

impl Error {
    /// A fresh error: a root cause with no context layer yet.
    pub fn new(root: String) -> (e: Error)
        ensures
            e@.contexts == Seq::<Seq<char>>::empty(),
            e@.root == root@,
    {
        let e = Error { contexts: Vec::new(), root };
        proof {
            assert(e@.contexts =~= Seq::<Seq<char>>::empty());
        }
        e
    }

    /// Wrap the error in one more layer: `msg` becomes the new outermost
    /// context; everything underneath, root cause included, is unchanged.
    pub fn context(self, msg: String) -> (e: Error)
        ensures
            e@.contexts == self@.contexts.insert(0, msg@),
            e@.root == self@.root,
    {
        let mut contexts = self.contexts;
        contexts.insert(0, msg);
        let e = Error { contexts, root: self.root };
        proof {
            assert(e@.contexts =~= self@.contexts.insert(0, msg@));
        }
        e
    }

    /// How many context layers the error carries.
    pub fn depth(&self) -> (n: usize)
        ensures
            n == self@.contexts.len(),
    {
        self.contexts.len()
    }

    /// The `i`-th context message, outermost first.
    pub fn context_at(&self, i: usize) -> (msg: &String)
        requires
            i < self@.contexts.len(),
        ensures
            msg@ == self@.contexts[i as int],
    {
        &self.contexts[i]
    }

    /// The root cause at the bottom of the chain.
    pub fn root_cause(&self) -> (msg: &String)
        ensures
            msg@ == self@.root,
    {
        &self.root
    }

    /// The whole chain for display: every context message, outermost
    /// first, followed by the root cause as the last element.
    pub fn chain(&self) -> (msgs: Vec<String>)
        ensures
            msgs.deep_view() == self@.contexts.push(self@.root),
    {
        let mut msgs: Vec<String> = Vec::new();
        let mut i: usize = 0;
        while i < self.contexts.len()
            invariant
                i <= self.contexts.len(),
                msgs@.len() == i,
                forall|j: int| 0 <= j < i ==> (#[trigger] msgs@[j])@ == self@.contexts[j],
            decreases self.contexts.len() - i,
        {
            let msg = self.contexts[i].clone();
            proof {
                assert(msg@ == self@.contexts[i as int]);
            }
            msgs.push(msg);
            i = i + 1;
        }
        msgs.push(self.root.clone());
        proof {
            let goal = self@.contexts.push(self@.root);
            assert forall|j: int| 0 <= j < msgs@.len() implies #[trigger] msgs.deep_view()[j]
                == goal[j] by {
                assert(msgs.deep_view()[j] == msgs@[j]@);
            }
            assert(msgs.deep_view() =~= goal);
        }
        msgs
    }
}

} // verus!
