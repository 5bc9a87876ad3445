//! Linked list of nodes held by reference.
//!
//! The list keeps its nodes in order itself, rather than through links
//! stored in the nodes.

use vstd::prelude::*;

verus! {

/// The link from a node to the next node of a list.
pub struct ListLink<'a, T: 'a>(pub Option<&'a T>);

impl<'a, T> ListLink<'a, T> {
    /// A link to no node.
    pub fn empty() -> (r: ListLink<'a, T>)
        ensures
            r.0 is None,
    {
        ListLink(None)
    }
}

/// A node that can be put in a list: it gives its link to the next node.
pub trait ListNode<'a, T> {
    fn next(&'a self) -> &'a ListLink<'a, T>;
}

/// A list of nodes, first to last.
pub struct List<'a, T: 'a> {
    nodes: Vec<&'a T>,
}

/// Walks the nodes of a list, first to last.
pub struct ListIterator<'a, T: 'a> {
    nodes: Vec<&'a T>,
    pos: usize,
}

impl<'a, T> ListIterator<'a, T> {
    /// The nodes still to come.
    pub closed spec fn spec_rest(&self) -> Seq<&'a T> {
        if self.pos <= self.nodes@.len() {
            self.nodes@.skip(self.pos as int)
        } else {
            Seq::empty()
        }
    }

    /// The next node, if any.
    pub fn next(&mut self) -> (r: Option<&'a T>)
        ensures
            old(self).spec_rest().len() == 0 ==> r is None && final(self).spec_rest() == old(self).spec_rest(),
            old(self).spec_rest().len() > 0 ==> r == Some(old(self).spec_rest()[0])
                && final(self).spec_rest() == old(self).spec_rest().drop_first(),
    {
        if self.pos < self.nodes.len() {
            let res = self.nodes[self.pos];
            self.pos = self.pos + 1;
            proof {
                assert(self.spec_rest() =~= old(self).spec_rest().drop_first());
            }
            Some(res)
        } else {
            None
        }
    }
}

impl<'a, T> View for List<'a, T> {
    type V = Seq<&'a T>;

    /// The nodes, first to last.
    closed spec fn view(&self) -> Seq<&'a T> {
        self.nodes@
    }
}

impl<'a, T> List<'a, T> {
    /// An empty list.
    pub fn new() -> (r: List<'a, T>)
        ensures
            r@ == Seq::<&'a T>::empty(),
    {
        List { nodes: Vec::new() }
    }

    /// The first node, if any.
    pub fn head(&self) -> (r: Option<&'a T>)
        ensures
            self@.len() == 0 ==> r is None,
            self@.len() > 0 ==> r == Some(self@[0]),
    {
        if self.nodes.len() == 0 {
            None
        } else {
            Some(self.nodes[0])
        }
    }

    /// Puts `node` first.
    pub fn push_head(&mut self, node: &'a T)
        ensures
            final(self)@ == seq![node] + old(self)@,
    {
        self.nodes.insert(0, node);
        proof {
            assert(self@ =~= seq![node] + old(self)@);
        }
    }

    /// Puts `node` last.
    pub fn push_tail(&mut self, node: &'a T)
        ensures
            final(self)@ == old(self)@.push(node),
    {
        self.nodes.push(node);
    }

    /// Removes and returns the first node, if any.
    pub fn pop_head(&mut self) -> (r: Option<&'a T>)
        ensures
            old(self)@.len() == 0 ==> r is None && final(self)@ == old(self)@,
            old(self)@.len() > 0 ==> r == Some(old(self)@[0]) && final(self)@ == old(self)@.drop_first(),
    {
        if self.nodes.len() == 0 {
            None
        } else {
            let node = self.nodes.remove(0);
            proof {
                assert(self@ =~= old(self)@.drop_first());
            }
            Some(node)
        }
    }

    /// Walks the nodes, first to last.
    pub fn iter(&self) -> (r: ListIterator<'a, T>)
        ensures
            r.spec_rest() == self@,
    {
        let mut nodes: Vec<&'a T> = Vec::new();
        let mut i: usize = 0;
        while i < self.nodes.len()
            invariant
                i <= self.nodes@.len(),
                nodes@ == self.nodes@.take(i as int),
            decreases self.nodes@.len() - i,
        {
            nodes.push(self.nodes[i]);
            i += 1;
            proof {
                assert(nodes@ =~= self.nodes@.take(i as int));
            }
        }
        proof {
            assert(nodes@.skip(0) =~= self@);
        }
        ListIterator { nodes, pos: 0 }
    }
}

} // verus!
