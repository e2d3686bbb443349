//! The use-path stack: reconstructs fully qualified dotted import names
//! while descending a possibly grouped import declaration.  `root` holds
//! the first imported segment; deeper segments accumulate per
//! group-nesting depth and are discarded when their group closes.
use vstd::prelude::*;
use vstd::string::StringExecFns;

verus! {

/// Mathematical image of one accumulated entry: the group depth it was
/// recorded at and the partial path collected there.
pub ghost struct EntryV {
    pub layer: i16,
    pub path: Seq<char>,
}

/// Mathematical image of a [`Stack`].
pub ghost struct StackV {
    pub root: Seq<char>,
    pub stack: Seq<EntryV>,
    pub group_layer: i16,
}

/// The path separator, as a character sequence.
pub open spec fn path_sep() -> Seq<char> {
    seq![':', ':']
}

/// Index of the first entry at or after position `i` recorded at group
/// depth `layer`.
pub open spec fn entry_at_layer(stack: Seq<EntryV>, layer: i16, i: int) -> Option<int>
    decreases stack.len() - i,
{
    if i < 0 || i >= stack.len() {
        None
    } else if stack[i].layer == layer {
        Some(i)
    } else {
        entry_at_layer(stack, layer, i + 1)
    }
}

/// Insertion: the first segment becomes the root; a later segment joins
/// the entry of the current group depth, or opens that entry.
pub open spec fn insert_g(st: StackV, value: Seq<char>) -> StackV {
    if st.root.len() == 0 {
        StackV { root: value, ..st }
    } else {
        match entry_at_layer(st.stack, st.group_layer, 0) {
            Some(i) => StackV {
                stack: st.stack.update(
                    i,
                    EntryV { path: st.stack[i].path + path_sep() + value, ..st.stack[i] },
                ),
                ..st
            },
            None => StackV {
                stack: st.stack.push(EntryV { layer: st.group_layer, path: value }),
                ..st
            },
        }
    }
}

/// All recorded partial paths, each preceded by the separator, in order.
pub open spec fn joined_segments(stack: Seq<EntryV>) -> Seq<char>
    decreases stack.len(),
{
    if stack.len() == 0 {
        Seq::<char>::empty()
    } else {
        path_sep() + stack[0].path + joined_segments(stack.drop_first())
    }
}

/// The fully qualified name composed of the root, every recorded segment
/// and `last`; `last` stands alone when nothing was recorded.
pub open spec fn get_with_last_g(st: StackV, last: Seq<char>) -> Seq<char> {
    let data = st.root + joined_segments(st.stack);
    if data.len() == 0 {
        last
    } else {
        data + path_sep() + last
    }
}

/// Discarding the current depth's entry, if one exists.
pub open spec fn remove_layer_g(stack: Seq<EntryV>, layer: i16) -> Seq<EntryV> {
    match entry_at_layer(stack, layer, 0) {
        None => stack,
        Some(i) => stack.remove(i),
    }
}

/// One more segment extends the joined sequence by the separator and that
/// segment.
proof fn lemma_joined_take_step(stack: Seq<EntryV>, i: int)
    requires
        0 <= i < stack.len(),
    ensures
        joined_segments(stack.take(i + 1)) == joined_segments(stack.take(i)) + path_sep()
            + stack[i].path,
    decreases i + stack.len(),
{
    if i == 0 {
        assert(stack.take(0) =~= Seq::<EntryV>::empty());
        assert(stack.take(1).drop_first() =~= Seq::<EntryV>::empty());
        assert(joined_segments(Seq::<EntryV>::empty()) == Seq::<char>::empty());
        assert(stack.take(1)[0] == stack[0]);
        assert(joined_segments(stack.take(1)) == path_sep() + stack.take(1)[0].path
            + joined_segments(stack.take(1).drop_first()));
        assert(path_sep() + stack[0].path + Seq::<char>::empty() =~= Seq::<char>::empty()
            + path_sep() + stack[0].path);
    } else {
        lemma_joined_take_step(stack.drop_first(), i - 1);
        assert(stack.take(i + 1).drop_first() =~= stack.drop_first().take(i));
        assert(stack.take(i).drop_first() =~= stack.drop_first().take(i - 1));
        assert(stack.drop_first()[i - 1] == stack[i]);
        assert(joined_segments(stack.take(i + 1)) == path_sep() + stack[0].path
            + joined_segments(stack.drop_first().take(i)));
        assert(joined_segments(stack.take(i)) == path_sep() + stack[0].path + joined_segments(
            stack.drop_first().take(i - 1),
        ));
        assert((path_sep() + stack[0].path + (joined_segments(stack.drop_first().take(i - 1))
            + path_sep() + stack[i].path)) =~= (path_sep() + stack[0].path + joined_segments(
            stack.drop_first().take(i - 1),
        )) + path_sep() + stack[i].path);
    }
}

/// One accumulated partial path per group-nesting depth.
#[derive(Debug, Clone, PartialEq)]
pub struct Entry {
    pub layer: i16,
    pub path: String,
}

impl View for Entry {
    type V = EntryV;

    open spec fn view(&self) -> EntryV {
        EntryV { layer: self.layer, path: self.path@ }
    }
}

impl DeepView for Entry {
    type V = EntryV;

    open spec fn deep_view(&self) -> EntryV {
        self.view()
    }
}

/// The use-path stack itself.
#[derive(Debug)]
pub struct Stack {
    pub root: String,
    pub stack: Vec<Entry>,
    pub group_layer: i16,
}

impl View for Stack {
    type V = StackV;

    open spec fn view(&self) -> StackV {
        StackV { root: self.root@, stack: self.stack.deep_view(), group_layer: self.group_layer }
    }
}

impl Stack {
    /// A fresh use-path stack: no root, no entries, group depth one.
    pub fn new() -> (st: Stack)
        ensures
            st@ == (StackV {
                root: Seq::<char>::empty(),
                stack: Seq::<EntryV>::empty(),
                group_layer: 1,
            }),
    {
        let st = Stack { root: String::new(), stack: Vec::new(), group_layer: 1 };
        proof {
            assert(st.stack.deep_view() =~= Seq::<EntryV>::empty());
        }
        st
    }

    /// The fully qualified name the stack spells with `last_element` as its
    /// final segment.
    pub fn get_with_last(&self, last_element: &str) -> (r: String)
        ensures
            r@ == get_with_last_g(self@, last_element@),
    {
        let mut data = self.root.clone();
        proof {
            assert(self@.stack.take(0) =~= Seq::<EntryV>::empty());
            assert(data@ + Seq::<char>::empty() =~= data@);
        }
        let mut i: usize = 0;
        while i < self.stack.len()
            invariant
                i <= self@.stack.len(),
                data@ == self@.root + joined_segments(self@.stack.take(i as int)),
            decreases self@.stack.len() - i,
        {
            proof {
                lemma_joined_take_step(self@.stack, i as int);
                assert((self@.root + (joined_segments(self@.stack.take(i as int)) + path_sep()
                    + self@.stack[i as int].path)) =~= (self@.root + joined_segments(
                    self@.stack.take(i as int),
                )) + path_sep() + self@.stack[i as int].path);
                assert(self@.stack[i as int].path == self.stack[i as int].path@);
            }
            data.append("::");
            proof {
                reveal_strlit("::");
                assert("::"@ =~= path_sep());
            }
            data.append(self.stack[i].path.as_str());
            i = i + 1;
        }
        proof {
            assert(self@.stack.take(self@.stack.len() as int) =~= self@.stack);
        }
        if data.as_str().is_empty() {
            let mut out = String::new();
            out.append(last_element);
            out
        } else {
            data.append("::");
            proof {
                reveal_strlit("::");
                assert("::"@ =~= path_sep());
            }
            data.append(last_element);
            data
        }
    }

    /// Records one path segment: the first becomes the root, later ones
    /// join or open the entry of the current group depth.
    pub fn insert(&mut self, value: String)
        ensures
            final(self)@ == insert_g(old(self)@, value@),
    {
        if self.root.as_str().is_empty() {
            self.root = value;
            return ;
        }
        let mut i: usize = 0;
        while i < self.stack.len()
            invariant
                i <= self@.stack.len(),
                self@ == old(self)@,
                old(self)@.root.len() != 0,
                entry_at_layer(self@.stack, self@.group_layer, 0) == entry_at_layer(
                    self@.stack,
                    self@.group_layer,
                    i as int,
                ),
            decreases self@.stack.len() - i,
        {
            if self.stack[i].layer == self.group_layer {
                let mut p = self.stack[i].path.clone();
                p.append("::");
                proof {
                    reveal_strlit("::");
                    assert("::"@ =~= path_sep());
                }
                p.append(value.as_str());
                self.stack[i].path = p;
                proof {
                    assert(self.stack.deep_view() =~= old(self).stack.deep_view().update(
                        i as int,
                        self.stack[i as int]@,
                    ));
                }
                return ;
            }
            i = i + 1;
        }
        self.stack.push(Entry { layer: self.group_layer, path: value });
        proof {
            assert(self.stack.deep_view() =~= old(self).stack.deep_view().push(
                self.stack[self.stack.len() - 1]@,
            ));
        }
    }

    /// Opens a grouped import list: one group depth deeper.
    pub fn add_layer(&mut self)
        requires
            old(self)@.group_layer < i16::MAX,
        ensures
            final(self)@ == (StackV {
                group_layer: (old(self)@.group_layer + 1) as i16,
                ..old(self)@
            }),
    {
        self.group_layer = self.group_layer + 1;
    }

    /// Closes a grouped import list: discards the closing depth's partial
    /// path and steps one group depth up.
    pub fn clear_layer(&mut self)
        requires
            old(self)@.group_layer > i16::MIN,
        ensures
            final(self)@ == (StackV {
                stack: remove_layer_g(old(self)@.stack, old(self)@.group_layer),
                group_layer: (old(self)@.group_layer - 1) as i16,
                ..old(self)@
            }),
    {
        self.remove_current_layer();
        self.group_layer = self.group_layer - 1;
    }

    /// Discards the current depth's partial path without changing depth.
    pub fn pop_stack(&mut self)
        ensures
            final(self)@ == (StackV {
                stack: remove_layer_g(old(self)@.stack, old(self)@.group_layer),
                ..old(self)@
            }),
    {
        self.remove_current_layer();
    }

    /// Removes the entry recorded at the current group depth, if any.
    fn remove_current_layer(&mut self)
        ensures
            final(self)@ == (StackV {
                stack: remove_layer_g(old(self)@.stack, old(self)@.group_layer),
                ..old(self)@
            }),
    {
        let mut i: usize = 0;
        while i < self.stack.len()
            invariant
                i <= self@.stack.len(),
                self@ == old(self)@,
                entry_at_layer(self@.stack, self@.group_layer, 0) == entry_at_layer(
                    self@.stack,
                    self@.group_layer,
                    i as int,
                ),
            decreases self@.stack.len() - i,
        {
            if self.stack[i].layer == self.group_layer {
                self.stack.remove(i);
                proof {
                    assert(self.stack.deep_view() =~= old(self).stack.deep_view().remove(
                        i as int,
                    ));
                }
                return ;
            }
            i = i + 1;
        }
    }

    /// Empties the stack entirely: the state a fresh stack starts in.
    pub fn clear(&mut self)
        ensures
            final(self)@ == (StackV {
                root: Seq::<char>::empty(),
                stack: Seq::<EntryV>::empty(),
                group_layer: 1,
            }),
    {
        self.root = String::new();
        self.stack.clear();
        self.group_layer = 1;
        proof {
            assert(self.stack.deep_view() =~= Seq::<EntryV>::empty());
        }
    }
}

} // verus!
