//! The decoded tree: the dynamically typed value that one record of a replay
//! decodes to, its mathematical view, and the read-only accessors that the
//! summary extraction is built from.

use vstd::prelude::*;

verus! {

/// One node of a decoded record.
///
/// Objects keep their members in the order in which the decoder produced
/// them; a lookup goes by key and returns the first member that has it.
/// Numbers are integers where the source is an integer (`Int` where it fits
/// an `i64`, `UInt` above that) and otherwise a binary64 floating-point
/// number, held by its IEEE 754 bit pattern.
#[derive(Debug, PartialEq, Eq)]
pub enum DecodedTree {
    Null,
    Bool(bool),
    Int(i64),
    UInt(u64),
    Float(u64),
    Str(String),
    Array(Vec<DecodedTree>),
    Object(Vec<(String, DecodedTree)>),
}

/// The mathematical value of a `DecodedTree`: integers are unbounded and do
/// not remember their machine width, strings are sequences of characters.
pub ghost enum TreeView {
    Null,
    Bool(bool),
    Int(int),
    Float(u64),
    Str(Seq<char>),
    Array(Seq<TreeView>),
    Object(Seq<(Seq<char>, TreeView)>),
}

/// The first value stored under `key` in a list of members, if any.
pub open spec fn find_member(members: Seq<(Seq<char>, TreeView)>, key: Seq<char>) -> Option<
    TreeView,
>
    decreases members.len(),
{
    if members.len() == 0 {
        None
    } else if members[0].0 == key {
        Some(members[0].1)
    } else {
        find_member(members.drop_first(), key)
    }
}

impl TreeView {
    /// The value stored under `key`, where this node is an object that has
    /// the key.
    pub open spec fn get(self, key: Seq<char>) -> Option<TreeView> {
        match self {
            TreeView::Object(members) => find_member(members, key),
            _ => None,
        }
    }

    /// The node as a signed 64-bit integer, where it is an integer in that
    /// range.
    pub open spec fn as_i64(self) -> Option<int> {
        match self {
            TreeView::Int(i) => if i64::MIN <= i <= i64::MAX {
                Some(i)
            } else {
                None
            },
            _ => None,
        }
    }

    /// The node as text, where it is a string.
    pub open spec fn as_str(self) -> Option<Seq<char>> {
        match self {
            TreeView::Str(s) => Some(s),
            _ => None,
        }
    }

    /// The items of the node, where it is an array.
    pub open spec fn as_array(self) -> Option<Seq<TreeView>> {
        match self {
            TreeView::Array(items) => Some(items),
            _ => None,
        }
    }

    /// The members of the node in their order, where it is an object.
    pub open spec fn as_object(self) -> Option<Seq<(Seq<char>, TreeView)>> {
        match self {
            TreeView::Object(members) => Some(members),
            _ => None,
        }
    }
}

/// The views of a list of nodes, item by item.
pub open spec fn item_views(items: Seq<DecodedTree>) -> Seq<TreeView> {
    Seq::new(items.len(), |i: int| items[i]@)
}

/// The views of a list of members, member by member.
pub open spec fn member_views(members: Seq<(String, DecodedTree)>) -> Seq<(Seq<char>, TreeView)> {
    Seq::new(members.len(), |i: int| (members[i].0@, members[i].1@))
}

impl View for DecodedTree {
    type V = TreeView;

    open spec fn view(&self) -> TreeView
        decreases self,
    {
        match self {
            DecodedTree::Null => TreeView::Null,
            DecodedTree::Bool(b) => TreeView::Bool(*b),
            DecodedTree::Int(i) => TreeView::Int(*i as int),
            DecodedTree::UInt(u) => TreeView::Int(*u as int),
            DecodedTree::Float(bits) => TreeView::Float(*bits),
            DecodedTree::Str(s) => TreeView::Str(s@),
            DecodedTree::Array(items) => TreeView::Array(
                Seq::new(
                    items@.len(),
                    |i: int|
                        if 0 <= i < items@.len() {
                            items@[i]@
                        } else {
                            TreeView::Null
                        },
                ),
            ),
            DecodedTree::Object(members) => TreeView::Object(
                Seq::new(
                    members@.len(),
                    |i: int|
                        if 0 <= i < members@.len() {
                            (members@[i].0@, members@[i].1@)
                        } else {
                            (Seq::empty(), TreeView::Null)
                        },
                ),
            ),
        }
    }
}

/// The view of an array is the array of its items' views.
pub proof fn lemma_array_view(items: Vec<DecodedTree>)
    ensures
        DecodedTree::Array(items)@ == TreeView::Array(item_views(items@)),
{
    reveal_with_fuel(<DecodedTree as View>::view, 2);
    assert(DecodedTree::Array(items)@->Array_0 =~= item_views(items@));
}

/// The view of an object is the list of its members' views, in their order.
pub proof fn lemma_object_view(members: Vec<(String, DecodedTree)>)
    ensures
        DecodedTree::Object(members)@ == TreeView::Object(member_views(members@)),
{
    reveal_with_fuel(<DecodedTree as View>::view, 2);
    assert(DecodedTree::Object(members)@->Object_0 =~= member_views(members@));
}

/// A lookup that has passed over the first `i` members without a match goes
/// on in the rest.
proof fn lemma_find_member_skip(members: Seq<(Seq<char>, TreeView)>, key: Seq<char>, i: int)
    requires
        0 <= i <= members.len(),
        forall|j: int| 0 <= j < i ==> members[j].0 != key,
    ensures
        find_member(members, key) == find_member(members.skip(i), key),
    decreases i,
{
    if i == 0 {
        assert(members.skip(0) =~= members);
    } else {
        lemma_find_member_skip(members, key, i - 1);
        let rest = members.skip(i - 1);
        assert(rest.drop_first() =~= members.skip(i));
    }
}

impl DecodedTree {
    /// The value stored under `key`: the first member with that key where
    /// this node is an object, nothing where it has no such member or is no
    /// object.
    pub fn get(&self, key: &str) -> (r: Option<&DecodedTree>)
        ensures
            match r {
                Some(found) => self@.get(key@) == Some(found@),
                None => self@.get(key@) is None,
            },
    {
        match self {
            DecodedTree::Object(members) => {
                proof {
                    lemma_object_view(*members);
                }
                let wanted = key.to_owned();
                let ghost all = member_views(members@);
                let mut i: usize = 0;
                while i < members.len()
                    invariant
                        i <= members.len(),
                        self@ == TreeView::Object(all),
                        all == member_views(members@),
                        wanted@ == key@,
                        forall|j: int| 0 <= j < i ==> all[j].0 != key@,
                    decreases members.len() - i,
                {
                    if members[i].0 == wanted {
                        proof {
                            lemma_find_member_skip(all, key@, i as int);
                        }
                        return Some(&members[i].1);
                    }
                    i += 1;
                }
                proof {
                    lemma_find_member_skip(all, key@, i as int);
                }
                None
            },
            _ => None,
        }
    }

    /// The node as a signed 64-bit integer: an integer that fits, whichever
    /// way it is held; nothing for a larger integer, a floating-point number
    /// or any other kind of node.
    pub fn as_i64(&self) -> (r: Option<i64>)
        ensures
            match r {
                Some(i) => self@.as_i64() == Some(i as int),
                None => self@.as_i64() is None,
            },
    {
        match self {
            DecodedTree::Int(i) => Some(*i),
            DecodedTree::UInt(u) => {
                if *u <= 0x7fff_ffff_ffff_ffff {
                    Some(*u as i64)
                } else {
                    None
                }
            },
            _ => None,
        }
    }

    /// The node as text, where it is a string.
    pub fn as_str(&self) -> (r: Option<&str>)
        ensures
            match r {
                Some(s) => self@.as_str() == Some(s@),
                None => self@.as_str() is None,
            },
    {
        match self {
            DecodedTree::Str(s) => Some(s.as_str()),
            _ => None,
        }
    }

    /// The items of the node, where it is an array.
    pub fn as_array(&self) -> (r: Option<&Vec<DecodedTree>>)
        ensures
            match r {
                Some(items) => self@.as_array() == Some(item_views(items@)),
                None => self@.as_array() is None,
            },
    {
        match self {
            DecodedTree::Array(items) => {
                proof {
                    lemma_array_view(*items);
                }
                Some(items)
            },
            _ => None,
        }
    }

    /// The members of the node in their order, where it is an object.
    pub fn as_object(&self) -> (r: Option<&Vec<(String, DecodedTree)>>)
        ensures
            match r {
                Some(members) => self@.as_object() == Some(member_views(members@)),
                None => self@.as_object() is None,
            },
    {
        match self {
            DecodedTree::Object(members) => {
                proof {
                    lemma_object_view(*members);
                }
                Some(members)
            },
            _ => None,
        }
    }
}

} // verus!
