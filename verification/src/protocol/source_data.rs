//! A payload: several representations of one clipboard content.

use crate::ascii::str_eq_ignore_case;
use crate::clipboard::mime_type::same_type;
use std::rc::Rc;
use vstd::prelude::*;
use vstd::string::*;

verus! {

/// One representation: the type names it goes by, and its bytes.
pub struct SourceDataItem {
    pub mime_type: Vec<String>,
    pub content: Rc<Vec<u8>>,
}

/// A representation as contracts see it.
pub struct SourceItemView {
    pub mime_type: Seq<Seq<char>>,
    pub content: Seq<u8>,
}

impl View for SourceDataItem {
    type V = SourceItemView;

    open spec fn view(&self) -> SourceItemView {
        SourceItemView { mime_type: self.mime_type.deep_view(), content: self.content@ }
    }
}

impl DeepView for SourceDataItem {
    type V = SourceItemView;

    open spec fn deep_view(&self) -> SourceItemView {
        self@
    }
}

/// One of `names` equals `mime_type` up to ASCII case.
pub open spec fn names_include(names: Seq<Seq<char>>, mime_type: Seq<char>) -> bool {
    exists|k: int| 0 <= k < names.len() && same_type(#[trigger] names[k], mime_type)
}

/// The item goes by a name that equals `mime_type` up to ASCII case.
pub open spec fn has_alias(item: SourceItemView, mime_type: Seq<char>) -> bool {
    names_include(item.mime_type, mime_type)
}

/// The least index from `start` on of an item that goes by `mime_type`.
pub open spec fn find_item_from(items: Seq<SourceItemView>, mime_type: Seq<char>, start: int) -> Option<
    int,
>
    decreases items.len() - start,
{
    if start >= items.len() {
        None
    } else if has_alias(items[start], mime_type) {
        Some(start)
    } else {
        find_item_from(items, mime_type, start + 1)
    }
}

/// The first item that goes by `mime_type`.
pub open spec fn find_item(items: Seq<SourceItemView>, mime_type: Seq<char>) -> Option<int> {
    find_item_from(items, mime_type, 0)
}

/// The names of all items, item by item, each item's names in their order.
pub open spec fn all_mime_types(items: Seq<SourceItemView>) -> Seq<Seq<char>>
    decreases items.len(),
{
    if items.len() == 0 {
        Seq::empty()
    } else {
        all_mime_types(items.drop_last()) + items.last().mime_type
    }
}

/// No name of one item equals, up to ASCII case, a name of another.
pub open spec fn distinct_aliases(items: Seq<SourceItemView>) -> bool {
    forall|i: int, j: int, a: int, b: int|
        0 <= i < j < items.len() && 0 <= a < items[i].mime_type.len() && 0 <= b
            < items[j].mime_type.len() ==> !same_type(
            #[trigger] items[i].mime_type[a],
            #[trigger] items[j].mime_type[b],
        )
}

/// A payload that can be asked for a representation by name.
pub trait SourceData {
    /// The representations, in their order.
    spec fn items(&self) -> Seq<SourceItemView>;

    /// The content of the first item that goes by `mime_type`, with `true`;
    /// or `false` and no bytes where no item does.
    fn content_by_mime_type(&self, mime_type: &str) -> (r: (bool, Rc<Vec<u8>>))
        ensures
            match find_item(self.items(), mime_type@) {
                Some(i) => r.0 && r.1@ == self.items()[i].content,
                None => !r.0 && r.1@.len() == 0,
            },
    ;

    /// All type names of the payload.
    fn mime_types(&self) -> (r: Vec<String>)
        ensures
            r.deep_view() == all_mime_types(self.items()),
    ;
}

/// Whether one of `names` equals `mime_type` up to ASCII case.
pub fn goes_by(names: &Vec<String>, mime_type: &str) -> (r: bool)
    ensures
        r == names_include(names.deep_view(), mime_type@),
{
    let mut k: usize = 0;
    while k < names.len()
        invariant
            k <= names.len(),
            forall|j: int| 0 <= j < k ==> !same_type(#[trigger] names.deep_view()[j], mime_type@),
        decreases names.len() - k,
    {
        assert(names.deep_view()[k as int] == names@[k as int]@);
        if str_eq_ignore_case(names[k].as_str(), mime_type) {
            return true;
        }
        k += 1;
    }
    false
}

impl SourceData for Vec<SourceDataItem> {
    open spec fn items(&self) -> Seq<SourceItemView> {
        self.deep_view()
    }

    fn content_by_mime_type(&self, mime_type: &str) -> (r: (bool, Rc<Vec<u8>>)) {
        let ghost items = self.deep_view();
        let mut i: usize = 0;
        while i < self.len()
            invariant
                i <= self.len(),
                items == self.deep_view(),
                find_item(items, mime_type@) == find_item_from(items, mime_type@, i as int),
            decreases self.len() - i,
        {
            if goes_by(&self[i].mime_type, mime_type) {
                return (true, self[i].content.clone());
            }
            i += 1;
        }
        (false, Rc::new(Vec::new()))
    }

    fn mime_types(&self) -> (r: Vec<String>) {
        let ghost items = self.deep_view();
        let mut v: Vec<String> = Vec::new();
        let mut i: usize = 0;
        while i < self.len()
            invariant
                i <= self.len(),
                items == self.deep_view(),
                v.deep_view() == all_mime_types(items.take(i as int)),
            decreases self.len() - i,
        {
            let names = &self[i].mime_type;
            let ghost before = v.deep_view();
            let mut k: usize = 0;
            while k < names.len()
                invariant
                    k <= names.len(),
                    v.deep_view() == before + names.deep_view().take(k as int),
                decreases names.len() - k,
            {
                let ghost old_v = v.deep_view();
                v.push(names[k].clone());
                assert(v.deep_view() =~= old_v.push(names@[k as int]@));
                k += 1;
            }
            proof {
                let next = items.take(i + 1);
                assert(next.drop_last() =~= items.take(i as int));
            }
            i += 1;
        }
        assert(items.take(self.len() as int) =~= items);
        v
    }
}

/// `find_item_from` finds the least index at or after `start` of an item that
/// goes by the name, and finds nothing only where no item does.
pub proof fn lemma_find_item_from(items: Seq<SourceItemView>, mime_type: Seq<char>, start: int)
    requires
        0 <= start,
    ensures
        match find_item_from(items, mime_type, start) {
            Some(i) => {
                &&& start <= i < items.len()
                &&& has_alias(items[i], mime_type)
                &&& forall|j: int| start <= j < i ==> !has_alias(#[trigger] items[j], mime_type)
            },
            None => forall|j: int|
                start <= j < items.len() ==> !has_alias(#[trigger] items[j], mime_type),
        },
    decreases items.len() - start,
{
    if start < items.len() && !has_alias(items[start], mime_type) {
        lemma_find_item_from(items, mime_type, start + 1);
    }
}

/// Where no two items share a name, each name of an item finds that item.
pub proof fn lemma_own_alias_finds_item(items: Seq<SourceItemView>, i: int, k: int)
    requires
        distinct_aliases(items),
        0 <= i < items.len(),
        0 <= k < items[i].mime_type.len(),
    ensures
        find_item(items, items[i].mime_type[k]) == Some(i),
{
    lemma_find_item_from(items, items[i].mime_type[k], 0);
}

} // verus!
