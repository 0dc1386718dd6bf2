use vstd::prelude::*;
use crate::text::find;

verus! {

/// What `str::to_lowercase` makes of a string.
pub uninterp spec fn lower_of(s: Seq<char>) -> Seq<char>;

/// Relies on `str::to_lowercase`: the result depends on the characters alone,
/// and the empty string stays empty.
#[verifier::external_body]
fn lowercase(s: &str) -> (r: String)
    ensures
        r@ == lower_of(s@),
        s@.len() == 0 ==> r@.len() == 0,
{
    s.to_lowercase()
}

/// Whether `needle` occurs in `hay` as a contiguous run.
pub open spec fn is_substring(needle: Seq<char>, hay: Seq<char>) -> bool {
    exists|i: int| 0 <= i && i + needle.len() <= hay.len() && #[trigger] hay.subrange(i, i + needle.len()) == needle
}

/// Substring search on strings that are already lower-cased.
pub fn contains_folded(needle: &str, hay: &str) -> (r: bool)
    ensures
        r == is_substring(needle@, hay@),
{
    find(hay, needle).is_some()
}

/// Whether a destination passes the filter: an empty filter passes
/// everything; otherwise the filter must occur in the name, ignoring case.
pub open spec fn passes_filter(filter: Seq<char>, name: Seq<char>) -> bool {
    filter.len() == 0 || is_substring(lower_of(filter), lower_of(name))
}

/// Case-insensitive substring match of the filter against a name.
pub fn string_match(filter: &str, name: &str) -> (r: bool)
    ensures
        r == is_substring(lower_of(filter@), lower_of(name@)),
{
    let f = lowercase(filter);
    let n = lowercase(name);
    contains_folded(f.as_str(), n.as_str())
}

/// One named warp destination and its identifier.
#[derive(Debug)]
pub struct WarpTarget {
    pub name: String,
    pub id: u32,
}

/// The amount subtracted from a destination identifier before it is handed to
/// the host's warp function.
pub const WARP_ID_OFFSET: u32 = 0x3e8;

/// The filterable list of warp destinations and the selected one.
pub struct Warp {
    /// The label of the button that opens the destination list.
    pub label: String,
    pub catalog: Vec<WarpTarget>,
    pub current: usize,
    pub filter: String,
    pub visible: Vec<bool>,
    pub label_close: String,
}

/// The selection after the filter changed: kept when still visible, else the
/// first visible entry, else the first entry.
pub open spec fn fallback(visible: Seq<bool>, current: int) -> int {
    if visible[current] {
        current
    } else if exists|i: int| 0 <= i < visible.len() && visible[i] {
        choose|i: int| 0 <= i < visible.len() && visible[i] && forall|j: int| 0 <= j < i ==> !visible[j]
    } else {
        0
    }
}

impl Warp {
    pub open spec fn wf(&self) -> bool {
        &&& self.catalog@.len() > 0
        &&& self.visible@.len() == self.catalog@.len()
        &&& self.current < self.catalog@.len()
        &&& forall|i: int| 0 <= i < self.catalog@.len() ==> #[trigger] self.catalog@[i].id >= WARP_ID_OFFSET
    }

    /// A selector over `catalog`, every entry visible, the first selected.
    /// `close_key` names the key that closes the popup.
    pub fn new(catalog: Vec<WarpTarget>, close_key: &str) -> (r: Warp)
        requires
            catalog@.len() > 0,
            forall|i: int| 0 <= i < catalog@.len() ==> #[trigger] catalog@[i].id >= WARP_ID_OFFSET,
        ensures
            r.wf(),
            r.current == 0,
            r.filter@.len() == 0,
            forall|i: int| 0 <= i < r.visible@.len() ==> #[trigger] r.visible@[i],
            r.label@ == "Warp to Grace"@,
            r.label_close@ == "Close ("@ + close_key@ + ")"@,
            r.catalog@ == catalog@,
    {
        let mut visible: Vec<bool> = Vec::new();
        let mut i: usize = 0;
        while i < catalog.len()
            invariant
                i <= catalog@.len(),
                visible@.len() == i,
                forall|j: int| 0 <= j < i ==> #[trigger] visible@[j],
            decreases catalog@.len() - i,
        {
            visible.push(true);
            i = i + 1;
        }
        let mut label_close = String::from_str("Close (");
        label_close.append(close_key);
        label_close.append(")");
        Warp { label: String::from_str("Warp to Grace"), catalog, current: 0, filter: String::new(), visible, label_close }
    }

    /// Recomputes which destinations pass the new filter and, if the selected
    /// one no longer does, falls back to the first that does.
    pub fn set_filter(&mut self, filter: String)
        requires
            old(self).wf(),
        ensures
            final(self).wf(),
            final(self).catalog@ == old(self).catalog@,
            final(self).filter@ == filter@,
            forall|i: int| 0 <= i < final(self).visible@.len() ==> #[trigger] final(self).visible@[i]
                == passes_filter(filter@, final(self).catalog@[i].name@),
            final(self).current == fallback(final(self).visible@, old(self).current as int),
    {
        let n = self.catalog.len();
        let empty = filter.unicode_len() == 0;
        let mut visible: Vec<bool> = Vec::new();
        let mut i: usize = 0;
        while i < n
            invariant
                n == self.catalog@.len(),
                i <= n,
                visible@.len() == i,
                empty == (filter@.len() == 0),
                forall|j: int| 0 <= j < i ==> #[trigger] visible@[j] == passes_filter(filter@, self.catalog@[j].name@),
            decreases n - i,
        {
            let pass = empty || string_match(filter.as_str(), self.catalog[i].name.as_str());
            visible.push(pass);
            i = i + 1;
        }
        let old_current = self.current;
        if !visible[old_current] {
            let mut k: usize = 0;
            let mut found = false;
            while k < n && !found
                invariant
                    k <= n,
                    visible@.len() == n,
                    found ==> k < n && visible@[k as int],
                    forall|j: int| 0 <= j < k ==> !#[trigger] visible@[j],
                decreases n - k + (if found { 0int } else { 1 }),
            {
                if visible[k] {
                    found = true;
                } else {
                    k = k + 1;
                }
            }
            proof {
                if found {
                    assert(exists|i: int| 0 <= i < visible@.len() && visible@[i]);
                    let c = choose|i: int| 0 <= i < visible@.len() && visible@[i] && forall|j: int| 0 <= j < i ==> !visible@[j];
                    if c < k {
                        assert(!visible@[c]);
                    } else if c > k {
                        assert(!visible@[k as int]);
                    }
                } else {
                    assert(!exists|i: int| 0 <= i < visible@.len() && visible@[i]);
                }
            }
            self.current = if found {
                k
            } else {
                0
            };
        }
        self.visible = visible;
        self.filter = filter;
    }

    /// Selects a destination from the filtered list.
    pub fn select(&mut self, i: usize)
        requires
            old(self).wf(),
            i < old(self).catalog@.len(),
        ensures
            final(self).wf(),
            final(self).current == i,
            final(self).catalog@ == old(self).catalog@,
            final(self).visible@ == old(self).visible@,
    {
        self.current = i;
    }

    /// The arguments of the host's warp call: the two state values read from
    /// the host and the encoded identifier of the selected destination; no call
    /// when either read failed.
    pub fn warp_call(&self, arg1: Option<u64>, arg2: Option<u64>) -> (r: Option<(u64, u64, u32)>)
        requires
            self.wf(),
        ensures
            match (arg1, arg2) {
                (Some(a), Some(b)) => r == Some((a, b, (self.catalog@[self.current as int].id - WARP_ID_OFFSET) as u32)),
                _ => r is None,
            },
    {
        match (arg1, arg2) {
            (Some(a), Some(b)) => Some((a, b, self.catalog[self.current].id - WARP_ID_OFFSET)),
            _ => None,
        }
    }
}

} // verus!
