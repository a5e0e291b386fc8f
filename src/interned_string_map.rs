//! Interned string map: deduplicates short strings into 16-bit handles.
use std::rc::Rc;
use vstd::prelude::*;
use vstd::string::StringExecFns;
use vstd::utf8::encode_utf8;

verus! {

/// Most entries the table holds, so that every handle fits in 16 bits.
pub const MAX_ENTRIES: usize = 65535;

/// Shortest string length, in UTF-8 bytes, that is interned.
pub const MIN_INTERNED_LEN: usize = 2;

/// Length, in UTF-8 bytes, from which strings are no longer interned.
pub const MAX_INTERNED_LEN: usize = 20;

/// Whether a string of these characters is short enough, and long enough, to be interned.
pub open spec fn eligible(s: Seq<char>) -> bool {
    MIN_INTERNED_LEN <= encode_utf8(s).len() < MAX_INTERNED_LEN
}

/// The handle that interning `s` into the table `t` yields, if any.
pub open spec fn intern_handle(t: Seq<Seq<char>>, s: Seq<char>) -> Option<int> {
    if !eligible(s) {
        None
    } else if t.contains(s) {
        Some(choose|i: int| 0 <= i < t.len() && t[i] == s)
    } else if t.len() >= MAX_ENTRIES {
        None
    } else {
        Some(t.len() as int)
    }
}

/// The table after interning `s` into the table `t`.
pub open spec fn intern_table(t: Seq<Seq<char>>, s: Seq<char>) -> Seq<Seq<char>> {
    if eligible(s) && !t.contains(s) && t.len() < MAX_ENTRIES {
        t.push(s)
    } else {
        t
    }
}

/// The table holds eligible strings only, each once, and at most `MAX_ENTRIES` of them.
pub open spec fn table_wf(t: Seq<Seq<char>>) -> bool {
    &&& t.len() <= MAX_ENTRIES
    &&& forall|i: int| 0 <= i < t.len() ==> eligible(#[trigger] t[i])
    &&& forall|i: int, j: int|
        0 <= i < t.len() && 0 <= j < t.len() && i != j ==> #[trigger] t[i] != #[trigger] t[j]
}

/// A handle as an optional integer.
pub open spec fn handle_view(h: Option<u16>) -> Option<int> {
    match h {
        Some(i) => Some(i as int),
        None => None,
    }
}

/// A table of shared, immutable strings; an entry's index is its handle.
#[derive(Clone, Debug)]
pub struct InternedStringMap {
    data: Vec<Rc<String>>,
}

impl View for InternedStringMap {
    type V = Seq<Seq<char>>;

    closed spec fn view(&self) -> Seq<Seq<char>> {
        self.data@.map_values(|e: Rc<String>| (*e)@)
    }
}

impl InternedStringMap {
    /// The table holds eligible strings only, each once, and at most `MAX_ENTRIES` of them.
    pub open spec fn wf(&self) -> bool {
        table_wf(self@)
    }

    /// Creates an empty table.
    pub fn new() -> (r: InternedStringMap)
        ensures
            r.wf(),
            r@ == Seq::<Seq<char>>::empty(),
    {
        let r = InternedStringMap { data: Vec::new() };
        assert(r@ =~= Seq::<Seq<char>>::empty());
        r
    }

    /// Returns the handle of `s`, adding it to the table if it is eligible,
    /// new and there is room; `None` where it is not interned.
    pub fn get_or_insert(&mut self, s: &str) -> (r: Option<u16>)
        requires
            old(self).wf(),
        ensures
            final(self).wf(),
            handle_view(r) == intern_handle(old(self)@, s@),
            final(self)@ == intern_table(old(self)@, s@),
    {
        let len = s.as_bytes().len();
        if len < MIN_INTERNED_LEN || len >= MAX_INTERNED_LEN {
            return None;
        }
        let owned = <String as StringExecFns>::from_str(s);
        let mut i: usize = 0;
        while i < self.data.len()
            invariant
                i <= self.data@.len(),
                self.wf(),
                owned@ == s@,
                forall|j: int| 0 <= j < i ==> self@[j] != s@,
            decreases self.data@.len() - i,
        {
            let key: &String = &self.data[i];
            if *key == owned {
                assert(self@[i as int] == s@);
                assert(self@.contains(s@));
                let ghost c = choose|j: int| 0 <= j < self@.len() && self@[j] == s@;
                assert(c == i);
                return Some(i as u16);
            }
            i = i + 1;
        }
        assert(!self@.contains(s@));
        if self.data.len() >= MAX_ENTRIES {
            return None;
        }
        let ghost before = self@;
        assert(eligible(s@));
        self.data.push(Rc::new(owned));
        assert(self@ =~= before.push(s@));
        assert forall|j: int| 0 <= j < before.len() implies self@[j] != s@ by {
            assert(before[j] == self@[j]);
        }
        Some((self.data.len() - 1) as u16)
    }

    /// Returns the string with handle `idx`, or `None` where there is none.
    pub fn get(&self, idx: u16) -> (r: Option<&Rc<String>>)
        ensures
            (idx as int) < self@.len() ==> r is Some && (*r.unwrap())@ == self@[idx as int],
            (idx as int) >= self@.len() ==> r is None,
    {
        if (idx as usize) < self.data.len() {
            Some(&self.data[idx as usize])
        } else {
            None
        }
    }

    /// Returns the string with handle `idx`; the caller guarantees that it exists.
    pub fn get_unchecked(&self, idx: u16) -> (r: &Rc<String>)
        requires
            (idx as int) < self@.len(),
        ensures
            (**r)@ == self@[idx as int],
    {
        &self.data[idx as usize]
    }
}

/// Interning the same string twice yields the same handle, and the second
/// time leaves the table as it is; a string that is too short or too long is
/// never interned.
pub proof fn lemma_interning_dedup(t: Seq<Seq<char>>, s: Seq<char>)
    requires
        table_wf(t),
    ensures
        intern_handle(t, s) is Some ==> intern_handle(intern_table(t, s), s) == intern_handle(t, s),
        intern_table(intern_table(t, s), s) == intern_table(t, s),
        !eligible(s) ==> intern_handle(t, s) is None && intern_table(t, s) == t,
{
    let t1 = intern_table(t, s);
    if eligible(s) && !t.contains(s) && t.len() < MAX_ENTRIES {
        assert(t1[t.len() as int] == s);
        assert(t1.contains(s));
        let c = choose|i: int| 0 <= i < t1.len() && t1[i] == s;
        if c != t.len() {
            assert(t[c] == s);
        }
    }
}

/// Until the table is full, each new eligible string gets the next handle,
/// so handles are distinct; once it holds `MAX_ENTRIES` strings, a new one is
/// refused and the table stays as it is.
pub proof fn lemma_interning_capacity(t: Seq<Seq<char>>, s: Seq<char>)
    requires
        table_wf(t),
        eligible(s),
        !t.contains(s),
    ensures
        t.len() < MAX_ENTRIES ==> intern_handle(t, s) == Some(t.len() as int)
            && forall|h: int| 0 <= h < t.len() ==> intern_handle(t, s) != Some(h),
        t.len() == MAX_ENTRIES ==> intern_handle(t, s) is None && intern_table(t, s) == t,
{
}

/// An entry never changes once it is in the table: interning any string keeps
/// every existing handle's content, and the handle returned for `s` holds `s`.
pub proof fn lemma_interning_immutability(t: Seq<Seq<char>>, s: Seq<char>, h: int)
    requires
        table_wf(t),
        0 <= h < t.len(),
    ensures
        intern_table(t, s).len() >= t.len(),
        intern_table(t, s)[h] == t[h],
        intern_handle(t, s) matches Some(k) ==> 0 <= k < intern_table(t, s).len() && intern_table(
            t,
            s,
        )[k] == s,
{
    if t.contains(s) && eligible(s) {
        let c = choose|i: int| 0 <= i < t.len() && t[i] == s;
        assert(t[c] == s);
    }
}

/// The table after interning each string of `ss` in turn.
pub open spec fn intern_all(t: Seq<Seq<char>>, ss: Seq<Seq<char>>) -> Seq<Seq<char>>
    decreases ss.len(),
{
    if ss.len() == 0 {
        t
    } else {
        intern_all(intern_table(t, ss[0]), ss.drop_first())
    }
}

/// However many strings are interned afterwards, the entry with handle `h`
/// keeps its content.
pub proof fn lemma_interning_lifetime(t: Seq<Seq<char>>, ss: Seq<Seq<char>>, h: int)
    requires
        table_wf(t),
        0 <= h < t.len(),
    ensures
        intern_all(t, ss).len() >= t.len(),
        intern_all(t, ss)[h] == t[h],
        table_wf(intern_all(t, ss)),
    decreases ss.len(),
{
    if ss.len() > 0 {
        let t1 = intern_table(t, ss[0]);
        lemma_interning_immutability(t, ss[0], h);
        lemma_intern_table_wf(t, ss[0]);
        lemma_interning_lifetime(t1, ss.drop_first(), h);
    }
}

/// Interning keeps the table well formed.
pub proof fn lemma_intern_table_wf(t: Seq<Seq<char>>, s: Seq<char>)
    requires
        table_wf(t),
    ensures
        table_wf(intern_table(t, s)),
{
    let t1 = intern_table(t, s);
    if eligible(s) && !t.contains(s) && t.len() < MAX_ENTRIES {
        assert forall|j: int| 0 <= j < t.len() implies t1[j] != s by {
            if t[j] == s {
                assert(t.contains(s));
            }
        }
    }
}

} // verus!
