//! The access list: the identifiers that may authenticate.

use vstd::prelude::*;

verus! {

/// The identifiers that a list of entries names, in no order.
pub open spec fn identifiers(entries: Seq<Seq<char>>) -> Set<Seq<char>> {
    entries.to_set()
}

/// The set of identifiers that may authenticate.
///
/// The list is never edited in place: a reload puts a whole new list in its
/// stead, so a reader sees one list or the other.
#[derive(Debug)]
pub struct AccessList {
    entries: Vec<String>,
}

impl View for AccessList {
    type V = Set<Seq<char>>;

    closed spec fn view(&self) -> Set<Seq<char>> {
        identifiers(self.entries.deep_view())
    }
}

impl AccessList {
    /// The list that admits exactly the given identifiers.
    pub fn new(entries: Vec<String>) -> (list: AccessList)
        ensures
            list@ == identifiers(entries.deep_view()),
    {
        AccessList { entries }
    }

    /// Whether `id` may authenticate.
    pub fn contains(&self, id: &str) -> (found: bool)
        ensures
            found == self@.contains(id@),
    {
        let mut i: usize = 0;
        while i < self.entries.len()
            invariant
                i <= self.entries.len(),
                forall|j: int| 0 <= j < i ==> self.entries.deep_view()[j] != id@,
            decreases self.entries.len() - i,
        {
            if crate::text::same_text(self.entries[i].as_str(), id) {
                assert(self.entries.deep_view()[i as int] == id@);
                return true;
            }
            i += 1;
        }
        false
    }

    /// Puts a new list in place of the current one, whole, and hands the
    /// entries of the old one back.
    pub fn replace(&mut self, entries: Vec<String>) -> (previous: Vec<String>)
        ensures
            final(self)@ == identifiers(entries.deep_view()),
            identifiers(previous.deep_view()) == old(self)@,
    {
        let mut incoming = entries;
        std::mem::swap(&mut self.entries, &mut incoming);
        incoming
    }
}

/// Installs what a reload has read. Identifiers that were read replace the
/// list, whole; where the configuration could not be read, the list stays as
/// it is and goes on serving, and the next change of the file is another
/// chance.
pub fn install_reload(list: &mut AccessList, loaded: Option<Vec<String>>) -> (installed: bool)
    ensures
        installed == loaded is Some,
        loaded matches Some(ids) ==> final(list)@ == identifiers(ids.deep_view()),
        loaded is None ==> final(list)@ == old(list)@,
{
    match loaded {
        Some(ids) => {
            list.replace(ids);
            true
        },
        None => false,
    }
}

} // verus!
