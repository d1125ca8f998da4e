use vstd::prelude::*;
use vstd::string::StrSliceExecFns;
use crate::errors::PasteError;
use crate::id::valid_id;

verus! {

/// Largest content size the surrounding transport accepts in one
/// submission. The store itself enforces no bound; the limit is applied
/// before content ever reaches the core.
pub const MAX_CONTENT_LEN: usize = 10 * 1024 * 1024;

/// One stored paste: an identifier and the content persisted under it.
struct PasteEntry {
    id: String,
    content: String,
}

/// The mapping that a sequence of stored entries denotes: each identifier
/// maps to the content most recently stored under it.
spec fn entries_map(s: Seq<PasteEntry>) -> Map<Seq<char>, Seq<char>>
    decreases s.len(),
{
    if s.len() == 0 {
        Map::empty()
    } else {
        entries_map(s.drop_last()).insert(s.last().id@, s.last().content@)
    }
}

/// The store mapping each identifier to one immutable piece of content.
///
/// Its abstract value, `self@`, is the map from identifier to content.
/// A write inserts into that map; a read returns exactly the map's value
/// at the identifier, or reports absence.
pub struct PasteStore {
    entries: Vec<PasteEntry>,
}

impl View for PasteStore {
    type V = Map<Seq<char>, Seq<char>>;

    closed spec fn view(&self) -> Map<Seq<char>, Seq<char>> {
        entries_map(self.entries@)
    }
}

/// Character-for-character comparison of two strings.
fn str_eq(a: &str, b: &str) -> (r: bool)
    ensures
        r == (a@ == b@),
{
    let na = a.unicode_len();
    let nb = b.unicode_len();
    if na != nb {
        return false;
    }
    let mut i: usize = 0;
    while i < na
        invariant
            na == a@.len(),
            nb == b@.len(),
            na == nb,
            i <= na,
            forall|j: int| 0 <= j < i ==> a@[j] == b@[j],
        decreases na - i,
    {
        if a.get_char(i) != b.get_char(i) {
            return false;
        }
        i = i + 1;
    }
    proof {
        assert(a@ =~= b@);
    }
    true
}

/// In a sequence whose entry at `i` carries identifier `k`, with no later
/// entry carrying `k`, the denoted map holds `k` with entry `i`'s content.
proof fn lemma_entries_map_found(s: Seq<PasteEntry>, k: Seq<char>, i: int)
    requires
        0 <= i < s.len(),
        s[i].id@ == k,
        forall|t: int| i < t < s.len() ==> #[trigger] s[t].id@ != k,
    ensures
        entries_map(s).contains_key(k),
        entries_map(s)[k] == s[i].content@,
    decreases s.len(),
{
    if i == s.len() - 1 {
    } else {
        assert(s.drop_last()[i] == s[i]);
        lemma_entries_map_found(s.drop_last(), k, i);
    }
}

/// In a sequence none of whose entries carries identifier `k`, the denoted
/// map holds nothing under `k`.
proof fn lemma_entries_map_absent(s: Seq<PasteEntry>, k: Seq<char>)
    requires
        forall|t: int| 0 <= t < s.len() ==> #[trigger] s[t].id@ != k,
    ensures
        !entries_map(s).contains_key(k),
    decreases s.len(),
{
    if s.len() > 0 {
        lemma_entries_map_absent(s.drop_last(), k);
    }
}

impl PasteStore {
    /// An empty store: nothing has been written under any identifier.
    pub fn new() -> (s: Self)
        ensures
            s@ == Map::<Seq<char>, Seq<char>>::empty(),
    {
        PasteStore { entries: Vec::new() }
    }

    /// Persist `content` under `id`. Only a valid identifier may address
    /// storage. Writing to an identifier already present replaces its
    /// content — last write wins, the overwrite policy this store chooses
    /// and documents. This in-memory realization cannot fail, so the
    /// result is always success.
    pub fn write(&mut self, id: String, content: String) -> (r: Result<(), PasteError>)
        requires
            valid_id(id@),
        ensures
            r is Ok,
            final(self)@ == old(self)@.insert(id@, content@),
    {
        let ghost pre = self.entries@;
        self.entries.push(PasteEntry { id, content });
        proof {
            assert(self.entries@.drop_last() =~= pre);
        }
        Ok(())
    }

    /// Fetch the content stored under `id`: exactly the store's value at
    /// `id` when one is present, and `NotFound` — never anything else —
    /// when none is.
    pub fn read(&self, id: &str) -> (r: Result<String, PasteError>)
        ensures
            self@.contains_key(id@) ==> (r matches Ok(c) && c@ == self@[id@]),
            !self@.contains_key(id@) ==> r == Err::<String, PasteError>(PasteError::NotFound),
    {
        let n = self.entries.len();
        let mut j = n;
        while j > 0
            invariant
                n == self.entries@.len(),
                j <= n,
                forall|t: int| j <= t < n ==> #[trigger] self.entries@[t].id@ != id@,
            decreases j,
        {
            j = j - 1;
            let entry = &self.entries[j];
            if str_eq(entry.id.as_str(), id) {
                proof {
                    lemma_entries_map_found(self.entries@, id@, j as int);
                }
                return Ok(entry.content.clone());
            }
        }
        proof {
            lemma_entries_map_absent(self.entries@, id@);
        }
        Err(PasteError::NotFound)
    }
}

/// Round-trip law: for any store contents, any valid identifier, and any
/// content within the transport's bound, a write followed by a read of the
/// same identifier yields exactly the written content. `write` turns the
/// store's map into `old(self)@.insert(id, content)`; in that map the
/// identifier is present and carries `content`, so `read`'s contract
/// returns `content` verbatim.
pub proof fn lemma_write_then_read(m: Map<Seq<char>, Seq<char>>, id: Seq<char>, content: Seq<char>)
    requires
        valid_id(id),
        content.len() <= MAX_CONTENT_LEN,
    ensures
        m.insert(id, content).contains_key(id),
        m.insert(id, content)[id] == content,
{
}

/// Absence law: an identifier that was never written is absent — from the
/// empty store, and still after a write under any other identifier — so by
/// `read`'s contract it yields `NotFound`.
pub proof fn lemma_unwritten_absent(
    m: Map<Seq<char>, Seq<char>>,
    id: Seq<char>,
    other: Seq<char>,
    content: Seq<char>,
)
    requires
        id != other,
    ensures
        !Map::<Seq<char>, Seq<char>>::empty().contains_key(id),
        !m.contains_key(id) ==> !m.insert(other, content).contains_key(id),
{
}

/// Independence law: two writes under distinct identifiers do not
/// interfere — after both, each identifier carries exactly its own
/// content, whichever order the writes came in.
pub proof fn lemma_independent_writes(
    m: Map<Seq<char>, Seq<char>>,
    id1: Seq<char>,
    id2: Seq<char>,
    c1: Seq<char>,
    c2: Seq<char>,
)
    requires
        id1 != id2,
    ensures
        m.insert(id1, c1).insert(id2, c2).contains_key(id1),
        m.insert(id1, c1).insert(id2, c2).contains_key(id2),
        m.insert(id1, c1).insert(id2, c2)[id1] == c1,
        m.insert(id1, c1).insert(id2, c2)[id2] == c2,
{
}

} // verus!
