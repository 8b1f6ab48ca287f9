//! The shared message registry: a mapping from a counter-assigned 16-bit id
//! to a text payload. Producer threads add entries, the hook callback reads
//! them, and an explicit remove or a whitespace-insensitive reverse lookup
//! takes them out again. The id counter wraps silently at the 16-bit width,
//! so an id can eventually be reused; an add always overwrites whatever the
//! reused id still mapped to (last writer wins).
//!
//! The lock that guards the table at runtime is process glue; the logic here
//! is the table itself, specified as a `Map<u16, Seq<char>>`.
use vstd::prelude::*;

verus! {

/// True of the characters that the whitespace-insensitive comparison skips:
/// the characters with the Unicode `White_Space` property.
pub open spec fn is_space(c: char) -> bool {
    ||| c == '\u{0009}'
    ||| c == '\u{000A}'
    ||| c == '\u{000B}'
    ||| c == '\u{000C}'
    ||| c == '\u{000D}'
    ||| c == ' '
    ||| c == '\u{0085}'
    ||| c == '\u{00A0}'
    ||| c == '\u{1680}'
    ||| c == '\u{2000}'
    ||| c == '\u{2001}'
    ||| c == '\u{2002}'
    ||| c == '\u{2003}'
    ||| c == '\u{2004}'
    ||| c == '\u{2005}'
    ||| c == '\u{2006}'
    ||| c == '\u{2007}'
    ||| c == '\u{2008}'
    ||| c == '\u{2009}'
    ||| c == '\u{200A}'
    ||| c == '\u{2028}'
    ||| c == '\u{2029}'
    ||| c == '\u{202F}'
    ||| c == '\u{205F}'
    ||| c == '\u{3000}'
}

/// A text with every whitespace character removed: the form in which two
/// payloads are compared.
pub open spec fn norm(s: Seq<char>) -> Seq<char>
    decreases s.len(),
{
    if s.len() == 0 {
        Seq::empty()
    } else if is_space(s.last()) {
        norm(s.drop_last())
    } else {
        norm(s.drop_last()).push(s.last())
    }
}

/// The successor of the id counter: one more, wrapping at the 16-bit width.
pub open spec fn next_counter(c: u16) -> u16 {
    if c == 0xFFFF {
        0
    } else {
        (c + 1) as u16
    }
}

/// The map described by a key/value sequence, later entries overriding
/// earlier ones.
pub open spec fn map_of(s: Seq<(u16, String)>) -> Map<u16, Seq<char>>
    decreases s.len(),
{
    if s.len() == 0 {
        Map::empty()
    } else {
        map_of(s.drop_last()).insert(s.last().0, s.last().1@)
    }
}

/// The registry: entries keyed by a wrapping counter-assigned id.
pub struct MessageRegistry {
    next_id: u16,
    entries: Vec<(u16, String)>,
}

impl MessageRegistry {
    /// What the registry maps each live id to.
    pub closed spec fn contents(self) -> Map<u16, Seq<char>> {
        map_of(self.entries@)
    }

    /// The id the next add will issue.
    pub closed spec fn counter(self) -> u16 {
        self.next_id
    }

    /// Ids are stored at most once each.
    pub closed spec fn wf(self) -> bool {
        forall|i: int, j: int|
            0 <= i < j < self.entries@.len() ==> self.entries@[i].0 != self.entries@[j].0
    }

    /// An empty registry; the first add issues id 1.
    pub fn new() -> (r: MessageRegistry)
        ensures
            r.wf(),
            r.contents() == Map::<u16, Seq<char>>::empty(),
            r.counter() == 1u16,
    {
        MessageRegistry { next_id: 1, entries: Vec::new() }
    }
}

proof fn lemma_map_of_contains(s: Seq<(u16, String)>, k: u16)
    ensures
        map_of(s).contains_key(k) <==> exists|i: int| 0 <= i < s.len() && s[i].0 == k,
    decreases s.len(),
{
    if s.len() > 0 {
        lemma_map_of_contains(s.drop_last(), k);
        if s.last().0 == k {
            assert(s[s.len() - 1].0 == k);
        } else if map_of(s).contains_key(k) {
            let i = choose|i: int| 0 <= i < s.drop_last().len() && s.drop_last()[i].0 == k;
            assert(s[i].0 == k);
        } else if exists|i: int| 0 <= i < s.len() && s[i].0 == k {
            let i = choose|i: int| 0 <= i < s.len() && s[i].0 == k;
            assert(s.drop_last()[i].0 == k);
        }
    }
}

proof fn lemma_map_of_value(s: Seq<(u16, String)>, i: int)
    requires
        forall|p: int, q: int| 0 <= p < q < s.len() ==> s[p].0 != s[q].0,
        0 <= i < s.len(),
    ensures
        map_of(s).contains_key(s[i].0),
        map_of(s)[s[i].0] == s[i].1@,
    decreases s.len(),
{
    if i == s.len() - 1 {
    } else {
        lemma_map_of_value(s.drop_last(), i);
        assert(s.drop_last()[i] == s[i]);
        assert(s.last().0 != s[i].0);
    }
}

proof fn lemma_map_of_update(s: Seq<(u16, String)>, i: int, v: String)
    requires
        forall|p: int, q: int| 0 <= p < q < s.len() ==> s[p].0 != s[q].0,
        0 <= i < s.len(),
    ensures
        map_of(s.update(i, (s[i].0, v))) =~= map_of(s).insert(s[i].0, v@),
    decreases s.len(),
{
    let k = s[i].0;
    let t = s.update(i, (k, v));
    if i == s.len() - 1 {
        assert(t.drop_last() =~= s.drop_last());
        assert(t.last() == (k, v));
    } else {
        lemma_map_of_update(s.drop_last(), i, v);
        assert(s.drop_last()[i] == s[i]);
        assert(t.drop_last() =~= s.drop_last().update(i, (k, v)));
        assert(t.last() == s.last());
        assert(s.last().0 != k);
    }
}

proof fn lemma_map_of_remove(s: Seq<(u16, String)>, i: int)
    requires
        forall|p: int, q: int| 0 <= p < q < s.len() ==> s[p].0 != s[q].0,
        0 <= i < s.len(),
    ensures
        map_of(s.remove(i)) =~= map_of(s).remove(s[i].0),
    decreases s.len(),
{
    let k = s[i].0;
    if i == s.len() - 1 {
        assert(s.remove(i) =~= s.drop_last());
        assert(forall|j: int| 0 <= j < s.drop_last().len() ==> s.drop_last()[j].0 != k);
        lemma_map_of_contains(s.drop_last(), k);
        assert(!map_of(s.drop_last()).contains_key(k));
    } else {
        lemma_map_of_remove(s.drop_last(), i);
        assert(s.drop_last()[i] == s[i]);
        assert(s.remove(i).drop_last() =~= s.drop_last().remove(i));
        assert(s.remove(i).last() == s.last());
        assert(s.last().0 != k);
    }
}

/// Decides whether a character carries the Unicode `White_Space` property.
fn is_space_char(c: char) -> (r: bool)
    ensures
        r == is_space(c),
{
    c == '\u{0009}' || c == '\u{000A}' || c == '\u{000B}' || c == '\u{000C}' || c == '\u{000D}'
        || c == ' ' || c == '\u{0085}' || c == '\u{00A0}' || c == '\u{1680}' || c == '\u{2000}'
        || c == '\u{2001}' || c == '\u{2002}' || c == '\u{2003}' || c == '\u{2004}'
        || c == '\u{2005}' || c == '\u{2006}' || c == '\u{2007}' || c == '\u{2008}'
        || c == '\u{2009}' || c == '\u{200A}' || c == '\u{2028}' || c == '\u{2029}'
        || c == '\u{202F}' || c == '\u{205F}' || c == '\u{3000}'
}

/// The characters of `s` with every whitespace character removed.
fn normalized_chars(s: &str) -> (r: Vec<char>)
    ensures
        r@ == norm(s@),
{
    let mut out: Vec<char> = Vec::new();
    let n = s.unicode_len();
    let mut i: usize = 0;
    while i < n
        invariant
            n == s@.len(),
            0 <= i <= n,
            out@ == norm(s@.subrange(0, i as int)),
        decreases n - i,
    {
        let c = s.get_char(i);
        proof {
            let pre = s@.subrange(0, i as int);
            let nxt = s@.subrange(0, i + 1);
            assert(nxt.drop_last() =~= pre);
            assert(nxt.last() == s@[i as int]);
        }
        if !is_space_char(c) {
            out.push(c);
        }
        i = i + 1;
    }
    proof {
        assert(s@.subrange(0, n as int) =~= s@);
    }
    out
}

/// Compares two texts with whitespace ignored, the test by which a remove
/// command or a reverse lookup finds its entry.
pub fn normalized_is_equal(msg1: &str, msg2: &str) -> (r: bool)
    ensures
        r == (norm(msg1@) == norm(msg2@)),
{
    let a = normalized_chars(msg1);
    let b = normalized_chars(msg2);
    if a.len() != b.len() {
        assert(a@ != b@);
        return false;
    }
    let n = a.len();
    let mut i: usize = 0;
    while i < n
        invariant
            n == a@.len() == b@.len(),
            0 <= i <= n,
            a@ == norm(msg1@),
            b@ == norm(msg2@),
            forall|j: int| 0 <= j < i ==> a@[j] == b@[j],
        decreases n - i,
    {
        if a[i] != b[i] {
            assert(a@ != b@);
            return false;
        }
        i = i + 1;
    }
    assert(a@ =~= b@);
    true
}

/// Stores a payload under the next counter value and returns that id. The
/// counter wraps at the 16-bit width; if the id is still in use from an
/// earlier cycle, the new payload replaces the old one.
pub fn add_message(reg: &mut MessageRegistry, message: &str) -> (id: u16)
    requires
        old(reg).wf(),
    ensures
        final(reg).wf(),
        id == old(reg).counter(),
        final(reg).counter() == next_counter(old(reg).counter()),
        final(reg).contents() =~= old(reg).contents().insert(id, message@),
{
    let id = reg.next_id;
    reg.next_id = if id == 0xFFFF { 0 } else { id + 1 };
    let text: String = message.to_owned();
    let n = reg.entries.len();
    let mut i: usize = 0;
    while i < n
        invariant
            n == reg.entries@.len(),
            0 <= i <= n,
            forall|j: int| 0 <= j < i ==> reg.entries@[j].0 != id,
            text@ == message@,
            reg.wf(),
            id == old(reg).counter(),
            reg.next_id == next_counter(old(reg).counter()),
            reg.entries@ == old(reg).entries@,
        decreases n - i,
    {
        if reg.entries[i].0 == id {
            proof {
                lemma_map_of_update(reg.entries@, i as int, text);
            }
            reg.entries[i] = (id, text);
            return id;
        }
        i = i + 1;
    }
    proof {
        assert(reg.entries@.push((id, text)).drop_last() =~= reg.entries@);
    }
    reg.entries.push((id, text));
    id
}

/// The payload stored under `index`, if any.
pub fn get_message(reg: &MessageRegistry, index: u16) -> (r: Option<String>)
    requires
        reg.wf(),
    ensures
        match r {
            Some(t) => reg.contents().contains_key(index) && t@ == reg.contents()[index],
            None => !reg.contents().contains_key(index),
        },
{
    let n = reg.entries.len();
    let mut i: usize = 0;
    while i < n
        invariant
            n == reg.entries@.len(),
            0 <= i <= n,
            forall|j: int| 0 <= j < i ==> reg.entries@[j].0 != index,
            reg.wf(),
        decreases n - i,
    {
        if reg.entries[i].0 == index {
            proof {
                lemma_map_of_value(reg.entries@, i as int);
            }
            return Some(reg.entries[i].1.clone());
        }
        i = i + 1;
    }
    proof {
        lemma_map_of_contains(reg.entries@, index);
    }
    None
}

/// Drops the entry stored under `id`, if any.
pub fn remove_message(reg: &mut MessageRegistry, id: u16)
    requires
        old(reg).wf(),
    ensures
        final(reg).wf(),
        final(reg).counter() == old(reg).counter(),
        final(reg).contents() =~= old(reg).contents().remove(id),
{
    let n = reg.entries.len();
    let mut i: usize = 0;
    while i < n
        invariant
            n == reg.entries@.len(),
            0 <= i <= n,
            forall|j: int| 0 <= j < i ==> reg.entries@[j].0 != id,
            reg.wf(),
            reg.next_id == old(reg).counter(),
            reg.entries@ == old(reg).entries@,
        decreases n - i,
    {
        if reg.entries[i].0 == id {
            proof {
                lemma_map_of_remove(reg.entries@, i as int);
            }
            reg.entries.remove(i);
            return;
        }
        i = i + 1;
    }
    proof {
        lemma_map_of_contains(reg.entries@, id);
        assert(map_of(reg.entries@).remove(id) =~= map_of(reg.entries@));
    }
}

/// Finds an id whose payload equals `text` with whitespace ignored, for
/// callers that only have the text and need the id back.
pub fn find_by_text(reg: &MessageRegistry, text: &str) -> (r: Option<u16>)
    requires
        reg.wf(),
    ensures
        match r {
            Some(id) => reg.contents().contains_key(id) && norm(reg.contents()[id]) == norm(
                text@,
            ),
            None => forall|id: u16|
                reg.contents().contains_key(id) ==> norm(#[trigger] reg.contents()[id]) != norm(
                    text@,
                ),
        },
{
    let n = reg.entries.len();
    let mut i: usize = 0;
    while i < n
        invariant
            n == reg.entries@.len(),
            0 <= i <= n,
            forall|j: int| 0 <= j < i ==> norm(#[trigger] reg.entries@[j].1@) != norm(text@),
            reg.wf(),
        decreases n - i,
    {
        if normalized_is_equal(reg.entries[i].1.as_str(), text) {
            proof {
                lemma_map_of_value(reg.entries@, i as int);
            }
            return Some(reg.entries[i].0);
        }
        i = i + 1;
    }
    proof {
        assert forall|id: u16| reg.contents().contains_key(id) implies norm(
            #[trigger] reg.contents()[id],
        ) != norm(text@) by {
            lemma_map_of_contains(reg.entries@, id);
            let j = choose|j: int| 0 <= j < reg.entries@.len() && reg.entries@[j].0 == id;
            lemma_map_of_value(reg.entries@, j);
        }
    }
    None
}

/// How the host sees a payload: its UTF-16 encoding.
pub uninterp spec fn wide_of(s: Seq<char>) -> Seq<u16>;

/// Relies on widestring::U16String::from_str, which encodes the characters
/// as UTF-16 (and on into_vec, which hands the encoded units out); the
/// encoding is a function of the characters alone.
#[verifier::external_body]
fn encode_wide(s: &str) -> (r: Vec<u16>)
    ensures
        r@ == wide_of(s@),
        s@.len() == 0 ==> r@.len() == 0,
{
    widestring::U16String::from_str(s).into_vec()
}

/// The payload stored under `index`, encoded as the host reads it.
pub fn message_wide(reg: &MessageRegistry, index: u16) -> (r: Option<Vec<u16>>)
    requires
        reg.wf(),
    ensures
        match r {
            Some(w) => reg.contents().contains_key(index) && w@ == wide_of(
                reg.contents()[index],
            ),
            None => !reg.contents().contains_key(index),
        },
{
    match get_message(reg, index) {
        Some(t) => Some(encode_wide(t.as_str())),
        None => None,
    }
}

/// Law: an added payload is what `get` returns for the issued id, it
/// survives adds and removes of other ids, an add under a reused id
/// overwrites (last writer wins), and a matching remove ends it.
pub proof fn law_add_then_get(
    m: Map<u16, Seq<char>>,
    id: u16,
    text: Seq<char>,
    other: u16,
    other_text: Seq<char>,
)
    ensures
        m.insert(id, text)[id] == text,
        other != id ==> m.insert(id, text).insert(other, other_text)[id] == text,
        other != id ==> m.insert(id, text).remove(other)[id] == text,
        m.insert(id, text).insert(id, other_text)[id] == other_text,
        !m.insert(id, text).remove(id).contains_key(id),
{
}

/// The counter value after `k` adds.
pub open spec fn counter_after(c: u16, k: nat) -> u16
    decreases k,
{
    if k == 0 {
        c
    } else {
        next_counter(counter_after(c, (k - 1) as nat))
    }
}

proof fn lemma_counter_after_mod(c: u16, k: nat)
    ensures
        counter_after(c, k) == (c + k) % 0x10000,
    decreases k,
{
    if k > 0 {
        lemma_counter_after_mod(c, (k - 1) as nat);
    }
}

/// Law: the id counter is cyclic with period 2^16, so after 2^16 adds the
/// next id reuses a previously issued value.
pub proof fn law_counter_wraparound(c: u16)
    ensures
        counter_after(c, 0x10000) == c,
{
    lemma_counter_after_mod(c, 0x10000);
}

/// One registry operation, as the sequence law abstracts it: an add stores
/// its text under the current counter value and advances the counter; a
/// remove drops one id.
pub enum RegOp {
    Add { text: Seq<char> },
    Remove { id: u16 },
}

/// The table and counter after one operation.
pub open spec fn apply_op(st: (Map<u16, Seq<char>>, u16), op: RegOp) -> (Map<u16, Seq<char>>, u16) {
    match op {
        RegOp::Add { text } => (st.0.insert(st.1, text), next_counter(st.1)),
        RegOp::Remove { id } => (st.0.remove(id), st.1),
    }
}

/// The table and counter after a whole sequence of operations.
pub open spec fn apply_ops(st: (Map<u16, Seq<char>>, u16), ops: Seq<RegOp>) -> (
    Map<u16, Seq<char>>,
    u16,
)
    decreases ops.len(),
{
    if ops.len() == 0 {
        st
    } else {
        apply_ops(apply_op(st, ops[0]), ops.drop_first())
    }
}

/// Whether the operation is the remove that matches `id`.
pub open spec fn removes(op: RegOp, id: u16) -> bool {
    op matches RegOp::Remove { id: r } && r == id
}

/// Whether the operation is an add.
pub open spec fn is_add(op: RegOp) -> bool {
    op is Add
}

/// Law: over any sequence of adds and removes, an entry keeps its text
/// until a matching remove is issued — provided no add in the sequence
/// lands on the same id again, which the wrapped counter can eventually do
/// (the accepted reuse of ids after wraparound is exactly the case this
/// law leaves out).
pub proof fn law_get_until_remove(
    st: (Map<u16, Seq<char>>, u16),
    ops: Seq<RegOp>,
    id: u16,
    text: Seq<char>,
)
    requires
        st.0.contains_key(id),
        st.0[id] == text,
        forall|k: int| 0 <= k < ops.len() ==> !removes(#[trigger] ops[k], id),
        forall|k: int|
            0 <= k < ops.len() ==> !(is_add(#[trigger] ops[k]) && apply_ops(
                st,
                ops.subrange(0, k),
            ).1 == id),
    ensures
        apply_ops(st, ops).0.contains_key(id),
        apply_ops(st, ops).0[id] == text,
    decreases ops.len(),
{
    if ops.len() > 0 {
        let st1 = apply_op(st, ops[0]);
        assert(ops.subrange(0, 0) =~= Seq::<RegOp>::empty());
        match ops[0] {
            RegOp::Add { text: t0 } => {
                assert(st.1 != id);
                assert(st1.0.contains_key(id) && st1.0[id] == text);
            },
            RegOp::Remove { id: r0 } => {
                assert(r0 != id);
                assert(st1.0.contains_key(id) && st1.0[id] == text);
            },
        }
        let rest = ops.drop_first();
        assert forall|k: int|
            0 <= k < rest.len() implies !(is_add(#[trigger] rest[k]) && apply_ops(
            st1,
            rest.subrange(0, k),
        ).1 == id) by {
            assert(rest[k] == ops[k + 1]);
            assert(ops.subrange(0, k + 1)[0] == ops[0]);
            assert(ops.subrange(0, k + 1).drop_first() =~= rest.subrange(0, k));
            assert(apply_ops(st, ops.subrange(0, k + 1)) == apply_ops(
                st1,
                rest.subrange(0, k),
            ));
        }
        assert(forall|k: int| 0 <= k < rest.len() ==> !removes(#[trigger] rest[k], id));
        law_get_until_remove(st1, rest, id, text);
    }
}

} // verus!
